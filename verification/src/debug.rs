//! Tagged log messages and the filter that decides which are written.
//!
//! Nothing here writes: [`Logger::log`] says what is to be done with a
//! message, and [`write_log`] makes the line to write.

use vstd::prelude::*;
use vstd::string::*;
use crate::text::same_text;

verus! {

/// Which messages are written, by their tags.
#[derive(Clone, Copy, Debug)]
pub enum Filter<'a> {
    /// Messages with at least one tag of the list.
    Allow(&'a [&'a str]),
    /// Messages with no tag of the list.
    Deny(&'a [&'a str]),
    /// Messages whose tags are all in the list.
    Only(&'a [&'a str]),
    /// Messages with at least one tag that is not in the list.
    Not(&'a [&'a str]),
    /// Every message.
    Unfiltered,
}

/// Whether `tag` is in `list`.
pub open spec fn listed(list: Seq<&str>, tag: &str) -> bool {
    exists|k: int| 0 <= k < list.len() && (#[trigger] list[k])@ == tag@
}

/// Whether one of the first `n` tags is in `list`.
pub open spec fn any_listed(list: Seq<&str>, tags: Seq<&str>, n: int) -> bool {
    exists|i: int| 0 <= i < n && listed(list, #[trigger] tags[i])
}

/// Whether the first `n` tags are all in `list`.
pub open spec fn all_listed(list: Seq<&str>, tags: Seq<&str>, n: int) -> bool {
    forall|i: int| 0 <= i < n ==> listed(list, #[trigger] tags[i])
}

impl<'a> Filter<'a> {
    /// Whether a message with these tags is written.
    pub open spec fn admits(self, tags: Seq<&str>) -> bool {
        match self {
            Filter::Allow(list) => any_listed(list@, tags, tags.len() as int),
            Filter::Deny(list) => !any_listed(list@, tags, tags.len() as int),
            Filter::Only(list) => all_listed(list@, tags, tags.len() as int),
            Filter::Not(list) => !all_listed(list@, tags, tags.len() as int),
            Filter::Unfiltered => true,
        }
    }

    /// Whether a message with these tags is written.
    pub fn passes(&self, tags: &[&str]) -> (r: bool)
        ensures
            r == self.admits(tags@),
    {
        match self {
            Filter::Allow(list) => any_in(list, tags),
            Filter::Deny(list) => !any_in(list, tags),
            Filter::Only(list) => all_in(list, tags),
            Filter::Not(list) => !all_in(list, tags),
            Filter::Unfiltered => true,
        }
    }
}

/// Whether `tag` is in `list`.
pub fn contains(list: &[&str], tag: &str) -> (r: bool)
    ensures
        r == listed(list@, tag),
{
    let mut k: usize = 0;
    while k < list.len()
        invariant
            k <= list@.len(),
            forall|j: int| 0 <= j < k ==> (#[trigger] list@[j])@ != tag@,
        decreases list@.len() - k,
    {
        if same_text(list[k], tag) {
            return true;
        }
        k = k + 1;
    }
    false
}

fn any_in(list: &[&str], tags: &[&str]) -> (r: bool)
    ensures
        r == any_listed(list@, tags@, tags@.len() as int),
{
    let mut i: usize = 0;
    while i < tags.len()
        invariant
            i <= tags@.len(),
            !any_listed(list@, tags@, i as int),
        decreases tags@.len() - i,
    {
        if contains(list, tags[i]) {
            return true;
        }
        i = i + 1;
    }
    false
}

fn all_in(list: &[&str], tags: &[&str]) -> (r: bool)
    ensures
        r == all_listed(list@, tags@, tags@.len() as int),
{
    let mut i: usize = 0;
    while i < tags.len()
        invariant
            i <= tags@.len(),
            all_listed(list@, tags@, i as int),
        decreases tags@.len() - i,
    {
        if !contains(list, tags[i]) {
            return false;
        }
        i = i + 1;
    }
    true
}

/// What is to be done with a message.
#[derive(Clone, Copy, Debug, PartialEq, Eq, Structural)]
pub enum Verdict {
    /// Write the message.
    Write,
    /// Write, in place of the message, that logging was not set up.
    Warn,
    /// Write nothing.
    Drop,
}

/// The state of the log: whether it was set up, with which filter, and how
/// many messages came before it was.
#[derive(Clone, Copy, Debug)]
pub struct Logger<'a> {
    pub active: bool,
    pub filter: Filter<'a>,
    pub missed: u8,
}

impl<'a> Logger<'a> {
    /// What [`log`](Logger::log) answers for a message with these tags.
    pub open spec fn verdict(self, tags: Seq<&str>) -> Verdict {
        if self.active {
            if self.filter.admits(tags) {
                Verdict::Write
            } else {
                Verdict::Drop
            }
        } else if self.missed == 1 {
            Verdict::Warn
        } else {
            Verdict::Drop
        }
    }

    /// The count of missed messages after one more: it rises from zero to
    /// one, stays at one, and rises from any other value up to 255.
    pub open spec fn missed_after(self) -> u8 {
        if self.active || self.missed == 1 || self.missed == u8::MAX {
            self.missed
        } else {
            (self.missed + 1) as u8
        }
    }

    /// A log that was not set up.
    pub fn new() -> (r: Logger<'a>)
        ensures
            !r.active,
            r.filter == Filter::<'a>::Unfiltered,
            r.missed == 0,
    {
        Logger { active: false, filter: Filter::Unfiltered, missed: 0 }
    }

    /// Sets the log up, or shuts it down. The answer says whether the set-up
    /// is to be announced: it is where the log is active.
    pub fn init(&mut self, active: bool, filter: Filter<'a>) -> (announce: bool)
        ensures
            final(self).active == active,
            final(self).filter == filter,
            final(self).missed == old(self).missed,
            announce == active,
    {
        self.active = active;
        self.filter = filter;
        active
    }

    /// Decides what is to be done with a message. An active log writes what
    /// its filter admits. A log that was not set up drops the first message,
    /// and warns in place of every later one.
    pub fn log(&mut self, tags: &[&str]) -> (r: Verdict)
        ensures
            r == old(self).verdict(tags@),
            final(self).active == old(self).active,
            final(self).filter == old(self).filter,
            final(self).missed == old(self).missed_after(),
    {
        if self.active {
            if self.filter.passes(tags) {
                Verdict::Write
            } else {
                Verdict::Drop
            }
        } else if self.missed == 1 {
            Verdict::Warn
        } else {
            if self.missed < u8::MAX {
                self.missed = self.missed + 1;
            }
            Verdict::Drop
        }
    }
}

/// The first `n` tags with `][` between them.
pub open spec fn joined(tags: Seq<&str>, n: int) -> Seq<char>
    decreases n,
{
    if n <= 0 {
        Seq::empty()
    } else if n == 1 {
        tags[0]@
    } else {
        joined(tags, n - 1) + "]["@ + tags[n - 1]@
    }
}

/// The line for a message: its tags in square brackets, a colon, a space,
/// the message, and a line feed.
pub open spec fn line_of(tags: Seq<&str>, message: Seq<char>) -> Seq<char> {
    "["@ + joined(tags, tags.len() as int) + "]: "@ + message + "\n"@
}

/// Makes the line to write for a message.
pub fn write_log(tags: &[&str], message: &str) -> (line: String)
    ensures
        line@ == line_of(tags@, message@),
{
    let mut line = String::from_str("[");
    let mut i: usize = 0;
    while i < tags.len()
        invariant
            i <= tags@.len(),
            line@ == "["@ + joined(tags@, i as int),
        decreases tags@.len() - i,
    {
        let ghost before = line@;
        if i > 0 {
            line.append("][");
        }
        line.append(tags[i]);
        proof {
            if i > 0 {
                assert(line@ =~= "["@ + (joined(tags@, i as int) + "]["@ + tags@[i as int]@));
            } else {
                assert(line@ =~= "["@ + tags@[0]@);
            }
        }
        i = i + 1;
    }
    line.append("]: ");
    line.append(message);
    line.append("\n");
    line
}

} // verus!
