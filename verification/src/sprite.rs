//! Sprites, and animations that step through a tape of them.

use vstd::prelude::*;
use crate::color::Color;
use crate::position::Position2D;
use crate::scalar::{Scalar, CHANNEL_MAX_BITS, ZERO_BITS};
use crate::size::Size2D;

verus! {

/// An image to draw: where it comes from, how large it is, where it sits
/// relative to its owner, and the colour it is tinted with.
#[derive(Clone, Copy, Debug)]
pub struct Sprite2D {
    pub src: &'static str,
    pub size: Size2D,
    pub offset: Position2D,
    pub color: Color,
}

impl Sprite2D {
    /// A sprite without a source, of no size, at no offset, white.
    pub fn new() -> (r: Sprite2D)
        ensures
            r.src@ == ""@,
            r.size == Size2D::of(Scalar::of(ZERO_BITS), Scalar::of(ZERO_BITS)),
            r.offset == Position2D::of(Scalar::of(ZERO_BITS), Scalar::of(ZERO_BITS)),
            r.color == Color::of(
                Scalar::of(CHANNEL_MAX_BITS),
                Scalar::of(CHANNEL_MAX_BITS),
                Scalar::of(CHANNEL_MAX_BITS),
                Scalar::of(CHANNEL_MAX_BITS),
            ),
    {
        Sprite2D { src: "", size: Size2D::new(), offset: Position2D::new(), color: Color::new() }
    }

    pub fn from(src: &'static str, size: Size2D, offset: Position2D, color: Color) -> (r: Sprite2D)
        ensures
            r == (Sprite2D { src, size, offset, color }),
    {
        Sprite2D { src, size, offset, color }
    }

    /// Every sprite is valid.
    pub fn is_valid(self) -> (r: bool)
        ensures
            r,
    {
        true
    }
}

/// Something to do when an animation reaches the sprite at `index`.
pub struct AnimationTrigger<F> {
    pub index: usize,
    pub func: F,
}

impl<F> AnimationTrigger<F> {
    pub fn from(index: usize, func: F) -> (r: AnimationTrigger<F>)
        ensures
            r.index == index,
            r.func == func,
    {
        AnimationTrigger { index, func }
    }
}

/// The positions, in rising order, of the first `n` triggers that are set on
/// the sprite at `at`.
pub open spec fn due_among<F>(triggers: Seq<AnimationTrigger<F>>, at: usize, n: int) -> Seq<usize>
    decreases n,
{
    if n <= 0 {
        Seq::empty()
    } else if triggers[n - 1].index == at {
        due_among(triggers, at, n - 1).push((n - 1) as usize)
    } else {
        due_among(triggers, at, n - 1)
    }
}

/// A tape of sprites, the one that is showing, and the triggers set on it.
pub struct Animation2D<F> {
    pub sprite: Sprite2D,
    pub index: usize,
    pub tape: Vec<Sprite2D>,
    pub triggers: Vec<AnimationTrigger<F>>,
    pub pause: bool,
}

impl<F> Animation2D<F> {
    /// Whether [`play`](Animation2D::play) can take a step: the animation is
    /// paused, or a sprite follows the one that is showing.
    pub open spec fn can_play(self) -> bool {
        self.pause || self.index + 1 < self.tape@.len()
    }

    /// An empty animation, not paused.
    pub fn new() -> (r: Animation2D<F>)
        ensures
            r.index == 0,
            r.tape@.len() == 0,
            r.triggers@.len() == 0,
            !r.pause,
    {
        Animation2D {
            sprite: Sprite2D::new(),
            index: 0,
            tape: Vec::new(),
            triggers: Vec::new(),
            pause: false,
        }
    }

    /// An animation over `tape` that shows `sprite` and stands at the start.
    pub fn from(
        sprite: Sprite2D,
        tape: Vec<Sprite2D>,
        triggers: Vec<AnimationTrigger<F>>,
        pause: bool,
    ) -> (r: Animation2D<F>)
        ensures
            r.sprite == sprite,
            r.index == 0,
            r.tape == tape,
            r.triggers == triggers,
            r.pause == pause,
    {
        Animation2D { sprite, index: 0, tape, triggers, pause }
    }

    /// Appends a sprite to the tape.
    pub fn insert_sprite(&mut self, sprite: Sprite2D)
        ensures
            final(self).tape@ == old(self).tape@.push(sprite),
            final(self).sprite == old(self).sprite,
            final(self).index == old(self).index,
            final(self).triggers == old(self).triggers,
            final(self).pause == old(self).pause,
    {
        self.tape.push(sprite);
    }

    /// Shows the sprite at `index` of the tape.
    pub fn set_sprite(&mut self, index: usize)
        requires
            index < old(self).tape@.len(),
        ensures
            final(self).index == index,
            final(self).sprite == old(self).tape@[index as int],
            final(self).tape == old(self).tape,
            final(self).triggers == old(self).triggers,
            final(self).pause == old(self).pause,
    {
        self.index = index;
        self.sprite = self.tape[index];
    }

    /// Appends a trigger.
    pub fn insert_trigger(&mut self, trigger: AnimationTrigger<F>)
        ensures
            final(self).triggers@ == old(self).triggers@.push(trigger),
            final(self).sprite == old(self).sprite,
            final(self).index == old(self).index,
            final(self).tape == old(self).tape,
            final(self).pause == old(self).pause,
    {
        self.triggers.push(trigger);
    }

    /// Whether a step can be taken; see [`can_play`](Animation2D::can_play).
    pub fn is_playable(&self) -> (r: bool)
        ensures
            r == self.can_play(),
    {
        let n: usize = self.tape.len();
        self.pause || (self.index < n && self.index + 1 < n)
    }

    /// Steps to the next sprite, unless the animation is paused, and returns
    /// the positions of the triggers that are set on the sprite now showing,
    /// in the order in which they were inserted. The caller runs them.
    pub fn play(&mut self) -> (due: Vec<usize>)
        requires
            old(self).can_play(),
        ensures
            final(self).tape == old(self).tape,
            final(self).triggers == old(self).triggers,
            final(self).pause == old(self).pause,
            old(self).pause ==> final(self).index == old(self).index && final(self).sprite == old(
                self,
            ).sprite && due@.len() == 0,
            !old(self).pause ==> final(self).index == old(self).index + 1 && final(self).sprite
                == old(self).tape@[old(self).index + 1] && due@ == due_among(
                old(self).triggers@,
                final(self).index,
                old(self).triggers@.len() as int,
            ),
    {
        let mut due: Vec<usize> = Vec::new();
        if !self.pause {
            assert(self.index + 1 < self.tape.len());
            self.index = self.index + 1;
            self.sprite = self.tape[self.index];
            let at: usize = self.index;
            let mut i: usize = 0;
            while i < self.triggers.len()
                invariant
                    i <= self.triggers@.len(),
                    due@ == due_among(self.triggers@, at, i as int),
                decreases self.triggers@.len() - i,
            {
                if self.triggers[i].index == at {
                    due.push(i);
                }
                i = i + 1;
            }
        }
        due
    }

    /// Pauses the animation.
    pub fn stop(&mut self)
        ensures
            final(self).pause,
            final(self).sprite == old(self).sprite,
            final(self).index == old(self).index,
            final(self).tape == old(self).tape,
            final(self).triggers == old(self).triggers,
    {
        self.pause = true;
    }
}

} // verus!
