//! What the engine does about the events of its window.
//!
//! The caller turns what the windowing layer reports into [`WindowEvent`]s,
//! and carries out the [`Effect`]s that come back.

use vstd::prelude::*;

verus! {

/// The keys that the engine knows.
#[derive(Clone, Copy, Debug, PartialEq, Eq, Structural)]
pub enum Key {
    Escape,
    W,
    A,
    S,
    D,
    Other,
}

/// What happened to a key.
#[derive(Clone, Copy, Debug, PartialEq, Eq, Structural)]
pub enum Action {
    Press,
    Release,
    Repeat,
}

/// An event of the window.
#[derive(Clone, Copy, Debug, PartialEq, Eq, Structural)]
pub enum WindowEvent {
    /// The framebuffer now has this width and height.
    FramebufferSize(i32, i32),
    Key(Key, Action),
    Other,
}

/// What a pressed key says.
#[derive(Clone, Copy, Debug, PartialEq, Eq, Structural)]
pub enum Message {
    Up,
    Left,
    Down,
    Right,
}

/// Something for the caller to do.
#[derive(Clone, Copy, Debug, PartialEq, Eq, Structural)]
pub enum Effect {
    /// Make the viewport cover a framebuffer of this width and height.
    Viewport(i32, i32),
    /// Ask the window to close.
    Close,
    /// Print the message.
    Print(Message),
}

impl Message {
    /// The text of the message.
    pub fn text(self) -> (r: &'static str)
        ensures
            r@ == match self {
                Message::Up => "Up ^"@,
                Message::Left => "Left <-"@,
                Message::Down => "Down v"@,
                Message::Right => "Right ->"@,
            },
    {
        match self {
            Message::Up => "Up ^",
            Message::Left => "Left <-",
            Message::Down => "Down v",
            Message::Right => "Right ->",
        }
    }
}

/// What a key event leads to: Escape closes, W, A, S and D speak, when
/// pressed; nothing else does anything.
pub open spec fn key_effect(event: WindowEvent) -> Option<Effect> {
    match event {
        WindowEvent::Key(Key::Escape, Action::Press) => Some(Effect::Close),
        WindowEvent::Key(Key::W, Action::Press) => Some(Effect::Print(Message::Up)),
        WindowEvent::Key(Key::A, Action::Press) => Some(Effect::Print(Message::Left)),
        WindowEvent::Key(Key::S, Action::Press) => Some(Effect::Print(Message::Down)),
        WindowEvent::Key(Key::D, Action::Press) => Some(Effect::Print(Message::Right)),
        _ => None,
    }
}

/// What one event leads to, in order: a new framebuffer size sets the
/// viewport; then the keyboard has its say.
pub open spec fn effects_of(event: WindowEvent) -> Seq<Effect> {
    let first = match event {
        WindowEvent::FramebufferSize(width, height) => seq![Effect::Viewport(width, height)],
        _ => Seq::empty(),
    };
    match key_effect(event) {
        Some(effect) => first.push(effect),
        None => first,
    }
}

/// What the first `n` events lead to, in order.
pub open spec fn effects_among(events: Seq<WindowEvent>, n: int) -> Seq<Effect>
    decreases n,
{
    if n <= 0 {
        Seq::empty()
    } else {
        effects_among(events, n - 1) + effects_of(events[n - 1])
    }
}

/// What the keyboard makes of an event.
pub fn KeyboardHandler(event: WindowEvent) -> (r: Option<Effect>)
    ensures
        r == key_effect(event),
{
    match event {
        WindowEvent::Key(Key::Escape, Action::Press) => Some(Effect::Close),
        WindowEvent::Key(Key::W, Action::Press) => Some(Effect::Print(Message::Up)),
        WindowEvent::Key(Key::A, Action::Press) => Some(Effect::Print(Message::Left)),
        WindowEvent::Key(Key::S, Action::Press) => Some(Effect::Print(Message::Down)),
        WindowEvent::Key(Key::D, Action::Press) => Some(Effect::Print(Message::Right)),
        _ => None,
    }
}

/// What is to be done about the events, in their order.
pub fn process_events(events: &Vec<WindowEvent>) -> (r: Vec<Effect>)
    ensures
        r@ == effects_among(events@, events@.len() as int),
{
    let mut effects: Vec<Effect> = Vec::new();
    let mut i: usize = 0;
    while i < events.len()
        invariant
            i <= events@.len(),
            effects@ == effects_among(events@, i as int),
        decreases events@.len() - i,
    {
        let event = events[i];
        let ghost before = effects@;
        match event {
            WindowEvent::FramebufferSize(width, height) => {
                effects.push(Effect::Viewport(width, height));
            },
            _ => {},
        }
        match KeyboardHandler(event) {
            Some(effect) => {
                effects.push(effect);
            },
            None => {},
        }
        assert(effects@ =~= before + effects_of(event));
        i = i + 1;
    }
    effects
}

/// Where to put the corner of a window so that it sits in the middle of a
/// work area: half of what the area has more than the window, each way,
/// rounded toward zero.
pub open spec fn centred(area: (i32, i32), window: (i32, i32)) -> (int, int) {
    (half(area.0 - window.0), half(area.1 - window.1))
}

/// Half of `n`, rounded toward zero.
pub open spec fn half(n: int) -> int {
    if n >= 0 {
        n / 2
    } else {
        -((-n) / 2)
    }
}

fn halve(n: i32) -> (r: i32)
    ensures
        r == half(n as int),
{
    if n >= 0 {
        n / 2
    } else if n == i32::MIN {
        -1073741824
    } else {
        -((-n) / 2)
    }
}

/// Where to put the corner of a window of the given width and height so that
/// it sits in the middle of a work area of the given width and height.
pub fn centre(area: (i32, i32), window: (i32, i32)) -> (r: (i32, i32))
    requires
        i32::MIN <= area.0 - window.0 <= i32::MAX,
        i32::MIN <= area.1 - window.1 <= i32::MAX,
    ensures
        (r.0 as int, r.1 as int) == centred(area, window),
{
    (halve(area.0 - window.0), halve(area.1 - window.1))
}

} // verus!
