//! The description of a window, built field by field.

use vstd::prelude::*;
use vstd::std_specs::cmp::PartialEqSpecImpl;
use crate::color::Color;
use crate::scalar::{Scalar, ZERO_BITS};
use crate::size::Size2D;
use crate::text::same_text;

verus! {

/// `856.0`, the width of a window that was given no size.
pub const DEFAULT_WIDTH_BITS: u32 = 0x4456_0000;

/// `482.0`, the height of a window that was given no size.
pub const DEFAULT_HEIGHT_BITS: u32 = 0x43f1_0000;

/// `160.0`, the least width of a window that was given no size.
pub const LEAST_WIDTH_BITS: u32 = 0x4320_0000;

/// `90.0`, the least height of a window that was given no size.
pub const LEAST_HEIGHT_BITS: u32 = 0x42b4_0000;

/// A ratio of two whole numbers, such as 16 to 9.
#[derive(Clone, Copy, Debug)]
pub struct Ratio2D(pub u32, pub u32);

impl PartialEq for Ratio2D {
    fn eq(&self, other: &Ratio2D) -> (r: bool) {
        self.0 == other.0 && self.1 == other.1
    }
}

impl PartialEqSpecImpl for Ratio2D {
    open spec fn obeys_eq_spec() -> bool {
        true
    }

    open spec fn eq_spec(&self, other: &Ratio2D) -> bool {
        self.0 == other.0 && self.1 == other.1
    }
}

impl Eq for Ratio2D {

}

/// What a window is to look like when it is opened.
#[derive(Clone, Copy, Debug)]
pub struct Window {
    pub title: &'static str,
    pub icon: &'static str,
    pub size: Size2D,
    pub max: Size2D,
    pub min: Size2D,
    pub aspect_ratio: (u8, u8),
    pub resizable: bool,
    pub fullscreen: bool,
    pub maximized: bool,
    pub visible: bool,
    pub focused: bool,
    pub transparent: bool,
    pub decorations: bool,
    pub always_on_top: bool,
    pub color: Color,
}

impl Window {
    /// The size of a window that was given none.
    pub open spec fn default_size() -> Size2D {
        Size2D::of(Scalar::of(DEFAULT_WIDTH_BITS), Scalar::of(DEFAULT_HEIGHT_BITS))
    }

    /// What every new window starts from, whatever its title, size or colour:
    /// no icon, 16 to 9, resizable, visible, focused, decorated, and neither
    /// fullscreen, maximized, transparent nor always on top.
    pub open spec fn has_default_flags(self) -> bool {
        &&& self.icon@ == ""@
        &&& self.aspect_ratio == (16u8, 9u8)
        &&& self.resizable
        &&& !self.fullscreen
        &&& !self.maximized
        &&& self.visible
        &&& self.focused
        &&& !self.transparent
        &&& self.decorations
        &&& !self.always_on_top
    }

    /// Whether two windows are equal: in every field but the aspect ratio,
    /// which takes no part in the comparison.
    pub open spec fn same_value(self, other: Window) -> bool {
        &&& self.title@ == other.title@
        &&& self.icon@ == other.icon@
        &&& self.size.same_value(other.size)
        &&& self.max.same_value(other.max)
        &&& self.min.same_value(other.min)
        &&& self.resizable == other.resizable
        &&& self.fullscreen == other.fullscreen
        &&& self.maximized == other.maximized
        &&& self.visible == other.visible
        &&& self.focused == other.focused
        &&& self.transparent == other.transparent
        &&& self.decorations == other.decorations
        &&& self.always_on_top == other.always_on_top
        &&& self.color.same_value(other.color)
    }

    /// A window titled "window", 856 by 482 at most and at first, 160 by 90
    /// at least, black.
    pub fn new() -> (r: Window)
        ensures
            r.title@ == "window"@,
            r.size == Window::default_size(),
            r.max == Window::default_size(),
            r.min == Size2D::of(Scalar::of(LEAST_WIDTH_BITS), Scalar::of(LEAST_HEIGHT_BITS)),
            r.color == Color::of_bytes(0, 0, 0),
            r.has_default_flags(),
    {
        let size = Size2D::from(
            Scalar::from_bits(DEFAULT_WIDTH_BITS),
            Scalar::from_bits(DEFAULT_HEIGHT_BITS),
        );
        Window {
            title: "window",
            icon: "",
            size,
            max: size,
            min: Size2D::from(
                Scalar::from_bits(LEAST_WIDTH_BITS),
                Scalar::from_bits(LEAST_HEIGHT_BITS),
            ),
            aspect_ratio: (16, 9),
            resizable: true,
            fullscreen: false,
            maximized: false,
            visible: true,
            focused: true,
            transparent: false,
            decorations: true,
            always_on_top: false,
            color: Color::black(),
        }
    }

    /// A window with the given title, size and colour. The size is also the
    /// largest size; the least size is zero.
    pub fn from(title: &'static str, size: Size2D, color: Color) -> (r: Window)
        ensures
            r.title == title,
            r.size == size,
            r.max == size,
            r.min == Size2D::of(Scalar::of(ZERO_BITS), Scalar::of(ZERO_BITS)),
            r.color == color,
            r.has_default_flags(),
    {
        Window {
            title,
            icon: "",
            size,
            max: size,
            min: Size2D::new(),
            aspect_ratio: (16, 9),
            resizable: true,
            fullscreen: false,
            maximized: false,
            visible: true,
            focused: true,
            transparent: false,
            decorations: true,
            always_on_top: false,
            color,
        }
    }

    pub fn title(self, title: &'static str) -> (r: Window)
        ensures
            r == (Window { title, ..self }),
    {
        Window { title, ..self }
    }

    pub fn icon(self, path: &'static str) -> (r: Window)
        ensures
            r == (Window { icon: path, ..self }),
    {
        Window { icon: path, ..self }
    }

    pub fn size(self, size: Size2D) -> (r: Window)
        ensures
            r == (Window { size, ..self }),
    {
        Window { size, ..self }
    }

    pub fn max(self, max: Size2D) -> (r: Window)
        ensures
            r == (Window { max, ..self }),
    {
        Window { max, ..self }
    }

    pub fn min(self, min: Size2D) -> (r: Window)
        ensures
            r == (Window { min, ..self }),
    {
        Window { min, ..self }
    }

    pub fn aspect_ratio(self, aspect_ratio: (u8, u8)) -> (r: Window)
        ensures
            r == (Window { aspect_ratio, ..self }),
    {
        Window { aspect_ratio, ..self }
    }

    pub fn resizable(self, resizable: bool) -> (r: Window)
        ensures
            r == (Window { resizable, ..self }),
    {
        Window { resizable, ..self }
    }

    pub fn fullscreen(self, fullscreen: bool) -> (r: Window)
        ensures
            r == (Window { fullscreen, ..self }),
    {
        Window { fullscreen, ..self }
    }

    pub fn maximized(self, maximized: bool) -> (r: Window)
        ensures
            r == (Window { maximized, ..self }),
    {
        Window { maximized, ..self }
    }

    pub fn visible(self, visible: bool) -> (r: Window)
        ensures
            r == (Window { visible, ..self }),
    {
        Window { visible, ..self }
    }

    pub fn focused(self, focused: bool) -> (r: Window)
        ensures
            r == (Window { focused, ..self }),
    {
        Window { focused, ..self }
    }

    pub fn transparent(self, transparent: bool) -> (r: Window)
        ensures
            r == (Window { transparent, ..self }),
    {
        Window { transparent, ..self }
    }

    pub fn decorations(self, decorations: bool) -> (r: Window)
        ensures
            r == (Window { decorations, ..self }),
    {
        Window { decorations, ..self }
    }

    pub fn always_on_top(self, always_on_top: bool) -> (r: Window)
        ensures
            r == (Window { always_on_top, ..self }),
    {
        Window { always_on_top, ..self }
    }

    pub fn color(self, color: Color) -> (r: Window)
        ensures
            r == (Window { color, ..self }),
    {
        Window { color, ..self }
    }

    /// Draws nothing.
    pub fn draw() {
    }
}

impl PartialEq for Window {
    fn eq(&self, other: &Window) -> (r: bool) {
        same_text(self.title, other.title) && same_text(self.icon, other.icon) && self.size
            == other.size && self.max == other.max && self.min == other.min && self.resizable
            == other.resizable && self.fullscreen == other.fullscreen && self.maximized
            == other.maximized && self.visible == other.visible && self.focused == other.focused
            && self.transparent == other.transparent && self.decorations == other.decorations
            && self.always_on_top == other.always_on_top && self.color == other.color
    }
}

impl PartialEqSpecImpl for Window {
    open spec fn obeys_eq_spec() -> bool {
        true
    }

    open spec fn eq_spec(&self, other: &Window) -> bool {
        self.same_value(*other)
    }
}

} // verus!
