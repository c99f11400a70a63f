//! The named colours, all opaque.

use vstd::prelude::*;
use crate::color::Color;
use crate::scalar::{Scalar, CHANNEL_MAX_BITS};

verus! {

impl Color {
    /// The opaque colour with the given red, green and blue, each counted
    /// from 0 to 255.
    pub open spec fn of_bytes(r: u8, g: u8, b: u8) -> Color {
        Color::of(
            Scalar::of_byte(r),
            Scalar::of_byte(g),
            Scalar::of_byte(b),
            Scalar::of(CHANNEL_MAX_BITS),
        )
    }

    /// The opaque colour with the given red, green and blue, each counted
    /// from 0 to 255.
    pub fn opaque(r: u8, g: u8, b: u8) -> (c: Color)
        ensures
            c == Color::of_bytes(r, g, b),
            c.in_range(),
    {
        Color {
            r: Scalar::from_u8(r),
            g: Scalar::from_u8(g),
            b: Scalar::from_u8(b),
            a: Scalar::from_bits(CHANNEL_MAX_BITS),
        }
    }

    /// `#cd5c5c`
    pub fn indianred() -> (c: Color)
        ensures
            c == Color::of_bytes(205, 92, 92),
    {
        Color::opaque(205, 92, 92)
    }

    /// `#f08080`
    pub fn lightcoral() -> (c: Color)
        ensures
            c == Color::of_bytes(240, 128, 128),
    {
        Color::opaque(240, 128, 128)
    }

    /// `#fa8072`
    pub fn salmon() -> (c: Color)
        ensures
            c == Color::of_bytes(250, 128, 114),
    {
        Color::opaque(250, 128, 114)
    }

    /// `#e9967a`
    pub fn darksalmon() -> (c: Color)
        ensures
            c == Color::of_bytes(233, 150, 122),
    {
        Color::opaque(233, 150, 122)
    }

    /// `#ffa07a`
    pub fn lightsalmon() -> (c: Color)
        ensures
            c == Color::of_bytes(255, 160, 122),
    {
        Color::opaque(255, 160, 122)
    }

    /// `#dc143c`
    pub fn crimson() -> (c: Color)
        ensures
            c == Color::of_bytes(220, 20, 60),
    {
        Color::opaque(220, 20, 60)
    }

    /// `#ff0000`
    pub fn red() -> (c: Color)
        ensures
            c == Color::of_bytes(255, 0, 0),
    {
        Color::opaque(255, 0, 0)
    }

    /// `#b22222`
    pub fn firebrick() -> (c: Color)
        ensures
            c == Color::of_bytes(178, 34, 34),
    {
        Color::opaque(178, 34, 34)
    }

    /// `#8b0000`
    pub fn darkred() -> (c: Color)
        ensures
            c == Color::of_bytes(139, 0, 0),
    {
        Color::opaque(139, 0, 0)
    }

    /// `#ffc0cb`
    pub fn pink() -> (c: Color)
        ensures
            c == Color::of_bytes(255, 192, 203),
    {
        Color::opaque(255, 192, 203)
    }

    /// `#ffb6c1`
    pub fn lightpink() -> (c: Color)
        ensures
            c == Color::of_bytes(255, 182, 193),
    {
        Color::opaque(255, 182, 193)
    }

    /// `#ff69b4`
    pub fn hotpink() -> (c: Color)
        ensures
            c == Color::of_bytes(255, 105, 180),
    {
        Color::opaque(255, 105, 180)
    }

    /// `#ff1493`
    pub fn deeppink() -> (c: Color)
        ensures
            c == Color::of_bytes(255, 20, 147),
    {
        Color::opaque(255, 20, 147)
    }

    /// `#c71585`
    pub fn mediumvioletred() -> (c: Color)
        ensures
            c == Color::of_bytes(199, 21, 133),
    {
        Color::opaque(199, 21, 133)
    }

    /// `#db7093`
    pub fn palevioletred() -> (c: Color)
        ensures
            c == Color::of_bytes(219, 112, 147),
    {
        Color::opaque(219, 112, 147)
    }

    /// `#ff7f50`
    pub fn coral() -> (c: Color)
        ensures
            c == Color::of_bytes(255, 127, 80),
    {
        Color::opaque(255, 127, 80)
    }

    /// `#ff6347`
    pub fn tomato() -> (c: Color)
        ensures
            c == Color::of_bytes(255, 99, 71),
    {
        Color::opaque(255, 99, 71)
    }

    /// `#ff4500`
    pub fn orangered() -> (c: Color)
        ensures
            c == Color::of_bytes(255, 69, 0),
    {
        Color::opaque(255, 69, 0)
    }

    /// `#ff8c00`
    pub fn darkorange() -> (c: Color)
        ensures
            c == Color::of_bytes(255, 140, 0),
    {
        Color::opaque(255, 140, 0)
    }

    /// `#ffa500`
    pub fn orange() -> (c: Color)
        ensures
            c == Color::of_bytes(255, 165, 0),
    {
        Color::opaque(255, 165, 0)
    }

    /// `#ffd700`
    pub fn gold() -> (c: Color)
        ensures
            c == Color::of_bytes(255, 215, 0),
    {
        Color::opaque(255, 215, 0)
    }

    /// `#ffff00`
    pub fn yellow() -> (c: Color)
        ensures
            c == Color::of_bytes(255, 255, 0),
    {
        Color::opaque(255, 255, 0)
    }

    /// `#ffffe0`
    pub fn lightyellow() -> (c: Color)
        ensures
            c == Color::of_bytes(255, 255, 224),
    {
        Color::opaque(255, 255, 224)
    }

    /// `#fffacd`
    pub fn lemonchiffon() -> (c: Color)
        ensures
            c == Color::of_bytes(255, 250, 205),
    {
        Color::opaque(255, 250, 205)
    }

    /// `#fafad2`
    pub fn lightgoldenrodyellow() -> (c: Color)
        ensures
            c == Color::of_bytes(250, 250, 210),
    {
        Color::opaque(250, 250, 210)
    }

    /// `#ffefd5`
    pub fn papayawhip() -> (c: Color)
        ensures
            c == Color::of_bytes(255, 239, 213),
    {
        Color::opaque(255, 239, 213)
    }

    /// `#ffe4b5`
    pub fn moccasin() -> (c: Color)
        ensures
            c == Color::of_bytes(255, 228, 181),
    {
        Color::opaque(255, 228, 181)
    }

    /// `#ffdab9`
    pub fn peachpuff() -> (c: Color)
        ensures
            c == Color::of_bytes(255, 218, 185),
    {
        Color::opaque(255, 218, 185)
    }

    /// `#eee8aa`
    pub fn palegoldenrod() -> (c: Color)
        ensures
            c == Color::of_bytes(238, 232, 170),
    {
        Color::opaque(238, 232, 170)
    }

    /// `#f0e68c`
    pub fn khaki() -> (c: Color)
        ensures
            c == Color::of_bytes(240, 230, 140),
    {
        Color::opaque(240, 230, 140)
    }

    /// `#bdb76b`
    pub fn darkkhaki() -> (c: Color)
        ensures
            c == Color::of_bytes(189, 183, 107),
    {
        Color::opaque(189, 183, 107)
    }

    /// `#e6e6fa`
    pub fn lavender() -> (c: Color)
        ensures
            c == Color::of_bytes(230, 230, 250),
    {
        Color::opaque(230, 230, 250)
    }

    /// `#d8bfd8`
    pub fn thistle() -> (c: Color)
        ensures
            c == Color::of_bytes(216, 191, 216),
    {
        Color::opaque(216, 191, 216)
    }

    /// `#dda0dd`
    pub fn plum() -> (c: Color)
        ensures
            c == Color::of_bytes(221, 160, 221),
    {
        Color::opaque(221, 160, 221)
    }

    /// `#ee82ee`
    pub fn violet() -> (c: Color)
        ensures
            c == Color::of_bytes(238, 130, 238),
    {
        Color::opaque(238, 130, 238)
    }

    /// `#da70d6`
    pub fn orchid() -> (c: Color)
        ensures
            c == Color::of_bytes(218, 112, 214),
    {
        Color::opaque(218, 112, 214)
    }

    /// `#ff00ff`
    pub fn fuchsia() -> (c: Color)
        ensures
            c == Color::of_bytes(255, 0, 255),
    {
        Color::opaque(255, 0, 255)
    }

    /// `#ff00ff`
    pub fn magenta() -> (c: Color)
        ensures
            c == Color::of_bytes(255, 0, 255),
    {
        Color::opaque(255, 0, 255)
    }

    /// `#ba55d3`
    pub fn mediumorchid() -> (c: Color)
        ensures
            c == Color::of_bytes(186, 85, 211),
    {
        Color::opaque(186, 85, 211)
    }

    /// `#9370db`
    pub fn mediumpurple() -> (c: Color)
        ensures
            c == Color::of_bytes(147, 112, 219),
    {
        Color::opaque(147, 112, 219)
    }

    /// `#663399`
    pub fn rebeccapurple() -> (c: Color)
        ensures
            c == Color::of_bytes(102, 51, 153),
    {
        Color::opaque(102, 51, 153)
    }

    /// `#8a2be2`
    pub fn blueviolet() -> (c: Color)
        ensures
            c == Color::of_bytes(138, 43, 226),
    {
        Color::opaque(138, 43, 226)
    }

    /// `#9400d3`
    pub fn darkviolet() -> (c: Color)
        ensures
            c == Color::of_bytes(148, 0, 211),
    {
        Color::opaque(148, 0, 211)
    }

    /// `#9932cc`
    pub fn darkorchid() -> (c: Color)
        ensures
            c == Color::of_bytes(153, 50, 204),
    {
        Color::opaque(153, 50, 204)
    }

    /// `#8b008b`
    pub fn darkmagenta() -> (c: Color)
        ensures
            c == Color::of_bytes(139, 0, 139),
    {
        Color::opaque(139, 0, 139)
    }

    /// `#800080`
    pub fn purple() -> (c: Color)
        ensures
            c == Color::of_bytes(128, 0, 128),
    {
        Color::opaque(128, 0, 128)
    }

    /// `#4b0082`
    pub fn indigo() -> (c: Color)
        ensures
            c == Color::of_bytes(75, 0, 130),
    {
        Color::opaque(75, 0, 130)
    }

    /// `#6a5acd`
    pub fn slateblue() -> (c: Color)
        ensures
            c == Color::of_bytes(106, 90, 205),
    {
        Color::opaque(106, 90, 205)
    }

    /// `#483d8b`
    pub fn darkslateblue() -> (c: Color)
        ensures
            c == Color::of_bytes(72, 61, 139),
    {
        Color::opaque(72, 61, 139)
    }

    /// `#7b68ee`
    pub fn mediumslateblue() -> (c: Color)
        ensures
            c == Color::of_bytes(123, 104, 238),
    {
        Color::opaque(123, 104, 238)
    }

    /// `#adff2f`
    pub fn greenyellow() -> (c: Color)
        ensures
            c == Color::of_bytes(173, 255, 47),
    {
        Color::opaque(173, 255, 47)
    }

    /// `#7fff00`
    pub fn chartreuse() -> (c: Color)
        ensures
            c == Color::of_bytes(127, 255, 0),
    {
        Color::opaque(127, 255, 0)
    }

    /// `#7cfc00`
    pub fn lawngreen() -> (c: Color)
        ensures
            c == Color::of_bytes(124, 252, 0),
    {
        Color::opaque(124, 252, 0)
    }

    /// `#00ff00`
    pub fn lime() -> (c: Color)
        ensures
            c == Color::of_bytes(0, 255, 0),
    {
        Color::opaque(0, 255, 0)
    }

    /// `#32cd32`
    pub fn limegreen() -> (c: Color)
        ensures
            c == Color::of_bytes(50, 205, 50),
    {
        Color::opaque(50, 205, 50)
    }

    /// `#98fb98`
    pub fn palegreen() -> (c: Color)
        ensures
            c == Color::of_bytes(152, 251, 152),
    {
        Color::opaque(152, 251, 152)
    }

    /// `#90ee90`
    pub fn lightgreen() -> (c: Color)
        ensures
            c == Color::of_bytes(144, 238, 144),
    {
        Color::opaque(144, 238, 144)
    }

    /// `#00fa9a`
    pub fn mediumspringgreen() -> (c: Color)
        ensures
            c == Color::of_bytes(0, 250, 154),
    {
        Color::opaque(0, 250, 154)
    }

    /// `#00ff7f`
    pub fn springgreen() -> (c: Color)
        ensures
            c == Color::of_bytes(0, 255, 127),
    {
        Color::opaque(0, 255, 127)
    }

    /// `#3cb371`
    pub fn mediumseagreen() -> (c: Color)
        ensures
            c == Color::of_bytes(60, 179, 113),
    {
        Color::opaque(60, 179, 113)
    }

    /// `#2e8b57`
    pub fn seagreen() -> (c: Color)
        ensures
            c == Color::of_bytes(46, 139, 87),
    {
        Color::opaque(46, 139, 87)
    }

    /// `#228b22`
    pub fn forestgreen() -> (c: Color)
        ensures
            c == Color::of_bytes(34, 139, 34),
    {
        Color::opaque(34, 139, 34)
    }

    /// `#008000`
    pub fn green() -> (c: Color)
        ensures
            c == Color::of_bytes(0, 128, 0),
    {
        Color::opaque(0, 128, 0)
    }

    /// `#006400`
    pub fn darkgreen() -> (c: Color)
        ensures
            c == Color::of_bytes(0, 100, 0),
    {
        Color::opaque(0, 100, 0)
    }

    /// `#9acd32`
    pub fn yellowgreen() -> (c: Color)
        ensures
            c == Color::of_bytes(154, 205, 50),
    {
        Color::opaque(154, 205, 50)
    }

    /// `#6b8e23`
    pub fn olivedrab() -> (c: Color)
        ensures
            c == Color::of_bytes(107, 142, 35),
    {
        Color::opaque(107, 142, 35)
    }

    /// `#808000`
    pub fn olive() -> (c: Color)
        ensures
            c == Color::of_bytes(128, 128, 0),
    {
        Color::opaque(128, 128, 0)
    }

    /// `#556b2f`
    pub fn darkolivegreen() -> (c: Color)
        ensures
            c == Color::of_bytes(85, 107, 47),
    {
        Color::opaque(85, 107, 47)
    }

    /// `#66cdaa`
    pub fn mediumaquamarine() -> (c: Color)
        ensures
            c == Color::of_bytes(102, 205, 170),
    {
        Color::opaque(102, 205, 170)
    }

    /// `#8fbc8b`
    pub fn darkseagreen() -> (c: Color)
        ensures
            c == Color::of_bytes(143, 188, 139),
    {
        Color::opaque(143, 188, 139)
    }

    /// `#20b2aa`
    pub fn lightseagreen() -> (c: Color)
        ensures
            c == Color::of_bytes(32, 178, 170),
    {
        Color::opaque(32, 178, 170)
    }

    /// `#008b8b`
    pub fn darkcyan() -> (c: Color)
        ensures
            c == Color::of_bytes(0, 139, 139),
    {
        Color::opaque(0, 139, 139)
    }

    /// `#008080`
    pub fn teal() -> (c: Color)
        ensures
            c == Color::of_bytes(0, 128, 128),
    {
        Color::opaque(0, 128, 128)
    }

    /// `#00ffff`
    pub fn aqua() -> (c: Color)
        ensures
            c == Color::of_bytes(0, 255, 255),
    {
        Color::opaque(0, 255, 255)
    }

    /// `#00ffff`
    pub fn cyan() -> (c: Color)
        ensures
            c == Color::of_bytes(0, 255, 255),
    {
        Color::opaque(0, 255, 255)
    }

    /// `#e0ffff`
    pub fn lightcyan() -> (c: Color)
        ensures
            c == Color::of_bytes(224, 255, 255),
    {
        Color::opaque(224, 255, 255)
    }

    /// `#afeeee`
    pub fn paleturquoise() -> (c: Color)
        ensures
            c == Color::of_bytes(175, 238, 238),
    {
        Color::opaque(175, 238, 238)
    }

    /// `#7fffd4`
    pub fn aquamarine() -> (c: Color)
        ensures
            c == Color::of_bytes(127, 255, 212),
    {
        Color::opaque(127, 255, 212)
    }

    /// `#40e0d0`
    pub fn turquoise() -> (c: Color)
        ensures
            c == Color::of_bytes(64, 224, 208),
    {
        Color::opaque(64, 224, 208)
    }

    /// `#48d1cc`
    pub fn mediumturquoise() -> (c: Color)
        ensures
            c == Color::of_bytes(72, 209, 204),
    {
        Color::opaque(72, 209, 204)
    }

    /// `#00ced1`
    pub fn darkturquoise() -> (c: Color)
        ensures
            c == Color::of_bytes(0, 206, 209),
    {
        Color::opaque(0, 206, 209)
    }

    /// `#5f9ea0`
    pub fn cadetblue() -> (c: Color)
        ensures
            c == Color::of_bytes(95, 158, 160),
    {
        Color::opaque(95, 158, 160)
    }

    /// `#4682b4`
    pub fn steelblue() -> (c: Color)
        ensures
            c == Color::of_bytes(70, 130, 180),
    {
        Color::opaque(70, 130, 180)
    }

    /// `#b0c4de`
    pub fn lightsteelblue() -> (c: Color)
        ensures
            c == Color::of_bytes(176, 196, 222),
    {
        Color::opaque(176, 196, 222)
    }

    /// `#b0e0e6`
    pub fn powderblue() -> (c: Color)
        ensures
            c == Color::of_bytes(176, 224, 230),
    {
        Color::opaque(176, 224, 230)
    }

    /// `#add8e6`
    pub fn lightblue() -> (c: Color)
        ensures
            c == Color::of_bytes(173, 216, 230),
    {
        Color::opaque(173, 216, 230)
    }

    /// `#87ceeb`
    pub fn skyblue() -> (c: Color)
        ensures
            c == Color::of_bytes(135, 206, 235),
    {
        Color::opaque(135, 206, 235)
    }

    /// `#87cefa`
    pub fn lightskyblue() -> (c: Color)
        ensures
            c == Color::of_bytes(135, 206, 250),
    {
        Color::opaque(135, 206, 250)
    }

    /// `#00bfff`
    pub fn deepskyblue() -> (c: Color)
        ensures
            c == Color::of_bytes(0, 191, 255),
    {
        Color::opaque(0, 191, 255)
    }

    /// `#1e90ff`
    pub fn dodgerblue() -> (c: Color)
        ensures
            c == Color::of_bytes(30, 144, 255),
    {
        Color::opaque(30, 144, 255)
    }

    /// `#6495ed`
    pub fn cornflowerblue() -> (c: Color)
        ensures
            c == Color::of_bytes(100, 149, 237),
    {
        Color::opaque(100, 149, 237)
    }

    /// `#4169e1`
    pub fn royalblue() -> (c: Color)
        ensures
            c == Color::of_bytes(65, 105, 225),
    {
        Color::opaque(65, 105, 225)
    }

    /// `#0000ff`
    pub fn blue() -> (c: Color)
        ensures
            c == Color::of_bytes(0, 0, 255),
    {
        Color::opaque(0, 0, 255)
    }

    /// `#0000cd`
    pub fn mediumblue() -> (c: Color)
        ensures
            c == Color::of_bytes(0, 0, 205),
    {
        Color::opaque(0, 0, 205)
    }

    /// `#00008b`
    pub fn darkblue() -> (c: Color)
        ensures
            c == Color::of_bytes(0, 0, 139),
    {
        Color::opaque(0, 0, 139)
    }

    /// `#000080`
    pub fn navy() -> (c: Color)
        ensures
            c == Color::of_bytes(0, 0, 128),
    {
        Color::opaque(0, 0, 128)
    }

    /// `#191970`
    pub fn midnightblue() -> (c: Color)
        ensures
            c == Color::of_bytes(25, 25, 112),
    {
        Color::opaque(25, 25, 112)
    }

    /// `#fff8dc`
    pub fn cornsilk() -> (c: Color)
        ensures
            c == Color::of_bytes(255, 248, 220),
    {
        Color::opaque(255, 248, 220)
    }

    /// `#ffebcd`
    pub fn blanchedalmond() -> (c: Color)
        ensures
            c == Color::of_bytes(255, 235, 205),
    {
        Color::opaque(255, 235, 205)
    }

    /// `#ffe4c4`
    pub fn bisque() -> (c: Color)
        ensures
            c == Color::of_bytes(255, 228, 196),
    {
        Color::opaque(255, 228, 196)
    }

    /// `#ffdead`
    pub fn navajowhite() -> (c: Color)
        ensures
            c == Color::of_bytes(255, 222, 173),
    {
        Color::opaque(255, 222, 173)
    }

    /// `#f5deb3`
    pub fn wheat() -> (c: Color)
        ensures
            c == Color::of_bytes(245, 222, 179),
    {
        Color::opaque(245, 222, 179)
    }

    /// `#deb887`
    pub fn burlywood() -> (c: Color)
        ensures
            c == Color::of_bytes(222, 184, 135),
    {
        Color::opaque(222, 184, 135)
    }

    /// `#d2b48c`
    pub fn tan() -> (c: Color)
        ensures
            c == Color::of_bytes(210, 180, 140),
    {
        Color::opaque(210, 180, 140)
    }

    /// `#bc8f8f`
    pub fn rosybrown() -> (c: Color)
        ensures
            c == Color::of_bytes(188, 143, 143),
    {
        Color::opaque(188, 143, 143)
    }

    /// `#f4a460`
    pub fn sandybrown() -> (c: Color)
        ensures
            c == Color::of_bytes(244, 164, 96),
    {
        Color::opaque(244, 164, 96)
    }

    /// `#daa520`
    pub fn goldenrod() -> (c: Color)
        ensures
            c == Color::of_bytes(218, 165, 32),
    {
        Color::opaque(218, 165, 32)
    }

    /// `#b8860b`
    pub fn darkgoldenrod() -> (c: Color)
        ensures
            c == Color::of_bytes(184, 134, 11),
    {
        Color::opaque(184, 134, 11)
    }

    /// `#cd853f`
    pub fn peru() -> (c: Color)
        ensures
            c == Color::of_bytes(205, 133, 63),
    {
        Color::opaque(205, 133, 63)
    }

    /// `#d2691e`
    pub fn chocolate() -> (c: Color)
        ensures
            c == Color::of_bytes(210, 105, 30),
    {
        Color::opaque(210, 105, 30)
    }

    /// `#8b4513`
    pub fn saddlebrown() -> (c: Color)
        ensures
            c == Color::of_bytes(139, 69, 19),
    {
        Color::opaque(139, 69, 19)
    }

    /// `#a0522d`
    pub fn sienna() -> (c: Color)
        ensures
            c == Color::of_bytes(160, 82, 45),
    {
        Color::opaque(160, 82, 45)
    }

    /// `#a52a2a`
    pub fn brown() -> (c: Color)
        ensures
            c == Color::of_bytes(165, 42, 42),
    {
        Color::opaque(165, 42, 42)
    }

    /// `#800000`
    pub fn maroon() -> (c: Color)
        ensures
            c == Color::of_bytes(128, 0, 0),
    {
        Color::opaque(128, 0, 0)
    }

    /// `#ffffff`
    pub fn white() -> (c: Color)
        ensures
            c == Color::of_bytes(255, 255, 255),
    {
        Color::opaque(255, 255, 255)
    }

    /// `#fffafa`
    pub fn snow() -> (c: Color)
        ensures
            c == Color::of_bytes(255, 250, 250),
    {
        Color::opaque(255, 250, 250)
    }

    /// `#f0fff0`
    pub fn honeydew() -> (c: Color)
        ensures
            c == Color::of_bytes(240, 255, 240),
    {
        Color::opaque(240, 255, 240)
    }

    /// `#f5fffa`
    pub fn mintcream() -> (c: Color)
        ensures
            c == Color::of_bytes(245, 255, 250),
    {
        Color::opaque(245, 255, 250)
    }

    /// `#f0ffff`
    pub fn azure() -> (c: Color)
        ensures
            c == Color::of_bytes(240, 255, 255),
    {
        Color::opaque(240, 255, 255)
    }

    /// `#f0f8ff`
    pub fn aliceblue() -> (c: Color)
        ensures
            c == Color::of_bytes(240, 248, 255),
    {
        Color::opaque(240, 248, 255)
    }

    /// `#f8f8ff`
    pub fn ghostwhite() -> (c: Color)
        ensures
            c == Color::of_bytes(248, 248, 255),
    {
        Color::opaque(248, 248, 255)
    }

    /// `#f5f5f5`
    pub fn whitesmoke() -> (c: Color)
        ensures
            c == Color::of_bytes(245, 245, 245),
    {
        Color::opaque(245, 245, 245)
    }

    /// `#fff5ee`
    pub fn seashell() -> (c: Color)
        ensures
            c == Color::of_bytes(255, 245, 238),
    {
        Color::opaque(255, 245, 238)
    }

    /// `#f5f5dc`
    pub fn beige() -> (c: Color)
        ensures
            c == Color::of_bytes(245, 245, 220),
    {
        Color::opaque(245, 245, 220)
    }

    /// `#fdf5e6`
    pub fn oldlace() -> (c: Color)
        ensures
            c == Color::of_bytes(253, 245, 230),
    {
        Color::opaque(253, 245, 230)
    }

    /// `#fffaf0`
    pub fn floralwhite() -> (c: Color)
        ensures
            c == Color::of_bytes(255, 250, 240),
    {
        Color::opaque(255, 250, 240)
    }

    /// `#fffff0`
    pub fn ivory() -> (c: Color)
        ensures
            c == Color::of_bytes(255, 255, 240),
    {
        Color::opaque(255, 255, 240)
    }

    /// `#faebd7`
    pub fn antiquewhite() -> (c: Color)
        ensures
            c == Color::of_bytes(250, 235, 215),
    {
        Color::opaque(250, 235, 215)
    }

    /// `#faf0e6`
    pub fn linen() -> (c: Color)
        ensures
            c == Color::of_bytes(250, 240, 230),
    {
        Color::opaque(250, 240, 230)
    }

    /// `#fff0f5`
    pub fn lavenderblush() -> (c: Color)
        ensures
            c == Color::of_bytes(255, 240, 245),
    {
        Color::opaque(255, 240, 245)
    }

    /// `#ffe4e1`
    pub fn mistyrose() -> (c: Color)
        ensures
            c == Color::of_bytes(255, 228, 225),
    {
        Color::opaque(255, 228, 225)
    }

    /// `#dcdcdc`
    pub fn gainsboro() -> (c: Color)
        ensures
            c == Color::of_bytes(220, 220, 220),
    {
        Color::opaque(220, 220, 220)
    }

    /// `#d3d3d3`
    pub fn lightgray() -> (c: Color)
        ensures
            c == Color::of_bytes(211, 211, 211),
    {
        Color::opaque(211, 211, 211)
    }

    /// `#c0c0c0`
    pub fn silver() -> (c: Color)
        ensures
            c == Color::of_bytes(192, 192, 192),
    {
        Color::opaque(192, 192, 192)
    }

    /// `#a9a9a9`
    pub fn darkgray() -> (c: Color)
        ensures
            c == Color::of_bytes(169, 169, 169),
    {
        Color::opaque(169, 169, 169)
    }

    /// `#808080`
    pub fn gray() -> (c: Color)
        ensures
            c == Color::of_bytes(128, 128, 128),
    {
        Color::opaque(128, 128, 128)
    }

    /// `#696969`
    pub fn dimgray() -> (c: Color)
        ensures
            c == Color::of_bytes(105, 105, 105),
    {
        Color::opaque(105, 105, 105)
    }

    /// `#778899`
    pub fn lightslategray() -> (c: Color)
        ensures
            c == Color::of_bytes(119, 136, 153),
    {
        Color::opaque(119, 136, 153)
    }

    /// `#708090`
    pub fn slategray() -> (c: Color)
        ensures
            c == Color::of_bytes(112, 128, 144),
    {
        Color::opaque(112, 128, 144)
    }

    /// `#2f4f4f`
    pub fn darkslategray() -> (c: Color)
        ensures
            c == Color::of_bytes(47, 79, 79),
    {
        Color::opaque(47, 79, 79)
    }

    /// `#000000`
    pub fn black() -> (c: Color)
        ensures
            c == Color::of_bytes(0, 0, 0),
    {
        Color::opaque(0, 0, 0)
    }
}

} // verus!
