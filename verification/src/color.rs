//! Indexed colours and true colours.

use vstd::prelude::*;
use vstd::string::StringSliceAdditionalSpecFns;
use vstd::utf8::{encode_utf8_valid_utf8, is_char_boundary};
use std::num::ParseIntError;
use crate::hex::{
    hash_sign, hex_byte, hex_pair_at, lemma_cut_after_cut, push_hex_byte, take_hex_pair,
    trim_hashes, trim_start_hashes,
};
use crate::tables::Layer;
use crate::text::{decimal, push_decimal};

verus! {

/// Represents an indexed color.
#[derive(Clone, Copy, Debug, PartialEq, Eq, Structural)]
pub struct Color {
    raw_value: i16,
}

impl Default for Color {
    fn default() -> (color: Color)
        ensures
            color == Color::spec_from_raw_value(0),
            color.raw_value() == 0,
    {
        Color { raw_value: 0 }
    }
}

impl Color {
    /// The number that the drawing holds for the colour.
    pub closed spec fn spec_raw_value(&self) -> i16 {
        self.raw_value
    }

    /// The colour that the drawing holds the number `val` for.
    pub closed spec fn spec_from_raw_value(val: i16) -> Color {
        Color { raw_value: val }
    }

    /// A colour is the colour of its number, and the number of that colour
    /// is its own: two colours with one number are one colour.
    pub proof fn lemma_color_by_number(color: Color, val: i16)
        ensures
            color == Color::spec_from_raw_value(color.raw_value()),
            Color::spec_from_raw_value(val).raw_value() == val,
    {
    }

    /// Returns `true` if the color defaults back to the item's layer's color.
    pub fn is_by_layer(&self) -> (r: bool)
        ensures
            r == (self.raw_value() == 256),
    {
        self.raw_value == 256
    }

    /// Returns `true` if the color defaults back to the entity's color.
    pub fn is_by_entity(&self) -> (r: bool)
        ensures
            r == (self.raw_value() == 257),
    {
        self.raw_value == 257
    }

    /// Returns `true` if the color defaults back to the containing block's color.
    pub fn is_by_block(&self) -> (r: bool)
        ensures
            r == (self.raw_value() == 0),
    {
        self.raw_value == 0
    }

    /// Returns `true` if the color represents a `Layer` that is turned off.
    pub fn is_turned_off(&self) -> (r: bool)
        ensures
            r == (self.raw_value() < 0),
    {
        self.raw_value < 0
    }

    /// Sets the color to default back to the item's layer's color.
    pub fn set_by_layer(&mut self)
        ensures
            *final(self) == Color::spec_from_raw_value(256),
            final(self).raw_value() == 256,
    {
        self.raw_value = 256
    }

    /// Sets the color to default back to the containing block's color.
    pub fn set_by_block(&mut self)
        ensures
            *final(self) == Color::spec_from_raw_value(0),
            final(self).raw_value() == 0,
    {
        self.raw_value = 0
    }

    /// Sets the color to default back to the containing entity's color.
    pub fn set_by_entity(&mut self)
        ensures
            *final(self) == Color::spec_from_raw_value(257),
            final(self).raw_value() == 257,
    {
        self.raw_value = 257
    }

    /// Sets the color to represent a `Layer` that is turned off.
    pub fn turn_off(&mut self)
        ensures
            *final(self) == Color::spec_from_raw_value(-1i16),
            final(self).raw_value() == -1,
    {
        self.raw_value = -1
    }

    /// Whether the number of the colour is an index into the colour table.
    pub open spec fn spec_is_index(&self) -> bool {
        1 <= self.raw_value() <= 255
    }

    /// Returns `true` if the color represents a proper color index.
    #[verifier::when_used_as_spec(spec_is_index)]
    pub fn is_index(&self) -> (r: bool)
        ensures
            r == self.spec_is_index(),
    {
        self.raw_value >= 1 && self.raw_value <= 255
    }

    /// Gets an `Option<u8>` of the indexable value of the color.
    pub fn index(&self) -> (r: Option<u8>)
        ensures
            r == if self.is_index() {
                Some(self.raw_value() as u8)
            } else {
                None
            },
    {
        if self.is_index() {
            Some(self.raw_value as u8)
        } else {
            None
        }
    }

    /// The number that the drawing holds for the colour.
    #[verifier::when_used_as_spec(spec_raw_value)]
    pub fn raw_value(&self) -> (r: i16)
        ensures
            r == self.spec_raw_value(),
    {
        self.raw_value
    }

    /// The colour that the drawing holds the number `val` for.
    #[verifier::when_used_as_spec(spec_from_raw_value)]
    pub fn from_raw_value(val: i16) -> (color: Color)
        ensures
            color == Color::spec_from_raw_value(val),
            color.raw_value() == val,
    {
        Color { raw_value: val }
    }

    /// Creates a `Color` that defaults to the item's layer's color.
    pub fn by_layer() -> (color: Color)
        ensures
            color == Color::spec_from_raw_value(256),
            color.raw_value() == 256,
    {
        Color { raw_value: 256 }
    }

    /// Creates a `Color` that defaults back to the containing block's color.
    pub fn by_block() -> (color: Color)
        ensures
            color == Color::spec_from_raw_value(0),
            color.raw_value() == 0,
    {
        Color { raw_value: 0 }
    }

    /// Creates a `Color` that defaults back to the containing entity's color.
    pub fn by_entity() -> (color: Color)
        ensures
            color == Color::spec_from_raw_value(257),
            color.raw_value() == 257,
    {
        Color { raw_value: 257 }
    }

    /// Creates a `Color` from the specified index.
    pub fn from_index(i: u8) -> (color: Color)
        ensures
            color == Color::spec_from_raw_value(i as i16),
            color.raw_value() == i,
    {
        Color { raw_value: i as i16 }
    }

    /// The number to write for the colour of something on `layer`: the
    /// size of the colour's number, negative where the layer is off.
    ///
    /// The number of the colour must have a negative of its own type.
    pub fn writable_color_value(&self, layer: &Layer) -> (r: i16)
        requires
            self.raw_value() != i16::MIN,
        ensures
            r == if layer.is_layer_on {
                vstd::math::abs(self.raw_value() as int) as int
            } else {
                -vstd::math::abs(self.raw_value() as int)
            },
    {
        let raw = self.raw_value();
        let value = if raw < 0 {
            -raw
        } else {
            raw
        };
        if layer.is_layer_on {
            value
        } else {
            -value
        }
    }
}

/// The true colours that the colour indices stand for, each as the number
/// whose bytes are red, green and blue. Index 0 stands for no colour.
pub const DXF_DEFAULT_COLORS: [i32; 256] = [
    0x000000, 0xFF0000, 0xFFFF00, 0x00FF00, 0x00FFFF, 0x0000FF, 0xFF00FF, 0xFFFFFF, 0x808080,
    0xC0C0C0, 0xFF0000, 0xFF7F7F, 0xA50000, 0xA55252, 0x7F0000, 0x7F3F3F, 0x4C0000, 0x4C2626,
    0x260000, 0x261313, 0xFF3F00, 0xFF9F7F, 0xA52900, 0xA56752, 0x7F1F00, 0x7F4F3F, 0x4C1300,
    0x4C2F26, 0x260900, 0x261713, 0xFF7F00, 0xFFBF7F, 0xA55200, 0xA57C52, 0x7F3F00, 0x7F5F3F,
    0x4C2600, 0x4C3926, 0x261300, 0x261C13, 0xFFBF00, 0xFFDF7F, 0xA57C00, 0xA59152, 0x7F5F00,
    0x7F6F3F, 0x4C3900, 0x4C4226, 0x261C00, 0x262113, 0xFFFF00, 0xFFFF7F, 0xA5A500, 0xA5A552,
    0x7F7F00, 0x7F7F3F, 0x4C4C00, 0x4C4C26, 0x262600, 0x262613, 0xBFFF00, 0xDFFF7F, 0x7CA500,
    0x91A552, 0x5F7F00, 0x6F7F3F, 0x394C00, 0x424C26, 0x1C2600, 0x212613, 0x7FFF00, 0xBFFF7F,
    0x52A500, 0x7CA552, 0x3F7F00, 0x5F7F3F, 0x264C00, 0x394C26, 0x132600, 0x1C2613, 0x3FFF00,
    0x9FFF7F, 0x29A500, 0x67A552, 0x1F7F00, 0x4F7F3F, 0x134C00, 0x2F4C26, 0x092600, 0x172613,
    0x00FF00, 0x7FFF7F, 0x00A500, 0x52A552, 0x007F00, 0x3F7F3F, 0x004C00, 0x264C26, 0x002600,
    0x132613, 0x00FF3F, 0x7FFF9F, 0x00A529, 0x52A567, 0x007F1F, 0x3F7F4F, 0x004C13, 0x264C2F,
    0x002609, 0x135817, 0x00FF7F, 0x7FFFBF, 0x00A552, 0x52A57C, 0x007F3F, 0x3F7F5F, 0x004C26,
    0x264C39, 0x002613, 0x13581C, 0x00FFBF, 0x7FFFDF, 0x00A57C, 0x52A591, 0x007F5F, 0x3F7F6F,
    0x004C39, 0x264C42, 0x00261C, 0x135858, 0x00FFFF, 0x7FFFFF, 0x00A5A5, 0x52A5A5, 0x007F7F,
    0x3F7F7F, 0x004C4C, 0x264C4C, 0x002626, 0x135858, 0x00BFFF, 0x7FDFFF, 0x007CA5, 0x5291A5,
    0x005F7F, 0x3F6F7F, 0x00394C, 0x26427E, 0x001C26, 0x135858, 0x007FFF, 0x7FBFFF, 0x0052A5,
    0x527CA5, 0x003F7F, 0x3F5F7F, 0x00264C, 0x26397E, 0x001326, 0x131C58, 0x003FFF, 0x7F9FFF,
    0x0029A5, 0x5267A5, 0x001F7F, 0x3F4F7F, 0x00134C, 0x262F7E, 0x000926, 0x131758, 0x0000FF,
    0x7F7FFF, 0x0000A5, 0x5252A5, 0x00007F, 0x3F3F7F, 0x00004C, 0x26267E, 0x000026, 0x131358,
    0x3F00FF, 0x9F7FFF, 0x2900A5, 0x6752A5, 0x1F007F, 0x4F3F7F, 0x13004C, 0x2F267E, 0x090026,
    0x171358, 0x7F00FF, 0xBF7FFF, 0x5200A5, 0x7C52A5, 0x3F007F, 0x5F3F7F, 0x26004C, 0x39267E,
    0x130026, 0x1C1358, 0xBF00FF, 0xDF7FFF, 0x7C00A5, 0x9152A5, 0x5F007F, 0x6F3F7F, 0x39004C,
    0x42264C, 0x1C0026, 0x581358, 0xFF00FF, 0xFF7FFF, 0xA500A5, 0xA552A5, 0x7F007F, 0x7F3F7F,
    0x4C004C, 0x4C264C, 0x260026, 0x581358, 0xFF00BF, 0xFF7FDF, 0xA5007C, 0xA55291, 0x7F005F,
    0x7F3F6F, 0x4C0039, 0x4C2642, 0x26001C, 0x581358, 0xFF007F, 0xFF7FBF, 0xA50052, 0xA5527C,
    0x7F003F, 0x7F3F5F, 0x4C0026, 0x4C2639, 0x260013, 0x58131C, 0xFF003F, 0xFF7F9F, 0xA50029,
    0xA55267, 0x7F001F, 0x7F3F4F, 0x4C0013, 0x4C262F, 0x260009, 0x581317, 0x000000, 0x656565,
    0x666666, 0x999999, 0xCCCCCC, 0xFFFFFF,
];

/// A colour by its red, green and blue parts.
#[derive(Debug, Clone, Copy, PartialEq, Eq, Structural)]
pub struct RGB {
    pub r: u8,
    pub g: u8,
    pub b: u8,
}

/// The colour whose parts are the three low bytes of `value`: red the
/// third, green the second, blue the lowest.
pub open spec fn spec_int_to_rgb(value: i32) -> RGB {
    RGB {
        r: ((value as int / 0x10000) % 0x100) as u8,
        g: ((value as int / 0x100) % 0x100) as u8,
        b: (value as int % 0x100) as u8,
    }
}

/// The number whose three low bytes are the parts of `rgb`.
pub open spec fn spec_rgb_to_int(rgb: RGB) -> int {
    rgb.r * 0x10000 + rgb.g * 0x100 + rgb.b
}

/// The true colour that a colour index stands for, if it is an index.
pub open spec fn spec_aci_to_rgb(index: i16) -> Option<RGB> {
    if 1 <= index <= 255 {
        Some(spec_int_to_rgb(DXF_DEFAULT_COLORS[index as int]))
    } else {
        None
    }
}

/// The message that rejects `index` as a colour index.
pub open spec fn invalid_aci_index_text(index: i16) -> Seq<char> {
    "Invalid ACI index: "@ + decimal(index as int)
}

impl RGB {
    pub fn new(r: u8, g: u8, b: u8) -> (rgb: RGB)
        ensures
            rgb == (RGB { r, g, b }),
    {
        Self { r, g, b }
    }

    /// The colour of `rgba` without its opacity.
    pub fn from_rgba(rgba: RGBA) -> (rgb: RGB)
        ensures
            rgb == (RGB { r: rgba.r, g: rgba.g, b: rgba.b }),
    {
        Self::new(rgba.r, rgba.g, rgba.b)
    }

    /// The colour whose parts are the three low bytes of the size of
    /// `color`, which must have a negative of its own type.
    pub fn from_i32(color: i32) -> (rgb: RGB)
        requires
            color != i32::MIN,
        ensures
            rgb == spec_int_to_rgb(vstd::math::abs(color as int) as i32),
    {
        let size = if color < 0 {
            -color
        } else {
            color
        };
        int_to_rgb(size)
    }

    /// The true colour that the colour index `index` stands for, `None`
    /// where `index` is not from 1 to 255.
    pub fn from_index(index: i16) -> (r: Option<RGB>)
        ensures
            r == spec_aci_to_rgb(index),
    {
        match aci_to_rgb(index) {
            Ok(rgb) => Some(rgb),
            Err(_) => None,
        }
    }

    /// The colour with the opacity `a`, and opaque where none is given.
    pub fn to_rgba(&self, a: Option<u8>) -> (rgba: RGBA)
        ensures
            rgba == (RGBA {
                r: self.r,
                g: self.g,
                b: self.b,
                a: match a {
                    Some(alpha) => alpha,
                    None => 255u8,
                },
            }),
    {
        let mut alpha_value: u8 = 255;
        if let Some(alpha) = a {
            alpha_value = alpha;
        };
        RGBA::new(self.r, self.g, self.b, alpha_value)
    }

    /// The colour in hexadecimal digits: `#`, then two digits for each of
    /// red, green and blue, letters in capitals.
    pub open spec fn spec_to_hex(self) -> Seq<char> {
        seq!['#'] + hex_byte(self.r) + hex_byte(self.g) + hex_byte(self.b)
    }

    /// The colour in hexadecimal digits.
    pub fn to_hex(&self) -> (text: String)
        ensures
            text@ == self.spec_to_hex(),
    {
        let mut text = hash_sign();
        push_hex_byte(&mut text, self.r);
        push_hex_byte(&mut text, self.g);
        push_hex_byte(&mut text, self.b);
        text
    }

    /// The colour that the first six bytes of a text stand for, two bytes
    /// for each of red, green and blue, if each two stand for a byte.
    pub open spec fn spec_from_hex(text: Seq<u8>) -> Option<RGB> {
        match (hex_pair_at(text, 0), hex_pair_at(text, 2), hex_pair_at(text, 4)) {
            (Some(r), Some(g), Some(b)) => Some(RGB { r, g, b }),
            _ => None,
        }
    }

    /// Reads a colour from hexadecimal digits. The `#` signs that lead the
    /// text are passed over, and what follows the sixth byte behind them is
    /// not read.
    ///
    /// Behind its `#` signs the text must have six bytes, and no character
    /// of it may lie across the end of the second, the fourth or the sixth.
    pub fn from_hex(color: &str) -> (r: Result<RGB, ParseIntError>)
        requires
            is_char_boundary(trim_hashes(color.spec_bytes()), 2),
            is_char_boundary(trim_hashes(color.spec_bytes()), 4),
            is_char_boundary(trim_hashes(color.spec_bytes()), 6),
        ensures
            match r {
                Ok(rgb) => Self::spec_from_hex(trim_hashes(color.spec_bytes())) == Some(rgb),
                Err(_) => Self::spec_from_hex(trim_hashes(color.spec_bytes())) is None,
            },
    {
        let hex_string = trim_start_hashes(color);
        let ghost text = hex_string.spec_bytes();
        proof {
            encode_utf8_valid_utf8(hex_string@);
            lemma_cut_after_cut(text, 2, 4);
            lemma_cut_after_cut(text, 4, 6);
            assert(text.skip(2).skip(2) =~= text.skip(4));
            assert(text.skip(2).subrange(0, 2) =~= text.subrange(2, 4));
            assert(text.skip(4).subrange(0, 2) =~= text.subrange(4, 6));
        }
        let (r, after_r) = take_hex_pair(hex_string);
        let r = match r {
            Ok(value) => value,
            Err(error) => return Err(error),
        };
        let (g, after_g) = take_hex_pair(after_r);
        let g = match g {
            Ok(value) => value,
            Err(error) => return Err(error),
        };
        let (b, _) = take_hex_pair(after_g);
        let b = match b {
            Ok(value) => value,
            Err(error) => return Err(error),
        };
        Ok(RGB { r, g, b })
    }

    /// The number to write for the true colour of something on `layer`,
    /// where `rgb` is its own colour if it has one: the number of that
    /// colour, else of the colour that the layer's colour index stands
    /// for, else of white; negative where the layer is off.
    pub fn writable_color_value_fallback(rgb: Option<RGB>, layer: &Layer) -> (r: i32)
        ensures
            r == ({
                let value = match rgb {
                    Some(own) => spec_rgb_to_int(own),
                    None => match spec_aci_to_rgb(layer.color.raw_value()) {
                        Some(indexed) => spec_rgb_to_int(indexed),
                        None => 16777215,
                    },
                };
                if layer.is_layer_on {
                    value
                } else {
                    -value
                }
            }),
    {
        if let Some(received_rgb) = rgb {
            return received_rgb.writable_color_value(layer);
        }
        if let Ok(true_color_index) = aci_to_rgb(layer.color.raw_value()) {
            return true_color_index.writable_color_value(layer);
        }
        if layer.is_layer_on {
            16777215
        } else {
            -16777215
        }
    }

    /// The number to write for the colour of something on `layer`: the
    /// number of the colour, negative where the layer is off.
    pub fn writable_color_value(&self, layer: &Layer) -> (r: i32)
        ensures
            r == if layer.is_layer_on {
                spec_rgb_to_int(*self)
            } else {
                -spec_rgb_to_int(*self)
            },
    {
        let value = rgb_to_int(*self);
        if layer.is_layer_on {
            value
        } else {
            -value
        }
    }
}

/// A colour by its red, green and blue parts and its opacity.
#[derive(Debug, Clone, Copy, PartialEq, Eq, Structural)]
pub struct RGBA {
    pub r: u8,
    pub g: u8,
    pub b: u8,
    pub a: u8,  // 0 = transparent, 255 = opaque
}

impl Default for RGBA {
    fn default() -> (rgba: RGBA)
        ensures
            rgba == (RGBA { r: 0, g: 0, b: 0, a: 255 }),
    {
        RGBA { r: 0, g: 0, b: 0, a: 255 }
    }
}

impl RGBA {
    pub fn new(r: u8, g: u8, b: u8, a: u8) -> (rgba: RGBA)
        ensures
            rgba == (RGBA { r, g, b, a }),
    {
        RGBA { r, g, b, a }
    }

    /// The colour `rgb`, opaque.
    pub fn from_rgb(rgb: RGB) -> (rgba: RGBA)
        ensures
            rgba == (RGBA { r: rgb.r, g: rgb.g, b: rgb.b, a: 255 }),
    {
        Self::new(rgb.r, rgb.g, rgb.b, 255)
    }

    /// The true colour that the colour index `index` stands for, opaque;
    /// `None` where `index` is not from 1 to 255.
    pub fn from_index(index: i16) -> (r: Option<RGBA>)
        ensures
            r == match spec_aci_to_rgb(index) {
                Some(rgb) => Some(RGBA { r: rgb.r, g: rgb.g, b: rgb.b, a: 255 }),
                None => None,
            },
    {
        if let Ok(rgb) = aci_to_rgb(index) {
            Some(rgb.to_rgba(None))
        } else {
            None
        }
    }

    /// The colour without its opacity.
    pub fn to_rgb(&self) -> (rgb: RGB)
        ensures
            rgb == (RGB { r: self.r, g: self.g, b: self.b }),
    {
        RGB::new(self.r, self.g, self.b)
    }

    /// The colour in hexadecimal digits: `#`, then two digits for each of
    /// red, green, blue and opacity, letters in capitals.
    pub open spec fn spec_to_hex(self) -> Seq<char> {
        seq!['#'] + hex_byte(self.r) + hex_byte(self.g) + hex_byte(self.b) + hex_byte(self.a)
    }

    /// The colour in hexadecimal digits.
    pub fn to_hex(&self) -> (text: String)
        ensures
            text@ == self.spec_to_hex(),
    {
        let mut text = hash_sign();
        push_hex_byte(&mut text, self.r);
        push_hex_byte(&mut text, self.g);
        push_hex_byte(&mut text, self.b);
        push_hex_byte(&mut text, self.a);
        text
    }

    /// The colour that the first bytes of a text stand for, two bytes for
    /// each of red, green and blue, and two more for the opacity where the
    /// text has eight bytes; a shorter one stands for an opaque colour.
    pub open spec fn spec_from_hex(text: Seq<u8>) -> Option<RGBA> {
        match (
            RGB::spec_from_hex(text),
            if text.len() >= 8 {
                hex_pair_at(text, 6)
            } else {
                Some(255u8)
            },
        ) {
            (Some(rgb), Some(a)) => Some(RGBA { r: rgb.r, g: rgb.g, b: rgb.b, a }),
            _ => None,
        }
    }

    /// Reads a colour from hexadecimal digits. The `#` signs that lead the
    /// text are passed over, and what follows the eighth byte behind them
    /// is not read. The text is cut and read two bytes at a time, and the
    /// first two that stand for no byte end the reading.
    ///
    /// Behind its `#` signs the text must have the two bytes that are cut
    /// next, as long as the reading goes on, and no character of it may
    /// lie across their end: the second byte in any case, the fourth where
    /// the first two stand for a byte, the sixth where the next two do as
    /// well, and the eighth where so do the third two and the text has
    /// eight bytes.
    pub fn from_hex(color: &str) -> (r: Result<RGBA, ParseIntError>)
        requires
            is_char_boundary(trim_hashes(color.spec_bytes()), 2),
            hex_pair_at(trim_hashes(color.spec_bytes()), 0) is Some ==> is_char_boundary(
                trim_hashes(color.spec_bytes()),
                4,
            ),
            hex_pair_at(trim_hashes(color.spec_bytes()), 0) is Some && hex_pair_at(
                trim_hashes(color.spec_bytes()),
                2,
            ) is Some ==> is_char_boundary(trim_hashes(color.spec_bytes()), 6),
            RGB::spec_from_hex(trim_hashes(color.spec_bytes())) is Some && trim_hashes(
                color.spec_bytes(),
            ).len() >= 8 ==> is_char_boundary(trim_hashes(color.spec_bytes()), 8),
        ensures
            match r {
                Ok(rgba) => Self::spec_from_hex(trim_hashes(color.spec_bytes())) == Some(rgba),
                Err(_) => Self::spec_from_hex(trim_hashes(color.spec_bytes())) is None,
            },
    {
        let hex_string = trim_start_hashes(color);
        let ghost text = hex_string.spec_bytes();
        proof {
            encode_utf8_valid_utf8(hex_string@);
        }
        let (r, after_r) = take_hex_pair(hex_string);
        let r = match r {
            Ok(value) => value,
            Err(error) => return Err(error),
        };
        proof {
            lemma_cut_after_cut(text, 2, 4);
            assert(text.skip(2).subrange(0, 2) =~= text.subrange(2, 4));
        }
        let (g, after_g) = take_hex_pair(after_r);
        let g = match g {
            Ok(value) => value,
            Err(error) => return Err(error),
        };
        proof {
            lemma_cut_after_cut(text, 4, 6);
            assert(text.skip(2).skip(2) =~= text.skip(4));
            assert(text.skip(4).subrange(0, 2) =~= text.subrange(4, 6));
        }
        let (b, after_b) = take_hex_pair(after_g);
        let b = match b {
            Ok(value) => value,
            Err(error) => return Err(error),
        };
        let a = if hex_string.as_bytes().len() >= 8 {
            proof {
                lemma_cut_after_cut(text, 6, 8);
                assert(text.skip(4).skip(2) =~= text.skip(6));
                assert(text.skip(6).subrange(0, 2) =~= text.subrange(6, 8));
            }
            match take_hex_pair(after_b).0 {
                Ok(value) => value,
                Err(error) => return Err(error),
            }
        } else {
            255  // Opaque by default
        };
        Ok(RGBA { r, g, b, a })
    }

    /// Sets the opacity to the low byte of `opacity`.
    pub fn set_opacity_32_bit(&mut self, opacity: i32)
        ensures
            final(self).a == opacity as int % 0x100,
            final(self).r == old(self).r,
            final(self).g == old(self).g,
            final(self).b == old(self).b,
    {
        let opacity_byte = opacity & 0xFF;
        assert(0 <= opacity & 0xFF < 0x100 && (opacity & 0xFF) as int == opacity as int % 0x100)
            by (bit_vector);
        self.a = opacity_byte as u8;
    }

    /// Sets the opacity.
    pub fn set_opacity(&mut self, opacity: u8)
        ensures
            *final(self) == (RGBA { a: opacity, ..*old(self) }),
    {
        self.a = opacity;
    }
}

fn int_to_rgb(value: i32) -> (rgb: RGB)
    ensures
        rgb == spec_int_to_rgb(value),
{
    let value_u32 = value as u32;
    assert((((value as u32) >> 16) & 0xFF) as int == (value as int / 0x10000) % 0x100
        && (((value as u32) >> 16) & 0xFF) < 0x100) by (bit_vector);
    assert((((value as u32) >> 8) & 0xFF) as int == (value as int / 0x100) % 0x100 && (((
    value as u32) >> 8) & 0xFF) < 0x100) by (bit_vector);
    assert(((value as u32) & 0xFF) as int == (value as int) % 0x100 && ((value as u32) & 0xFF)
        < 0x100) by (bit_vector);
    RGB {
        r: ((value_u32 >> 16) & 0xFF) as u8,  // red
        g: ((value_u32 >> 8) & 0xFF) as u8,  // green
        b: (value_u32 & 0xFF) as u8,  // blue
    }
}

fn rgb_to_int(rgb: RGB) -> (value: i32)
    ensures
        value == spec_rgb_to_int(rgb),
{
    let r = rgb.r as u32;
    let g = rgb.g as u32;
    let b = rgb.b as u32;
    assert((((r & 0xFF) << 16) | ((g & 0xFF) << 8) | (b & 0xFF)) == r * 0x10000 + g * 0x100 + b)
        by (bit_vector)
        requires
            r < 0x100,
            g < 0x100,
            b < 0x100,
    ;
    (((r & 0xFF) << 16) | ((g & 0xFF) << 8) | (b & 0xFF)) as i32
}

/// The true colour that the colour index `index` stands for. An index that
/// is not from 1 to 255 is rejected with a message that names it.
pub fn aci_to_rgb(index: i16) -> (r: Result<RGB, String>)
    ensures
        match r {
            Ok(rgb) => spec_aci_to_rgb(index) == Some(rgb),
            Err(message) => spec_aci_to_rgb(index) is None && message@ == invalid_aci_index_text(
                index,
            ),
        },
{
    if !(1 <= index && index <= 255) {
        let mut message = "Invalid ACI index: ".to_owned();
        push_decimal(&mut message, index);
        return Err(message);
    }
    let color_value = DXF_DEFAULT_COLORS[index as usize];
    Ok(int_to_rgb(color_value))
}

} // verus!
