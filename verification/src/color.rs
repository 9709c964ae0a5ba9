//! Named colors and their channel values.
use crate::num::BaseNum;
use vstd::prelude::*;

verus! {

/// The palette of named colors.
#[allow(clippy::upper_case_acronyms)]
#[derive(Debug, Copy, Clone, PartialEq, Eq, Structural)]
pub enum Color {
    WHITE,
    BLACK,
    RED,
    GREEN,
    BLUE,
    YELLOW,
    CYAN,
    MAGENTA,
    ORANGE,
    PINK,
    GRAY,
    GOLD,
    SILVER,
    LIME,
    MAROON,
    PURPLE,
    VIOLET,
    BEIGE,
    BROWN,
    DARKBLUE,
    DARKGREEN,
    DARKPURPLE,
    DARKBROWN,
    LIGHTGRAY,
    DARKGRAY,
    SKYBLUE,
}

/// A color as three channels, each the ratio of an eight-bit level to the
/// highest level.
#[derive(Debug, Copy, Clone)]
pub struct SrgbColor<T> {
    pub r: T,
    pub g: T,
    pub b: T,
}

/// The channel value for the eight-bit level `level`: the level divided by 255.
pub open spec fn channel_spec<T: BaseNum>(level: u8) -> T {
    T::from_u8_spec(level).div_spec(T::from_u8_spec(255))
}

impl<T: BaseNum> SrgbColor<T> {
    /// The color with the eight-bit levels `r`, `g` and `b`.
    pub open spec fn from_raw_spec(r: u8, g: u8, b: u8) -> SrgbColor<T> {
        SrgbColor { r: channel_spec(r), g: channel_spec(g), b: channel_spec(b) }
    }

    /// Converts eight-bit levels to channel values.
    pub fn from_raw(r: u8, g: u8, b: u8) -> (c: SrgbColor<T>)
        ensures
            c == Self::from_raw_spec(r, g, b),
    {
        let top = T::from_u8(255);
        proof {
            T::lemma_div_by_small(T::from_u8_spec(r), 255);
            T::lemma_div_by_small(T::from_u8_spec(g), 255);
            T::lemma_div_by_small(T::from_u8_spec(b), 255);
        }
        SrgbColor {
            r: T::from_u8(r).div(top),
            g: T::from_u8(g).div(top),
            b: T::from_u8(b).div(top),
        }
    }
}

impl Color {
    /// The eight-bit red, green and blue levels of each named color.
    pub open spec fn levels(self) -> (u8, u8, u8) {
        match self {
            Color::WHITE => (255, 255, 255),
            Color::BLACK => (0, 0, 0),
            Color::RED => (255, 0, 0),
            Color::GREEN => (0, 255, 0),
            Color::BLUE => (0, 0, 255),
            Color::YELLOW => (255, 255, 0),
            Color::CYAN => (0, 255, 255),
            Color::MAGENTA => (255, 0, 255),
            Color::ORANGE => (255, 128, 0),
            Color::PINK => (255, 192, 203),
            Color::GRAY => (128, 128, 128),
            Color::GOLD => (255, 215, 0),
            Color::SILVER => (192, 192, 192),
            Color::LIME => (0, 255, 0),
            Color::MAROON => (128, 0, 0),
            Color::PURPLE => (128, 0, 128),
            Color::VIOLET => (128, 0, 128),
            Color::BEIGE => (245, 245, 220),
            Color::BROWN => (165, 42, 42),
            Color::DARKBLUE => (0, 0, 139),
            Color::DARKGREEN => (0, 100, 0),
            Color::DARKPURPLE => (139, 0, 139),
            Color::DARKBROWN => (101, 67, 33),
            Color::LIGHTGRAY => (211, 211, 211),
            Color::DARKGRAY => (169, 169, 169),
            Color::SKYBLUE => (135, 206, 235),
        }
    }

    /// The channel values of a named color.
    pub open spec fn srgb_spec<T: BaseNum>(self) -> SrgbColor<T> {
        SrgbColor::from_raw_spec(self.levels().0, self.levels().1, self.levels().2)
    }

    /// Builds a color from eight-bit levels.
    pub fn srgb<T: BaseNum>(r: u8, g: u8, b: u8) -> (c: SrgbColor<T>)
        ensures
            c == SrgbColor::<T>::from_raw_spec(r, g, b),
    {
        SrgbColor::from_raw(r, g, b)
    }

    /// Looks up the channel values of a named color.
    pub fn get_srgb<T: BaseNum>(self) -> (c: SrgbColor<T>)
        ensures
            c == self.srgb_spec::<T>(),
    {
        match self {
            Color::WHITE => SrgbColor::from_raw(255, 255, 255),
            Color::BLACK => SrgbColor::from_raw(0, 0, 0),
            Color::RED => SrgbColor::from_raw(255, 0, 0),
            Color::GREEN => SrgbColor::from_raw(0, 255, 0),
            Color::BLUE => SrgbColor::from_raw(0, 0, 255),
            Color::YELLOW => SrgbColor::from_raw(255, 255, 0),
            Color::CYAN => SrgbColor::from_raw(0, 255, 255),
            Color::MAGENTA => SrgbColor::from_raw(255, 0, 255),
            Color::ORANGE => SrgbColor::from_raw(255, 128, 0),
            Color::PINK => SrgbColor::from_raw(255, 192, 203),
            Color::GRAY => SrgbColor::from_raw(128, 128, 128),
            Color::GOLD => SrgbColor::from_raw(255, 215, 0),
            Color::SILVER => SrgbColor::from_raw(192, 192, 192),
            Color::LIME => SrgbColor::from_raw(0, 255, 0),
            Color::MAROON => SrgbColor::from_raw(128, 0, 0),
            Color::PURPLE => SrgbColor::from_raw(128, 0, 128),
            Color::VIOLET => SrgbColor::from_raw(128, 0, 128),
            Color::BEIGE => SrgbColor::from_raw(245, 245, 220),
            Color::BROWN => SrgbColor::from_raw(165, 42, 42),
            Color::DARKBLUE => SrgbColor::from_raw(0, 0, 139),
            Color::DARKGREEN => SrgbColor::from_raw(0, 100, 0),
            Color::DARKPURPLE => SrgbColor::from_raw(139, 0, 139),
            Color::DARKBROWN => SrgbColor::from_raw(101, 67, 33),
            Color::LIGHTGRAY => SrgbColor::from_raw(211, 211, 211),
            Color::DARKGRAY => SrgbColor::from_raw(169, 169, 169),
            Color::SKYBLUE => SrgbColor::from_raw(135, 206, 235),
        }
    }

    /// The channel values of a named color as an array, red first.
    pub fn to_vector<T: BaseNum>(self) -> (v: [T; 3])
        ensures
            v@ == seq![self.srgb_spec::<T>().r, self.srgb_spec::<T>().g, self.srgb_spec::<T>().b],
    {
        let srgb = self.get_srgb::<T>();
        [srgb.r, srgb.g, srgb.b]
    }
}

} // verus!
