//! Style configuration for the widget layer: a palette mapping the logical
//! state of a button-like element to its background/foreground colors. The
//! library only ever reads this configuration.

use vstd::prelude::*;

verus! {

/// An opaque sRGB color with alpha, as the rendering host encodes it.
#[derive(Clone, Copy, Debug, PartialEq, Eq, Structural)]
pub struct UiColor {
    pub red: u8,
    pub green: u8,
    pub blue: u8,
    pub alpha: u8,
}

impl UiColor {
    pub fn rgb(red: u8, green: u8, blue: u8) -> (c: UiColor)
        ensures
            c == (UiColor { red, green, blue, alpha: 255u8 }),
    {
        UiColor { red, green, blue, alpha: 255 }
    }
}

/// One visual state of a button-like element: the color behind it and the
/// color of its text.
#[derive(Clone, Copy, Debug, PartialEq, Eq, Structural)]
pub struct BackgroundForeground {
    pub back_color: UiColor,
    pub fore_color: UiColor,
}

/// The two visual states a hover-reactive button switches between.
#[derive(Clone, Copy, Debug, PartialEq, Eq, Structural)]
pub struct ButtonStyle {
    pub normal_colors: BackgroundForeground,
    pub hover_colors: BackgroundForeground,
}

/// The whole read-only style resource of the widget layer.
#[derive(Clone, Copy, Debug, PartialEq, Eq, Structural)]
pub struct UiStyle {
    pub button_style: ButtonStyle,
    pub back_color: UiColor,
}

/// The default palette: a violet surface with pink buttons that lighten
/// under the pointer.
pub open spec fn standard_style_spec() -> UiStyle {
    UiStyle {
        back_color: UiColor { red: 237u8, green: 233u8, blue: 254u8, alpha: 255u8 },
        button_style: ButtonStyle {
            normal_colors: BackgroundForeground {
                back_color: UiColor { red: 244u8, green: 114u8, blue: 182u8, alpha: 255u8 },
                fore_color: UiColor { red: 255u8, green: 255u8, blue: 255u8, alpha: 255u8 },
            },
            hover_colors: BackgroundForeground {
                back_color: UiColor { red: 251u8, green: 207u8, blue: 232u8, alpha: 255u8 },
                fore_color: UiColor { red: 55u8, green: 65u8, blue: 81u8, alpha: 255u8 },
            },
        },
    }
}

/// The style a host gets when it has no palette of its own.
pub fn standard_style() -> (s: UiStyle)
    ensures
        s == standard_style_spec(),
{
    UiStyle {
        back_color: UiColor::rgb(237, 233, 254),
        button_style: ButtonStyle {
            normal_colors: BackgroundForeground {
                back_color: UiColor::rgb(244, 114, 182),
                fore_color: UiColor::rgb(255, 255, 255),
            },
            hover_colors: BackgroundForeground {
                back_color: UiColor::rgb(251, 207, 232),
                fore_color: UiColor::rgb(55, 65, 81),
            },
        },
    }
}

} // verus!
