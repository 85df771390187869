//! Shared widget utilities: the hover-reaction controller that recolors a
//! button-like element when the pointer enters or leaves it, and the record
//! of which visual assets the host has finished loading.

use vstd::prelude::*;

use crate::config::BackgroundForeground;
use crate::config::ButtonStyle;

verus! {

/// The pointer-interaction state of an element, as the host reports it.
#[derive(Clone, Copy, Debug, PartialEq, Eq, Structural)]
pub enum Interaction {
    Pressed,
    Hovered,
    Idle,
}

/// Handles to the visual assets the widget layer needs before it may build
/// anything. The host loads them asynchronously and fills the handles in;
/// the library only polls whether they are present.
#[derive(Clone, Copy, Debug, Default)]
pub struct UIAssets {
    pub font: Option<u64>,
    pub icon_font: Option<u64>,
}

impl UIAssets {
    /// The readiness check the builder polls: building is allowed once the
    /// main font is loaded.
    pub fn font_ready(&self) -> (r: bool)
        ensures
            r == self.font is Some,
    {
        self.font.is_some()
    }
}

/// Marks an element as hover-reactive and carries the two color pairs it
/// switches between.
#[derive(Clone, Copy, Debug, PartialEq, Eq, Structural)]
pub struct ChangeColorOnHover {
    pub normal_color: BackgroundForeground,
    pub hover_color: BackgroundForeground,
}

impl From<ButtonStyle> for ChangeColorOnHover {
    fn from(value: ButtonStyle) -> (r: Self) {
        ChangeColorOnHover { normal_color: value.normal_colors, hover_color: value.hover_colors }
    }
}

impl vstd::std_specs::convert::FromSpecImpl<ButtonStyle> for ChangeColorOnHover {
    open spec fn obeys_from_spec() -> bool {
        true
    }

    open spec fn from_spec(value: ButtonStyle) -> Self {
        ChangeColorOnHover { normal_color: value.normal_colors, hover_color: value.hover_colors }
    }
}

/// The color pair a hover-reactive element must show for a given
/// pointer-interaction state: the hover pair while the pointer is over it,
/// the normal pair in every other state.
pub open spec fn hover_reaction(colors: ChangeColorOnHover, interaction: Interaction) -> BackgroundForeground {
    if interaction is Hovered {
        colors.hover_color
    } else {
        colors.normal_color
    }
}

/// Decides the recoloring of one hover-reactive element after a change of
/// its pointer-interaction state. The host applies the returned pair to the
/// element's background and to the foreground of its direct text children;
/// nothing else about the element changes.
pub fn change_color_on_hover(colors: &ChangeColorOnHover, interaction: Interaction) -> (r: BackgroundForeground)
    ensures
        r == hover_reaction(*colors, interaction),
{
    match interaction {
        Interaction::Hovered => colors.hover_color,
        _ => colors.normal_color,
    }
}

} // verus!
