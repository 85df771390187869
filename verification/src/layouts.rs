//! Node-bundle builders, modeled as plain data. The rendering host owns
//! layout and rasterization; the library describes the nodes it wants — the
//! few node properties the widget layer ever sets, a text box, a button —
//! and the host turns each description into a real node of its tree.

use vstd::prelude::*;

use crate::config::BackgroundForeground;
use crate::config::ButtonStyle;
use crate::config::UiColor;
use crate::utils::ChangeColorOnHover;

verus! {

/// A placement on a grid axis: which line to start at and how many tracks
/// to span.
#[derive(Clone, Copy, Debug, PartialEq, Eq, Structural)]
pub struct GridPlacement {
    pub start: i16,
    pub span: u16,
}

impl GridPlacement {
    pub fn start_span(start: i16, span: u16) -> (r: GridPlacement)
        ensures
            r == (GridPlacement { start, span }),
    {
        GridPlacement { start, span }
    }
}

/// The node properties the widget layer sets on elements it describes.
/// Everything not listed here keeps the host's default.
#[derive(Clone, Copy, Debug, PartialEq, Eq, Structural)]
pub struct UiNode {
    /// Placement on the grid's column axis; `None` means automatic.
    pub grid_column: Option<GridPlacement>,
    /// Placement on the grid's row axis; `None` means automatic.
    pub grid_row: Option<GridPlacement>,
    /// Positioned absolutely, out of the normal layout flow.
    pub absolute_position: bool,
    /// Not displayed at all.
    pub hidden: bool,
    /// Stretched to cover the whole viewport.
    pub fills_viewport: bool,
    /// Distance from the top of the parent, in pixels; `None` means automatic.
    pub top: Option<i64>,
    /// Distance from the left edge of the parent, in pixels; `None` means automatic.
    pub left: Option<i64>,
}

/// A node with every property left at the host's default.
pub open spec fn default_node() -> UiNode {
    UiNode {
        grid_column: None,
        grid_row: None,
        absolute_position: false,
        hidden: false,
        fills_viewport: false,
        top: None,
        left: None,
    }
}

impl UiNode {
    pub fn new() -> (n: UiNode)
        ensures
            n == default_node(),
    {
        UiNode {
            grid_column: None,
            grid_row: None,
            absolute_position: false,
            hidden: false,
            fills_viewport: false,
            top: None,
            left: None,
        }
    }
}

/// A bundle of node adjustments, collected with builder calls and applied
/// to a node in one step.
#[derive(Clone, Copy, Debug, PartialEq, Eq, Structural)]
pub struct NodeModifier {
    pub grid_column: Option<GridPlacement>,
    pub grid_row: Option<GridPlacement>,
    pub is_root: bool,
    pub force_absolute_position: bool,
    pub is_hidden: bool,
}

/// A modifier that adjusts nothing.
pub open spec fn empty_modifier() -> NodeModifier {
    NodeModifier {
        grid_column: None,
        grid_row: None,
        is_root: false,
        force_absolute_position: false,
        is_hidden: false,
    }
}

/// What [`NodeModifier::modify`] returns: each adjustment the modifier
/// holds overrides the matching property of the node, and every other
/// property is kept.
pub open spec fn modify_spec(m: NodeModifier, n: UiNode) -> UiNode {
    UiNode {
        grid_column: if m.grid_column is Some {
            m.grid_column
        } else {
            n.grid_column
        },
        grid_row: if m.grid_row is Some {
            m.grid_row
        } else {
            n.grid_row
        },
        absolute_position: n.absolute_position || m.force_absolute_position,
        hidden: n.hidden || m.is_hidden,
        fills_viewport: n.fills_viewport || m.is_root,
        ..n
    }
}

impl NodeModifier {
    pub fn new() -> (r: NodeModifier)
        ensures
            r == empty_modifier(),
    {
        NodeModifier {
            grid_column: None,
            grid_row: None,
            is_root: false,
            force_absolute_position: false,
            is_hidden: false,
        }
    }

    pub fn set_grid_column(self, pl: GridPlacement) -> (r: NodeModifier)
        ensures
            r == (NodeModifier { grid_column: Some(pl), ..self }),
    {
        NodeModifier { grid_column: Some(pl), ..self }
    }

    pub fn set_grid_row(self, pl: GridPlacement) -> (r: NodeModifier)
        ensures
            r == (NodeModifier { grid_row: Some(pl), ..self }),
    {
        NodeModifier { grid_row: Some(pl), ..self }
    }

    /// The modifier for the root container of a surface: it must cover the
    /// whole viewport.
    pub fn root() -> (r: NodeModifier)
        ensures
            r == (NodeModifier { is_root: true, ..empty_modifier() }),
    {
        NodeModifier {
            grid_column: None,
            grid_row: None,
            is_root: true,
            force_absolute_position: false,
            is_hidden: false,
        }
    }

    /// Takes the described node out of the normal layout flow, so its
    /// offsets position it relative to its parent.
    pub fn force_absolute_pos(self) -> (r: NodeModifier)
        ensures
            r == (NodeModifier { force_absolute_position: true, ..self }),
    {
        NodeModifier { force_absolute_position: true, ..self }
    }

    /// Makes the described node start out not displayed, as a popup does.
    pub fn spawn_hidden(self) -> (r: NodeModifier)
        ensures
            r == (NodeModifier { is_hidden: true, ..self }),
    {
        NodeModifier { is_hidden: true, ..self }
    }

    /// Applies the collected adjustments to a node description.
    pub fn modify(&self, n: UiNode) -> (r: UiNode)
        ensures
            r == modify_spec(*self, n),
    {
        let mut new_node = n;
        if let Some(val) = self.grid_column {
            new_node.grid_column = Some(val);
        }
        if let Some(val) = self.grid_row {
            new_node.grid_row = Some(val);
        }
        if self.is_root {
            new_node.fills_viewport = true;
        }
        if self.force_absolute_position {
            new_node.absolute_position = true;
        }
        if self.is_hidden {
            new_node.hidden = true;
        }
        new_node
    }
}

/// A described text box: a node showing one line of text over a colored
/// background.
#[derive(Debug)]
pub struct TextBoxBundle {
    pub node: UiNode,
    pub background: UiColor,
    pub text: String,
    pub text_color: UiColor,
    pub font: u64,
}

/// What [`text_box`] returns for the given text, font, modifier and colors.
pub open spec fn text_box_spec(
    text: String,
    font: u64,
    node_modifier: NodeModifier,
    style: BackgroundForeground,
) -> TextBoxBundle {
    TextBoxBundle {
        node: modify_spec(node_modifier, default_node()),
        background: style.back_color,
        text: text,
        text_color: style.fore_color,
        font: font,
    }
}

/// Describes a text box: the modifier applied to a default node, the
/// style's background behind the text, its foreground on the text.
pub fn text_box(
    text: String,
    font: u64,
    node_modifier: NodeModifier,
    style: BackgroundForeground,
) -> (r: TextBoxBundle)
    ensures
        r == text_box_spec(text, font, node_modifier, style),
{
    TextBoxBundle {
        node: node_modifier.modify(UiNode::new()),
        background: style.back_color,
        text: text,
        text_color: style.fore_color,
        font: font,
    }
}

/// A described button: a text box that reacts to hovering.
#[derive(Debug)]
pub struct ButtonBoxBundle {
    pub text_box: TextBoxBundle,
    pub hover: ChangeColorOnHover,
}

/// What [`button_box`] returns for the given text, font, modifier and style.
pub open spec fn button_box_spec(
    text: String,
    font: u64,
    node_modifier: NodeModifier,
    style: ButtonStyle,
) -> ButtonBoxBundle {
    ButtonBoxBundle {
        text_box: text_box_spec(text, font, node_modifier, style.normal_colors),
        hover: ChangeColorOnHover {
            normal_color: style.normal_colors,
            hover_color: style.hover_colors,
        },
    }
}

/// How a described container lays its children out: a horizontal flex row
/// with vertically centered children, or a grid whose children sit in a
/// centered band of columns between two elastic gutters.
#[derive(Clone, Copy, Debug, PartialEq, Eq, Structural)]
pub enum ContainerLayout {
    FlexRowCentered,
    GridHorCenter(u16),
}

/// A described container node: the host spawns it and then spawns the
/// caller's children under it.
#[derive(Clone, Copy, Debug, PartialEq, Eq, Structural)]
pub struct ContainerBundle {
    pub node: UiNode,
    pub layout: ContainerLayout,
}

/// Describes a container that centers its children vertically in a
/// horizontal row.
pub fn vertically_centered(node_modifier: NodeModifier) -> (r: ContainerBundle)
    ensures
        r == (ContainerBundle {
            node: modify_spec(node_modifier, default_node()),
            layout: ContainerLayout::FlexRowCentered,
        }),
{
    ContainerBundle {
        node: node_modifier.modify(UiNode::new()),
        layout: ContainerLayout::FlexRowCentered,
    }
}

/// Describes a grid container that holds its children in the given number
/// of centered columns between two elastic gutters.
pub fn grid_hor_center_layout(node_modifier: NodeModifier, central_columns: u16) -> (r:
    ContainerBundle)
    ensures
        r == (ContainerBundle {
            node: modify_spec(node_modifier, default_node()),
            layout: ContainerLayout::GridHorCenter(central_columns),
        }),
{
    ContainerBundle {
        node: node_modifier.modify(UiNode::new()),
        layout: ContainerLayout::GridHorCenter(central_columns),
    }
}

/// Describes a button: a text box in the style's normal colors, marked
/// hover-reactive with the style's two color pairs.
pub fn button_box(
    text: String,
    font: u64,
    node_modifier: NodeModifier,
    style: ButtonStyle,
) -> (r: ButtonBoxBundle)
    ensures
        r == button_box_spec(text, font, node_modifier, style),
{
    let result = text_box(text, font, node_modifier, style.normal_colors);
    ButtonBoxBundle { text_box: result, hover: ChangeColorOnHover::from(style) }
}

} // verus!
