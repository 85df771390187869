//! The settings surface's dropdown/combobox widget: the described anchor
//! button and popup list, the controller that keeps at most one popup open
//! across the surface, and the cache that repositions a popup only when
//! its anchor's measured box actually changes.
//!
//! The host owns the real UI tree. It routes anchor clicks to
//! [`on_combobutton_clicked`] and clicks nowhere else to
//! [`on_outside_click`], applies the returned show/hide commands to its
//! nodes, and feeds each anchor's measured box to
//! [`on_combobutton_layout`] every tick, moving the popup when an offset
//! comes back.

use vstd::prelude::*;

use crate::config::UiColor;
use crate::config::UiStyle;
use crate::layouts::NodeModifier;
use crate::layouts::TextBoxBundle;
use crate::layouts::UiNode;
use crate::layouts::default_node;
use crate::layouts::modify_spec;
use crate::layouts::text_box;
use crate::layouts::text_box_spec;
use crate::utils::ChangeColorOnHover;
use crate::utils::UIAssets;

verus! {

/// One selectable entry of a dropdown list.
#[derive(Debug)]
pub struct DropdownMenuItem {
    pub label: String,
}

impl Clone for DropdownMenuItem {
    /// The copy is the same entry.
    fn clone(&self) -> (r: Self)
        ensures
            r == *self,
    {
        DropdownMenuItem { label: self.label.clone() }
    }
}

/// The entries a combobox offers, in display order.
#[derive(Debug)]
pub struct DropdownMenu {
    pub items: Vec<DropdownMenuItem>,
}

impl Clone for DropdownMenu {
    /// The copy offers the same entries.
    fn clone(&self) -> (r: Self)
        ensures
            r.items@ == self.items@,
    {
        let items = self.items.clone();
        proof {
            assert forall|i: int| 0 <= i < self.items@.len() implies items@[i] == self.items@[i] by {
                assert(cloned::<DropdownMenuItem>(self.items@[i], items@[i]));
            }
            assert(items@ =~= self.items@);
        }
        DropdownMenu { items }
    }
}

/// The colors of a dropdown row: blue-violet under white text, turning
/// aquamarine under black text while hovered.
pub open spec fn dropdown_row_colors() -> ChangeColorOnHover {
    ChangeColorOnHover {
        normal_color: crate::config::BackgroundForeground {
            back_color: UiColor { red: 138u8, green: 43u8, blue: 226u8, alpha: 255u8 },
            fore_color: UiColor { red: 255u8, green: 255u8, blue: 255u8, alpha: 255u8 },
        },
        hover_color: crate::config::BackgroundForeground {
            back_color: UiColor { red: 127u8, green: 255u8, blue: 212u8, alpha: 255u8 },
            fore_color: UiColor { red: 0u8, green: 0u8, blue: 0u8, alpha: 255u8 },
        },
    }
}

/// One visual row of a shown dropdown list: a hover-reactive line of text.
#[derive(Debug)]
pub struct DropdownRow {
    pub node: UiNode,
    pub hover: ChangeColorOnHover,
    pub background: UiColor,
    pub text: String,
}

/// What [`menu_item`] describes for an entry: a default node in the row
/// colors, showing the entry's label.
pub open spec fn menu_item_spec(label: DropdownMenuItem) -> DropdownRow {
    DropdownRow {
        node: default_node(),
        hover: dropdown_row_colors(),
        background: dropdown_row_colors().normal_color.back_color,
        text: label.label,
    }
}

/// Describes one row of a dropdown list.
pub fn menu_item(label: DropdownMenuItem) -> (r: DropdownRow)
    ensures
        r == menu_item_spec(label),
{
    let colors = ChangeColorOnHover {
        normal_color: crate::config::BackgroundForeground {
            back_color: UiColor::rgb(138, 43, 226),
            fore_color: UiColor::rgb(255, 255, 255),
        },
        hover_color: crate::config::BackgroundForeground {
            back_color: UiColor::rgb(127, 255, 212),
            fore_color: UiColor::rgb(0, 0, 0),
        },
    };
    DropdownRow {
        node: UiNode::new(),
        hover: colors,
        background: colors.normal_color.back_color,
        text: label.label,
    }
}

/// The labels a row list shows, in order.
pub open spec fn rows_view(rows: Seq<DropdownRow>) -> Seq<Seq<char>> {
    Seq::new(rows.len(), |i: int| rows[i].text@)
}

/// The labels a dropdown's entries carry, in order.
pub open spec fn dropdown_labels(items: Seq<DropdownMenuItem>) -> Seq<Seq<char>> {
    Seq::new(items.len(), |i: int| items[i].label@)
}

/// The described popup panel of a combobox: a colored container holding
/// one row per entry.
#[derive(Debug)]
pub struct DropdownPanel {
    pub node: UiNode,
    pub background: UiColor,
    pub rows: Vec<DropdownRow>,
}

/// Describes the popup list of a dropdown: the modifier applied to a
/// default node, and one row per entry of the menu, in order.
pub fn dropdown_menu(node_modifier: NodeModifier, menu: &DropdownMenu) -> (r: DropdownPanel)
    ensures
        r.node == modify_spec(node_modifier, default_node()),
        r.background == (UiColor { red: 0u8, green: 0u8, blue: 255u8, alpha: 255u8 }),
        r.rows@.len() == menu.items@.len(),
        forall|i: int|
            #![trigger r.rows@[i]]
            0 <= i < menu.items@.len() ==> r.rows@[i] == menu_item_spec(menu.items@[i]),
        rows_view(r.rows@) == dropdown_labels(menu.items@),
{
    let node = node_modifier.modify(UiNode::new());
    let mut rows: Vec<DropdownRow> = Vec::new();
    let n: usize = menu.items.len();
    let mut idx: usize = 0;
    while idx < n
        invariant
            n == menu.items@.len(),
            idx <= n,
            rows@.len() == idx,
            forall|i: int|
                #![trigger rows@[i]]
                0 <= i < idx ==> rows@[i] == menu_item_spec(menu.items@[i]),
        decreases n - idx,
    {
        rows.push(menu_item(menu.items[idx].clone()));
        idx = idx + 1;
    }
    proof {
        assert(rows_view(rows@) =~= dropdown_labels(menu.items@));
    }
    DropdownPanel { node, background: UiColor { red: 0, green: 0, blue: 255, alpha: 255 }, rows }
}

/// A described combobox: the anchor button showing the current selection,
/// the recorded selection, the popup panel (spawned hidden, positioned
/// absolutely), and the anchor's last observed box.
#[derive(Debug)]
pub struct Combobox {
    pub button: TextBoxBundle,
    pub selection: String,
    pub panel: DropdownPanel,
    pub previous_layout: PreviousLayout,
}

/// Describes a combobox for a dropdown menu: the anchor is a text box
/// showing the first entry, and the popup holds every entry in order,
/// absolutely positioned and hidden until the anchor is clicked. The menu
/// must offer at least one entry, and the font must already be loaded.
pub fn spawn_combobox(
    menu: &DropdownMenu,
    node_modifier: NodeModifier,
    ui_assets: &UIAssets,
    ui_style: &UiStyle,
) -> (r: Combobox)
    requires
        menu.items@.len() > 0,
        ui_assets.font is Some,
    ensures
        r.button == text_box_spec(
            menu.items@[0].label,
            ui_assets.font->0,
            node_modifier,
            ui_style.button_style.normal_colors,
        ),
        r.selection == menu.items@[0].label,
        r.panel.node == modify_spec(
            NodeModifier {
                force_absolute_position: true,
                is_hidden: true,
                ..crate::layouts::empty_modifier()
            },
            default_node(),
        ),
        r.panel.node.hidden,
        r.panel.node.absolute_position,
        r.panel.rows@.len() == menu.items@.len(),
        forall|i: int|
            #![trigger r.panel.rows@[i]]
            0 <= i < menu.items@.len() ==> r.panel.rows@[i] == menu_item_spec(menu.items@[i]),
        rows_view(r.panel.rows@) == dropdown_labels(menu.items@),
        r.previous_layout.0 is None,
{
    let first_item = menu.items[0].label.clone();
    let button = text_box(
        first_item.clone(),
        ui_assets.font.unwrap(),
        node_modifier,
        ui_style.button_style.normal_colors,
    );
    let panel = dropdown_menu(NodeModifier::new().force_absolute_pos().spawn_hidden(), menu);
    Combobox { button, selection: first_item, panel, previous_layout: PreviousLayout(None) }
}

/// The shared slot of a settings surface: the one popup currently open on
/// it, if any. Clicking an anchor while another anchor's popup is open
/// first hides that one, so the surface never shows two popups at once.
#[derive(Clone, Copy, Debug, PartialEq, Eq)]
pub struct OpenedPopup(pub Option<u64>);

/// A visibility command for the host: show or hide the popup node with
/// the given identifier.
#[derive(Clone, Copy, Debug, PartialEq, Eq, Structural)]
pub enum PopupCmd {
    Show(u64),
    Hide(u64),
}

/// What the anchor-click handler hands back: the visibility commands to
/// apply, and whether the click was consumed (a consumed click must not
/// also be dispatched as an outside click).
#[derive(Debug)]
pub struct ClickReaction {
    pub cmds: Vec<PopupCmd>,
    pub consumed: bool,
}

/// What one visibility command does to the set of popups shown on the
/// surface.
pub open spec fn apply_cmd(vis: Set<u64>, cmd: PopupCmd) -> Set<u64> {
    match cmd {
        PopupCmd::Show(p) => vis.insert(p),
        PopupCmd::Hide(p) => vis.remove(p),
    }
}

/// The set of shown popups after a command list is applied in order.
pub open spec fn apply_cmds(vis: Set<u64>, cmds: Seq<PopupCmd>) -> Set<u64>
    decreases cmds.len(),
{
    if cmds.len() == 0 {
        vis
    } else {
        apply_cmds(apply_cmd(vis, cmds[0]), cmds.drop_first())
    }
}

/// A click dispatched on the surface: on an anchor (carrying the popup
/// associated with that anchor, if it has one), or anywhere else.
pub enum SurfaceClick {
    AnchorClick(Option<u64>),
    OutsideClick,
}

/// The slot after one click: an anchor with a popup leaves its popup
/// recorded, an outside click clears the slot, anything else changes
/// nothing.
pub open spec fn slot_step(slot: Option<u64>, click: SurfaceClick) -> Option<u64> {
    match click {
        SurfaceClick::AnchorClick(target) => if target is Some {
            target
        } else {
            slot
        },
        SurfaceClick::OutsideClick => None,
    }
}

/// The set of shown popups after one click: an anchor click shows its
/// popup and hides a different previously open one, an outside click
/// hides whatever the slot held.
pub open spec fn vis_step(slot: Option<u64>, vis: Set<u64>, click: SurfaceClick) -> Set<u64> {
    match click {
        SurfaceClick::AnchorClick(target) => if target is Some {
            if slot is Some && slot->0 != target->0 {
                vis.remove(slot->0).insert(target->0)
            } else {
                vis.insert(target->0)
            }
        } else {
            vis
        },
        SurfaceClick::OutsideClick => if slot is Some {
            vis.remove(slot->0)
        } else {
            vis
        },
    }
}

/// The command list an anchor click produces.
pub open spec fn anchor_cmds(slot: Option<u64>, target: Option<u64>) -> Seq<PopupCmd> {
    if target is Some {
        if slot is Some && slot->0 != target->0 {
            seq![PopupCmd::Hide(slot->0), PopupCmd::Show(target->0)]
        } else {
            seq![PopupCmd::Show(target->0)]
        }
    } else {
        Seq::empty()
    }
}

/// The command list an outside click produces.
pub open spec fn outside_cmds(slot: Option<u64>) -> Seq<PopupCmd> {
    if slot is Some {
        seq![PopupCmd::Hide(slot->0)]
    } else {
        Seq::empty()
    }
}

/// Applying an anchor click's commands to any visibility state lands on
/// exactly the state the click transition describes.
pub proof fn lemma_anchor_cmds_realize(slot: Option<u64>, target: Option<u64>, vis: Set<u64>)
    ensures
        apply_cmds(vis, anchor_cmds(slot, target)) == vis_step(
            slot,
            vis,
            SurfaceClick::AnchorClick(target),
        ),
{
    reveal_with_fuel(apply_cmds, 3);
}

/// Applying an outside click's commands to any visibility state lands on
/// exactly the state the click transition describes.
pub proof fn lemma_outside_cmds_realize(slot: Option<u64>, vis: Set<u64>)
    ensures
        apply_cmds(vis, outside_cmds(slot)) == vis_step(slot, vis, SurfaceClick::OutsideClick),
{
    reveal_with_fuel(apply_cmds, 2);
}

/// Handles a click on a combobox anchor. With no popup associated with
/// the anchor this is a no-op and the click falls through to the outside
/// handler. Otherwise the anchor's popup is shown and recorded, a
/// different popup still open is hidden first, and the click is consumed
/// so the same dispatch cannot also close the popup as an outside click.
pub fn on_combobutton_clicked(opened_popup: &mut OpenedPopup, target_popup: Option<u64>) -> (r:
    ClickReaction)
    ensures
        final(opened_popup).0 == slot_step(
            old(opened_popup).0,
            SurfaceClick::AnchorClick(target_popup),
        ),
        r.cmds@ == anchor_cmds(old(opened_popup).0, target_popup),
        r.consumed == (target_popup is Some),
{
    match target_popup {
        Some(p) => {
            let mut cmds: Vec<PopupCmd> = Vec::new();
            if let Some(q) = opened_popup.0 {
                if q != p {
                    cmds.push(PopupCmd::Hide(q));
                }
            }
            cmds.push(PopupCmd::Show(p));
            opened_popup.0 = Some(p);
            ClickReaction { cmds, consumed: true }
        },
        None => ClickReaction { cmds: Vec::new(), consumed: false },
    }
}

/// Handles a click consumed by no anchor: hides the open popup and clears
/// the slot; with nothing open this is a no-op.
pub fn on_outside_click(opened_popup: &mut OpenedPopup) -> (r: Vec<PopupCmd>)
    ensures
        final(opened_popup).0 is None,
        final(opened_popup).0 == slot_step(old(opened_popup).0, SurfaceClick::OutsideClick),
        r@ == outside_cmds(old(opened_popup).0),
{
    let prev = opened_popup.0.take();
    match prev {
        Some(p) => {
            let mut cmds: Vec<PopupCmd> = Vec::new();
            cmds.push(PopupCmd::Hide(p));
            cmds
        },
        None => Vec::new(),
    }
}

/// The controller's invariant: every popup shown on the surface is the
/// one the slot records — so at most one is ever shown.
pub open spec fn popup_inv(slot: Option<u64>, vis: Set<u64>) -> bool {
    forall|p: u64| #[trigger] vis.contains(p) ==> slot == Some(p)
}

/// The slot and the shown set after a whole queue of clicks, applied in
/// dispatch order.
pub open spec fn surface_run(slot: Option<u64>, vis: Set<u64>, clicks: Seq<SurfaceClick>) -> (
    Option<u64>,
    Set<u64>,
)
    decreases clicks.len(),
{
    if clicks.len() == 0 {
        (slot, vis)
    } else {
        surface_run(
            slot_step(slot, clicks[0]),
            vis_step(slot, vis, clicks[0]),
            clicks.drop_first(),
        )
    }
}

/// One click preserves the controller's invariant.
pub proof fn lemma_popup_step_inv(slot: Option<u64>, vis: Set<u64>, click: SurfaceClick)
    requires
        popup_inv(slot, vis),
    ensures
        popup_inv(slot_step(slot, click), vis_step(slot, vis, click)),
{
}

/// Popup exclusivity: after any queue of anchor clicks and outside
/// clicks, every popup shown is the one the slot records, and at most one
/// popup is shown.
pub proof fn lemma_popup_exclusive(slot: Option<u64>, vis: Set<u64>, clicks: Seq<SurfaceClick>)
    requires
        popup_inv(slot, vis),
    ensures
        popup_inv(surface_run(slot, vis, clicks).0, surface_run(slot, vis, clicks).1),
        forall|p: u64, q: u64|
            surface_run(slot, vis, clicks).1.contains(p) && surface_run(
                slot,
                vis,
                clicks,
            ).1.contains(q) ==> p == q,
    decreases clicks.len(),
{
    if clicks.len() > 0 {
        lemma_popup_step_inv(slot, vis, clicks[0]);
        lemma_popup_exclusive(
            slot_step(slot, clicks[0]),
            vis_step(slot, vis, clicks[0]),
            clicks.drop_first(),
        );
    }
}

/// A point or extent on the surface, in whole pixels.
#[derive(Clone, Copy, Debug, PartialEq, Eq, Structural)]
pub struct Vec2i {
    pub x: i64,
    pub y: i64,
}

/// An anchor's measured on-screen box.
#[derive(Clone, Copy, Debug, PartialEq, Eq, Structural)]
pub struct LayoutInfo {
    pub position: Vec2i,
    pub size: Vec2i,
}

/// An anchor's box as last observed, used to detect actual changes; holds
/// nothing before the first measurement.
#[derive(Clone, Copy, Debug, PartialEq, Eq)]
pub struct PreviousLayout(pub Option<LayoutInfo>);

/// Where an anchor's dropdown must sit relative to the anchor:
/// immediately below it.
#[derive(Clone, Copy, Debug, PartialEq, Eq, Structural)]
pub struct DropdownOffset {
    pub top: i64,
    pub left: i64,
}

/// Whether a new measurement differs from the cached one: a change of
/// position or of size, or a first measurement, triggers repositioning.
pub open spec fn layout_fires(prev: Option<LayoutInfo>, measured: LayoutInfo) -> bool {
    prev != Some(measured)
}

/// Processes one measurement of an anchor's box. Exactly when the box
/// differs from the last observed value, the anchor's dropdown must be
/// moved to sit immediately below the anchor — vertical offset the
/// anchor's height, horizontal offset zero — and either way the
/// measurement becomes the cached value.
pub fn on_combobutton_layout(previous_layout: &mut PreviousLayout, measured: LayoutInfo) -> (r:
    Option<DropdownOffset>)
    ensures
        r is Some <==> layout_fires(old(previous_layout).0, measured),
        final(previous_layout).0 == Some(measured),
        r matches Some(off) ==> off == (DropdownOffset { top: measured.size.y, left: 0 }),
{
    let fire: bool = match previous_layout.0 {
        Some(li) => !(li.position == measured.position && li.size == measured.size),
        None => true,
    };
    if fire {
        previous_layout.0 = Some(measured);
        Some(DropdownOffset { top: measured.size.y, left: 0 })
    } else {
        None
    }
}

/// Layout-change gating: once a measurement is cached, observing the very
/// same box again repositions nothing — two consecutive identical
/// measurements trigger at most one repositioning.
pub proof fn lemma_layout_change_gating(m: LayoutInfo)
    ensures
        !layout_fires(Some(m), m),
{
}

impl Combobox {
    /// Moves the combobox's dropdown to the given offset below its
    /// anchor; nothing else about the combobox changes.
    pub fn reposition_dropdown(&mut self, off: DropdownOffset)
        ensures
            final(self).panel.node == (UiNode {
                top: Some(off.top),
                left: Some(off.left),
                ..old(self).panel.node
            }),
            final(self).panel.background == old(self).panel.background,
            final(self).panel.rows == old(self).panel.rows,
            final(self).button == old(self).button,
            final(self).selection == old(self).selection,
            final(self).previous_layout == old(self).previous_layout,
    {
        self.panel.node.top = Some(off.top);
        self.panel.node.left = Some(off.left);
    }
}

} // verus!
