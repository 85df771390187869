use menukit::config::standard_style;
use menukit::settings::dropdown_menu;
use menukit::settings::menu_item;
use menukit::settings::on_combobutton_clicked;
use menukit::settings::on_combobutton_layout;
use menukit::settings::on_outside_click;
use menukit::settings::spawn_combobox;
use menukit::settings::Combobox;
use menukit::settings::DropdownMenu;
use menukit::settings::DropdownMenuItem;
use menukit::settings::DropdownOffset;
use menukit::settings::LayoutInfo;
use menukit::settings::OpenedPopup;
use menukit::settings::PopupCmd;
use menukit::settings::PreviousLayout;
use menukit::settings::Vec2i;
use menukit::layouts::NodeModifier;
use menukit::utils::UIAssets;

fn three_positions() -> DropdownMenu {
    DropdownMenu {
        items: vec![
            DropdownMenuItem { label: "position 1".to_string() },
            DropdownMenuItem { label: "position 2".to_string() },
            DropdownMenuItem { label: "position 3".to_string() },
        ],
    }
}

fn ready_assets() -> UIAssets {
    UIAssets { font: Some(11), icon_font: None }
}

fn combobox() -> Combobox {
    spawn_combobox(&three_positions(), NodeModifier::new(), &ready_assets(), &standard_style())
}

#[test]
fn combobox_shows_first_entry_and_hides_popup() {
    let cb = combobox();
    assert_eq!(cb.button.text, "position 1");
    assert_eq!(cb.selection, "position 1");
    assert!(cb.panel.node.hidden);
    assert!(cb.panel.node.absolute_position);
    assert!(cb.previous_layout.0.is_none());
    let texts: Vec<&str> = cb.panel.rows.iter().map(|r| r.text.as_str()).collect();
    assert_eq!(texts, vec!["position 1", "position 2", "position 3"]);
}

#[test]
fn cloning_a_dropdown_keeps_its_entries() {
    let menu = three_positions();
    let copy = menu.clone();
    assert_eq!(copy.items.len(), 3);
    for (a, b) in menu.items.iter().zip(copy.items.iter()) {
        assert_eq!(a.label, b.label);
    }
}

#[test]
fn dropdown_rows_keep_entry_order() {
    let panel = dropdown_menu(NodeModifier::new(), &three_positions());
    assert_eq!(panel.rows.len(), 3);
    for (row, want) in panel.rows.iter().zip(["position 1", "position 2", "position 3"]) {
        assert_eq!(row.text, want);
    }
}

#[test]
fn dropdown_row_has_its_own_palette() {
    let row = menu_item(DropdownMenuItem { label: "choice".to_string() });
    assert_eq!(row.text, "choice");
    assert_eq!(row.background, row.hover.normal_color.back_color);
    let n = row.hover.normal_color;
    assert_eq!((n.back_color.red, n.back_color.green, n.back_color.blue), (138, 43, 226));
    let h = row.hover.hover_color;
    assert_eq!((h.back_color.red, h.back_color.green, h.back_color.blue), (127, 255, 212));
}

#[test]
fn anchor_click_opens_and_outside_click_closes() {
    let mut slot = OpenedPopup(None);
    let reaction = on_combobutton_clicked(&mut slot, Some(42));
    assert!(reaction.consumed);
    assert_eq!(reaction.cmds, vec![PopupCmd::Show(42)]);
    assert_eq!(slot.0, Some(42));

    let cmds = on_outside_click(&mut slot);
    assert_eq!(cmds, vec![PopupCmd::Hide(42)]);
    assert_eq!(slot.0, None);
}

#[test]
fn second_anchor_closes_the_first_popup() {
    let mut slot = OpenedPopup(None);
    on_combobutton_clicked(&mut slot, Some(1));
    let reaction = on_combobutton_clicked(&mut slot, Some(2));
    assert_eq!(reaction.cmds, vec![PopupCmd::Hide(1), PopupCmd::Show(2)]);
    assert_eq!(slot.0, Some(2));
    // Replay every command against a visibility table: at most one popup
    // may be shown at any point.
    let mut slot = OpenedPopup(None);
    let mut visible: Vec<u64> = Vec::new();
    let clicks = [Some(1), Some(2), None, Some(2), Some(1)];
    for target in clicks {
        let cmds = match target {
            Some(_) => on_combobutton_clicked(&mut slot, target).cmds,
            None => on_outside_click(&mut slot),
        };
        for cmd in cmds {
            match cmd {
                PopupCmd::Show(p) => visible.push(p),
                PopupCmd::Hide(p) => visible.retain(|&q| q != p),
            }
        }
        assert!(visible.len() <= 1);
        match slot.0 {
            Some(p) => assert_eq!(visible, vec![p]),
            None => assert!(visible.is_empty()),
        }
    }
}

#[test]
fn clicking_an_anchor_without_popup_changes_nothing() {
    let mut slot = OpenedPopup(Some(5));
    let reaction = on_combobutton_clicked(&mut slot, None);
    assert!(!reaction.consumed);
    assert!(reaction.cmds.is_empty());
    assert_eq!(slot.0, Some(5));
}

#[test]
fn outside_click_with_nothing_open_is_a_no_op() {
    let mut slot = OpenedPopup(None);
    assert!(on_outside_click(&mut slot).is_empty());
    assert_eq!(slot.0, None);
}

#[test]
fn clicking_the_open_anchor_again_keeps_it_open() {
    let mut slot = OpenedPopup(Some(8));
    let reaction = on_combobutton_clicked(&mut slot, Some(8));
    assert_eq!(reaction.cmds, vec![PopupCmd::Show(8)]);
    assert_eq!(slot.0, Some(8));
}

fn boxed(x: i64, y: i64, w: i64, h: i64) -> LayoutInfo {
    LayoutInfo { position: Vec2i { x, y }, size: Vec2i { x: w, y: h } }
}

#[test]
fn layout_change_moves_dropdown_below_anchor() {
    let mut cache = PreviousLayout(None);
    // The first measurement always counts as a change.
    let off = on_combobutton_layout(&mut cache, boxed(0, 0, 100, 20))
        .expect("first measurement must reposition");
    assert_eq!(off, DropdownOffset { top: 20, left: 0 });
    // The anchor grows by four pixels: the dropdown moves down with it.
    let off = on_combobutton_layout(&mut cache, boxed(0, 0, 100, 24))
        .expect("a size change must reposition");
    assert_eq!(off, DropdownOffset { top: 24, left: 0 });
    // An identical re-measurement triggers nothing further.
    assert!(on_combobutton_layout(&mut cache, boxed(0, 0, 100, 24)).is_none());
    assert_eq!(cache.0, Some(boxed(0, 0, 100, 24)));
}

#[test]
fn position_change_alone_also_repositions() {
    let mut cache = PreviousLayout(Some(boxed(0, 0, 100, 20)));
    let off = on_combobutton_layout(&mut cache, boxed(5, 0, 100, 20))
        .expect("a position change must reposition");
    assert_eq!(off, DropdownOffset { top: 20, left: 0 });
}

#[test]
fn reposition_updates_only_the_panel_offsets() {
    let mut cb = combobox();
    let before_rows: Vec<String> = cb.panel.rows.iter().map(|r| r.text.clone()).collect();
    cb.reposition_dropdown(DropdownOffset { top: 24, left: 0 });
    assert_eq!(cb.panel.node.top, Some(24));
    assert_eq!(cb.panel.node.left, Some(0));
    assert!(cb.panel.node.hidden);
    let after_rows: Vec<String> = cb.panel.rows.iter().map(|r| r.text.clone()).collect();
    assert_eq!(before_rows, after_rows);
}
