use menukit::config::standard_style;
use menukit::config::BackgroundForeground;
use menukit::config::ButtonStyle;
use menukit::config::UiColor;
use menukit::layouts::button_box;
use menukit::layouts::grid_hor_center_layout;
use menukit::layouts::text_box;
use menukit::layouts::vertically_centered;
use menukit::layouts::ContainerLayout;
use menukit::layouts::GridPlacement;
use menukit::layouts::NodeModifier;
use menukit::layouts::UiNode;
use menukit::utils::change_color_on_hover;
use menukit::utils::ChangeColorOnHover;
use menukit::utils::Interaction;
use menukit::utils::UIAssets;

fn pair(back: UiColor, fore: UiColor) -> BackgroundForeground {
    BackgroundForeground { back_color: back, fore_color: fore }
}

fn demo_style() -> ButtonStyle {
    ButtonStyle {
        normal_colors: pair(UiColor::rgb(10, 20, 30), UiColor::rgb(200, 200, 200)),
        hover_colors: pair(UiColor::rgb(40, 50, 60), UiColor::rgb(0, 0, 0)),
    }
}

#[test]
fn hover_state_picks_the_hover_pair() {
    let colors = ChangeColorOnHover::from(demo_style());
    assert_eq!(change_color_on_hover(&colors, Interaction::Hovered), colors.hover_color);
}

#[test]
fn idle_and_pressed_states_pick_the_normal_pair() {
    let colors = ChangeColorOnHover::from(demo_style());
    assert_eq!(change_color_on_hover(&colors, Interaction::Idle), colors.normal_color);
    assert_eq!(change_color_on_hover(&colors, Interaction::Pressed), colors.normal_color);
}

#[test]
fn hover_marker_takes_both_pairs_from_the_style() {
    let style = demo_style();
    let colors = ChangeColorOnHover::from(style);
    assert_eq!(colors.normal_color, style.normal_colors);
    assert_eq!(colors.hover_color, style.hover_colors);
}

#[test]
fn modifier_overrides_only_what_it_holds() {
    let base = UiNode::new();
    assert_eq!(NodeModifier::new().modify(base), base);

    let placed = NodeModifier::new()
        .set_grid_column(GridPlacement::start_span(2, 1))
        .set_grid_row(GridPlacement::start_span(3, 1))
        .modify(base);
    assert_eq!(placed.grid_column, Some(GridPlacement { start: 2, span: 1 }));
    assert_eq!(placed.grid_row, Some(GridPlacement { start: 3, span: 1 }));
    assert!(!placed.hidden);
    assert!(!placed.absolute_position);
    assert!(!placed.fills_viewport);

    let root = NodeModifier::root().modify(base);
    assert!(root.fills_viewport);

    let popup = NodeModifier::new().force_absolute_pos().spawn_hidden().modify(base);
    assert!(popup.absolute_position);
    assert!(popup.hidden);
    assert_eq!(popup.grid_column, None);
}

#[test]
fn modifier_keeps_unrelated_properties() {
    let mut node = UiNode::new();
    node.top = Some(12);
    node.left = Some(3);
    let modified = NodeModifier::new().spawn_hidden().modify(node);
    assert_eq!(modified.top, Some(12));
    assert_eq!(modified.left, Some(3));
    assert!(modified.hidden);
}

#[test]
fn text_box_carries_text_font_and_colors() {
    let style = demo_style();
    let b = text_box("hello".to_string(), 5, NodeModifier::new(), style.normal_colors);
    assert_eq!(b.text, "hello");
    assert_eq!(b.font, 5);
    assert_eq!(b.background, style.normal_colors.back_color);
    assert_eq!(b.text_color, style.normal_colors.fore_color);
    assert_eq!(b.node, UiNode::new());
}

#[test]
fn button_box_is_a_hover_reactive_text_box() {
    let style = demo_style();
    let b = button_box("go".to_string(), 5, NodeModifier::new(), style);
    assert_eq!(b.text_box.text, "go");
    assert_eq!(b.text_box.background, style.normal_colors.back_color);
    assert_eq!(b.hover.normal_color, style.normal_colors);
    assert_eq!(b.hover.hover_color, style.hover_colors);
}

#[test]
fn containers_carry_their_layout() {
    let v = vertically_centered(NodeModifier::root());
    assert!(v.node.fills_viewport);
    assert_eq!(v.layout, ContainerLayout::FlexRowCentered);
    let g = grid_hor_center_layout(NodeModifier::new(), 2);
    assert_eq!(g.layout, ContainerLayout::GridHorCenter(2));
    assert_eq!(g.node, UiNode::new());
}

#[test]
fn standard_style_has_the_documented_palette() {
    let s = standard_style();
    let n = s.button_style.normal_colors;
    assert_eq!((n.back_color.red, n.back_color.green, n.back_color.blue), (244, 114, 182));
    assert_eq!((n.fore_color.red, n.fore_color.green, n.fore_color.blue), (255, 255, 255));
    let h = s.button_style.hover_colors;
    assert_eq!((h.back_color.red, h.back_color.green, h.back_color.blue), (251, 207, 232));
    assert_eq!((s.back_color.red, s.back_color.green, s.back_color.blue), (237, 233, 254));
}

#[test]
fn asset_readiness_tracks_the_font_alone() {
    assert!(!UIAssets { font: None, icon_font: Some(3) }.font_ready());
    assert!(UIAssets { font: Some(1), icon_font: None }.font_ready());
}
