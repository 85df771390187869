//! The hierarchical main menu: its item tree, the navigation state machine
//! that owns a stack of menu levels, and the tree builder that materializes
//! the top of the stack as an ordered list of wired buttons.
//!
//! The host owns the real UI tree. It feeds clicks to
//! [`mouseclick_observer`], hands the internal events that come back to
//! [`on_internal_menu_event`], and calls [`rebuild_menu`] once per tick:
//! when that returns a new list of button descriptions, the host tears the
//! previously materialized menu subtree down and spawns the list in order.

use vstd::prelude::*;

use crate::config::UiStyle;
use crate::layouts::GridPlacement;
use crate::layouts::NodeModifier;
use crate::layouts::ButtonBoxBundle;
use crate::layouts::button_box;
use crate::layouts::button_box_spec;
use crate::layouts::empty_modifier;
use crate::config::ButtonStyle;
use crate::utils::UIAssets;

verus! {

/// What activating a menu item does: descend into a sub-menu, notify the
/// host with a payload code, or return to the previous level.
#[derive(Debug)]
pub enum MainMenuAction {
    SubMenu(Vec<MainMenuItem>),
    SendEvent(u64),
    GoBack,
}

/// One labeled entry of a menu level. Immutable once constructed.
#[derive(Debug)]
pub struct MainMenuItem {
    pub label: String,
    pub action: MainMenuAction,
}

/// The root menu definition a host activates the menu with.
#[derive(Debug)]
pub struct MainMenu(pub Vec<MainMenuItem>);

/// The outbound notification a terminal menu action sends to the host. The
/// host alone decides what the payload code means.
#[derive(Clone, Copy, Debug, PartialEq, Eq, Structural)]
pub struct MainMenuEvent {
    pub data: u64,
}

/// The mathematical value of a [`MainMenuAction`].
pub enum ActionView {
    SubMenu(Seq<ItemView>),
    SendEvent(u64),
    GoBack,
}

/// The mathematical value of a [`MainMenuItem`].
pub struct ItemView {
    pub label: Seq<char>,
    pub action: ActionView,
}

/// The mathematical value of a menu action: the label sequence of each
/// reachable item, with labels as character sequences.
pub open spec fn action_view(a: MainMenuAction) -> ActionView
    decreases a,
{
    match a {
        MainMenuAction::SubMenu(items) => ActionView::SubMenu(items_view(items@)),
        MainMenuAction::SendEvent(d) => ActionView::SendEvent(d),
        MainMenuAction::GoBack => ActionView::GoBack,
    }
}

/// The mathematical value of a menu item.
pub open spec fn item_view(it: MainMenuItem) -> ItemView
    decreases it,
{
    ItemView { label: it.label@, action: action_view(it.action) }
}

/// The mathematical value of a list of menu items, in order.
pub open spec fn items_view(s: Seq<MainMenuItem>) -> Seq<ItemView>
    decreases s,
{
    if s.len() == 0 {
        Seq::empty()
    } else {
        seq![item_view(s[0])] + items_view(s.drop_first())
    }
}

/// The item list of a level shows one item view per item, in order.
pub broadcast proof fn lemma_items_view_index(s: Seq<MainMenuItem>)
    ensures
        (#[trigger] items_view(s)).len() == s.len(),
        forall|i: int| 0 <= i < s.len() ==> #[trigger] items_view(s)[i] == item_view(s[i]),
    decreases s.len(),
{
    if s.len() == 0 {
    } else {
        lemma_items_view_index(s.drop_first());
        assert forall|i: int| 0 <= i < s.len() implies #[trigger] items_view(s)[i] == item_view(
            s[i],
        ) by {
            if i > 0 {
                assert(items_view(s)[i] == items_view(s.drop_first())[i - 1]);
                assert(s.drop_first()[i - 1] == s[i]);
            }
        }
    }
}

/// Duplicates a list of menu items. The copy shows the same items.
fn clone_items(items: &Vec<MainMenuItem>) -> (r: Vec<MainMenuItem>)
    ensures
        items_view(r@) == items_view(items@),
    decreases *items,
{
    let mut r: Vec<MainMenuItem> = Vec::new();
    let mut idx: usize = 0;
    while idx < items.len()
        invariant
            idx <= items@.len(),
            r@.len() == idx,
            forall|i: int|
                #![trigger r@[i]]
                0 <= i < idx ==> item_view(r@[i]) == item_view(items@[i]),
        decreases items@.len() - idx,
    {
        r.push(items[idx].clone());
        idx += 1;
    }
    proof {
        broadcast use lemma_items_view_index;

        assert(items_view(r@) =~= items_view(items@));
    }
    r
}

impl Clone for MainMenuItem {
    /// The copy shows the same label and the same action.
    fn clone(&self) -> (r: Self)
        ensures
            item_view(r) == item_view(*self),
        decreases *self,
    {
        MainMenuItem { label: self.label.clone(), action: self.action.clone() }
    }
}

impl Clone for MainMenuAction {
    /// The copy is the same action.
    fn clone(&self) -> (r: Self)
        ensures
            action_view(r) == action_view(*self),
        decreases *self,
    {
        match self {
            MainMenuAction::SubMenu(items) => MainMenuAction::SubMenu(clone_items(items)),
            MainMenuAction::SendEvent(d) => MainMenuAction::SendEvent(*d),
            MainMenuAction::GoBack => MainMenuAction::GoBack,
        }
    }
}

impl Clone for MainMenu {
    /// The copy defines the same menu.
    fn clone(&self) -> (r: Self)
        ensures
            items_view(r.0@) == items_view(self.0@),
    {
        MainMenu(clone_items(&self.0))
    }
}

/// A navigation event of the state machine, fed back by the click handlers
/// the builder wires.
#[derive(Debug)]
pub enum InternalMenuEvent {
    GoBack,
    OpenMenu(Vec<MainMenuItem>),
}

/// The mathematical value of a navigation event.
pub enum NavEventView {
    GoBack,
    OpenMenu(Seq<ItemView>),
}

/// The mathematical value of an [`InternalMenuEvent`].
pub open spec fn nav_event_view(e: InternalMenuEvent) -> NavEventView {
    match e {
        InternalMenuEvent::GoBack => NavEventView::GoBack,
        InternalMenuEvent::OpenMenu(items) => NavEventView::OpenMenu(items_view(items@)),
    }
}

/// The mathematical value of a queue of navigation events, in submission
/// order.
pub open spec fn events_view(s: Seq<InternalMenuEvent>) -> Seq<NavEventView> {
    Seq::new(s.len(), |i: int| nav_event_view(s[i]))
}

/// One snapshot of a menu level: the items of one screen.
#[derive(Debug)]
pub struct MenuState {
    pub current_menu: Vec<MainMenuItem>,
}

/// The mathematical value of a menu level.
pub open spec fn level_view(l: MenuState) -> Seq<ItemView> {
    items_view(l.current_menu@)
}

/// What one navigation event does to the stack of levels: opening a
/// sub-menu pushes it, going back pops the top.
pub open spec fn apply_event(stack: Seq<Seq<ItemView>>, e: NavEventView) -> Seq<Seq<ItemView>> {
    match e {
        NavEventView::OpenMenu(items) => stack.push(items),
        NavEventView::GoBack => stack.drop_last(),
    }
}

/// The stack after a queue of navigation events, applied in order.
pub open spec fn apply_events(stack: Seq<Seq<ItemView>>, evs: Seq<NavEventView>) -> Seq<
    Seq<ItemView>,
>
    decreases evs.len(),
{
    if evs.len() == 0 {
        stack
    } else {
        apply_events(apply_event(stack, evs[0]), evs.drop_first())
    }
}

/// Whether a queue of navigation events is valid from the given stack
/// depth: no event may go back from the root level. A host that wires a
/// root-level item to go back has a broken menu configuration.
pub open spec fn admissible(depth: int, evs: Seq<NavEventView>) -> bool
    decreases evs.len(),
{
    evs.len() == 0 || {
        match evs[0] {
            NavEventView::OpenMenu(_) => admissible(depth + 1, evs.drop_first()),
            NavEventView::GoBack => depth > 1 && admissible(depth - 1, evs.drop_first()),
        }
    }
}

/// How many events of the queue open a sub-menu.
pub open spec fn count_opens(evs: Seq<NavEventView>) -> int
    decreases evs.len(),
{
    if evs.len() == 0 {
        0
    } else {
        (if evs[0] is OpenMenu {
            1int
        } else {
            0int
        }) + count_opens(evs.drop_first())
    }
}

/// How many events of the queue go back.
pub open spec fn count_backs(evs: Seq<NavEventView>) -> int
    decreases evs.len(),
{
    if evs.len() == 0 {
        0
    } else {
        (if evs[0] is GoBack {
            1int
        } else {
            0int
        }) + count_backs(evs.drop_first())
    }
}

/// The navigation state machine: the ordered history of visited menu
/// levels, the index of the visible one, and the flag that tells the
/// builder the visible tree is stale.
#[derive(Debug)]
pub struct MenuStateResource {
    pub state_stack: Vec<MenuState>,
    pub current_state_idx: usize,
    pub dirty: bool,
}

impl MenuStateResource {
    /// The stack of levels as mathematical values, bottom first.
    pub open spec fn stack(&self) -> Seq<Seq<ItemView>> {
        Seq::new(self.state_stack@.len(), |i: int| level_view(self.state_stack@[i]))
    }

    /// The state machine's invariant: the stack is never empty while the
    /// menu is active, and the cursor always points at its top.
    pub open spec fn wf(&self) -> bool {
        &&& self.state_stack@.len() >= 1
        &&& self.current_state_idx == self.state_stack@.len() - 1
    }

    /// Whether the visible tree is stale and must be rebuilt.
    pub open spec fn pending_rebuild(&self) -> bool {
        self.dirty
    }

    /// Creates the state machine at menu activation: a stack holding the
    /// root level alone, with a first build pending.
    pub fn activate(menu: MainMenu) -> (s: MenuStateResource)
        ensures
            s.wf(),
            s.stack() == seq![items_view(menu.0@)],
            s.pending_rebuild(),
    {
        let s = MenuStateResource {
            state_stack: vec![MenuState { current_menu: menu.0 }],
            current_state_idx: 0,
            dirty: true,
        };
        proof {
            assert(s.stack() =~= seq![items_view(menu.0@)]);
        }
        s
    }

    /// Processes one navigation event: opening a sub-menu pushes its level
    /// and moves the cursor up, going back pops the top and moves the
    /// cursor down, and either way the visible tree becomes stale. Going
    /// back is only valid above the root level.
    pub fn handle(&mut self, event: InternalMenuEvent)
        requires
            old(self).wf(),
            event is GoBack ==> old(self).state_stack@.len() > 1,
        ensures
            final(self).wf(),
            final(self).stack() == apply_event(old(self).stack(), nav_event_view(event)),
            final(self).pending_rebuild(),
    {
        match event {
            InternalMenuEvent::GoBack => {
                self.current_state_idx = self.current_state_idx - 1;
                self.state_stack.pop();
                proof {
                    assert(self.stack() =~= apply_event(old(self).stack(), NavEventView::GoBack));
                }
            },
            InternalMenuEvent::OpenMenu(main_menu_items) => {
                self.state_stack.push(MenuState { current_menu: main_menu_items });
                self.current_state_idx = self.state_stack.len() - 1;
                proof {
                    assert(self.stack() =~= apply_event(
                        old(self).stack(),
                        nav_event_view(InternalMenuEvent::OpenMenu(main_menu_items)),
                    ));
                }
            },
        }
        self.dirty = true;
    }

    /// The currently visible level: the top of the stack.
    pub fn current(&self) -> (r: &MenuState)
        requires
            self.wf(),
        ensures
            *r == self.state_stack@.last(),
            level_view(*r) == self.stack().last(),
    {
        &self.state_stack[self.current_state_idx]
    }
}

/// Applies every queued navigation event to the state machine, in
/// submission order, before the next rebuild looks at the result. The
/// queue must be valid from the current depth.
pub fn on_internal_menu_event(menu_state: &mut MenuStateResource, events: Vec<InternalMenuEvent>)
    requires
        old(menu_state).wf(),
        admissible(old(menu_state).state_stack@.len() as int, events_view(events@)),
    ensures
        final(menu_state).wf(),
        final(menu_state).stack() == apply_events(
            old(menu_state).stack(),
            events_view(events@),
        ),
        events@.len() > 0 ==> final(menu_state).pending_rebuild(),
        events@.len() == 0 ==> *final(menu_state) == *old(menu_state),
{
    let mut evs = events;
    proof {
        assert(events_view(evs@) =~= events_view(events@));
    }
    while evs.len() > 0
        invariant
            menu_state.wf(),
            admissible(menu_state.state_stack@.len() as int, events_view(evs@)),
            apply_events(menu_state.stack(), events_view(evs@)) == apply_events(
                old(menu_state).stack(),
                events_view(events@),
            ),
            evs@.len() < events@.len() ==> menu_state.pending_rebuild(),
            evs@.len() == events@.len() ==> *menu_state == *old(menu_state),
            evs@.len() <= events@.len(),
        decreases evs.len(),
    {
        let ghost pre_evs = evs@;
        let ghost pre_stack = menu_state.stack();
        let e = evs.remove(0);
        proof {
            assert(events_view(evs@) =~= events_view(pre_evs).drop_first());
            assert(menu_state.stack().len() == menu_state.state_stack@.len());
            if e is GoBack {
                assert(nav_event_view(e) == events_view(pre_evs)[0]);
            }
        }
        menu_state.handle(e);
        proof {
            assert(events_view(pre_evs)[0] == nav_event_view(e));
            assert(apply_events(pre_stack, events_view(pre_evs)) == apply_events(
                apply_event(pre_stack, nav_event_view(e)),
                events_view(pre_evs).drop_first(),
            ));
        }
    }
}

/// What a click on a built menu item feeds back: an outbound notification
/// for the host, or a navigation event for the state machine.
#[derive(Debug)]
pub enum MenuClickOutput {
    Outbound(MainMenuEvent),
    Internal(InternalMenuEvent),
}

/// Decides what the click handler wired to a menu item does, from the
/// action captured at build time: a terminal action becomes an outbound
/// notification carrying its payload verbatim, a sub-menu action becomes
/// the navigation event that opens that sub-menu, and a go-back action
/// becomes the navigation event that returns to the previous level.
pub fn mouseclick_observer(item_action: &MainMenuAction) -> (r: MenuClickOutput)
    ensures
        match *item_action {
            MainMenuAction::SendEvent(d) => r == MenuClickOutput::Outbound(
                MainMenuEvent { data: d },
            ),
            MainMenuAction::SubMenu(items) => {
                &&& r matches MenuClickOutput::Internal(ev)
                &&& nav_event_view(ev) == NavEventView::OpenMenu(items_view(items@))
            },
            MainMenuAction::GoBack => r == MenuClickOutput::Internal(InternalMenuEvent::GoBack),
        },
{
    match item_action {
        MainMenuAction::SendEvent(d) => MenuClickOutput::Outbound(MainMenuEvent { data: *d }),
        MainMenuAction::SubMenu(items) => MenuClickOutput::Internal(
            InternalMenuEvent::OpenMenu(clone_items(items)),
        ),
        MainMenuAction::GoBack => MenuClickOutput::Internal(InternalMenuEvent::GoBack),
    }
}

/// One materialized menu entry: the described button the host spawns, and
/// the action its click handler captured.
#[derive(Debug)]
pub struct MenuItemNode {
    pub button: ButtonBoxBundle,
    pub action: MainMenuAction,
}

/// What a materialized entry shows: the label on its button and the action
/// it is wired to.
pub open spec fn built_item_view(n: MenuItemNode) -> ItemView {
    ItemView { label: n.button.text_box.text@, action: action_view(n.action) }
}

/// What a materialized list shows, top to bottom.
pub open spec fn built_views(s: Seq<MenuItemNode>) -> Seq<ItemView> {
    Seq::new(s.len(), |i: int| built_item_view(s[i]))
}

/// The modifier the builder gives the entry at zero-based position `i`:
/// the grid's center column, one row per entry, top to bottom.
pub open spec fn menu_row_modifier(i: int) -> NodeModifier {
    NodeModifier {
        grid_column: Some(GridPlacement { start: 2, span: 1 }),
        grid_row: Some(GridPlacement { start: (i + 1) as i16, span: 1 }),
        ..empty_modifier()
    }
}

/// A correct materialization of a level's items: one entry per item in the
/// same order, each showing its item's label as a button in the style's
/// colors on its own grid row, wired to its item's action.
pub open spec fn is_menu_build(
    r: Seq<MenuItemNode>,
    items: Seq<MainMenuItem>,
    font: u64,
    style: ButtonStyle,
) -> bool {
    &&& r.len() == items.len()
    &&& forall|i: int|
        #![trigger r[i]]
        0 <= i < items.len() ==> r[i].button == button_box_spec(
            items[i].label,
            font,
            menu_row_modifier(i),
            style,
        ) && action_view(r[i].action) == action_view(items[i].action)
}

/// A correct materialization of a level shows exactly the level's items,
/// in order.
pub proof fn lemma_menu_build_views(
    r: Seq<MenuItemNode>,
    items: Seq<MainMenuItem>,
    font: u64,
    style: ButtonStyle,
)
    requires
        is_menu_build(r, items, font, style),
    ensures
        built_views(r) == items_view(items),
{
    broadcast use lemma_items_view_index;

    assert(built_views(r) =~= items_view(items));
}

/// Materializes the currently visible level: one wired button description
/// per item, in item order. The font must already be loaded, and a level
/// must not hold more rows than a grid placement can number.
pub fn init_menu(menu_data: &MenuStateResource, assets: &UIAssets, ui_style: &UiStyle) -> (r:
    Vec<MenuItemNode>)
    requires
        menu_data.wf(),
        assets.font is Some,
        menu_data.state_stack@.last().current_menu@.len() <= 32767,
    ensures
        is_menu_build(
            r@,
            menu_data.state_stack@.last().current_menu@,
            assets.font->0,
            ui_style.button_style,
        ),
        built_views(r@) == menu_data.stack().last(),
{
    let my_font: u64 = assets.font.unwrap();
    let level = menu_data.current();
    let style = ui_style.button_style;
    let n: usize = level.current_menu.len();
    let mut result: Vec<MenuItemNode> = Vec::new();
    let mut idx: usize = 0;
    while idx < n
        invariant
            n == level.current_menu@.len(),
            n <= 32767,
            idx <= n,
            result@.len() == idx,
            forall|i: int|
                #![trigger result@[i]]
                0 <= i < idx ==> result@[i].button == button_box_spec(
                    level.current_menu@[i].label,
                    my_font,
                    menu_row_modifier(i),
                    style,
                ) && action_view(result@[i].action) == action_view(
                    level.current_menu@[i].action,
                ),
        decreases n - idx,
    {
        let item = &level.current_menu[idx];
        let row: i16 = (idx + 1) as i16;
        let modifier = NodeModifier::new().set_grid_column(
            GridPlacement::start_span(2, 1),
        ).set_grid_row(GridPlacement::start_span(row, 1));
        let button = button_box(item.label.clone(), my_font, modifier, style);
        let action = item.action.clone();
        result.push(MenuItemNode { button, action });
        idx = idx + 1;
    }
    proof {
        lemma_menu_build_views(
            result@,
            menu_data.state_stack@.last().current_menu@,
            my_font,
            style,
        );
        assert(menu_data.stack().last() == level_view(menu_data.state_stack@.last()));
    }
    result
}

/// The builder's once-per-tick gate. The rebuild fires exactly when the
/// state machine reports a pending change and the font is loaded: the
/// returned list materializes the top of the stack, and the pending flag
/// is cleared. With no pending change there is nothing to do; with assets
/// not ready the rebuild is deferred and the change stays pending. On a
/// rebuild the host destroys the previously materialized subtree and
/// spawns the returned list in its place.
pub fn rebuild_menu(menu_state: &mut MenuStateResource, assets: &UIAssets, ui_style: &UiStyle) -> (r:
    Option<Vec<MenuItemNode>>)
    requires
        old(menu_state).wf(),
        old(menu_state).state_stack@.last().current_menu@.len() <= 32767,
    ensures
        final(menu_state).wf(),
        final(menu_state).state_stack == old(menu_state).state_stack,
        final(menu_state).stack() == old(menu_state).stack(),
        r is Some <==> old(menu_state).pending_rebuild() && assets.font is Some,
        r is Some ==> !final(menu_state).pending_rebuild(),
        r is None ==> final(menu_state).pending_rebuild() == old(menu_state).pending_rebuild(),
        r matches Some(nodes) ==> is_menu_build(
            nodes@,
            old(menu_state).state_stack@.last().current_menu@,
            assets.font->0,
            ui_style.button_style,
        ) && built_views(nodes@) == final(menu_state).stack().last(),
{
    proof {
        assert(menu_state.stack() =~= old(menu_state).stack());
    }
    if menu_state.dirty && assets.font.is_some() {
        menu_state.dirty = false;
        let nodes = init_menu(menu_state, assets, ui_style);
        proof {
            assert(menu_state.stack() =~= old(menu_state).stack());
        }
        Some(nodes)
    } else {
        None
    }
}

/// Going back from a level above the root is always allowed; any queue of
/// navigation events is valid as long as no prefix of it goes back from
/// the root. A prefix of a valid queue is itself valid.
pub proof fn lemma_admissible_prefix(depth: int, evs: Seq<NavEventView>, i: int)
    requires
        admissible(depth, evs),
        0 <= i <= evs.len(),
    ensures
        admissible(depth, evs.take(i)),
    decreases evs.len(),
{
    if i == 0 {
        assert(evs.take(0).len() == 0);
    } else {
        let rest = evs.drop_first();
        assert(evs.take(i)[0] == evs[0]);
        assert(evs.take(i).drop_first() =~= rest.take(i - 1));
        match evs[0] {
            NavEventView::OpenMenu(_) => lemma_admissible_prefix(depth + 1, rest, i - 1),
            NavEventView::GoBack => lemma_admissible_prefix(depth - 1, rest, i - 1),
        }
    }
}

/// What makes a queue valid, spelled out over the counts: a queue is
/// valid from a depth exactly when every go-back event in it still finds
/// the stack above the root — the depth reached by the events before it
/// is greater than one.
pub proof fn lemma_admissible_characterization(depth: int, evs: Seq<NavEventView>)
    ensures
        admissible(depth, evs) <==> forall|i: int|
            0 <= i < evs.len() && #[trigger] evs[i] is GoBack ==> depth + count_opens(evs.take(i))
                - count_backs(evs.take(i)) > 1,
    decreases evs.len(),
{
    if evs.len() == 0 {
    } else {
        let rest = evs.drop_first();
        let first_opens: int = if evs[0] is OpenMenu {
            1
        } else {
            0
        };
        let d1 = depth + first_opens - (1 - first_opens);
        lemma_admissible_characterization(d1, rest);
        assert(evs.take(0).len() == 0);
        assert forall|i: int| 1 <= i < evs.len() implies {
            &&& evs[i] == rest[i - 1]
            &&& depth + count_opens(evs.take(i)) - count_backs(evs.take(i)) == d1 + count_opens(
                rest.take(i - 1),
            ) - count_backs(rest.take(i - 1))
        } by {
            assert(evs.take(i)[0] == evs[0]);
            assert(evs.take(i).drop_first() =~= rest.take(i - 1));
            assert(count_opens(evs.take(i)) == first_opens + count_opens(rest.take(i - 1)));
            assert(count_backs(evs.take(i)) == (1 - first_opens) + count_backs(
                rest.take(i - 1),
            ));
        }
        if admissible(depth, evs) {
            assert forall|i: int|
                0 <= i < evs.len() && #[trigger] evs[i] is GoBack implies depth + count_opens(
                evs.take(i),
            ) - count_backs(evs.take(i)) > 1 by {
                if i > 0 {
                    assert(rest[i - 1] is GoBack);
                }
            }
        }
        if forall|i: int|
            0 <= i < evs.len() && #[trigger] evs[i] is GoBack ==> depth + count_opens(evs.take(i))
                - count_backs(evs.take(i)) > 1 {
            assert forall|j: int|
                0 <= j < rest.len() && #[trigger] rest[j] is GoBack implies d1 + count_opens(
                rest.take(j),
            ) - count_backs(rest.take(j)) > 1 by {
                assert(evs[j + 1] == rest[j]);
                assert(depth + count_opens(evs.take(j + 1)) - count_backs(evs.take(j + 1)) > 1);
            }
            if evs[0] is GoBack {
                assert(depth > 1);
            }
            assert(admissible(depth, evs));
        }
    }
}

/// Stack balance: a valid queue of navigation events leaves the stack at
/// its starting depth plus the number of sub-menu openings minus the
/// number of go-backs, and never empties it.
pub proof fn lemma_stack_balance(stack: Seq<Seq<ItemView>>, evs: Seq<NavEventView>)
    requires
        stack.len() >= 1,
        admissible(stack.len() as int, evs),
    ensures
        apply_events(stack, evs).len() == stack.len() + count_opens(evs) - count_backs(evs),
        apply_events(stack, evs).len() >= 1,
    decreases evs.len(),
{
    if evs.len() > 0 {
        let s1 = apply_event(stack, evs[0]);
        match evs[0] {
            NavEventView::OpenMenu(_) => {
                assert(s1.len() == stack.len() + 1);
            },
            NavEventView::GoBack => {
                assert(s1.len() == stack.len() - 1);
            },
        }
        lemma_stack_balance(s1, evs.drop_first());
    }
}

/// Stack balance holds not only at the end but after each event: every
/// prefix of a valid queue balances the same way.
pub proof fn lemma_stack_balance_every_prefix(
    stack: Seq<Seq<ItemView>>,
    evs: Seq<NavEventView>,
    i: int,
)
    requires
        stack.len() >= 1,
        admissible(stack.len() as int, evs),
        0 <= i <= evs.len(),
    ensures
        apply_events(stack, evs.take(i)).len() == stack.len() + count_opens(evs.take(i))
            - count_backs(evs.take(i)),
        apply_events(stack, evs.take(i)).len() >= 1,
{
    lemma_admissible_prefix(stack.len() as int, evs, i);
    lemma_stack_balance(stack, evs.take(i));
}

/// No valid queue of navigation events ever touches the bottom of the
/// stack.
pub proof fn lemma_bottom_preserved(stack: Seq<Seq<ItemView>>, evs: Seq<NavEventView>)
    requires
        stack.len() >= 1,
        admissible(stack.len() as int, evs),
    ensures
        apply_events(stack, evs).len() >= 1,
        apply_events(stack, evs)[0] == stack[0],
    decreases evs.len(),
{
    if evs.len() > 0 {
        let s1 = apply_event(stack, evs[0]);
        match evs[0] {
            NavEventView::OpenMenu(_) => {
                assert(s1[0] == stack[0]);
            },
            NavEventView::GoBack => {
                assert(s1[0] == stack[0]);
            },
        }
        lemma_bottom_preserved(s1, evs.drop_first());
    }
}

/// Root immutability: navigation never changes the root level, and a
/// valid queue with as many go-backs as sub-menu openings returns the
/// stack to exactly the one it started from.
pub proof fn lemma_root_immutable(root: Seq<ItemView>, evs: Seq<NavEventView>)
    requires
        admissible(1, evs),
    ensures
        apply_events(seq![root], evs).len() >= 1,
        apply_events(seq![root], evs)[0] == root,
        count_opens(evs) == count_backs(evs) ==> apply_events(seq![root], evs) == seq![root],
{
    let stack = seq![root];
    assert(stack.len() == 1);
    lemma_bottom_preserved(stack, evs);
    lemma_stack_balance(stack, evs);
    if count_opens(evs) == count_backs(evs) {
        assert(apply_events(stack, evs) =~= stack);
    }
}

/// Rebuild idempotence: two materializations of the same level with the
/// same font and style show the same items in the same order, with
/// identical buttons.
pub proof fn lemma_rebuild_idempotent(
    a: Seq<MenuItemNode>,
    b: Seq<MenuItemNode>,
    items: Seq<MainMenuItem>,
    font: u64,
    style: ButtonStyle,
)
    requires
        is_menu_build(a, items, font, style),
        is_menu_build(b, items, font, style),
    ensures
        a.len() == b.len(),
        built_views(a) == built_views(b),
        forall|i: int| 0 <= i < a.len() ==> #[trigger] a[i].button == b[i].button,
{
    lemma_menu_build_views(a, items, font, style);
    lemma_menu_build_views(b, items, font, style);
}

} // verus!
