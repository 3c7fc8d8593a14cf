//! The modal layer: the context menu, the dialog log, and what of them is
//! on screen.

use crate::interaction::{
    clone_actions, ActionView, InteractionAction, InteractionEvent, InteractionEventView,
};
use crate::inventory::{Inventory, InventoryItemView, InventoryView};
use crate::objects::Entity;
use crate::text::{concat2, concat3, join_first, join_lines};
use vstd::prelude::*;

verus! {

/// A request to open the context menu for `entity`.
#[derive(Debug, PartialEq, Eq)]
pub struct ContextMenuEvent {
    pub entity: Entity,
    pub actions: Vec<InteractionAction>,
    pub object_name: String,
}

/// A `ContextMenuEvent` as contracts see it.
pub struct ContextMenuEventView {
    pub entity: Entity,
    pub actions: Seq<ActionView>,
    pub object_name: Seq<char>,
}

impl View for ContextMenuEvent {
    type V = ContextMenuEventView;

    open spec fn view(&self) -> ContextMenuEventView {
        ContextMenuEventView {
            entity: self.entity,
            actions: self.actions.deep_view(),
            object_name: self.object_name@,
        }
    }
}

impl DeepView for ContextMenuEvent {
    type V = ContextMenuEventView;

    open spec fn deep_view(&self) -> ContextMenuEventView {
        self@
    }
}

/// One line for the dialog log.
#[derive(Debug, PartialEq, Eq)]
pub struct LogEvent(pub String);

impl View for LogEvent {
    type V = Seq<char>;

    open spec fn view(&self) -> Seq<char> {
        self.0@
    }
}

impl DeepView for LogEvent {
    type V = Seq<char>;

    open spec fn deep_view(&self) -> Seq<char> {
        self@
    }
}

/// The state of the two modals. Times are microseconds on the game clock.
#[derive(Debug, PartialEq, Eq)]
pub struct UiState {
    pub menu_open: bool,
    pub selected_index: usize,
    pub current_entity: Option<Entity>,
    pub current_actions: Vec<InteractionAction>,
    pub menu_opened_at: u64,
    pub dialog_open: bool,
    pub dialog_queue: Vec<String>,
    pub dialog_index: usize,
    pub dialog_opened_at: u64,
}

/// A `UiState` as contracts see it.
pub struct UiView {
    pub menu_open: bool,
    pub selected_index: usize,
    pub current_entity: Option<Entity>,
    pub current_actions: Seq<ActionView>,
    pub menu_opened_at: u64,
    pub dialog_open: bool,
    pub dialog_queue: Seq<Seq<char>>,
    pub dialog_index: usize,
    pub dialog_opened_at: u64,
}

impl View for UiState {
    type V = UiView;

    open spec fn view(&self) -> UiView {
        UiView {
            menu_open: self.menu_open,
            selected_index: self.selected_index,
            current_entity: self.current_entity,
            current_actions: self.current_actions.deep_view(),
            menu_opened_at: self.menu_opened_at,
            dialog_open: self.dialog_open,
            dialog_queue: self.dialog_queue.deep_view(),
            dialog_index: self.dialog_index,
            dialog_opened_at: self.dialog_opened_at,
        }
    }
}

impl DeepView for UiState {
    type V = UiView;

    open spec fn deep_view(&self) -> UiView {
        self@
    }
}

impl UiView {
    /// Whether a modal captures the input.
    pub open spec fn modal(self) -> bool {
        self.menu_open || self.dialog_open
    }

    /// Both modals closed, nothing selected, nothing queued.
    pub open spec fn fresh() -> UiView {
        UiView {
            menu_open: false,
            selected_index: 0,
            current_entity: None,
            current_actions: Seq::empty(),
            menu_opened_at: 0,
            dialog_open: false,
            dialog_queue: Seq::empty(),
            dialog_index: 0,
            dialog_opened_at: 0,
        }
    }
}

impl Default for UiState {
    fn default() -> (r: Self)
        ensures
            r@ == UiView::fresh(),
    {
        let r = UiState {
            menu_open: false,
            selected_index: 0,
            current_entity: None,
            current_actions: Vec::new(),
            menu_opened_at: 0,
            dialog_open: false,
            dialog_queue: Vec::new(),
            dialog_index: 0,
            dialog_opened_at: 0,
        };
        assert(r@.current_actions =~= Seq::<ActionView>::empty());
        assert(r@.dialog_queue =~= Seq::<Seq<char>>::empty());
        r
    }
}

/// For this long after a modal opens, the key that opened it is not taken
/// as a choice within it. In microseconds.
pub const DEBOUNCE_MICROS: u64 = 80_000;

/// The blink period of the sign that more lines follow, in microseconds.
pub const CONTINUE_BLINK_MICROS: u32 = 500_000;

/// The blink period of the sign that the last line is shown, in
/// microseconds.
pub const CLOSE_BLINK_MICROS: u32 = 800_000;

/// Whether a modal opened at `opened_at` still ignores its keys at `now`.
pub open spec fn debouncing(now: u64, opened_at: u64) -> bool {
    now - opened_at < DEBOUNCE_MICROS
}

/// Decides whether a modal opened at `opened_at` still ignores its keys.
pub fn is_debouncing(now: u64, opened_at: u64) -> (r: bool)
    ensures
        r == debouncing(now, opened_at),
{
    now < opened_at || now - opened_at < DEBOUNCE_MICROS
}

/// One entry of the menu as it is shown.
#[derive(Debug, PartialEq, Eq)]
pub struct MenuOption {
    pub index: usize,
    pub label: String,
    pub highlighted: bool,
}

/// A `MenuOption` as contracts see it.
pub struct MenuOptionView {
    pub index: usize,
    pub label: Seq<char>,
    pub highlighted: bool,
}

impl View for MenuOption {
    type V = MenuOptionView;

    open spec fn view(&self) -> MenuOptionView {
        MenuOptionView { index: self.index, label: self.label@, highlighted: self.highlighted }
    }
}

impl DeepView for MenuOption {
    type V = MenuOptionView;

    open spec fn deep_view(&self) -> MenuOptionView {
        self@
    }
}

/// A repeating timer: `elapsed_us` runs up to `period_us` and starts over.
#[derive(Clone, Copy, Debug, PartialEq, Eq, Structural)]
pub struct ChevronBlink {
    pub period_us: u32,
    pub elapsed_us: u64,
}

/// A blinking sign in the corner of the dialog.
#[derive(Clone, Copy, Debug, PartialEq, Eq, Structural)]
pub struct Chevron {
    pub visible: bool,
    pub blink: ChevronBlink,
}

/// What of the modal layer is on screen.
#[derive(Debug, PartialEq, Eq)]
pub struct Hud {
    pub menu_visible: bool,
    pub menu_title: String,
    pub menu_options: Vec<MenuOption>,
    pub log_visible: bool,
    pub message_text: String,
    pub continue_chevron: Chevron,
    pub close_chevron: Chevron,
    pub inventory_visible: bool,
    pub inventory_lines: Vec<String>,
}

/// A `Hud` as contracts see it.
pub struct HudView {
    pub menu_visible: bool,
    pub menu_title: Seq<char>,
    pub menu_options: Seq<MenuOptionView>,
    pub log_visible: bool,
    pub message_text: Seq<char>,
    pub continue_chevron: Chevron,
    pub close_chevron: Chevron,
    pub inventory_visible: bool,
    pub inventory_lines: Seq<Seq<char>>,
}

impl View for Hud {
    type V = HudView;

    open spec fn view(&self) -> HudView {
        HudView {
            menu_visible: self.menu_visible,
            menu_title: self.menu_title@,
            menu_options: self.menu_options.deep_view(),
            log_visible: self.log_visible,
            message_text: self.message_text@,
            continue_chevron: self.continue_chevron,
            close_chevron: self.close_chevron,
            inventory_visible: self.inventory_visible,
            inventory_lines: self.inventory_lines.deep_view(),
        }
    }
}

impl DeepView for Hud {
    type V = HudView;

    open spec fn deep_view(&self) -> HudView {
        self@
    }
}

/// A hidden sign whose timer has the given period and has not run yet.
pub open spec fn resting_chevron(period_us: u32) -> Chevron {
    Chevron { visible: false, blink: ChevronBlink { period_us, elapsed_us: 0 } }
}

impl HudView {
    /// Everything hidden and empty, with both blink timers at rest.
    pub open spec fn fresh() -> HudView {
        HudView {
            menu_visible: false,
            menu_title: Seq::empty(),
            menu_options: Seq::empty(),
            log_visible: false,
            message_text: Seq::empty(),
            continue_chevron: resting_chevron(CONTINUE_BLINK_MICROS),
            close_chevron: resting_chevron(CLOSE_BLINK_MICROS),
            inventory_visible: false,
            inventory_lines: Seq::empty(),
        }
    }
}

/// Sets up the screen: everything hidden and empty, both blink timers at
/// rest.
pub fn setup_ui() -> (hud: Hud)
    ensures
        hud@ == HudView::fresh(),
{
    let hud = Hud {
        menu_visible: false,
        menu_title: String::new(),
        menu_options: Vec::new(),
        log_visible: false,
        message_text: String::new(),
        continue_chevron: Chevron {
            visible: false,
            blink: ChevronBlink { period_us: CONTINUE_BLINK_MICROS, elapsed_us: 0 },
        },
        close_chevron: Chevron {
            visible: false,
            blink: ChevronBlink { period_us: CLOSE_BLINK_MICROS, elapsed_us: 0 },
        },
        inventory_visible: false,
        inventory_lines: Vec::new(),
    };
    assert(hud@.menu_options =~= Seq::<MenuOptionView>::empty());
    assert(hud@.inventory_lines =~= Seq::<Seq<char>>::empty());
    hud
}

/// The title of the menu for an object.
pub open spec fn menu_title(name: Seq<char>) -> Seq<char> {
    "[ "@ + name + " ]"@
}

/// The entries of the menu for `actions`, with entry `selected`
/// highlighted.
pub open spec fn menu_options(actions: Seq<ActionView>, selected: int) -> Seq<MenuOptionView> {
    Seq::new(
        actions.len(),
        |i: int|
            MenuOptionView { index: i as usize, label: actions[i].label(), highlighted: i == selected },
    )
}

/// The modal state and the screen once the menu has opened for `ev`: the
/// first entry is selected, and the actions and the target are remembered.
pub open spec fn menu_shown(
    ui: UiView,
    hud: HudView,
    ev: ContextMenuEventView,
    now: u64,
) -> (UiView, HudView) {
    (
        UiView {
            menu_open: true,
            selected_index: 0,
            current_entity: Some(ev.entity),
            current_actions: ev.actions,
            menu_opened_at: now,
            ..ui
        },
        HudView {
            menu_visible: true,
            menu_title: menu_title(ev.object_name),
            menu_options: menu_options(ev.actions, 0),
            ..hud
        },
    )
}

/// The request that stands: the last one that offers an action. A request
/// without actions is passed over as if it had not been made.
pub open spec fn standing_request(
    events: Seq<ContextMenuEventView>,
) -> Option<ContextMenuEventView>
    decreases events.len(),
{
    if events.len() == 0 {
        None
    } else if events.last().actions.len() > 0 {
        Some(events.last())
    } else {
        standing_request(events.drop_last())
    }
}

/// The modal state and the screen after the menu requests of a frame: the
/// menu opens for the request that stands, and nothing changes if none
/// does.
pub open spec fn menu_requested(
    ui: UiView,
    hud: HudView,
    events: Seq<ContextMenuEventView>,
    now: u64,
) -> (UiView, HudView) {
    match standing_request(events) {
        Some(ev) => menu_shown(ui, hud, ev, now),
        None => (ui, hud),
    }
}

/// A request without actions is a silent no-op: alone it changes nothing,
/// and behind other requests it leaves what they asked for.
pub proof fn law_empty_request_is_ignored(
    ui: UiView,
    hud: HudView,
    earlier: Seq<ContextMenuEventView>,
    ev: ContextMenuEventView,
    now: u64,
)
    requires
        ev.actions.len() == 0,
    ensures
        menu_requested(ui, hud, seq![ev], now) == (ui, hud),
        menu_requested(ui, hud, earlier.push(ev), now) == menu_requested(ui, hud, earlier, now),
{
    assert(standing_request(seq![ev].drop_last()) is None);
    assert(earlier.push(ev).drop_last() =~= earlier);
}

/// Builds the menu entries for `actions` with the first one highlighted.
fn build_options(actions: &Vec<InteractionAction>) -> (r: Vec<MenuOption>)
    ensures
        r.deep_view() == menu_options(actions.deep_view(), 0),
{
    let mut r: Vec<MenuOption> = Vec::new();
    let mut i: usize = 0;
    while i < actions.len()
        invariant
            i <= actions.len(),
            r.len() == i,
            forall|j: int|
                0 <= j < i ==> (#[trigger] r[j])@ == menu_options(actions.deep_view(), 0)[j],
        decreases actions.len() - i,
    {
        r.push(MenuOption { index: i, label: actions[i].to_string(), highlighted: i == 0 });
        i += 1;
    }
    r
}

/// Opens the menu for the last request that offers an action. Requests
/// without actions are passed over; if there is no other, nothing changes.
pub fn show_context_menu(
    events: &Vec<ContextMenuEvent>,
    ui: &mut UiState,
    hud: &mut Hud,
    now: u64,
)
    ensures
        (final(ui)@, final(hud)@) == menu_requested(old(ui)@, old(hud)@, events.deep_view(), now),
{
    let ghost all = events.deep_view();
    let mut n: usize = events.len();
    assert(all.take(n as int) =~= all);
    while n > 0 && events[n - 1].actions.len() == 0
        invariant
            n <= events.len(),
            all == events.deep_view(),
            standing_request(all) == standing_request(all.take(n as int)),
        decreases n,
    {
        assert(all.take(n as int).drop_last() =~= all.take(n - 1));
        n -= 1;
    }
    if n == 0 {
        return ;
    }
    let event = &events[n - 1];
    assert(standing_request(all.take(n as int)) == Some(event@));
    hud.menu_visible = true;
    hud.menu_title = concat3("[ ", event.object_name.as_str(), " ]");
    hud.menu_options = build_options(&event.actions);
    ui.menu_open = true;
    ui.selected_index = 0;
    ui.current_entity = Some(event.entity);
    ui.current_actions = clone_actions(&event.actions);
    ui.menu_opened_at = now;
}

/// The entries with exactly those highlighted whose index is `selected`.
pub open spec fn recolored(options: Seq<MenuOptionView>, selected: int) -> Seq<MenuOptionView> {
    Seq::new(
        options.len(),
        |i: int| MenuOptionView { highlighted: options[i].index == selected, ..options[i] },
    )
}

/// The index selected after a navigation key among `count` entries: up
/// moves back and wraps to the last entry, down moves on and wraps to the
/// first.
pub open spec fn next_selection(selected: usize, count: int, up: bool) -> int
    recommends
        count > 0,
{
    if up {
        if selected > 0 {
            selected - 1
        } else {
            count - 1
        }
    } else {
        (selected + 1) % count
    }
}

/// The modal state and the screen after the navigation keys. Up wins over
/// down. Nothing happens while the menu is closed or empty.
pub open spec fn navigated(ui: UiView, hud: HudView, up: bool, down: bool) -> (UiView, HudView) {
    let count = hud.menu_options.len() as int;
    if !ui.menu_open || count == 0 || (!up && !down) {
        (ui, hud)
    } else {
        let selected = next_selection(ui.selected_index, count, up);
        (
            UiView { selected_index: selected as usize, ..ui },
            HudView { menu_options: recolored(hud.menu_options, selected), ..hud },
        )
    }
}

/// Moves the selection on a navigation key and highlights the entry it
/// lands on.
pub fn handle_menu_navigation(up: bool, down: bool, ui: &mut UiState, hud: &mut Hud)
    ensures
        (final(ui)@, final(hud)@) == navigated(old(ui)@, old(hud)@, up, down),
{
    let count: usize = hud.menu_options.len();
    if !ui.menu_open || count == 0 || (!up && !down) {
        return ;
    }
    if up {
        if ui.selected_index > 0 {
            ui.selected_index -= 1;
        } else {
            ui.selected_index = count - 1;
        }
    } else {
        ui.selected_index = ((ui.selected_index as u128 + 1) % (count as u128)) as usize;
    }
    let selected: usize = ui.selected_index;
    let mut i: usize = 0;
    while i < hud.menu_options.len()
        invariant
            i <= hud.menu_options.len(),
            hud.menu_options.len() == old(hud).menu_options.len(),
            forall|j: int|
                0 <= j < i ==> (#[trigger] hud.menu_options[j])@ == recolored(
                    old(hud)@.menu_options,
                    selected as int,
                )[j],
            forall|j: int|
                i <= j < hud.menu_options.len() ==> (#[trigger] hud.menu_options[j])@ == old(
                    hud,
                ).menu_options[j]@,
            hud.menu_visible == old(hud).menu_visible,
            hud.menu_title == old(hud).menu_title,
            hud.log_visible == old(hud).log_visible,
            hud.message_text == old(hud).message_text,
            hud.continue_chevron == old(hud).continue_chevron,
            hud.close_chevron == old(hud).close_chevron,
            hud.inventory_visible == old(hud).inventory_visible,
            hud.inventory_lines == old(hud).inventory_lines,
        decreases hud.menu_options.len() - i,
    {
        let option = &mut hud.menu_options[i];
        option.highlighted = option.index == selected;
        i += 1;
    }
    assert(hud@.menu_options =~= recolored(old(hud)@.menu_options, selected as int));
}

/// The choice that the select key makes, if it makes one: the menu is open
/// and past its debounce, and the selection points at an action.
pub open spec fn selection(ui: UiView, select: bool, now: u64) -> Option<InteractionEventView> {
    if ui.menu_open && !debouncing(now, ui.menu_opened_at) && select && ui.current_entity is Some
        && ui.selected_index < ui.current_actions.len() {
        Some(
            InteractionEventView {
                entity: ui.current_entity.unwrap(),
                action: ui.current_actions[ui.selected_index as int],
                with_item_id: None,
                detailed: false,
            },
        )
    } else {
        None
    }
}

/// The modal state and the screen after the select key: a choice closes the
/// menu.
pub open spec fn selected(ui: UiView, hud: HudView, select: bool, now: u64) -> (UiView, HudView) {
    if selection(ui, select, now) is Some {
        (UiView { menu_open: false, ..ui }, HudView { menu_visible: false, ..hud })
    } else {
        (ui, hud)
    }
}

/// Handles the select key: fires the selected action at the menu's target
/// and closes the menu.
pub fn handle_menu_selection(select: bool, ui: &mut UiState, hud: &mut Hud, now: u64) -> (r:
    Option<InteractionEvent>)
    ensures
        r.deep_view() == selection(old(ui)@, select, now),
        (final(ui)@, final(hud)@) == selected(old(ui)@, old(hud)@, select, now),
{
    if !ui.menu_open || is_debouncing(now, ui.menu_opened_at) || !select {
        return None;
    }
    let entity = match ui.current_entity {
        Some(e) => e,
        None => {
            return None;
        },
    };
    if ui.selected_index >= ui.current_actions.len() {
        return None;
    }
    let action = ui.current_actions[ui.selected_index].clone();
    hud.menu_visible = false;
    ui.menu_open = false;
    Some(InteractionEvent { entity, action, with_item_id: None, detailed: false })
}

/// The modal state and the screen after the cancel key: an open menu
/// closes, and nothing is fired.
pub open spec fn cancelled(ui: UiView, hud: HudView, cancel: bool) -> (UiView, HudView) {
    if ui.menu_open && cancel {
        (UiView { menu_open: false, ..ui }, HudView { menu_visible: false, ..hud })
    } else {
        (ui, hud)
    }
}

/// Handles the cancel key.
pub fn handle_menu_cancel(cancel: bool, ui: &mut UiState, hud: &mut Hud)
    ensures
        (final(ui)@, final(hud)@) == cancelled(old(ui)@, old(hud)@, cancel),
{
    if ui.menu_open && cancel {
        hud.menu_visible = false;
        ui.menu_open = false;
    }
}

/// The page of the dialog that shows the queue up to and including line
/// `index`.
pub open spec fn page(queue: Seq<Seq<char>>, index: int) -> Seq<char> {
    join_lines(
        queue.take(
            if index + 1 <= queue.len() {
                index + 1
            } else {
                queue.len() as int
            },
        ),
    )
}

/// The modal state and the screen after new lines arrive. They join the
/// queue behind what is there. If the dialog was closed it opens on the
/// first line; if it was open the page stays as it is until the next
/// advance.
pub open spec fn logged(
    ui: UiView,
    hud: HudView,
    lines: Seq<Seq<char>>,
    now: u64,
) -> (UiView, HudView) {
    let queue = ui.dialog_queue + lines;
    if lines.len() > 0 && !ui.dialog_open {
        (
            UiView {
                dialog_queue: queue,
                dialog_open: true,
                dialog_index: 0,
                dialog_opened_at: now,
                ..ui
            },
            HudView { log_visible: true, message_text: page(queue, 0), ..hud },
        )
    } else {
        (UiView { dialog_queue: queue, ..ui }, hud)
    }
}

/// Queues the new lines and opens the dialog if it was closed.
pub fn update_log_display(events: &Vec<LogEvent>, ui: &mut UiState, hud: &mut Hud, now: u64)
    ensures
        (final(ui)@, final(hud)@) == logged(old(ui)@, old(hud)@, events.deep_view(), now),
{
    let mut i: usize = 0;
    while i < events.len()
        invariant
            i <= events.len(),
            ui@ == (UiView {
                dialog_queue: old(ui)@.dialog_queue + events.deep_view().take(i as int),
                ..old(ui)@
            }),
        decreases events.len() - i,
    {
        let ghost before = ui.dialog_queue.deep_view();
        ui.dialog_queue.push(events[i].0.clone());
        assert(ui.dialog_queue.deep_view() =~= before.push(events[i as int]@));
        assert(ui@.dialog_queue =~= old(ui)@.dialog_queue + events.deep_view().take(i + 1));
        i += 1;
    }
    assert(events.deep_view().take(events.len() as int) =~= events.deep_view());
    if events.len() > 0 && !ui.dialog_open {
        ui.dialog_open = true;
        ui.dialog_index = 0;
        ui.dialog_opened_at = now;
        hud.log_visible = true;
        hud.message_text = join_first(&ui.dialog_queue, 1);
    }
}

/// The modal state and the screen after the advance key. Past the debounce
/// it moves to the next line and shows the queue up to it; past the last
/// line the dialog closes and forgets its lines.
pub open spec fn advanced(ui: UiView, hud: HudView, advance: bool, now: u64) -> (UiView, HudView) {
    if !ui.dialog_open || debouncing(now, ui.dialog_opened_at) || !advance {
        (ui, hud)
    } else if ui.dialog_index + 1 >= ui.dialog_queue.len() {
        (
            UiView { dialog_open: false, dialog_queue: Seq::empty(), dialog_index: 0, ..ui },
            HudView { log_visible: false, message_text: Seq::empty(), ..hud },
        )
    } else {
        (
            UiView { dialog_index: (ui.dialog_index + 1) as usize, ..ui },
            HudView { message_text: page(ui.dialog_queue, ui.dialog_index + 1), ..hud },
        )
    }
}

/// Handles the advance key of the dialog.
pub fn handle_dialog_input(advance: bool, ui: &mut UiState, hud: &mut Hud, now: u64)
    ensures
        (final(ui)@, final(hud)@) == advanced(old(ui)@, old(hud)@, advance, now),
{
    if !ui.dialog_open || is_debouncing(now, ui.dialog_opened_at) || !advance {
        return ;
    }
    let len: usize = ui.dialog_queue.len();
    if len == 0 || ui.dialog_index >= len - 1 {
        hud.log_visible = false;
        hud.message_text = String::new();
        ui.dialog_open = false;
        ui.dialog_queue.clear();
        ui.dialog_index = 0;
        assert(ui@.dialog_queue =~= Seq::<Seq<char>>::empty());
        return ;
    }
    ui.dialog_index += 1;
    hud.message_text = join_first(&ui.dialog_queue, ui.dialog_index + 1);
}

/// A repeating timer after `delta_us` more microseconds, and whether it
/// reached its period in them. A timer without a period always has.
pub open spec fn ticked(blink: ChevronBlink, delta_us: u64) -> (ChevronBlink, bool) {
    let sum = blink.elapsed_us + delta_us;
    if blink.period_us == 0 {
        (ChevronBlink { elapsed_us: 0, ..blink }, true)
    } else if sum >= blink.period_us {
        (ChevronBlink { elapsed_us: (sum % (blink.period_us as int)) as u64, ..blink }, true)
    } else {
        (ChevronBlink { elapsed_us: sum as u64, ..blink }, false)
    }
}

/// Runs a repeating `bevy::time::Timer` with the period and elapsed time of
/// `blink` for `delta_us` microseconds. Trusted: `Timer::tick` adds the
/// delta to the elapsed time, reports the timer finished exactly if the sum
/// has reached the period, and then keeps the remainder of the sum by the
/// period (zero where the period is zero).
#[verifier::external_body]
fn tick_repeating(blink: ChevronBlink, delta_us: u64) -> (r: (ChevronBlink, bool))
    ensures
        r == ticked(blink, delta_us),
{
    let mut timer = bevy::time::Timer::new(
        core::time::Duration::from_micros(blink.period_us as u64),
        bevy::time::TimerMode::Repeating,
    );
    timer.set_elapsed(core::time::Duration::from_micros(blink.elapsed_us));
    timer.tick(core::time::Duration::from_micros(delta_us));
    let elapsed_us = timer.elapsed().as_micros() as u64;
    (ChevronBlink { period_us: blink.period_us, elapsed_us }, timer.finished())
}

/// A sign after a frame of `delta_us` microseconds. While it is wanted its
/// timer runs and it flips each time the timer comes round; while it is not
/// wanted it is hidden and its timer rests.
pub open spec fn blinked(chevron: Chevron, wanted: bool, delta_us: u64) -> Chevron {
    if wanted {
        let (blink, round) = ticked(chevron.blink, delta_us);
        Chevron { visible: chevron.visible != round, blink }
    } else {
        Chevron { visible: false, blink: ChevronBlink { elapsed_us: 0, ..chevron.blink } }
    }
}

/// Whether lines follow the one the dialog is on.
pub open spec fn has_more_after(ui: UiView) -> bool {
    ui.dialog_open && ui.dialog_index + 1 < ui.dialog_queue.len()
}

/// Whether the dialog is on its last line.
pub open spec fn on_last(ui: UiView) -> bool {
    ui.dialog_open && ui.dialog_index + 1 == ui.dialog_queue.len()
}

/// The screen after the blink step: the sign for more lines blinks while
/// lines follow, and the sign for the end blinks on the last line.
pub open spec fn chevrons_blinked(ui: UiView, hud: HudView, delta_us: u64) -> HudView {
    HudView {
        continue_chevron: blinked(hud.continue_chevron, has_more_after(ui), delta_us),
        close_chevron: blinked(hud.close_chevron, on_last(ui), delta_us),
        ..hud
    }
}

/// Lets one sign blink for a frame.
pub fn blink(chevron: &mut Chevron, wanted: bool, delta_us: u64)
    ensures
        *final(chevron) == blinked(*old(chevron), wanted, delta_us),
{
    if wanted {
        let (blink, round) = tick_repeating(chevron.blink, delta_us);
        chevron.blink = blink;
        if round {
            chevron.visible = !chevron.visible;
        }
    } else {
        chevron.visible = false;
        chevron.blink.elapsed_us = 0;
    }
}

/// Lets the two signs of the dialog blink for a frame.
pub fn blink_continue_chevron(ui: &UiState, hud: &mut Hud, delta_us: u64)
    ensures
        final(hud)@ == chevrons_blinked(ui@, old(hud)@, delta_us),
{
    let len: usize = ui.dialog_queue.len();
    let more = ui.dialog_open && len > 0 && ui.dialog_index < len - 1;
    let last = ui.dialog_open && len > 0 && ui.dialog_index == len - 1;
    blink(&mut hud.continue_chevron, more, delta_us);
    blink(&mut hud.close_chevron, last, delta_us);
}

/// The lines of the inventory panel: one per item, or a note that there is
/// none.
pub open spec fn inventory_lines(items: Seq<InventoryItemView>) -> Seq<Seq<char>> {
    if items.len() == 0 {
        seq!["(Empty)"@]
    } else {
        Seq::new(items.len(), |i: int| "* "@ + items[i].name)
    }
}

/// The screen after the inventory panel has been brought up to date: it
/// shows exactly while the bag is open, and its lines are rebuilt only
/// then.
pub open spec fn inventory_shown(hud: HudView, inv: InventoryView) -> HudView {
    if inv.is_open {
        HudView { inventory_visible: true, inventory_lines: inventory_lines(inv.items), ..hud }
    } else {
        HudView { inventory_visible: false, ..hud }
    }
}

/// Brings the inventory panel up to date.
pub fn update_inventory_ui(inventory: &Inventory, hud: &mut Hud)
    ensures
        final(hud)@ == inventory_shown(old(hud)@, inventory@),
{
    hud.inventory_visible = inventory.is_open;
    if !inventory.is_open {
        return ;
    }
    let mut lines: Vec<String> = Vec::new();
    if inventory.items.len() == 0 {
        lines.push(String::from_str("(Empty)"));
        assert(lines.deep_view() =~= seq!["(Empty)"@]);
    } else {
        let mut i: usize = 0;
        while i < inventory.items.len()
            invariant
                i <= inventory.items.len(),
                lines.len() == i,
                forall|j: int|
                    0 <= j < i ==> (#[trigger] lines[j])@ == "* "@ + inventory.items[j].name@,
            decreases inventory.items.len() - i,
        {
            lines.push(concat2("* ", inventory.items[i].name.as_str()));
            i += 1;
        }
        assert(lines.deep_view() =~= inventory_lines(inventory@.items));
    }
    hud.inventory_lines = lines;
}

/// The modal state and the screen after one press of the advance key at
/// each of `times`, in order.
pub open spec fn advanced_at(ui: UiView, hud: HudView, times: Seq<u64>) -> (UiView, HudView)
    decreases times.len(),
{
    if times.len() == 0 {
        (ui, hud)
    } else {
        let (u, h) = advanced_at(ui, hud, times.drop_last());
        advanced(u, h, true, times.last())
    }
}

/// Paging through a dialog. Lines that arrive while the dialog is closed
/// and empty open it on the first line. Each press of the advance key past
/// the debounce then shows one line more, on top of those shown before; the
/// press on the last line closes the dialog and empties the queue.
pub proof fn law_dialog_pages(
    ui: UiView,
    hud: HudView,
    lines: Seq<Seq<char>>,
    opened_at: u64,
    times: Seq<u64>,
)
    requires
        !ui.dialog_open,
        ui.dialog_queue.len() == 0,
        0 < lines.len() <= usize::MAX,
        times.len() <= lines.len(),
        forall|i: int| 0 <= i < times.len() ==> !debouncing(#[trigger] times[i], opened_at),
    ensures
        ({
            let (u0, h0) = logged(ui, hud, lines, opened_at);
            let (u, h) = advanced_at(u0, h0, times);
            let k = times.len() as int;
            &&& u0.dialog_open && h0.log_visible && h0.message_text == lines[0]
            &&& k < lines.len() ==> {
                &&& u.dialog_open
                &&& u.dialog_queue == lines
                &&& u.dialog_index == k
                &&& u.dialog_opened_at == opened_at
                &&& h.log_visible
                &&& h.message_text == join_lines(lines.take(k + 1))
            }
            &&& k == lines.len() ==> {
                &&& !u.dialog_open
                &&& u.dialog_queue.len() == 0
                &&& u.dialog_index == 0
                &&& !h.log_visible
                &&& h.message_text.len() == 0
            }
        }),
    decreases times.len(),
{
    if times.len() > 0 {
        law_dialog_pages(ui, hud, lines, opened_at, times.drop_last());
    }
}

/// Navigation stays within the menu and wraps around at both ends: from a
/// selection within the entries each key leads to an entry, up from the
/// first entry leads to the last and down from the last to the first, and
/// each key undoes the other.
pub proof fn law_navigation_wraps(selected: usize, count: int)
    requires
        0 <= selected < count <= usize::MAX,
    ensures
        0 <= next_selection(selected, count, true) < count,
        0 <= next_selection(selected, count, false) < count,
        selected == 0 ==> next_selection(selected, count, true) == count - 1,
        selected == count - 1 ==> next_selection(selected, count, false) == 0,
        next_selection(next_selection(selected, count, true) as usize, count, false) == selected,
        next_selection(next_selection(selected, count, false) as usize, count, true) == selected,
{
    if selected + 1 < count {
        assert((selected + 1) % count == selected + 1) by (nonlinear_arith)
            requires
                0 <= selected + 1 < count,
        ;
    } else {
        assert((selected + 1) % count == 0) by (nonlinear_arith)
            requires
                selected + 1 == count,
                count > 0,
        ;
    }
    if selected > 0 {
        assert(((selected - 1) + 1) % count == selected) by (nonlinear_arith)
            requires
                0 <= selected < count,
        ;
    } else {
        assert(((count - 1) + 1) % count == 0) by (nonlinear_arith)
            requires
                count > 0,
        ;
    }
}

} // verus!
