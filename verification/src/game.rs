//! The whole game state and the frame that advances it.

use crate::effects::{law_doors_stay_consistent, process_interactions, processed};
use crate::interaction::{
    check_nearby_interactables, detected, dispatched, handle_interaction_input, Dispatch,
    DispatchView, InteractionEvent, InteractionEventView,
};
use crate::inventory::{toggle_inventory_display, Inventory, InventoryView};
use crate::objects::{doors_block_iff_closed, World, WorldView};
use crate::player::{
    facing_after, player_movement, solids_of, update_player_facing, walked, Avatar, Held, Player,
};
use crate::ui::{
    advanced, blink_continue_chevron, cancelled, chevrons_blinked, handle_dialog_input,
    handle_menu_cancel, handle_menu_navigation, handle_menu_selection, inventory_shown, logged,
    menu_requested, navigated, page, selected, selection, setup_ui, show_context_menu,
    standing_request, update_inventory_ui, update_log_display, ContextMenuEvent,
    ContextMenuEventView, Hud, HudView, LogEvent, UiState, UiView,
};
use vstd::prelude::*;

verus! {

/// The four phases of a frame, in the order in which they run.
#[derive(Clone, Copy, Debug, PartialEq, Eq, Hash, Structural)]
pub enum GameSet {
    /// The proximity scan and its marker.
    Detect,
    /// The interact key and the inventory key.
    Input,
    /// The context menu.
    Ui,
    /// The effects of the chosen actions, the dialog, and the panels.
    Process,
}

/// What the input source and the clock report for one frame. Times are in
/// microseconds.
#[derive(Clone, Copy, Debug, PartialEq, Eq, Structural)]
pub struct FrameInput {
    /// Time since the game started.
    pub elapsed_us: u64,
    /// Time since the frame before.
    pub delta_us: u64,
    /// The direction keys that are held down.
    pub held: Held,
    /// Keys that went down this frame.
    pub interact: bool,
    pub navigate_up: bool,
    pub navigate_down: bool,
    pub select: bool,
    pub cancel: bool,
    pub toggle_inventory: bool,
}

/// Everything the game consists of. The three queues carry events from one
/// phase of a frame to a later one; every frame leaves them empty.
#[derive(Debug, PartialEq, Eq)]
pub struct Game {
    pub world: World,
    pub avatar: Option<Avatar>,
    pub inventory: Inventory,
    pub ui: UiState,
    pub hud: Hud,
    pub menu_events: Vec<ContextMenuEvent>,
    pub interaction_events: Vec<InteractionEvent>,
    pub log_events: Vec<LogEvent>,
}

/// A `Game` as contracts see it.
pub struct GameView {
    pub world: WorldView,
    pub avatar: Option<Avatar>,
    pub inventory: InventoryView,
    pub ui: UiView,
    pub hud: HudView,
    pub menu_events: Seq<ContextMenuEventView>,
    pub interaction_events: Seq<InteractionEventView>,
    pub log_events: Seq<Seq<char>>,
}

impl View for Game {
    type V = GameView;

    open spec fn view(&self) -> GameView {
        GameView {
            world: self.world@,
            avatar: self.avatar,
            inventory: self.inventory@,
            ui: self.ui@,
            hud: self.hud@,
            menu_events: self.menu_events.deep_view(),
            interaction_events: self.interaction_events.deep_view(),
            log_events: self.log_events.deep_view(),
        }
    }
}

impl GameView {
    /// A game that has not run yet: the given world and player, an empty
    /// closed bag of the given capacity, both modals closed, nothing on
    /// screen, no event queued.
    pub open spec fn fresh(world: WorldView, avatar: Option<Avatar>, capacity: usize) -> GameView {
        GameView {
            world,
            avatar,
            inventory: InventoryView { items: Seq::empty(), max_size: capacity, is_open: false },
            ui: UiView::fresh(),
            hud: HudView::fresh(),
            menu_events: Seq::empty(),
            interaction_events: Seq::empty(),
            log_events: Seq::empty(),
        }
    }

    /// The player walks and turns. Nothing moves while a modal is open.
    pub open spec fn walk(self, input: FrameInput) -> GameView {
        match self.avatar {
            Some(a) => {
                let w = walked(
                    a,
                    input.held,
                    input.delta_us,
                    solids_of(self.world),
                    self.ui.modal(),
                );
                GameView {
                    avatar: Some(
                        if self.ui.modal() {
                            w
                        } else {
                            Avatar {
                                player: Player {
                                    facing: facing_after(input.held, w.player.facing),
                                    ..w.player
                                },
                                ..w
                            }
                        },
                    ),
                    ..self
                }
            },
            None => self,
        }
    }

    /// The proximity scan.
    pub open spec fn detect(self) -> GameView {
        let (world, avatar) = detected(self.world, self.avatar);
        GameView { world, avatar, ..self }
    }

    /// The interact key is dispatched and what it leads to is queued; the
    /// inventory key flips the bag's display flag.
    pub open spec fn input(self, input: FrameInput) -> GameView {
        let inventory = self.inventory.toggled(input.toggle_inventory);
        match dispatched(input.interact, self.world, self.avatar, self.ui) {
            DispatchView::Nothing => GameView { inventory, ..self },
            DispatchView::Fire(e) => GameView {
                inventory,
                interaction_events: self.interaction_events.push(e),
                ..self
            },
            DispatchView::Menu(m) => GameView {
                inventory,
                menu_events: self.menu_events.push(m),
                ..self
            },
        }
    }

    /// The menu: queued requests open it, then the navigation keys, the
    /// select key and the cancel key are handled in this order. A choice is
    /// queued for the effect processor.
    pub open spec fn menu(self, input: FrameInput) -> GameView {
        let (ui1, hud1) = menu_requested(self.ui, self.hud, self.menu_events, input.elapsed_us);
        let (ui2, hud2) = navigated(ui1, hud1, input.navigate_up, input.navigate_down);
        let choice = selection(ui2, input.select, input.elapsed_us);
        let (ui3, hud3) = selected(ui2, hud2, input.select, input.elapsed_us);
        let (ui4, hud4) = cancelled(ui3, hud3, input.cancel);
        GameView {
            ui: ui4,
            hud: hud4,
            menu_events: Seq::empty(),
            interaction_events: match choice {
                Some(e) => self.interaction_events.push(e),
                None => self.interaction_events,
            },
            ..self
        }
    }

    /// The queued choices take effect in order and their lines join the log
    /// queue; the dialog takes the queue over and then sees the advance
    /// key; the signs blink; the inventory panel is brought up to date.
    pub open spec fn process(self, input: FrameInput) -> GameView {
        let out = processed(self.world, self.inventory, self.interaction_events);
        let (ui1, hud1) = logged(self.ui, self.hud, self.log_events + out.lines, input.elapsed_us);
        let (ui2, hud2) = advanced(ui1, hud1, input.select, input.elapsed_us);
        let hud3 = chevrons_blinked(ui2, hud2, input.delta_us);
        GameView {
            world: out.world,
            inventory: out.inventory,
            ui: ui2,
            hud: inventory_shown(hud3, out.inventory),
            interaction_events: Seq::empty(),
            log_events: Seq::empty(),
            ..self
        }
    }

    /// One phase of a frame.
    pub open spec fn run(self, set: GameSet, input: FrameInput) -> GameView {
        match set {
            GameSet::Detect => self.detect(),
            GameSet::Input => self.input(input),
            GameSet::Ui => self.menu(input),
            GameSet::Process => self.process(input),
        }
    }

    /// One frame: the player moves, then the four phases run in order.
    pub open spec fn tick(self, input: FrameInput) -> GameView {
        self.walk(input).run(GameSet::Detect, input).run(GameSet::Input, input).run(
            GameSet::Ui,
            input,
        ).run(GameSet::Process, input)
    }
}

impl Game {
    /// A game around `world` and `avatar` that has not run yet.
    pub fn new(world: World, avatar: Option<Avatar>, capacity: usize) -> (game: Game)
        ensures
            game@ == GameView::fresh(world@, avatar, capacity),
    {
        let game = Game {
            world,
            avatar,
            inventory: Inventory::new(capacity),
            ui: UiState::default(),
            hud: setup_ui(),
            menu_events: Vec::new(),
            interaction_events: Vec::new(),
            log_events: Vec::new(),
        };
        assert(game@.menu_events =~= Seq::<ContextMenuEventView>::empty());
        assert(game@.interaction_events =~= Seq::<InteractionEventView>::empty());
        assert(game@.log_events =~= Seq::<Seq<char>>::empty());
        game
    }

    /// Moves and turns the player.
    pub fn walk(&mut self, input: &FrameInput)
        ensures
            final(self)@ == old(self)@.walk(*input),
    {
        player_movement(input.held, input.delta_us, &mut self.avatar, &self.world, &self.ui);
        update_player_facing(input.held, &mut self.avatar, &self.ui);
    }

    /// Runs one phase of a frame.
    pub fn run(&mut self, set: GameSet, input: &FrameInput)
        ensures
            final(self)@ == old(self)@.run(set, *input),
    {
        match set {
            GameSet::Detect => {
                check_nearby_interactables(&mut self.world, &mut self.avatar);
            },
            GameSet::Input => {
                match handle_interaction_input(input.interact, &self.world, &self.avatar, &self.ui) {
                    Dispatch::Nothing => {},
                    Dispatch::Fire(event) => {
                        self.interaction_events.push(event);
                        assert(self@.interaction_events =~= old(self)@.interaction_events.push(
                            event@,
                        ));
                    },
                    Dispatch::Menu(request) => {
                        self.menu_events.push(request);
                        assert(self@.menu_events =~= old(self)@.menu_events.push(request@));
                    },
                }
                toggle_inventory_display(input.toggle_inventory, &mut self.inventory);
            },
            GameSet::Ui => {
                show_context_menu(&self.menu_events, &mut self.ui, &mut self.hud, input.elapsed_us);
                self.menu_events.clear();
                handle_menu_navigation(
                    input.navigate_up,
                    input.navigate_down,
                    &mut self.ui,
                    &mut self.hud,
                );
                match handle_menu_selection(
                    input.select,
                    &mut self.ui,
                    &mut self.hud,
                    input.elapsed_us,
                ) {
                    Some(event) => {
                        self.interaction_events.push(event);
                        assert(self@.interaction_events =~= old(self)@.interaction_events.push(
                            event@,
                        ));
                    },
                    None => {},
                }
                handle_menu_cancel(input.cancel, &mut self.ui, &mut self.hud);
                assert(self@.menu_events =~= Seq::<ContextMenuEventView>::empty());
            },
            GameSet::Process => {
                let mut lines = process_interactions(
                    &self.interaction_events,
                    &mut self.world,
                    &mut self.inventory,
                );
                self.interaction_events.clear();
                let ghost said = lines.deep_view();
                self.log_events.append(&mut lines);
                assert(self.log_events.deep_view() =~= old(self)@.log_events + said);
                update_log_display(&self.log_events, &mut self.ui, &mut self.hud, input.elapsed_us);
                self.log_events.clear();
                handle_dialog_input(input.select, &mut self.ui, &mut self.hud, input.elapsed_us);
                blink_continue_chevron(&self.ui, &mut self.hud, input.delta_us);
                update_inventory_ui(&self.inventory, &mut self.hud);
                assert(self@.interaction_events =~= Seq::<InteractionEventView>::empty());
                assert(self@.log_events =~= Seq::<Seq<char>>::empty());
            },
        }
    }

    /// Advances the game by one frame: the player moves, then the phases
    /// run in their order. No event outlives the frame.
    pub fn tick(&mut self, input: &FrameInput)
        ensures
            final(self)@ == old(self)@.tick(*input),
            final(self)@.menu_events.len() == 0,
            final(self)@.interaction_events.len() == 0,
            final(self)@.log_events.len() == 0,
    {
        self.walk(input);
        self.run(GameSet::Detect, input);
        self.run(GameSet::Input, input);
        self.run(GameSet::Ui, input);
        self.run(GameSet::Process, input);
    }
}

/// While a modal is open the player neither moves nor turns, and the
/// interact key leads to nothing.
pub proof fn law_modal_captures_input(game: GameView, input: FrameInput)
    requires
        game.ui.modal(),
    ensures
        game.walk(input) == game,
        dispatched(input.interact, game.world, game.avatar, game.ui) == DispatchView::Nothing,
        game.input(input).menu_events == game.menu_events,
        game.input(input).interaction_events == game.interaction_events,
{
}

/// The key press that asks for the menu does not choose in it: a frame
/// with a request that stands leaves the menu open, whatever the select key
/// did, unless the cancel key was pressed too; and it queues no choice.
pub proof fn law_opening_press_does_not_select(game: GameView, input: FrameInput)
    requires
        standing_request(game.menu_events) is Some,
    ensures
        game.menu(input).ui.menu_open == !input.cancel,
        game.menu(input).ui.menu_opened_at == input.elapsed_us,
        game.menu(input).interaction_events == game.interaction_events,
{
}

/// The key press that brings up a dialog does not advance it: a frame in
/// which lines arrive for a closed dialog ends with the dialog open on the
/// first line of its queue, whatever the select key did.
pub proof fn law_new_dialog_is_not_advanced(game: GameView, input: FrameInput)
    requires
        !game.ui.dialog_open,
        game.log_events.len() + processed(
            game.world,
            game.inventory,
            game.interaction_events,
        ).lines.len() > 0,
    ensures
        ({
            let after = game.process(input);
            let said = processed(game.world, game.inventory, game.interaction_events).lines;
            &&& after.ui.dialog_open
            &&& after.ui.dialog_index == 0
            &&& after.ui.dialog_opened_at == input.elapsed_us
            &&& after.ui.dialog_queue == game.ui.dialog_queue + (game.log_events + said)
            &&& after.hud.log_visible
            &&& after.hud.message_text == page(after.ui.dialog_queue, 0)
        }),
{
}

/// A frame changes which objects there are and what state they are in only
/// through the effect processor, so it keeps the rule that a door blocks
/// exactly while it is closed.
pub proof fn law_frame_keeps_doors(game: GameView, input: FrameInput)
    requires
        doors_block_iff_closed(game.world),
    ensures
        doors_block_iff_closed(game.tick(input).world),
        game.tick(input).world.len() == game.world.len(),
{
    let walked = game.walk(input);
    let scanned = walked.run(GameSet::Detect, input);
    assert(doors_block_iff_closed(scanned.world));
    let chosen = scanned.run(GameSet::Input, input).run(GameSet::Ui, input);
    law_doors_stay_consistent(chosen.world, chosen.inventory, chosen.interaction_events);
}

} // verus!
