//! Actions, the things that offer them, and what choosing one does.

use crate::geometry::{distance_squared, is_within, squared_distance, within, Position};
use crate::objects::{
    at_most_one_marked, is_marked, Door, DoorView, Entity, Light, ObjectView, World, WorldView,
};
use crate::player::Avatar;
use crate::ui::{ContextMenuEvent, ContextMenuEventView, UiState, UiView};
use vstd::prelude::*;

verus! {

/// What the player can do to an object.
#[derive(Debug, PartialEq, Eq)]
pub enum InteractionAction {
    Examine,
    Take,
    Use,
    TurnOn,
    TurnOff,
    Refuel,
    Talk,
    Open,
    Close,
    Custom(String),
}

/// An `InteractionAction` as contracts see it: a custom action carries its
/// text as a sequence of characters.
pub enum ActionView {
    Examine,
    Take,
    Use,
    TurnOn,
    TurnOff,
    Refuel,
    Talk,
    Open,
    Close,
    Custom(Seq<char>),
}

impl View for InteractionAction {
    type V = ActionView;

    open spec fn view(&self) -> ActionView {
        match self {
            InteractionAction::Examine => ActionView::Examine,
            InteractionAction::Take => ActionView::Take,
            InteractionAction::Use => ActionView::Use,
            InteractionAction::TurnOn => ActionView::TurnOn,
            InteractionAction::TurnOff => ActionView::TurnOff,
            InteractionAction::Refuel => ActionView::Refuel,
            InteractionAction::Talk => ActionView::Talk,
            InteractionAction::Open => ActionView::Open,
            InteractionAction::Close => ActionView::Close,
            InteractionAction::Custom(s) => ActionView::Custom(s@),
        }
    }
}

impl DeepView for InteractionAction {
    type V = ActionView;

    open spec fn deep_view(&self) -> ActionView {
        self@
    }
}

impl ActionView {
    /// The menu label of the action.
    pub open spec fn label(self) -> Seq<char> {
        match self {
            ActionView::Examine => "* Check"@,
            ActionView::Take => "* Take"@,
            ActionView::Use => "* Use"@,
            ActionView::TurnOn => "* Turn On"@,
            ActionView::TurnOff => "* Turn Off"@,
            ActionView::Refuel => "* Refuel"@,
            ActionView::Talk => "* Talk"@,
            ActionView::Open => "* Open"@,
            ActionView::Close => "* Close"@,
            ActionView::Custom(s) => "* "@ + s,
        }
    }

    /// Whether the action switches a light.
    pub open spec fn is_light_toggle(self) -> bool {
        self is TurnOn || self is TurnOff
    }

    /// Whether the action moves a door.
    pub open spec fn is_door_toggle(self) -> bool {
        self is Open || self is Close
    }
}

impl Clone for InteractionAction {
    fn clone(&self) -> (r: Self)
        ensures
            r == *self,
    {
        match self {
            InteractionAction::Examine => InteractionAction::Examine,
            InteractionAction::Take => InteractionAction::Take,
            InteractionAction::Use => InteractionAction::Use,
            InteractionAction::TurnOn => InteractionAction::TurnOn,
            InteractionAction::TurnOff => InteractionAction::TurnOff,
            InteractionAction::Refuel => InteractionAction::Refuel,
            InteractionAction::Talk => InteractionAction::Talk,
            InteractionAction::Open => InteractionAction::Open,
            InteractionAction::Close => InteractionAction::Close,
            InteractionAction::Custom(s) => InteractionAction::Custom(s.clone()),
        }
    }
}

impl InteractionAction {
    /// The menu label of the action: a fixed text for each built-in action,
    /// and the custom text behind `"* "` otherwise.
    pub fn to_string(&self) -> (r: String)
        ensures
            r@ == self@.label(),
    {
        match self {
            InteractionAction::Examine => String::from_str("* Check"),
            InteractionAction::Take => String::from_str("* Take"),
            InteractionAction::Use => String::from_str("* Use"),
            InteractionAction::TurnOn => String::from_str("* Turn On"),
            InteractionAction::TurnOff => String::from_str("* Turn Off"),
            InteractionAction::Refuel => String::from_str("* Refuel"),
            InteractionAction::Talk => String::from_str("* Talk"),
            InteractionAction::Open => String::from_str("* Open"),
            InteractionAction::Close => String::from_str("* Close"),
            InteractionAction::Custom(s) => crate::text::concat2("* ", s.as_str()),
        }
    }
}

/// Copies a list of actions.
pub fn clone_actions(actions: &Vec<InteractionAction>) -> (r: Vec<InteractionAction>)
    ensures
        r@ == actions@,
{
    let mut r: Vec<InteractionAction> = Vec::new();
    let mut i: usize = 0;
    while i < actions.len()
        invariant
            i <= actions.len(),
            r@ == actions@.take(i as int),
        decreases actions.len() - i,
    {
        r.push(actions[i].clone());
        i += 1;
    }
    r
}

/// A resolved choice: do `action` to `entity`.
#[derive(Debug, PartialEq, Eq)]
pub struct InteractionEvent {
    pub entity: Entity,
    pub action: InteractionAction,
    /// An inventory item carried along with the choice, if any.
    pub with_item_id: Option<String>,
    pub detailed: bool,
}

/// An `InteractionEvent` as contracts see it.
pub struct InteractionEventView {
    pub entity: Entity,
    pub action: ActionView,
    pub with_item_id: Option<Seq<char>>,
    pub detailed: bool,
}

impl View for InteractionEvent {
    type V = InteractionEventView;

    open spec fn view(&self) -> InteractionEventView {
        InteractionEventView {
            entity: self.entity,
            action: self.action@,
            with_item_id: self.with_item_id.deep_view(),
            detailed: self.detailed,
        }
    }
}

impl DeepView for InteractionEvent {
    type V = InteractionEventView;

    open spec fn deep_view(&self) -> InteractionEventView {
        self@
    }
}

/// Makes an object a target: it has a display name, the actions it offers
/// when nothing else is known about it, and optionally its own reach.
#[derive(Debug, PartialEq, Eq)]
pub struct Interactable {
    pub name: String,
    pub actions: Vec<InteractionAction>,
    /// How close the player must be, in sub-units; `None` for the default.
    pub interaction_radius: Option<u32>,
}

/// An `Interactable` as contracts see it.
pub struct InteractableView {
    pub name: Seq<char>,
    pub actions: Seq<ActionView>,
    pub interaction_radius: Option<u32>,
}

impl View for Interactable {
    type V = InteractableView;

    open spec fn view(&self) -> InteractableView {
        InteractableView {
            name: self.name@,
            actions: self.actions.deep_view(),
            interaction_radius: self.interaction_radius,
        }
    }
}

impl DeepView for Interactable {
    type V = InteractableView;

    open spec fn deep_view(&self) -> InteractableView {
        self@
    }
}

impl Default for Interactable {
    fn default() -> (r: Self)
        ensures
            r@ == (InteractableView {
                name: "Object"@,
                actions: seq![ActionView::Examine],
                interaction_radius: None,
            }),
    {
        let mut actions: Vec<InteractionAction> = Vec::new();
        actions.push(InteractionAction::Examine);
        let r = Interactable {
            name: String::from_str("Object"),
            actions,
            interaction_radius: None,
        };
        assert(r@.actions =~= seq![ActionView::Examine]);
        r
    }
}

/// Marks the one object, if any, that is the player's nearest target this
/// frame.
#[derive(Clone, Copy, Debug, PartialEq, Eq, Structural)]
pub struct NearbyInteractable;

/// How close the player must be to a target that names no reach of its own:
/// 40 units.
pub const DEFAULT_INTERACTION_RADIUS: u32 = 40_000;

impl InteractableView {
    /// The reach of the target: its own if it names one, else the default.
    pub open spec fn reach(self) -> u32 {
        match self.interaction_radius {
            Some(r) => r,
            None => DEFAULT_INTERACTION_RADIUS,
        }
    }
}

/// Whether slot `i` of `w` holds a target that the player at `player` is in
/// reach of.
pub open spec fn in_reach(w: WorldView, player: Position, i: int) -> bool {
    &&& 0 <= i < w.len()
    &&& w[i] matches Some(o)
    &&& o.interactable matches Some(t)
    &&& within(player, o.position, t.reach())
}

/// The squared distance from the player to the object in slot `i`.
pub open spec fn distance_to(w: WorldView, player: Position, i: int) -> int
    recommends
        0 <= i < w.len(),
        w[i] is Some,
{
    distance_squared(player, w[i].unwrap().position)
}

/// The nearest target in reach among the first `n` slots. Of several at the
/// same distance the one in the lowest slot is chosen.
pub open spec fn nearest_among(w: WorldView, player: Position, n: int) -> Option<int>
    decreases n,
{
    if n <= 0 {
        None
    } else {
        let before = nearest_among(w, player, n - 1);
        if in_reach(w, player, n - 1) && (before matches Some(b) ==> distance_to(w, player, n - 1)
            < distance_to(w, player, b)) {
            Some(n - 1)
        } else {
            before
        }
    }
}

/// The player's target: the nearest object in reach, if any.
pub open spec fn nearest(w: WorldView, player: Position) -> Option<Entity> {
    match nearest_among(w, player, w.len() as int) {
        Some(i) => Some(Entity(i as usize)),
        None => None,
    }
}

/// What `nearest_among` finds is in reach and no farther than anything else
/// in reach, and among those equally near it has the lowest slot; it finds
/// nothing only if nothing is in reach.
pub proof fn lemma_nearest_among(w: WorldView, player: Position, n: int)
    requires
        n <= w.len(),
    ensures
        match nearest_among(w, player, n) {
            Some(i) => {
                &&& 0 <= i < n
                &&& in_reach(w, player, i)
                &&& forall|j: int|
                    0 <= j < n && in_reach(w, player, j) ==> distance_to(w, player, i)
                        < distance_to(w, player, j) || (distance_to(w, player, i) == distance_to(
                        w,
                        player,
                        j,
                    ) && i <= j)
            },
            None => forall|j: int| 0 <= j < n ==> !in_reach(w, player, j),
        },
    decreases n,
{
    if n > 0 {
        lemma_nearest_among(w, player, n - 1);
    }
}

/// Whether slot `i` holds the player's target: it is in reach, nothing in
/// reach is nearer, and nothing equally near sits in a lower slot.
pub open spec fn is_nearest(w: WorldView, player: Position, i: int) -> bool {
    &&& in_reach(w, player, i)
    &&& forall|j: int|
        in_reach(w, player, j) ==> distance_to(w, player, i) < distance_to(w, player, j) || (
        distance_to(w, player, i) == distance_to(w, player, j) && i <= j)
}

/// `nearest` names the slot that holds the player's target, and names
/// nothing exactly if nothing is in reach.
pub proof fn lemma_nearest(w: WorldView, player: Position)
    requires
        w.len() <= usize::MAX,
    ensures
        match nearest(w, player) {
            Some(e) => is_nearest(w, player, e.0 as int),
            None => forall|j: int| !in_reach(w, player, j),
        },
{
    lemma_nearest_among(w, player, w.len() as int);
}

/// Finds the player's target: the nearest object that can be interacted
/// with and whose reach covers the player's position. Of several equally
/// near, the one in the lowest slot.
pub fn nearest_interactable(world: &World, player: Position) -> (r: Option<Entity>)
    ensures
        r == nearest(world@, player),
        match r {
            Some(e) => is_nearest(world@, player, e.0 as int),
            None => forall|j: int| !in_reach(world@, player, j),
        },
{
    proof {
        assert(world@.len() == world.slots.len());
        lemma_nearest(world@, player);
    }
    let mut best: Option<usize> = None;
    let mut best_distance: u128 = 0;
    let mut i: usize = 0;
    while i < world.slots.len()
        invariant
            i <= world.slots.len(),
            world@.len() == world.slots.len(),
            match best {
                Some(b) => nearest_among(world@, player, i as int) == Some(b as int) && b < i
                    && world@[b as int] is Some && best_distance == distance_to(
                    world@,
                    player,
                    b as int,
                ),
                None => nearest_among(world@, player, i as int) is None,
            },
        decreases world.slots.len() - i,
    {
        match &world.slots[i] {
            Some(object) => {
                match &object.interactable {
                    Some(target) => {
                        let radius: u32 = match target.interaction_radius {
                            Some(r) => r,
                            None => DEFAULT_INTERACTION_RADIUS,
                        };
                        if is_within(player, object.position, radius) {
                            let d: u128 = squared_distance(player, object.position);
                            if best.is_none() || d < best_distance {
                                best = Some(i);
                                best_distance = d;
                            }
                        }
                    },
                    None => {},
                }
            },
            None => {},
        }
        i += 1;
    }
    match best {
        Some(b) => Some(Entity(b)),
        None => None,
    }
}

/// The world with the nearest-target marker on `target` and on nothing
/// else.
pub open spec fn marked(w: WorldView, target: Option<Entity>) -> WorldView {
    Seq::new(
        w.len(),
        |i: int|
            match w[i] {
                Some(o) => Some(
                    ObjectView {
                        nearby: if target == Some(Entity(i as usize)) {
                            Some(NearbyInteractable)
                        } else {
                            None
                        },
                        ..o
                    },
                ),
                None => None,
            },
    )
}

/// However the markers stood before, after marking at most one object
/// carries one.
pub proof fn lemma_marked_at_most_one(w: WorldView, target: Option<Entity>)
    requires
        w.len() <= usize::MAX,
    ensures
        at_most_one_marked(marked(w, target)),
        forall|i: int| is_marked(marked(w, target), i) ==> target == Some(Entity(i as usize)),
{
}

/// Sets the marker on `target` and clears it everywhere else.
pub fn mark_nearest(world: &mut World, target: Option<Entity>)
    ensures
        final(world)@ == marked(old(world)@, target),
{
    let mut i: usize = 0;
    while i < world.slots.len()
        invariant
            i <= world.slots.len(),
            world.slots.len() == old(world).slots.len(),
            forall|j: int| 0 <= j < i ==> world@[j] == marked(old(world)@, target)[j],
            forall|j: int| i <= j < world.slots.len() ==> world@[j] == old(world)@[j],
        decreases world.slots.len() - i,
    {
        let ghost before = world@;
        let here = match target {
            Some(e) => e.0 == i,
            None => false,
        };
        match &mut world.slots[i] {
            Some(object) => {
                object.nearby = if here {
                    Some(NearbyInteractable)
                } else {
                    None
                };
            },
            None => {},
        }
        assert forall|j: int| 0 <= j < i + 1 implies world@[j] == marked(old(world)@, target)[j] by {
            if j != i {
                assert(world@[j] == before[j]);
            }
        }
        i += 1;
    }
}

/// The world and the player after the proximity scan: the marker sits on
/// the player's target alone, and the indicator shows exactly when there is
/// a target. Without a player nothing is marked.
pub open spec fn detected(w: WorldView, avatar: Option<Avatar>) -> (WorldView, Option<Avatar>) {
    match avatar {
        Some(a) => {
            let target = nearest(w, a.position);
            (marked(w, target), Some(a.with_indicator(target is Some)))
        },
        None => (marked(w, None), None),
    }
}

/// The proximity scan. Clears the marker of the frame before, finds the
/// player's target anew, marks it, and shows the indicator exactly when
/// there is one.
pub fn check_nearby_interactables(world: &mut World, avatar: &mut Option<Avatar>)
    ensures
        (final(world)@, *final(avatar)) == detected(old(world)@, *old(avatar)),
        at_most_one_marked(final(world)@),
{
    let target = match avatar {
        Some(a) => {
            let target = nearest_interactable(world, a.position);
            a.indicator.visible = target.is_some();
            target
        },
        None => None,
    };
    mark_nearest(world, target);
    proof {
        assert(old(world)@.len() == old(world).slots.len());
        lemma_marked_at_most_one(old(world)@, target);
    }
}

/// The test that keeps every action but the two light switches.
pub open spec fn not_light_toggle() -> spec_fn(ActionView) -> bool {
    |a: ActionView| !a.is_light_toggle()
}

/// The test that keeps every action but opening and closing.
pub open spec fn not_door_toggle() -> spec_fn(ActionView) -> bool {
    |a: ActionView| !a.is_door_toggle()
}

/// The one switch action that fits the light's state.
pub open spec fn light_toggle_for(light: Light) -> ActionView {
    if light.is_on {
        ActionView::TurnOff
    } else {
        ActionView::TurnOn
    }
}

/// The one door action that fits the door's state.
pub open spec fn door_toggle_for(door: DoorView) -> ActionView {
    if door.is_open {
        ActionView::Close
    } else {
        ActionView::Open
    }
}

/// The actions a target offers right now. For a light, whatever switch
/// actions the base list names are dropped and the fitting one is put at the
/// end; then the same for a door. All other actions keep their order.
pub open spec fn catalog(
    base: Seq<ActionView>,
    light: Option<Light>,
    door: Option<DoorView>,
) -> Seq<ActionView> {
    let lit = match light {
        Some(l) => base.filter(not_light_toggle()).push(light_toggle_for(l)),
        None => base,
    };
    match door {
        Some(d) => lit.filter(not_door_toggle()).push(door_toggle_for(d)),
        None => lit,
    }
}

/// Copies the actions, leaving out the light switches or the door actions.
fn without_toggles(actions: &Vec<InteractionAction>, of_door: bool) -> (r: Vec<InteractionAction>)
    ensures
        r.deep_view() == actions.deep_view().filter(
            if of_door {
                not_door_toggle()
            } else {
                not_light_toggle()
            },
        ),
{
    let ghost all = actions.deep_view();
    let ghost keep = if of_door {
        not_door_toggle()
    } else {
        not_light_toggle()
    };
    let mut r: Vec<InteractionAction> = Vec::new();
    let mut i: usize = 0;
    proof {
        reveal(Seq::filter);
    }
    while i < actions.len()
        invariant
            i <= actions.len(),
            all == actions.deep_view(),
            keep == (if of_door {
                not_door_toggle()
            } else {
                not_light_toggle()
            }),
            r.deep_view() == all.take(i as int).filter(keep),
        decreases actions.len() - i,
    {
        proof {
            reveal(Seq::filter);
            let next = all.take(i + 1);
            assert(next.drop_last() =~= all.take(i as int));
        }
        let dropped = match &actions[i] {
            InteractionAction::TurnOn | InteractionAction::TurnOff => !of_door,
            InteractionAction::Open | InteractionAction::Close => of_door,
            _ => false,
        };
        if !dropped {
            r.push(actions[i].clone());
        }
        i += 1;
    }
    assert(all.take(actions.len() as int) =~= all);
    r
}

/// Builds the list of actions that a target offers right now from its base
/// list and the state of its light and door.
pub fn build_actions(
    base: &Vec<InteractionAction>,
    light: Option<Light>,
    door: Option<&Door>,
) -> (r: Vec<InteractionAction>)
    ensures
        r.deep_view() == catalog(base.deep_view(), light, door.deep_view()),
{
    let actions = match light {
        Some(l) => {
            let mut kept = without_toggles(base, false);
            let ghost before = kept.deep_view();
            if l.is_on {
                kept.push(InteractionAction::TurnOff);
            } else {
                kept.push(InteractionAction::TurnOn);
            }
            assert(kept.deep_view() =~= before.push(light_toggle_for(l)));
            kept
        },
        None => clone_actions(base),
    };
    match door {
        Some(d) => {
            let mut kept = without_toggles(&actions, true);
            let ghost before = kept.deep_view();
            if d.is_open {
                kept.push(InteractionAction::Close);
            } else {
                kept.push(InteractionAction::Open);
            }
            assert(kept.deep_view() =~= before.push(door_toggle_for(d@)));
            kept
        },
        None => actions,
    }
}

/// What pressing the interact key leads to.
#[derive(Debug, PartialEq, Eq)]
pub enum Dispatch {
    /// Nothing happens.
    Nothing,
    /// The target offers one action, which is carried out at once.
    Fire(InteractionEvent),
    /// The target offers several actions; the menu is to open.
    Menu(ContextMenuEvent),
}

/// A `Dispatch` as contracts see it.
pub enum DispatchView {
    Nothing,
    Fire(InteractionEventView),
    Menu(ContextMenuEventView),
}

impl View for Dispatch {
    type V = DispatchView;

    open spec fn view(&self) -> DispatchView {
        match self {
            Dispatch::Nothing => DispatchView::Nothing,
            Dispatch::Fire(e) => DispatchView::Fire(e@),
            Dispatch::Menu(m) => DispatchView::Menu(m@),
        }
    }
}

/// What the target in slot `e` of `w` offers, sent where it belongs: one
/// action is fired, several go to the menu, none leads to nothing.
pub open spec fn offer(w: WorldView, e: Entity) -> DispatchView
    recommends
        e.0 < w.len(),
        w[e.0 as int] matches Some(o) && o.interactable is Some,
{
    let o = w[e.0 as int].unwrap();
    let t = o.interactable.unwrap();
    let actions = catalog(t.actions, o.light, o.door);
    if actions.len() == 0 {
        DispatchView::Nothing
    } else if actions.len() == 1 {
        DispatchView::Fire(
            InteractionEventView {
                entity: e,
                action: actions[0],
                with_item_id: None,
                detailed: false,
            },
        )
    } else {
        DispatchView::Menu(ContextMenuEventView { entity: e, actions, object_name: t.name })
    }
}

/// What the interact key leads to. It is ignored while a modal is open, and
/// it needs a player with a target in reach.
pub open spec fn dispatched(
    interact_pressed: bool,
    w: WorldView,
    avatar: Option<Avatar>,
    ui: UiView,
) -> DispatchView {
    if ui.modal() || !interact_pressed {
        DispatchView::Nothing
    } else {
        match avatar {
            Some(a) => match nearest(w, a.position) {
                Some(e) => offer(w, e),
                None => DispatchView::Nothing,
            },
            None => DispatchView::Nothing,
        }
    }
}

/// Handles the interact key: finds the player's target by the rule of the
/// proximity scan, builds what it offers, and either fires the single action
/// or asks for the menu.
pub fn handle_interaction_input(
    interact_pressed: bool,
    world: &World,
    avatar: &Option<Avatar>,
    ui: &UiState,
) -> (r: Dispatch)
    ensures
        r@ == dispatched(interact_pressed, world@, *avatar, ui@),
{
    if ui.menu_open || ui.dialog_open || !interact_pressed {
        return Dispatch::Nothing;
    }
    let position = match avatar {
        Some(a) => a.position,
        None => {
            return Dispatch::Nothing;
        },
    };
    let entity = match nearest_interactable(world, position) {
        Some(e) => e,
        None => {
            return Dispatch::Nothing;
        },
    };
    proof {
        lemma_nearest_among(world@, position, world@.len() as int);
    }
    match &world.slots[entity.0] {
        Some(object) => match &object.interactable {
            Some(target) => {
                let mut actions = build_actions(&target.actions, object.light, object.door.as_ref());
                if actions.len() == 0 {
                    Dispatch::Nothing
                } else if actions.len() == 1 {
                    let action = actions.remove(0);
                    Dispatch::Fire(
                        InteractionEvent { entity, action, with_item_id: None, detailed: false },
                    )
                } else {
                    Dispatch::Menu(
                        ContextMenuEvent { entity, actions, object_name: target.name.clone() },
                    )
                }
            },
            None => Dispatch::Nothing,
        },
        None => Dispatch::Nothing,
    }
}

/// The test for the two light switches.
pub open spec fn light_toggle() -> spec_fn(ActionView) -> bool {
    |a: ActionView| a.is_light_toggle()
}

/// The test for opening and closing.
pub open spec fn door_toggle() -> spec_fn(ActionView) -> bool {
    |a: ActionView| a.is_door_toggle()
}

/// The test for the actions that are neither.
pub open spec fn plain() -> spec_fn(ActionView) -> bool {
    |a: ActionView| !a.is_light_toggle() && !a.is_door_toggle()
}

/// Filtering by `p` and then by `q` is filtering by `q`, if `q` only holds
/// where `p` does.
proof fn lemma_filter_narrower<A>(s: Seq<A>, p: spec_fn(A) -> bool, q: spec_fn(A) -> bool)
    requires
        forall|a: A| #[trigger] q(a) ==> p(a),
    ensures
        s.filter(p).filter(q) == s.filter(q),
    decreases s.len(),
{
    reveal(Seq::filter);
    if s.len() > 0 {
        lemma_filter_narrower(s.drop_last(), p, q);
        if p(s.last()) {
            s.drop_last().filter(p).lemma_filter_push(s.last(), q);
        }
    }
}

/// Filtering by `p` and then by `q` leaves nothing, if `p` and `q` never
/// hold together.
proof fn lemma_filter_disjoint<A>(s: Seq<A>, p: spec_fn(A) -> bool, q: spec_fn(A) -> bool)
    requires
        forall|a: A| !(#[trigger] p(a) && q(a)),
    ensures
        s.filter(p).filter(q) == Seq::<A>::empty(),
    decreases s.len(),
{
    reveal(Seq::filter);
    if s.len() > 0 {
        lemma_filter_disjoint(s.drop_last(), p, q);
        if p(s.last()) {
            s.drop_last().filter(p).lemma_filter_push(s.last(), q);
        }
    }
}

/// The catalog of a target with a light names exactly one light switch, the
/// one that fits the light's state.
pub proof fn law_catalog_one_light_toggle(
    base: Seq<ActionView>,
    light: Light,
    door: Option<DoorView>,
)
    ensures
        catalog(base, Some(light), door).filter(light_toggle()) == seq![light_toggle_for(light)],
{
    let kept = base.filter(not_light_toggle());
    let lit = kept.push(light_toggle_for(light));
    lemma_filter_disjoint(base, not_light_toggle(), light_toggle());
    kept.lemma_filter_push(light_toggle_for(light), light_toggle());
    match door {
        Some(d) => {
            let open = lit.filter(not_door_toggle());
            lemma_filter_narrower(lit, not_door_toggle(), light_toggle());
            open.lemma_filter_push(door_toggle_for(d), light_toggle());
        },
        None => {},
    }
}

/// The catalog of a target with a door names exactly one of opening and
/// closing, the one that fits the door's state, and names it last.
pub proof fn law_catalog_one_door_toggle(
    base: Seq<ActionView>,
    light: Option<Light>,
    door: DoorView,
)
    ensures
        catalog(base, light, Some(door)).filter(door_toggle()) == seq![door_toggle_for(door)],
        catalog(base, light, Some(door)).last() == door_toggle_for(door),
{
    let lit = match light {
        Some(l) => base.filter(not_light_toggle()).push(light_toggle_for(l)),
        None => base,
    };
    let kept = lit.filter(not_door_toggle());
    lemma_filter_disjoint(lit, not_door_toggle(), door_toggle());
    kept.lemma_filter_push(door_toggle_for(door), door_toggle());
    assert(kept.push(door_toggle_for(door)).filter(door_toggle()) =~= seq![
        door_toggle_for(door),
    ]);
}

/// The catalog names the actions that are neither light switches nor door
/// actions exactly as the base list does, in the same order.
pub proof fn law_catalog_keeps_order(
    base: Seq<ActionView>,
    light: Option<Light>,
    door: Option<DoorView>,
)
    ensures
        catalog(base, light, door).filter(plain()) == base.filter(plain()),
{
    let lit = match light {
        Some(l) => base.filter(not_light_toggle()).push(light_toggle_for(l)),
        None => base,
    };
    match light {
        Some(l) => {
            lemma_filter_narrower(base, not_light_toggle(), plain());
            base.filter(not_light_toggle()).lemma_filter_push(light_toggle_for(l), plain());
        },
        None => {},
    }
    match door {
        Some(d) => {
            lemma_filter_narrower(lit, not_door_toggle(), plain());
            lit.filter(not_door_toggle()).lemma_filter_push(door_toggle_for(d), plain());
        },
        None => {},
    }
}

/// Marking changes no position and no reach, so it changes no target.
pub proof fn lemma_marking_keeps_nearest(
    w: WorldView,
    target: Option<Entity>,
    player: Position,
    n: int,
)
    requires
        n <= w.len(),
    ensures
        nearest_among(marked(w, target), player, n) == nearest_among(w, player, n),
    decreases n,
{
    if n > 0 {
        lemma_marking_keeps_nearest(w, target, player, n - 1);
        lemma_nearest_among(w, player, n - 1);
    }
}

/// After the proximity scan the marked object is the one that the interact
/// key will pick: an object carries the marker exactly if it is the
/// player's target.
pub proof fn law_target_is_marked(w: WorldView, avatar: Avatar)
    requires
        w.len() <= usize::MAX,
    ensures
        ({
            let scanned = detected(w, Some(avatar)).0;
            forall|i: int|
                0 <= i < scanned.len() ==> (is_marked(scanned, i) <==> nearest(
                    scanned,
                    avatar.position,
                ) == Some(Entity(i as usize)))
        }),
{
    let target = nearest(w, avatar.position);
    lemma_marking_keeps_nearest(w, target, avatar.position, w.len() as int);
    lemma_nearest_among(w, avatar.position, w.len() as int);
    lemma_marked_at_most_one(w, target);
}

} // verus!
