//! What each action does to its target and to the bag, and what it says.

use crate::interaction::{ActionView, InteractionAction, InteractionEvent, InteractionEventView};
use crate::inventory::{
    first_with_id, lemma_first_with_id, Inventory, InventoryItem, InventoryItemView,
    InventoryView,
};
use crate::objects::{
    alive, doors_block_iff_closed, DoorView, Light, ObjectView, Solid, Tint, World, WorldObject,
    WorldView,
};
use crate::text::{concat3, lowercase, remove_all, to_lowercase, without};
use crate::ui::LogEvent;
use vstd::prelude::*;

verus! {

/// What one action leaves behind: the target (`None` once it was picked
/// up), the bag, and the lines to show, in order.
pub struct EffectView {
    pub object: Option<ObjectView>,
    pub inventory: InventoryView,
    pub lines: Seq<Seq<char>>,
}

/// The text `before`, the object's name, and `after`, in a row.
pub open spec fn about(before: Seq<char>, name: Seq<char>, after: Seq<char>) -> Seq<char> {
    before + name + after
}

/// The effect of an action that only talks.
pub open spec fn said(obj: ObjectView, inv: InventoryView, lines: Seq<Seq<char>>) -> EffectView {
    EffectView { object: Some(obj), inventory: inv, lines }
}

/// The bag item that a picked-up object named `name` becomes.
pub open spec fn picked_up(name: Seq<char>) -> InventoryItemView {
    InventoryItemView {
        id: name,
        name,
        description: about("A "@, name, " that you picked up."@),
        icon_color: Tint::White,
    }
}

/// Taking: with room in the bag the object becomes an item and leaves the
/// world; without room nothing changes.
pub open spec fn take_effect(obj: ObjectView, name: Seq<char>, inv: InventoryView) -> EffectView {
    if inv.has_room() {
        EffectView {
            object: None,
            inventory: inv.add(picked_up(name)),
            lines: seq![about("* You obtained the "@, name, "!"@)],
        }
    } else {
        said(obj, inv, seq!["* Your inventory is full!"@])
    }
}

/// Opening. A door that is already open stays as it is. A closed door opens
/// if it needs no key or the bag holds its key; the key is then used up and
/// the door is unlocked for good. An opened door stops blocking and is
/// hidden. Without the key the door stays locked. Anything that is not a
/// door turns out to be empty.
pub open spec fn open_effect(obj: ObjectView, name: Seq<char>, inv: InventoryView) -> EffectView {
    match obj.door {
        Some(door) => {
            if door.is_open {
                said(obj, inv, seq![about("* The "@, name, " is already open."@)])
            } else {
                match door.required_key_id {
                    Some(key) => {
                        if inv.has(key) {
                            EffectView {
                                object: Some(opened(obj)),
                                inventory: inv.take(key),
                                lines: seq![
                                    about("* You open the "@, name, "."@),
                                    "* The lock clicks open."@,
                                ],
                            }
                        } else {
                            said(
                                obj,
                                inv,
                                seq![
                                    about("* The "@, name, " is locked."@),
                                    "* You need a matching key."@,
                                ],
                            )
                        }
                    },
                    None => EffectView {
                        object: Some(opened(obj)),
                        inventory: inv,
                        lines: seq![about("* You open the "@, name, "."@), "* It swings open."@],
                    },
                }
            }
        },
        None => said(
            obj,
            inv,
            seq![about("* You open the "@, name, "."@), "* It's empty inside."@],
        ),
    }
}

/// A door-bearing object after its door has swung open: the door is open
/// and asks for no key any more.
pub open spec fn opened(obj: ObjectView) -> ObjectView
    recommends
        obj.door is Some,
{
    ObjectView {
        door: Some(DoorView { is_open: true, required_key_id: None }),
        solid: None,
        tint: Some(Tint::DoorOpen),
        visible: false,
        ..obj
    }
}

/// A door-bearing object after its door has been shut.
pub open spec fn closed(obj: ObjectView) -> ObjectView
    recommends
        obj.door is Some,
{
    ObjectView {
        door: Some(DoorView { is_open: false, ..obj.door.unwrap() }),
        solid: Some(Solid),
        tint: Some(Tint::DoorClosed),
        visible: true,
        ..obj
    }
}

/// Closing. An open door shuts, blocks again and is shown; a closed door
/// stays as it is. Anything that is not a door is merely closed in words.
pub open spec fn close_effect(obj: ObjectView, name: Seq<char>, inv: InventoryView) -> EffectView {
    match obj.door {
        Some(door) => {
            if !door.is_open {
                said(obj, inv, seq![about("* The "@, name, " is already closed."@)])
            } else {
                EffectView {
                    object: Some(closed(obj)),
                    inventory: inv,
                    lines: seq![about("* You close the "@, name, "."@), "* It latches shut."@],
                }
            }
        },
        None => said(obj, inv, seq![about("* You close the "@, name, "."@)]),
    }
}

/// An object after its switch has been flipped to `on`: its light, if it
/// has one, follows, and it takes the matching colour whether or not it has
/// a light.
pub open spec fn switched(obj: ObjectView, on: bool) -> ObjectView {
    ObjectView {
        light: match obj.light {
            Some(_) => Some(Light { is_on: on }),
            None => None,
        },
        tint: Some(
            if on {
                Tint::LampLit
            } else {
                Tint::LampDark
            },
        ),
        ..obj
    }
}

/// Switching on. The second line tells whether the light was on already.
pub open spec fn turn_on_effect(obj: ObjectView, name: Seq<char>, inv: InventoryView) -> EffectView {
    EffectView {
        object: Some(switched(obj, true)),
        inventory: inv,
        lines: seq![
            about("* You flip the switch on the "@, name, "."@),
            if obj.light matches Some(l) && l.is_on {
                "* It's already on."@
            } else {
                "* It hums to life."@
            },
        ],
    }
}

/// Switching off. The second line tells whether the light was off already.
pub open spec fn turn_off_effect(obj: ObjectView, name: Seq<char>, inv: InventoryView) -> EffectView {
    EffectView {
        object: Some(switched(obj, false)),
        inventory: inv,
        lines: seq![
            about("* You flip the switch on the "@, name, "."@),
            if obj.light matches Some(l) && !l.is_on {
                "* It's already off."@
            } else {
                "* It goes dark."@
            },
        ],
    }
}

/// The line that says that the player did `verb` to the object.
pub open spec fn deed(verb: Seq<char>, name: Seq<char>) -> Seq<char> {
    "* You "@ + verb + " the "@ + name + "."@
}

/// The one line for an action without a rule of its own: its label, without
/// the bullet and in lower case, done to the object.
pub open spec fn custom_line(action: ActionView, name: Seq<char>) -> Seq<char> {
    deed(lowercase(without(action.label(), "* "@)), name)
}

/// The effect of `action` on an object named `name`, with the bag `inv`.
pub open spec fn effect_of(
    action: ActionView,
    obj: ObjectView,
    name: Seq<char>,
    inv: InventoryView,
) -> EffectView {
    match action {
        ActionView::Examine => said(
            obj,
            inv,
            seq![
                about("* You examine the "@, name, "."@),
                about("* It appears to be a regular "@, name, "."@),
            ],
        ),
        ActionView::Take => take_effect(obj, name, inv),
        ActionView::Use => said(
            obj,
            inv,
            seq![about("* You use the "@, name, "."@), "* Nothing happens."@],
        ),
        ActionView::Talk => said(
            obj,
            inv,
            seq![about("* You speak to the "@, name, "."@), "* ..."@, "* It doesn't respond."@],
        ),
        ActionView::Open => open_effect(obj, name, inv),
        ActionView::TurnOn => turn_on_effect(obj, name, inv),
        ActionView::Close => close_effect(obj, name, inv),
        ActionView::TurnOff => turn_off_effect(obj, name, inv),
        ActionView::Refuel => said(
            obj,
            inv,
            seq![
                about("* You search for fuel to add to the "@, name, "."@),
                "* You don't have any fuel."@,
            ],
        ),
        ActionView::Custom(_) => said(obj, inv, seq![custom_line(action, name)]),
    }
}

/// The state the effect processor works on, and the lines it has emitted.
pub struct Outcome {
    pub world: WorldView,
    pub inventory: InventoryView,
    pub lines: Seq<Seq<char>>,
}

/// The target of an event, if it is alive and can be interacted with.
pub open spec fn target_of(w: WorldView, ev: InteractionEventView) -> Option<ObjectView> {
    if alive(w, ev.entity) && w[ev.entity.0 as int].unwrap().interactable is Some {
        w[ev.entity.0 as int]
    } else {
        None
    }
}

/// One event applied after what came before. An event whose target is gone,
/// or cannot be interacted with, is dropped without a word.
pub open spec fn apply_event(before: Outcome, ev: InteractionEventView) -> Outcome {
    match target_of(before.world, ev) {
        Some(obj) => {
            let e = effect_of(ev.action, obj, obj.interactable.unwrap().name, before.inventory);
            Outcome {
                world: before.world.update(ev.entity.0 as int, e.object),
                inventory: e.inventory,
                lines: before.lines + e.lines,
            }
        },
        None => before,
    }
}

/// The events applied first to last.
pub open spec fn apply_events(start: Outcome, events: Seq<InteractionEventView>) -> Outcome
    decreases events.len(),
{
    if events.len() == 0 {
        start
    } else {
        apply_event(apply_events(start, events.drop_last()), events.last())
    }
}

/// What processing `events` makes of a world and a bag, starting with no
/// lines emitted.
pub open spec fn processed(
    w: WorldView,
    inv: InventoryView,
    events: Seq<InteractionEventView>,
) -> Outcome {
    apply_events(Outcome { world: w, inventory: inv, lines: Seq::empty() }, events)
}

fn say1(l1: String) -> (log: Vec<LogEvent>)
    ensures
        log.deep_view() == seq![l1@],
{
    let mut log: Vec<LogEvent> = Vec::new();
    log.push(LogEvent(l1));
    log
}

fn say2(l1: String, l2: String) -> (log: Vec<LogEvent>)
    ensures
        log.deep_view() == seq![l1@, l2@],
{
    let mut log: Vec<LogEvent> = Vec::new();
    log.push(LogEvent(l1));
    log.push(LogEvent(l2));
    log
}

fn say3(l1: String, l2: String, l3: String) -> (log: Vec<LogEvent>)
    ensures
        log.deep_view() == seq![l1@, l2@, l3@],
{
    let mut log: Vec<LogEvent> = Vec::new();
    log.push(LogEvent(l1));
    log.push(LogEvent(l2));
    log.push(LogEvent(l3));
    log
}

/// Tries to put the object into the bag. Returns the lines and whether the
/// object stays in the world.
fn take(name: &str, inventory: &mut Inventory) -> (r: (Vec<LogEvent>, bool))
    ensures
        r.1 == !old(inventory)@.has_room(),
        final(inventory)@ == (if old(inventory)@.has_room() {
            old(inventory)@.add(picked_up(name@))
        } else {
            old(inventory)@
        }),
        r.0.deep_view() == (if old(inventory)@.has_room() {
            seq![about("* You obtained the "@, name@, "!"@)]
        } else {
            seq!["* Your inventory is full!"@]
        }),
{
    let added = inventory.add_item(
        InventoryItem {
            id: String::from_str(name),
            name: String::from_str(name),
            description: concat3("A ", name, " that you picked up."),
            icon_color: Tint::White,
        },
    );
    if added {
        (say1(concat3("* You obtained the ", name, "!")), false)
    } else {
        (say1(String::from_str("* Your inventory is full!")), true)
    }
}

/// Opens the object, as `open_effect` describes.
fn open(obj: &mut WorldObject, name: &str, inventory: &mut Inventory) -> (log: Vec<LogEvent>)
    ensures
        Some(final(obj)@) == open_effect(old(obj)@, name@, old(inventory)@).object,
        final(inventory)@ == open_effect(old(obj)@, name@, old(inventory)@).inventory,
        log.deep_view() == open_effect(old(obj)@, name@, old(inventory)@).lines,
{
    match &mut obj.door {
        Some(door) => {
            if door.is_open {
                return say1(concat3("* The ", name, " is already open."));
            }
            let second = match &door.required_key_id {
                Some(key) => {
                    if !inventory.take_item_by_id(key.as_str()) {
                        return say2(
                            concat3("* The ", name, " is locked."),
                            String::from_str("* You need a matching key."),
                        );
                    }
                    String::from_str("* The lock clicks open.")
                },
                None => String::from_str("* It swings open."),
            };
            door.is_open = true;
            door.required_key_id = None;
            obj.solid = None;
            obj.tint = Some(Tint::DoorOpen);
            obj.visible = false;
            say2(concat3("* You open the ", name, "."), second)
        },
        None => say2(concat3("* You open the ", name, "."), String::from_str("* It's empty inside.")),
    }
}

/// Closes the object, as `close_effect` describes.
fn close(obj: &mut WorldObject, name: &str, inventory: &Inventory) -> (log: Vec<LogEvent>)
    ensures
        Some(final(obj)@) == close_effect(old(obj)@, name@, inventory@).object,
        log.deep_view() == close_effect(old(obj)@, name@, inventory@).lines,
{
    match &mut obj.door {
        Some(door) => {
            if !door.is_open {
                return say1(concat3("* The ", name, " is already closed."));
            }
            door.is_open = false;
            obj.solid = Some(Solid);
            obj.tint = Some(Tint::DoorClosed);
            obj.visible = true;
            say2(concat3("* You close the ", name, "."), String::from_str("* It latches shut."))
        },
        None => say1(concat3("* You close the ", name, ".")),
    }
}

/// Flips the object's switch to `on`. Returns whether its light was in that
/// state already.
fn switch(obj: &mut WorldObject, on: bool) -> (already: bool)
    ensures
        final(obj)@ == switched(old(obj)@, on),
        already == (old(obj)@.light matches Some(l) && l.is_on == on),
{
    let mut already = false;
    match &mut obj.light {
        Some(light) => {
            already = light.is_on == on;
            light.is_on = on;
        },
        None => {},
    }
    obj.tint = Some(
        if on {
            Tint::LampLit
        } else {
            Tint::LampDark
        },
    );
    already
}

/// Builds the line that says that the player did `verb` to the object.
pub fn deed_line(verb: &str, name: &str) -> (line: String)
    ensures
        line@ == deed(verb@, name@),
{
    let mut line = String::from_str("* You ");
    line.append(verb);
    line.append(" the ");
    line.append(name);
    line.append(".");
    line
}

/// The line for an action without a rule of its own.
fn custom(action: &InteractionAction, name: &str) -> (line: String)
    ensures
        line@ == custom_line(action@, name@),
{
    let label = action.to_string();
    let bare = remove_all(label.as_str(), "* ");
    let verb = to_lowercase(bare.as_str());
    deed_line(verb.as_str(), name)
}

/// Does `action` to `obj`, whose display name is `name`. Returns the lines
/// and whether the object stays in the world.
pub fn apply_action(
    action: &InteractionAction,
    obj: &mut WorldObject,
    name: &str,
    inventory: &mut Inventory,
) -> (r: (Vec<LogEvent>, bool))
    ensures
        ({
            let e = effect_of(action@, old(obj)@, name@, old(inventory)@);
            &&& r.1 == (e.object is Some)
            &&& r.1 ==> e.object == Some(final(obj)@)
            &&& !r.1 ==> final(obj)@ == old(obj)@
            &&& final(inventory)@ == e.inventory
            &&& r.0.deep_view() == e.lines
        }),
{
    match action {
        InteractionAction::Examine => (
            say2(
                concat3("* You examine the ", name, "."),
                concat3("* It appears to be a regular ", name, "."),
            ),
            true,
        ),
        InteractionAction::Take => take(name, inventory),
        InteractionAction::Use => (
            say2(concat3("* You use the ", name, "."), String::from_str("* Nothing happens.")),
            true,
        ),
        InteractionAction::Talk => (
            say3(
                concat3("* You speak to the ", name, "."),
                String::from_str("* ..."),
                String::from_str("* It doesn't respond."),
            ),
            true,
        ),
        InteractionAction::Open => (open(obj, name, inventory), true),
        InteractionAction::TurnOn => {
            let already = switch(obj, true);
            let second = if already {
                String::from_str("* It's already on.")
            } else {
                String::from_str("* It hums to life.")
            };
            (say2(concat3("* You flip the switch on the ", name, "."), second), true)
        },
        InteractionAction::Close => (close(obj, name, inventory), true),
        InteractionAction::TurnOff => {
            let already = switch(obj, false);
            let second = if already {
                String::from_str("* It's already off.")
            } else {
                String::from_str("* It goes dark.")
            };
            (say2(concat3("* You flip the switch on the ", name, "."), second), true)
        },
        InteractionAction::Refuel => (
            say2(
                concat3("* You search for fuel to add to the ", name, "."),
                String::from_str("* You don't have any fuel."),
            ),
            true,
        ),
        InteractionAction::Custom(_) => (say1(custom(action, name)), true),
    }
}

/// Applies one event and appends its lines to `log`.
fn process_one(
    event: &InteractionEvent,
    world: &mut World,
    inventory: &mut Inventory,
    log: &mut Vec<LogEvent>,
)
    ensures
        ({
            let after = apply_event(
                Outcome {
                    world: old(world)@,
                    inventory: old(inventory)@,
                    lines: old(log).deep_view(),
                },
                event@,
            );
            &&& final(world)@ == after.world
            &&& final(inventory)@ == after.inventory
            &&& final(log).deep_view() == after.lines
        }),
{
    let index: usize = event.entity.0;
    if index >= world.slots.len() {
        return ;
    }
    match world.slots[index].take() {
        Some(mut obj) => {
            let name = match &obj.interactable {
                Some(interactable) => Some(interactable.name.clone()),
                None => None,
            };
            let keep = match name {
                Some(name) => {
                    let (mut lines, keep) = apply_action(
                        &event.action,
                        &mut obj,
                        name.as_str(),
                        inventory,
                    );
                    log.append(&mut lines);
                    keep
                },
                None => true,
            };
            if keep {
                world.slots.set(index, Some(obj));
            }
            assert(world@ =~= apply_event(
                Outcome {
                    world: old(world)@,
                    inventory: old(inventory)@,
                    lines: old(log).deep_view(),
                },
                event@,
            ).world);
        },
        None => {},
    }
}

/// Applies the events in the order given: each one changes its target and
/// the bag as its action says and adds its lines to the log that is
/// returned. Events whose target is gone are dropped.
pub fn process_interactions(
    events: &Vec<InteractionEvent>,
    world: &mut World,
    inventory: &mut Inventory,
) -> (log: Vec<LogEvent>)
    ensures
        final(world)@ == processed(old(world)@, old(inventory)@, events.deep_view()).world,
        final(inventory)@ == processed(
            old(world)@,
            old(inventory)@,
            events.deep_view(),
        ).inventory,
        log.deep_view() == processed(old(world)@, old(inventory)@, events.deep_view()).lines,
{
    let mut log: Vec<LogEvent> = Vec::new();
    let ghost all = events.deep_view();
    let mut i: usize = 0;
    while i < events.len()
        invariant
            i <= events.len(),
            all == events.deep_view(),
            world@ == processed(old(world)@, old(inventory)@, all.take(i as int)).world,
            inventory@ == processed(old(world)@, old(inventory)@, all.take(i as int)).inventory,
            log.deep_view() == processed(old(world)@, old(inventory)@, all.take(i as int)).lines,
        decreases events.len() - i,
    {
        proof {
            let next = all.take(i + 1);
            assert(next.drop_last() =~= all.take(i as int));
        }
        process_one(&events[i], world, inventory, &mut log);
        i += 1;
    }
    assert(all.take(events.len() as int) =~= all);
    log
}

/// Processing a single event is applying it.
pub proof fn lemma_processed_one(w: WorldView, inv: InventoryView, ev: InteractionEventView)
    ensures
        processed(w, inv, seq![ev]) == apply_event(
            Outcome { world: w, inventory: inv, lines: Seq::empty() },
            ev,
        ),
{
    let start = Outcome { world: w, inventory: inv, lines: Seq::empty() };
    assert(apply_events(start, seq![ev].drop_last()) == start);
}

/// Processing two events is applying the first and then the second.
pub proof fn lemma_processed_two(
    w: WorldView,
    inv: InventoryView,
    first: InteractionEventView,
    second: InteractionEventView,
)
    ensures
        processed(w, inv, seq![first, second]) == apply_event(
            processed(w, inv, seq![first]),
            second,
        ),
{
    assert(seq![first, second].drop_last() =~= seq![first]);
}

/// Opening twice in a row. The second attempt changes neither the world nor
/// the bag. If the first attempt left the door open, the second only says
/// that the door is already open; if the door stayed locked, the second
/// says what the first said.
pub proof fn law_open_twice(w: WorldView, inv: InventoryView, ev: InteractionEventView)
    requires
        ev.action == ActionView::Open,
        ({
            &&& target_of(w, ev) matches Some(o)
            &&& o.door is Some
        }),
    ensures
        ({
            let name = target_of(w, ev).unwrap().interactable.unwrap().name;
            let first = processed(w, inv, seq![ev]);
            let second = processed(first.world, first.inventory, seq![ev]);
            let door = first.world[ev.entity.0 as int].unwrap().door.unwrap();
            &&& second.world == first.world
            &&& second.inventory == first.inventory
            &&& door.is_open ==> second.lines == seq![about("* The "@, name, " is already open."@)]
            &&& !door.is_open ==> second.lines == first.lines
        }),
{
    lemma_processed_one(w, inv, ev);
    let first = processed(w, inv, seq![ev]);
    lemma_processed_one(first.world, first.inventory, ev);
}

/// Opening and then closing a door that needs no key leaves it closed,
/// blocking and shown, with the bag untouched; nothing else in the world
/// changes.
pub proof fn law_open_then_close(
    w: WorldView,
    inv: InventoryView,
    open: InteractionEventView,
    close: InteractionEventView,
)
    requires
        open.action == ActionView::Open,
        close.action == ActionView::Close,
        open.entity == close.entity,
        ({
            &&& target_of(w, open) matches Some(o)
            &&& o.door matches Some(d)
            &&& d.required_key_id is None
        }),
    ensures
        ({
            let before = target_of(w, open).unwrap();
            let out = processed(w, inv, seq![open, close]);
            let after = out.world[open.entity.0 as int].unwrap();
            &&& out.world == w.update(open.entity.0 as int, Some(closed(before)))
            &&& after.door == Some(DoorView { is_open: false, required_key_id: None })
            &&& after.solid is Some
            &&& out.inventory == inv
        }),
{
    lemma_processed_one(w, inv, open);
    lemma_processed_two(w, inv, open, close);
}

/// Opening a closed door with its key in the bag opens it and uses up the
/// key: exactly one item leaves the bag, the first one with the key's id,
/// and the door asks for no key any more. Opening it again while it is open
/// only says that it is open, whatever the bag holds by then.
pub proof fn law_key_is_used_up(w: WorldView, inv: InventoryView, ev: InteractionEventView)
    requires
        ev.action == ActionView::Open,
        ({
            &&& target_of(w, ev) matches Some(o)
            &&& o.door matches Some(d)
            &&& !d.is_open
            &&& d.required_key_id matches Some(k)
            &&& inv.has(k)
        }),
    ensures
        ({
            let before = target_of(w, ev).unwrap();
            let name = before.interactable.unwrap().name;
            let key = before.door.unwrap().required_key_id.unwrap();
            let out = processed(w, inv, seq![ev]);
            &&& out.world == w.update(ev.entity.0 as int, Some(opened(before)))
            &&& out.world[ev.entity.0 as int].unwrap().door == Some(
                DoorView { is_open: true, required_key_id: None },
            )
            &&& out.lines == seq![about("* You open the "@, name, "."@), "* The lock clicks open."@]
            &&& out.inventory.items.len() == inv.items.len() - 1
            &&& exists|i: int|
                0 <= i < inv.items.len() && inv.items[i].id == key && (forall|j: int|
                    0 <= j < i ==> inv.items[j].id != key) && out.inventory.items
                    == #[trigger] inv.items.remove(i)
            &&& forall|later: InventoryView|
                #![trigger processed(out.world, later, seq![ev])]
                processed(out.world, later, seq![ev]) == (Outcome {
                    world: out.world,
                    inventory: later,
                    lines: seq![about("* The "@, name, " is already open."@)],
                })
        }),
{
    lemma_processed_one(w, inv, ev);
    let before = target_of(w, ev).unwrap();
    let name = before.interactable.unwrap().name;
    let key = before.door.unwrap().required_key_id.unwrap();
    let out = processed(w, inv, seq![ev]);
    lemma_first_with_id(inv.items, key);
    assert forall|later: InventoryView|
        #![trigger processed(out.world, later, seq![ev])]
        processed(out.world, later, seq![ev]) == (Outcome {
            world: out.world,
            inventory: later,
            lines: seq![about("* The "@, name, " is already open."@)],
        }) by {
        lemma_processed_one(out.world, later, ev);
        let again = processed(out.world, later, seq![ev]);
        assert(again.world =~= out.world);
    }
}

/// A door that was opened with its key never asks for a key again: after it
/// has been closed, opening it opens it, whatever the bag holds by then, and
/// the bag is left alone.
pub proof fn law_unlocked_for_good(
    w: WorldView,
    inv: InventoryView,
    open: InteractionEventView,
    close: InteractionEventView,
    later: InventoryView,
)
    requires
        open.action == ActionView::Open,
        close.action == ActionView::Close,
        open.entity == close.entity,
        ({
            &&& target_of(w, open) matches Some(o)
            &&& o.door matches Some(d)
            &&& !d.is_open
            &&& d.required_key_id matches Some(k)
            &&& inv.has(k)
        }),
    ensures
        ({
            let before = target_of(w, open).unwrap();
            let name = before.interactable.unwrap().name;
            let unlocked = processed(w, inv, seq![open]).world;
            let shut = processed(unlocked, later, seq![close]);
            let again = processed(shut.world, shut.inventory, seq![open]);
            &&& shut.world == w.update(open.entity.0 as int, Some(closed(opened(before))))
            &&& shut.inventory == later
            &&& again.world == unlocked
            &&& again.world[open.entity.0 as int].unwrap().door == Some(
                DoorView { is_open: true, required_key_id: None },
            )
            &&& again.world[open.entity.0 as int].unwrap().solid is None
            &&& again.inventory == later
            &&& again.lines == seq![about("* You open the "@, name, "."@), "* It swings open."@]
        }),
{
    lemma_processed_one(w, inv, open);
    let unlocked = processed(w, inv, seq![open]).world;
    lemma_processed_one(unlocked, later, close);
    let shut = processed(unlocked, later, seq![close]);
    assert(shut.world =~= w.update(
        open.entity.0 as int,
        Some(closed(opened(target_of(w, open).unwrap()))),
    ));
    lemma_processed_one(shut.world, shut.inventory, open);
    let again = processed(shut.world, shut.inventory, seq![open]);
    assert(again.world =~= unlocked);
}

/// No action breaks the rule that a door blocks exactly while it is closed.
pub proof fn lemma_effect_keeps_doors(
    action: ActionView,
    obj: ObjectView,
    name: Seq<char>,
    inv: InventoryView,
)
    requires
        obj.door_blocks_iff_closed(),
    ensures
        effect_of(action, obj, name, inv).object matches Some(after)
            ==> after.door_blocks_iff_closed(),
{
}

/// If every door of the world blocks exactly while it is closed, that is
/// still so after any events have been processed.
pub proof fn law_doors_stay_consistent(
    w: WorldView,
    inv: InventoryView,
    events: Seq<InteractionEventView>,
)
    requires
        doors_block_iff_closed(w),
    ensures
        doors_block_iff_closed(processed(w, inv, events).world),
        processed(w, inv, events).world.len() == w.len(),
    decreases events.len(),
{
    if events.len() > 0 {
        law_doors_stay_consistent(w, inv, events.drop_last());
        let before = processed(w, inv, events.drop_last());
        let ev = events.last();
        match target_of(before.world, ev) {
            Some(obj) => {
                lemma_effect_keeps_doors(
                    ev.action,
                    obj,
                    obj.interactable.unwrap().name,
                    before.inventory,
                );
            },
            None => {},
        }
    }
}

/// Events are neither skipped nor reordered: processing one batch and then
/// another is processing both in one go, and the lines of the first batch
/// come before those of the second.
pub proof fn law_processing_is_sequential(
    w: WorldView,
    inv: InventoryView,
    first: Seq<InteractionEventView>,
    second: Seq<InteractionEventView>,
)
    ensures
        ({
            let mid = processed(w, inv, first);
            let end = processed(mid.world, mid.inventory, second);
            processed(w, inv, first + second) == (Outcome {
                world: end.world,
                inventory: end.inventory,
                lines: mid.lines + end.lines,
            })
        }),
    decreases second.len(),
{
    let mid = processed(w, inv, first);
    if second.len() > 0 {
        law_processing_is_sequential(w, inv, first, second.drop_last());
        assert((first + second).drop_last() =~= first + second.drop_last());
        let before = processed(mid.world, mid.inventory, second.drop_last());
        let whole_before = processed(w, inv, first + second.drop_last());
        let step = apply_event(before, second.last());
        let whole_step = apply_event(whole_before, second.last());
        assert(whole_step.lines =~= mid.lines + step.lines);
    }
}

/// The effect processor never overfills the bag and never changes its
/// capacity or its display flag.
pub proof fn law_bag_stays_within_capacity(
    w: WorldView,
    inv: InventoryView,
    events: Seq<InteractionEventView>,
)
    requires
        inv.items.len() <= inv.max_size,
    ensures
        processed(w, inv, events).inventory.items.len() <= inv.max_size,
        processed(w, inv, events).inventory.max_size == inv.max_size,
        processed(w, inv, events).inventory.is_open == inv.is_open,
    decreases events.len(),
{
    if events.len() > 0 {
        law_bag_stays_within_capacity(w, inv, events.drop_last());
        let before = processed(w, inv, events.drop_last());
        match target_of(before.world, events.last()) {
            Some(obj) => {
                match obj.door {
                    Some(door) => match door.required_key_id {
                        Some(key) => {
                            lemma_first_with_id(before.inventory.items, key);
                        },
                        None => {},
                    },
                    None => {},
                }
            },
            None => {},
        }
    }
}

} // verus!
