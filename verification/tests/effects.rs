use dissonance::effects::{apply_action, process_interactions};
use dissonance::geometry::{HalfExtent, Position};
use dissonance::interaction::{Interactable, InteractionAction, InteractionEvent};
use dissonance::inventory::{Inventory, InventoryItem};
use dissonance::objects::{Door, Entity, Light, Solid, Tint, World, WorldObject};
use dissonance::ui::LogEvent;

fn thing(name: &str) -> WorldObject {
    let mut object = WorldObject::new(Position { x: 0, y: 0 }, HalfExtent { x: 8000, y: 8000 });
    object.interactable = Some(Interactable {
        name: name.to_string(),
        actions: vec![InteractionAction::Examine],
        interaction_radius: None,
    });
    object
}

fn door(name: &str, is_open: bool, key: Option<&str>) -> WorldObject {
    let mut object = thing(name);
    object.door = Some(Door { is_open, required_key_id: key.map(|k| k.to_string()) });
    object.solid = if is_open { None } else { Some(Solid) };
    object.visible = !is_open;
    object
}

fn lamp(name: &str, is_on: bool) -> WorldObject {
    let mut object = thing(name);
    object.light = Some(Light { is_on });
    object
}

fn key_item(id: &str, name: &str) -> InventoryItem {
    InventoryItem {
        id: id.to_string(),
        name: name.to_string(),
        description: String::new(),
        icon_color: Tint::White,
    }
}

fn event(entity: usize, action: InteractionAction) -> InteractionEvent {
    InteractionEvent { entity: Entity(entity), action, with_item_id: None, detailed: false }
}

fn lines(log: &[LogEvent]) -> Vec<&str> {
    log.iter().map(|l| l.0.as_str()).collect()
}

fn run(world: &mut World, bag: &mut Inventory, events: Vec<InteractionEvent>) -> Vec<String> {
    process_interactions(&events, world, bag).into_iter().map(|l| l.0).collect()
}

#[test]
fn examine_says_two_lines_and_changes_nothing() {
    let mut world = World::new();
    world.spawn(thing("Rock"));
    let mut bag = Inventory::new(8);
    let said = run(&mut world, &mut bag, vec![event(0, InteractionAction::Examine)]);
    assert_eq!(said, vec!["* You examine the Rock.", "* It appears to be a regular Rock."]);
    assert_eq!(world.slots[0], Some(thing("Rock")));
    assert!(bag.items.is_empty());
}

#[test]
fn take_moves_the_object_into_the_bag() {
    let mut world = World::new();
    world.spawn(thing("Rock"));
    let key = world.spawn(thing("Rusty Key"));
    let mut bag = Inventory::new(8);
    let said = run(&mut world, &mut bag, vec![event(key.0, InteractionAction::Take)]);
    assert_eq!(said, vec!["* You obtained the Rusty Key!"]);
    assert_eq!(world.slots.len(), 2);
    assert_eq!(world.slots[1], None);
    assert!(!world.is_alive(key));
    assert_eq!(world.slots[0], Some(thing("Rock")));
    assert_eq!(
        bag.items,
        vec![InventoryItem {
            id: "Rusty Key".to_string(),
            name: "Rusty Key".to_string(),
            description: "A Rusty Key that you picked up.".to_string(),
            icon_color: Tint::White,
        }]
    );
}

#[test]
fn take_with_a_full_bag_fails_and_changes_nothing() {
    let mut world = World::new();
    world.spawn(thing("Rock"));
    let mut bag = Inventory::new(1);
    bag.add_item(key_item("a", "a"));
    let said = run(&mut world, &mut bag, vec![event(0, InteractionAction::Take)]);
    assert_eq!(said, vec!["* Your inventory is full!"]);
    assert_eq!(world.slots[0], Some(thing("Rock")));
    assert_eq!(bag.items, vec![key_item("a", "a")]);
}

#[test]
fn use_talk_and_refuel_only_talk() {
    let mut world = World::new();
    world.spawn(thing("Generator"));
    let mut bag = Inventory::new(8);
    let said = run(
        &mut world,
        &mut bag,
        vec![
            event(0, InteractionAction::Use),
            event(0, InteractionAction::Talk),
            event(0, InteractionAction::Refuel),
        ],
    );
    assert_eq!(
        said,
        vec![
            "* You use the Generator.",
            "* Nothing happens.",
            "* You speak to the Generator.",
            "* ...",
            "* It doesn't respond.",
            "* You search for fuel to add to the Generator.",
            "* You don't have any fuel.",
        ]
    );
    assert_eq!(world.slots[0], Some(thing("Generator")));
    assert!(bag.items.is_empty());
}

#[test]
fn an_unlocked_door_swings_open() {
    let mut world = World::new();
    world.spawn(door("Hatch", false, None));
    let mut bag = Inventory::new(8);
    bag.add_item(key_item("Rusty Key", "Rusty Key"));
    let said = run(&mut world, &mut bag, vec![event(0, InteractionAction::Open)]);
    assert_eq!(said, vec!["* You open the Hatch.", "* It swings open."]);
    let hatch = world.slots[0].as_ref().unwrap();
    assert_eq!(hatch.door, Some(Door { is_open: true, required_key_id: None }));
    assert_eq!(hatch.solid, None);
    assert!(!hatch.visible);
    assert_eq!(hatch.tint, Some(Tint::DoorOpen));
    assert_eq!(bag.items.len(), 1);
}

#[test]
fn a_locked_door_without_the_key_stays_shut() {
    let mut world = World::new();
    world.spawn(door("Metal Door", false, Some("Rusty Key")));
    let mut bag = Inventory::new(8);
    bag.add_item(key_item("Other Key", "Rusty Key"));
    let said = run(&mut world, &mut bag, vec![event(0, InteractionAction::Open)]);
    assert_eq!(said, vec!["* The Metal Door is locked.", "* You need a matching key."]);
    assert_eq!(world.slots[0], Some(door("Metal Door", false, Some("Rusty Key"))));
    assert_eq!(bag.items, vec![key_item("Other Key", "Rusty Key")]);
}

#[test]
fn a_locked_door_uses_up_exactly_one_key() {
    let mut world = World::new();
    world.spawn(door("Metal Door", false, Some("Rusty Key")));
    let mut bag = Inventory::new(8);
    bag.add_item(key_item("Coin", "Coin"));
    bag.add_item(key_item("Rusty Key", "first"));
    bag.add_item(key_item("Rusty Key", "second"));
    let said = run(&mut world, &mut bag, vec![event(0, InteractionAction::Open)]);
    assert_eq!(said, vec!["* You open the Metal Door.", "* The lock clicks open."]);
    assert_eq!(bag.items, vec![key_item("Coin", "Coin"), key_item("Rusty Key", "second")]);
    let hatch = world.slots[0].as_ref().unwrap();
    assert_eq!(hatch.door, Some(Door { is_open: true, required_key_id: None }));
    assert_eq!(hatch.solid, None);
}

#[test]
fn opening_twice_says_already_open_and_uses_no_second_key() {
    let mut world = World::new();
    world.spawn(door("Metal Door", false, Some("Rusty Key")));
    let mut bag = Inventory::new(8);
    bag.add_item(key_item("Rusty Key", "first"));
    bag.add_item(key_item("Rusty Key", "second"));
    run(&mut world, &mut bag, vec![event(0, InteractionAction::Open)]);
    let after_first = format!("{:?}", world.slots[0]);
    let said = run(&mut world, &mut bag, vec![event(0, InteractionAction::Open)]);
    assert_eq!(said, vec!["* The Metal Door is already open."]);
    assert_eq!(format!("{:?}", world.slots[0]), after_first);
    assert_eq!(bag.items, vec![key_item("Rusty Key", "second")]);
}

#[test]
fn an_open_door_asks_for_no_key_even_with_an_empty_bag() {
    let mut world = World::new();
    world.spawn(door("Metal Door", true, Some("Rusty Key")));
    let mut bag = Inventory::new(8);
    let said = run(&mut world, &mut bag, vec![event(0, InteractionAction::Open)]);
    assert_eq!(said, vec!["* The Metal Door is already open."]);
    assert_eq!(world.slots[0], Some(door("Metal Door", true, Some("Rusty Key"))));
}

#[test]
fn a_door_that_was_unlocked_never_asks_for_its_key_again() {
    let mut world = World::new();
    world.spawn(door("Metal Door", false, Some("Rusty Key")));
    let mut bag = Inventory::new(8);
    bag.add_item(key_item("Rusty Key", "only"));
    bag.add_item(key_item("Coin", "Coin"));
    let said = run(
        &mut world,
        &mut bag,
        vec![event(0, InteractionAction::Open), event(0, InteractionAction::Close)],
    );
    assert_eq!(
        said,
        vec![
            "* You open the Metal Door.",
            "* The lock clicks open.",
            "* You close the Metal Door.",
            "* It latches shut.",
        ]
    );
    assert_eq!(bag.items, vec![key_item("Coin", "Coin")]);
    assert!(!bag.has_item_id("Rusty Key"));
    let shut = world.slots[0].as_ref().unwrap();
    assert_eq!(shut.door, Some(Door { is_open: false, required_key_id: None }));
    assert_eq!(shut.solid, Some(Solid));

    let said = run(&mut world, &mut bag, vec![event(0, InteractionAction::Open)]);
    assert_eq!(said, vec!["* You open the Metal Door.", "* It swings open."]);
    assert_eq!(bag.items, vec![key_item("Coin", "Coin")]);
    let open = world.slots[0].as_ref().unwrap();
    assert_eq!(open.door, Some(Door { is_open: true, required_key_id: None }));
    assert_eq!(open.solid, None);
    assert!(!open.visible);
    assert_eq!(open.tint, Some(Tint::DoorOpen));
}

#[test]
fn a_door_that_stayed_locked_keeps_asking_for_its_key() {
    let mut world = World::new();
    world.spawn(door("Metal Door", false, Some("Rusty Key")));
    let mut bag = Inventory::new(8);
    let said = run(
        &mut world,
        &mut bag,
        vec![event(0, InteractionAction::Open), event(0, InteractionAction::Open)],
    );
    assert_eq!(
        said,
        vec![
            "* The Metal Door is locked.",
            "* You need a matching key.",
            "* The Metal Door is locked.",
            "* You need a matching key.",
        ]
    );
    assert_eq!(world.slots[0], Some(door("Metal Door", false, Some("Rusty Key"))));
    bag.add_item(key_item("Rusty Key", "found"));
    let said = run(&mut world, &mut bag, vec![event(0, InteractionAction::Open)]);
    assert_eq!(said, vec!["* You open the Metal Door.", "* The lock clicks open."]);
    assert!(bag.items.is_empty());
}

#[test]
fn opening_what_is_no_door_finds_it_empty() {
    let mut world = World::new();
    world.spawn(thing("Wooden Chest"));
    let mut bag = Inventory::new(8);
    let said = run(&mut world, &mut bag, vec![event(0, InteractionAction::Open)]);
    assert_eq!(said, vec!["* You open the Wooden Chest.", "* It's empty inside."]);
    assert_eq!(world.slots[0], Some(thing("Wooden Chest")));
}

#[test]
fn open_then_close_restores_the_closed_blocking_door() {
    let mut world = World::new();
    world.spawn(door("Hatch", false, None));
    let mut bag = Inventory::new(8);
    let said = run(
        &mut world,
        &mut bag,
        vec![event(0, InteractionAction::Open), event(0, InteractionAction::Close)],
    );
    assert_eq!(
        said,
        vec![
            "* You open the Hatch.",
            "* It swings open.",
            "* You close the Hatch.",
            "* It latches shut.",
        ]
    );
    let hatch = world.slots[0].as_ref().unwrap();
    assert_eq!(hatch.door, Some(Door { is_open: false, required_key_id: None }));
    assert_eq!(hatch.solid, Some(Solid));
    assert!(hatch.visible);
    assert_eq!(hatch.tint, Some(Tint::DoorClosed));
    let mut expected = door("Hatch", false, None);
    expected.tint = Some(Tint::DoorClosed);
    assert_eq!(world.slots[0], Some(expected));
}

#[test]
fn closing_a_closed_door_only_says_so() {
    let mut world = World::new();
    world.spawn(door("Hatch", false, None));
    let mut bag = Inventory::new(8);
    let said = run(&mut world, &mut bag, vec![event(0, InteractionAction::Close)]);
    assert_eq!(said, vec!["* The Hatch is already closed."]);
    assert_eq!(world.slots[0], Some(door("Hatch", false, None)));
}

#[test]
fn closing_what_is_no_door_says_one_line() {
    let mut world = World::new();
    world.spawn(thing("Wooden Chest"));
    let mut bag = Inventory::new(8);
    let said = run(&mut world, &mut bag, vec![event(0, InteractionAction::Close)]);
    assert_eq!(said, vec!["* You close the Wooden Chest."]);
    assert_eq!(world.slots[0], Some(thing("Wooden Chest")));
}

#[test]
fn turning_on_a_dark_lamp_lights_it() {
    let mut world = World::new();
    world.spawn(lamp("Old Lamp", false));
    let mut bag = Inventory::new(8);
    let said = run(&mut world, &mut bag, vec![event(0, InteractionAction::TurnOn)]);
    assert_eq!(said, vec!["* You flip the switch on the Old Lamp.", "* It hums to life."]);
    let got = world.slots[0].as_ref().unwrap();
    assert_eq!(got.light, Some(Light { is_on: true }));
    assert_eq!(got.tint, Some(Tint::LampLit));
}

#[test]
fn turning_on_a_lit_lamp_says_it_is_on_already() {
    let mut world = World::new();
    world.spawn(lamp("Old Lamp", true));
    let mut bag = Inventory::new(8);
    let said = run(&mut world, &mut bag, vec![event(0, InteractionAction::TurnOn)]);
    assert_eq!(said, vec!["* You flip the switch on the Old Lamp.", "* It's already on."]);
    let got = world.slots[0].as_ref().unwrap();
    assert_eq!(got.light, Some(Light { is_on: true }));
    assert_eq!(got.tint, Some(Tint::LampLit));
}

#[test]
fn turning_off_goes_dark_or_says_it_is_off_already() {
    let mut world = World::new();
    world.spawn(lamp("Old Lamp", true));
    let mut bag = Inventory::new(8);
    let said = run(
        &mut world,
        &mut bag,
        vec![event(0, InteractionAction::TurnOff), event(0, InteractionAction::TurnOff)],
    );
    assert_eq!(
        said,
        vec![
            "* You flip the switch on the Old Lamp.",
            "* It goes dark.",
            "* You flip the switch on the Old Lamp.",
            "* It's already off.",
        ]
    );
    let got = world.slots[0].as_ref().unwrap();
    assert_eq!(got.light, Some(Light { is_on: false }));
    assert_eq!(got.tint, Some(Tint::LampDark));
}

#[test]
fn a_switch_without_a_light_still_changes_the_colour() {
    let mut world = World::new();
    world.spawn(thing("Box"));
    let mut bag = Inventory::new(8);
    let said = run(&mut world, &mut bag, vec![event(0, InteractionAction::TurnOn)]);
    assert_eq!(said, vec!["* You flip the switch on the Box.", "* It hums to life."]);
    let got = world.slots[0].as_ref().unwrap();
    assert_eq!(got.light, None);
    assert_eq!(got.tint, Some(Tint::LampLit));
    let said = run(&mut world, &mut bag, vec![event(0, InteractionAction::TurnOff)]);
    assert_eq!(said, vec!["* You flip the switch on the Box.", "* It goes dark."]);
    assert_eq!(world.slots[0].as_ref().unwrap().tint, Some(Tint::LampDark));
}

#[test]
fn a_custom_action_is_said_in_lower_case() {
    let mut world = World::new();
    world.spawn(thing("Cat"));
    let mut bag = Inventory::new(8);
    let said = run(
        &mut world,
        &mut bag,
        vec![event(0, InteractionAction::Custom("Pet Gently".to_string()))],
    );
    assert_eq!(said, vec!["* You pet gently the Cat."]);
    assert_eq!(world.slots[0], Some(thing("Cat")));
}

#[test]
fn a_custom_action_loses_every_bullet() {
    let mut world = World::new();
    world.spawn(thing("Cat"));
    let mut bag = Inventory::new(8);
    let said = run(
        &mut world,
        &mut bag,
        vec![event(0, InteractionAction::Custom("SHOUT* AT* ".to_string()))],
    );
    assert_eq!(said, vec!["* You shoutat the Cat."]);
    let said = run(&mut world, &mut bag, vec![event(0, InteractionAction::Custom("** x".to_string()))]);
    assert_eq!(said, vec!["* You *x the Cat."]);
}

#[test]
fn an_event_for_a_destroyed_target_is_dropped() {
    let mut world = World::new();
    let rock = world.spawn(thing("Rock"));
    world.spawn(thing("Tree"));
    assert!(world.despawn(rock));
    assert!(!world.despawn(rock));
    let mut bag = Inventory::new(8);
    let said = run(
        &mut world,
        &mut bag,
        vec![
            event(0, InteractionAction::Take),
            event(7, InteractionAction::Examine),
            event(usize::MAX, InteractionAction::Open),
        ],
    );
    assert!(said.is_empty());
    assert!(bag.items.is_empty());
    assert_eq!(world.slots, vec![None, Some(thing("Tree"))]);
}

#[test]
fn an_event_for_something_that_cannot_be_interacted_with_is_dropped() {
    let mut world = World::new();
    let wall = WorldObject::new(Position { x: 5, y: 5 }, HalfExtent { x: 1, y: 1 });
    world.spawn(WorldObject::new(Position { x: 5, y: 5 }, HalfExtent { x: 1, y: 1 }));
    let mut bag = Inventory::new(8);
    let said = run(&mut world, &mut bag, vec![event(0, InteractionAction::Take)]);
    assert!(said.is_empty());
    assert_eq!(world.slots, vec![Some(wall)]);
    assert!(bag.items.is_empty());
}

#[test]
fn events_take_effect_in_the_order_received() {
    let mut world = World::new();
    world.spawn(thing("Rock"));
    world.spawn(thing("Tree"));
    let mut bag = Inventory::new(8);
    let said = run(
        &mut world,
        &mut bag,
        vec![
            event(1, InteractionAction::Use),
            event(0, InteractionAction::Take),
            event(0, InteractionAction::Examine),
            event(1, InteractionAction::Take),
        ],
    );
    assert_eq!(
        said,
        vec![
            "* You use the Tree.",
            "* Nothing happens.",
            "* You obtained the Rock!",
            "* You obtained the Tree!",
        ]
    );
    let ids: Vec<&str> = bag.items.iter().map(|i| i.id.as_str()).collect();
    assert_eq!(ids, vec!["Rock", "Tree"]);
    assert_eq!(world.slots, vec![None, None]);
}

#[test]
fn apply_action_tells_whether_the_object_stays() {
    let mut bag = Inventory::new(1);
    let mut rock = thing("Rock");
    let (log, stays) = apply_action(&InteractionAction::Take, &mut rock, "Rock", &mut bag);
    assert!(!stays);
    assert_eq!(lines(&log), vec!["* You obtained the Rock!"]);
    let mut tree = thing("Tree");
    let (log, stays) = apply_action(&InteractionAction::Take, &mut tree, "Tree", &mut bag);
    assert!(stays);
    assert_eq!(lines(&log), vec!["* Your inventory is full!"]);
    let (log, stays) = apply_action(&InteractionAction::Examine, &mut tree, "Tree", &mut bag);
    assert!(stays);
    assert_eq!(log.len(), 2);
}

#[test]
fn no_processing_breaks_the_rule_that_doors_block_while_closed() {
    let mut world = World::new();
    world.spawn(door("A", false, None));
    world.spawn(door("B", true, None));
    world.spawn(door("C", false, Some("k")));
    let mut bag = Inventory::new(8);
    bag.add_item(key_item("k", "k"));
    let actions = [
        InteractionAction::Open,
        InteractionAction::Close,
        InteractionAction::TurnOn,
        InteractionAction::Open,
        InteractionAction::Examine,
        InteractionAction::Close,
        InteractionAction::Open,
    ];
    for action in actions.iter() {
        for entity in 0..3 {
            run(&mut world, &mut bag, vec![event(entity, action.clone())]);
            for slot in world.slots.iter() {
                let object = slot.as_ref().unwrap();
                let door = object.door.as_ref().unwrap();
                assert_eq!(object.solid.is_some(), !door.is_open);
            }
        }
    }
}

#[test]
fn a_deed_is_told_in_one_line() {
    assert_eq!(dissonance::effects::deed_line("pet", "Cat"), "* You pet the Cat.");
    assert_eq!(dissonance::effects::deed_line("", ""), "* You  the .");
}
