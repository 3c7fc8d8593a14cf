use dissonance::geometry::{HalfExtent, Position, UNIT};
use dissonance::interaction::{
    check_nearby_interactables, handle_interaction_input, mark_nearest, nearest_interactable,
    Dispatch, Interactable, InteractionAction, InteractionEvent, NearbyInteractable,
    DEFAULT_INTERACTION_RADIUS,
};
use dissonance::objects::{Door, Entity, Light, World, WorldObject};
use dissonance::player::{spawn_player, Avatar};
use dissonance::ui::{ContextMenuEvent, UiState};

fn target(name: &str, x: i32, y: i32, radius: Option<u32>) -> WorldObject {
    let mut object = WorldObject::new(Position { x, y }, HalfExtent { x: 6000, y: 6000 });
    object.interactable = Some(Interactable {
        name: name.to_string(),
        actions: vec![InteractionAction::Examine, InteractionAction::Take],
        interaction_radius: radius,
    });
    object
}

fn player_at(x: i32, y: i32) -> Option<Avatar> {
    let mut avatar = spawn_player();
    avatar.position = Position { x, y };
    Some(avatar)
}

fn marked(world: &World) -> Vec<usize> {
    let mut found = Vec::new();
    for (i, slot) in world.slots.iter().enumerate() {
        if let Some(object) = slot {
            if object.nearby.is_some() {
                found.push(i);
            }
        }
    }
    found
}

#[test]
fn the_default_radius_is_forty_units() {
    assert_eq!(DEFAULT_INTERACTION_RADIUS, 40_000);
    assert_eq!(UNIT, 1000);
}

#[test]
fn nothing_in_reach_gives_no_target() {
    let mut world = World::new();
    assert_eq!(nearest_interactable(&world, Position { x: 0, y: 0 }), None);
    world.spawn(target("far", 40_001, 0, None));
    world.spawn(WorldObject::new(Position { x: 0, y: 0 }, HalfExtent { x: 1, y: 1 }));
    assert_eq!(nearest_interactable(&world, Position { x: 0, y: 0 }), None);
}

#[test]
fn the_nearest_target_in_reach_wins() {
    let mut world = World::new();
    world.spawn(target("a", 30_000, 0, None));
    world.spawn(target("b", 0, -10_000, None));
    world.spawn(target("c", 20_000, 0, None));
    assert_eq!(nearest_interactable(&world, Position { x: 0, y: 0 }), Some(Entity(1)));
    assert_eq!(nearest_interactable(&world, Position { x: 40_000, y: 0 }), Some(Entity(0)));
}

#[test]
fn a_target_is_in_reach_by_its_own_radius() {
    let mut world = World::new();
    world.spawn(target("shy", 10_000, 0, Some(9_999)));
    world.spawn(target("big", 60_000, 0, Some(60_000)));
    assert_eq!(nearest_interactable(&world, Position { x: 0, y: 0 }), Some(Entity(1)));
    world.spawn(target("exact", -10_000, 0, Some(10_000)));
    assert_eq!(nearest_interactable(&world, Position { x: 0, y: 0 }), Some(Entity(2)));
}

#[test]
fn of_two_equally_near_the_earlier_one_wins() {
    let mut world = World::new();
    world.spawn(target("east", 3_000, 4_000, None));
    world.spawn(target("west", -5_000, 0, None));
    world.spawn(target("north", 0, 5_000, None));
    assert_eq!(nearest_interactable(&world, Position { x: 0, y: 0 }), Some(Entity(0)));
}

#[test]
fn destroyed_objects_are_never_targets() {
    let mut world = World::new();
    let near = world.spawn(target("near", 1_000, 0, None));
    world.spawn(target("next", 2_000, 0, None));
    world.despawn(near);
    assert_eq!(nearest_interactable(&world, Position { x: 0, y: 0 }), Some(Entity(1)));
}

#[test]
fn the_scan_marks_the_target_alone_and_shows_the_indicator() {
    let mut world = World::new();
    let mut stale = target("stale", 900_000, 0, None);
    stale.nearby = Some(NearbyInteractable);
    world.spawn(stale);
    let mut also_stale = target("near", 5_000, 0, None);
    also_stale.nearby = Some(NearbyInteractable);
    world.spawn(also_stale);
    world.spawn(target("nearer", 0, 2_000, None));
    let mut avatar = player_at(0, 0);
    check_nearby_interactables(&mut world, &mut avatar);
    assert_eq!(marked(&world), vec![2]);
    assert!(avatar.unwrap().indicator.visible);
    assert_eq!(avatar.unwrap().position, Position { x: 0, y: 0 });
}

#[test]
fn the_scan_clears_the_marker_when_the_player_walks_away() {
    let mut world = World::new();
    world.spawn(target("key", 0, 0, Some(35_000)));
    let mut avatar = player_at(35_000, 0);
    check_nearby_interactables(&mut world, &mut avatar);
    assert_eq!(marked(&world), vec![0]);
    assert!(avatar.unwrap().indicator.visible);
    avatar = player_at(35_001, 0);
    check_nearby_interactables(&mut world, &mut avatar);
    assert_eq!(marked(&world), Vec::<usize>::new());
    assert!(!avatar.unwrap().indicator.visible);
}

#[test]
fn without_a_player_nothing_is_marked() {
    let mut world = World::new();
    let mut stale = target("stale", 0, 0, None);
    stale.nearby = Some(NearbyInteractable);
    world.spawn(stale);
    let mut avatar = None;
    check_nearby_interactables(&mut world, &mut avatar);
    assert_eq!(marked(&world), Vec::<usize>::new());
    assert_eq!(avatar, None);
}

#[test]
fn marking_touches_nothing_but_the_marker() {
    let mut world = World::new();
    world.spawn(target("a", 1, 2, Some(3)));
    world.spawn(target("b", 4, 5, None));
    mark_nearest(&mut world, Some(Entity(1)));
    let mut expected = target("b", 4, 5, None);
    expected.nearby = Some(NearbyInteractable);
    assert_eq!(world.slots, vec![Some(target("a", 1, 2, Some(3))), Some(expected)]);
    mark_nearest(&mut world, Some(Entity(9)));
    assert_eq!(marked(&world), Vec::<usize>::new());
}

#[test]
fn the_interact_key_is_ignored_while_a_modal_is_open() {
    let mut world = World::new();
    world.spawn(target("key", 0, 0, None));
    let avatar = player_at(0, 0);
    let mut ui = UiState::default();
    ui.menu_open = true;
    assert_eq!(handle_interaction_input(true, &world, &avatar, &ui), Dispatch::Nothing);
    ui.menu_open = false;
    ui.dialog_open = true;
    assert_eq!(handle_interaction_input(true, &world, &avatar, &ui), Dispatch::Nothing);
}

#[test]
fn without_the_key_press_nothing_is_dispatched() {
    let mut world = World::new();
    world.spawn(target("key", 0, 0, None));
    let ui = UiState::default();
    assert_eq!(handle_interaction_input(false, &world, &player_at(0, 0), &ui), Dispatch::Nothing);
    assert_eq!(handle_interaction_input(true, &world, &None, &ui), Dispatch::Nothing);
    assert_eq!(
        handle_interaction_input(true, &world, &player_at(50_000, 0), &ui),
        Dispatch::Nothing
    );
}

#[test]
fn several_actions_ask_for_the_menu() {
    let mut world = World::new();
    world.spawn(target("far", 30_000, 0, None));
    world.spawn(target("Rusty Key", 10_000, 0, Some(35_000)));
    let ui = UiState::default();
    assert_eq!(
        handle_interaction_input(true, &world, &player_at(0, 0), &ui),
        Dispatch::Menu(ContextMenuEvent {
            entity: Entity(1),
            actions: vec![InteractionAction::Examine, InteractionAction::Take],
            object_name: "Rusty Key".to_string(),
        })
    );
}

#[test]
fn a_single_action_is_fired_at_once() {
    let mut world = World::new();
    let mut sign = target("Sign", 0, 0, None);
    sign.interactable.as_mut().unwrap().actions = vec![InteractionAction::Talk];
    world.spawn(sign);
    let ui = UiState::default();
    assert_eq!(
        handle_interaction_input(true, &world, &player_at(0, 0), &ui),
        Dispatch::Fire(InteractionEvent {
            entity: Entity(0),
            action: InteractionAction::Talk,
            with_item_id: None,
            detailed: false,
        })
    );
}

#[test]
fn a_switch_that_is_the_only_action_is_fired_in_its_current_form() {
    let mut world = World::new();
    let mut lamp = target("Lamp", 0, 0, None);
    lamp.interactable.as_mut().unwrap().actions = vec![InteractionAction::TurnOn];
    lamp.light = Some(Light { is_on: true });
    world.spawn(lamp);
    let ui = UiState::default();
    assert_eq!(
        handle_interaction_input(true, &world, &player_at(0, 0), &ui),
        Dispatch::Fire(InteractionEvent {
            entity: Entity(0),
            action: InteractionAction::TurnOff,
            with_item_id: None,
            detailed: false,
        })
    );
}

#[test]
fn the_menu_request_carries_the_state_dependent_actions() {
    let mut world = World::new();
    let mut door = target("Metal Door", 0, 0, None);
    door.interactable.as_mut().unwrap().actions =
        vec![InteractionAction::Examine, InteractionAction::Open];
    door.door = Some(Door { is_open: true, required_key_id: None });
    world.spawn(door);
    let ui = UiState::default();
    assert_eq!(
        handle_interaction_input(true, &world, &player_at(0, 0), &ui),
        Dispatch::Menu(ContextMenuEvent {
            entity: Entity(0),
            actions: vec![InteractionAction::Examine, InteractionAction::Close],
            object_name: "Metal Door".to_string(),
        })
    );
}

#[test]
fn a_target_that_offers_nothing_leads_to_nothing() {
    let mut world = World::new();
    let mut mute = target("Mute", 0, 0, None);
    mute.interactable.as_mut().unwrap().actions = Vec::new();
    world.spawn(mute);
    let ui = UiState::default();
    assert_eq!(handle_interaction_input(true, &world, &player_at(0, 0), &ui), Dispatch::Nothing);
}

#[test]
fn the_dispatcher_picks_the_marked_object() {
    let mut world = World::new();
    world.spawn(target("a", 12_000, 5_000, None));
    world.spawn(target("b", -3_000, 9_000, None));
    world.spawn(target("c", 9_000, -3_000, None));
    let mut avatar = player_at(1_000, 1_000);
    check_nearby_interactables(&mut world, &mut avatar);
    let picked = match handle_interaction_input(true, &world, &avatar, &UiState::default()) {
        Dispatch::Menu(request) => request.entity.0,
        other => panic!("expected a menu request, got {:?}", other),
    };
    assert_eq!(marked(&world), vec![picked]);
}
