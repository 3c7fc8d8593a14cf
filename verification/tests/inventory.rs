use dissonance::inventory::{toggle_inventory_display, Inventory, InventoryItem, DEFAULT_CAPACITY};
use dissonance::objects::Tint;

fn item(id: &str) -> InventoryItem {
    InventoryItem {
        id: id.to_string(),
        name: format!("the {}", id),
        description: format!("about {}", id),
        icon_color: Tint::White,
    }
}

#[test]
fn a_new_bag_is_empty_and_closed() {
    let bag = Inventory::new(3);
    assert!(bag.items.is_empty());
    assert_eq!(bag.max_size, 3);
    assert!(!bag.is_open);
}

#[test]
fn the_default_bag_holds_eight() {
    let bag = Inventory::default();
    assert_eq!(DEFAULT_CAPACITY, 8);
    assert_eq!(bag.max_size, 8);
    assert!(bag.items.is_empty());
    assert!(!bag.is_open);
}

#[test]
fn adding_up_to_capacity_succeeds_and_one_more_fails() {
    let mut bag = Inventory::new(8);
    for i in 0..8 {
        assert!(bag.add_item(item(&format!("item{}", i))));
        assert_eq!(bag.items.len(), i + 1);
    }
    let before = bag.items.clone();
    assert!(!bag.add_item(item("one too many")));
    assert_eq!(bag.items, before);
    assert_eq!(bag.max_size, 8);
    assert!(!bag.is_open);
}

#[test]
fn items_keep_the_order_in_which_they_came() {
    let mut bag = Inventory::new(4);
    bag.add_item(item("a"));
    bag.add_item(item("b"));
    bag.add_item(item("c"));
    let ids: Vec<&str> = bag.items.iter().map(|i| i.id.as_str()).collect();
    assert_eq!(ids, vec!["a", "b", "c"]);
}

#[test]
fn a_bag_without_capacity_takes_nothing() {
    let mut bag = Inventory::new(0);
    assert!(!bag.add_item(item("a")));
    assert!(bag.items.is_empty());
}

#[test]
fn remove_item_takes_the_item_at_the_index() {
    let mut bag = Inventory::new(4);
    bag.add_item(item("a"));
    bag.add_item(item("b"));
    bag.add_item(item("c"));
    assert_eq!(bag.remove_item(1), Some(item("b")));
    assert_eq!(bag.items, vec![item("a"), item("c")]);
    assert_eq!(bag.remove_item(2), None);
    assert_eq!(bag.items, vec![item("a"), item("c")]);
    assert_eq!(bag.remove_item(usize::MAX), None);
}

#[test]
fn take_item_by_id_removes_the_first_match_only() {
    let mut bag = Inventory::new(8);
    bag.add_item(item("a"));
    let mut first_key = item("key");
    first_key.name = "first".to_string();
    let mut second_key = item("key");
    second_key.name = "second".to_string();
    bag.add_item(first_key);
    bag.add_item(item("b"));
    bag.add_item(second_key.clone());
    assert!(bag.take_item_by_id("key"));
    assert_eq!(bag.items, vec![item("a"), item("b"), second_key]);
    assert!(bag.take_item_by_id("key"));
    assert_eq!(bag.items, vec![item("a"), item("b")]);
    assert!(!bag.take_item_by_id("key"));
    assert_eq!(bag.items, vec![item("a"), item("b")]);
}

#[test]
fn has_item_id_goes_by_id_not_by_name() {
    let mut bag = Inventory::new(8);
    bag.add_item(item("key"));
    assert!(bag.has_item_id("key"));
    assert!(!bag.has_item_id("the key"));
    assert!(!bag.has_item_id("Key"));
    assert!(!bag.has_item_id(""));
    assert_eq!(bag.position_of("key"), Some(0));
    assert_eq!(bag.position_of("nothing"), None);
}

#[test]
fn the_toggle_key_flips_the_display_flag() {
    let mut bag = Inventory::new(8);
    bag.add_item(item("a"));
    toggle_inventory_display(false, &mut bag);
    assert!(!bag.is_open);
    toggle_inventory_display(true, &mut bag);
    assert!(bag.is_open);
    toggle_inventory_display(false, &mut bag);
    assert!(bag.is_open);
    toggle_inventory_display(true, &mut bag);
    assert!(!bag.is_open);
    assert_eq!(bag.items, vec![item("a")]);
}

#[test]
fn cloning_an_item_keeps_it() {
    let a = item("a");
    assert_eq!(a.clone(), a);
}
