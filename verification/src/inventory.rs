//! The player's bounded bag of items.

use crate::objects::Tint;
use vstd::prelude::*;

verus! {

/// The capacity of the bag the game starts with.
pub const DEFAULT_CAPACITY: usize = 8;

/// One carried item. Items are told apart by `id`.
#[derive(Debug, PartialEq, Eq)]
pub struct InventoryItem {
    pub id: String,
    pub name: String,
    pub description: String,
    pub icon_color: Tint,
}

/// An `InventoryItem` as contracts see it.
pub struct InventoryItemView {
    pub id: Seq<char>,
    pub name: Seq<char>,
    pub description: Seq<char>,
    pub icon_color: Tint,
}

impl View for InventoryItem {
    type V = InventoryItemView;

    open spec fn view(&self) -> InventoryItemView {
        InventoryItemView {
            id: self.id@,
            name: self.name@,
            description: self.description@,
            icon_color: self.icon_color,
        }
    }
}

impl DeepView for InventoryItem {
    type V = InventoryItemView;

    open spec fn deep_view(&self) -> InventoryItemView {
        self@
    }
}

impl Clone for InventoryItem {
    fn clone(&self) -> (r: Self)
        ensures
            r == *self,
    {
        InventoryItem {
            id: self.id.clone(),
            name: self.name.clone(),
            description: self.description.clone(),
            icon_color: self.icon_color,
        }
    }
}

/// The index of the first item whose id is `id`, if there is one.
pub open spec fn first_with_id(items: Seq<InventoryItemView>, id: Seq<char>) -> Option<int>
    decreases items.len(),
{
    if items.len() == 0 {
        None
    } else {
        match first_with_id(items.drop_last(), id) {
            Some(i) => Some(i),
            None => if items.last().id == id {
                Some(items.len() - 1)
            } else {
                None
            },
        }
    }
}

/// `first_with_id` finds an index exactly when some item has the id, and
/// then it is the least such index.
pub proof fn lemma_first_with_id(items: Seq<InventoryItemView>, id: Seq<char>)
    ensures
        match first_with_id(items, id) {
            Some(i) => {
                &&& 0 <= i < items.len()
                &&& items[i].id == id
                &&& forall|j: int| 0 <= j < i ==> items[j].id != id
            },
            None => forall|j: int| 0 <= j < items.len() ==> items[j].id != id,
        },
    decreases items.len(),
{
    if items.len() > 0 {
        let front = items.drop_last();
        lemma_first_with_id(front, id);
        assert(forall|j: int| 0 <= j < front.len() ==> front[j] == items[j]);
    }
}

/// The bag: items in the order they were picked up, at most `max_size` of
/// them once it is only filled through `add_item`.
#[derive(Debug, PartialEq, Eq)]
pub struct Inventory {
    pub items: Vec<InventoryItem>,
    pub max_size: usize,
    pub is_open: bool,
}

/// An `Inventory` as contracts see it.
pub struct InventoryView {
    pub items: Seq<InventoryItemView>,
    pub max_size: usize,
    pub is_open: bool,
}

impl View for Inventory {
    type V = InventoryView;

    open spec fn view(&self) -> InventoryView {
        InventoryView {
            items: self.items.deep_view(),
            max_size: self.max_size,
            is_open: self.is_open,
        }
    }
}

impl DeepView for Inventory {
    type V = InventoryView;

    open spec fn deep_view(&self) -> InventoryView {
        self@
    }
}

impl InventoryView {
    /// Whether there is room for one more item.
    pub open spec fn has_room(self) -> bool {
        self.items.len() < self.max_size
    }

    /// The bag after an attempt to add `item`: it goes to the end if there
    /// is room, and nothing changes otherwise.
    pub open spec fn add(self, item: InventoryItemView) -> InventoryView {
        if self.has_room() {
            InventoryView { items: self.items.push(item), ..self }
        } else {
            self
        }
    }

    /// Whether some item has the id.
    pub open spec fn has(self, id: Seq<char>) -> bool {
        first_with_id(self.items, id) is Some
    }

    /// The bag without the first item that has the id; unchanged if there
    /// is none.
    pub open spec fn take(self, id: Seq<char>) -> InventoryView {
        match first_with_id(self.items, id) {
            Some(i) => InventoryView { items: self.items.remove(i), ..self },
            None => self,
        }
    }

    /// The bag with its display flag flipped if the toggle was pressed.
    pub open spec fn toggled(self, pressed: bool) -> InventoryView {
        InventoryView { is_open: self.is_open != pressed, ..self }
    }
}

impl Default for Inventory {
    fn default() -> (r: Self)
        ensures
            r@ == (InventoryView {
                items: Seq::empty(),
                max_size: DEFAULT_CAPACITY,
                is_open: false,
            }),
    {
        Inventory::new(DEFAULT_CAPACITY)
    }
}

impl Inventory {
    /// An empty, closed bag that holds up to `max_size` items.
    pub fn new(max_size: usize) -> (r: Self)
        ensures
            r@ == (InventoryView { items: Seq::empty(), max_size, is_open: false }),
    {
        let r = Inventory { items: Vec::new(), max_size, is_open: false };
        assert(r@.items =~= Seq::<InventoryItemView>::empty());
        r
    }

    /// Adds `item` at the end if there is room. Returns whether it was added.
    pub fn add_item(&mut self, item: InventoryItem) -> (added: bool)
        ensures
            added == old(self)@.has_room(),
            final(self)@ == old(self)@.add(item@),
    {
        if self.items.len() < self.max_size {
            self.items.push(item);
            assert(self@.items =~= old(self)@.items.push(item@));
            true
        } else {
            false
        }
    }

    /// Removes and returns the item at `index`, if there is one.
    pub fn remove_item(&mut self, index: usize) -> (removed: Option<InventoryItem>)
        ensures
            index < old(self)@.items.len() ==> removed.deep_view() == Some(
                old(self)@.items[index as int],
            ) && final(self)@ == (InventoryView {
                items: old(self)@.items.remove(index as int),
                ..old(self)@
            }),
            index >= old(self)@.items.len() ==> removed is None && final(self)@ == old(self)@,
    {
        if index < self.items.len() {
            let item = self.items.remove(index);
            assert(self@.items =~= old(self)@.items.remove(index as int));
            Some(item)
        } else {
            None
        }
    }

    /// Removes the first item whose id is `id`. Returns whether there was
    /// one.
    pub fn take_item_by_id(&mut self, id: &str) -> (taken: bool)
        ensures
            taken == old(self)@.has(id@),
            final(self)@ == old(self)@.take(id@),
    {
        match self.position_of(id) {
            Some(pos) => {
                self.items.remove(pos);
                assert(self@.items =~= old(self)@.items.remove(pos as int));
                true
            },
            None => false,
        }
    }

    /// Whether some item has the id `id`.
    pub fn has_item_id(&self, id: &str) -> (found: bool)
        ensures
            found == self@.has(id@),
    {
        self.position_of(id).is_some()
    }

    /// The index of the first item whose id is `id`.
    pub fn position_of(&self, id: &str) -> (pos: Option<usize>)
        ensures
            match pos {
                Some(p) => first_with_id(self@.items, id@) == Some(p as int) && p
                    < self.items.len(),
                None => first_with_id(self@.items, id@) is None,
            },
    {
        let wanted = id.to_owned();
        let ghost items = self@.items;
        let mut i: usize = 0;
        while i < self.items.len()
            invariant
                i <= self.items.len(),
                items == self@.items,
                wanted@ == id@,
                forall|j: int| 0 <= j < i ==> items[j].id != id@,
            decreases self.items.len() - i,
        {
            if self.items[i].id == wanted {
                proof {
                    lemma_first_with_id(items, id@);
                }
                return Some(i);
            }
            assert(items[i as int].id == self.items[i as int].id@);
            i += 1;
        }
        proof {
            lemma_first_with_id(items, id@);
        }
        None
    }
}

/// Flips the bag's display flag when the toggle key was pressed this frame.
pub fn toggle_inventory_display(toggle_pressed: bool, inventory: &mut Inventory)
    ensures
        final(inventory)@ == old(inventory)@.toggled(toggle_pressed),
{
    if toggle_pressed {
        inventory.is_open = !inventory.is_open;
    }
}

/// The bag after trying to add each of `items` in turn.
pub open spec fn add_all(inv: InventoryView, items: Seq<InventoryItemView>) -> InventoryView
    decreases items.len(),
{
    if items.len() == 0 {
        inv
    } else {
        add_all(inv, items.drop_last()).add(items.last())
    }
}

/// Filling a bag. Of the items offered, as many go in as there is room for,
/// in the order offered, behind what the bag held; each of the others is
/// refused and leaves the bag as it was. A bag filled to its capacity
/// refuses whatever is offered next.
pub proof fn law_capacity(inv: InventoryView, items: Seq<InventoryItemView>)
    requires
        inv.items.len() <= inv.max_size,
    ensures
        ({
            let room = inv.max_size - inv.items.len();
            let fit = if items.len() <= room {
                items.len() as int
            } else {
                room
            };
            let filled = add_all(inv, items);
            &&& filled == (InventoryView { items: inv.items + items.take(fit), ..inv })
            &&& items.len() >= room ==> !filled.has_room() && forall|extra: InventoryItemView|
                #[trigger] filled.add(extra) == filled
            &&& items.len() < room ==> filled.has_room()
        }),
    decreases items.len(),
{
    let room = inv.max_size - inv.items.len();
    if items.len() > 0 {
        let front = items.drop_last();
        law_capacity(inv, front);
        let before = add_all(inv, front);
        if front.len() < room {
            assert(before.items.push(items.last()) =~= inv.items + items.take(items.len() as int));
        } else {
            assert(front.take(room) =~= items.take(room));
        }
    }
}

} // verus!
