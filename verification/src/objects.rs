//! What a world object can carry, and the world that owns the objects.

use crate::geometry::{HalfExtent, Position};
use crate::interaction::{Interactable, InteractableView, NearbyInteractable};
use vstd::prelude::*;

verus! {

/// Marks an object that can be picked up.
#[derive(Debug, PartialEq, Eq)]
pub struct Item {
    pub name: String,
    pub can_pickup: bool,
}

/// An `Item` as contracts see it.
pub struct ItemView {
    pub name: Seq<char>,
    pub can_pickup: bool,
}

impl View for Item {
    type V = ItemView;

    open spec fn view(&self) -> ItemView {
        ItemView { name: self.name@, can_pickup: self.can_pickup }
    }
}

impl DeepView for Item {
    type V = ItemView;

    open spec fn deep_view(&self) -> ItemView {
        self@
    }
}

/// A lamp that is either lit or dark.
#[derive(Clone, Copy, Debug, PartialEq, Eq, Structural)]
pub struct Light {
    pub is_on: bool,
}

/// A door, possibly locked by the inventory item whose id is
/// `required_key_id`. Opening it with the key unlocks it for good: the
/// requirement is then gone.
#[derive(Debug, PartialEq, Eq)]
pub struct Door {
    pub is_open: bool,
    pub required_key_id: Option<String>,
}

/// A `Door` as contracts see it.
pub struct DoorView {
    pub is_open: bool,
    pub required_key_id: Option<Seq<char>>,
}

impl View for Door {
    type V = DoorView;

    open spec fn view(&self) -> DoorView {
        DoorView { is_open: self.is_open, required_key_id: self.required_key_id.deep_view() }
    }
}

impl DeepView for Door {
    type V = DoorView;

    open spec fn deep_view(&self) -> DoorView {
        self@
    }
}

/// A generator. Fuel is counted in thousandths of a fuel unit. No action
/// reads or changes these fields yet.
#[derive(Clone, Copy, Debug, PartialEq, Eq, Structural)]
pub struct Generator {
    pub is_running: bool,
    pub fuel_level: u32,
    pub max_fuel: u32,
}

/// A character with scripted lines. Talking does not consult them yet.
#[derive(Debug, PartialEq, Eq)]
pub struct NPC {
    pub name: String,
    pub dialogue: Vec<String>,
}

/// An `NPC` as contracts see it.
pub struct NpcView {
    pub name: Seq<char>,
    pub dialogue: Seq<Seq<char>>,
}

impl View for NPC {
    type V = NpcView;

    open spec fn view(&self) -> NpcView {
        NpcView { name: self.name@, dialogue: self.dialogue.deep_view() }
    }
}

impl DeepView for NPC {
    type V = NpcView;

    open spec fn deep_view(&self) -> NpcView {
        self@
    }
}

/// Marks an object as blocking: the player cannot walk into its box.
#[derive(Clone, Copy, Debug, PartialEq, Eq, Structural)]
pub struct Solid;

/// The colours the core assigns. Which pigment each one is drawn with is
/// left to whoever draws.
#[derive(Clone, Copy, Debug, PartialEq, Eq, Structural)]
pub enum Tint {
    White,
    DoorOpen,
    DoorClosed,
    LampLit,
    LampDark,
}

/// A stable name for a world object. Names are never reused, so the name of
/// a destroyed object is simply not found.
#[derive(Clone, Copy, Debug, PartialEq, Eq, Structural)]
pub struct Entity(pub usize);

/// Everything the world knows about one object.
#[derive(Debug, PartialEq, Eq)]
pub struct WorldObject {
    pub position: Position,
    pub half_extent: HalfExtent,
    pub interactable: Option<Interactable>,
    pub item: Option<Item>,
    pub light: Option<Light>,
    pub door: Option<Door>,
    pub generator: Option<Generator>,
    pub npc: Option<NPC>,
    pub solid: Option<Solid>,
    pub nearby: Option<NearbyInteractable>,
    pub visible: bool,
    /// `None` while the object still has the colour it was made with.
    pub tint: Option<Tint>,
}

/// A `WorldObject` as contracts see it.
pub struct ObjectView {
    pub position: Position,
    pub half_extent: HalfExtent,
    pub interactable: Option<InteractableView>,
    pub item: Option<ItemView>,
    pub light: Option<Light>,
    pub door: Option<DoorView>,
    pub generator: Option<Generator>,
    pub npc: Option<NpcView>,
    pub solid: Option<Solid>,
    pub nearby: Option<NearbyInteractable>,
    pub visible: bool,
    pub tint: Option<Tint>,
}

impl View for WorldObject {
    type V = ObjectView;

    open spec fn view(&self) -> ObjectView {
        ObjectView {
            position: self.position,
            half_extent: self.half_extent,
            interactable: self.interactable.deep_view(),
            item: self.item.deep_view(),
            light: self.light,
            door: self.door.deep_view(),
            generator: self.generator,
            npc: self.npc.deep_view(),
            solid: self.solid,
            nearby: self.nearby,
            visible: self.visible,
            tint: self.tint,
        }
    }
}

impl DeepView for WorldObject {
    type V = ObjectView;

    open spec fn deep_view(&self) -> ObjectView {
        self@
    }
}

impl WorldObject {
    /// A bare object at `position`: shown, in the colour it was made with,
    /// and carrying nothing.
    pub fn new(position: Position, half_extent: HalfExtent) -> (r: WorldObject)
        ensures
            r@ == (ObjectView {
                position,
                half_extent,
                interactable: None,
                item: None,
                light: None,
                door: None,
                generator: None,
                npc: None,
                solid: None,
                nearby: None,
                visible: true,
                tint: None,
            }),
    {
        WorldObject {
            position,
            half_extent,
            interactable: None,
            item: None,
            light: None,
            door: None,
            generator: None,
            npc: None,
            solid: None,
            nearby: None,
            visible: true,
            tint: None,
        }
    }
}

impl ObjectView {
    /// A closed door blocks and an open door does not. Objects without a
    /// door may block or not as they please.
    pub open spec fn door_blocks_iff_closed(self) -> bool {
        self.door matches Some(d) ==> (self.solid is Some <==> !d.is_open)
    }
}

/// The slots of a world, by entity index. A destroyed object leaves `None`.
pub type WorldView = Seq<Option<ObjectView>>;

/// Whether `e` names a living object of `w`.
pub open spec fn alive(w: WorldView, e: Entity) -> bool {
    e.0 < w.len() && w[e.0 as int] is Some
}

/// Whether the object in slot `i` of `w` carries the nearest-target marker.
pub open spec fn is_marked(w: WorldView, i: int) -> bool {
    &&& 0 <= i < w.len()
    &&& w[i] matches Some(o)
    &&& o.nearby is Some
}

/// At most one object of `w` carries the nearest-target marker.
pub open spec fn at_most_one_marked(w: WorldView) -> bool {
    forall|i: int, j: int| is_marked(w, i) && is_marked(w, j) ==> i == j
}

/// Every door of `w` blocks exactly while it is closed.
pub open spec fn doors_block_iff_closed(w: WorldView) -> bool {
    forall|i: int|
        0 <= i < w.len() && w[i] is Some ==> (#[trigger] w[i]).unwrap().door_blocks_iff_closed()
}

/// The world: an arena of objects addressed by `Entity`.
#[derive(Debug, PartialEq, Eq)]
pub struct World {
    pub slots: Vec<Option<WorldObject>>,
}

impl View for World {
    type V = WorldView;

    open spec fn view(&self) -> WorldView {
        self.slots.deep_view()
    }
}

impl DeepView for World {
    type V = WorldView;

    open spec fn deep_view(&self) -> WorldView {
        self@
    }
}

impl World {
    /// An empty world.
    pub fn new() -> (w: World)
        ensures
            w@ == Seq::<Option<ObjectView>>::empty(),
    {
        World { slots: Vec::new() }
    }

    /// Adds an object and returns its name, which is the next unused index.
    pub fn spawn(&mut self, object: WorldObject) -> (e: Entity)
        ensures
            final(self)@ == old(self)@.push(Some(object@)),
            e.0 == old(self)@.len(),
    {
        let e = Entity(self.slots.len());
        self.slots.push(Some(object));
        e
    }

    /// Destroys the object named `e` together with everything it carries.
    /// Returns whether there was such an object.
    pub fn despawn(&mut self, e: Entity) -> (r: bool)
        ensures
            r == alive(old(self)@, e),
            r ==> final(self)@ == old(self)@.update(e.0 as int, None),
            !r ==> final(self)@ == old(self)@,
    {
        if e.0 < self.slots.len() {
            self.slots[e.0].take().is_some()
        } else {
            false
        }
    }

    /// Whether `e` names a living object.
    pub fn is_alive(&self, e: Entity) -> (r: bool)
        ensures
            r == alive(self@, e),
    {
        e.0 < self.slots.len() && self.slots[e.0].is_some()
    }
}

} // verus!
