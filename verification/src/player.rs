//! The player: where it stands, how it moves, and which way it faces.

use crate::geometry::{boxes_overlap, clamp_coordinate, clamped, overlaps, HalfExtent, Position};
use crate::objects::{ObjectView, World, WorldView};
use crate::ui::UiState;
use vstd::prelude::*;

verus! {

/// The four directions the player can face.
#[derive(Clone, Copy, Debug, PartialEq, Eq, Structural)]
pub enum Direction {
    Up,
    Down,
    Left,
    Right,
}

/// The player's own numbers. Speed is in sub-units per second.
#[derive(Clone, Copy, Debug, PartialEq, Eq, Structural)]
pub struct Player {
    pub speed: u32,
    /// Kept for content that wants it; reach is decided per target.
    pub interact_range: u32,
    pub facing: Direction,
}

/// The sign over the player's head that tells that a target is in reach.
#[derive(Clone, Copy, Debug, PartialEq, Eq, Structural)]
pub struct InteractionIndicator {
    pub visible: bool,
}

/// The player as it stands in the world.
#[derive(Clone, Copy, Debug, PartialEq, Eq, Structural)]
pub struct Avatar {
    pub player: Player,
    pub position: Position,
    pub indicator: InteractionIndicator,
}

impl Avatar {
    /// The same player with the indicator shown or hidden.
    pub open spec fn with_indicator(self, visible: bool) -> Avatar {
        Avatar { indicator: InteractionIndicator { visible }, ..self }
    }
}

/// Half the width of the player's box: 8 units.
pub const PLAYER_HALF_WIDTH: u32 = 8_000;

/// Half the height of the player's box: 10 units.
pub const PLAYER_HALF_HEIGHT: u32 = 10_000;

/// The speed a new player walks at: 120 units per second.
pub const PLAYER_SPEED: u32 = 120_000;

/// The interaction range a new player is given: 30 units.
pub const PLAYER_INTERACT_RANGE: u32 = 30_000;

/// The half extent of the player's box.
pub open spec fn player_half() -> HalfExtent {
    HalfExtent { x: PLAYER_HALF_WIDTH, y: PLAYER_HALF_HEIGHT }
}

/// A new player: at the origin, facing down, with the indicator hidden.
pub fn spawn_player() -> (a: Avatar)
    ensures
        a == (Avatar {
            player: Player {
                speed: PLAYER_SPEED,
                interact_range: PLAYER_INTERACT_RANGE,
                facing: Direction::Down,
            },
            position: Position { x: 0, y: 0 },
            indicator: InteractionIndicator { visible: false },
        }),
{
    Avatar {
        player: Player {
            speed: PLAYER_SPEED,
            interact_range: PLAYER_INTERACT_RANGE,
            facing: Direction::Down,
        },
        position: Position { x: 0, y: 0 },
        indicator: InteractionIndicator { visible: false },
    }
}

/// Which of the four direction keys are held down.
#[derive(Clone, Copy, Debug, PartialEq, Eq, Structural)]
pub struct Held {
    pub up: bool,
    pub down: bool,
    pub left: bool,
    pub right: bool,
}

/// A blocking box: where its centre is and how far it reaches.
#[derive(Clone, Copy, Debug, PartialEq, Eq, Structural)]
pub struct SolidBox {
    pub center: Position,
    pub half: HalfExtent,
}

/// The push along one axis: 1, -1, or 0 when neither key or both are held.
pub open spec fn axis(negative: bool, positive: bool) -> int {
    (if positive {
        1int
    } else {
        0int
    }) - (if negative {
        1int
    } else {
        0int
    })
}

/// How far the player gets in `delta_us` microseconds at `speed`, cut off at
/// the largest coordinate.
pub open spec fn travel(speed: u32, delta_us: u64) -> int {
    let d = speed * delta_us / 1_000_000;
    if d > i32::MAX {
        i32::MAX as int
    } else {
        d
    }
}

/// The share of a diagonal step that falls on each axis: the step scaled by
/// 0.70710678, so that walking diagonally is no faster than walking
/// straight.
pub open spec fn diagonal(step: int) -> int {
    step * 70_710_678 / 100_000_000
}

/// `length` along the direction `toward`.
pub open spec fn directed(toward: int, length: int) -> int {
    if toward > 0 {
        length
    } else if toward < 0 {
        -length
    } else {
        0
    }
}

/// The displacement for one frame, per axis.
pub open spec fn displacement(held: Held, speed: u32, delta_us: u64) -> (int, int) {
    let mx = axis(held.left, held.right);
    let my = axis(held.down, held.up);
    let step = travel(speed, delta_us);
    let part = if mx != 0 && my != 0 {
        diagonal(step)
    } else {
        step
    };
    (directed(mx, part), directed(my, part))
}

/// The player pushed out of `s` along x, if it overlaps `s`: to the left
/// edge when it was moving right, to the right edge when it was moving left.
pub open spec fn pushed_x(p: Position, dx: int, s: SolidBox) -> Position {
    if overlaps(p, player_half(), s.center, s.half) && dx > 0 {
        Position { x: clamp_coordinate(s.center.x - s.half.x - PLAYER_HALF_WIDTH), ..p }
    } else if overlaps(p, player_half(), s.center, s.half) && dx < 0 {
        Position { x: clamp_coordinate(s.center.x + s.half.x + PLAYER_HALF_WIDTH), ..p }
    } else {
        p
    }
}

/// The player pushed out of `s` along y, if it overlaps `s`.
pub open spec fn pushed_y(p: Position, dy: int, s: SolidBox) -> Position {
    if overlaps(p, player_half(), s.center, s.half) && dy > 0 {
        Position { y: clamp_coordinate(s.center.y - s.half.y - PLAYER_HALF_HEIGHT), ..p }
    } else if overlaps(p, player_half(), s.center, s.half) && dy < 0 {
        Position { y: clamp_coordinate(s.center.y + s.half.y + PLAYER_HALF_HEIGHT), ..p }
    } else {
        p
    }
}

/// The player pushed out of each solid in turn along x. Where two solids
/// disagree the later one has the last word.
pub open spec fn resolved_x(p: Position, dx: int, solids: Seq<SolidBox>) -> Position
    decreases solids.len(),
{
    if solids.len() == 0 {
        p
    } else {
        pushed_x(resolved_x(p, dx, solids.drop_last()), dx, solids.last())
    }
}

/// The player pushed out of each solid in turn along y.
pub open spec fn resolved_y(p: Position, dy: int, solids: Seq<SolidBox>) -> Position
    decreases solids.len(),
{
    if solids.len() == 0 {
        p
    } else {
        pushed_y(resolved_y(p, dy, solids.drop_last()), dy, solids.last())
    }
}

/// Where a step by `d` from `p` ends: first the x part is taken and
/// resolved against every solid, then the y part from where that ended.
pub open spec fn moved(p: Position, d: (int, int), solids: Seq<SolidBox>) -> Position {
    let px = resolved_x(Position { x: clamp_coordinate(p.x + d.0), ..p }, d.0, solids);
    resolved_y(Position { y: clamp_coordinate(px.y + d.1), ..px }, d.1, solids)
}

/// The boxes of the world's blocking objects, in slot order.
pub open spec fn solids_of(w: WorldView) -> Seq<SolidBox>
    decreases w.len(),
{
    if w.len() == 0 {
        Seq::empty()
    } else {
        let rest = solids_of(w.drop_last());
        match w.last() {
            Some(o) => if o.solid is Some {
                rest.push(SolidBox { center: o.position, half: o.half_extent })
            } else {
                rest
            },
            None => rest,
        }
    }
}

/// The player after the movement step. While a modal is open, or when the
/// held keys cancel out, the player stays put.
pub open spec fn walked(
    avatar: Avatar,
    held: Held,
    delta_us: u64,
    solids: Seq<SolidBox>,
    modal: bool,
) -> Avatar {
    if modal || (axis(held.left, held.right) == 0 && axis(held.down, held.up) == 0) {
        avatar
    } else {
        Avatar {
            position: moved(
                avatar.position,
                displacement(held, avatar.player.speed, delta_us),
                solids,
            ),
            ..avatar
        }
    }
}

/// The direction faced after looking at the held keys: up wins over down,
/// down over left, left over right; with no key held nothing changes.
pub open spec fn facing_after(held: Held, facing: Direction) -> Direction {
    if held.up {
        Direction::Up
    } else if held.down {
        Direction::Down
    } else if held.left {
        Direction::Left
    } else if held.right {
        Direction::Right
    } else {
        facing
    }
}

proof fn lemma_travel_fits(speed: u32, delta_us: u64)
    by (nonlinear_arith)
    ensures
        0 <= speed * delta_us <= 0xffff_ffff * 0xffff_ffff_ffff_ffff,
{
}

/// Computes the displacement for one frame.
pub fn frame_displacement(held: Held, speed: u32, delta_us: u64) -> (d: (i32, i32))
    ensures
        (d.0 as int, d.1 as int) == displacement(held, speed, delta_us),
{
    proof {
        lemma_travel_fits(speed, delta_us);
    }
    let far: u128 = (speed as u128) * (delta_us as u128) / 1_000_000;
    let step: i64 = if far > i32::MAX as u128 {
        i32::MAX as i64
    } else {
        far as i64
    };
    let horizontal = held.left != held.right;
    let vertical = held.up != held.down;
    let part: i64 = if horizontal && vertical {
        step * 70_710_678 / 100_000_000
    } else {
        step
    };
    let dx: i64 = if !horizontal {
        0
    } else if held.right {
        part
    } else {
        -part
    };
    let dy: i64 = if !vertical {
        0
    } else if held.up {
        part
    } else {
        -part
    };
    (dx as i32, dy as i32)
}

/// Pushes the player out of every solid in turn along x.
pub fn resolve_x(p: Position, dx: i32, solids: &Vec<SolidBox>) -> (r: Position)
    ensures
        r == resolved_x(p, dx as int, solids@),
{
    let half = HalfExtent { x: PLAYER_HALF_WIDTH, y: PLAYER_HALF_HEIGHT };
    let mut at = p;
    let mut i: usize = 0;
    while i < solids.len()
        invariant
            i <= solids.len(),
            half == player_half(),
            at == resolved_x(p, dx as int, solids@.take(i as int)),
        decreases solids.len() - i,
    {
        assert(solids@.take(i + 1).drop_last() =~= solids@.take(i as int));
        let s = solids[i];
        if boxes_overlap(at, half, s.center, s.half) {
            if dx > 0 {
                at.x = clamped(s.center.x as i64 - s.half.x as i64 - PLAYER_HALF_WIDTH as i64);
            } else if dx < 0 {
                at.x = clamped(s.center.x as i64 + s.half.x as i64 + PLAYER_HALF_WIDTH as i64);
            }
        }
        i += 1;
    }
    assert(solids@.take(solids.len() as int) =~= solids@);
    at
}

/// Pushes the player out of every solid in turn along y.
pub fn resolve_y(p: Position, dy: i32, solids: &Vec<SolidBox>) -> (r: Position)
    ensures
        r == resolved_y(p, dy as int, solids@),
{
    let half = HalfExtent { x: PLAYER_HALF_WIDTH, y: PLAYER_HALF_HEIGHT };
    let mut at = p;
    let mut i: usize = 0;
    while i < solids.len()
        invariant
            i <= solids.len(),
            half == player_half(),
            at == resolved_y(p, dy as int, solids@.take(i as int)),
        decreases solids.len() - i,
    {
        assert(solids@.take(i + 1).drop_last() =~= solids@.take(i as int));
        let s = solids[i];
        if boxes_overlap(at, half, s.center, s.half) {
            if dy > 0 {
                at.y = clamped(s.center.y as i64 - s.half.y as i64 - PLAYER_HALF_HEIGHT as i64);
            } else if dy < 0 {
                at.y = clamped(s.center.y as i64 + s.half.y as i64 + PLAYER_HALF_HEIGHT as i64);
            }
        }
        i += 1;
    }
    assert(solids@.take(solids.len() as int) =~= solids@);
    at
}

/// Takes a step by `(dx, dy)` from `p` against the solids: x first, then y.
pub fn step_against(p: Position, dx: i32, dy: i32, solids: &Vec<SolidBox>) -> (r: Position)
    ensures
        r == moved(p, (dx as int, dy as int), solids@),
{
    let mut at = p;
    at.x = clamped(at.x as i64 + dx as i64);
    at = resolve_x(at, dx, solids);
    at.y = clamped(at.y as i64 + dy as i64);
    resolve_y(at, dy, solids)
}

impl World {
    /// The boxes of the blocking objects, in slot order.
    pub fn solids(&self) -> (r: Vec<SolidBox>)
        ensures
            r@ == solids_of(self@),
    {
        let mut r: Vec<SolidBox> = Vec::new();
        let mut i: usize = 0;
        while i < self.slots.len()
            invariant
                i <= self.slots.len(),
                self@.len() == self.slots.len(),
                r@ == solids_of(self@.take(i as int)),
            decreases self.slots.len() - i,
        {
            proof {
                assert(self@.take(i + 1).drop_last() =~= self@.take(i as int));
            }
            match &self.slots[i] {
                Some(object) => {
                    if object.solid.is_some() {
                        r.push(SolidBox { center: object.position, half: object.half_extent });
                    }
                },
                None => {},
            }
            i += 1;
        }
        assert(self@.take(self.slots.len() as int) =~= self@);
        r
    }
}

/// The movement step: turns the held keys into a displacement and walks the
/// player by it, stopping at solids. Does nothing while a modal is open.
pub fn player_movement(
    held: Held,
    delta_us: u64,
    avatar: &mut Option<Avatar>,
    world: &World,
    ui: &UiState,
)
    ensures
        *final(avatar) == (match *old(avatar) {
            Some(a) => Some(walked(a, held, delta_us, solids_of(world@), ui@.modal())),
            None => None,
        }),
{
    if ui.menu_open || ui.dialog_open {
        return ;
    }
    if held.left == held.right && held.up == held.down {
        return ;
    }
    match avatar {
        Some(a) => {
            let (dx, dy) = frame_displacement(held, a.player.speed, delta_us);
            let solids = world.solids();
            a.position = step_against(a.position, dx, dy, &solids);
        },
        None => {},
    }
}

/// Turns the player toward the held key. Does nothing while a modal is
/// open.
pub fn update_player_facing(held: Held, avatar: &mut Option<Avatar>, ui: &UiState)
    ensures
        *final(avatar) == (match *old(avatar) {
            Some(a) => Some(
                if ui@.modal() {
                    a
                } else {
                    Avatar {
                        player: Player { facing: facing_after(held, a.player.facing), ..a.player },
                        ..a
                    }
                },
            ),
            None => None,
        }),
{
    if ui.menu_open || ui.dialog_open {
        return ;
    }
    match avatar {
        Some(a) => {
            if held.up {
                a.player.facing = Direction::Up;
            } else if held.down {
                a.player.facing = Direction::Down;
            } else if held.left {
                a.player.facing = Direction::Left;
            } else if held.right {
                a.player.facing = Direction::Right;
            }
        },
        None => {},
    }
}

/// Walking straight along x into a solid. If the step would end inside the
/// solid, the player ends with its edge on the solid's near edge: it does
/// not get in and it is not thrown back. The place where that is must be a
/// coordinate.
pub proof fn law_stops_at_edge_x(p: Position, dx: int, s: SolidBox)
    requires
        dx != 0,
        overlaps(Position { x: clamp_coordinate(p.x + dx), ..p }, player_half(), s.center, s.half),
        dx > 0 ==> s.center.x - s.half.x - PLAYER_HALF_WIDTH >= i32::MIN,
        dx < 0 ==> s.center.x + s.half.x + PLAYER_HALF_WIDTH <= i32::MAX,
    ensures
        ({
            let r = moved(p, (dx, 0), seq![s]);
            &&& r.y == p.y
            &&& dx > 0 ==> r.x + PLAYER_HALF_WIDTH == s.center.x - s.half.x
            &&& dx < 0 ==> r.x - PLAYER_HALF_WIDTH == s.center.x + s.half.x
            &&& !overlaps(r, player_half(), s.center, s.half)
        }),
{
    let one = seq![s];
    let stepped = Position { x: clamp_coordinate(p.x + dx), ..p };
    assert(resolved_x(stepped, dx, one.drop_last()) == stepped);
    let pushed = resolved_x(stepped, dx, one);
    assert(resolved_y(pushed, 0, one.drop_last()) == pushed);
}

/// Walking straight along y into a solid: as along x.
pub proof fn law_stops_at_edge_y(p: Position, dy: int, s: SolidBox)
    requires
        dy != 0,
        overlaps(Position { y: clamp_coordinate(p.y + dy), ..p }, player_half(), s.center, s.half),
        dy > 0 ==> s.center.y - s.half.y - PLAYER_HALF_HEIGHT >= i32::MIN,
        dy < 0 ==> s.center.y + s.half.y + PLAYER_HALF_HEIGHT <= i32::MAX,
    ensures
        ({
            let r = moved(p, (0, dy), seq![s]);
            &&& r.x == p.x
            &&& dy > 0 ==> r.y + PLAYER_HALF_HEIGHT == s.center.y - s.half.y
            &&& dy < 0 ==> r.y - PLAYER_HALF_HEIGHT == s.center.y + s.half.y
            &&& !overlaps(r, player_half(), s.center, s.half)
        }),
{
    let one = seq![s];
    assert(resolved_x(p, 0, one.drop_last()) == p);
    let stepped = Position { y: clamp_coordinate(p.y + dy), ..p };
    assert(resolved_y(stepped, dy, one.drop_last()) == stepped);
}

/// A diagonal step is no longer than a straight one.
pub proof fn law_no_diagonal_speed_up(step: int)
    by (nonlinear_arith)
    requires
        0 <= step,
    ensures
        0 <= diagonal(step) <= step,
        2 * (diagonal(step) * diagonal(step)) <= step * step,
{
}

} // verus!
