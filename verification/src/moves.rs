//! The move resolver: turns a requested direction into a legal state
//! transition over a live grid — plain entries, chained pushes of boxes and
//! keys, one-way gates, secret discovery and win detection — or rejects the
//! request leaving the grid untouched.

use vstd::prelude::*;

use crate::level::{spec_cell_index, Level};
use crate::tile::{
    spec_is_freely_enterable, spec_is_pushable, spec_matches_one_way,
    spec_strip_player_or_object, Direction, Tile,
};

verus! {

/// What a step over the grid's edge does: wrap to the opposite edge, or make
/// the move undeliverable. The two behaviours were both observed in the
/// game's movement paths, so the policy is an explicit parameter.
#[derive(Clone, Copy, Debug, PartialEq, Eq, Structural)]
pub enum EdgePolicy {
    Wrap,
    Bounded,
}

/// What a resolved move reports back: the (possibly unchanged) player
/// position, whether any cell changed, and the terminal flags.
#[derive(Clone, Copy, Debug)]
pub struct MoveOutcome {
    pub new_pos: (usize, usize),
    pub changed: bool,
    pub won: bool,
    pub secret_found: bool,
}

/// The cell one step from `(x, y)` towards `direction` on a `width` by
/// `height` grid; `None` when the step leaves a bounded grid.
pub open spec fn spec_dest(
    x: int,
    y: int,
    width: int,
    height: int,
    direction: Direction,
    policy: EdgePolicy,
) -> Option<(int, int)> {
    match direction {
        Direction::Left => if x > 0 {
            Some((x - 1, y))
        } else if policy == EdgePolicy::Wrap {
            Some((width - 1, y))
        } else {
            None
        },
        Direction::Right => if x < width - 1 {
            Some((x + 1, y))
        } else if policy == EdgePolicy::Wrap {
            Some((0, y))
        } else {
            None
        },
        Direction::Up => if y > 0 {
            Some((x, y - 1))
        } else if policy == EdgePolicy::Wrap {
            Some((x, height - 1))
        } else {
            None
        },
        Direction::Down => if y < height - 1 {
            Some((x, y + 1))
        } else if policy == EdgePolicy::Wrap {
            Some((x, 0))
        } else {
            None
        },
    }
}

/// Computes the step destination; `None` exactly when a bounded grid has no
/// cell in that direction.
pub fn dest_of(
    pos: (usize, usize),
    width: usize,
    height: usize,
    direction: Direction,
    policy: EdgePolicy,
) -> (r: Option<(usize, usize)>)
    requires
        1 <= width,
        1 <= height,
        pos.0 < width,
        pos.1 < height,
    ensures
        match r {
            Some(q) => {
                &&& q.0 < width
                &&& q.1 < height
                &&& spec_dest(pos.0 as int, pos.1 as int, width as int, height as int,
                        direction, policy) == Some((q.0 as int, q.1 as int))
            },
            None => spec_dest(pos.0 as int, pos.1 as int, width as int, height as int,
                    direction, policy) is None,
        },
{
    let (x, y) = pos;
    match direction {
        Direction::Left => if x > 0 {
            Some((x - 1, y))
        } else if matches!(policy, EdgePolicy::Wrap) {
            Some((width - 1, y))
        } else {
            None
        },
        Direction::Right => if x < width - 1 {
            Some((x + 1, y))
        } else if matches!(policy, EdgePolicy::Wrap) {
            Some((0, y))
        } else {
            None
        },
        Direction::Up => if y > 0 {
            Some((x, y - 1))
        } else if matches!(policy, EdgePolicy::Wrap) {
            Some((x, height - 1))
        } else {
            None
        },
        Direction::Down => if y < height - 1 {
            Some((x, y + 1))
        } else if matches!(policy, EdgePolicy::Wrap) {
            Some((x, 0))
        } else {
            None
        },
    }
}

/// No cell of the grid holds a bare box: the level-complete condition. Keys
/// and locked doors never block a win.
pub open spec fn spec_no_bare_box(grid: Seq<Tile>) -> bool {
    forall|i: int| 0 <= i < grid.len() ==> grid[i] != Tile::Box
}

/// A tile may be stepped onto when moving towards `direction`: it is freely
/// enterable or it is the one-way gate opened towards `direction`.
pub open spec fn spec_enterable_towards(tile: Tile, direction: Direction) -> bool {
    spec_is_freely_enterable(tile) || spec_matches_one_way(tile, direction)
}

/// The destination cell of a move request, if the grid has one.
pub open spec fn spec_move_dest(
    live: Level,
    pos: (usize, usize),
    direction: Direction,
    policy: EdgePolicy,
) -> Option<(int, int)> {
    spec_dest(pos.0 as int, pos.1 as int, live.spec_width() as int,
        live.spec_height() as int, direction, policy)
}

/// The cell one step beyond the destination, where a pushed object lands.
pub open spec fn spec_push_dest(
    live: Level,
    pos: (usize, usize),
    direction: Direction,
    policy: EdgePolicy,
) -> Option<(int, int)> {
    match spec_move_dest(live, pos, direction, policy) {
        Some(q) => spec_dest(q.0, q.1, live.spec_width() as int, live.spec_height() as int,
            direction, policy),
        None => None,
    }
}

/// The move is a plain entry: the destination exists and may be stepped onto.
pub open spec fn spec_move_is_entry(
    live: Level,
    pos: (usize, usize),
    direction: Direction,
    policy: EdgePolicy,
) -> bool {
    match spec_move_dest(live, pos, direction, policy) {
        Some(q) => spec_enterable_towards(live.spec_tile_at(q.0, q.1), direction),
        None => false,
    }
}

/// The move is a legal push: the destination holds a pushable object and the
/// cell beyond it is freely enterable. Boxes and keys can never be moved
/// through a one-way gate, from either side — only the player may pass one.
pub open spec fn spec_move_is_push(
    live: Level,
    pos: (usize, usize),
    direction: Direction,
    policy: EdgePolicy,
) -> bool {
    match spec_move_dest(live, pos, direction, policy) {
        Some(q) => spec_is_pushable(live.spec_tile_at(q.0, q.1))
            && match spec_push_dest(live, pos, direction, policy) {
                Some(f) => spec_is_freely_enterable(live.spec_tile_at(f.0, f.1)),
                None => false,
            },
        None => false,
    }
}

/// The move changes state: it is a plain entry or a legal push. Anything
/// else — a wall, a locked door, a one-way gate entered from a closed side, a
/// blocked push or a missing destination — is rejected.
pub open spec fn spec_move_allowed(
    live: Level,
    pos: (usize, usize),
    direction: Direction,
    policy: EdgePolicy,
) -> bool {
    spec_move_is_entry(live, pos, direction, policy)
        || spec_move_is_push(live, pos, direction, policy)
}

/// The tile a pushed object becomes on its landing cell: the in-goal variant
/// exactly when the landing cell was a goal.
pub open spec fn spec_object_on(object: Tile, landing: Tile) -> Tile {
    if object == Tile::Box || object == Tile::BoxInGoal {
        if landing == Tile::Goal {
            Tile::BoxInGoal
        } else {
            Tile::Box
        }
    } else {
        if landing == Tile::Goal {
            Tile::KeyInGoal
        } else {
            Tile::Key
        }
    }
}

/// The live grid after an allowed move. The vacated player cell reverts to
/// the stripped design-time tile of the template, a pushed object lands one
/// cell further, and the destination becomes the player marker.
pub open spec fn spec_moved_grid(
    template: Level,
    live: Level,
    pos: (usize, usize),
    direction: Direction,
    policy: EdgePolicy,
) -> Seq<Tile> {
    let w = live.spec_width() as int;
    let q = spec_move_dest(live, pos, direction, policy).unwrap();
    let vacated = spec_strip_player_or_object(
        template.spec_tile_at(pos.0 as int, pos.1 as int));
    if spec_move_is_entry(live, pos, direction, policy) {
        live@.update(spec_cell_index(w, pos.0 as int, pos.1 as int), vacated)
            .update(spec_cell_index(w, q.0, q.1), Tile::Player)
    } else {
        let f = spec_push_dest(live, pos, direction, policy).unwrap();
        let moved = spec_object_on(live.spec_tile_at(q.0, q.1), live.spec_tile_at(f.0, f.1));
        live@.update(spec_cell_index(w, pos.0 as int, pos.1 as int), vacated)
            .update(spec_cell_index(w, f.0, f.1), moved)
            .update(spec_cell_index(w, q.0, q.1), Tile::Player)
    }
}

/// The live grid a move request leaves behind: the moved grid when the move
/// is allowed, the unchanged grid otherwise.
pub open spec fn spec_next_grid(
    template: Level,
    live: Level,
    pos: (usize, usize),
    direction: Direction,
    policy: EdgePolicy,
) -> Seq<Tile> {
    if spec_move_allowed(live, pos, direction, policy) {
        spec_moved_grid(template, live, pos, direction, policy)
    } else {
        live@
    }
}

/// The move discovers a secret: it enters a secret cell. Discovery ends the
/// turn at once, so no win detection follows it.
pub open spec fn spec_move_finds_secret(
    live: Level,
    pos: (usize, usize),
    direction: Direction,
    policy: EdgePolicy,
) -> bool {
    spec_move_is_entry(live, pos, direction, policy)
        && live.spec_tile_at(
            spec_move_dest(live, pos, direction, policy).unwrap().0,
            spec_move_dest(live, pos, direction, policy).unwrap().1,
        ) == Tile::Secret
}

/// The move wins the level: it is allowed, discovers no secret, and leaves
/// no bare box on the grid.
pub open spec fn spec_move_wins(
    template: Level,
    live: Level,
    pos: (usize, usize),
    direction: Direction,
    policy: EdgePolicy,
) -> bool {
    spec_move_allowed(live, pos, direction, policy)
        && !spec_move_finds_secret(live, pos, direction, policy)
        && spec_no_bare_box(spec_moved_grid(template, live, pos, direction, policy))
}

/// The tile a pushed object lands as; see [`spec_object_on`].
fn object_on(object: Tile, landing: Tile) -> (r: Tile)
    ensures
        r == spec_object_on(object, landing),
{
    let on_goal = matches!(landing, Tile::Goal);
    if matches!(object, Tile::Box | Tile::BoxInGoal) {
        if on_goal {
            Tile::BoxInGoal
        } else {
            Tile::Box
        }
    } else {
        if on_goal {
            Tile::KeyInGoal
        } else {
            Tile::Key
        }
    }
}

/// Resolves one movement request against the live grid.
///
/// A freely enterable or matching one-way destination is entered; a pushable
/// destination is pushed when the cell beyond it is freely enterable — an
/// object never passes a one-way gate, from either side;
/// anything else rejects the move and leaves the grid exactly as it was. The
/// vacated cell reverts to the stripped design-time tile of `template`.
/// Entering a secret cell raises `secret_found` and ends the turn at once;
/// any other successful move scans for a win.
pub fn resolve_move(
    template: &Level,
    live: &mut Level,
    player_pos: (usize, usize),
    direction: Direction,
    policy: EdgePolicy,
) -> (outcome: MoveOutcome)
    requires
        template.wf(),
        old(live).wf(),
        template.spec_same_size(*old(live)),
        player_pos.0 < old(live).spec_width(),
        player_pos.1 < old(live).spec_height(),
        old(live).spec_tile_at(player_pos.0 as int, player_pos.1 as int) == Tile::Player,
    ensures
        final(live).wf(),
        final(live).spec_same_size(*old(live)),
        final(live)@ == spec_next_grid(*template, *old(live), player_pos, direction, policy),
        outcome.changed == spec_move_allowed(*old(live), player_pos, direction, policy),
        outcome.secret_found == spec_move_finds_secret(*old(live), player_pos, direction,
            policy),
        outcome.won == spec_move_wins(*template, *old(live), player_pos, direction, policy),
        outcome.changed ==> {
            &&& outcome.new_pos.0 < old(live).spec_width()
            &&& outcome.new_pos.1 < old(live).spec_height()
            &&& spec_move_dest(*old(live), player_pos, direction, policy)
                == Some((outcome.new_pos.0 as int, outcome.new_pos.1 as int))
        },
        !outcome.changed ==> outcome.new_pos == player_pos,
{
    let width = live.width();
    let height = live.height();
    let rejected = MoveOutcome {
        new_pos: player_pos,
        changed: false,
        won: false,
        secret_found: false,
    };

    let dest = match dest_of(player_pos, width, height, direction, policy) {
        Some(q) => q,
        None => {
            return rejected;
        },
    };
    let dest_tile = match live.get_tile(dest.0, dest.1) {
        Some(t) => t,
        None => {
            return rejected;
        },
    };
    let one_way = direction.one_way_tile();

    let vacated = match template.get_tile(player_pos.0, player_pos.1) {
        Some(t) => t.strip_player_or_object(),
        None => {
            return rejected;
        },
    };

    if dest_tile.is_freely_enterable() || dest_tile == one_way {
        let _ = live.set_tile(player_pos.0, player_pos.1, vacated);
        let _ = live.set_tile(dest.0, dest.1, Tile::Player);
        let secret_found = matches!(dest_tile, Tile::Secret);
        let won = if secret_found {
            false
        } else {
            has_no_bare_box(live)
        };
        MoveOutcome { new_pos: dest, changed: true, won, secret_found }
    } else if dest_tile.is_pushable() {
        let far = match dest_of(dest, width, height, direction, policy) {
            Some(f) => f,
            None => {
                return rejected;
            },
        };
        let far_tile = match live.get_tile(far.0, far.1) {
            Some(t) => t,
            None => {
                return rejected;
            },
        };
        if far_tile.is_freely_enterable() {
            let moved = object_on(dest_tile, far_tile);
            let _ = live.set_tile(player_pos.0, player_pos.1, vacated);
            let _ = live.set_tile(far.0, far.1, moved);
            let _ = live.set_tile(dest.0, dest.1, Tile::Player);
            let won = has_no_bare_box(live);
            MoveOutcome { new_pos: dest, changed: true, won, secret_found: false }
        } else {
            rejected
        }
    } else {
        rejected
    }
}

/// Scans the grid for a bare box; true exactly when none remains.
pub fn has_no_bare_box(level: &Level) -> (r: bool)
    requires
        level.wf(),
    ensures
        r == spec_no_bare_box(level@),
{
    let tiles = level.tiles();
    let len = tiles.len();
    let mut i: usize = 0;
    while i < len
        invariant
            len == tiles@.len(),
            tiles@ == level@,
            i <= len,
            forall|j: int| 0 <= j < i ==> tiles@[j] != Tile::Box,
        decreases len - i,
    {
        if tiles[i] == Tile::Box {
            return false;
        }
        i = i + 1;
    }
    true
}

/// Stripping a tile never produces a player marker, so a vacated cell always
/// differs from the player cell it replaces.
pub proof fn lemma_strip_never_player(tile: Tile)
    ensures
        spec_strip_player_or_object(tile) != Tile::Player,
{
}

/// A step destination stays inside the grid whenever one exists.
pub proof fn lemma_dest_in_bounds(
    x: int,
    y: int,
    width: int,
    height: int,
    direction: Direction,
    policy: EdgePolicy,
)
    requires
        1 <= width,
        1 <= height,
        0 <= x < width,
        0 <= y < height,
        spec_dest(x, y, width, height, direction, policy) is Some,
    ensures
        ({
            let q = spec_dest(x, y, width, height, direction, policy).unwrap();
            0 <= q.0 < width && 0 <= q.1 < height
        }),
{
}

/// Whenever the destination of a move may be stepped onto — it is freely
/// enterable or the one-way gate matching the direction — the move succeeds,
/// and exactly two cells change: the old player cell reverts to the stripped
/// template tile, and the destination becomes the player marker. Every other
/// cell is untouched.
pub proof fn lemma_entry_changes_exactly_two_cells(
    template: Level,
    live: Level,
    pos: (usize, usize),
    direction: Direction,
    policy: EdgePolicy,
)
    requires
        template.wf(),
        live.wf(),
        template.spec_same_size(live),
        pos.0 < live.spec_width(),
        pos.1 < live.spec_height(),
        live.spec_tile_at(pos.0 as int, pos.1 as int) == Tile::Player,
        spec_move_dest(live, pos, direction, policy) is Some,
        ({
            let q = spec_move_dest(live, pos, direction, policy).unwrap();
            spec_enterable_towards(live.spec_tile_at(q.0, q.1), direction)
        }),
    ensures
        spec_move_allowed(live, pos, direction, policy),
        ({
            let w = live.spec_width() as int;
            let q = spec_move_dest(live, pos, direction, policy).unwrap();
            let ip = spec_cell_index(w, pos.0 as int, pos.1 as int);
            let iq = spec_cell_index(w, q.0, q.1);
            let moved = spec_moved_grid(template, live, pos, direction, policy);
            &&& moved.len() == live@.len()
            &&& moved[iq] == Tile::Player
            &&& moved[ip] == spec_strip_player_or_object(
                template.spec_tile_at(pos.0 as int, pos.1 as int))
            &&& moved[ip] != live@[ip]
            &&& moved[iq] != live@[iq]
            &&& forall|i: int| 0 <= i < live@.len() && i != ip && i != iq ==> moved[i] == live@[i]
        }),
{
    let w = live.spec_width() as int;
    let h = live.spec_height() as int;
    let q = spec_move_dest(live, pos, direction, policy).unwrap();
    lemma_dest_in_bounds(pos.0 as int, pos.1 as int, w, h, direction, policy);
    // An enterable destination cannot hold the player marker, so the two
    // touched cells are distinct.
    assert(live.spec_tile_at(q.0, q.1) != Tile::Player);
    crate::level::lemma_cell_index_injective(w, h, pos.0 as int, pos.1 as int, q.0, q.1);
    crate::level::lemma_cell_index_in_range(w, h, pos.0 as int, pos.1 as int);
    crate::level::lemma_cell_index_in_range(w, h, q.0, q.1);
    lemma_strip_never_player(template.spec_tile_at(pos.0 as int, pos.1 as int));
}

/// A move onto a pushable destination succeeds exactly when the cell beyond
/// it, in the same direction, is freely enterable. Pushing into a wall, any
/// one-way gate, a locked door or another pushable object fails, and a
/// failed move changes no cell.
pub proof fn lemma_push_succeeds_iff_beyond_clear(
    template: Level,
    live: Level,
    pos: (usize, usize),
    direction: Direction,
    policy: EdgePolicy,
)
    requires
        live.wf(),
        pos.0 < live.spec_width(),
        pos.1 < live.spec_height(),
        live.spec_tile_at(pos.0 as int, pos.1 as int) == Tile::Player,
        spec_move_dest(live, pos, direction, policy) is Some,
        ({
            let q = spec_move_dest(live, pos, direction, policy).unwrap();
            spec_is_pushable(live.spec_tile_at(q.0, q.1))
        }),
    ensures
        spec_move_allowed(live, pos, direction, policy) == match spec_push_dest(live, pos,
            direction, policy) {
            Some(f) => spec_is_freely_enterable(live.spec_tile_at(f.0, f.1)),
            None => false,
        },
        !spec_move_allowed(live, pos, direction, policy)
            ==> spec_next_grid(template, live, pos, direction, policy) == live@,
{
    let q = spec_move_dest(live, pos, direction, policy).unwrap();
    // A pushable destination is never freely enterable nor a one-way gate,
    // so the move cannot be a plain entry.
    assert(!spec_enterable_towards(live.spec_tile_at(q.0, q.1), direction));
}

/// The grid holds the player marker at `(x, y)` and nowhere else.
pub open spec fn spec_single_player_at(grid: Seq<Tile>, width: int, x: int, y: int) -> bool {
    &&& grid[spec_cell_index(width, x, y)] == Tile::Player
    &&& forall|i: int| 0 <= i < grid.len() && i != spec_cell_index(width, x, y)
        ==> grid[i] != Tile::Player
}

/// A live grid keeps exactly one player marker: whatever an allowed move
/// does, the moved grid holds the marker at the move's destination and
/// nowhere else. A rejected move leaves the grid unchanged, so the invariant
/// holds of every resolver outcome.
pub proof fn lemma_move_keeps_single_player(
    template: Level,
    live: Level,
    pos: (usize, usize),
    direction: Direction,
    policy: EdgePolicy,
)
    requires
        live.wf(),
        pos.0 < live.spec_width(),
        pos.1 < live.spec_height(),
        spec_single_player_at(live@, live.spec_width() as int, pos.0 as int, pos.1 as int),
        spec_move_allowed(live, pos, direction, policy),
    ensures
        ({
            let q = spec_move_dest(live, pos, direction, policy).unwrap();
            spec_single_player_at(spec_moved_grid(template, live, pos, direction, policy),
                live.spec_width() as int, q.0, q.1)
        }),
{
    let w = live.spec_width() as int;
    let h = live.spec_height() as int;
    let q = spec_move_dest(live, pos, direction, policy).unwrap();
    lemma_dest_in_bounds(pos.0 as int, pos.1 as int, w, h, direction, policy);
    crate::level::lemma_cell_index_in_range(w, h, pos.0 as int, pos.1 as int);
    crate::level::lemma_cell_index_in_range(w, h, q.0, q.1);
    crate::level::lemma_cell_index_injective(w, h, pos.0 as int, pos.1 as int, q.0, q.1);
    lemma_strip_never_player(template.spec_tile_at(pos.0 as int, pos.1 as int));
    if spec_move_is_push(live, pos, direction, policy) && !spec_move_is_entry(live, pos,
        direction, policy) {
        let f = spec_push_dest(live, pos, direction, policy).unwrap();
        lemma_dest_in_bounds(q.0, q.1, w, h, direction, policy);
        crate::level::lemma_cell_index_in_range(w, h, f.0, f.1);
        crate::level::lemma_cell_index_injective(w, h, q.0, q.1, f.0, f.1);
        // The landing cell held a freely enterable tile, never the player
        // marker, and the object laid onto it is a box or key variant.
        assert(spec_object_on(live.spec_tile_at(q.0, q.1), live.spec_tile_at(f.0, f.1))
            != Tile::Player);
        if (f.0, f.1) != (pos.0 as int, pos.1 as int) {
            crate::level::lemma_cell_index_injective(w, h, pos.0 as int, pos.1 as int, f.0, f.1);
        }
    }
}

/// Rejection is idempotent: a rejected move leaves the grid it started from,
/// so resolving the same illegal request twice in a row yields the identical
/// grid state both times.
pub proof fn lemma_rejected_move_idempotent(
    template: Level,
    live: Level,
    after: Level,
    pos: (usize, usize),
    direction: Direction,
    policy: EdgePolicy,
)
    requires
        !spec_move_allowed(live, pos, direction, policy),
        after.spec_same_size(live),
        after@ == spec_next_grid(template, live, pos, direction, policy),
    ensures
        after@ == live@,
        !spec_move_allowed(after, pos, direction, policy),
        spec_next_grid(template, after, pos, direction, policy) == after@,
{
    assert(forall|x: int, y: int| after.spec_tile_at(x, y) == live.spec_tile_at(x, y));
}

} // verus!
