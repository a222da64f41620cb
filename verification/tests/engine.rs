//! The tile model, the grid, the move resolver and the undo buffer, exercised
//! on concrete levels.

use sokoban::level::Level;
use sokoban::moves::{dest_of, has_no_bare_box, resolve_move, EdgePolicy};
use sokoban::tile::{Direction, Tile};
use sokoban::undo::UndoBuffer;
use sokoban::GameError;

/// A width-by-height level with the given tiles placed on an empty grid.
fn level_with(width: usize, height: usize, tiles: &[(usize, usize, Tile)]) -> Level {
    let mut level = Level::new(width, height);
    for &(x, y, tile) in tiles {
        level.set_tile(x, y, tile).expect("tile placement in bounds");
    }
    level
}

const ALL_TILES: [Tile; 14] = [
    Tile::Empty,
    Tile::Wall,
    Tile::Player,
    Tile::Box,
    Tile::BoxInGoal,
    Tile::Goal,
    Tile::Key,
    Tile::KeyInGoal,
    Tile::LockedDoor,
    Tile::OneWayLeft,
    Tile::OneWayUp,
    Tile::OneWayRight,
    Tile::OneWayDown,
    Tile::Secret,
];

#[test]
fn tile_classification() {
    for tile in ALL_TILES {
        let pushable = matches!(tile, Tile::Box | Tile::BoxInGoal | Tile::Key | Tile::KeyInGoal);
        assert_eq!(tile.is_pushable(), pushable);
        let enterable = matches!(tile, Tile::Empty | Tile::Goal | Tile::Secret);
        assert_eq!(tile.is_freely_enterable(), enterable);
    }
}

#[test]
fn one_way_matches_exactly_its_direction() {
    let gates = [
        (Tile::OneWayLeft, Direction::Left),
        (Tile::OneWayUp, Direction::Up),
        (Tile::OneWayRight, Direction::Right),
        (Tile::OneWayDown, Direction::Down),
    ];
    for (gate, dir) in gates {
        for other in [Direction::Left, Direction::Up, Direction::Right, Direction::Down] {
            assert_eq!(gate.matches_one_way(other), other == dir);
        }
        assert!(!Tile::Wall.matches_one_way(dir));
    }
}

#[test]
fn strip_player_or_object_reverts_cells() {
    assert_eq!(Tile::Player.strip_player_or_object(), Tile::Empty);
    assert_eq!(Tile::Box.strip_player_or_object(), Tile::Empty);
    assert_eq!(Tile::Key.strip_player_or_object(), Tile::Empty);
    assert_eq!(Tile::LockedDoor.strip_player_or_object(), Tile::Empty);
    assert_eq!(Tile::BoxInGoal.strip_player_or_object(), Tile::Goal);
    assert_eq!(Tile::KeyInGoal.strip_player_or_object(), Tile::Goal);
    assert_eq!(Tile::Goal.strip_player_or_object(), Tile::Goal);
    assert_eq!(Tile::Wall.strip_player_or_object(), Tile::Wall);
    assert_eq!(Tile::OneWayUp.strip_player_or_object(), Tile::OneWayUp);
    assert_eq!(Tile::Secret.strip_player_or_object(), Tile::Secret);
}

#[test]
fn tile_bytes_round_trip() {
    for tile in ALL_TILES {
        assert_eq!(Tile::from_byte(tile.to_byte()), Some(tile));
    }
    assert_eq!(Tile::from_byte(0), None);
    assert_eq!(Tile::from_byte(b'z'), None);
}

#[test]
fn grid_reads_and_writes_are_bounds_checked() {
    let mut level = Level::new(3, 2);
    assert_eq!(level.width(), 3);
    assert_eq!(level.height(), 2);
    assert_eq!(level.get_tile(0, 0), Some(Tile::Empty));
    assert_eq!(level.get_tile(3, 0), None);
    assert_eq!(level.get_tile(0, 2), None);
    assert_eq!(level.set_tile(2, 1, Tile::Wall), Ok(()));
    assert_eq!(level.get_tile(2, 1), Some(Tile::Wall));
    assert_eq!(level.set_tile(3, 0, Tile::Wall), Err(GameError::OutOfBounds));
    assert_eq!(level.set_tile(0, 2, Tile::Wall), Err(GameError::OutOfBounds));
    // The rejected writes left every cell as it was.
    assert_eq!(level.get_tile(0, 0), Some(Tile::Empty));
    assert_eq!(level.get_tile(2, 1), Some(Tile::Wall));
}

#[test]
fn clone_is_a_deep_copy() {
    let level = level_with(3, 3, &[(1, 1, Tile::Player), (2, 2, Tile::Box)]);
    let mut copy = level.clone();
    assert_eq!(copy, level);
    copy.set_tile(0, 0, Tile::Wall).unwrap();
    assert_ne!(copy, level);
    assert_eq!(level.get_tile(0, 0), Some(Tile::Empty));
}

#[test]
fn find_player_scans_column_major() {
    let level = level_with(3, 3, &[(2, 0, Tile::Player), (1, 2, Tile::Player)]);
    // Column-major: column 1 row 2 comes before column 2 row 0.
    assert_eq!(level.find_player(), Some((1, 2)));
    let empty = Level::new(3, 3);
    assert_eq!(empty.find_player(), None);
}

#[test]
fn dest_of_wraps_or_stops_at_edges() {
    assert_eq!(dest_of((0, 1), 3, 3, Direction::Left, EdgePolicy::Wrap), Some((2, 1)));
    assert_eq!(dest_of((0, 1), 3, 3, Direction::Left, EdgePolicy::Bounded), None);
    assert_eq!(dest_of((2, 1), 3, 3, Direction::Right, EdgePolicy::Wrap), Some((0, 1)));
    assert_eq!(dest_of((2, 1), 3, 3, Direction::Right, EdgePolicy::Bounded), None);
    assert_eq!(dest_of((1, 0), 3, 3, Direction::Up, EdgePolicy::Wrap), Some((1, 2)));
    assert_eq!(dest_of((1, 2), 3, 3, Direction::Down, EdgePolicy::Bounded), None);
    assert_eq!(dest_of((1, 1), 3, 3, Direction::Right, EdgePolicy::Bounded), Some((2, 1)));
}

/// A free entry moves the player and changes exactly the two cells involved.
#[test]
fn free_entry_changes_exactly_two_cells() {
    // The far box keeps the level unsolved, so only the entry is observed.
    let template = level_with(3, 3, &[(1, 1, Tile::Player), (0, 0, Tile::Box)]);
    let mut live = template.clone();
    let before = live.clone();
    let outcome = resolve_move(&template, &mut live, (1, 1), Direction::Right,
        EdgePolicy::Bounded);
    assert!(outcome.changed);
    assert_eq!(outcome.new_pos, (2, 1));
    assert!(!outcome.won);
    assert!(!outcome.secret_found);
    let mut diffs = 0;
    for x in 0..3 {
        for y in 0..3 {
            if live.get_tile(x, y) != before.get_tile(x, y) {
                diffs += 1;
            }
        }
    }
    assert_eq!(diffs, 2);
    assert_eq!(live.get_tile(1, 1), Some(Tile::Empty));
    assert_eq!(live.get_tile(2, 1), Some(Tile::Player));
}

/// The vacated cell reverts to the template's stripped design tile, keeping
/// the goal under the player.
#[test]
fn vacated_cell_keeps_goal_from_template() {
    let template = level_with(3, 1, &[(1, 0, Tile::Goal)]);
    let mut live = level_with(3, 1, &[(1, 0, Tile::Player)]);
    let outcome = resolve_move(&template, &mut live, (1, 0), Direction::Right,
        EdgePolicy::Bounded);
    assert!(outcome.changed);
    assert_eq!(live.get_tile(1, 0), Some(Tile::Goal));
    assert_eq!(live.get_tile(2, 0), Some(Tile::Player));
}

/// The concrete winning push: the box lands on the goal as a box-in-goal and,
/// being the last bare box, wins the level.
#[test]
fn pushing_last_box_onto_goal_wins() {
    let template = level_with(3, 3, &[
        (0, 1, Tile::Player),
        (1, 1, Tile::Box),
        (2, 1, Tile::Goal),
    ]);
    let mut live = template.clone();
    let outcome = resolve_move(&template, &mut live, (0, 1), Direction::Right,
        EdgePolicy::Bounded);
    assert!(outcome.changed);
    assert!(outcome.won);
    assert!(!outcome.secret_found);
    assert_eq!(outcome.new_pos, (1, 1));
    assert_eq!(live.get_tile(0, 1), Some(Tile::Empty));
    assert_eq!(live.get_tile(1, 1), Some(Tile::Player));
    assert_eq!(live.get_tile(2, 1), Some(Tile::BoxInGoal));
    assert!(has_no_bare_box(&live));
}

/// With a second bare box elsewhere the same push does not win yet.
#[test]
fn push_onto_goal_without_clearing_all_boxes_does_not_win() {
    let template = level_with(4, 3, &[
        (0, 1, Tile::Player),
        (1, 1, Tile::Box),
        (2, 1, Tile::Goal),
        (3, 2, Tile::Box),
    ]);
    let mut live = template.clone();
    let outcome = resolve_move(&template, &mut live, (0, 1), Direction::Right,
        EdgePolicy::Bounded);
    assert!(outcome.changed);
    assert!(!outcome.won);
    assert_eq!(live.get_tile(2, 1), Some(Tile::BoxInGoal));
}

/// Entering the one-way gate from its open side succeeds.
#[test]
fn entering_one_way_gate_from_open_side_succeeds() {
    let template = level_with(3, 1, &[(0, 0, Tile::OneWayLeft), (1, 0, Tile::Player)]);
    let mut live = template.clone();
    let outcome = resolve_move(&template, &mut live, (1, 0), Direction::Left,
        EdgePolicy::Bounded);
    assert!(outcome.changed);
    assert_eq!(outcome.new_pos, (0, 0));
    assert_eq!(live.get_tile(0, 0), Some(Tile::Player));
}

/// Entering the same gate from a closed side is rejected without any change.
#[test]
fn entering_one_way_gate_from_closed_side_fails() {
    let template = level_with(3, 1, &[(1, 0, Tile::OneWayLeft), (0, 0, Tile::Player)]);
    let mut live = template.clone();
    let before = live.clone();
    let outcome = resolve_move(&template, &mut live, (0, 0), Direction::Right,
        EdgePolicy::Bounded);
    assert!(!outcome.changed);
    assert_eq!(outcome.new_pos, (0, 0));
    assert_eq!(live, before);
}

/// A box is never pushed through a one-way door. Even when the door matches
/// the push direction — so the player alone could enter it — the push is
/// rejected and the grid is left unchanged.
#[test]
fn pushing_box_into_matching_one_way_gate_fails() {
    let template = level_with(4, 1, &[
        (3, 0, Tile::Player),
        (2, 0, Tile::Box),
        (1, 0, Tile::OneWayLeft),
    ]);
    let mut live = template.clone();
    let before = live.clone();
    let outcome = resolve_move(&template, &mut live, (3, 0), Direction::Left,
        EdgePolicy::Bounded);
    assert!(!outcome.changed);
    assert_eq!(outcome.new_pos, (3, 0));
    assert_eq!(live, before);
}

/// Pushing a box towards a mismatched one-way gate fails with zero changes.
#[test]
fn pushing_box_into_mismatched_one_way_gate_fails() {
    let template = level_with(4, 1, &[
        (3, 0, Tile::Player),
        (2, 0, Tile::Box),
        (1, 0, Tile::OneWayRight),
    ]);
    let mut live = template.clone();
    let before = live.clone();
    let outcome = resolve_move(&template, &mut live, (3, 0), Direction::Left,
        EdgePolicy::Bounded);
    assert!(!outcome.changed);
    assert_eq!(live, before);
}

/// Pushing a box into a wall or into another pushable object fails with zero
/// changes.
#[test]
fn pushing_box_into_wall_or_box_fails() {
    let template = level_with(4, 1, &[
        (0, 0, Tile::Player),
        (1, 0, Tile::Box),
        (2, 0, Tile::Wall),
    ]);
    let mut live = template.clone();
    let before = live.clone();
    let outcome = resolve_move(&template, &mut live, (0, 0), Direction::Right,
        EdgePolicy::Bounded);
    assert!(!outcome.changed);
    assert_eq!(live, before);

    let template = level_with(4, 1, &[
        (0, 0, Tile::Player),
        (1, 0, Tile::Box),
        (2, 0, Tile::Key),
    ]);
    let mut live = template.clone();
    let before = live.clone();
    let outcome = resolve_move(&template, &mut live, (0, 0), Direction::Right,
        EdgePolicy::Bounded);
    assert!(!outcome.changed);
    assert_eq!(live, before);
}

/// A locked door is impassable terrain: walking into it and pushing a key
/// into it both fail.
#[test]
fn locked_door_blocks_moves_and_pushes() {
    let template = level_with(3, 1, &[(0, 0, Tile::Player), (1, 0, Tile::LockedDoor)]);
    let mut live = template.clone();
    let before = live.clone();
    let outcome = resolve_move(&template, &mut live, (0, 0), Direction::Right,
        EdgePolicy::Bounded);
    assert!(!outcome.changed);
    assert_eq!(live, before);

    let template = level_with(4, 1, &[
        (0, 0, Tile::Player),
        (1, 0, Tile::Key),
        (2, 0, Tile::LockedDoor),
    ]);
    let mut live = template.clone();
    let before = live.clone();
    let outcome = resolve_move(&template, &mut live, (0, 0), Direction::Right,
        EdgePolicy::Bounded);
    assert!(!outcome.changed);
    assert_eq!(live, before);
}

/// A key pushed onto a goal becomes a key-in-goal, and keys never block the
/// win check.
#[test]
fn pushing_key_onto_goal_and_win_ignores_keys() {
    let template = level_with(4, 1, &[
        (0, 0, Tile::Player),
        (1, 0, Tile::Key),
        (2, 0, Tile::Goal),
    ]);
    let mut live = template.clone();
    let outcome = resolve_move(&template, &mut live, (0, 0), Direction::Right,
        EdgePolicy::Bounded);
    assert!(outcome.changed);
    assert_eq!(live.get_tile(2, 0), Some(Tile::KeyInGoal));
    // No bare box exists at all, so the successful move wins.
    assert!(outcome.won);
}

/// Entering a secret cell ends the turn at once with the secret flag and no
/// win scan.
#[test]
fn entering_secret_ends_turn() {
    let template = level_with(3, 1, &[(0, 0, Tile::Player), (1, 0, Tile::Secret)]);
    let mut live = template.clone();
    let outcome = resolve_move(&template, &mut live, (0, 0), Direction::Right,
        EdgePolicy::Bounded);
    assert!(outcome.changed);
    assert!(outcome.secret_found);
    assert!(!outcome.won);
    assert_eq!(live.get_tile(1, 0), Some(Tile::Player));
}

/// Rejection is idempotent: resolving the same illegal move twice leaves the
/// identical grid both times.
#[test]
fn rejected_move_is_idempotent() {
    let template = level_with(3, 1, &[(0, 0, Tile::Player), (1, 0, Tile::Wall)]);
    let mut live = template.clone();
    let before = live.clone();
    let first = resolve_move(&template, &mut live, (0, 0), Direction::Right,
        EdgePolicy::Bounded);
    assert!(!first.changed);
    assert_eq!(live, before);
    let second = resolve_move(&template, &mut live, (0, 0), Direction::Right,
        EdgePolicy::Bounded);
    assert!(!second.changed);
    assert_eq!(live, before);
}

/// Movement wraps around the grid's edges under the wrapping policy.
#[test]
fn wrapping_policy_wraps_the_player() {
    let template = level_with(3, 1, &[(0, 0, Tile::Player)]);
    let mut live = template.clone();
    let outcome = resolve_move(&template, &mut live, (0, 0), Direction::Left, EdgePolicy::Wrap);
    assert!(outcome.changed);
    assert_eq!(outcome.new_pos, (2, 0));
    assert_eq!(live.get_tile(2, 0), Some(Tile::Player));
    assert_eq!(live.get_tile(0, 0), Some(Tile::Empty));
}

/// Under the wrapping policy a push can carry an object over the edge onto
/// the opposite side.
#[test]
fn wrapping_policy_wraps_a_push() {
    let template = level_with(3, 1, &[(1, 0, Tile::Player), (2, 0, Tile::Box)]);
    let mut live = template.clone();
    let outcome = resolve_move(&template, &mut live, (1, 0), Direction::Right, EdgePolicy::Wrap);
    assert!(outcome.changed);
    assert_eq!(outcome.new_pos, (2, 0));
    assert_eq!(live.get_tile(0, 0), Some(Tile::Box));
    assert_eq!(live.get_tile(2, 0), Some(Tile::Player));
    assert_eq!(live.get_tile(1, 0), Some(Tile::Empty));
}

/// Record, move, undo: the exact prior grid, move count and player position
/// come back, and a second undo redoes the move.
#[test]
fn record_then_undo_restores_exact_state() {
    let template = level_with(3, 3, &[(1, 1, Tile::Player), (2, 2, Tile::Box)]);
    let mut live = template.clone();
    let before = live.clone();

    let mut buffer = UndoBuffer::new();
    buffer.record(live.clone(), 7, (1, 1));

    let outcome = resolve_move(&template, &mut live, (1, 1), Direction::Right,
        EdgePolicy::Bounded);
    assert!(outcome.changed);
    let after_move = live.clone();
    let mut moves: u32 = 8;
    let mut pos = outcome.new_pos;

    assert!(buffer.undo(&mut live, &mut moves, &mut pos));
    assert_eq!(live, before);
    assert_eq!(moves, 7);
    assert_eq!(pos, (1, 1));

    // The buffer now holds the post-move state: undoing again redoes.
    assert!(buffer.undo(&mut live, &mut moves, &mut pos));
    assert_eq!(live, after_move);
    assert_eq!(moves, 8);
    assert_eq!(pos, (2, 1));
}

#[test]
fn cleared_undo_buffer_forgets_its_snapshot() {
    let mut buffer = UndoBuffer::new();
    buffer.record(Level::new(2, 2), 5, (1, 0));
    buffer.clear();
    let mut live = Level::new(2, 2);
    let mut moves: u32 = 9;
    let mut pos = (0, 0);
    assert!(!buffer.undo(&mut live, &mut moves, &mut pos));
    assert_eq!(moves, 9);
}

#[test]
fn empty_undo_buffer_does_nothing() {
    let mut buffer = UndoBuffer::new();
    let mut live = Level::new(2, 2);
    let before = live.clone();
    let mut moves: u32 = 3;
    let mut pos = (1, 1);
    assert!(!buffer.undo(&mut live, &mut moves, &mut pos));
    assert_eq!(live, before);
    assert_eq!(moves, 3);
    assert_eq!(pos, (1, 1));
}
