//! Level packs: score records, the unlock cursor, the aggregates, and the
//! two persisted byte layouts round-tripping losslessly.

use sokoban::level::Level;
use sokoban::pack::{LevelEntry, LevelPack};
use sokoban::tile::Tile;
use sokoban::GameError;

fn pack_with_levels(count: usize) -> LevelPack {
    let mut pack = LevelPack::new("pack", "pack.lvl.sav");
    for _ in 0..count {
        pack.add_level(Level::new(3, 3));
    }
    pack
}

#[test]
fn new_pack_is_empty() {
    let pack = LevelPack::new("tutorial", "tutorial.lvl.sav");
    assert_eq!(pack.id().as_str(), "tutorial");
    assert_eq!(pack.path().as_str(), "tutorial.lvl.sav");
    assert_eq!(pack.level_count(), 0);
    assert_eq!(pack.min_level_not_completed(), 0);
}

#[test]
fn add_level_appends_without_scores() {
    let mut pack = pack_with_levels(0);
    pack.add_level(Level::new(4, 5));
    assert_eq!(pack.level_count(), 1);
    let entry = &pack.levels()[0];
    assert_eq!(entry.level().width(), 4);
    assert_eq!(entry.level().height(), 5);
    assert_eq!(entry.best_time(), None);
    assert_eq!(entry.best_moves(), None);
}

#[test]
fn remove_level_checks_the_index() {
    let mut pack = pack_with_levels(2);
    assert_eq!(pack.remove_level(2), Err(GameError::InvalidIndex));
    assert_eq!(pack.remove_level(0), Ok(()));
    assert_eq!(pack.level_count(), 1);
}

/// The concrete score scenario: a worse time never replaces the stored best,
/// while a better move count does.
#[test]
fn update_stats_keeps_best_time_and_improves_moves() {
    let mut pack = pack_with_levels(1);
    assert_eq!(pack.update_stats(0, 5000, 12), Ok(()));
    assert_eq!(pack.update_stats(0, 6000, 10), Ok(()));
    assert_eq!(pack.levels()[0].best_time(), Some(5000));
    assert_eq!(pack.levels()[0].best_moves(), Some(10));
}

#[test]
fn update_stats_always_sets_a_first_value() {
    let mut pack = pack_with_levels(1);
    assert_eq!(pack.levels()[0].best_time(), None);
    assert_eq!(pack.update_stats(0, 81000, 44), Ok(()));
    assert_eq!(pack.levels()[0].best_time(), Some(81000));
    assert_eq!(pack.levels()[0].best_moves(), Some(44));
}

/// An equal score is not an improvement: only strictly smaller values replace.
#[test]
fn update_stats_ignores_equal_scores() {
    let mut pack = pack_with_levels(1);
    assert_eq!(pack.update_stats(0, 5000, 12), Ok(()));
    assert_eq!(pack.update_stats(0, 5000, 12), Ok(()));
    assert_eq!(pack.levels()[0].best_time(), Some(5000));
    assert_eq!(pack.levels()[0].best_moves(), Some(12));
}

#[test]
fn update_stats_rejects_a_bad_index() {
    let mut pack = pack_with_levels(1);
    assert_eq!(pack.update_stats(1, 100, 1), Err(GameError::InvalidIndex));
    assert_eq!(pack.levels()[0].best_time(), None);
}

#[test]
fn unlock_cursor_moves_forward() {
    let mut pack = pack_with_levels(3);
    pack.set_min_level_not_completed(1);
    assert_eq!(pack.min_level_not_completed(), 1);
    pack.set_min_level_not_completed(3);
    assert_eq!(pack.min_level_not_completed(), 3);
}

/// The aggregate is all-or-nothing: one unrecorded level makes the sum
/// unknown, and with every level recorded it is the exact sum.
#[test]
fn best_time_sum_is_all_or_nothing() {
    let mut pack = pack_with_levels(3);
    assert_eq!(pack.level_pack_best_time_sum(), None);
    pack.update_stats(0, 1000, 5).unwrap();
    pack.update_stats(1, 2500, 7).unwrap();
    assert_eq!(pack.level_pack_best_time_sum(), None);
    pack.update_stats(2, 11, 9).unwrap();
    assert_eq!(pack.level_pack_best_time_sum(), Some(3511));
    assert_eq!(pack.level_pack_best_moves_sum(), Some(21));
}

#[test]
fn sums_of_an_empty_pack_are_zero() {
    let pack = pack_with_levels(0);
    assert_eq!(pack.level_pack_best_time_sum(), Some(0));
    assert_eq!(pack.level_pack_best_moves_sum(), Some(0));
}

#[test]
fn best_moves_sum_is_all_or_nothing() {
    let mut pack = pack_with_levels(2);
    pack.update_stats(0, 1, 40).unwrap();
    assert_eq!(pack.level_pack_best_moves_sum(), None);
    pack.update_stats(1, 2, 2).unwrap();
    assert_eq!(pack.level_pack_best_moves_sum(), Some(42));
}

/// The progress save round-trips: cursor and every score come back exactly.
#[test]
fn save_game_bytes_round_trip() {
    let mut pack = pack_with_levels(3);
    pack.update_stats(0, 5000, 12).unwrap();
    pack.update_stats(2, 77, 3).unwrap();
    pack.set_min_level_not_completed(2);
    let bytes = pack.save_game_bytes();

    let mut restored = pack_with_levels(3);
    assert_eq!(restored.apply_save_game_bytes(&bytes), Ok(()));
    assert_eq!(restored.min_level_not_completed(), 2);
    assert_eq!(restored.levels()[0].best_time(), Some(5000));
    assert_eq!(restored.levels()[0].best_moves(), Some(12));
    assert_eq!(restored.levels()[1].best_time(), None);
    assert_eq!(restored.levels()[1].best_moves(), None);
    assert_eq!(restored.levels()[2].best_time(), Some(77));
    assert_eq!(restored.levels()[2].best_moves(), Some(3));
}

/// A malformed save leaves the pack exactly as it was: no partial load.
#[test]
fn malformed_save_games_are_rejected_without_partial_load() {
    let mut pack = pack_with_levels(2);
    pack.update_stats(0, 123, 4).unwrap();
    let good = pack.save_game_bytes();

    // Truncated header.
    assert_eq!(pack.apply_save_game_bytes(&good[..10].to_vec()),
        Err(GameError::MalformedSaveData));
    // Truncated records.
    assert_eq!(pack.apply_save_game_bytes(&good[..good.len() - 1].to_vec()),
        Err(GameError::MalformedSaveData));
    // Trailing garbage.
    let mut long = good.clone();
    long.push(0);
    assert_eq!(pack.apply_save_game_bytes(&long), Err(GameError::MalformedSaveData));
    // A presence tag outside 0 and 1.
    let mut bad_tag = good.clone();
    bad_tag[16] = 7;
    assert_eq!(pack.apply_save_game_bytes(&bad_tag), Err(GameError::MalformedSaveData));
    // A cursor beyond the level count.
    let mut bad_cursor = good.clone();
    bad_cursor[0] = 9;
    assert_eq!(pack.apply_save_game_bytes(&bad_cursor), Err(GameError::MalformedSaveData));

    // The pack still holds exactly what it held before.
    assert_eq!(pack.levels()[0].best_time(), Some(123));
    assert_eq!(pack.levels()[0].best_moves(), Some(4));
    assert_eq!(pack.levels()[1].best_time(), None);
    assert_eq!(pack.min_level_not_completed(), 0);
}

/// A cursor standing exactly at the level count — the whole pack solved — is
/// a valid save.
#[test]
fn save_game_cursor_at_the_count_is_valid() {
    let mut pack = pack_with_levels(2);
    pack.set_min_level_not_completed(2);
    let bytes = pack.save_game_bytes();
    let mut restored = pack_with_levels(2);
    assert_eq!(restored.apply_save_game_bytes(&bytes), Ok(()));
    assert_eq!(restored.min_level_not_completed(), 2);
}

/// A save recorded for a pack of another size is rejected.
#[test]
fn save_game_with_wrong_level_count_is_rejected() {
    let pack = pack_with_levels(3);
    let bytes = pack.save_game_bytes();
    let mut other = pack_with_levels(2);
    assert_eq!(other.apply_save_game_bytes(&bytes), Err(GameError::MalformedSaveData));
}

/// The editor file round-trips: every level's geometry comes back exactly.
#[test]
fn editor_pack_bytes_round_trip() {
    let mut pack = LevelPack::new("mine", "mine.lvl.edit");
    let mut first = Level::new(4, 3);
    first.set_tile(1, 1, Tile::Player).unwrap();
    first.set_tile(2, 1, Tile::Box).unwrap();
    first.set_tile(3, 2, Tile::Goal).unwrap();
    first.set_tile(0, 0, Tile::Wall).unwrap();
    pack.add_level(first.clone());
    let mut second = Level::new(3, 5);
    second.set_tile(2, 4, Tile::OneWayDown).unwrap();
    second.set_tile(1, 0, Tile::KeyInGoal).unwrap();
    pack.add_level(second.clone());

    let bytes = pack.editor_pack_bytes();
    let restored = LevelPack::from_editor_bytes("mine", "mine.lvl.edit", &bytes)
        .expect("a saved pack parses back");
    assert_eq!(restored.id().as_str(), "mine");
    assert_eq!(restored.level_count(), 2);
    assert_eq!(restored.min_level_not_completed(), 0);
    assert_eq!(*restored.levels()[0].level(), first);
    assert_eq!(*restored.levels()[1].level(), second);
    assert_eq!(restored.levels()[0].best_time(), None);
    assert_eq!(restored.levels()[1].best_moves(), None);
}

#[test]
fn malformed_editor_files_are_rejected() {
    let mut pack = LevelPack::new("p", "p.lvl.edit");
    pack.add_level(Level::new(3, 3));
    let good = pack.editor_pack_bytes();

    assert!(matches!(LevelPack::from_editor_bytes("p", "p", &Vec::new()),
        Err(GameError::MalformedSaveData)));
    assert!(matches!(LevelPack::from_editor_bytes("p", "p", &good[..good.len() - 1].to_vec()),
        Err(GameError::MalformedSaveData)));
    let mut long = good.clone();
    long.push(b' ');
    assert!(matches!(LevelPack::from_editor_bytes("p", "p", &long),
        Err(GameError::MalformedSaveData)));
    // A geometry byte outside the tile alphabet.
    let mut bad_tile = good.clone();
    let last = bad_tile.len() - 1;
    bad_tile[last] = 1;
    assert!(matches!(LevelPack::from_editor_bytes("p", "p", &bad_tile),
        Err(GameError::MalformedSaveData)));
    // A zero-width level.
    let mut zero_width = good.clone();
    for b in &mut zero_width[8..16] {
        *b = 0;
    }
    assert!(matches!(LevelPack::from_editor_bytes("p", "p", &zero_width),
        Err(GameError::MalformedSaveData)));
}

/// Storing an edited level back keeps its index and its recorded scores.
#[test]
fn replace_level_overwrites_in_place() {
    let mut pack = pack_with_levels(3);
    pack.update_stats(1, 900, 4).unwrap();
    let mut edited = Level::new(5, 4);
    edited.set_tile(2, 2, Tile::Wall).unwrap();
    assert_eq!(pack.replace_level(1, edited.clone()), Ok(()));
    assert_eq!(pack.level_count(), 3);
    assert_eq!(*pack.levels()[1].level(), edited);
    assert_eq!(pack.levels()[1].best_time(), Some(900));
    assert_eq!(pack.levels()[1].best_moves(), Some(4));
    assert_eq!(pack.levels()[0].level().width(), 3);
    assert_eq!(pack.replace_level(3, Level::new(3, 3)), Err(GameError::InvalidIndex));
}

/// A sum beyond the integer's range is reported as its ceiling rather than
/// faulting, so a restored save can never crash the aggregates.
#[test]
fn oversized_sums_are_clamped() {
    let mut pack = pack_with_levels(2);
    pack.update_stats(0, u64::MAX, u32::MAX).unwrap();
    pack.update_stats(1, u64::MAX, 1).unwrap();
    assert_eq!(pack.level_pack_best_time_sum(), Some(u64::MAX));
    assert_eq!(pack.level_pack_best_moves_sum(), Some(u32::MAX));
}

#[test]
fn with_scores_restores_outright() {
    let entry = LevelEntry::with_scores(Level::new(3, 3), Some(9), None);
    assert_eq!(entry.best_time(), Some(9));
    assert_eq!(entry.best_moves(), None);
}
