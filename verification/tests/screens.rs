//! The screen state machines: menu navigation, the play session, and the
//! editor flows.

use sokoban::level::Level;
use sokoban::pack::LevelPack;
use sokoban::screen::{
    initial_level_index, navigate_grid, ContinueAction, DialogChoice, EscapeAction,
    InGameDialogAction, KeyEvent, LevelEditorAction, LevelEditorDialogAction,
    LevelPackEditorAction, MenuAction, PackChoice, PackEditorAction, ScreenId, ScreenInGame,
    ScreenLevelEditor, ScreenLevelPackEditor, ScreenSelectLevel, ScreenSelectLevelPack,
    ScreenSelectLevelPackEditor, ScreenStartMenu,
};
use sokoban::tile::{Direction, Tile};

fn level_with(width: usize, height: usize, tiles: &[(usize, usize, Tile)]) -> Level {
    let mut level = Level::new(width, height);
    for &(x, y, tile) in tiles {
        level.set_tile(x, y, tile).expect("tile placement in bounds");
    }
    level
}

fn pack_with(levels: Vec<Level>) -> LevelPack {
    let mut pack = LevelPack::new("pack", "pack.lvl.sav");
    for level in levels {
        pack.add_level(level);
    }
    pack
}

#[test]
fn start_menu_routes_keys() {
    let mut menu = ScreenStartMenu::new();
    assert_eq!(menu.on_key_pressed(KeyEvent::Enter),
        MenuAction::SetScreen(ScreenId::SelectLevelPack));
    assert_eq!(menu.on_key_pressed(KeyEvent::Escape), MenuAction::OpenExitDialog);
    assert_eq!(menu.on_key_pressed(KeyEvent::Help), MenuAction::OpenHelp);
    assert_eq!(menu.on_key_pressed(KeyEvent::Ascii(b'q')), MenuAction::Stay);
    assert!(menu.on_dialog_selection(DialogChoice::Yes));
    assert!(!menu.on_dialog_selection(DialogChoice::No));
}

#[test]
fn menu_navigation_stays_on_the_grid() {
    assert_eq!(navigate_grid(0, 5, KeyEvent::Left), 0);
    assert_eq!(navigate_grid(3, 5, KeyEvent::Left), 2);
    assert_eq!(navigate_grid(4, 5, KeyEvent::Right), 4);
    assert_eq!(navigate_grid(3, 5, KeyEvent::Right), 4);
    assert_eq!(navigate_grid(3, 5, KeyEvent::Up), 3);
    assert_eq!(navigate_grid(30, 40, KeyEvent::Up), 6);
    assert_eq!(navigate_grid(6, 40, KeyEvent::Down), 30);
    assert_eq!(navigate_grid(30, 40, KeyEvent::Down), 30);
}

#[test]
fn initial_level_index_wraps_after_completion() {
    assert_eq!(initial_level_index(2, 5), 2);
    assert_eq!(initial_level_index(5, 5), 0);
    assert_eq!(initial_level_index(7, 5), 0);
}

#[test]
fn pack_selection_enters_pack_or_editor() {
    let mut screen = ScreenSelectLevelPack::new();
    let mut selected: usize = 0;
    let (action, choice) = screen.on_key_pressed(&mut selected, 2, 1, 4, KeyEvent::Enter);
    assert_eq!(action, MenuAction::SetScreen(ScreenId::SelectLevel));
    assert_eq!(choice, Some(PackChoice::PlayPack(1)));

    selected = 2;
    let (action, choice) = screen.on_key_pressed(&mut selected, 2, 0, 0, KeyEvent::Enter);
    assert_eq!(action, MenuAction::SetScreen(ScreenId::SelectLevelPackEditor));
    assert_eq!(choice, Some(PackChoice::OpenEditor));

    let (action, _) = screen.on_key_pressed(&mut selected, 2, 0, 0, KeyEvent::Escape);
    assert_eq!(action, MenuAction::SetScreen(ScreenId::StartMenu));
}

#[test]
fn level_selection_respects_the_unlock_cursor() {
    let mut screen = ScreenSelectLevel::new();
    screen.on_set_screen(2);
    assert_eq!(screen.selected_level(), 2);
    // Level 2 is at the cursor: playable.
    let (action, start) = screen.on_key_pressed(4, 2, KeyEvent::Enter);
    assert_eq!(action, MenuAction::SetScreen(ScreenId::InGame));
    assert_eq!(start, Some(2));
    // Move beyond the cursor: not playable.
    let (_, _) = screen.on_key_pressed(4, 2, KeyEvent::Right);
    assert_eq!(screen.selected_level(), 3);
    let (action, start) = screen.on_key_pressed(4, 2, KeyEvent::Enter);
    assert_eq!(action, MenuAction::Stay);
    assert_eq!(start, None);
}

#[test]
fn start_level_seats_the_player_and_resets_counters() {
    let level = level_with(3, 3, &[(2, 1, Tile::Player), (1, 2, Tile::Box)]);
    let mut game = ScreenInGame::new();
    game.start_level(&level);
    assert_eq!(game.moves(), 0);
    assert_eq!(game.player_pos(), (2, 1));
    assert!(!game.continue_flag());
    assert!(!game.game_over_flag());
    assert!(!game.secret_found_flag());
    assert_eq!(game.time_min(), 0);
    let live = game.level_now().as_ref().expect("a live copy exists");
    assert_eq!(*live, level);
}

/// The full winning flow: the move counter, the improve-only scores, the
/// unlock cursor and the flags all settle as one.
#[test]
fn winning_move_updates_scores_and_cursor() {
    let level = level_with(3, 3, &[
        (0, 1, Tile::Player),
        (1, 1, Tile::Box),
        (2, 1, Tile::Goal),
    ]);
    let mut pack = pack_with(vec![level.clone(), Level::new(3, 3)]);
    let mut game = ScreenInGame::new();
    game.start_level(pack.levels()[0].level());

    let feedback = game.move_player(&mut pack, 0, Direction::Right, 1000);
    assert!(feedback.moved);
    assert!(feedback.won);
    assert!(!feedback.secret_found);
    assert_eq!(game.moves(), 1);
    assert!(game.continue_flag());
    assert_eq!(pack.levels()[0].best_moves(), Some(1));
    assert_eq!(pack.levels()[0].best_time(), Some(0));
    assert_eq!(pack.min_level_not_completed(), 1);

    // Confirming the win advances to the next level of the pack.
    let mut index: usize = 0;
    assert_eq!(game.confirm_continue(pack.level_count(), &mut index),
        ContinueAction::StartNextLevel);
    assert_eq!(index, 1);
    assert!(!game.continue_flag());
}

#[test]
fn winning_the_last_level_ends_the_pack() {
    let level = level_with(3, 1, &[(0, 0, Tile::Player), (1, 0, Tile::Box), (2, 0, Tile::Goal)]);
    let mut pack = pack_with(vec![level.clone()]);
    let mut game = ScreenInGame::new();
    game.start_level(pack.levels()[0].level());
    let feedback = game.move_player(&mut pack, 0, Direction::Right, 0);
    assert!(feedback.won);
    let mut index: usize = 0;
    assert_eq!(game.confirm_continue(pack.level_count(), &mut index),
        ContinueAction::AllLevelsCompleted);
    assert_eq!(index, 0);
    assert!(game.game_over_flag());
}

/// A rejected move changes nothing: no counter, no undo slot, no grid cell.
#[test]
fn rejected_move_is_a_silent_no_op() {
    let level = level_with(3, 3, &[(0, 0, Tile::Player), (1, 0, Tile::Wall)]);
    let mut pack = pack_with(vec![level.clone()]);
    let mut game = ScreenInGame::new();
    game.start_level(pack.levels()[0].level());

    let feedback = game.move_player(&mut pack, 0, Direction::Right, 50);
    assert!(!feedback.moved);
    assert_eq!(game.moves(), 0);
    assert_eq!(game.player_pos(), (0, 0));
    assert_eq!(*game.level_now().as_ref().unwrap(), level);
}

/// The session's one-step undo: move, undo back, undo again to redo.
#[test]
fn session_undo_restores_and_redoes() {
    let level = level_with(3, 3, &[(1, 1, Tile::Player)]);
    let mut pack = pack_with(vec![level.clone()]);
    let mut game = ScreenInGame::new();
    game.start_level(pack.levels()[0].level());

    let feedback = game.move_player(&mut pack, 0, Direction::Down, 0);
    assert!(feedback.moved);
    assert_eq!(game.player_pos(), (1, 2));
    assert_eq!(game.moves(), 1);
    let after_move = game.level_now().as_ref().unwrap().clone();

    game.undo_step();
    assert_eq!(game.player_pos(), (1, 1));
    assert_eq!(game.moves(), 0);
    assert_eq!(*game.level_now().as_ref().unwrap(), level);

    game.undo_step();
    assert_eq!(game.player_pos(), (1, 2));
    assert_eq!(game.moves(), 1);
    assert_eq!(*game.level_now().as_ref().unwrap(), after_move);
}

#[test]
fn secret_discovery_ends_the_game() {
    let level = level_with(3, 1, &[(0, 0, Tile::Player), (1, 0, Tile::Secret)]);
    let mut pack = pack_with(vec![level.clone()]);
    let mut game = ScreenInGame::new();
    game.start_level(pack.levels()[0].level());
    let feedback = game.move_player(&mut pack, 0, Direction::Right, 0);
    assert!(feedback.secret_found);
    assert!(game.game_over_flag());
    assert!(game.secret_found_flag());
    assert!(!feedback.won);
    // The secret dialog always returns to the pack selection.
    assert_eq!(game.on_dialog_selection(DialogChoice::Confirm),
        InGameDialogAction::BackToPackSelection);
    assert!(!game.secret_found_flag());
    assert!(!game.game_over_flag());
}

#[test]
fn clock_updates_from_wall_time() {
    let level = level_with(3, 3, &[(1, 1, Tile::Player), (0, 0, Tile::Box)]);
    let mut pack = pack_with(vec![level.clone()]);
    let mut game = ScreenInGame::new();
    game.start_level(pack.levels()[0].level());
    // The clock starts with the first move request.
    game.move_player(&mut pack, 0, Direction::Right, 10_000);
    game.update(10_000 + 2 * 60_000 + 35_000 + 250);
    assert_eq!(game.time_min(), 2);
    assert_eq!(game.time_sec(), 35);
    assert_eq!(game.time_millis(), 250);
}

#[test]
fn pausing_shifts_the_clock_start() {
    let level = level_with(3, 3, &[(1, 1, Tile::Player), (0, 0, Tile::Box)]);
    let mut pack = pack_with(vec![level.clone()]);
    let mut game = ScreenInGame::new();
    game.start_level(pack.levels()[0].level());
    game.move_player(&mut pack, 0, Direction::Right, 1_000);

    assert_eq!(game.on_escape(4_000), EscapeAction::OpenLeaveDialog);
    // Staying in the menu for three seconds costs no play time.
    assert_eq!(game.on_dialog_selection(DialogChoice::No), InGameDialogAction::Resume);
    game.on_continue(7_000);
    game.update(8_000);
    assert_eq!(game.time_sec(), 4);
    assert_eq!(game.time_min(), 0);
}

/// Once the session is frozen by a win, further move requests are no-ops.
#[test]
fn frozen_session_ignores_move_requests() {
    let level = level_with(3, 1, &[(0, 0, Tile::Player), (1, 0, Tile::Box), (2, 0, Tile::Goal)]);
    let mut pack = pack_with(vec![level.clone()]);
    let mut game = ScreenInGame::new();
    game.start_level(pack.levels()[0].level());
    assert!(game.move_player(&mut pack, 0, Direction::Right, 0).won);
    let moves_after_win = game.moves();
    let feedback = game.move_player(&mut pack, 0, Direction::Left, 0);
    assert!(!feedback.moved);
    assert_eq!(game.moves(), moves_after_win);
}

/// A move request with a level index beyond the pack is a no-op.
#[test]
fn move_with_a_bad_level_index_is_a_no_op() {
    let level = level_with(3, 3, &[(1, 1, Tile::Player), (0, 0, Tile::Box)]);
    let mut pack = pack_with(vec![level.clone()]);
    let mut game = ScreenInGame::new();
    game.start_level(pack.levels()[0].level());
    let feedback = game.move_player(&mut pack, 5, Direction::Right, 0);
    assert!(!feedback.moved);
    assert_eq!(game.player_pos(), (1, 1));
}

#[test]
fn leave_dialog_yes_returns_to_level_selection() {
    let mut game = ScreenInGame::new();
    assert_eq!(game.on_dialog_selection(DialogChoice::Yes),
        InGameDialogAction::BackToLevelSelection);
}

#[test]
fn editor_pack_selection_collects_an_identifier() {
    let mut screen = ScreenSelectLevelPackEditor::new();
    let mut selected: usize = 1;
    // Enter on the trailing entry begins identifier input.
    assert_eq!(screen.on_key_pressed(&mut selected, 1, KeyEvent::Enter), PackEditorAction::Stay);
    assert!(screen.is_creating());
    for b in [b'm', b'!', b'y'] {
        screen.on_key_pressed(&mut selected, 1, KeyEvent::Ascii(b));
    }
    // The bang is not part of the identifier alphabet.
    assert_eq!(screen.new_pack_id().as_slice(), b"my");
    assert_eq!(screen.on_key_pressed(&mut selected, 1, KeyEvent::Enter),
        PackEditorAction::IdTooShort);
    screen.on_key_pressed(&mut selected, 1, KeyEvent::Ascii(b'_'));
    assert_eq!(screen.on_key_pressed(&mut selected, 1, KeyEvent::Enter),
        PackEditorAction::CreatePack);
    assert_eq!(screen.new_pack_id().as_slice(), b"my_");
    assert!(!screen.is_creating());
    screen.reset_id_input();
    assert!(screen.new_pack_id().is_empty());
}

#[test]
fn editor_id_length_is_capped() {
    let mut screen = ScreenSelectLevelPackEditor::new();
    let mut selected: usize = 0;
    screen.on_key_pressed(&mut selected, 0, KeyEvent::Enter);
    assert!(screen.is_creating());
    for _ in 0..40 {
        screen.on_key_pressed(&mut selected, 0, KeyEvent::Ascii(b'a'));
    }
    assert_eq!(screen.new_pack_id().len(), 32);
    screen.on_key_pressed(&mut selected, 0, KeyEvent::Delete);
    assert_eq!(screen.new_pack_id().len(), 31);
}

#[test]
fn pack_editor_creates_a_level_of_the_typed_size() {
    let mut screen = ScreenLevelPackEditor::new();
    let mut pack = LevelPack::new("p", "p.lvl.edit");
    let mut selected: usize = 0;
    // Enter on the trailing entry begins size input.
    assert_eq!(screen.on_key_pressed(&mut selected, &mut pack, KeyEvent::Enter),
        LevelPackEditorAction::Stay);
    assert!(screen.is_creating());
    screen.on_key_pressed(&mut selected, &mut pack, KeyEvent::Ascii(b'1'));
    screen.on_key_pressed(&mut selected, &mut pack, KeyEvent::Ascii(b'2'));
    screen.on_key_pressed(&mut selected, &mut pack, KeyEvent::Tab);
    screen.on_key_pressed(&mut selected, &mut pack, KeyEvent::Ascii(b'7'));
    assert_eq!(screen.on_key_pressed(&mut selected, &mut pack, KeyEvent::Enter),
        LevelPackEditorAction::LevelCreated);
    assert_eq!(pack.level_count(), 1);
    assert_eq!(pack.levels()[0].level().width(), 12);
    assert_eq!(pack.levels()[0].level().height(), 7);
}

#[test]
fn pack_editor_rejects_sizes_outside_the_console() {
    let mut screen = ScreenLevelPackEditor::new();
    let mut pack = LevelPack::new("p", "p.lvl.edit");
    let mut selected: usize = 0;
    screen.on_key_pressed(&mut selected, &mut pack, KeyEvent::Enter);
    // Width 99 is wider than the console.
    screen.on_key_pressed(&mut selected, &mut pack, KeyEvent::Ascii(b'9'));
    screen.on_key_pressed(&mut selected, &mut pack, KeyEvent::Ascii(b'9'));
    assert_eq!(screen.on_key_pressed(&mut selected, &mut pack, KeyEvent::Enter),
        LevelPackEditorAction::InvalidWidth);
    screen.on_key_pressed(&mut selected, &mut pack, KeyEvent::Delete);
    screen.on_key_pressed(&mut selected, &mut pack, KeyEvent::Delete);
    screen.on_key_pressed(&mut selected, &mut pack, KeyEvent::Ascii(b'8'));
    // No height typed yet.
    assert_eq!(screen.on_key_pressed(&mut selected, &mut pack, KeyEvent::Enter),
        LevelPackEditorAction::InvalidHeight);
    assert_eq!(pack.level_count(), 0);
}

#[test]
fn pack_editor_deletes_only_after_confirmation() {
    let mut screen = ScreenLevelPackEditor::new();
    let mut pack = pack_with(vec![Level::new(3, 3), Level::new(4, 4)]);
    let mut selected: usize = 0;
    assert_eq!(screen.on_key_pressed(&mut selected, &mut pack, KeyEvent::Delete),
        LevelPackEditorAction::ConfirmDeleteLevel);
    assert!(screen.is_deleting());
    assert!(!screen.on_dialog_selection(&mut pack, 0, DialogChoice::No));
    assert_eq!(pack.level_count(), 2);
    screen.on_key_pressed(&mut selected, &mut pack, KeyEvent::Delete);
    assert!(screen.on_dialog_selection(&mut pack, 0, DialogChoice::Yes));
    assert_eq!(pack.level_count(), 1);
    assert_eq!(pack.levels()[0].level().width(), 4);
}

#[test]
fn level_editor_places_tiles_and_advances() {
    let mut editor = ScreenLevelEditor::new();
    let level = Level::new(4, 3);
    editor.on_set_screen(&level);
    assert_eq!(editor.cursor_pos(), (0, 0));
    // Lay a wall; the cursor advances rightwards by default.
    editor.on_key_pressed(KeyEvent::Ascii(b'#'));
    assert_eq!(editor.level().as_ref().unwrap().get_tile(0, 0), Some(Tile::Wall));
    assert_eq!(editor.cursor_pos(), (1, 0));
    // Turn the typing direction downwards and lay a player marker.
    editor.on_key_pressed(KeyEvent::Ascii(b's'));
    editor.on_key_pressed(KeyEvent::Ascii(b'P'));
    assert_eq!(editor.level().as_ref().unwrap().get_tile(1, 0), Some(Tile::Player));
    assert_eq!(editor.cursor_pos(), (1, 1));
    // The secret tile cannot be authored.
    editor.on_key_pressed(KeyEvent::Ascii(b'?'));
    assert_eq!(editor.level().as_ref().unwrap().get_tile(1, 1), Some(Tile::Empty));
}

#[test]
fn level_editor_cursor_wraps() {
    let mut editor = ScreenLevelEditor::new();
    editor.on_set_screen(&Level::new(3, 2));
    editor.on_key_pressed(KeyEvent::Left);
    assert_eq!(editor.cursor_pos(), (2, 0));
    editor.on_key_pressed(KeyEvent::Up);
    assert_eq!(editor.cursor_pos(), (2, 1));
    editor.on_key_pressed(KeyEvent::Right);
    assert_eq!(editor.cursor_pos(), (0, 1));
    editor.on_key_pressed(KeyEvent::Down);
    assert_eq!(editor.cursor_pos(), (0, 0));
}

#[test]
fn level_editor_playtest_moves_the_player() {
    let mut editor = ScreenLevelEditor::new();
    let design = level_with(3, 1, &[(0, 0, Tile::Player), (2, 0, Tile::Goal)]);
    editor.on_set_screen(&design);
    // 'r' starts the playtest on a copy.
    editor.on_key_pressed(KeyEvent::Ascii(b'r'));
    assert!(editor.playing_level().is_some());
    editor.on_key_pressed(KeyEvent::Right);
    let live = editor.playing_level().as_ref().unwrap();
    assert_eq!(live.get_tile(1, 0), Some(Tile::Player));
    assert_eq!(live.get_tile(0, 0), Some(Tile::Empty));
    // The design itself is untouched by playing.
    assert_eq!(editor.level().as_ref().unwrap().get_tile(0, 0), Some(Tile::Player));
    // 'r' again stops the playtest.
    editor.on_key_pressed(KeyEvent::Ascii(b'r'));
    assert!(editor.playing_level().is_none());
}

#[test]
fn level_editor_save_dialog() {
    let mut editor = ScreenLevelEditor::new();
    editor.on_set_screen(&Level::new(3, 3));
    assert_eq!(editor.on_key_pressed(KeyEvent::Escape), LevelEditorAction::OpenSaveDialog);
    assert_eq!(editor.on_dialog_selection(DialogChoice::Yes),
        LevelEditorDialogAction::SaveAndExit);
    let taken = editor.take_level();
    assert!(taken.is_some());
    assert!(editor.level().is_none());

    let mut other = ScreenLevelEditor::new();
    other.on_set_screen(&Level::new(3, 3));
    assert_eq!(other.on_dialog_selection(DialogChoice::No),
        LevelEditorDialogAction::DiscardAndExit);
    assert!(other.level().is_none());
}
