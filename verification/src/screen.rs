//! The screens' state machines: what each screen of the game remembers and
//! how a key event changes it. Drawing, key-code and mouse mapping, dialog
//! boxes and file I/O belong to the unverified shell; it feeds typed events
//! in and performs the actions handed back.

use vstd::prelude::*;

use crate::level::Level;
use crate::moves::{
    resolve_move, spec_move_allowed, spec_move_dest, spec_move_finds_secret, spec_move_wins,
    spec_next_grid, EdgePolicy,
};
use crate::pack::{spec_improve_moves, spec_improve_time, LevelPack};
use crate::tile::{Direction, Tile};
use crate::undo::UndoBuffer;

verus! {

/// The screens a session can stand on.
#[derive(Debug, Clone, Copy, Ord, PartialOrd, Eq, PartialEq, Structural, Hash)]
pub enum ScreenId {
    StartMenu,
    SelectLevelPack,
    SelectLevel,
    InGame,
    SelectLevelPackEditor,
    LevelPackEditor,
    LevelEditor,
}

/// A typed key event, as the shell maps raw key codes to it.
#[derive(Debug, Clone, Copy, Eq, PartialEq, Structural)]
pub enum KeyEvent {
    Left,
    Up,
    Right,
    Down,
    Enter,
    Escape,
    Help,
    Delete,
    Tab,
    Ascii(u8),
}

/// A dialog answer handed back by the shell.
#[derive(Debug, Clone, Copy, Eq, PartialEq, Structural)]
pub enum DialogChoice {
    Yes,
    No,
    Confirm,
}

/// What a menu screen asks the shell to do after a key event.
#[derive(Debug, Clone, Copy, Eq, PartialEq, Structural)]
pub enum MenuAction {
    Stay,
    OpenHelp,
    OpenExitDialog,
    SetScreen(ScreenId),
}

/// Selection menus lay their entries out 24 to a row.
pub const MENU_ROW_WIDTH: usize = 24;

/// Where a selection moves on a menu grid laid out [`MENU_ROW_WIDTH`] to a
/// row: one step in the requested direction when that entry exists, else
/// unmoved.
pub open spec fn spec_navigate_grid(selected: int, entry_count: int, key: KeyEvent) -> int {
    match key {
        KeyEvent::Left => if selected > 0 {
            selected - 1
        } else {
            selected
        },
        KeyEvent::Right => if selected + 1 < entry_count {
            selected + 1
        } else {
            selected
        },
        KeyEvent::Up => if selected >= MENU_ROW_WIDTH {
            selected - MENU_ROW_WIDTH
        } else {
            selected
        },
        KeyEvent::Down => if selected + MENU_ROW_WIDTH < entry_count {
            selected + MENU_ROW_WIDTH
        } else {
            selected
        },
        _ => selected,
    }
}

/// Moves a menu selection by one key event, staying on an existing entry.
pub fn navigate_grid(selected: usize, entry_count: usize, key: KeyEvent) -> (r: usize)
    requires
        selected < entry_count,
    ensures
        r < entry_count,
        r == spec_navigate_grid(selected as int, entry_count as int, key),
{
    match key {
        KeyEvent::Left => if selected > 0 {
            selected - 1
        } else {
            selected
        },
        KeyEvent::Right => if selected + 1 < entry_count {
            selected + 1
        } else {
            selected
        },
        KeyEvent::Up => if selected >= MENU_ROW_WIDTH {
            selected - MENU_ROW_WIDTH
        } else {
            selected
        },
        KeyEvent::Down => if entry_count - selected > MENU_ROW_WIDTH {
            selected + MENU_ROW_WIDTH
        } else {
            selected
        },
        _ => selected,
    }
}

/// The title screen. It holds no state; its key handling only routes.
#[derive(Debug)]
pub struct ScreenStartMenu {}

impl ScreenStartMenu {
    pub fn new() -> (screen: ScreenStartMenu) {
        ScreenStartMenu {}
    }

    /// Escape asks to leave, help opens the manual, enter starts the game.
    pub fn on_key_pressed(&mut self, key: KeyEvent) -> (r: MenuAction)
        ensures
            r == match key {
                KeyEvent::Escape => MenuAction::OpenExitDialog,
                KeyEvent::Help => MenuAction::OpenHelp,
                KeyEvent::Enter => MenuAction::SetScreen(ScreenId::SelectLevelPack),
                _ => MenuAction::Stay,
            },
    {
        match key {
            KeyEvent::Escape => MenuAction::OpenExitDialog,
            KeyEvent::Help => MenuAction::OpenHelp,
            KeyEvent::Enter => MenuAction::SetScreen(ScreenId::SelectLevelPack),
            _ => MenuAction::Stay,
        }
    }

    /// The exit dialog: only an explicit yes leaves the game.
    pub fn on_dialog_selection(&mut self, selection: DialogChoice) -> (quit: bool)
        ensures
            quit == (selection == DialogChoice::Yes),
    {
        matches!(selection, DialogChoice::Yes)
    }
}

/// What confirming an entry on the pack-selection screen means.
#[derive(Debug, Clone, Copy, Eq, PartialEq, Structural)]
pub enum PackChoice {
    /// Play the selected pack, starting at the given level index.
    PlayPack(usize),
    /// The extra trailing entry: open the level-pack editor.
    OpenEditor,
}

/// The level index a pack opens on: its unlock cursor, or the first level
/// once the whole pack is completed.
pub open spec fn spec_initial_level_index(min_level_not_completed: int, level_count: int) -> int {
    if min_level_not_completed >= level_count {
        0
    } else {
        min_level_not_completed
    }
}

/// Computes where play resumes in a pack; see [`spec_initial_level_index`].
pub fn initial_level_index(min_level_not_completed: usize, level_count: usize) -> (r: usize)
    ensures
        r == spec_initial_level_index(min_level_not_completed as int, level_count as int),
{
    if min_level_not_completed >= level_count {
        0
    } else {
        min_level_not_completed
    }
}

/// The pack-selection screen. The selection index lives with the session;
/// one entry past the packs stands for the editor.
#[derive(Debug)]
pub struct ScreenSelectLevelPack {}

impl ScreenSelectLevelPack {
    pub fn new() -> (screen: ScreenSelectLevelPack) {
        ScreenSelectLevelPack {}
    }

    /// Arrows move the selection over the packs and the trailing editor
    /// entry; enter resolves to playing the selected pack (at its unlock
    /// cursor, wrapped to the first level when all are completed) or to the
    /// editor.
    pub fn on_key_pressed(
        &mut self,
        selected: &mut usize,
        pack_count: usize,
        min_level_not_completed: usize,
        level_count: usize,
        key: KeyEvent,
    ) -> (r: (MenuAction, Option<PackChoice>))
        requires
            *old(selected) <= pack_count,
            pack_count < usize::MAX,
        ensures
            *final(selected) <= pack_count,
            match key {
                KeyEvent::Escape => r == (MenuAction::SetScreen(ScreenId::StartMenu),
                    Option::<PackChoice>::None) && *final(selected) == *old(selected),
                KeyEvent::Help => r == (MenuAction::OpenHelp, Option::<PackChoice>::None)
                    && *final(selected) == *old(selected),
                KeyEvent::Enter => {
                    &&& *final(selected) == *old(selected)
                    &&& if *old(selected) == pack_count {
                        r == (MenuAction::SetScreen(ScreenId::SelectLevelPackEditor),
                            Some(PackChoice::OpenEditor))
                    } else {
                        r == (MenuAction::SetScreen(ScreenId::SelectLevel),
                            Some(PackChoice::PlayPack(spec_initial_level_index(
                                min_level_not_completed as int, level_count as int) as usize)))
                    }
                },
                _ => {
                    &&& *final(selected) == spec_navigate_grid(*old(selected) as int,
                        pack_count + 1 as int, key)
                    &&& r == (MenuAction::Stay, Option::<PackChoice>::None)
                },
            },
    {
        match key {
            KeyEvent::Escape => (MenuAction::SetScreen(ScreenId::StartMenu), None),
            KeyEvent::Help => (MenuAction::OpenHelp, None),
            KeyEvent::Enter => {
                if *selected == pack_count {
                    (MenuAction::SetScreen(ScreenId::SelectLevelPackEditor),
                        Some(PackChoice::OpenEditor))
                } else {
                    let start = initial_level_index(min_level_not_completed, level_count);
                    (MenuAction::SetScreen(ScreenId::SelectLevel),
                        Some(PackChoice::PlayPack(start)))
                }
            },
            _ => {
                *selected = navigate_grid(*selected, pack_count + 1, key);
                (MenuAction::Stay, None)
            },
        }
    }
}

/// The level-selection screen of the chosen pack.
#[derive(Debug)]
pub struct ScreenSelectLevel {
    selected_level: usize,
}

impl ScreenSelectLevel {
    pub closed spec fn spec_selected_level(self) -> usize {
        self.selected_level
    }

    pub fn new() -> (screen: ScreenSelectLevel)
        ensures
            screen.spec_selected_level() == 0,
    {
        ScreenSelectLevel { selected_level: 0 }
    }

    pub fn selected_level(&self) -> (r: usize)
        ensures
            r == self.spec_selected_level(),
    {
        self.selected_level
    }

    /// Entering a screen restores the session's current level index.
    pub fn on_set_screen(&mut self, level_index: usize)
        ensures
            final(self).spec_selected_level() == level_index,
    {
        self.selected_level = level_index;
    }

    /// Arrows move the selection; enter starts the selected level, but only
    /// levels at or below the unlock cursor are playable.
    pub fn on_key_pressed(
        &mut self,
        level_count: usize,
        min_level_not_completed: usize,
        key: KeyEvent,
    ) -> (r: (MenuAction, Option<usize>))
        requires
            old(self).spec_selected_level() < level_count,
        ensures
            final(self).spec_selected_level() < level_count,
            match key {
                KeyEvent::Escape => r == (MenuAction::SetScreen(ScreenId::SelectLevelPack),
                    Option::<usize>::None) && *final(self) == *old(self),
                KeyEvent::Help => r == (MenuAction::OpenHelp, Option::<usize>::None)
                    && *final(self) == *old(self),
                KeyEvent::Enter => {
                    &&& *final(self) == *old(self)
                    &&& if old(self).spec_selected_level() <= min_level_not_completed {
                        r == (MenuAction::SetScreen(ScreenId::InGame),
                            Some(old(self).spec_selected_level()))
                    } else {
                        r == (MenuAction::Stay, Option::<usize>::None)
                    }
                },
                _ => {
                    &&& final(self).spec_selected_level() == spec_navigate_grid(
                        old(self).spec_selected_level() as int, level_count as int, key)
                    &&& r == (MenuAction::Stay, Option::<usize>::None)
                },
            },
    {
        match key {
            KeyEvent::Escape => (MenuAction::SetScreen(ScreenId::SelectLevelPack), None),
            KeyEvent::Help => (MenuAction::OpenHelp, None),
            KeyEvent::Enter => {
                if self.selected_level <= min_level_not_completed {
                    (MenuAction::SetScreen(ScreenId::InGame), Some(self.selected_level))
                } else {
                    (MenuAction::Stay, None)
                }
            },
            _ => {
                self.selected_level = navigate_grid(self.selected_level, level_count, key);
                (MenuAction::Stay, None)
            },
        }
    }
}

/// What a resolved move reports back to the shell.
#[derive(Debug, Clone, Copy, Eq, PartialEq, Structural)]
pub struct MoveFeedback {
    /// The move changed the grid; a rejected move is a silent no-op.
    pub moved: bool,
    /// The level was completed; the caller must persist the pack's progress.
    pub won: bool,
    /// A secret was discovered; the turn ended at once.
    pub secret_found: bool,
}

/// What the shell does after the win dialog or the leave dialog.
#[derive(Debug, Clone, Copy, Eq, PartialEq, Structural)]
pub enum InGameDialogAction {
    Stay,
    BackToPackSelection,
    BackToLevelSelection,
    /// Resume play; the shell reports the current time to restart the clock.
    Resume,
}

/// What pressing escape in a game asks the shell to do.
#[derive(Debug, Clone, Copy, Eq, PartialEq, Structural)]
pub enum EscapeAction {
    LeaveToLevelSelection,
    OpenLeaveDialog,
}

/// What confirming a completed level leads to.
#[derive(Debug, Clone, Copy, Eq, PartialEq, Structural)]
pub enum ContinueAction {
    /// Every level of the pack is completed; the session is over.
    AllLevelsCompleted,
    /// The shell starts the level the session index now points at.
    StartNextLevel,
}

/// The playing session of one level: the live grid, the player position, the
/// move and time counters, the one-slot undo buffer, and the terminal flags.
#[derive(Debug)]
pub struct ScreenInGame {
    time_start: Option<u64>,
    time_start_in_menu: Option<u64>,
    time_millis: u32,
    time_sec: u32,
    time_min: u32,
    moves: u32,
    player_pos: (usize, usize),
    level_now: Option<Level>,
    undo: UndoBuffer,
    continue_flag: bool,
    secret_found_flag: bool,
    game_over_flag: bool,
}

impl ScreenInGame {
    /// The millisecond timestamp play began at, once the first move was made.
    pub closed spec fn spec_time_start(self) -> Option<u64> {
        self.time_start
    }

    /// The millisecond timestamp the game was paused at by a menu.
    pub closed spec fn spec_time_start_in_menu(self) -> Option<u64> {
        self.time_start_in_menu
    }

    pub closed spec fn spec_time_millis(self) -> u32 {
        self.time_millis
    }

    pub closed spec fn spec_time_sec(self) -> u32 {
        self.time_sec
    }

    pub closed spec fn spec_time_min(self) -> u32 {
        self.time_min
    }

    pub closed spec fn spec_moves(self) -> u32 {
        self.moves
    }

    pub closed spec fn spec_player_pos(self) -> (usize, usize) {
        self.player_pos
    }

    pub closed spec fn spec_level_now(self) -> Option<Level> {
        self.level_now
    }

    pub closed spec fn spec_undo(self) -> UndoBuffer {
        self.undo
    }

    pub closed spec fn spec_continue_flag(self) -> bool {
        self.continue_flag
    }

    pub closed spec fn spec_secret_found_flag(self) -> bool {
        self.secret_found_flag
    }

    pub closed spec fn spec_game_over_flag(self) -> bool {
        self.game_over_flag
    }

    /// The displayed time in milliseconds, as the score records it.
    pub open spec fn spec_display_time(self) -> u64 {
        (self.spec_time_millis() + 1000 * (self.spec_time_sec() as u64)
            + 60000 * (self.spec_time_min() as u64)) as u64
    }

    pub fn new() -> (screen: ScreenInGame)
        ensures
            screen.spec_time_start() is None,
            screen.spec_time_start_in_menu() is None,
            screen.spec_time_millis() == 0,
            screen.spec_time_sec() == 0,
            screen.spec_time_min() == 0,
            screen.spec_moves() == 0,
            screen.spec_player_pos() == (0usize, 0usize),
            screen.spec_level_now() is None,
            screen.spec_undo().spec_grid() is None,
            screen.spec_undo().spec_moves() == 0,
            screen.spec_undo().spec_player_pos() == (0usize, 0usize),
            !screen.spec_continue_flag(),
            !screen.spec_secret_found_flag(),
            !screen.spec_game_over_flag(),
    {
        ScreenInGame {
            time_start: None,
            time_start_in_menu: None,
            time_millis: 0,
            time_sec: 0,
            time_min: 0,
            moves: 0,
            player_pos: (0, 0),
            level_now: None,
            undo: UndoBuffer::new(),
            continue_flag: false,
            secret_found_flag: false,
            game_over_flag: false,
        }
    }

    pub fn moves(&self) -> (r: u32)
        ensures
            r == self.spec_moves(),
    {
        self.moves
    }

    pub fn player_pos(&self) -> (r: (usize, usize))
        ensures
            r == self.spec_player_pos(),
    {
        self.player_pos
    }

    /// The live grid being played, for the shell to draw.
    pub fn level_now(&self) -> (r: &Option<Level>)
        ensures
            *r == self.spec_level_now(),
    {
        &self.level_now
    }

    pub fn time_millis(&self) -> (r: u32)
        ensures
            r == self.spec_time_millis(),
    {
        self.time_millis
    }

    pub fn time_sec(&self) -> (r: u32)
        ensures
            r == self.spec_time_sec(),
    {
        self.time_sec
    }

    pub fn time_min(&self) -> (r: u32)
        ensures
            r == self.spec_time_min(),
    {
        self.time_min
    }

    pub fn continue_flag(&self) -> (r: bool)
        ensures
            r == self.spec_continue_flag(),
    {
        self.continue_flag
    }

    pub fn secret_found_flag(&self) -> (r: bool)
        ensures
            r == self.spec_secret_found_flag(),
    {
        self.secret_found_flag
    }

    pub fn game_over_flag(&self) -> (r: bool)
        ensures
            r == self.spec_game_over_flag(),
    {
        self.game_over_flag
    }

    /// Begins playing `level`: the session clones it into an independent live
    /// copy, resets the counters and the terminal flags, seats the player on
    /// the first player marker in column-major order (an authored level has
    /// exactly one), and seeds the undo slot with the starting state.
    pub fn start_level(&mut self, level: &Level)
        requires
            level.wf(),
        ensures
            final(self).spec_time_start() is None,
            final(self).spec_time_start_in_menu() == old(self).spec_time_start_in_menu(),
            final(self).spec_time_millis() == 0,
            final(self).spec_time_sec() == 0,
            final(self).spec_time_min() == 0,
            final(self).spec_moves() == 0,
            !final(self).spec_continue_flag(),
            !final(self).spec_secret_found_flag(),
            !final(self).spec_game_over_flag(),
            final(self).spec_level_now() is Some,
            final(self).spec_level_now().unwrap().wf(),
            final(self).spec_level_now().unwrap().spec_width() == level.spec_width(),
            final(self).spec_level_now().unwrap().spec_height() == level.spec_height(),
            final(self).spec_level_now().unwrap()@ == level@,
            final(self).spec_undo().spec_grid() is Some,
            final(self).spec_undo().spec_grid().unwrap()@ == level@,
            final(self).spec_undo().spec_moves() == 0,
            final(self).spec_undo().spec_player_pos() == final(self).spec_player_pos(),
            ({
                let p = final(self).spec_player_pos();
                ||| {
                    &&& p.0 < level.spec_width()
                    &&& p.1 < level.spec_height()
                    &&& level.spec_tile_at(p.0 as int, p.1 as int) == Tile::Player
                    &&& forall|x: int, y: int|
                        0 <= x < level.spec_width() && 0 <= y < level.spec_height()
                            && Level::spec_scanned_before(x, y, p.0 as int, p.1 as int)
                            ==> level.spec_tile_at(x, y) != Tile::Player
                }
                ||| {
                    &&& (forall|x: int, y: int|
                        0 <= x < level.spec_width() && 0 <= y < level.spec_height()
                            ==> level.spec_tile_at(x, y) != Tile::Player)
                    &&& p == old(self).spec_player_pos()
                }
            }),
    {
        self.time_start = None;
        self.time_millis = 0;
        self.time_sec = 0;
        self.time_min = 0;
        self.moves = 0;
        self.continue_flag = false;
        self.secret_found_flag = false;
        self.game_over_flag = false;
        if let Some(p) = level.find_player() {
            self.player_pos = p;
        }
        self.level_now = Some(level.clone());
        self.undo.record(level.clone(), 0, self.player_pos);
    }

    /// Everything a move request needs to be processed: a live level whose
    /// player marker stands where the session believes, a template of the
    /// same size at the session's level index, no terminal flag raised, and
    /// counters that can still grow.
    pub open spec fn spec_session_ready(self, pack: LevelPack, level_index: int) -> bool {
        &&& self.spec_level_now() is Some
        &&& self.spec_level_now().unwrap().wf()
        &&& 0 <= level_index < pack.spec_levels().len()
        &&& pack.spec_levels()[level_index].spec_level().wf()
        &&& pack.spec_levels()[level_index].spec_level().spec_same_size(
            self.spec_level_now().unwrap())
        &&& self.spec_player_pos().0 < self.spec_level_now().unwrap().spec_width()
        &&& self.spec_player_pos().1 < self.spec_level_now().unwrap().spec_height()
        &&& self.spec_level_now().unwrap().spec_tile_at(self.spec_player_pos().0 as int,
            self.spec_player_pos().1 as int) == Tile::Player
        &&& !self.spec_continue_flag()
        &&& !self.spec_game_over_flag()
        &&& !self.spec_secret_found_flag()
        &&& self.spec_moves() < u32::MAX
        &&& pack.spec_min_level_not_completed() <= pack.spec_levels().len()
    }

    /// Checks at run time that a move request can be processed.
    pub fn session_ready(&self, pack: &LevelPack, level_index: usize) -> (r: bool)
        ensures
            r == self.spec_session_ready(*pack, level_index as int),
    {
        let live = match &self.level_now {
            Some(l) => l,
            None => {
                return false;
            },
        };
        let lw = live.width();
        let lh = live.height();
        if lw < 1 || lh < 1 {
            return false;
        }
        let total = live.tiles().len();
        let product = match lw.checked_mul(lh) {
            Some(p) => p,
            None => {
                return false;
            },
        };
        if total != product {
            return false;
        }
        if level_index >= pack.level_count() {
            return false;
        }
        let template = pack.levels()[level_index].level();
        let tw = template.width();
        let th = template.height();
        if tw < 1 || th < 1 {
            return false;
        }
        let ttotal = template.tiles().len();
        let tproduct = match tw.checked_mul(th) {
            Some(p) => p,
            None => {
                return false;
            },
        };
        if ttotal != tproduct {
            return false;
        }
        if tw != lw || th != lh {
            return false;
        }
        let (px, py) = self.player_pos;
        if px >= lw || py >= lh {
            return false;
        }
        match live.get_tile(px, py) {
            Some(Tile::Player) => {},
            _ => {
                return false;
            },
        }
        if self.continue_flag || self.game_over_flag || self.secret_found_flag {
            return false;
        }
        if self.moves == u32::MAX {
            return false;
        }
        if pack.min_level_not_completed() > pack.level_count() {
            return false;
        }
        true
    }

    /// Resolves one movement request against the live grid and settles its
    /// consequences: the undo slot records the pre-move state of a move that
    /// changed the grid, the move counter advances, a discovered secret ends
    /// the game at once, and a win freezes the session, applies the
    /// improve-only score update and advances the unlock cursor — the caller
    /// then persists the pack. The play clock starts on the first request.
    /// A request the session is not ready for changes nothing.
    pub fn move_player(
        &mut self,
        pack: &mut LevelPack,
        level_index: usize,
        direction: Direction,
        now_ms: u64,
    ) -> (r: MoveFeedback)
        ensures
            ({
                let ready = old(self).spec_session_ready(*old(pack), level_index as int);
                if !ready {
                    &&& *final(self) == *old(self)
                    &&& *final(pack) == *old(pack)
                    &&& r == (MoveFeedback { moved: false, won: false, secret_found: false })
                } else {
                    let template = old(pack).spec_levels()[level_index as int].spec_level();
                    let live = old(self).spec_level_now().unwrap();
                    let pos = old(self).spec_player_pos();
                    let allowed = spec_move_allowed(live, pos, direction, EdgePolicy::Wrap);
                    let secret = spec_move_finds_secret(live, pos, direction, EdgePolicy::Wrap);
                    let won = spec_move_wins(template, live, pos, direction, EdgePolicy::Wrap);
                    &&& r == (MoveFeedback { moved: allowed, won, secret_found: secret })
                    &&& final(self).spec_time_start() == Some(
                        match old(self).spec_time_start() {
                            Some(t) => t,
                            None => now_ms,
                        })
                    &&& final(self).spec_level_now() is Some
                    &&& final(self).spec_level_now().unwrap().wf()
                    &&& final(self).spec_level_now().unwrap().spec_same_size(live)
                    &&& final(self).spec_level_now().unwrap()@ == spec_next_grid(template, live,
                        pos, direction, EdgePolicy::Wrap)
                    &&& if allowed {
                        &&& final(self).spec_moves() == old(self).spec_moves() + 1
                        &&& spec_move_dest(live, pos, direction, EdgePolicy::Wrap) == Some((
                            final(self).spec_player_pos().0 as int,
                            final(self).spec_player_pos().1 as int,
                        ))
                        &&& final(self).spec_undo().spec_grid() is Some
                        &&& final(self).spec_undo().spec_grid().unwrap()@ == live@
                        &&& final(self).spec_undo().spec_grid().unwrap().spec_same_size(live)
                        &&& final(self).spec_undo().spec_moves() == old(self).spec_moves()
                        &&& final(self).spec_undo().spec_player_pos() == pos
                    } else {
                        &&& final(self).spec_moves() == old(self).spec_moves()
                        &&& final(self).spec_player_pos() == pos
                        &&& final(self).spec_undo() == old(self).spec_undo()
                    }
                    &&& final(self).spec_secret_found_flag() == secret
                    &&& final(self).spec_game_over_flag() == secret
                    &&& final(self).spec_continue_flag() == won
                    &&& final(self).spec_time_millis() == old(self).spec_time_millis()
                    &&& final(self).spec_time_sec() == old(self).spec_time_sec()
                    &&& final(self).spec_time_min() == old(self).spec_time_min()
                    &&& final(self).spec_time_start_in_menu()
                        == old(self).spec_time_start_in_menu()
                    &&& final(pack).spec_id() == old(pack).spec_id()
                    &&& final(pack).spec_path() == old(pack).spec_path()
                    &&& final(pack).spec_levels().len() == old(pack).spec_levels().len()
                    &&& if won {
                        let entry = old(pack).spec_levels()[level_index as int];
                        &&& final(pack).spec_levels()[level_index as int].spec_level()
                            == entry.spec_level()
                        &&& final(pack).spec_levels()[level_index as int].spec_best_time()
                            == spec_improve_time(entry.spec_best_time(),
                                old(self).spec_display_time())
                        &&& final(pack).spec_levels()[level_index as int].spec_best_moves()
                            == spec_improve_moves(entry.spec_best_moves(),
                                (old(self).spec_moves() + 1) as u32)
                        &&& (forall|i: int| 0 <= i < old(pack).spec_levels().len()
                            && i != level_index
                            ==> final(pack).spec_levels()[i] == old(pack).spec_levels()[i])
                        &&& final(pack).spec_min_level_not_completed()
                            == if level_index >= old(pack).spec_min_level_not_completed() {
                                (level_index + 1) as usize
                            } else {
                                old(pack).spec_min_level_not_completed()
                            }
                    } else {
                        *final(pack) == *old(pack)
                    }
                }
            }),
    {
        let feedback_none = MoveFeedback { moved: false, won: false, secret_found: false };
        if !self.session_ready(pack, level_index) {
            return feedback_none;
        }
        if self.time_start.is_none() {
            self.time_start = Some(now_ms);
        }

        let snapshot = match &self.level_now {
            Some(l) => l.clone(),
            None => {
                return feedback_none;
            },
        };
        let pos = self.player_pos;
        let moves_before = self.moves;

        let outcome = {
            let template = pack.levels()[level_index].level();
            match &mut self.level_now {
                Some(live) => resolve_move(template, live, pos, direction, EdgePolicy::Wrap),
                None => {
                    return feedback_none;
                },
            }
        };

        if outcome.changed {
            self.undo.record(snapshot, moves_before, pos);
            self.moves = moves_before + 1;
            self.player_pos = outcome.new_pos;
        }
        if outcome.secret_found {
            self.game_over_flag = true;
            self.secret_found_flag = true;
        }
        if outcome.won {
            self.continue_flag = true;
            let time: u64 = self.time_millis as u64 + 1000 * (self.time_sec as u64)
                + 60000 * (self.time_min as u64);
            let _ = pack.update_stats(level_index, time, self.moves);
            let count = pack.level_count();
            if level_index >= pack.min_level_not_completed() && level_index < count {
                pack.set_min_level_not_completed(level_index + 1);
            }
        }
        MoveFeedback {
            moved: outcome.changed,
            won: outcome.won,
            secret_found: outcome.secret_found,
        }
    }

    /// One step back: swaps the live grid, move count and player position
    /// with the single retained snapshot; a second undo therefore redoes the
    /// move. Without a live level nothing happens.
    pub fn undo_step(&mut self)
        ensures
            final(self).spec_time_start() == old(self).spec_time_start(),
            final(self).spec_time_start_in_menu() == old(self).spec_time_start_in_menu(),
            final(self).spec_time_millis() == old(self).spec_time_millis(),
            final(self).spec_time_sec() == old(self).spec_time_sec(),
            final(self).spec_time_min() == old(self).spec_time_min(),
            final(self).spec_continue_flag() == old(self).spec_continue_flag(),
            final(self).spec_secret_found_flag() == old(self).spec_secret_found_flag(),
            final(self).spec_game_over_flag() == old(self).spec_game_over_flag(),
            match old(self).spec_level_now() {
                Some(live) => {
                    if old(self).spec_undo().spec_grid() is Some {
                        &&& final(self).spec_level_now()
                            == Some(old(self).spec_undo().spec_grid().unwrap())
                        &&& final(self).spec_undo().spec_grid() == Some(live)
                        &&& final(self).spec_moves() == old(self).spec_undo().spec_moves()
                        &&& final(self).spec_undo().spec_moves() == old(self).spec_moves()
                        &&& final(self).spec_player_pos()
                            == old(self).spec_undo().spec_player_pos()
                        &&& final(self).spec_undo().spec_player_pos()
                            == old(self).spec_player_pos()
                    } else {
                        *final(self) == *old(self)
                    }
                },
                None => *final(self) == *old(self),
            },
    {
        match &mut self.level_now {
            Some(live) => {
                let _ = self.undo.undo(live, &mut self.moves, &mut self.player_pos);
            },
            None => {},
        }
    }

    /// Refreshes the displayed clock from the wall time the shell reports.
    /// A frozen session — won, over, or never started — keeps its display.
    pub fn update(&mut self, now_ms: u64)
        ensures
            ({
                let idle = old(self).spec_game_over_flag() || old(self).spec_continue_flag()
                    || old(self).spec_time_start() is None;
                if idle {
                    *final(self) == *old(self)
                } else {
                    let start = old(self).spec_time_start().unwrap();
                    let diff = if now_ms >= start {
                        (now_ms - start) as u64
                    } else {
                        0u64
                    };
                    &&& final(self).spec_time_millis() == (diff % 1000) as u32
                    &&& final(self).spec_time_sec() == (diff / 1000 % 60) as u32
                    &&& final(self).spec_time_min() == (diff / 1000 / 60) as u32
                    &&& final(self).spec_time_start() == old(self).spec_time_start()
                    &&& final(self).spec_time_start_in_menu()
                        == old(self).spec_time_start_in_menu()
                    &&& final(self).spec_moves() == old(self).spec_moves()
                    &&& final(self).spec_player_pos() == old(self).spec_player_pos()
                    &&& final(self).spec_level_now() == old(self).spec_level_now()
                    &&& final(self).spec_undo() == old(self).spec_undo()
                    &&& final(self).spec_continue_flag() == old(self).spec_continue_flag()
                    &&& final(self).spec_secret_found_flag()
                        == old(self).spec_secret_found_flag()
                    &&& final(self).spec_game_over_flag() == old(self).spec_game_over_flag()
                }
            }),
    {
        if self.game_over_flag || self.continue_flag {
            return;
        }
        let start = match self.time_start {
            Some(t) => t,
            None => {
                return;
            },
        };
        let diff: u64 = if now_ms >= start {
            now_ms - start
        } else {
            0
        };
        self.time_millis = (diff % 1000) as u32;
        self.time_sec = (diff / 1000 % 60) as u32;
        self.time_min = (diff / 1000 / 60) as u32;
    }

    /// Escape during play pauses the clock and asks whether to leave; once
    /// the game is over it leaves to the level selection at once.
    pub fn on_escape(&mut self, now_ms: u64) -> (r: EscapeAction)
        ensures
            if old(self).spec_game_over_flag() {
                &&& r == EscapeAction::LeaveToLevelSelection
                &&& !final(self).spec_continue_flag()
                &&& !final(self).spec_game_over_flag()
                &&& final(self).spec_time_start_in_menu()
                    == old(self).spec_time_start_in_menu()
            } else {
                &&& r == EscapeAction::OpenLeaveDialog
                &&& final(self).spec_time_start_in_menu() == Some(now_ms)
                &&& final(self).spec_continue_flag() == old(self).spec_continue_flag()
                &&& final(self).spec_game_over_flag() == old(self).spec_game_over_flag()
            },
            final(self).spec_time_start() == old(self).spec_time_start(),
            final(self).spec_moves() == old(self).spec_moves(),
            final(self).spec_player_pos() == old(self).spec_player_pos(),
            final(self).spec_level_now() == old(self).spec_level_now(),
            final(self).spec_undo() == old(self).spec_undo(),
            final(self).spec_secret_found_flag() == old(self).spec_secret_found_flag(),
            final(self).spec_time_millis() == old(self).spec_time_millis(),
            final(self).spec_time_sec() == old(self).spec_time_sec(),
            final(self).spec_time_min() == old(self).spec_time_min(),
    {
        if self.game_over_flag {
            self.continue_flag = false;
            self.game_over_flag = false;
            EscapeAction::LeaveToLevelSelection
        } else {
            self.time_start_in_menu = Some(now_ms);
            EscapeAction::OpenLeaveDialog
        }
    }

    /// Pauses the clock for a menu or the help page.
    pub fn pause_timer(&mut self, now_ms: u64)
        ensures
            final(self).spec_time_start_in_menu() == Some(now_ms),
            final(self).spec_time_start() == old(self).spec_time_start(),
            final(self).spec_moves() == old(self).spec_moves(),
            final(self).spec_player_pos() == old(self).spec_player_pos(),
            final(self).spec_level_now() == old(self).spec_level_now(),
            final(self).spec_undo() == old(self).spec_undo(),
            final(self).spec_continue_flag() == old(self).spec_continue_flag(),
            final(self).spec_secret_found_flag() == old(self).spec_secret_found_flag(),
            final(self).spec_game_over_flag() == old(self).spec_game_over_flag(),
            final(self).spec_time_millis() == old(self).spec_time_millis(),
            final(self).spec_time_sec() == old(self).spec_time_sec(),
            final(self).spec_time_min() == old(self).spec_time_min(),
    {
        self.time_start_in_menu = Some(now_ms);
    }

    /// Resumes play after a pause: the play clock is shifted by the time
    /// spent in the menu, so the pause costs no play time. A frozen or never
    /// started session is left alone.
    pub fn on_continue(&mut self, now_ms: u64)
        ensures
            ({
                let idle = old(self).spec_game_over_flag() || old(self).spec_continue_flag()
                    || old(self).spec_time_start() is None
                    || old(self).spec_time_start_in_menu() is None;
                if idle {
                    *final(self) == *old(self)
                } else {
                    let start = old(self).spec_time_start().unwrap();
                    let paused = old(self).spec_time_start_in_menu().unwrap();
                    let diff = if now_ms >= paused {
                        (now_ms - paused) as u64
                    } else {
                        0u64
                    };
                    &&& final(self).spec_time_start() == Some(
                        if start + diff > u64::MAX {
                            u64::MAX
                        } else {
                            (start + diff) as u64
                        })
                    &&& final(self).spec_time_start_in_menu() is None
                    &&& final(self).spec_moves() == old(self).spec_moves()
                    &&& final(self).spec_player_pos() == old(self).spec_player_pos()
                    &&& final(self).spec_level_now() == old(self).spec_level_now()
                    &&& final(self).spec_undo() == old(self).spec_undo()
                    &&& final(self).spec_continue_flag() == old(self).spec_continue_flag()
                    &&& final(self).spec_secret_found_flag()
                        == old(self).spec_secret_found_flag()
                    &&& final(self).spec_game_over_flag() == old(self).spec_game_over_flag()
                    &&& final(self).spec_time_millis() == old(self).spec_time_millis()
                    &&& final(self).spec_time_sec() == old(self).spec_time_sec()
                    &&& final(self).spec_time_min() == old(self).spec_time_min()
                }
            }),
    {
        if self.game_over_flag || self.continue_flag || self.time_start.is_none()
            || self.time_start_in_menu.is_none() {
            return;
        }
        let start = match self.time_start {
            Some(t) => t,
            None => {
                return;
            },
        };
        let paused = match self.time_start_in_menu.take() {
            Some(t) => t,
            None => {
                return;
            },
        };
        let diff: u64 = if now_ms >= paused {
            now_ms - paused
        } else {
            0
        };
        self.time_start = Some(match start.checked_add(diff) {
            Some(v) => v,
            None => u64::MAX,
        });
    }

    /// Confirms a completed level: the session either ends the pack — every
    /// level done — or advances its level index; the shell then starts that
    /// level.
    pub fn confirm_continue(&mut self, level_count: usize, current_level_index: &mut usize) -> (r:
        ContinueAction)
        requires
            old(self).spec_continue_flag(),
            *old(current_level_index) < level_count,
        ensures
            !final(self).spec_continue_flag(),
            final(self).spec_secret_found_flag() == old(self).spec_secret_found_flag(),
            final(self).spec_level_now() == old(self).spec_level_now(),
            final(self).spec_moves() == old(self).spec_moves(),
            final(self).spec_undo() == old(self).spec_undo(),
            final(self).spec_player_pos() == old(self).spec_player_pos(),
            if *old(current_level_index) + 1 == level_count {
                &&& r == ContinueAction::AllLevelsCompleted
                &&& final(self).spec_game_over_flag()
                &&& *final(current_level_index) == *old(current_level_index)
            } else {
                &&& r == ContinueAction::StartNextLevel
                &&& final(self).spec_game_over_flag() == old(self).spec_game_over_flag()
                &&& *final(current_level_index) == *old(current_level_index) + 1
            },
    {
        self.continue_flag = false;
        if *current_level_index + 1 == level_count {
            self.game_over_flag = true;
            ContinueAction::AllLevelsCompleted
        } else {
            *current_level_index = *current_level_index + 1;
            ContinueAction::StartNextLevel
        }
    }

    /// Settles the leave dialog: a found secret always returns to the pack
    /// selection, an explicit yes leaves to the level selection, a no resumes
    /// play (the shell then reports the time to restart the clock).
    pub fn on_dialog_selection(&mut self, selection: DialogChoice) -> (r: InGameDialogAction)
        ensures
            if old(self).spec_secret_found_flag() {
                &&& r == InGameDialogAction::BackToPackSelection
                &&& !final(self).spec_continue_flag()
                &&& !final(self).spec_game_over_flag()
                &&& !final(self).spec_secret_found_flag()
            } else if selection == DialogChoice::Yes {
                &&& r == InGameDialogAction::BackToLevelSelection
                &&& !final(self).spec_continue_flag()
                &&& !final(self).spec_game_over_flag()
                &&& final(self).spec_secret_found_flag() == old(self).spec_secret_found_flag()
            } else if selection == DialogChoice::No {
                &&& r == InGameDialogAction::Resume
                &&& *final(self) == *old(self)
            } else {
                &&& r == InGameDialogAction::Stay
                &&& *final(self) == *old(self)
            },
            final(self).spec_level_now() == old(self).spec_level_now(),
            final(self).spec_moves() == old(self).spec_moves(),
            final(self).spec_undo() == old(self).spec_undo(),
            final(self).spec_player_pos() == old(self).spec_player_pos(),
            final(self).spec_time_start() == old(self).spec_time_start(),
            final(self).spec_time_start_in_menu() == old(self).spec_time_start_in_menu(),
    {
        if self.secret_found_flag {
            self.continue_flag = false;
            self.game_over_flag = false;
            self.secret_found_flag = false;
            InGameDialogAction::BackToPackSelection
        } else if matches!(selection, DialogChoice::Yes) {
            self.continue_flag = false;
            self.game_over_flag = false;
            InGameDialogAction::BackToLevelSelection
        } else if matches!(selection, DialogChoice::No) {
            InGameDialogAction::Resume
        } else {
            InGameDialogAction::Stay
        }
    }
}

/// A level-pack identifier may hold letters, digits, underscore and hyphen.
pub open spec fn spec_is_id_byte(b: u8) -> bool {
    ||| 48 <= b <= 57
    ||| 65 <= b <= 90
    ||| 97 <= b <= 122
    ||| b == 95
    ||| b == 45
}

/// Checks one typed byte against the identifier alphabet.
pub fn is_id_byte(b: u8) -> (r: bool)
    ensures
        r == spec_is_id_byte(b),
{
    (b >= 48 && b <= 57) || (b >= 65 && b <= 90) || (b >= 97 && b <= 122) || b == 95 || b == 45
}

/// The longest accepted level-pack identifier.
pub const MAX_LEVEL_PACK_ID_LEN: usize = 32;

/// The shortest accepted level-pack identifier.
pub const MIN_LEVEL_PACK_ID_LEN: usize = 3;

/// What the pack-editor selection screen asks the shell to do.
#[derive(Debug, Clone, Copy, Eq, PartialEq, Structural)]
pub enum PackEditorAction {
    Stay,
    OpenHelp,
    BackToPackSelection,
    /// The typed identifier is still too short to accept.
    IdTooShort,
    /// A new pack is to be created under the typed identifier.
    CreatePack,
    /// The selected existing pack opens in the editor.
    EditSelectedPack,
}

/// One key while a new pack identifier is being typed: how the buffer, the
/// entry mode and the returned action settle. Alphabet bytes grow the
/// identifier up to its cap, delete shrinks it, enter accepts it once it has
/// the minimum length or reports it too short, escape abandons the entry,
/// and anything else changes nothing.
pub open spec fn spec_id_entry_step(
    pre: ScreenSelectLevelPackEditor,
    post: ScreenSelectLevelPackEditor,
    key: KeyEvent,
    r: PackEditorAction,
) -> bool {
    match key {
        KeyEvent::Ascii(b) => {
            &&& r == PackEditorAction::Stay
            &&& post.spec_is_creating()
            &&& if spec_is_id_byte(b) && pre.spec_new_pack_id().len() < MAX_LEVEL_PACK_ID_LEN {
                post.spec_new_pack_id() == pre.spec_new_pack_id().push(b)
            } else {
                post.spec_new_pack_id() == pre.spec_new_pack_id()
            }
        },
        KeyEvent::Delete => {
            &&& r == PackEditorAction::Stay
            &&& post.spec_is_creating()
            &&& if pre.spec_new_pack_id().len() > 0 {
                post.spec_new_pack_id() == pre.spec_new_pack_id().drop_last()
            } else {
                post.spec_new_pack_id() == pre.spec_new_pack_id()
            }
        },
        KeyEvent::Enter => {
            if pre.spec_new_pack_id().len() < MIN_LEVEL_PACK_ID_LEN {
                r == PackEditorAction::IdTooShort && post == pre
            } else {
                r == PackEditorAction::CreatePack && !post.spec_is_creating()
                    && post.spec_new_pack_id() == pre.spec_new_pack_id()
            }
        },
        KeyEvent::Escape => {
            &&& r == PackEditorAction::Stay
            &&& !post.spec_is_creating()
            &&& post.spec_new_pack_id().len() == 0
        },
        _ => r == PackEditorAction::Stay && post == pre,
    }
}

/// The editor's pack-selection screen: picking a pack to edit, or typing the

/// identifier of a new one. One entry past the packs stands for creation.
#[derive(Debug)]
pub struct ScreenSelectLevelPackEditor {
    is_creating_new_level_pack: bool,
    new_level_pack_id: Vec<u8>,
}

impl ScreenSelectLevelPackEditor {
    pub closed spec fn spec_is_creating(self) -> bool {
        self.is_creating_new_level_pack
    }

    pub closed spec fn spec_new_pack_id(self) -> Seq<u8> {
        self.new_level_pack_id@
    }

    pub fn new() -> (screen: ScreenSelectLevelPackEditor)
        ensures
            !screen.spec_is_creating(),
            screen.spec_new_pack_id().len() == 0,
    {
        ScreenSelectLevelPackEditor {
            is_creating_new_level_pack: false,
            new_level_pack_id: Vec::new(),
        }
    }

    pub fn is_creating(&self) -> (r: bool)
        ensures
            r == self.spec_is_creating(),
    {
        self.is_creating_new_level_pack
    }

    /// The identifier typed so far, for the shell to display and to name the
    /// new pack's file by.
    pub fn new_pack_id(&self) -> (r: &Vec<u8>)
        ensures
            r@ == self.spec_new_pack_id(),
    {
        &self.new_level_pack_id
    }

    /// Leaves identifier entry and forgets the typed identifier.
    pub fn reset_id_input(&mut self)
        ensures
            !final(self).spec_is_creating(),
            final(self).spec_new_pack_id().len() == 0,
    {
        self.is_creating_new_level_pack = false;
        self.new_level_pack_id = Vec::new();
    }

    /// One key while typing an identifier: alphabet bytes grow it up to the
    /// length cap, delete shrinks it, enter accepts it once long enough, and
    /// escape abandons it.
    fn on_id_key(&mut self, key: KeyEvent) -> (r: PackEditorAction)
        requires
            old(self).spec_is_creating(),
        ensures
            spec_id_entry_step(*old(self), *final(self), key, r),
    {
        match key {
            KeyEvent::Ascii(b) => {
                if is_id_byte(b) && self.new_level_pack_id.len() < MAX_LEVEL_PACK_ID_LEN {
                    self.new_level_pack_id.push(b);
                }
                PackEditorAction::Stay
            },
            KeyEvent::Delete => {
                let _ = self.new_level_pack_id.pop();
                PackEditorAction::Stay
            },
            KeyEvent::Enter => {
                if self.new_level_pack_id.len() < MIN_LEVEL_PACK_ID_LEN {
                    PackEditorAction::IdTooShort
                } else {
                    self.is_creating_new_level_pack = false;
                    PackEditorAction::CreatePack
                }
            },
            KeyEvent::Escape => {
                self.is_creating_new_level_pack = false;
                self.new_level_pack_id = Vec::new();
                PackEditorAction::Stay
            },
            _ => PackEditorAction::Stay,
        }
    }

    /// One key on the editor's pack selection: while typing it edits the new
    /// identifier, otherwise arrows move the selection, enter opens the
    /// selected pack or begins creating one, and escape leaves.
    pub fn on_key_pressed(&mut self, selected: &mut usize, pack_count: usize, key: KeyEvent) -> (r:
        PackEditorAction)
        requires
            *old(selected) <= pack_count,
            pack_count < usize::MAX,
        ensures
            *final(selected) <= pack_count,
            old(self).spec_is_creating() ==> *final(selected) == *old(selected)
                && spec_id_entry_step(*old(self), *final(self), key, r),
            !old(self).spec_is_creating() ==> match key {
                KeyEvent::Escape => r == PackEditorAction::BackToPackSelection
                    && *final(self) == *old(self) && *final(selected) == *old(selected),
                KeyEvent::Help => r == PackEditorAction::OpenHelp && *final(self) == *old(self)
                    && *final(selected) == *old(selected),
                KeyEvent::Enter => {
                    &&& *final(selected) == *old(selected)
                    &&& if *old(selected) == pack_count {
                        r == PackEditorAction::Stay && final(self).spec_is_creating()
                            && final(self).spec_new_pack_id()
                                == old(self).spec_new_pack_id()
                    } else {
                        r == PackEditorAction::EditSelectedPack && *final(self) == *old(self)
                    }
                },
                _ => {
                    &&& *final(selected) == spec_navigate_grid(*old(selected) as int,
                        pack_count + 1 as int, key)
                    &&& r == PackEditorAction::Stay
                    &&& *final(self) == *old(self)
                },
            },
    {
        if self.is_creating_new_level_pack {
            return self.on_id_key(key);
        }
        match key {
            KeyEvent::Escape => PackEditorAction::BackToPackSelection,
            KeyEvent::Help => PackEditorAction::OpenHelp,
            KeyEvent::Enter => {
                if *selected == pack_count {
                    self.is_creating_new_level_pack = true;
                    PackEditorAction::Stay
                } else {
                    PackEditorAction::EditSelectedPack
                }
            },
            _ => {
                *selected = navigate_grid(*selected, pack_count + 1, key);
                PackEditorAction::Stay
            },
        }
    }
}

/// A level's rectangle must fit the playing field of the console.
pub const MIN_LEVEL_EXTENT: usize = 3;

/// The widest level the console fits.
pub const MAX_LEVEL_WIDTH: usize = 74;

/// The tallest level the console fits, its top row kept for the header.
pub const MAX_LEVEL_HEIGHT: usize = 22;

/// The number a buffer of typed decimal digits denotes.
pub open spec fn spec_digits_value(s: Seq<u8>) -> int
    decreases s.len(),
{
    if s.len() == 0 {
        0
    } else {
        spec_digits_value(s.drop_last()) * 10 + (s.last() - 48)
    }
}

/// True when every byte of the buffer is a decimal digit.
pub open spec fn spec_all_digits(s: Seq<u8>) -> bool {
    forall|i: int| 0 <= i < s.len() ==> 48 <= #[trigger] s[i] <= 57
}

/// Reads a typed one- or two-digit number; `None` when the buffer is empty,
/// too long, or holds a non-digit.
pub fn parse_size_input(digits: &Vec<u8>) -> (r: Option<usize>)
    ensures
        r == if 1 <= digits@.len() <= 2 && spec_all_digits(digits@) {
            Some(spec_digits_value(digits@) as usize)
        } else {
            Option::<usize>::None
        },
        1 <= digits@.len() <= 2 && spec_all_digits(digits@)
            ==> 0 <= spec_digits_value(digits@) <= 99,
{
    let len = digits.len();
    if len == 0 || len > 2 {
        return None;
    }
    let mut value: usize = 0;
    let mut i: usize = 0;
    while i < len
        invariant
            len == digits@.len(),
            len <= 2,
            i <= len,
            spec_all_digits(digits@.subrange(0, i as int)),
            value == spec_digits_value(digits@.subrange(0, i as int)),
            i == 0 ==> value == 0,
            i == 1 ==> value <= 9,
            value <= 99,
        decreases len - i,
    {
        let b = digits[i];
        if b < 48 || b > 57 {
            return None;
        }
        proof {
            assert(digits@.subrange(0, i + 1).drop_last() =~= digits@.subrange(0, i as int));
            assert(digits@.subrange(0, i + 1).last() == digits@[i as int]);
        }
        value = value * 10 + ((b - 48) as usize);
        i = i + 1;
    }
    proof {
        assert(digits@.subrange(0, len as int) =~= digits@);
    }
    Some(value)
}

/// What the pack editor screen asks the shell to do.
#[derive(Debug, Clone, Copy, Eq, PartialEq, Structural)]
pub enum LevelPackEditorAction {
    Stay,
    OpenHelp,
    BackToEditorSelection,
    /// The typed width is missing or outside the accepted range.
    InvalidWidth,
    /// The typed height is missing or outside the accepted range.
    InvalidHeight,
    /// An empty level of the typed size was appended; the shell opens it.
    LevelCreated,
    /// The selected existing level opens in the level editor.
    EditSelectedLevel,
    /// The shell asks for confirmation before deleting the selected level.
    ConfirmDeleteLevel,
}

/// The pack editor: picking a level of a pack to edit, creating a level of a
/// typed size, or deleting one. One entry past the levels stands for
/// creation.
#[derive(Debug)]
pub struct ScreenLevelPackEditor {
    is_creating_new_level: bool,
    is_editing_height: bool,
    is_deleting_level: bool,
    new_level_width_str: Vec<u8>,
    new_level_height_str: Vec<u8>,
}

impl ScreenLevelPackEditor {
    pub closed spec fn spec_is_creating(self) -> bool {
        self.is_creating_new_level
    }

    pub closed spec fn spec_is_editing_height(self) -> bool {
        self.is_editing_height
    }

    pub closed spec fn spec_is_deleting(self) -> bool {
        self.is_deleting_level
    }

    pub closed spec fn spec_width_input(self) -> Seq<u8> {
        self.new_level_width_str@
    }

    pub closed spec fn spec_height_input(self) -> Seq<u8> {
        self.new_level_height_str@
    }

    pub fn new() -> (screen: ScreenLevelPackEditor)
        ensures
            !screen.spec_is_creating(),
            !screen.spec_is_editing_height(),
            !screen.spec_is_deleting(),
            screen.spec_width_input().len() == 0,
            screen.spec_height_input().len() == 0,
    {
        ScreenLevelPackEditor {
            is_creating_new_level: false,
            is_editing_height: false,
            is_deleting_level: false,
            new_level_width_str: Vec::new(),
            new_level_height_str: Vec::new(),
        }
    }

    pub fn is_creating(&self) -> (r: bool)
        ensures
            r == self.spec_is_creating(),
    {
        self.is_creating_new_level
    }

    pub fn is_editing_height(&self) -> (r: bool)
        ensures
            r == self.spec_is_editing_height(),
    {
        self.is_editing_height
    }

    pub fn is_deleting(&self) -> (r: bool)
        ensures
            r == self.spec_is_deleting(),
    {
        self.is_deleting_level
    }

    pub fn width_input(&self) -> (r: &Vec<u8>)
        ensures
            r@ == self.spec_width_input(),
    {
        &self.new_level_width_str
    }

    pub fn height_input(&self) -> (r: &Vec<u8>)
        ensures
            r@ == self.spec_height_input(),
    {
        &self.new_level_height_str
    }

    /// Leaves size entry and forgets the typed size.
    fn reset_size_input(&mut self)
        ensures
            !final(self).spec_is_creating(),
            !final(self).spec_is_editing_height(),
            !final(self).spec_is_deleting(),
            final(self).spec_width_input().len() == 0,
            final(self).spec_height_input().len() == 0,
    {
        self.is_creating_new_level = false;
        self.is_editing_height = false;
        self.is_deleting_level = false;
        self.new_level_width_str = Vec::new();
        self.new_level_height_str = Vec::new();
    }

    /// The typed width is one or two digits naming a width the console fits.
    pub open spec fn spec_width_ok(self) -> bool {
        &&& 1 <= self.spec_width_input().len() <= 2
        &&& spec_all_digits(self.spec_width_input())
        &&& MIN_LEVEL_EXTENT <= spec_digits_value(self.spec_width_input()) <= MAX_LEVEL_WIDTH
    }

    /// The typed height is one or two digits naming a height the console fits.
    pub open spec fn spec_height_ok(self) -> bool {
        &&& 1 <= self.spec_height_input().len() <= 2
        &&& spec_all_digits(self.spec_height_input())
        &&& MIN_LEVEL_EXTENT <= spec_digits_value(self.spec_height_input()) <= MAX_LEVEL_HEIGHT
    }

    /// The typed size, once both numbers parse and fit the console: at least
    /// the minimum extent each way, and inside the drawable field.
    pub open spec fn spec_accepted_size(self) -> Option<(usize, usize)> {
        if self.spec_width_ok() && self.spec_height_ok() {
            Some((
                spec_digits_value(self.spec_width_input()) as usize,
                spec_digits_value(self.spec_height_input()) as usize,
            ))
        } else {
            None
        }
    }

    /// One non-enter key while a new level's size is being typed: digits grow
    /// the active buffer up to two characters, delete shrinks it, tab turns
    /// the active buffer, escape abandons size entry, and anything else
    /// changes nothing. The pack itself never changes on these keys.
    pub open spec fn spec_size_entry_step(
        pre: ScreenLevelPackEditor,
        post: ScreenLevelPackEditor,
        key: KeyEvent,
    ) -> bool {
        match key {
            KeyEvent::Ascii(b) => {
                &&& post.spec_is_creating()
                &&& post.spec_is_editing_height() == pre.spec_is_editing_height()
                &&& post.spec_is_deleting() == pre.spec_is_deleting()
                &&& if 48 <= b <= 57 {
                    if pre.spec_is_editing_height() {
                        &&& post.spec_width_input() == pre.spec_width_input()
                        &&& if pre.spec_height_input().len() < 2 {
                            post.spec_height_input() == pre.spec_height_input().push(b)
                        } else {
                            post.spec_height_input() == pre.spec_height_input()
                        }
                    } else {
                        &&& post.spec_height_input() == pre.spec_height_input()
                        &&& if pre.spec_width_input().len() < 2 {
                            post.spec_width_input() == pre.spec_width_input().push(b)
                        } else {
                            post.spec_width_input() == pre.spec_width_input()
                        }
                    }
                } else {
                    post.spec_width_input() == pre.spec_width_input()
                        && post.spec_height_input() == pre.spec_height_input()
                }
            },
            KeyEvent::Delete => {
                &&& post.spec_is_creating()
                &&& post.spec_is_editing_height() == pre.spec_is_editing_height()
                &&& post.spec_is_deleting() == pre.spec_is_deleting()
                &&& if pre.spec_is_editing_height() {
                    &&& post.spec_width_input() == pre.spec_width_input()
                    &&& if pre.spec_height_input().len() > 0 {
                        post.spec_height_input() == pre.spec_height_input().drop_last()
                    } else {
                        post.spec_height_input() == pre.spec_height_input()
                    }
                } else {
                    &&& post.spec_height_input() == pre.spec_height_input()
                    &&& if pre.spec_width_input().len() > 0 {
                        post.spec_width_input() == pre.spec_width_input().drop_last()
                    } else {
                        post.spec_width_input() == pre.spec_width_input()
                    }
                }
            },
            KeyEvent::Tab => {
                &&& post.spec_is_creating()
                &&& post.spec_is_editing_height() == !pre.spec_is_editing_height()
                &&& post.spec_is_deleting() == pre.spec_is_deleting()
                &&& post.spec_width_input() == pre.spec_width_input()
                &&& post.spec_height_input() == pre.spec_height_input()
            },
            KeyEvent::Escape => {
                &&& !post.spec_is_creating()
                &&& !post.spec_is_editing_height()
                &&& !post.spec_is_deleting()
                &&& post.spec_width_input().len() == 0
                &&& post.spec_height_input().len() == 0
            },
            _ => post == pre,
        }
    }

    /// Enter while a new level's size is being typed: with an accepted size
    /// an empty level of exactly that size is appended and the entry state
    /// resets; otherwise the offending number is reported and nothing
    /// changes.
    pub open spec fn spec_size_entry_submit(
        pre: ScreenLevelPackEditor,
        post: ScreenLevelPackEditor,
        pack_pre: LevelPack,
        pack_post: LevelPack,
        r: LevelPackEditorAction,
    ) -> bool {
        match pre.spec_accepted_size() {
            Some(size) => {
                &&& r == LevelPackEditorAction::LevelCreated
                &&& !post.spec_is_creating()
                &&& !post.spec_is_editing_height()
                &&& !post.spec_is_deleting()
                &&& post.spec_width_input().len() == 0
                &&& post.spec_height_input().len() == 0
                &&& pack_post.spec_levels().len() == pack_pre.spec_levels().len() + 1
                &&& pack_post.spec_levels().drop_last() == pack_pre.spec_levels()
                &&& pack_post.spec_levels().last().spec_level().wf()
                &&& pack_post.spec_levels().last().spec_level().spec_width() == size.0
                &&& pack_post.spec_levels().last().spec_level().spec_height() == size.1
                &&& (forall|i: int| 0 <= i < pack_post.spec_levels().last().spec_level()@.len()
                    ==> pack_post.spec_levels().last().spec_level()@[i] == Tile::Empty)
                &&& pack_post.spec_levels().last().spec_best_time() is None
                &&& pack_post.spec_levels().last().spec_best_moves() is None
                &&& pack_post.spec_id() == pack_pre.spec_id()
                &&& pack_post.spec_path() == pack_pre.spec_path()
                &&& pack_post.spec_min_level_not_completed()
                    == pack_pre.spec_min_level_not_completed()
            },
            None => {
                &&& r == if !pre.spec_width_ok() {
                    LevelPackEditorAction::InvalidWidth
                } else {
                    LevelPackEditorAction::InvalidHeight
                }
                &&& pack_post == pack_pre
                &&& post == pre
            },
        }
    }

    /// One key while typing a new level's size.
    fn on_size_key(&mut self, pack: &mut LevelPack, key: KeyEvent) -> (r: LevelPackEditorAction)
        requires
            old(self).spec_is_creating(),
        ensures
            match key {
                KeyEvent::Enter => Self::spec_size_entry_submit(*old(self), *final(self),
                    *old(pack), *final(pack), r),
                _ => r == LevelPackEditorAction::Stay && *final(pack) == *old(pack)
                    && Self::spec_size_entry_step(*old(self), *final(self), key),
            },
    {
        match key {
            KeyEvent::Ascii(b) => {
                if b >= 48 && b <= 57 {
                    if self.is_editing_height {
                        if self.new_level_height_str.len() < 2 {
                            self.new_level_height_str.push(b);
                        }
                    } else {
                        if self.new_level_width_str.len() < 2 {
                            self.new_level_width_str.push(b);
                        }
                    }
                }
                LevelPackEditorAction::Stay
            },
            KeyEvent::Delete => {
                if self.is_editing_height {
                    let _ = self.new_level_height_str.pop();
                } else {
                    let _ = self.new_level_width_str.pop();
                }
                LevelPackEditorAction::Stay
            },
            KeyEvent::Tab => {
                self.is_editing_height = !self.is_editing_height;
                LevelPackEditorAction::Stay
            },
            KeyEvent::Enter => {
                let width_ok: Option<usize> = match parse_size_input(&self.new_level_width_str) {
                    Some(w) => if w >= MIN_LEVEL_EXTENT && w <= MAX_LEVEL_WIDTH {
                        Some(w)
                    } else {
                        None
                    },
                    None => None,
                };
                let height_ok: Option<usize> = match parse_size_input(
                    &self.new_level_height_str,
                ) {
                    Some(h) => if h >= MIN_LEVEL_EXTENT && h <= MAX_LEVEL_HEIGHT {
                        Some(h)
                    } else {
                        None
                    },
                    None => None,
                };
                match (width_ok, height_ok) {
                    (Some(width), Some(height)) => {
                        proof {
                            assert(width * height <= MAX_LEVEL_WIDTH * MAX_LEVEL_HEIGHT)
                                by (nonlinear_arith)
                                requires
                                    0 < width <= MAX_LEVEL_WIDTH,
                                    0 < height <= MAX_LEVEL_HEIGHT,
                            ;
                        }
                        pack.add_level(Level::new(width, height));
                        self.reset_size_input();
                        LevelPackEditorAction::LevelCreated
                    },
                    (Some(_), None) => LevelPackEditorAction::InvalidHeight,
                    (None, _) => LevelPackEditorAction::InvalidWidth,
                }
            },
            KeyEvent::Escape => {
                self.reset_size_input();
                LevelPackEditorAction::Stay
            },
            _ => LevelPackEditorAction::Stay,
        }
    }

    /// One key on the pack editor: while typing a size it edits the numbers;
    /// otherwise arrows move the selection, enter opens the selected level or
    /// begins creating one, delete asks to remove the selected level, and
    /// escape leaves.
    pub fn on_key_pressed(
        &mut self,
        selected: &mut usize,
        pack: &mut LevelPack,
        key: KeyEvent,
    ) -> (r: LevelPackEditorAction)
        requires
            *old(selected) <= old(pack).spec_levels().len(),
            old(pack).spec_levels().len() < usize::MAX,
        ensures
            *final(selected) <= final(pack).spec_levels().len(),
            !old(self).spec_is_creating() ==> match key {
                KeyEvent::Escape => r == LevelPackEditorAction::BackToEditorSelection
                    && *final(self) == *old(self) && *final(pack) == *old(pack),
                KeyEvent::Help => r == LevelPackEditorAction::OpenHelp
                    && *final(self) == *old(self) && *final(pack) == *old(pack),
                KeyEvent::Enter => {
                    &&& *final(pack) == *old(pack)
                    &&& *final(selected) == *old(selected)
                    &&& if *old(selected) == old(pack).spec_levels().len() {
                        r == LevelPackEditorAction::Stay && final(self).spec_is_creating()
                    } else {
                        r == LevelPackEditorAction::EditSelectedLevel
                            && *final(self) == *old(self)
                    }
                },
                KeyEvent::Delete => {
                    &&& *final(pack) == *old(pack)
                    &&& *final(selected) == *old(selected)
                    &&& if *old(selected) != old(pack).spec_levels().len() {
                        r == LevelPackEditorAction::ConfirmDeleteLevel
                            && final(self).spec_is_deleting()
                    } else {
                        r == LevelPackEditorAction::Stay && *final(self) == *old(self)
                    }
                },
                _ => {
                    &&& *final(pack) == *old(pack)
                    &&& *final(selected) == spec_navigate_grid(*old(selected) as int,
                        old(pack).spec_levels().len() + 1 as int, key)
                    &&& r == LevelPackEditorAction::Stay
                    &&& *final(self) == *old(self)
                },
            },
            old(self).spec_is_creating() ==> {
                &&& *final(selected) == *old(selected)
                &&& match key {
                    KeyEvent::Enter => Self::spec_size_entry_submit(*old(self), *final(self),
                        *old(pack), *final(pack), r),
                    _ => r == LevelPackEditorAction::Stay && *final(pack) == *old(pack)
                        && Self::spec_size_entry_step(*old(self), *final(self), key),
                }
            },
    {
        if self.is_creating_new_level {
            return self.on_size_key(pack, key);
        }
        let level_count = pack.level_count();
        match key {
            KeyEvent::Escape => LevelPackEditorAction::BackToEditorSelection,
            KeyEvent::Help => LevelPackEditorAction::OpenHelp,
            KeyEvent::Enter => {
                if *selected == level_count {
                    self.is_creating_new_level = true;
                    LevelPackEditorAction::Stay
                } else {
                    LevelPackEditorAction::EditSelectedLevel
                }
            },
            KeyEvent::Delete => {
                if *selected != level_count {
                    self.is_deleting_level = true;
                    LevelPackEditorAction::ConfirmDeleteLevel
                } else {
                    LevelPackEditorAction::Stay
                }
            },
            _ => {
                *selected = navigate_grid(*selected, level_count + 1, key);
                LevelPackEditorAction::Stay
            },
        }
    }

    /// Settles the delete dialog: only an explicit yes removes the selected
    /// level; the caller then persists the pack.
    pub fn on_dialog_selection(
        &mut self,
        pack: &mut LevelPack,
        selected: usize,
        selection: DialogChoice,
    ) -> (removed: bool)
        ensures
            if old(self).spec_is_deleting() && selection == DialogChoice::Yes
                && selected < old(pack).spec_levels().len() {
                &&& removed
                &&& final(pack).spec_levels() == old(pack).spec_levels().remove(selected as int)
                &&& final(pack).spec_id() == old(pack).spec_id()
                &&& final(pack).spec_path() == old(pack).spec_path()
                &&& final(pack).spec_min_level_not_completed()
                    == old(pack).spec_min_level_not_completed()
                &&& !final(self).spec_is_deleting()
            } else {
                &&& !removed
                &&& *final(pack) == *old(pack)
                &&& final(self).spec_is_deleting() == (old(self).spec_is_deleting()
                    && selection != DialogChoice::Yes && selection != DialogChoice::No)
            },
    {
        if self.is_deleting_level {
            if matches!(selection, DialogChoice::Yes) {
                self.is_deleting_level = false;
                if selected < pack.level_count() {
                    let _ = pack.remove_level(selected);
                    return true;
                }
                return false;
            }
            if matches!(selection, DialogChoice::No) {
                self.is_deleting_level = false;
            }
        }
        false
    }
}

/// The direction an arrow key requests, if it is one.
pub fn direction_of_key(key: KeyEvent) -> (r: Option<Direction>)
    ensures
        r == match key {
            KeyEvent::Left => Some(Direction::Left),
            KeyEvent::Up => Some(Direction::Up),
            KeyEvent::Right => Some(Direction::Right),
            KeyEvent::Down => Some(Direction::Down),
            _ => Option::<Direction>::None,
        },
{
    match key {
        KeyEvent::Left => Some(Direction::Left),
        KeyEvent::Up => Some(Direction::Up),
        KeyEvent::Right => Some(Direction::Right),
        KeyEvent::Down => Some(Direction::Down),
        _ => None,
    }
}

/// Where the editing cursor moves: one step in the key's direction, wrapping
/// at every edge.
pub open spec fn spec_move_cursor(pos: (usize, usize), width: int, height: int, key: KeyEvent)
    -> (int, int) {
    let x = pos.0 as int;
    let y = pos.1 as int;
    match key {
        KeyEvent::Left => if x > 0 {
            (x - 1, y)
        } else {
            (width - 1, y)
        },
        KeyEvent::Up => if y > 0 {
            (x, y - 1)
        } else {
            (x, height - 1)
        },
        KeyEvent::Right => if x + 1 < width {
            (x + 1, y)
        } else {
            (0int, y)
        },
        KeyEvent::Down => if y + 1 < height {
            (x, y + 1)
        } else {
            (x, 0int)
        },
        _ => (x, y),
    }
}

/// What the level editor asks the shell to do.
#[derive(Debug, Clone, Copy, Eq, PartialEq, Structural)]
pub enum LevelEditorAction {
    Stay,
    /// Escape: ask whether to keep the edited level.
    OpenSaveDialog,
}

/// How the save dialog of the level editor was settled.
#[derive(Debug, Clone, Copy, Eq, PartialEq, Structural)]
pub enum LevelEditorDialogAction {
    Stay,
    /// Store the edited level back into the pack and persist it.
    SaveAndExit,
    /// Drop the edits.
    DiscardAndExit,
}

/// The level editor: a design grid under a cursor, a typing direction for
/// laying tiles in runs, and an optional playtest copy driven by the same
/// move resolver as the game.
#[derive(Debug)]
pub struct ScreenLevelEditor {
    level: Option<Level>,
    is_vertical_input: bool,
    is_reverse_input: bool,
    playing_level: Option<Level>,
    cursor_pos: (usize, usize),
    player_pos: (usize, usize),
}

impl ScreenLevelEditor {
    pub closed spec fn spec_level(self) -> Option<Level> {
        self.level
    }

    pub closed spec fn spec_is_vertical_input(self) -> bool {
        self.is_vertical_input
    }

    pub closed spec fn spec_is_reverse_input(self) -> bool {
        self.is_reverse_input
    }

    pub closed spec fn spec_playing_level(self) -> Option<Level> {
        self.playing_level
    }

    pub closed spec fn spec_cursor_pos(self) -> (usize, usize) {
        self.cursor_pos
    }

    pub closed spec fn spec_player_pos(self) -> (usize, usize) {
        self.player_pos
    }

    /// The design under edit is in shape: present, well-formed, cursor on it.
    pub open spec fn spec_editing_ok(self) -> bool {
        &&& self.spec_level() is Some
        &&& self.spec_level().unwrap().wf()
        &&& self.spec_cursor_pos().0 < self.spec_level().unwrap().spec_width()
        &&& self.spec_cursor_pos().1 < self.spec_level().unwrap().spec_height()
    }

    /// A playtest is in shape: design and copy of one size, the player marker
    /// standing where the editor believes.
    pub open spec fn spec_playtest_ok(self) -> bool {
        &&& self.spec_level() is Some
        &&& self.spec_level().unwrap().wf()
        &&& self.spec_playing_level() is Some
        &&& self.spec_playing_level().unwrap().wf()
        &&& self.spec_level().unwrap().spec_same_size(self.spec_playing_level().unwrap())
        &&& self.spec_player_pos().0 < self.spec_playing_level().unwrap().spec_width()
        &&& self.spec_player_pos().1 < self.spec_playing_level().unwrap().spec_height()
        &&& self.spec_playing_level().unwrap().spec_tile_at(self.spec_player_pos().0 as int,
            self.spec_player_pos().1 as int) == Tile::Player
    }

    pub fn new() -> (screen: ScreenLevelEditor)
        ensures
            screen.spec_level() is None,
            !screen.spec_is_vertical_input(),
            !screen.spec_is_reverse_input(),
            screen.spec_playing_level() is None,
            screen.spec_cursor_pos() == (0usize, 0usize),
            screen.spec_player_pos() == (0usize, 0usize),
    {
        ScreenLevelEditor {
            level: None,
            is_vertical_input: false,
            is_reverse_input: false,
            playing_level: None,
            cursor_pos: (0, 0),
            player_pos: (0, 0),
        }
    }

    pub fn level(&self) -> (r: &Option<Level>)
        ensures
            *r == self.spec_level(),
    {
        &self.level
    }

    pub fn playing_level(&self) -> (r: &Option<Level>)
        ensures
            *r == self.spec_playing_level(),
    {
        &self.playing_level
    }

    pub fn cursor_pos(&self) -> (r: (usize, usize))
        ensures
            r == self.spec_cursor_pos(),
    {
        self.cursor_pos
    }

    pub fn is_vertical_input(&self) -> (r: bool)
        ensures
            r == self.spec_is_vertical_input(),
    {
        self.is_vertical_input
    }

    pub fn is_reverse_input(&self) -> (r: bool)
        ensures
            r == self.spec_is_reverse_input(),
    {
        self.is_reverse_input
    }

    /// Entering the editor loads an independent copy of the chosen template
    /// and resets cursor, typing direction and playtest.
    pub fn on_set_screen(&mut self, level: &Level)
        requires
            level.wf(),
        ensures
            final(self).spec_level() is Some,
            final(self).spec_level().unwrap().wf(),
            final(self).spec_level().unwrap().spec_width() == level.spec_width(),
            final(self).spec_level().unwrap().spec_height() == level.spec_height(),
            final(self).spec_level().unwrap()@ == level@,
            !final(self).spec_is_vertical_input(),
            !final(self).spec_is_reverse_input(),
            final(self).spec_playing_level() is None,
            final(self).spec_cursor_pos() == (0usize, 0usize),
            final(self).spec_player_pos() == (0usize, 0usize),
            final(self).spec_editing_ok(),
    {
        self.is_vertical_input = false;
        self.is_reverse_input = false;
        self.playing_level = None;
        self.cursor_pos = (0, 0);
        self.player_pos = (0, 0);
        self.level = Some(level.clone());
    }

    /// Hands the edited design out, to be stored back into its pack.
    pub fn take_level(&mut self) -> (r: Option<Level>)
        ensures
            r == old(self).spec_level(),
            final(self).spec_level() is None,
            final(self).spec_playing_level() == old(self).spec_playing_level(),
            final(self).spec_cursor_pos() == old(self).spec_cursor_pos(),
            final(self).spec_player_pos() == old(self).spec_player_pos(),
    {
        self.level.take()
    }

    /// Drops the edits without storing them.
    pub fn discard_level(&mut self)
        ensures
            final(self).spec_level() is None,
            final(self).spec_playing_level() == old(self).spec_playing_level(),
            final(self).spec_cursor_pos() == old(self).spec_cursor_pos(),
            final(self).spec_player_pos() == old(self).spec_player_pos(),
    {
        self.level = None;
    }

    /// Moves the editing cursor one step, wrapping at the edges.
    fn move_cursor(&mut self, key: KeyEvent)
        ensures
            if old(self).spec_editing_ok() {
                let moved = spec_move_cursor(old(self).spec_cursor_pos(),
                    old(self).spec_level().unwrap().spec_width() as int,
                    old(self).spec_level().unwrap().spec_height() as int, key);
                &&& final(self).spec_cursor_pos().0 == moved.0
                &&& final(self).spec_cursor_pos().1 == moved.1
                &&& final(self).spec_editing_ok()
                &&& final(self).spec_level() == old(self).spec_level()
                &&& final(self).spec_playing_level() == old(self).spec_playing_level()
                &&& final(self).spec_player_pos() == old(self).spec_player_pos()
                &&& final(self).spec_is_vertical_input() == old(self).spec_is_vertical_input()
                &&& final(self).spec_is_reverse_input() == old(self).spec_is_reverse_input()
            } else {
                *final(self) == *old(self)
            },
    {
        let (width, height) = match &self.level {
            Some(level) => (level.width(), level.height()),
            None => {
                return;
            },
        };
        if width < 1 || height < 1 || self.cursor_pos.0 >= width || self.cursor_pos.1 >= height {
            return;
        }
        let total = match &self.level {
            Some(level) => level.tiles().len(),
            None => {
                return;
            },
        };
        let product = match width.checked_mul(height) {
            Some(p) => p,
            None => {
                return;
            },
        };
        if total != product {
            return;
        }
        let (x, y) = self.cursor_pos;
        self.cursor_pos = match key {
            KeyEvent::Left => if x > 0 {
                (x - 1, y)
            } else {
                (width - 1, y)
            },
            KeyEvent::Up => if y > 0 {
                (x, y - 1)
            } else {
                (x, height - 1)
            },
            KeyEvent::Right => if x + 1 < width {
                (x + 1, y)
            } else {
                (0, y)
            },
            KeyEvent::Down => if y + 1 < height {
                (x, y + 1)
            } else {
                (x, 0)
            },
            _ => (x, y),
        };
    }

    /// One key while editing: arrows move the cursor; the four letter keys
    /// turn the typing direction; any other byte that names a tile other than
    /// the secret one is laid under the cursor, and the cursor then advances
    /// one step in the typing direction.
    pub open spec fn spec_editing_step(
        pre: ScreenLevelEditor,
        post: ScreenLevelEditor,
        key: KeyEvent,
    ) -> bool {
        &&& post.spec_playing_level() == pre.spec_playing_level()
        &&& post.spec_player_pos() == pre.spec_player_pos()
        &&& match key {
            KeyEvent::Ascii(b) => {
                if b == 100 || b == 119 || b == 97 || b == 115 {
                    // 'd', 'w', 'a', 's': turn the typing direction.
                    &&& post.spec_is_vertical_input() == (b == 119 || b == 115)
                    &&& post.spec_is_reverse_input() == (b == 119 || b == 97)
                    &&& post.spec_level() == pre.spec_level()
                    &&& post.spec_cursor_pos() == pre.spec_cursor_pos()
                } else {
                    &&& post.spec_is_vertical_input() == pre.spec_is_vertical_input()
                    &&& post.spec_is_reverse_input() == pre.spec_is_reverse_input()
                    &&& if pre.spec_editing_ok() {
                        let placed = crate::tile::spec_tile_from_byte(b);
                        let cursor = pre.spec_cursor_pos();
                        let design = pre.spec_level().unwrap();
                        let advance_key = if pre.spec_is_vertical_input() {
                            if pre.spec_is_reverse_input() {
                                KeyEvent::Up
                            } else {
                                KeyEvent::Down
                            }
                        } else {
                            if pre.spec_is_reverse_input() {
                                KeyEvent::Left
                            } else {
                                KeyEvent::Right
                            }
                        };
                        let moved = spec_move_cursor(cursor, design.spec_width() as int,
                            design.spec_height() as int, advance_key);
                        &&& post.spec_level() is Some
                        &&& post.spec_level().unwrap()@
                            == match placed {
                                Some(tile) => if tile != Tile::Secret {
                                    design@.update(crate::level::spec_cell_index(
                                        design.spec_width() as int, cursor.0 as int,
                                        cursor.1 as int), tile)
                                } else {
                                    design@
                                },
                                None => design@,
                            }
                        &&& post.spec_level().unwrap().spec_same_size(design)
                        &&& post.spec_level().unwrap().wf()
                        &&& post.spec_cursor_pos().0 == moved.0
                        &&& post.spec_cursor_pos().1 == moved.1
                        &&& post.spec_editing_ok()
                    } else {
                        post.spec_level() == pre.spec_level()
                            && post.spec_cursor_pos() == pre.spec_cursor_pos()
                    }
                }
            },
            KeyEvent::Left | KeyEvent::Up | KeyEvent::Right | KeyEvent::Down => {
                &&& post.spec_is_vertical_input() == pre.spec_is_vertical_input()
                &&& post.spec_is_reverse_input() == pre.spec_is_reverse_input()
                &&& post.spec_level() == pre.spec_level()
                &&& if pre.spec_editing_ok() {
                    let moved = spec_move_cursor(pre.spec_cursor_pos(),
                        pre.spec_level().unwrap().spec_width() as int,
                        pre.spec_level().unwrap().spec_height() as int, key);
                    post.spec_cursor_pos().0 == moved.0
                        && post.spec_cursor_pos().1 == moved.1
                } else {
                    post.spec_cursor_pos() == pre.spec_cursor_pos()
                }
            },
            _ => post == pre,
        }
    }

    /// Applies one editing key; see [`Self::spec_editing_step`].
    pub fn on_key_pressed_editing(&mut self, key: KeyEvent)
        ensures
            Self::spec_editing_step(*old(self), *final(self), key),
    {
        match key {
            KeyEvent::Left | KeyEvent::Up | KeyEvent::Right | KeyEvent::Down => {
                self.move_cursor(key);
            },
            KeyEvent::Ascii(b) => {
                if b == 100 || b == 119 || b == 97 || b == 115 {
                    self.is_vertical_input = b == 119 || b == 115;
                    self.is_reverse_input = b == 119 || b == 97;
                    return;
                }
                if !self.editing_ok() {
                    return;
                }
                if let Some(tile) = Tile::from_byte(b) {
                    if !matches!(tile, Tile::Secret) {
                        match &mut self.level {
                            Some(level) => {
                                let _ = level.set_tile(self.cursor_pos.0, self.cursor_pos.1,
                                    tile);
                            },
                            None => {},
                        }
                    }
                }
                let advance_key = if self.is_vertical_input {
                    if self.is_reverse_input {
                        KeyEvent::Up
                    } else {
                        KeyEvent::Down
                    }
                } else {
                    if self.is_reverse_input {
                        KeyEvent::Left
                    } else {
                        KeyEvent::Right
                    }
                };
                self.move_cursor(advance_key);
            },
            _ => {},
        }
    }

    /// Checks at run time that the design under edit is in shape.
    fn editing_ok(&self) -> (r: bool)
        ensures
            r == self.spec_editing_ok(),
    {
        let level = match &self.level {
            Some(l) => l,
            None => {
                return false;
            },
        };
        let width = level.width();
        let height = level.height();
        if width < 1 || height < 1 {
            return false;
        }
        let total = level.tiles().len();
        let product = match width.checked_mul(height) {
            Some(p) => p,
            None => {
                return false;
            },
        };
        if total != product {
            return false;
        }
        self.cursor_pos.0 < width && self.cursor_pos.1 < height
    }

    /// Checks at run time that a playtest move can be processed.
    fn playtest_ok(&self) -> (r: bool)
        ensures
            r == self.spec_playtest_ok(),
    {
        let design = match &self.level {
            Some(l) => l,
            None => {
                return false;
            },
        };
        let live = match &self.playing_level {
            Some(l) => l,
            None => {
                return false;
            },
        };
        let dw = design.width();
        let dh = design.height();
        let lw = live.width();
        let lh = live.height();
        if dw < 1 || dh < 1 || lw < 1 || lh < 1 {
            return false;
        }
        let dtotal = design.tiles().len();
        let dproduct = match dw.checked_mul(dh) {
            Some(p) => p,
            None => {
                return false;
            },
        };
        if dtotal != dproduct {
            return false;
        }
        let ltotal = live.tiles().len();
        let lproduct = match lw.checked_mul(lh) {
            Some(p) => p,
            None => {
                return false;
            },
        };
        if ltotal != lproduct {
            return false;
        }
        if dw != lw || dh != lh {
            return false;
        }
        let (px, py) = self.player_pos;
        if px >= lw || py >= lh {
            return false;
        }
        matches!(live.get_tile(px, py), Some(Tile::Player))
    }

    /// One arrow while playtesting: the same move resolution as the game,
    /// against the design as template, wrapping at the edges.
    pub open spec fn spec_playing_step(
        pre: ScreenLevelEditor,
        post: ScreenLevelEditor,
        key: KeyEvent,
    ) -> bool {
        &&& post.spec_level() == pre.spec_level()
        &&& post.spec_cursor_pos() == pre.spec_cursor_pos()
        &&& post.spec_is_vertical_input() == pre.spec_is_vertical_input()
        &&& post.spec_is_reverse_input() == pre.spec_is_reverse_input()
        &&& ({
            let dir = match key {
                KeyEvent::Left => Some(Direction::Left),
                KeyEvent::Up => Some(Direction::Up),
                KeyEvent::Right => Some(Direction::Right),
                KeyEvent::Down => Some(Direction::Down),
                _ => None::<Direction>,
            };
            if pre.spec_playtest_ok() && dir is Some {
                let design = pre.spec_level().unwrap();
                let live = pre.spec_playing_level().unwrap();
                let pos = pre.spec_player_pos();
                let d = dir.unwrap();
                &&& post.spec_playing_level() is Some
                &&& post.spec_playing_level().unwrap()@ == spec_next_grid(design, live, pos, d,
                    EdgePolicy::Wrap)
                &&& post.spec_playing_level().unwrap().spec_same_size(live)
                &&& post.spec_playing_level().unwrap().wf()
                &&& if spec_move_allowed(live, pos, d, EdgePolicy::Wrap) {
                    spec_move_dest(live, pos, d, EdgePolicy::Wrap) == Some((
                        post.spec_player_pos().0 as int,
                        post.spec_player_pos().1 as int,
                    ))
                } else {
                    post.spec_player_pos() == pos
                }
            } else {
                post == pre
            }
        })
    }

    /// Applies one playtest arrow; see [`Self::spec_playing_step`].
    pub fn on_key_pressed_playing(&mut self, key: KeyEvent)
        ensures
            Self::spec_playing_step(*old(self), *final(self), key),
    {
        if !self.playtest_ok() {
            return;
        }
        let direction = match direction_of_key(key) {
            Some(d) => d,
            None => {
                return;
            },
        };
        let pos = self.player_pos;
        let outcome = match (&self.level, &mut self.playing_level) {
            (Some(design), Some(live)) => resolve_move(design, live, pos, direction,
                EdgePolicy::Wrap),
            _ => {
                return;
            },
        };
        if outcome.changed {
            self.player_pos = outcome.new_pos;
        }
    }

    /// Starts or stops a playtest: stopping drops the copy; starting seats
    /// the player on the design's first player marker in column-major order
    /// (unmoved when the design has none) and clones the design.
    pub open spec fn spec_playtest_toggle(pre: ScreenLevelEditor, post: ScreenLevelEditor)
        -> bool {
        &&& post.spec_level() == pre.spec_level()
        &&& post.spec_cursor_pos() == pre.spec_cursor_pos()
        &&& post.spec_is_vertical_input() == pre.spec_is_vertical_input()
        &&& post.spec_is_reverse_input() == pre.spec_is_reverse_input()
        &&& if pre.spec_playing_level() is Some {
            post.spec_playing_level() is None
                && post.spec_player_pos() == pre.spec_player_pos()
        } else {
            match pre.spec_level() {
                Some(design) => {
                    &&& post.spec_playing_level() is Some
                    &&& design.wf() ==> {
                        &&& post.spec_playing_level().unwrap()@ == design@
                        &&& post.spec_playing_level().unwrap().spec_same_size(design)
                        &&& ({
                            let p = post.spec_player_pos();
                            ||| {
                                &&& p.0 < design.spec_width()
                                &&& p.1 < design.spec_height()
                                &&& design.spec_tile_at(p.0 as int, p.1 as int) == Tile::Player
                                &&& forall|x: int, y: int|
                                    0 <= x < design.spec_width()
                                        && 0 <= y < design.spec_height()
                                        && Level::spec_scanned_before(x, y, p.0 as int,
                                            p.1 as int)
                                        ==> design.spec_tile_at(x, y) != Tile::Player
                            }
                            ||| {
                                &&& (forall|x: int, y: int|
                                    0 <= x < design.spec_width()
                                        && 0 <= y < design.spec_height()
                                        ==> design.spec_tile_at(x, y) != Tile::Player)
                                &&& p == pre.spec_player_pos()
                            }
                        })
                    }
                    &&& !design.wf() ==> post.spec_player_pos() == pre.spec_player_pos()
                },
                None => post == pre,
            }
        }
    }

    /// Starts or stops a playtest; see [`Self::spec_playtest_toggle`].
    pub fn toggle_playtest(&mut self)
        ensures
            Self::spec_playtest_toggle(*old(self), *final(self)),
    {
        if self.playing_level.is_some() {
            self.playing_level = None;
            return;
        }
        let design = match &self.level {
            Some(l) => l,
            None => {
                return;
            },
        };
        let width = design.width();
        let height = design.height();
        let total = design.tiles().len();
        let wf_ok = width >= 1 && height >= 1 && match width.checked_mul(height) {
            Some(p) => p == total,
            None => false,
        };
        if wf_ok {
            if let Some(p) = design.find_player() {
                self.player_pos = p;
            }
        }
        self.playing_level = Some(design.clone());
    }

    /// One key in the editor: escape asks whether to keep the level, the
    /// letter `r` toggles the playtest, and anything else is an editing key
    /// while no playtest runs and a playtest key while one does.
    pub fn on_key_pressed(&mut self, key: KeyEvent) -> (r: LevelEditorAction)
        ensures
            key == KeyEvent::Escape ==> r == LevelEditorAction::OpenSaveDialog
                && *final(self) == *old(self),
            key == KeyEvent::Ascii(114) ==> r == LevelEditorAction::Stay
                && Self::spec_playtest_toggle(*old(self), *final(self)),
            key != KeyEvent::Escape && key != KeyEvent::Ascii(114)
                ==> r == LevelEditorAction::Stay
                    && if old(self).spec_playing_level() is None {
                        Self::spec_editing_step(*old(self), *final(self), key)
                    } else {
                        Self::spec_playing_step(*old(self), *final(self), key)
                    },
    {
        match key {
            KeyEvent::Escape => LevelEditorAction::OpenSaveDialog,
            KeyEvent::Ascii(114) => {
                // 'r'
                self.toggle_playtest();
                LevelEditorAction::Stay
            },
            _ => {
                if self.playing_level.is_none() {
                    self.on_key_pressed_editing(key);
                } else {
                    self.on_key_pressed_playing(key);
                }
                LevelEditorAction::Stay
            },
        }
    }

    /// Settles the save dialog: yes stores the edits (the shell takes the
    /// level and persists the pack), no drops them; anything else stays.
    pub fn on_dialog_selection(&mut self, selection: DialogChoice) -> (r: LevelEditorDialogAction)
        ensures
            match selection {
                DialogChoice::Yes => r == LevelEditorDialogAction::SaveAndExit
                    && *final(self) == *old(self),
                DialogChoice::No => r == LevelEditorDialogAction::DiscardAndExit
                    && final(self).spec_level() is None,
                _ => r == LevelEditorDialogAction::Stay && *final(self) == *old(self),
            },
    {
        match selection {
            DialogChoice::Yes => LevelEditorDialogAction::SaveAndExit,
            DialogChoice::No => {
                self.level = None;
                LevelEditorDialogAction::DiscardAndExit
            },
            _ => LevelEditorDialogAction::Stay,
        }
    }
}

} // verus!
