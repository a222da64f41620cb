//! Level packs and their progress records: an ordered sequence of level
//! templates, per-level best scores that only ever improve, the unlock
//! cursor, and the pack-wide all-or-nothing score aggregates.

use vstd::prelude::*;

use crate::level::Level;
use crate::GameError;

verus! {

/// The improve-only update of a recorded best time: a first value is always
/// stored, a later value replaces the stored one only if strictly smaller.
pub open spec fn spec_improve_time(best: Option<u64>, time: u64) -> Option<u64> {
    match best {
        None => Some(time),
        Some(b) => if time < b {
            Some(time)
        } else {
            Some(b)
        },
    }
}

/// The improve-only update of a recorded best move count; same rule as for
/// times.
pub open spec fn spec_improve_moves(best: Option<u32>, moves: u32) -> Option<u32> {
    match best {
        None => Some(moves),
        Some(b) => if moves < b {
            Some(moves)
        } else {
            Some(b)
        },
    }
}

/// A level template together with the best completion scores recorded for
/// it, if it was ever completed.
#[derive(Debug)]
pub struct LevelEntry {
    level: Level,
    best_time: Option<u64>,
    best_moves: Option<u32>,
}

impl LevelEntry {
    pub closed spec fn spec_level(self) -> Level {
        self.level
    }

    /// The smallest completion time recorded, in milliseconds.
    pub closed spec fn spec_best_time(self) -> Option<u64> {
        self.best_time
    }

    /// The smallest move count recorded.
    pub closed spec fn spec_best_moves(self) -> Option<u32> {
        self.best_moves
    }

    /// Wraps a freshly authored template: nothing recorded yet.
    pub fn new(level: Level) -> (entry: LevelEntry)
        ensures
            entry.spec_level() == level,
            entry.spec_best_time() is None,
            entry.spec_best_moves() is None,
    {
        LevelEntry { level, best_time: None, best_moves: None }
    }

    /// Wraps a template together with scores restored from persisted data;
    /// restoring replaces outright rather than improving.
    pub fn with_scores(level: Level, best_time: Option<u64>, best_moves: Option<u32>) -> (entry:
        LevelEntry)
        ensures
            entry.spec_level() == level,
            entry.spec_best_time() == best_time,
            entry.spec_best_moves() == best_moves,
    {
        LevelEntry { level, best_time, best_moves }
    }

    /// The level template this entry wraps.
    pub fn level(&self) -> (level: &Level)
        ensures
            *level == self.spec_level(),
    {
        &self.level
    }

    pub fn best_time(&self) -> (r: Option<u64>)
        ensures
            r == self.spec_best_time(),
    {
        self.best_time
    }

    pub fn best_moves(&self) -> (r: Option<u32>)
        ensures
            r == self.spec_best_moves(),
    {
        self.best_moves
    }

    /// Replaces the stored scores outright; only the persistence layer may
    /// bypass the improve-only rule, when restoring a save.
    pub fn set_scores(&mut self, best_time: Option<u64>, best_moves: Option<u32>)
        ensures
            final(self).spec_level() == old(self).spec_level(),
            final(self).spec_best_time() == best_time,
            final(self).spec_best_moves() == best_moves,
    {
        self.best_time = best_time;
        self.best_moves = best_moves;
    }

    /// Applies the improve-only rule to both scores.
    pub fn update_stats(&mut self, time: u64, moves: u32)
        ensures
            final(self).spec_level() == old(self).spec_level(),
            final(self).spec_best_time() == spec_improve_time(old(self).spec_best_time(), time),
            final(self).spec_best_moves() == spec_improve_moves(old(self).spec_best_moves(),
                moves),
    {
        self.best_time = match self.best_time {
            None => Some(time),
            Some(b) => if time < b {
                Some(time)
            } else {
                Some(b)
            },
        };
        self.best_moves = match self.best_moves {
            None => Some(moves),
            Some(b) => if moves < b {
                Some(moves)
            } else {
                Some(b)
            },
        };
    }
}

/// A recorded best score only ever improves: the improve-only rule always
/// stores a first value, and never lets a stored value grow.
pub proof fn lemma_best_scores_only_improve(
    best_time: Option<u64>,
    best_moves: Option<u32>,
    time: u64,
    moves: u32,
)
    ensures
        spec_improve_time(best_time, time) is Some,
        best_time is None ==> spec_improve_time(best_time, time) == Some(time),
        best_time is Some ==> spec_improve_time(best_time, time).unwrap() <= best_time.unwrap(),
        spec_improve_moves(best_moves, moves) is Some,
        best_moves is None ==> spec_improve_moves(best_moves, moves) == Some(moves),
        best_moves is Some ==> spec_improve_moves(best_moves, moves).unwrap()
            <= best_moves.unwrap(),
{
}

/// Every level of the sequence has a best time on record.
pub open spec fn spec_all_times_recorded(entries: Seq<LevelEntry>) -> bool {
    forall|i: int| 0 <= i < entries.len() ==> entries[i].spec_best_time() is Some
}

/// Every level of the sequence has a best move count on record.
pub open spec fn spec_all_moves_recorded(entries: Seq<LevelEntry>) -> bool {
    forall|i: int| 0 <= i < entries.len() ==> entries[i].spec_best_moves() is Some
}

/// The sum of the recorded best times, counting an unrecorded level as zero.
pub open spec fn spec_time_sum(entries: Seq<LevelEntry>) -> int
    decreases entries.len(),
{
    if entries.len() == 0 {
        0
    } else {
        spec_time_sum(entries.drop_last()) + match entries.last().spec_best_time() {
            Some(t) => t as int,
            None => 0,
        }
    }
}

/// The sum of the recorded best move counts, counting an unrecorded level as
/// zero.
pub open spec fn spec_moves_sum(entries: Seq<LevelEntry>) -> int
    decreases entries.len(),
{
    if entries.len() == 0 {
        0
    } else {
        spec_moves_sum(entries.drop_last()) + match entries.last().spec_best_moves() {
            Some(m) => m as int,
            None => 0,
        }
    }
}

/// Every summand is a recorded score or zero, so the sums are non-negative.
proof fn lemma_time_sum_nonneg(entries: Seq<LevelEntry>)
    ensures
        spec_time_sum(entries) >= 0,
    decreases entries.len(),
{
    if entries.len() > 0 {
        lemma_time_sum_nonneg(entries.drop_last());
    }
}

proof fn lemma_moves_sum_nonneg(entries: Seq<LevelEntry>)
    ensures
        spec_moves_sum(entries) >= 0,
    decreases entries.len(),
{
    if entries.len() > 0 {
        lemma_moves_sum_nonneg(entries.drop_last());
    }
}

/// The time sum as the aggregate reports it: exact, or the integer's ceiling
/// in the extreme case of a total beyond what a `u64` holds.
pub open spec fn spec_clamped_time_sum(entries: Seq<LevelEntry>) -> u64 {
    if spec_time_sum(entries) > u64::MAX {
        u64::MAX
    } else {
        spec_time_sum(entries) as u64
    }
}

/// The move-count sum as the aggregate reports it; same clamping rule.
pub open spec fn spec_clamped_moves_sum(entries: Seq<LevelEntry>) -> u32 {
    if spec_moves_sum(entries) > u32::MAX {
        u32::MAX
    } else {
        spec_moves_sum(entries) as u32
    }
}

/// An identifier string, an ordered sequence of level entries whose index is
/// the canonical level number, the path its progress is persisted under, and
/// the unlock cursor: the lowest level index not yet solved.
#[derive(Debug)]
pub struct LevelPack {
    id: String,
    path: String,
    levels: Vec<LevelEntry>,
    min_level_not_completed: usize,
}

impl LevelPack {
    pub closed spec fn spec_id(self) -> Seq<char> {
        self.id@
    }

    pub closed spec fn spec_path(self) -> Seq<char> {
        self.path@
    }

    pub closed spec fn spec_levels(self) -> Seq<LevelEntry> {
        self.levels@
    }

    /// The unlock cursor: a level is playable only at or below it.
    pub closed spec fn spec_min_level_not_completed(self) -> usize {
        self.min_level_not_completed
    }

    /// An empty pack, as the editor creates one.
    pub fn new(id: &str, path: &str) -> (pack: LevelPack)
        ensures
            pack.spec_id() == id@,
            pack.spec_path() == path@,
            pack.spec_levels().len() == 0,
            pack.spec_min_level_not_completed() == 0,
    {
        LevelPack {
            id: id.to_owned(),
            path: path.to_owned(),
            levels: Vec::new(),
            min_level_not_completed: 0,
        }
    }

    pub fn id(&self) -> (r: &String)
        ensures
            r@ == self.spec_id(),
    {
        &self.id
    }

    pub fn path(&self) -> (r: &String)
        ensures
            r@ == self.spec_path(),
    {
        &self.path
    }

    pub fn level_count(&self) -> (n: usize)
        ensures
            n == self.spec_levels().len(),
    {
        self.levels.len()
    }

    /// The ordered, index-stable sequence of level entries.
    pub fn levels(&self) -> (entries: &Vec<LevelEntry>)
        ensures
            entries@ == self.spec_levels(),
    {
        &self.levels
    }

    /// Appends a freshly authored template with no scores recorded.
    pub fn add_level(&mut self, level: Level)
        ensures
            final(self).spec_id() == old(self).spec_id(),
            final(self).spec_path() == old(self).spec_path(),
            final(self).spec_min_level_not_completed()
                == old(self).spec_min_level_not_completed(),
            final(self).spec_levels().len() == old(self).spec_levels().len() + 1,
            final(self).spec_levels().drop_last() == old(self).spec_levels(),
            final(self).spec_levels().last().spec_level() == level,
            final(self).spec_levels().last().spec_best_time() is None,
            final(self).spec_levels().last().spec_best_moves() is None,
    {
        self.levels.push(LevelEntry::new(level));
        proof {
            assert(self.levels@.drop_last() =~= old(self).levels@);
        }
    }

    /// Removes the template at `index`, the editor's structural edit;
    /// reports an invalid index instead of touching anything.
    pub fn remove_level(&mut self, index: usize) -> (r: Result<(), GameError>)
        ensures
            final(self).spec_id() == old(self).spec_id(),
            final(self).spec_path() == old(self).spec_path(),
            final(self).spec_min_level_not_completed()
                == old(self).spec_min_level_not_completed(),
            if index < old(self).spec_levels().len() {
                r == Ok::<(), GameError>(())
                    && final(self).spec_levels() == old(self).spec_levels().remove(index as int)
            } else {
                r == Err::<(), GameError>(GameError::InvalidIndex) && *final(self) == *old(self)
            },
    {
        if index < self.levels.len() {
            let _ = self.levels.remove(index);
            Ok(())
        } else {
            Err(GameError::InvalidIndex)
        }
    }

    /// Overwrites the template at `index` in place, keeping the entry's
    /// recorded scores and every other entry's position — the editor stores
    /// an edited level back this way. Reports an invalid index instead of
    /// touching anything.
    pub fn replace_level(&mut self, index: usize, level: Level) -> (r: Result<(), GameError>)
        ensures
            final(self).spec_id() == old(self).spec_id(),
            final(self).spec_path() == old(self).spec_path(),
            final(self).spec_min_level_not_completed()
                == old(self).spec_min_level_not_completed(),
            if index < old(self).spec_levels().len() {
                let entry = old(self).spec_levels()[index as int];
                r == Ok::<(), GameError>(())
                    && final(self).spec_levels().len() == old(self).spec_levels().len()
                    && final(self).spec_levels()[index as int].spec_level() == level
                    && final(self).spec_levels()[index as int].spec_best_time()
                        == entry.spec_best_time()
                    && final(self).spec_levels()[index as int].spec_best_moves()
                        == entry.spec_best_moves()
                    && (forall|i: int| 0 <= i < old(self).spec_levels().len() && i != index
                        ==> final(self).spec_levels()[i] == old(self).spec_levels()[i])
            } else {
                r == Err::<(), GameError>(GameError::InvalidIndex) && *final(self) == *old(self)
            },
    {
        if index < self.levels.len() {
            let mut entry = self.levels.remove(index);
            entry.level = level;
            self.levels.insert(index, entry);
            proof {
                assert(forall|i: int| 0 <= i < old(self).levels@.len() && i != index
                    ==> self.levels@[i] == old(self).levels@[i]);
            }
            Ok(())
        } else {
            Err(GameError::InvalidIndex)
        }
    }

    /// Applies the improve-only score update to the entry at `index`;
    /// reports an invalid index instead of touching anything.
    pub fn update_stats(&mut self, index: usize, time: u64, moves: u32) -> (r: Result<
        (),
        GameError,
    >)
        ensures
            final(self).spec_id() == old(self).spec_id(),
            final(self).spec_path() == old(self).spec_path(),
            final(self).spec_min_level_not_completed()
                == old(self).spec_min_level_not_completed(),
            if index < old(self).spec_levels().len() {
                let entry = old(self).spec_levels()[index as int];
                r == Ok::<(), GameError>(())
                    && final(self).spec_levels().len() == old(self).spec_levels().len()
                    && final(self).spec_levels()[index as int].spec_level() == entry.spec_level()
                    && final(self).spec_levels()[index as int].spec_best_time()
                        == spec_improve_time(entry.spec_best_time(), time)
                    && final(self).spec_levels()[index as int].spec_best_moves()
                        == spec_improve_moves(entry.spec_best_moves(), moves)
                    && (forall|i: int| 0 <= i < old(self).spec_levels().len() && i != index
                        ==> final(self).spec_levels()[i] == old(self).spec_levels()[i])
            } else {
                r == Err::<(), GameError>(GameError::InvalidIndex) && *final(self) == *old(self)
            },
    {
        if index < self.levels.len() {
            let mut entry = self.levels.remove(index);
            entry.update_stats(time, moves);
            self.levels.insert(index, entry);
            proof {
                assert(forall|i: int| 0 <= i < old(self).levels@.len() && i != index
                    ==> self.levels@[i] == old(self).levels@[i]);
            }
            Ok(())
        } else {
            Err(GameError::InvalidIndex)
        }
    }

    /// Replaces the scores of the entry at `index` outright; only the
    /// persistence layer may bypass the improve-only rule, when restoring a
    /// save.
    pub fn restore_level_scores(
        &mut self,
        index: usize,
        best_time: Option<u64>,
        best_moves: Option<u32>,
    )
        requires
            index < old(self).spec_levels().len(),
        ensures
            final(self).spec_id() == old(self).spec_id(),
            final(self).spec_path() == old(self).spec_path(),
            final(self).spec_min_level_not_completed()
                == old(self).spec_min_level_not_completed(),
            final(self).spec_levels().len() == old(self).spec_levels().len(),
            final(self).spec_levels()[index as int].spec_level()
                == old(self).spec_levels()[index as int].spec_level(),
            final(self).spec_levels()[index as int].spec_best_time() == best_time,
            final(self).spec_levels()[index as int].spec_best_moves() == best_moves,
            forall|i: int| 0 <= i < old(self).spec_levels().len() && i != index
                ==> final(self).spec_levels()[i] == old(self).spec_levels()[i],
    {
        let mut entry = self.levels.remove(index);
        entry.set_scores(best_time, best_moves);
        self.levels.insert(index, entry);
        proof {
            assert(forall|i: int| 0 <= i < old(self).levels@.len() && i != index
                ==> self.levels@[i] == old(self).levels@[i]);
        }
    }

    /// Rewrites the unlock cursor from persisted data; only the persistence
    /// layer may move it backwards. It stays bounded by the level count.
    pub fn restore_min_level_not_completed(&mut self, index: usize)
        requires
            index <= old(self).spec_levels().len(),
        ensures
            final(self).spec_id() == old(self).spec_id(),
            final(self).spec_path() == old(self).spec_path(),
            final(self).spec_levels() == old(self).spec_levels(),
            final(self).spec_min_level_not_completed() == index,
    {
        self.min_level_not_completed = index;
    }

    pub fn min_level_not_completed(&self) -> (n: usize)
        ensures
            n == self.spec_min_level_not_completed(),
    {
        self.min_level_not_completed
    }

    /// Advances the unlock cursor. The cursor is monotone — callers never
    /// move it backwards — and stays bounded by the level count.
    pub fn set_min_level_not_completed(&mut self, index: usize)
        requires
            old(self).spec_min_level_not_completed() <= index,
            index <= old(self).spec_levels().len(),
        ensures
            final(self).spec_id() == old(self).spec_id(),
            final(self).spec_path() == old(self).spec_path(),
            final(self).spec_levels() == old(self).spec_levels(),
            final(self).spec_min_level_not_completed() == index,
    {
        self.min_level_not_completed = index;
    }

    /// The pack-wide best time: the exact sum of every level's recorded best
    /// time, or `None` as soon as a single level has none on record — the
    /// all-or-nothing aggregate. A total beyond what a `u64` holds is clamped
    /// to its ceiling rather than faulting; it is total for every pack state,
    /// restored saves included.
    pub fn level_pack_best_time_sum(&self) -> (r: Option<u64>)
        ensures
            r == if spec_all_times_recorded(self.spec_levels()) {
                Some(spec_clamped_time_sum(self.spec_levels()))
            } else {
                Option::<u64>::None
            },
    {
        let count = self.levels.len();
        let mut sum: u64 = 0;
        let mut i: usize = 0;
        while i < count
            invariant
                count == self.spec_levels().len(),
                i <= count,
                sum == spec_clamped_time_sum(self.spec_levels().subrange(0, i as int)),
                forall|j: int| 0 <= j < i ==> self.spec_levels()[j].spec_best_time() is Some,
            decreases count - i,
        {
            match self.levels[i].best_time() {
                None => {
                    return None;
                },
                Some(time) => {
                    proof {
                        assert(self.spec_levels().subrange(0, i + 1).drop_last()
                            =~= self.spec_levels().subrange(0, i as int));
                        assert(self.spec_levels().subrange(0, i + 1).last()
                            == self.spec_levels()[i as int]);
                        assert(spec_time_sum(self.spec_levels().subrange(0, i + 1))
                            == spec_time_sum(self.spec_levels().subrange(0, i as int))
                                + time);
                        lemma_time_sum_nonneg(self.spec_levels().subrange(0, i as int));
                    }
                    sum = match sum.checked_add(time) {
                        Some(v) => v,
                        None => u64::MAX,
                    };
                },
            }
            i = i + 1;
        }
        proof {
            assert(self.spec_levels().subrange(0, count as int) =~= self.spec_levels());
        }
        Some(sum)
    }

    /// The pack-wide best move count, under the same all-or-nothing rule and
    /// clamping as the time sum.
    pub fn level_pack_best_moves_sum(&self) -> (r: Option<u32>)
        ensures
            r == if spec_all_moves_recorded(self.spec_levels()) {
                Some(spec_clamped_moves_sum(self.spec_levels()))
            } else {
                Option::<u32>::None
            },
    {
        let count = self.levels.len();
        let mut sum: u32 = 0;
        let mut i: usize = 0;
        while i < count
            invariant
                count == self.spec_levels().len(),
                i <= count,
                sum == spec_clamped_moves_sum(self.spec_levels().subrange(0, i as int)),
                forall|j: int| 0 <= j < i ==> self.spec_levels()[j].spec_best_moves() is Some,
            decreases count - i,
        {
            match self.levels[i].best_moves() {
                None => {
                    return None;
                },
                Some(moves) => {
                    proof {
                        assert(self.spec_levels().subrange(0, i + 1).drop_last()
                            =~= self.spec_levels().subrange(0, i as int));
                        assert(self.spec_levels().subrange(0, i + 1).last()
                            == self.spec_levels()[i as int]);
                        assert(spec_moves_sum(self.spec_levels().subrange(0, i + 1))
                            == spec_moves_sum(self.spec_levels().subrange(0, i as int))
                                + moves);
                        lemma_moves_sum_nonneg(self.spec_levels().subrange(0, i as int));
                    }
                    sum = match sum.checked_add(moves) {
                        Some(v) => v,
                        None => u32::MAX,
                    };
                },
            }
            i = i + 1;
        }
        proof {
            assert(self.spec_levels().subrange(0, count as int) =~= self.spec_levels());
        }
        Some(sum)
    }
}

/// The aggregates are all-or-nothing: one level without a recorded best
/// time (or best move count) forces the pack-wide sum to be unknown, and
/// with every level recorded the aggregate is the exact sum.
pub proof fn lemma_score_sums_all_or_nothing(entries: Seq<LevelEntry>, i: int)
    requires
        0 <= i < entries.len(),
    ensures
        entries[i].spec_best_time() is None ==> !spec_all_times_recorded(entries),
        entries[i].spec_best_moves() is None ==> !spec_all_moves_recorded(entries),
{
}

} // verus!
