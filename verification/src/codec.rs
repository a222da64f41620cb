//! The persisted byte layout of the two file kinds a pack owns: the progress
//! save (per-level best scores plus the unlock cursor) and the editable
//! level-pack file (full tile geometry of every level). Both layouts
//! round-trip every field losslessly; the unverified shell only moves the
//! bytes to and from disk.
//!
//! Progress save: the unlock cursor and the entry count as little-endian
//! `u64`, then one 14-byte record per level — a presence tag and a `u64`
//! best time, a presence tag and a `u32` best move count, absent scores
//! written as zero. Editor file: the level count as a little-endian `u64`,
//! then per level its width and height as `u64` followed by one geometry
//! byte per tile, row by row.

use vstd::prelude::*;

use vstd::bytes::{
    spec_u32_from_le_bytes, spec_u32_to_le_bytes, spec_u64_from_le_bytes, spec_u64_to_le_bytes,
    u32_from_le_bytes, u32_to_le_bytes, u64_from_le_bytes, u64_to_le_bytes,
};
use vstd::bytes::{lemma_auto_spec_u32_to_from_le_bytes, lemma_auto_spec_u64_to_from_le_bytes};
use vstd::slice::slice_subrange;

use crate::level::Level;
use crate::pack::{LevelEntry, LevelPack};
use crate::tile::{spec_tile_from_byte, spec_tile_to_byte, Tile};
use crate::GameError;

verus! {

/// The 14-byte score record of one level entry.
pub open spec fn spec_scores_bytes(entry: LevelEntry) -> Seq<u8> {
    (match entry.spec_best_time() {
        Some(t) => seq![1u8] + spec_u64_to_le_bytes(t),
        None => seq![0u8] + spec_u64_to_le_bytes(0),
    }) + (match entry.spec_best_moves() {
        Some(m) => seq![1u8] + spec_u32_to_le_bytes(m),
        None => seq![0u8] + spec_u32_to_le_bytes(0),
    })
}

/// The concatenated score records of a pack's entries, in order.
pub open spec fn spec_scores_records(entries: Seq<LevelEntry>) -> Seq<u8>
    decreases entries.len(),
{
    if entries.len() == 0 {
        Seq::<u8>::empty()
    } else {
        spec_scores_bytes(entries.first()) + spec_scores_records(entries.drop_first())
    }
}

/// The progress-save layout of a whole pack.
pub open spec fn spec_save_game_bytes(pack: LevelPack) -> Seq<u8> {
    spec_u64_to_le_bytes(pack.spec_min_level_not_completed() as u64)
        + spec_u64_to_le_bytes(pack.spec_levels().len() as u64)
        + spec_scores_records(pack.spec_levels())
}

/// The geometry layout of one level: width, height, then one byte per tile.
pub open spec fn spec_level_bytes(level: Level) -> Seq<u8> {
    spec_u64_to_le_bytes(level.spec_width() as u64)
        + spec_u64_to_le_bytes(level.spec_height() as u64)
        + level@.map_values(|t: Tile| spec_tile_to_byte(t))
}

/// The concatenated geometry of a pack's level templates, in order.
pub open spec fn spec_levels_bytes(entries: Seq<LevelEntry>) -> Seq<u8>
    decreases entries.len(),
{
    if entries.len() == 0 {
        Seq::<u8>::empty()
    } else {
        spec_level_bytes(entries.first().spec_level())
            + spec_levels_bytes(entries.drop_first())
    }
}

/// The editable level-pack layout of a whole pack.
pub open spec fn spec_editor_pack_bytes(pack: LevelPack) -> Seq<u8> {
    spec_u64_to_le_bytes(pack.spec_levels().len() as u64)
        + spec_levels_bytes(pack.spec_levels())
}

/// One decoded 14-byte score record and the position after it. A record is
/// well-formed when both presence tags are 0 or 1 and an absent score's
/// payload is written as zero.
pub open spec fn spec_parse_scores(bytes: Seq<u8>, pos: int) -> Option<
    ((Option<u64>, Option<u32>), int),
> {
    if 0 <= pos && pos + 14 <= bytes.len() {
        let tag_time = bytes[pos];
        let time = spec_u64_from_le_bytes(bytes.subrange(pos + 1, pos + 9));
        let tag_moves = bytes[pos + 9];
        let moves = spec_u32_from_le_bytes(bytes.subrange(pos + 10, pos + 14));
        if (tag_time == 0 || tag_time == 1) && (tag_moves == 0 || tag_moves == 1)
            && (tag_time == 1 || time == 0) && (tag_moves == 1 || moves == 0) {
            Some((
                (
                    if tag_time == 1 { Some(time) } else { None },
                    if tag_moves == 1 { Some(moves) } else { None },
                ),
                pos + 14,
            ))
        } else {
            None
        }
    } else {
        None
    }
}

/// `count` consecutive score records starting at `pos`, with the position
/// after the last one.
pub open spec fn spec_parse_scores_list(bytes: Seq<u8>, pos: int, count: nat) -> Option<
    (Seq<(Option<u64>, Option<u32>)>, int),
>
    decreases count,
{
    if count == 0 {
        Some((Seq::<(Option<u64>, Option<u32>)>::empty(), pos))
    } else {
        match spec_parse_scores(bytes, pos) {
            Some((record, next)) => match spec_parse_scores_list(bytes, next, (count - 1) as nat) {
                Some((records, end)) => Some((seq![record] + records, end)),
                None => None,
            },
            None => None,
        }
    }
}

/// A whole progress save: the unlock cursor and the per-level score records.
/// `None` exactly when the bytes are not a well-formed save: too short, a
/// cursor beyond the level count, a malformed record, or trailing bytes.
pub open spec fn spec_parse_save_game(bytes: Seq<u8>) -> Option<
    (u64, Seq<(Option<u64>, Option<u32>)>),
> {
    if bytes.len() >= 16 {
        let cursor = spec_u64_from_le_bytes(bytes.subrange(0, 8));
        let count = spec_u64_from_le_bytes(bytes.subrange(8, 16));
        if cursor <= count {
            match spec_parse_scores_list(bytes, 16, count as nat) {
                Some((records, end)) => if end == bytes.len() {
                    Some((cursor, records))
                } else {
                    None
                },
                None => None,
            }
        } else {
            None
        }
    } else {
        None
    }
}

/// One decoded level geometry — width, height, tiles — and the position
/// after it. `None` when the rectangle is degenerate, too large for memory,
/// truncated, or a tile byte is outside the alphabet.
pub open spec fn spec_parse_level(bytes: Seq<u8>, pos: int) -> Option<
    ((usize, usize, Seq<Tile>), int),
> {
    if 0 <= pos && pos + 16 <= bytes.len() {
        let w = spec_u64_from_le_bytes(bytes.subrange(pos, pos + 8)) as int;
        let h = spec_u64_from_le_bytes(bytes.subrange(pos + 8, pos + 16)) as int;
        if 1 <= w && 1 <= h && w <= usize::MAX && h <= usize::MAX && w * h <= usize::MAX
            && pos + 16 + w * h <= bytes.len() {
            let raw = bytes.subrange(pos + 16, pos + 16 + w * h);
            if forall|j: int| 0 <= j < raw.len() ==> spec_tile_from_byte(raw[j]) is Some {
                Some((
                    (w as usize, h as usize,
                        raw.map_values(|b: u8| spec_tile_from_byte(b).unwrap())),
                    pos + 16 + w * h,
                ))
            } else {
                None
            }
        } else {
            None
        }
    } else {
        None
    }
}

/// `count` consecutive level geometries starting at `pos`.
pub open spec fn spec_parse_level_list(bytes: Seq<u8>, pos: int, count: nat) -> Option<
    (Seq<(usize, usize, Seq<Tile>)>, int),
>
    decreases count,
{
    if count == 0 {
        Some((Seq::<(usize, usize, Seq<Tile>)>::empty(), pos))
    } else {
        match spec_parse_level(bytes, pos) {
            Some((model, next)) => match spec_parse_level_list(bytes, next, (count - 1) as nat) {
                Some((models, end)) => Some((seq![model] + models, end)),
                None => None,
            },
            None => None,
        }
    }
}

/// A whole editable level-pack file: every level's geometry. `None` exactly
/// when the bytes are not a well-formed editor file.
pub open spec fn spec_parse_editor_pack(bytes: Seq<u8>) -> Option<Seq<(usize, usize, Seq<Tile>)>> {
    if bytes.len() >= 8 {
        let count = spec_u64_from_le_bytes(bytes.subrange(0, 8));
        match spec_parse_level_list(bytes, 8, count as nat) {
            Some((models, end)) => if end == bytes.len() {
                Some(models)
            } else {
                None
            },
            None => None,
        }
    } else {
        None
    }
}

/// Appends one entry's 14-byte score record.
fn push_scores_bytes(out: &mut Vec<u8>, entry: &LevelEntry)
    ensures
        final(out)@ == old(out)@ + spec_scores_bytes(*entry),
{
    match entry.best_time() {
        Some(t) => {
            out.push(1u8);
            let mut b = u64_to_le_bytes(t);
            out.append(&mut b);
        },
        None => {
            out.push(0u8);
            let mut b = u64_to_le_bytes(0);
            out.append(&mut b);
        },
    }
    match entry.best_moves() {
        Some(m) => {
            out.push(1u8);
            let mut b = u32_to_le_bytes(m);
            out.append(&mut b);
        },
        None => {
            out.push(0u8);
            let mut b = u32_to_le_bytes(0);
            out.append(&mut b);
        },
    }
    proof {
        assert(out@ =~= old(out)@ + spec_scores_bytes(*entry));
    }
}

impl LevelPack {
    /// Serializes the pack's progress — per-level best scores and the unlock
    /// cursor — in the progress-save layout.
    pub fn save_game_bytes(&self) -> (out: Vec<u8>)
        requires
            self.spec_levels().len() <= u64::MAX,
        ensures
            out@ == spec_save_game_bytes(*self),
    {
        let mut out: Vec<u8> = Vec::new();
        let mut b = u64_to_le_bytes(self.min_level_not_completed() as u64);
        out.append(&mut b);
        let mut b = u64_to_le_bytes(self.level_count() as u64);
        out.append(&mut b);

        let entries = self.levels();
        let count = entries.len();
        let ghost header = out@;
        proof {
            assert(entries@.skip(0) =~= entries@);
        }
        let mut i: usize = 0;
        while i < count
            invariant
                count == entries@.len(),
                i <= count,
                entries@ == self.spec_levels(),
                out@ + spec_scores_records(entries@.skip(i as int))
                    == header + spec_scores_records(entries@),
            decreases count - i,
        {
            proof {
                assert(entries@.skip(i as int).first() == entries@[i as int]);
                assert(entries@.skip(i as int).drop_first() =~= entries@.skip(i + 1));
            }
            push_scores_bytes(&mut out, &entries[i]);
            i = i + 1;
        }
        proof {
            assert(entries@.skip(count as int) =~= Seq::<LevelEntry>::empty());
            assert(out@ =~= header + spec_scores_records(entries@));
            assert(out@ =~= spec_save_game_bytes(*self));
        }
        out
    }

    /// Serializes every level's full tile geometry in the editor layout.
    pub fn editor_pack_bytes(&self) -> (out: Vec<u8>)
        requires
            self.spec_levels().len() <= u64::MAX,
        ensures
            out@ == spec_editor_pack_bytes(*self),
    {
        let mut out: Vec<u8> = Vec::new();
        let mut b = u64_to_le_bytes(self.level_count() as u64);
        out.append(&mut b);

        let entries = self.levels();
        let count = entries.len();
        let ghost header = out@;
        proof {
            assert(entries@.skip(0) =~= entries@);
        }
        let mut i: usize = 0;
        while i < count
            invariant
                count == entries@.len(),
                i <= count,
                entries@ == self.spec_levels(),
                out@ + spec_levels_bytes(entries@.skip(i as int))
                    == header + spec_levels_bytes(entries@),
            decreases count - i,
        {
            proof {
                assert(entries@.skip(i as int).first() == entries@[i as int]);
                assert(entries@.skip(i as int).drop_first() =~= entries@.skip(i + 1));
            }
            push_level_bytes(&mut out, entries[i].level());
            i = i + 1;
        }
        proof {
            assert(entries@.skip(count as int) =~= Seq::<LevelEntry>::empty());
            assert(out@ =~= header + spec_levels_bytes(entries@));
            assert(out@ =~= spec_editor_pack_bytes(*self));
        }
        out
    }
}

/// Decodes one 14-byte score record at `pos`.
fn parse_scores_at(bytes: &Vec<u8>, pos: usize) -> (r: Option<((Option<u64>, Option<u32>), usize)>)
    ensures
        match r {
            Some((record, next)) => spec_parse_scores(bytes@, pos as int)
                == Some((record, next as int)),
            None => spec_parse_scores(bytes@, pos as int) is None,
        },
{
    let len = bytes.len();
    if len < 14 || pos > len - 14 {
        return None;
    }
    let tag_time = bytes[pos];
    let time = u64_from_le_bytes(slice_subrange(bytes.as_slice(), pos + 1, pos + 9));
    let tag_moves = bytes[pos + 9];
    let moves = u32_from_le_bytes(slice_subrange(bytes.as_slice(), pos + 10, pos + 14));
    if (tag_time == 0 || tag_time == 1) && (tag_moves == 0 || tag_moves == 1)
        && (tag_time == 1 || time == 0) && (tag_moves == 1 || moves == 0) {
        let best_time = if tag_time == 1 { Some(time) } else { None };
        let best_moves = if tag_moves == 1 { Some(moves) } else { None };
        Some(((best_time, best_moves), pos + 14))
    } else {
        None
    }
}

/// Decodes one level geometry at `pos` into an independent level.
fn parse_level_at(bytes: &Vec<u8>, pos: usize) -> (r: Option<(Level, usize)>)
    ensures
        match r {
            Some((level, next)) => {
                &&& level.wf()
                &&& spec_parse_level(bytes@, pos as int) == Some((
                    (level.spec_width(), level.spec_height(), level@),
                    next as int,
                ))
            },
            None => spec_parse_level(bytes@, pos as int) is None,
        },
{
    let len = bytes.len();
    if len < 16 || pos > len - 16 {
        return None;
    }
    let w64 = u64_from_le_bytes(slice_subrange(bytes.as_slice(), pos, pos + 8));
    let h64 = u64_from_le_bytes(slice_subrange(bytes.as_slice(), pos + 8, pos + 16));
    if w64 < 1 || h64 < 1 || w64 > usize::MAX as u64 || h64 > usize::MAX as u64 {
        return None;
    }
    let width = w64 as usize;
    let height = h64 as usize;
    let cells = match width.checked_mul(height) {
        Some(c) => c,
        None => {
            return None;
        },
    };
    if cells > len - (pos + 16) {
        return None;
    }
    let ghost raw = bytes@.subrange(pos + 16, pos + 16 + cells as int);
    let mut tiles: Vec<Tile> = Vec::new();
    let mut j: usize = 0;
    while j < cells
        invariant
            len == bytes@.len(),
            16 <= len,
            pos + 16 <= len,
            pos + 16 + cells <= len,
            spec_u64_from_le_bytes(bytes@.subrange(pos as int, pos + 8)) == width as u64,
            spec_u64_from_le_bytes(bytes@.subrange(pos + 8, pos + 16)) == height as u64,
            1 <= width,
            1 <= height,
            cells == width * height,
            raw == bytes@.subrange(pos + 16, pos + 16 + cells as int),
            j <= cells,
            tiles@.len() == j,
            forall|k: int| 0 <= k < j ==> #[trigger] spec_tile_from_byte(raw[k]) is Some,
            forall|k: int| 0 <= k < j
                ==> tiles@[k] == #[trigger] spec_tile_from_byte(raw[k]).unwrap(),
        decreases cells - j,
    {
        proof {
            assert(raw[j as int] == bytes@[pos + 16 + j]);
        }
        match Tile::from_byte(bytes[pos + 16 + j]) {
            Some(tile) => {
                tiles.push(tile);
                proof {
                    assert forall|k: int| 0 <= k < j + 1 implies {
                        &&& spec_tile_from_byte(raw[k]) is Some
                        &&& tiles@[k] == spec_tile_from_byte(raw[k]).unwrap()
                    } by {
                        if k == j {
                            assert(raw[k] == bytes@[pos + 16 + j]);
                            assert(spec_tile_from_byte(raw[k]) == Some(tile));
                            assert(tiles@[k] == tile);
                        } else {
                            assert(spec_tile_from_byte(raw[k]) is Some);
                            assert(tiles@[k] == spec_tile_from_byte(raw[k]).unwrap());
                        }
                    }
                }
            },
            None => {
                proof {
                    assert(spec_tile_from_byte(raw[j as int]) is None);
                }
                return None;
            },
        }
        j = j + 1;
    }
    let level = Level::from_parts(width, height, tiles);
    proof {
        let parsed = spec_parse_level(bytes@, pos as int);
        assert(parsed is Some);
        assert(parsed.unwrap().0.0 == width && parsed.unwrap().0.1 == height);
        assert(parsed.unwrap().1 == pos + 16 + cells);
        assert(parsed.unwrap().0.2 =~= level@) by {
            assert(parsed.unwrap().0.2.len() == cells);
            assert(forall|k: int| 0 <= k < cells
                ==> parsed.unwrap().0.2[k] == spec_tile_from_byte(raw[k]).unwrap());
        }
    }
    Some((level, pos + 16 + cells))
}

impl LevelPack {
    /// Restores persisted progress into this pack: each level's best scores
    /// and the unlock cursor, leaving every template untouched. A save that
    /// is not well-formed, or whose record count differs from this pack's
    /// level count, is reported as malformed and the pack is left exactly as
    /// it was — there is no partial load.
    pub fn apply_save_game_bytes(&mut self, bytes: &Vec<u8>) -> (r: Result<(), GameError>)
        ensures
            final(self).spec_id() == old(self).spec_id(),
            final(self).spec_path() == old(self).spec_path(),
            match r {
                Ok(()) => {
                    &&& spec_parse_save_game(bytes@) is Some
                    &&& ({
                        let (cursor, records) = spec_parse_save_game(bytes@).unwrap();
                        &&& records.len() == old(self).spec_levels().len()
                        &&& final(self).spec_min_level_not_completed() == cursor
                        &&& final(self).spec_levels().len() == old(self).spec_levels().len()
                        &&& forall|i: int| 0 <= i < records.len() ==> {
                            &&& final(self).spec_levels()[i].spec_level()
                                == old(self).spec_levels()[i].spec_level()
                            &&& final(self).spec_levels()[i].spec_best_time() == records[i].0
                            &&& final(self).spec_levels()[i].spec_best_moves() == records[i].1
                        }
                    })
                },
                Err(e) => {
                    &&& e == GameError::MalformedSaveData
                    &&& *final(self) == *old(self)
                    &&& (spec_parse_save_game(bytes@) is None
                        || spec_parse_save_game(bytes@).unwrap().1.len()
                            != old(self).spec_levels().len())
                },
            },
    {
        let len = bytes.len();
        if len < 16 {
            return Err(GameError::MalformedSaveData);
        }
        let cursor = u64_from_le_bytes(slice_subrange(bytes.as_slice(), 0, 8));
        let count = u64_from_le_bytes(slice_subrange(bytes.as_slice(), 8, 16));
        if cursor > count {
            return Err(GameError::MalformedSaveData);
        }

        let mut records: Vec<(Option<u64>, Option<u32>)> = Vec::new();
        let mut pos: usize = 16;
        let mut i: u64 = 0;
        proof {
            let full = spec_parse_scores_list(bytes@, 16, count as nat);
            if full is Some {
                let (rest, end) = full.unwrap();
                assert(Seq::<(Option<u64>, Option<u32>)>::empty() + rest =~= rest);
            }
        }
        while i < count
            invariant
                len == bytes@.len(),
                16 <= len,
                spec_u64_from_le_bytes(bytes@.subrange(0, 8)) == cursor,
                spec_u64_from_le_bytes(bytes@.subrange(8, 16)) == count,
                cursor <= count,
                i <= count,
                records@.len() == i,
                spec_parse_scores_list(bytes@, 16, count as nat)
                    == match spec_parse_scores_list(bytes@, pos as int, (count - i) as nat) {
                        Some((rest, end)) => Some((records@ + rest, end)),
                        None => None::<(Seq<(Option<u64>, Option<u32>)>, int)>,
                    },
            decreases count - i,
        {
            match parse_scores_at(bytes, pos) {
                Some((record, next)) => {
                    proof {
                        let tail = spec_parse_scores_list(bytes@, next as int,
                            (count - i - 1) as nat);
                        if tail is Some {
                            let (rest, end) = tail.unwrap();
                            assert(records@ + (seq![record] + rest)
                                =~= records@.push(record) + rest);
                        }
                    }
                    records.push(record);
                    pos = next;
                },
                None => {
                    return Err(GameError::MalformedSaveData);
                },
            }
            i = i + 1;
        }
        proof {
            assert(records@ + Seq::<(Option<u64>, Option<u32>)>::empty() =~= records@);
        }
        if pos != len {
            return Err(GameError::MalformedSaveData);
        }
        if records.len() != self.level_count() {
            return Err(GameError::MalformedSaveData);
        }

        // The save is well-formed and matches this pack; apply it in full.
        let total = records.len();
        let mut k: usize = 0;
        while k < total
            invariant
                total == records@.len(),
                total == self.spec_levels().len(),
                k <= total,
                self.spec_id() == old(self).spec_id(),
                self.spec_path() == old(self).spec_path(),
                self.spec_levels().len() == old(self).spec_levels().len(),
                forall|i: int| 0 <= i < total ==> self.spec_levels()[i].spec_level()
                    == old(self).spec_levels()[i].spec_level(),
                forall|i: int| 0 <= i < k ==> {
                    &&& self.spec_levels()[i].spec_best_time() == records@[i].0
                    &&& self.spec_levels()[i].spec_best_moves() == records@[i].1
                },
            decreases total - k,
        {
            let (best_time, best_moves) = records[k];
            self.restore_level_scores(k, best_time, best_moves);
            k = k + 1;
        }
        let cursor_usize = cursor as usize;
        self.restore_min_level_not_completed(cursor_usize);
        Ok(())
    }

    /// Rebuilds a pack from an editable level-pack file: the full geometry of
    /// every level, with no scores recorded and the unlock cursor at the
    /// start. A malformed file is reported as such and nothing is built.
    pub fn from_editor_bytes(id: &str, path: &str, bytes: &Vec<u8>) -> (r: Result<
        LevelPack,
        GameError,
    >)
        ensures
            match r {
                Ok(pack) => {
                    &&& spec_parse_editor_pack(bytes@) is Some
                    &&& ({
                        let models = spec_parse_editor_pack(bytes@).unwrap();
                        &&& pack.spec_id() == id@
                        &&& pack.spec_path() == path@
                        &&& pack.spec_min_level_not_completed() == 0
                        &&& pack.spec_levels().len() == models.len()
                        &&& forall|i: int| 0 <= i < models.len() ==> {
                            &&& pack.spec_levels()[i].spec_best_time() is None
                            &&& pack.spec_levels()[i].spec_best_moves() is None
                            &&& pack.spec_levels()[i].spec_level().wf()
                            &&& pack.spec_levels()[i].spec_level().spec_width() == models[i].0
                            &&& pack.spec_levels()[i].spec_level().spec_height() == models[i].1
                            &&& pack.spec_levels()[i].spec_level()@ == models[i].2
                        }
                    })
                },
                Err(e) => {
                    &&& e == GameError::MalformedSaveData
                    &&& spec_parse_editor_pack(bytes@) is None
                },
            },
    {
        let len = bytes.len();
        if len < 8 {
            return Err(GameError::MalformedSaveData);
        }
        let count = u64_from_le_bytes(slice_subrange(bytes.as_slice(), 0, 8));

        let mut pack = LevelPack::new(id, path);
        let ghost mut parsed = Seq::<(usize, usize, Seq<Tile>)>::empty();
        let mut pos: usize = 8;
        let mut i: u64 = 0;
        proof {
            let full = spec_parse_level_list(bytes@, 8, count as nat);
            if full is Some {
                let (rest, end) = full.unwrap();
                assert(Seq::<(usize, usize, Seq<Tile>)>::empty() + rest =~= rest);
            }
        }
        while i < count
            invariant
                len == bytes@.len(),
                8 <= len,
                spec_u64_from_le_bytes(bytes@.subrange(0, 8)) == count,
                i <= count,
                parsed.len() == i,
                pack.spec_id() == id@,
                pack.spec_path() == path@,
                pack.spec_min_level_not_completed() == 0,
                pack.spec_levels().len() == i,
                forall|j: int| 0 <= j < i
                    ==> (#[trigger] pack.spec_levels()[j]).spec_best_time() is None,
                forall|j: int| 0 <= j < i
                    ==> (#[trigger] pack.spec_levels()[j]).spec_best_moves() is None,
                forall|j: int| 0 <= j < i
                    ==> (#[trigger] pack.spec_levels()[j]).spec_level().wf(),
                forall|j: int| 0 <= j < i
                    ==> (#[trigger] pack.spec_levels()[j]).spec_level().spec_width()
                        == parsed[j].0,
                forall|j: int| 0 <= j < i
                    ==> (#[trigger] pack.spec_levels()[j]).spec_level().spec_height()
                        == parsed[j].1,
                forall|j: int| 0 <= j < i
                    ==> (#[trigger] pack.spec_levels()[j]).spec_level()@ == parsed[j].2,
                spec_parse_level_list(bytes@, 8, count as nat)
                    == match spec_parse_level_list(bytes@, pos as int, (count - i) as nat) {
                        Some((rest, end)) => Some((parsed + rest, end)),
                        None => None::<(Seq<(usize, usize, Seq<Tile>)>, int)>,
                    },
            decreases count - i,
        {
            match parse_level_at(bytes, pos) {
                Some((level, next)) => {
                    let ghost model = (level.spec_width(), level.spec_height(), level@);
                    let ghost prior = pack.spec_levels();
                    let ghost prior_parsed = parsed;
                    proof {
                        let tail = spec_parse_level_list(bytes@, next as int,
                            (count - i - 1) as nat);
                        if tail is Some {
                            let (rest, end) = tail.unwrap();
                            assert(parsed + (seq![model] + rest)
                                =~= parsed.push(model) + rest);
                        }
                    }
                    pack.add_level(level);
                    proof {
                        parsed = parsed.push(model);
                        assert(pack.spec_levels().len() == i + 1);
                        assert forall|j: int| 0 <= j < i + 1 implies {
                            let entry = #[trigger] pack.spec_levels()[j];
                            &&& entry.spec_best_time() is None
                            &&& entry.spec_best_moves() is None
                            &&& entry.spec_level().wf()
                            &&& entry.spec_level().spec_width() == parsed[j].0
                            &&& entry.spec_level().spec_height() == parsed[j].1
                            &&& entry.spec_level()@ == parsed[j].2
                        } by {
                            if j == i {
                                assert(pack.spec_levels()[j] == pack.spec_levels().last());
                                assert(parsed[j] == model);
                            } else {
                                assert(pack.spec_levels()[j] == pack.spec_levels().drop_last()[j]);
                                assert(pack.spec_levels().drop_last() == prior);
                                assert(parsed[j] == prior_parsed[j]);
                            }
                        }
                    }
                    pos = next;
                },
                None => {
                    return Err(GameError::MalformedSaveData);
                },
            }
            i = i + 1;
        }
        proof {
            assert(parsed + Seq::<(usize, usize, Seq<Tile>)>::empty() =~= parsed);
        }
        if pos != len {
            return Err(GameError::MalformedSaveData);
        }
        Ok(pack)
    }
}

/// Appends one level's geometry: width, height, one byte per tile.
fn push_level_bytes(out: &mut Vec<u8>, level: &Level)
    ensures
        final(out)@ == old(out)@ + spec_level_bytes(*level),
{
    let mut b = u64_to_le_bytes(level.width() as u64);
    out.append(&mut b);
    let mut b = u64_to_le_bytes(level.height() as u64);
    out.append(&mut b);

    let tiles = level.tiles();
    let count = tiles.len();
    let ghost header = out@;
    let mut i: usize = 0;
    while i < count
        invariant
            count == tiles@.len(),
            tiles@ == level@,
            i <= count,
            out@ == header + tiles@.subrange(0, i as int).map_values(
                |t: Tile| spec_tile_to_byte(t)),
        decreases count - i,
    {
        out.push(tiles[i].to_byte());
        proof {
            assert(tiles@.subrange(0, i + 1).map_values(|t: Tile| spec_tile_to_byte(t))
                =~= tiles@.subrange(0, i as int).map_values(|t: Tile| spec_tile_to_byte(t))
                    .push(spec_tile_to_byte(tiles@[i as int])));
        }
        i = i + 1;
    }
    proof {
        assert(tiles@.subrange(0, count as int) =~= tiles@);
        assert(out@ =~= old(out)@ + spec_level_bytes(*level));
    }
}

/// Splitting a stretch of bytes known to be a concatenation: the two halves
/// stand at their respective offsets.
proof fn lemma_concat_parts(s: Seq<u8>, pos: int, a: Seq<u8>, b: Seq<u8>)
    requires
        0 <= pos,
        pos + a.len() + b.len() <= s.len(),
        s.subrange(pos, pos + a.len() + b.len()) == a + b,
    ensures
        s.subrange(pos, pos + a.len()) == a,
        s.subrange(pos + a.len(), pos + a.len() + b.len()) == b,
{
    assert(s.subrange(pos, pos + a.len() as int) =~= a) by {
        assert forall|i: int| 0 <= i < a.len()
            implies s.subrange(pos, pos + a.len() as int)[i] == a[i] by {
            assert(s.subrange(pos, pos + a.len() + b.len())[i] == (a + b)[i]);
        }
    }
    assert(s.subrange(pos + a.len(), pos + a.len() + b.len()) =~= b) by {
        assert forall|i: int| 0 <= i < b.len()
            implies s.subrange(pos + a.len(), pos + a.len() + b.len())[i] == b[i] by {
            assert(s.subrange(pos, pos + a.len() + b.len())[a.len() + i]
                == s[pos + a.len() + i]);
            assert((a + b)[a.len() + i] == b[i]);
            assert(s.subrange(pos + a.len(), pos + a.len() + b.len())[i]
                == s[pos + a.len() + i]);
        }
    }
}

/// The abstract content a score record round-trips: both optional scores.
pub open spec fn spec_scores_model(entry: LevelEntry) -> (Option<u64>, Option<u32>) {
    (entry.spec_best_time(), entry.spec_best_moves())
}

/// The abstract content a level's geometry round-trips: its rectangle and
/// every tile.
pub open spec fn spec_geometry_model(level: Level) -> (usize, usize, Seq<Tile>) {
    (level.spec_width(), level.spec_height(), level@)
}

/// A score record parses back to exactly the scores it was written from.
proof fn lemma_parse_scores_one(bytes: Seq<u8>, pos: int, entry: LevelEntry)
    requires
        0 <= pos,
        pos + 14 <= bytes.len(),
        bytes.subrange(pos, pos + 14) == spec_scores_bytes(entry),
    ensures
        spec_parse_scores(bytes, pos) == Some((spec_scores_model(entry), pos + 14)),
{
    lemma_auto_spec_u64_to_from_le_bytes();
    lemma_auto_spec_u32_to_from_le_bytes();
    let enc = spec_scores_bytes(entry);
    assert(enc.len() == 14);
    assert(bytes[pos] == enc[0]);
    assert(bytes[pos + 9] == enc[9]);
    assert(bytes.subrange(pos + 1, pos + 9) =~= enc.subrange(1, 9));
    assert(bytes.subrange(pos + 10, pos + 14) =~= enc.subrange(10, 14));
    match entry.spec_best_time() {
        Some(t) => {
            assert(enc.subrange(1, 9) =~= spec_u64_to_le_bytes(t));
        },
        None => {
            assert(enc.subrange(1, 9) =~= spec_u64_to_le_bytes(0));
        },
    }
    match entry.spec_best_moves() {
        Some(m) => {
            assert(enc.subrange(10, 14) =~= spec_u32_to_le_bytes(m));
        },
        None => {
            assert(enc.subrange(10, 14) =~= spec_u32_to_le_bytes(0));
        },
    }
}

/// A run of score records parses back to exactly the scores of the entries
/// it was written from, consuming the bytes to their end.
proof fn lemma_parse_scores_records(bytes: Seq<u8>, pos: int, entries: Seq<LevelEntry>)
    requires
        0 <= pos <= bytes.len(),
        bytes.subrange(pos, bytes.len() as int) == spec_scores_records(entries),
    ensures
        spec_parse_scores_list(bytes, pos, entries.len()) == Some((
            entries.map_values(|e: LevelEntry| spec_scores_model(e)),
            bytes.len() as int,
        )),
    decreases entries.len(),
{
    if entries.len() == 0 {
        assert(spec_scores_records(entries) =~= Seq::<u8>::empty());
        assert(bytes.subrange(pos, bytes.len() as int).len() == bytes.len() - pos);
        assert(bytes.len() == pos);
        assert(entries.map_values(|e: LevelEntry| spec_scores_model(e))
            =~= Seq::<(Option<u64>, Option<u32>)>::empty());
    } else {
        let first = entries.first();
        let rest = entries.drop_first();
        lemma_auto_spec_u64_to_from_le_bytes();
        lemma_auto_spec_u32_to_from_le_bytes();
        assert(spec_scores_bytes(first).len() == 14);
        assert(spec_scores_records(entries)
            == spec_scores_bytes(first) + spec_scores_records(rest));
        assert(bytes.subrange(pos, bytes.len() as int).len() == bytes.len() - pos);
        assert(pos + spec_scores_bytes(first).len() + spec_scores_records(rest).len()
            == bytes.len());
        lemma_concat_parts(bytes, pos, spec_scores_bytes(first), spec_scores_records(rest));
        assert(bytes.subrange(pos, pos + 14) == spec_scores_bytes(first));
        lemma_parse_scores_one(bytes, pos, first);
        assert(bytes.subrange(pos + 14, bytes.len() as int) == spec_scores_records(rest));
        lemma_parse_scores_records(bytes, pos + 14, rest);
        assert(seq![spec_scores_model(first)]
            + rest.map_values(|e: LevelEntry| spec_scores_model(e))
            =~= entries.map_values(|e: LevelEntry| spec_scores_model(e)));
    }
}

/// The progress save round-trips losslessly: parsing the bytes a pack was
/// saved as recovers its exact unlock cursor and every level's recorded best
/// time and best move count.
pub proof fn lemma_save_game_round_trip(pack: LevelPack)
    requires
        pack.spec_min_level_not_completed() <= pack.spec_levels().len(),
        pack.spec_levels().len() <= u64::MAX,
    ensures
        spec_parse_save_game(spec_save_game_bytes(pack)) == Some((
            pack.spec_min_level_not_completed() as u64,
            pack.spec_levels().map_values(|e: LevelEntry| spec_scores_model(e)),
        )),
{
    lemma_auto_spec_u64_to_from_le_bytes();
    let bytes = spec_save_game_bytes(pack);
    let cursor = pack.spec_min_level_not_completed() as u64;
    let count = pack.spec_levels().len() as u64;
    assert(bytes.subrange(0, bytes.len() as int) =~= bytes);
    assert(bytes =~= (spec_u64_to_le_bytes(cursor) + spec_u64_to_le_bytes(count))
        + spec_scores_records(pack.spec_levels()));
    assert(0 + (spec_u64_to_le_bytes(cursor) + spec_u64_to_le_bytes(count)).len()
        + spec_scores_records(pack.spec_levels()).len() == bytes.len());
    lemma_concat_parts(bytes, 0, spec_u64_to_le_bytes(cursor) + spec_u64_to_le_bytes(count),
        spec_scores_records(pack.spec_levels()));
    lemma_concat_parts(bytes, 0, spec_u64_to_le_bytes(cursor), spec_u64_to_le_bytes(count));
    assert(bytes.subrange(0, 8) == spec_u64_to_le_bytes(cursor));
    assert(bytes.subrange(8, 16) == spec_u64_to_le_bytes(count));
    assert(bytes.subrange(16, bytes.len() as int) == spec_scores_records(pack.spec_levels()));
    lemma_parse_scores_records(bytes, 16, pack.spec_levels());
}

/// A level's geometry parses back to exactly the rectangle and tiles it was
/// written from.
proof fn lemma_parse_level_one(bytes: Seq<u8>, pos: int, level: Level)
    requires
        level.wf(),
        0 <= pos,
        pos + 16 + level@.len() <= bytes.len(),
        bytes.subrange(pos, pos + 16 + level@.len()) == spec_level_bytes(level),
    ensures
        spec_parse_level(bytes, pos) == Some((
            spec_geometry_model(level),
            pos + 16 + level@.len(),
        )),
{
    lemma_auto_spec_u64_to_from_le_bytes();
    let enc = spec_level_bytes(level);
    let w = level.spec_width();
    let h = level.spec_height();
    let body = level@.map_values(|t: Tile| spec_tile_to_byte(t));
    assert(enc.len() == 16 + level@.len());
    assert(enc =~= (spec_u64_to_le_bytes(w as u64) + spec_u64_to_le_bytes(h as u64)) + body);
    lemma_concat_parts(bytes, pos,
        spec_u64_to_le_bytes(w as u64) + spec_u64_to_le_bytes(h as u64), body);
    lemma_concat_parts(bytes, pos,
        spec_u64_to_le_bytes(w as u64), spec_u64_to_le_bytes(h as u64));
    let raw = bytes.subrange(pos + 16, pos + 16 + (w * h) as int);
    assert(raw == body);
    assert forall|j: int| 0 <= j < raw.len() implies spec_tile_from_byte(#[trigger] raw[j])
        is Some by {
        assert(raw[j] == spec_tile_to_byte(level@[j]));
        crate::tile::lemma_tile_byte_round_trip(level@[j]);
    }
    let parsed = spec_parse_level(bytes, pos);
    assert(parsed is Some);
    assert(parsed.unwrap().0.2 =~= level@) by {
        assert forall|j: int| 0 <= j < level@.len() implies parsed.unwrap().0.2[j]
            == level@[j] by {
            crate::tile::lemma_tile_byte_round_trip(level@[j]);
            assert(raw[j] == spec_tile_to_byte(level@[j]));
        }
    }
}

/// A run of level geometries parses back to exactly the models of the levels
/// it was written from, consuming the bytes to their end. Every template must
/// be well-formed, as every constructed level is.
proof fn lemma_parse_levels_records(bytes: Seq<u8>, pos: int, entries: Seq<LevelEntry>)
    requires
        0 <= pos <= bytes.len(),
        bytes.subrange(pos, bytes.len() as int) == spec_levels_bytes(entries),
        forall|i: int| 0 <= i < entries.len() ==> (#[trigger] entries[i]).spec_level().wf(),
    ensures
        spec_parse_level_list(bytes, pos, entries.len()) == Some((
            entries.map_values(|e: LevelEntry| spec_geometry_model(e.spec_level())),
            bytes.len() as int,
        )),
    decreases entries.len(),
{
    if entries.len() == 0 {
        assert(spec_levels_bytes(entries) =~= Seq::<u8>::empty());
        assert(bytes.subrange(pos, bytes.len() as int).len() == bytes.len() - pos);
        assert(bytes.len() == pos);
        assert(entries.map_values(|e: LevelEntry| spec_geometry_model(e.spec_level()))
            =~= Seq::<(usize, usize, Seq<Tile>)>::empty());
    } else {
        let first = entries.first().spec_level();
        let rest = entries.drop_first();
        lemma_auto_spec_u64_to_from_le_bytes();
        let step = 16 + first@.len();
        assert(spec_level_bytes(first).len() == step);
        assert(spec_levels_bytes(entries) == spec_level_bytes(first) + spec_levels_bytes(rest));
        assert(bytes.subrange(pos, bytes.len() as int).len() == bytes.len() - pos);
        assert(pos + spec_level_bytes(first).len() + spec_levels_bytes(rest).len()
            == bytes.len());
        lemma_concat_parts(bytes, pos, spec_level_bytes(first), spec_levels_bytes(rest));
        assert(bytes.subrange(pos, pos + step) == spec_level_bytes(first));
        lemma_parse_level_one(bytes, pos, first);
        assert(bytes.subrange(pos + step, bytes.len() as int) == spec_levels_bytes(rest));
        lemma_parse_levels_records(bytes, pos + step, rest);
        assert(seq![spec_geometry_model(first)]
            + rest.map_values(|e: LevelEntry| spec_geometry_model(e.spec_level()))
            =~= entries.map_values(|e: LevelEntry| spec_geometry_model(e.spec_level())));
    }
}

/// The editor file round-trips losslessly: parsing the bytes a pack was
/// saved as recovers every level's exact width, height and tiles, in order.
pub proof fn lemma_editor_pack_round_trip(pack: LevelPack)
    requires
        pack.spec_levels().len() <= u64::MAX,
        forall|i: int| 0 <= i < pack.spec_levels().len()
            ==> (#[trigger] pack.spec_levels()[i]).spec_level().wf(),
    ensures
        spec_parse_editor_pack(spec_editor_pack_bytes(pack)) == Some(
            pack.spec_levels().map_values(|e: LevelEntry| spec_geometry_model(e.spec_level())),
        ),
{
    lemma_auto_spec_u64_to_from_le_bytes();
    let bytes = spec_editor_pack_bytes(pack);
    let count = pack.spec_levels().len() as u64;
    assert(bytes.subrange(0, bytes.len() as int) =~= bytes);
    assert(0 + spec_u64_to_le_bytes(count).len()
        + spec_levels_bytes(pack.spec_levels()).len() == bytes.len());
    lemma_concat_parts(bytes, 0, spec_u64_to_le_bytes(count),
        spec_levels_bytes(pack.spec_levels()));
    assert(bytes.subrange(0, 8) == spec_u64_to_le_bytes(count));
    assert(bytes.subrange(8, bytes.len() as int) == spec_levels_bytes(pack.spec_levels()));
    lemma_parse_levels_records(bytes, 8, pack.spec_levels());
}

} // verus!
