//! The lyrics timing cursor: maps a playback position onto the sorted list
//! of timing marks.
//!
//! A full rescan (`new`) walks the marks from the front and is used on any
//! discontinuity; the incremental step (`on_position_advanced`) looks only
//! at the next mark and is used once per tick under steady playback.  The
//! cursor holds an index into the marks of a [`Lyrics`] value rather than a
//! reference, so a lyrics reload can swap the marks out from under it and
//! simply rebuild the cursor.

use vstd::prelude::*;

use crate::lrc::Lyrics;
use crate::lrc::LyricsTiming;

verus! {

/// How many of the marks lie at or before the position the cursor was last
/// resynchronized to: the number of marks a front-to-back walk consumes
/// before it first meets one with a later time.
pub open spec fn resync_index(tms: Seq<LyricsTiming>, pos: u64) -> int
    decreases tms.len(),
{
    if tms.len() == 0 {
        0
    } else if tms[0].time > pos {
        0
    } else {
        1 + resync_index(tms.drop_first(), pos)
    }
}

pub proof fn lemma_resync_index_bounds(tms: Seq<LyricsTiming>, pos: u64)
    ensures
        0 <= resync_index(tms, pos) <= tms.len(),
        forall|j: int| 0 <= j < resync_index(tms, pos) ==> #[trigger] tms[j].time <= pos,
        resync_index(tms, pos) < tms.len() ==> tms[resync_index(tms, pos)].time > pos,
    decreases tms.len(),
{
    if tms.len() > 0 && tms[0].time <= pos {
        lemma_resync_index_bounds(tms.drop_first(), pos);
        assert forall|j: int| 0 <= j < resync_index(tms, pos) implies #[trigger] tms[j].time
            <= pos by {
            if j > 0 {
                assert(tms.drop_first()[j - 1] == tms[j]);
            }
        }
    }
}

/// Marks are listed in ascending time order.
pub open spec fn sorted_by_time(tms: Seq<LyricsTiming>) -> bool {
    forall|i: int, j: int| 0 <= i <= j < tms.len() ==> #[trigger] tms[i].time <= #[trigger] tms[j].time
}

/// On sorted marks the walk stops exactly past the last mark at or before
/// the position: everything from the stop on is strictly later.
pub proof fn lemma_resync_index_sorted(tms: Seq<LyricsTiming>, pos: u64)
    requires
        sorted_by_time(tms),
    ensures
        forall|j: int| resync_index(tms, pos) <= j < tms.len() ==> #[trigger] tms[j].time > pos,
{
    lemma_resync_index_bounds(tms, pos);
    let r = resync_index(tms, pos);
    assert forall|j: int| r <= j < tms.len() implies #[trigger] tms[j].time > pos by {
        assert(tms[r].time <= tms[j].time);
    }
}

/// The tolerance window of the incremental step: half a tick, clamped so
/// the threshold cannot go below zero.
pub open spec fn advance_threshold(next: LyricsTiming, tick_period_micros: u64) -> int {
    next.time - (if tick_period_micros / 2 < next.time {
        (tick_period_micros / 2) as int
    } else {
        next.time as int
    })
}

/// Does the incremental step move to the next mark at `pos`?
pub open spec fn spec_advance_fires(
    tms: Seq<LyricsTiming>,
    consumed: int,
    pos: u64,
    tick_period_micros: u64,
) -> bool {
    consumed < tms.len() && pos >= advance_threshold(tms[consumed], tick_period_micros)
}

/// A position's place in the marks of one [`Lyrics`] value: the marks
/// before `consumed` have been passed, the mark at `consumed` is the next
/// one due.
#[derive(Debug, Clone, Copy, PartialEq, Eq, Structural)]
pub struct LrcTimedTextState {
    consumed: usize,
}

impl LrcTimedTextState {
    /// How many marks the cursor has passed.
    pub closed spec fn spec_consumed(&self) -> int {
        self.consumed as int
    }

    /// Full rescan: place the cursor at `current_position` within the
    /// marks of `lrc`.
    pub fn new(lrc: &Lyrics, current_position: u64) -> (r: LrcTimedTextState)
        ensures
            r.spec_consumed() == resync_index(lrc@.timings, current_position),
            0 <= r.spec_consumed() <= lrc@.timings.len(),
    {
        let tms = &lrc.timings;
        let mut i: usize = 0;
        proof {
            assert(tms@.skip(0) =~= tms@);
        }
        while i < tms.len() && tms[i].time <= current_position
            invariant
                0 <= i <= tms@.len(),
                tms@ == lrc@.timings,
                resync_index(tms@, current_position) == i + resync_index(
                    tms@.skip(i as int),
                    current_position,
                ),
            decreases tms@.len() - i,
        {
            proof {
                assert(tms@.skip(i as int)[0] == tms@[i as int]);
                assert(tms@.skip(i as int).drop_first() =~= tms@.skip(i + 1));
            }
            i += 1;
        }
        proof {
            if i < tms@.len() {
                assert(tms@.skip(i as int)[0] == tms@[i as int]);
            } else {
                assert(tms@.skip(i as int) =~= Seq::<LyricsTiming>::empty());
            }
        }
        LrcTimedTextState { consumed: i }
    }

    /// The mark the cursor last passed, if any.
    pub fn current(&self, lrc: &Lyrics) -> (r: Option<LyricsTiming>)
        requires
            0 <= self.spec_consumed() <= lrc@.timings.len(),
        ensures
            r == spec_current(self.spec_consumed(), lrc@.timings),
    {
        if self.consumed > 0 {
            Some(lrc.timings[self.consumed - 1])
        } else {
            None
        }
    }

    /// The chronologically nearest mark not yet passed, if any.
    pub fn next(&self, lrc: &Lyrics) -> (r: Option<LyricsTiming>)
        requires
            0 <= self.spec_consumed() <= lrc@.timings.len(),
        ensures
            r == spec_next(self.spec_consumed(), lrc@.timings),
    {
        if self.consumed < lrc.timings.len() {
            Some(lrc.timings[self.consumed])
        } else {
            None
        }
    }

    /// Incremental step under steady playback: if the position has reached
    /// the next mark, less a tolerance of half a tick, that mark becomes
    /// current and is returned; otherwise nothing changes.
    pub fn on_position_advanced(
        &mut self,
        lrc: &Lyrics,
        current_position: u64,
        tick_period_micros: u64,
    ) -> (r: Option<LyricsTiming>)
        requires
            0 <= old(self).spec_consumed() <= lrc@.timings.len(),
        ensures
            spec_advance_fires(
                lrc@.timings,
                old(self).spec_consumed(),
                current_position,
                tick_period_micros,
            ) ==> {
                &&& r == Some(lrc@.timings[old(self).spec_consumed()])
                &&& final(self).spec_consumed() == old(self).spec_consumed() + 1
            },
            !spec_advance_fires(
                lrc@.timings,
                old(self).spec_consumed(),
                current_position,
                tick_period_micros,
            ) ==> {
                &&& r is None
                &&& *final(self) == *old(self)
            },
    {
        if self.consumed < lrc.timings.len() {
            let next = lrc.timings[self.consumed];
            let half = tick_period_micros / 2;
            let subtract = if half < next.time {
                half
            } else {
                next.time
            };
            if current_position >= next.time - subtract {
                self.consumed = self.consumed + 1;
                return Some(next);
            }
        }
        None
    }
}

/// The mark a cursor with `consumed` passed marks reports as current.
pub open spec fn spec_current(consumed: int, tms: Seq<LyricsTiming>) -> Option<LyricsTiming> {
    if 0 < consumed <= tms.len() {
        Some(tms[consumed - 1])
    } else {
        None
    }
}

/// The mark such a cursor reports as next.
pub open spec fn spec_next(consumed: int, tms: Seq<LyricsTiming>) -> Option<LyricsTiming> {
    if 0 <= consumed < tms.len() {
        Some(tms[consumed])
    } else {
        None
    }
}

/// A rescan followed at once by an incremental step at the same position
/// moves nothing: the rescan already accounts for the position.  The one
/// family of positions left out is those inside the tolerance window just
/// below the next mark, where the incremental step fires early on purpose.
pub proof fn lemma_resync_then_advance_is_none(
    tms: Seq<LyricsTiming>,
    pos: u64,
    tick_period_micros: u64,
)
    requires
        resync_index(tms, pos) < tms.len() ==> pos < advance_threshold(
            tms[resync_index(tms, pos)],
            tick_period_micros,
        ),
    ensures
        !spec_advance_fires(tms, resync_index(tms, pos), pos, tick_period_micros),
{
}

/// With no timing marks at all, a cursor has neither a current nor a next
/// mark at any position, and no step ever moves it.
pub proof fn lemma_empty_marks_cursor(pos: u64, tick_period_micros: u64)
    ensures
        resync_index(Seq::<LyricsTiming>::empty(), pos) == 0,
        spec_current(0, Seq::<LyricsTiming>::empty()) is None,
        spec_next(0, Seq::<LyricsTiming>::empty()) is None,
        !spec_advance_fires(Seq::<LyricsTiming>::empty(), 0, pos, tick_period_micros),
{
}

/// Reloading lyrics whose marks extend the old ones does not move the
/// cursor: as long as the old marks were not exhausted, a rescan at the
/// same position lands on the same current and next marks.
pub proof fn lemma_resync_prefix_stable(
    old_tms: Seq<LyricsTiming>,
    new_tms: Seq<LyricsTiming>,
    pos: u64,
)
    requires
        old_tms.len() <= new_tms.len(),
        old_tms == new_tms.subrange(0, old_tms.len() as int),
        resync_index(old_tms, pos) < old_tms.len(),
    ensures
        resync_index(new_tms, pos) == resync_index(old_tms, pos),
        spec_current(resync_index(new_tms, pos), new_tms) == spec_current(
            resync_index(old_tms, pos),
            old_tms,
        ),
        spec_next(resync_index(new_tms, pos), new_tms) == spec_next(
            resync_index(old_tms, pos),
            old_tms,
        ),
    decreases old_tms.len(),
{
    lemma_resync_index_bounds(old_tms, pos);
    lemma_resync_index_bounds(new_tms, pos);
    assert(old_tms[0] == new_tms[0]);
    if old_tms[0].time > pos {
    } else {
        let old_rest = old_tms.drop_first();
        let new_rest = new_tms.drop_first();
        assert(old_rest =~= new_rest.subrange(0, old_rest.len() as int));
        lemma_resync_prefix_stable(old_rest, new_rest, pos);
        assert(forall|k: int| 1 <= k < new_tms.len() ==> #[trigger] new_rest[k - 1] == new_tms[k]);
        assert(forall|k: int| 1 <= k < old_tms.len() ==> #[trigger] old_rest[k - 1] == old_tms[k]);
    }
}

} // verus!
