//! The read-side cache behind the outward query service: the lyrics lines
//! and the active timing mark last published, with the suppression rule
//! that keeps an unchanged mark from being announced twice.

use vstd::prelude::*;
use vstd::string::*;

use crate::lrc::LyricsTiming;

verus! {

/// What the query service can answer at any moment.
#[derive(Debug)]
pub struct ServerData {
    active_lyrics_lines: Option<Vec<String>>,
    current_timing: Option<LyricsTiming>,
}

/// Mathematical model of [`ServerData`].
pub struct ServerDataModel {
    pub active_lyrics_lines: Option<Seq<Seq<char>>>,
    pub current_timing: Option<LyricsTiming>,
}

impl View for ServerData {
    type V = ServerDataModel;

    closed spec fn view(&self) -> ServerDataModel {
        ServerDataModel {
            active_lyrics_lines: self.active_lyrics_lines.deep_view(),
            current_timing: self.current_timing,
        }
    }
}

/// One segment announcement: the stored mark becomes `timing`, and the
/// announcement is passed on only when the mark actually changed.
pub open spec fn segment_step(m: ServerDataModel, timing: Option<LyricsTiming>) -> (
    ServerDataModel,
    bool,
) {
    (
        ServerDataModel { current_timing: timing, ..m },
        timing != m.current_timing,
    )
}

impl ServerData {
    /// An empty cache: no lyrics, no active mark.
    pub fn new() -> (r: ServerData)
        ensures
            r@.active_lyrics_lines is None,
            r@.current_timing is None,
    {
        ServerData { active_lyrics_lines: None, current_timing: None }
    }

    /// The published lyrics lines; empty when none are loaded.
    pub fn get_current_lyrics(&self) -> (r: Vec<String>)
        ensures
            r.deep_view() == match self@.active_lyrics_lines {
                Some(l) => l,
                None => Seq::<Seq<char>>::empty(),
            },
    {
        match &self.active_lyrics_lines {
            None => {
                let r = Vec::<String>::new();
                proof {
                    assert(r.deep_view() =~= Seq::<Seq<char>>::empty());
                }
                r
            },
            Some(v) => clone_lines(v),
        }
    }

    /// The active mark as the wire triple `(line, from, to)`, with
    /// `(-1, -1, -1)` standing for "no active mark".
    pub fn get_current_lyrics_position(&self) -> (r: (i32, i32, i32))
        ensures
            r == match self@.current_timing {
                Some(t) => (t.line_index, t.line_char_from_index, t.line_char_to_index),
                None => (-1i32, -1i32, -1i32),
            },
    {
        match &self.current_timing {
            Some(t) => (t.line_index, t.line_char_from_index, t.line_char_to_index),
            None => (-1, -1, -1),
        }
    }

    /// Publishes new lyrics lines (or none).
    pub fn on_lyrics_changed(&mut self, lines: Option<Vec<String>>)
        ensures
            final(self)@.active_lyrics_lines == lines.deep_view(),
            final(self)@.current_timing == old(self)@.current_timing,
    {
        self.active_lyrics_lines = lines;
    }

    /// Publishes the active mark; returns whether the change must be
    /// announced, which is exactly when the mark differs from the one
    /// published before.
    pub fn on_active_lyrics_segment_changed(&mut self, timing: Option<LyricsTiming>) -> (changed:
        bool)
        ensures
            (final(self)@, changed) == segment_step(old(self)@, timing),
    {
        let same = match (&self.current_timing, &timing) {
            (None, None) => true,
            (Some(a), Some(b)) => *a == *b,
            _ => false,
        };
        self.current_timing = timing;
        !same
    }
}

pub(crate) fn clone_lines(v: &Vec<String>) -> (r: Vec<String>)
    ensures
        r.deep_view() == v.deep_view(),
{
    let mut r: Vec<String> = Vec::new();
    let mut i: usize = 0;
    while i < v.len()
        invariant
            i <= v@.len(),
            r@.len() == i,
            r.deep_view() == v.deep_view().subrange(0, i as int),
        decreases v@.len() - i,
    {
        r.push(v[i].clone());
        proof {
            assert(r.deep_view() =~= v.deep_view().subrange(0, i + 1));
        }
        i += 1;
    }
    proof {
        assert(v.deep_view().subrange(0, v@.len() as int) =~= v.deep_view());
    }
    r
}

/// An announcement repeated with the very same mark is suppressed: after
/// one step with `timing`, a second step with the same `timing` reports
/// nothing to announce.
pub proof fn lemma_segment_notice_suppressed(m: ServerDataModel, timing: Option<LyricsTiming>)
    ensures
        !segment_step(segment_step(m, timing).0, timing).1,
{
}

} // verus!
