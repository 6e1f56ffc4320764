//! The decision core of the orchestration loop.
//!
//! The loop around this engine drains the event channels, performs the
//! synchronous player queries and the file watching, and emits signals;
//! every decision — how an event changes the player state, when the cursor
//! is rebuilt or advanced, which path should be watched — is taken here.
//! On a tick that delivered events the cursor is rebuilt from scratch,
//! since the relationship between position and marks may have jumped; on a
//! quiet tick with a playing player it advances incrementally.

use vstd::prelude::*;

use crate::cursor::spec_advance_fires;
use crate::cursor::spec_current;
use crate::cursor::resync_index;
use crate::cursor::LrcTimedTextState;
use crate::events::PlaybackStatus;
use crate::events::PlayerEvent;
use crate::events::PlayerState;
use crate::events::PositionSnapshot;
use crate::lrc::Lyrics;
use crate::lrc::LyricsTiming;
use crate::metadata::get_lrc_filepath;
use crate::metadata::lrc_path_of;
use crate::reducer::reduce;
use crate::reducer::spec_reduce;
use crate::reducer::ReduceError;
use crate::server_data::clone_lines;

verus! {

/// The state the orchestration loop threads through its iterations.
#[derive(Debug)]
pub struct Engine {
    tick_period_micros: u64,
    fixed_lyrics_path: Option<String>,
    player_state: Option<PlayerState>,
    lyrics: Option<Lyrics>,
    cursor: Option<LrcTimedTextState>,
}

/// Which path the file watcher should move to after an event: `None` for
/// "leave it", `Some(p)` for "watch `p` instead" (with `Some(None)` for
/// "watch nothing").
///
/// A metadata change or a successful player start re-derives the path from
/// the track — unless a fixed lyrics path was configured, which never
/// moves — and a player shutdown clears the watch.
pub open spec fn spec_watch_request(
    fixed: Option<Seq<char>>,
    event: PlayerEvent,
    queried_state: Option<PlayerState>,
) -> Option<Option<Seq<char>>> {
    match event {
        PlayerEvent::MetadataChange(m) => if fixed is None {
            Some(
                match m {
                    Some(md) => Some(lrc_path_of(md.file_path@)),
                    None => None,
                },
            )
        } else {
            None
        },
        PlayerEvent::PlayerShutDown => Some(None),
        PlayerEvent::PlayerStarted { .. } => if fixed is None {
            match queried_state {
                Some(qs) => Some(
                    match qs.metadata {
                        Some(md) => Some(lrc_path_of(md.file_path@)),
                        None => None,
                    },
                ),
                None => None,
            }
        } else {
            None
        },
        _ => None,
    }
}

impl Engine {
    /// The configured tick period, in microseconds.
    pub closed spec fn spec_tick(&self) -> u64 {
        self.tick_period_micros
    }

    /// The lyrics path fixed on the command line, if any.
    pub closed spec fn spec_fixed(&self) -> Option<String> {
        self.fixed_lyrics_path
    }

    /// The current player state, if a player is known.
    pub closed spec fn spec_player(&self) -> Option<PlayerState> {
        self.player_state
    }

    /// The loaded lyrics, if any.
    pub closed spec fn spec_lyrics(&self) -> Option<Lyrics> {
        self.lyrics
    }

    /// The cursor into the loaded lyrics, if one stands.
    pub closed spec fn spec_cursor(&self) -> Option<LrcTimedTextState> {
        self.cursor
    }

    /// A cursor only ever stands on loaded lyrics, within their marks.
    pub open spec fn wf(&self) -> bool {
        self.spec_cursor() matches Some(c) ==> self.spec_lyrics() matches Some(l) && 0
            <= c.spec_consumed() <= l@.timings.len()
    }

    /// A fresh engine: no player, no lyrics, no cursor.
    pub fn new(tick_period_micros: u64, fixed_lyrics_path: Option<String>) -> (r: Engine)
        ensures
            r.wf(),
            r.spec_tick() == tick_period_micros,
            r.spec_fixed() == fixed_lyrics_path,
            r.spec_player() is None,
            r.spec_lyrics() is None,
            r.spec_cursor() is None,
    {
        Engine {
            tick_period_micros,
            fixed_lyrics_path,
            player_state: None,
            lyrics: None,
            cursor: None,
        }
    }

    /// Whether a player is currently known; the loop asks this to decide
    /// whether a pause event needs the position queried first.
    pub fn has_player_state(&self) -> (r: bool)
        ensures
            r == (self.spec_player() is Some),
    {
        self.player_state.is_some()
    }

    /// Folds one player event into the engine: the player state moves as
    /// the reducer says, and the watched lyrics path is re-derived where
    /// the event calls for it.  Lyrics and cursor are untouched — the end
    /// of the event batch resynchronizes them.
    ///
    /// `paused_position` and `queried_state` are the results of the
    /// synchronous queries the loop made for a pause or a player start;
    /// see the reducer.  A pause that finds a state but brought no
    /// position is rejected and changes nothing.
    pub fn handle_player_event(
        &mut self,
        instant: u64,
        event: PlayerEvent,
        paused_position: Option<PositionSnapshot>,
        queried_state: Option<PlayerState>,
    ) -> (r: Result<Option<Option<String>>, ReduceError>)
        requires
            old(self).wf(),
        ensures
            final(self).wf(),
            final(self).spec_tick() == old(self).spec_tick(),
            final(self).spec_fixed() == old(self).spec_fixed(),
            final(self).spec_lyrics() == old(self).spec_lyrics(),
            final(self).spec_cursor() == old(self).spec_cursor(),
            match spec_reduce(old(self).spec_player(), instant, event, paused_position, queried_state) {
                Ok(s) => {
                    &&& final(self).spec_player() == s
                    &&& (r matches Ok(w) && w.deep_view() == spec_watch_request(
                        old(self).spec_fixed().deep_view(),
                        event,
                        queried_state,
                    ))
                },
                Err(e) => {
                    &&& r == Err::<Option<Option<String>>, ReduceError>(e)
                    &&& final(self).spec_player() == old(self).spec_player()
                },
            },
    {
        let is_pause = match &event {
            PlayerEvent::PlaybackStatusChange(PlaybackStatus::Paused) => true,
            _ => false,
        };
        if is_pause && self.player_state.is_some() && paused_position.is_none() {
            return Err(ReduceError::MissingPosition);
        }
        let watch: Option<Option<String>> = match &event {
            PlayerEvent::MetadataChange(m) => {
                if self.fixed_lyrics_path.is_none() {
                    Some(
                        match m {
                            Some(md) => Some(get_lrc_filepath(md)),
                            None => None,
                        },
                    )
                } else {
                    None
                }
            },
            PlayerEvent::PlayerShutDown => Some(None),
            PlayerEvent::PlayerStarted { .. } => {
                if self.fixed_lyrics_path.is_none() {
                    match &queried_state {
                        Some(qs) => Some(
                            match &qs.metadata {
                                Some(md) => Some(get_lrc_filepath(md)),
                                None => None,
                            },
                        ),
                        None => None,
                    }
                } else {
                    None
                }
            },
            _ => None,
        };
        let prior = self.player_state.take();
        match reduce(prior, instant, event, paused_position, queried_state) {
            Ok(s) => {
                self.player_state = s;
                Ok(watch)
            },
            Err(e) => {
                // Unreachable: the one failing case — a pause that found a
                // state but no position — was rejected before the state was
                // taken out.
                proof {
                    assert(false);
                }
                Err(e)
            },
        }
    }

    /// Replaces the loaded lyrics (or clears them) and drops the cursor;
    /// the end of the event batch rebuilds it.  Returns the lines to
    /// publish to the query service.
    pub fn handle_lyrics_event(&mut self, lyrics: Option<Lyrics>) -> (r: Option<Vec<String>>)
        ensures
            final(self).wf(),
            final(self).spec_tick() == old(self).spec_tick(),
            final(self).spec_fixed() == old(self).spec_fixed(),
            final(self).spec_player() == old(self).spec_player(),
            final(self).spec_lyrics() == lyrics,
            final(self).spec_cursor() is None,
            r.deep_view() == match lyrics {
                Some(l) => Some(l.lines.deep_view()),
                None => None::<Seq<Seq<char>>>,
            },
    {
        let r = match &lyrics {
            Some(l) => Some(clone_lines(&l.lines)),
            None => None,
        };
        self.lyrics = lyrics;
        self.cursor = None;
        r
    }

    /// After a tick that delivered events: rebuild the cursor against the
    /// position the player state extrapolates for `now`, and hand back the
    /// mark that is now current, for the query service and its suppression
    /// of repeated announcements.  With no lyrics or no player there is no
    /// cursor and no current mark.
    pub fn after_events(&mut self, now: u64) -> (r: Option<LyricsTiming>)
        requires
            old(self).wf(),
        ensures
            final(self).wf(),
            final(self).spec_tick() == old(self).spec_tick(),
            final(self).spec_fixed() == old(self).spec_fixed(),
            final(self).spec_player() == old(self).spec_player(),
            final(self).spec_lyrics() == old(self).spec_lyrics(),
            match (old(self).spec_lyrics(), old(self).spec_player()) {
                (Some(l), Some(p)) => {
                    let consumed = resync_index(l@.timings, p.spec_current_position(now));
                    &&& (final(self).spec_cursor() matches Some(c) && c.spec_consumed()
                        == consumed)
                    &&& r == spec_current(consumed, l@.timings)
                },
                _ => {
                    &&& final(self).spec_cursor() is None
                    &&& r is None
                },
            },
    {
        match (&self.lyrics, &self.player_state) {
            (Some(l), Some(p)) => {
                let pos = p.current_position(now);
                let c = LrcTimedTextState::new(l, pos);
                let r = c.current(l);
                self.cursor = Some(c);
                r
            },
            _ => {
                self.cursor = None;
                None
            },
        }
    }

    /// On a quiet tick: if the player is playing and a cursor stands,
    /// advance it incrementally; a returned mark has just become current
    /// and is to be announced.
    pub fn on_tick(&mut self, now: u64) -> (r: Option<LyricsTiming>)
        requires
            old(self).wf(),
        ensures
            final(self).wf(),
            final(self).spec_tick() == old(self).spec_tick(),
            final(self).spec_fixed() == old(self).spec_fixed(),
            final(self).spec_player() == old(self).spec_player(),
            final(self).spec_lyrics() == old(self).spec_lyrics(),
            match (old(self).spec_player(), old(self).spec_lyrics(), old(self).spec_cursor()) {
                (Some(p), Some(l), Some(c)) => {
                    if p.playback_status is Playing && spec_advance_fires(
                        l@.timings,
                        c.spec_consumed(),
                        p.spec_current_position(now),
                        old(self).spec_tick(),
                    ) {
                        &&& r == Some(l@.timings[c.spec_consumed()])
                        &&& (final(self).spec_cursor() matches Some(c2) && c2.spec_consumed()
                            == c.spec_consumed() + 1)
                    } else {
                        &&& r is None
                        &&& final(self).spec_cursor() == old(self).spec_cursor()
                    }
                },
                _ => {
                    &&& r is None
                    &&& final(self).spec_cursor() == old(self).spec_cursor()
                },
            },
    {
        match (&self.player_state, &self.lyrics, &self.cursor) {
            (Some(p), Some(l), Some(c0)) => {
                if p.playback_status == PlaybackStatus::Playing {
                    let mut c = *c0;
                    let pos = p.current_position(now);
                    let r = c.on_position_advanced(l, pos, self.tick_period_micros);
                    self.cursor = Some(c);
                    r
                } else {
                    None
                }
            },
            _ => None,
        }
    }
}

} // verus!
