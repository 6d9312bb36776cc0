//! The playback session: at most one active track for each voice context,
//! and the transport operations on it.
//!
//! A session knows its track by its title. Beginning a track replaces the
//! one that plays; stopping, and the natural end of the track, leave the
//! session without one. What is to be done to the stream itself is handed
//! back to the caller as a decision.

use std::collections::HashMap;
use vstd::prelude::*;
use vstd::string::StringExecFns;
use crate::decimal::{decimal, decimal_string};
use crate::errors::{CoreError, Fault};

verus! {

broadcast use vstd::std_specs::hash::group_hash_axioms;

/// The loudest volume, in percent.
pub const FULL_VOLUME: i64 = 100;

/// The session of one voice context.
#[derive(Clone, Debug)]
pub struct PlaybackSession {
    /// The title of the track that plays, if one does.
    pub current_track_title: Option<String>,
}

/// What is to be done about a volume that was asked for.
#[derive(Clone, Copy, Debug, PartialEq, Eq, Structural)]
pub enum VolumeDecision {
    /// Nothing plays; the user is told so, and nothing is changed.
    NothingPlaying,
    /// Set the volume of the track that plays to this many percent.
    Apply { percent: u8 },
}

/// What is to be done about a position that was asked for.
#[derive(Clone, Copy, Debug, PartialEq, Eq, Structural)]
pub enum SeekDecision {
    /// Nothing plays; the user is told so.
    NothingPlaying,
    /// Move the track that plays to this many seconds from its start.
    Seek { seconds: u64 },
}

/// The title of an episode of a show:
/// `{name} S{season}E{episode} ({external_id})`.
pub open spec fn show_title(name: Seq<char>, season: nat, episode: nat, external_id: Seq<char>) -> Seq<
    char,
> {
    name + " S"@ + decimal(season) + "E"@ + decimal(episode) + " ("@ + external_id + ")"@
}

/// The title of a movie: `{title} ({external_id})`.
pub open spec fn movie_title(title: Seq<char>, external_id: Seq<char>) -> Seq<char> {
    title + " ("@ + external_id + ")"@
}

/// Whether a volume is one that can be set.
pub open spec fn volume_in_range(percent: int) -> bool {
    0 <= percent <= FULL_VOLUME
}

/// What is done about a volume of `percent` when a track plays or not.
pub open spec fn volume_decision(playing: bool, percent: int) -> Result<VolumeDecision, CoreError> {
    if !volume_in_range(percent) {
        Err(CoreError::Validation(Fault::VolumeRange))
    } else if playing {
        Ok(VolumeDecision::Apply { percent: percent as u8 })
    } else {
        Ok(VolumeDecision::NothingPlaying)
    }
}

/// What the user is told about a volume that was asked for.
pub open spec fn volume_text(outcome: Result<VolumeDecision, CoreError>) -> Seq<char> {
    match outcome {
        Ok(VolumeDecision::Apply { percent }) => "Volume set to "@ + decimal(percent as nat)
            + "%."@,
        Ok(VolumeDecision::NothingPlaying) => "Nothing is playing."@,
        Err(_) => "Volume must be between 0 and 100."@,
    }
}

/// What the user is told about what plays.
pub open spec fn now_playing_text(title: Option<Seq<char>>) -> Seq<char> {
    match title {
        Some(t) => "Currently playing: "@ + t,
        None => "Nothing is currently playing."@,
    }
}

/// The titles of a table after a track with `title` begins in `context`.
pub open spec fn after_begin(
    titles: Map<u64, Seq<char>>,
    context: u64,
    title: Seq<char>,
) -> Map<u64, Seq<char>> {
    titles.insert(context, title)
}

/// The titles of a table after the track of `context` has stopped or ended.
pub open spec fn after_end(titles: Map<u64, Seq<char>>, context: u64) -> Map<u64, Seq<char>> {
    titles.remove(context)
}

/// The title of the track that plays in `context`.
pub open spec fn title_in(titles: Map<u64, Seq<char>>, context: u64) -> Option<Seq<char>> {
    if titles.contains_key(context) {
        Some(titles[context])
    } else {
        None
    }
}

/// Of two tracks begun one after the other in the same context, the second
/// is the one that plays, and the result is the same as if the first had
/// never begun.
pub proof fn law_last_begin_wins(titles: Map<u64, Seq<char>>, context: u64, a: Seq<char>, b: Seq<char>)
    ensures
        title_in(after_begin(after_begin(titles, context, a), context, b), context) == Some(b),
        after_begin(after_begin(titles, context, a), context, b) == after_begin(titles, context, b),
{
    assert(after_begin(after_begin(titles, context, a), context, b) =~= after_begin(
        titles,
        context,
        b,
    ));
}

/// The end of a track clears the title of its own context and of no other:
/// a track that begins in another context, before or after that end, plays
/// on under its title, and the two happen in either order with the same
/// result.
pub proof fn law_track_end_is_per_context(
    titles: Map<u64, Seq<char>>,
    context: u64,
    other: u64,
    title: Seq<char>,
)
    requires
        context != other,
    ensures
        title_in(after_end(after_begin(titles, other, title), context), context) is None,
        title_in(after_end(after_begin(titles, other, title), context), other) == Some(title),
        after_end(after_begin(titles, other, title), context) == after_begin(
            after_end(titles, context),
            other,
            title,
        ),
{
    assert(after_end(after_begin(titles, other, title), context) =~= after_begin(
        after_end(titles, context),
        other,
        title,
    ));
}

/// When its track ends, a session is left without a title, whatever played.
pub proof fn law_end_clears_title(titles: Map<u64, Seq<char>>, context: u64, b: Seq<char>)
    ensures
        title_in(after_end(after_begin(titles, context, b), context), context) is None,
{
}

/// The title under which an episode of a show plays.
pub fn show_track_title(name: &str, season: u32, episode: u32, external_id: &str) -> (r: String)
    ensures
        r@ == show_title(name@, season as nat, episode as nat, external_id@),
{
    let mut out = String::from_str(name);
    out.append(" S");
    out.append(decimal_string(season as u64).as_str());
    out.append("E");
    out.append(decimal_string(episode as u64).as_str());
    out.append(" (");
    out.append(external_id);
    out.append(")");
    out
}

/// The title under which a movie plays.
pub fn movie_track_title(title: &str, external_id: &str) -> (r: String)
    ensures
        r@ == movie_title(title@, external_id@),
{
    let mut out = String::from_str(title);
    out.append(" (");
    out.append(external_id);
    out.append(")");
    out
}

/// What the user is told about a volume that was asked for.
pub fn volume_reply(outcome: Result<VolumeDecision, CoreError>) -> (r: String)
    ensures
        r@ == volume_text(outcome),
{
    match outcome {
        Ok(VolumeDecision::Apply { percent }) => {
            let mut out = String::from_str("Volume set to ");
            out.append(decimal_string(percent as u64).as_str());
            out.append("%.");
            out
        },
        Ok(VolumeDecision::NothingPlaying) => String::from_str("Nothing is playing."),
        Err(_) => String::from_str("Volume must be between 0 and 100."),
    }
}

impl PlaybackSession {
    /// The title of the track that plays.
    pub open spec fn title(&self) -> Option<Seq<char>> {
        self.current_track_title.deep_view()
    }

    /// A session in which nothing plays.
    pub fn new() -> (r: PlaybackSession)
        ensures
            r.title() is None,
    {
        PlaybackSession { current_track_title: None }
    }

    /// Whether a track plays.
    pub fn is_playing(&self) -> (r: bool)
        ensures
            r == self.title() is Some,
    {
        self.current_track_title.is_some()
    }

    /// Begins a track under `track_title`, in place of the one that plays,
    /// if one does. Returns the title of the track that was replaced, which
    /// is to be stopped before the new one starts.
    pub fn begin(&mut self, track_title: String) -> (replaced: Option<String>)
        ensures
            final(self).title() == Some(track_title@),
            replaced.deep_view() == old(self).title(),
    {
        let replaced = self.current_track_title.take();
        self.current_track_title = Some(track_title);
        replaced
    }

    /// Stops the track that plays. Returns its title, or `None` where
    /// nothing played.
    pub fn stop(&mut self) -> (stopped: Option<String>)
        ensures
            final(self).title() is None,
            stopped.deep_view() == old(self).title(),
    {
        self.current_track_title.take()
    }

    /// Takes note that the track has ended by itself.
    pub fn track_ended(&mut self)
        ensures
            final(self).title() is None,
    {
        self.current_track_title = None;
    }

    /// The title of the track that plays.
    pub fn current_title(&self) -> (r: Option<String>)
        ensures
            r.deep_view() == self.title(),
    {
        match &self.current_track_title {
            Some(t) => Some(t.clone()),
            None => None,
        }
    }

    /// What the user is told about what plays.
    pub fn now_playing(&self) -> (r: String)
        ensures
            r@ == now_playing_text(self.title()),
    {
        match &self.current_track_title {
            Some(t) => {
                let mut out = String::from_str("Currently playing: ");
                out.append(t.as_str());
                out
            },
            None => String::from_str("Nothing is currently playing."),
        }
    }

    /// Decides about a volume of `percent`. A value outside 0 to 100 is
    /// refused; a value inside is to be applied to the track that plays, and
    /// where none plays the user is only told so. The session itself is
    /// never changed.
    pub fn set_volume(&self, percent: i64) -> (r: Result<VolumeDecision, CoreError>)
        ensures
            r == volume_decision(self.title() is Some, percent as int),
    {
        if percent < 0 || percent > FULL_VOLUME {
            Err(CoreError::Validation(Fault::VolumeRange))
        } else if self.current_track_title.is_some() {
            Ok(VolumeDecision::Apply { percent: percent as u8 })
        } else {
            Ok(VolumeDecision::NothingPlaying)
        }
    }

    /// Decides about moving to `seconds` from the start.
    pub fn seek_seconds(&self, seconds: u64) -> (r: SeekDecision)
        ensures
            r == if self.title() is Some {
                SeekDecision::Seek { seconds }
            } else {
                SeekDecision::NothingPlaying
            },
    {
        if self.current_track_title.is_some() {
            SeekDecision::Seek { seconds }
        } else {
            SeekDecision::NothingPlaying
        }
    }
}

/// What came of moving a stream: a stream that cannot be moved is reported
/// as an unsupported operation.
pub fn seek_outcome(moved: bool) -> (r: Result<(), CoreError>)
    ensures
        r == if moved {
            Ok::<(), CoreError>(())
        } else {
            Err::<(), CoreError>(CoreError::Unsupported)
        },
{
    if moved {
        Ok(())
    } else {
        Err(CoreError::Unsupported)
    }
}

/// The sessions of all voice contexts, by context.
pub struct SessionTable {
    /// The title of the track that plays in each context in which one does.
    pub playing: HashMap<u64, String>,
}

impl SessionTable {
    /// The title of the track that plays in each context in which one does.
    pub open spec fn titles(&self) -> Map<u64, Seq<char>> {
        Map::new(|k: u64| self.playing@.contains_key(k), |k: u64| self.playing@[k]@)
    }

    /// A table in which nothing plays anywhere.
    pub fn new() -> (r: SessionTable)
        ensures
            r.titles() == Map::<u64, Seq<char>>::empty(),
    {
        let r = SessionTable { playing: HashMap::new() };
        proof {
            assert(r.titles() =~= Map::<u64, Seq<char>>::empty());
        }
        r
    }

    /// Begins a track under `track_title` in `context`, in place of the one
    /// that plays there. Other contexts are not touched.
    pub fn begin(&mut self, context: u64, track_title: String)
        ensures
            final(self).titles() == after_begin(old(self).titles(), context, track_title@),
    {
        self.playing.insert(context, track_title);
        proof {
            assert(final(self).titles() =~= after_begin(old(self).titles(), context, track_title@));
        }
    }

    /// Stops the track of `context`. Other contexts are not touched.
    pub fn stop(&mut self, context: u64)
        ensures
            final(self).titles() == after_end(old(self).titles(), context),
    {
        self.playing.remove(&context);
        proof {
            assert(final(self).titles() =~= after_end(old(self).titles(), context));
        }
    }

    /// Takes note that the track of `context` has ended by itself. Other
    /// contexts are not touched.
    pub fn track_ended(&mut self, context: u64)
        ensures
            final(self).titles() == after_end(old(self).titles(), context),
    {
        self.stop(context);
    }

    /// The title of the track that plays in `context`.
    pub fn current_title(&self, context: u64) -> (r: Option<String>)
        ensures
            r.deep_view() == title_in(self.titles(), context),
    {
        match self.playing.get(&context) {
            Some(t) => Some(t.clone()),
            None => None,
        }
    }
}

} // verus!
