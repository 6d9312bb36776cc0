//! The interactive hierarchy selector: the dialogue in which an operator
//! picks a season of a show and then an episode of that season.
//!
//! The dialogue is a state machine. The caller performs what an action asks
//! for (say a prompt and wait for a reply, fetch a season) and hands back
//! what happened as an event. A choice is valid when it is the number of a
//! season, or of an episode, that the catalog listed; the position of that
//! number in the list, and whether the numbers are contiguous, play no part.

use vstd::prelude::*;
use vstd::string::StringExecFns;
use crate::catalog::{EpisodeSummary, SeasonDetail, SeasonSummary, ShowDetail};
use crate::decimal::{decimal, decimal_string, parse_u32, parse_unsigned};
use crate::errors::{CoreError, Fault};
use crate::text::chars_of;

verus! {

/// How long a reply is waited for, in seconds. The wait is not extended.
pub const REPLY_WAIT_SECONDS: u64 = 30;

/// How many episodes a prompt lists.
pub const EPISODES_SHOWN: usize = 10;

/// Where the dialogue stands.
#[derive(Clone, Copy, Debug, PartialEq, Eq, Structural)]
pub enum SelectorState {
    /// The seasons were shown and a choice is awaited.
    AwaitingSeason,
    /// A season was chosen and its episodes are being fetched.
    LoadingSeason { season: u32 },
    /// The episodes were shown and a choice is awaited.
    AwaitingEpisode { season: u32 },
    /// Both were chosen.
    Resolved { season: u32, episode: u32 },
    /// No reply came in time.
    TimedOut,
    /// A reply was no number, or not the number of a listed entry.
    Invalid,
    /// The catalog lists nothing to choose from.
    NothingListed,
    /// The episodes of the chosen season could not be fetched.
    Failed,
}

/// What has been chosen so far in one request to play a show. It begins
/// empty, is filled by the dialogue, and is complete when the dialogue has
/// resolved.
#[derive(Clone, Copy, Debug, PartialEq, Eq, Structural)]
pub struct SelectionState {
    pub chosen_season: Option<u32>,
    pub chosen_episode: Option<u32>,
}

/// What happened while the dialogue waited.
#[derive(Clone, Debug)]
pub enum SelectorEvent {
    /// The operator replied with this text.
    Reply(String),
    /// The wait ended without a reply.
    NoReply,
    /// The season that was asked for has arrived.
    SeasonLoaded(SeasonDetail),
    /// The season that was asked for could not be fetched.
    SeasonUnavailable,
}

/// What the caller is to do next.
#[derive(Clone, Debug)]
pub enum SelectorAction {
    /// Say this prompt, wait for a reply on the same channel, and hand back
    /// `Reply` or `NoReply`.
    Ask(String),
    /// Fetch this season and hand back `SeasonLoaded` or `SeasonUnavailable`.
    LoadSeason(u32),
    /// Say this message; the dialogue has ended without a choice.
    Close(String),
    /// The dialogue has ended with this choice.
    Proceed { season: u32, episode: u32 },
    /// Nothing: the event changed nothing.
    Ignore,
}

/// An action as a mathematical value.
pub enum ActionModel {
    Ask(Seq<char>),
    LoadSeason(u32),
    Close(Seq<char>),
    Proceed { season: u32, episode: u32 },
    Ignore,
}

impl View for SelectorAction {
    type V = ActionModel;

    open spec fn view(&self) -> ActionModel {
        match self {
            SelectorAction::Ask(prompt) => ActionModel::Ask(prompt@),
            SelectorAction::LoadSeason(season) => ActionModel::LoadSeason(*season),
            SelectorAction::Close(message) => ActionModel::Close(message@),
            SelectorAction::Proceed { season, episode } => ActionModel::Proceed {
                season: *season,
                episode: *episode,
            },
            SelectorAction::Ignore => ActionModel::Ignore,
        }
    }
}

/// The dialogue for one show.
#[derive(Clone, Debug)]
pub struct Selector {
    /// The show, as the catalog described it when the dialogue began.
    pub show: ShowDetail,
    /// The chosen season, once it has arrived.
    pub season: Option<SeasonDetail>,
    /// Where the dialogue stands.
    pub state: SelectorState,
}

/// The numbers of the seasons of a show, in the catalog's order.
pub open spec fn season_numbers(show: ShowDetail) -> Seq<u32> {
    Seq::new(show.seasons@.len(), |i: int| show.seasons@[i].season_number)
}

/// The episodes of the season that has arrived; none before that.
pub open spec fn loaded_episodes(season: Option<SeasonDetail>) -> Seq<EpisodeSummary> {
    match season {
        Some(detail) => detail.episodes@,
        None => Seq::empty(),
    }
}

/// The numbers of episodes, in the catalog's order.
pub open spec fn episode_numbers(episodes: Seq<EpisodeSummary>) -> Seq<u32> {
    Seq::new(episodes.len(), |i: int| episodes[i].episode_number)
}

/// The entry that a reply chooses among `numbers`: the reply read as a
/// decimal number, where it is one and is among them.
pub open spec fn chosen(numbers: Seq<u32>, reply: Seq<char>) -> Option<u32> {
    match parse_unsigned(reply, u32::MAX as nat) {
        Some(n) => if numbers.contains(n as u32) {
            Some(n as u32)
        } else {
            None
        },
        None => None,
    }
}

/// Whether a show has seasons to choose from.
pub open spec fn has_seasons(show: ShowDetail) -> bool {
    show.seasons@.len() > 0 && show.season_count > 0
}

/// The state in which the dialogue for a show begins.
pub open spec fn opening_state(show: ShowDetail) -> SelectorState {
    if has_seasons(show) {
        SelectorState::AwaitingSeason
    } else {
        SelectorState::NothingListed
    }
}

/// Whether the dialogue has ended.
pub open spec fn is_terminal(state: SelectorState) -> bool {
    !(state is AwaitingSeason || state is LoadingSeason || state is AwaitingEpisode)
}

/// What has been chosen when the dialogue stands at `state`.
pub open spec fn selection_of(state: SelectorState) -> SelectionState {
    match state {
        SelectorState::LoadingSeason { season } => SelectionState {
            chosen_season: Some(season),
            chosen_episode: None,
        },
        SelectorState::AwaitingEpisode { season } => SelectionState {
            chosen_season: Some(season),
            chosen_episode: None,
        },
        SelectorState::Resolved { season, episode } => SelectionState {
            chosen_season: Some(season),
            chosen_episode: Some(episode),
        },
        _ => SelectionState { chosen_season: None, chosen_episode: None },
    }
}

/// The failure that a state stands for, if it is one: a wait that ended
/// without a reply is a timeout, a reply that chose nothing is a validation
/// error, a catalog that lists nothing is `NotFound`, and a season that could
/// not be fetched is a provider error.
pub open spec fn failure_of(state: SelectorState) -> Option<CoreError> {
    match state {
        SelectorState::TimedOut => Some(CoreError::Timeout),
        SelectorState::Invalid => Some(CoreError::Validation(Fault::Choice)),
        SelectorState::NothingListed => Some(CoreError::NotFound),
        SelectorState::Failed => Some(CoreError::Provider { status: None }),
        _ => None,
    }
}

/// The state after an event.
pub open spec fn next_state(
    state: SelectorState,
    show: ShowDetail,
    season: Option<SeasonDetail>,
    event: SelectorEvent,
) -> SelectorState {
    match state {
        SelectorState::AwaitingSeason => match event {
            SelectorEvent::Reply(text) => match chosen(season_numbers(show), text@) {
                Some(n) => SelectorState::LoadingSeason { season: n },
                None => SelectorState::Invalid,
            },
            SelectorEvent::NoReply => SelectorState::TimedOut,
            _ => state,
        },
        SelectorState::LoadingSeason { season: s } => match event {
            SelectorEvent::SeasonLoaded(detail) => if detail.episodes@.len() == 0 {
                SelectorState::NothingListed
            } else {
                SelectorState::AwaitingEpisode { season: s }
            },
            SelectorEvent::SeasonUnavailable => SelectorState::Failed,
            _ => state,
        },
        SelectorState::AwaitingEpisode { season: s } => match event {
            SelectorEvent::Reply(text) => match chosen(
                episode_numbers(loaded_episodes(season)),
                text@,
            ) {
                Some(e) => SelectorState::Resolved { season: s, episode: e },
                None => SelectorState::Invalid,
            },
            SelectorEvent::NoReply => SelectorState::TimedOut,
            _ => state,
        },
        _ => state,
    }
}

/// The season that the dialogue holds after an event: the one that arrived
/// while it was being waited for, else the one held before.
pub open spec fn next_season(
    state: SelectorState,
    season: Option<SeasonDetail>,
    event: SelectorEvent,
) -> Option<SeasonDetail> {
    match (state, event) {
        (SelectorState::LoadingSeason { .. }, SelectorEvent::SeasonLoaded(detail)) => Some(detail),
        _ => season,
    }
}

/// The season numbers of the first `upto` seasons, separated by `, `.
pub open spec fn joined_seasons(seasons: Seq<SeasonSummary>, upto: int) -> Seq<char>
    decreases upto,
{
    if upto <= 0 {
        Seq::empty()
    } else if upto == 1 {
        decimal(seasons[0].season_number as nat)
    } else {
        joined_seasons(seasons, upto - 1) + ", "@ + decimal(seasons[upto - 1].season_number as nat)
    }
}

/// The prompt for a season.
pub open spec fn season_prompt(show: ShowDetail) -> Seq<char> {
    "Found TV Show: "@ + show.display_name@ + ". It has "@ + decimal(show.season_count as nat)
        + " seasons.\nAvailable seasons: "@ + joined_seasons(
        show.seasons@,
        show.seasons@.len() as int,
    ) + ".\nPlease reply with the season number (e.g., '1') you want to watch."@
}

/// One line for each of the first `upto` episodes.
pub open spec fn episode_lines(episodes: Seq<EpisodeSummary>, upto: int) -> Seq<char>
    decreases upto,
{
    if upto <= 0 {
        Seq::empty()
    } else {
        episode_lines(episodes, upto - 1) + decimal(episodes[upto - 1].episode_number as nat)
            + ". "@ + episodes[upto - 1].title@ + "\n"@
    }
}

/// The number of episodes that a prompt lists of `n`.
pub open spec fn listed_count(n: int) -> int {
    if n < EPISODES_SHOWN {
        n
    } else {
        EPISODES_SHOWN as int
    }
}

/// The number that the hint of an episode prompt ends with: that of the
/// last episode, or 0 where there is none.
pub open spec fn last_number(episodes: Seq<EpisodeSummary>) -> nat {
    if episodes.len() > 0 {
        episodes.last().episode_number as nat
    } else {
        0
    }
}

/// The prompt for an episode of season `season`: the first ten episodes, a
/// line of dots where there are more, and a hint.
pub open spec fn episode_prompt(season: u32, episodes: Seq<EpisodeSummary>) -> Seq<char> {
    "Season "@ + decimal(season as nat) + ". Episodes (up to 10 shown):\n"@ + episode_lines(
        episodes,
        listed_count(episodes.len() as int),
    ) + (if episodes.len() > EPISODES_SHOWN {
        "...\n"@
    } else {
        Seq::empty()
    }) + "Please reply with the episode number (1-"@ + decimal(last_number(episodes)) + ")."@
}

/// What is said of a show without seasons.
pub open spec fn no_seasons_message(show: ShowDetail) -> Seq<char> {
    "TV Show: "@ + show.display_name@ + " has no seasons listed on TMDB."@
}

/// What is said of a season without episodes.
pub open spec fn no_episodes_message(season: u32, show: ShowDetail) -> Seq<char> {
    "Season "@ + decimal(season as nat) + " of "@ + show.display_name@
        + " has no episodes listed on TMDB."@
}

/// The action with which the dialogue for a show begins.
pub open spec fn opening_action(show: ShowDetail) -> ActionModel {
    if has_seasons(show) {
        ActionModel::Ask(season_prompt(show))
    } else {
        ActionModel::Close(no_seasons_message(show))
    }
}

/// The action that goes with a step from `before` to `after`, for the show
/// and the season that the dialogue holds after the step.
pub open spec fn action_after(
    before: SelectorState,
    after: SelectorState,
    show: ShowDetail,
    season: Option<SeasonDetail>,
) -> ActionModel {
    if is_terminal(before) || after == before {
        ActionModel::Ignore
    } else {
        match after {
            SelectorState::LoadingSeason { season: n } => ActionModel::LoadSeason(n),
            SelectorState::AwaitingEpisode { season: s } => ActionModel::Ask(
                episode_prompt(s, loaded_episodes(season)),
            ),
            SelectorState::Resolved { season: s, episode: e } => ActionModel::Proceed {
                season: s,
                episode: e,
            },
            SelectorState::TimedOut => if before is AwaitingSeason {
                ActionModel::Close("No season selected in time."@)
            } else {
                ActionModel::Close("No episode selected in time."@)
            },
            SelectorState::Invalid => if before is AwaitingSeason {
                ActionModel::Close("Invalid season number or selection timed out."@)
            } else {
                ActionModel::Close("Invalid episode number or selection timed out."@)
            },
            SelectorState::NothingListed => match before {
                SelectorState::LoadingSeason { season: s } => ActionModel::Close(
                    no_episodes_message(s, show),
                ),
                _ => ActionModel::Ignore,
            },
            SelectorState::Failed => ActionModel::Close(
                "Could not fetch season episodes from TMDB."@,
            ),
            SelectorState::AwaitingSeason => ActionModel::Ignore,
        }
    }
}

/// A reply is accepted exactly when it reads as the number of a listed
/// entry, and then it chooses that number. Which entries are listed is all
/// that counts: two lists with the same numbers, in whatever order and
/// however often, accept the same replies.
pub proof fn law_choice_is_by_membership(numbers: Seq<u32>, others: Seq<u32>, reply: Seq<char>)
    ensures
        chosen(numbers, reply) is Some <==> exists|i: int|
            0 <= i < numbers.len() && parse_unsigned(reply, u32::MAX as nat) == Some(
                #[trigger] numbers[i] as nat,
            ),
        chosen(numbers, reply) matches Some(n) ==> parse_unsigned(reply, u32::MAX as nat) == Some(
            n as nat,
        ),
        numbers.to_set() == others.to_set() ==> chosen(numbers, reply) == chosen(others, reply),
{
    match parse_unsigned(reply, u32::MAX as nat) {
        Some(n) => {
            if numbers.contains(n as u32) {
                let i = choose|i: int| 0 <= i < numbers.len() && numbers[i] == n as u32;
                assert(parse_unsigned(reply, u32::MAX as nat) == Some(numbers[i] as nat));
            }
            if numbers.to_set() == others.to_set() {
                assert(numbers.contains(n as u32) == numbers.to_set().contains(n as u32));
                assert(others.contains(n as u32) == others.to_set().contains(n as u32));
            }
        },
        None => {},
    }
}

/// When the wait for a reply ends without one, the dialogue ends in
/// `TimedOut` with a closing message, and nothing that happens afterwards
/// changes the state or brings another prompt.
pub proof fn law_timeout_ends_dialogue(
    state: SelectorState,
    show: ShowDetail,
    season: Option<SeasonDetail>,
    later: SelectorEvent,
)
    requires
        state is AwaitingSeason || state is AwaitingEpisode,
    ensures
        next_state(state, show, season, SelectorEvent::NoReply) == SelectorState::TimedOut,
        action_after(state, SelectorState::TimedOut, show, season) is Close,
        is_terminal(SelectorState::TimedOut),
        next_state(SelectorState::TimedOut, show, season, later) == SelectorState::TimedOut,
        action_after(
            SelectorState::TimedOut,
            next_state(SelectorState::TimedOut, show, season, later),
            show,
            season,
        ) == ActionModel::Ignore,
{
}

/// A dialogue that has ended stays as it is: no event changes its state,
/// and no action follows.
pub proof fn law_ended_dialogue_is_silent(
    state: SelectorState,
    show: ShowDetail,
    season: Option<SeasonDetail>,
    event: SelectorEvent,
)
    requires
        is_terminal(state),
    ensures
        next_state(state, show, season, event) == state,
        action_after(state, next_state(state, show, season, event), show, season)
            == ActionModel::Ignore,
{
}

/// The next thing is a request to go on to the locator only when both
/// choices were valid: a step into `Invalid`, `TimedOut`, `NothingListed` or
/// `Failed` never asks for it.
pub proof fn law_proceed_only_when_resolved(
    state: SelectorState,
    show: ShowDetail,
    season: Option<SeasonDetail>,
    event: SelectorEvent,
)
    ensures
        action_after(
            state,
            next_state(state, show, season, event),
            show,
            next_season(state, season, event),
        ) is Proceed <==> (state is AwaitingEpisode && next_state(state, show, season, event)
            is Resolved),
{
}

/// The entry that `reply` chooses among the seasons of `show`.
pub fn choose_season(show: &ShowDetail, reply: &str) -> (r: Option<u32>)
    ensures
        r == chosen(season_numbers(*show), reply@),
{
    let text = chars_of(reply);
    let n = match parse_u32(text.as_slice()) {
        Some(n) => n,
        None => {
            return None;
        },
    };
    let mut i: usize = 0;
    while i < show.seasons.len()
        invariant
            i <= show.seasons@.len(),
            parse_unsigned(reply@, u32::MAX as nat) == Some(n as nat),
            forall|j: int| 0 <= j < i ==> season_numbers(*show)[j] != n,
        decreases show.seasons@.len() - i,
    {
        if show.seasons[i].season_number == n {
            proof {
                assert(season_numbers(*show)[i as int] == n);
                assert(season_numbers(*show).contains(n));
            }
            return Some(n);
        }
        i += 1;
    }
    None
}

/// The entry that `reply` chooses among `episodes`.
pub fn choose_episode(episodes: &Vec<EpisodeSummary>, reply: &str) -> (r: Option<u32>)
    ensures
        r == chosen(episode_numbers(episodes@), reply@),
{
    let text = chars_of(reply);
    let n = match parse_u32(text.as_slice()) {
        Some(n) => n,
        None => {
            return None;
        },
    };
    let mut i: usize = 0;
    while i < episodes.len()
        invariant
            i <= episodes@.len(),
            parse_unsigned(reply@, u32::MAX as nat) == Some(n as nat),
            forall|j: int| 0 <= j < i ==> episode_numbers(episodes@)[j] != n,
        decreases episodes@.len() - i,
    {
        if episodes[i].episode_number == n {
            proof {
                assert(episode_numbers(episodes@)[i as int] == n);
                assert(episode_numbers(episodes@).contains(n));
            }
            return Some(n);
        }
        i += 1;
    }
    None
}

/// The prompt for a season of `show`.
pub fn season_prompt_text(show: &ShowDetail) -> (r: String)
    ensures
        r@ == season_prompt(*show),
{
    let mut list = String::new();
    let mut i: usize = 0;
    while i < show.seasons.len()
        invariant
            i <= show.seasons@.len(),
            list@ == joined_seasons(show.seasons@, i as int),
        decreases show.seasons@.len() - i,
    {
        if i > 0 {
            list.append(", ");
        }
        list.append(decimal_string(show.seasons[i].season_number as u64).as_str());
        i += 1;
    }
    let mut out = String::from_str("Found TV Show: ");
    out.append(show.display_name.as_str());
    out.append(". It has ");
    out.append(decimal_string(show.season_count as u64).as_str());
    out.append(" seasons.\nAvailable seasons: ");
    out.append(list.as_str());
    out.append(".\nPlease reply with the season number (e.g., '1') you want to watch.");
    out
}

/// The prompt for an episode of season `season`.
pub fn episode_prompt_text(season: u32, episodes: &Vec<EpisodeSummary>) -> (r: String)
    ensures
        r@ == episode_prompt(season, episodes@),
{
    let mut out = String::from_str("Season ");
    out.append(decimal_string(season as u64).as_str());
    out.append(". Episodes (up to 10 shown):\n");
    let ghost head = out@;
    let shown: usize = if episodes.len() < EPISODES_SHOWN {
        episodes.len()
    } else {
        EPISODES_SHOWN
    };
    let mut i: usize = 0;
    while i < shown
        invariant
            i <= shown <= episodes@.len(),
            out@ == head + episode_lines(episodes@, i as int),
        decreases shown - i,
    {
        out.append(decimal_string(episodes[i].episode_number as u64).as_str());
        out.append(". ");
        out.append(episodes[i].title.as_str());
        out.append("\n");
        i += 1;
    }
    if episodes.len() > EPISODES_SHOWN {
        out.append("...\n");
    }
    let last: u32 = if episodes.len() > 0 {
        episodes[episodes.len() - 1].episode_number
    } else {
        0
    };
    out.append("Please reply with the episode number (1-");
    out.append(decimal_string(last as u64).as_str());
    out.append(").");
    out
}

impl SelectionState {
    /// Nothing chosen yet.
    pub fn new() -> (r: SelectionState)
        ensures
            r == (SelectionState { chosen_season: None, chosen_episode: None }),
    {
        SelectionState { chosen_season: None, chosen_episode: None }
    }

    /// Whether both a season and an episode are chosen.
    pub fn is_complete(&self) -> (r: bool)
        ensures
            r == (self.chosen_season is Some && self.chosen_episode is Some),
    {
        self.chosen_season.is_some() && self.chosen_episode.is_some()
    }
}

impl SelectorState {
    /// What has been chosen so far. Both a season and an episode are chosen
    /// exactly when the dialogue has resolved.
    pub fn selection(&self) -> (r: SelectionState)
        ensures
            r == selection_of(*self),
            (r.chosen_season is Some && r.chosen_episode is Some) <==> *self is Resolved,
    {
        match self {
            SelectorState::LoadingSeason { season } => SelectionState {
                chosen_season: Some(*season),
                chosen_episode: None,
            },
            SelectorState::AwaitingEpisode { season } => SelectionState {
                chosen_season: Some(*season),
                chosen_episode: None,
            },
            SelectorState::Resolved { season, episode } => SelectionState {
                chosen_season: Some(*season),
                chosen_episode: Some(*episode),
            },
            _ => SelectionState { chosen_season: None, chosen_episode: None },
        }
    }

    /// The failure that this state stands for, if it is one.
    pub fn failure(&self) -> (r: Option<CoreError>)
        ensures
            r == failure_of(*self),
    {
        match self {
            SelectorState::TimedOut => Some(CoreError::Timeout),
            SelectorState::Invalid => Some(CoreError::Validation(Fault::Choice)),
            SelectorState::NothingListed => Some(CoreError::NotFound),
            SelectorState::Failed => Some(CoreError::Provider { status: None }),
            _ => None,
        }
    }

    /// Whether the dialogue has ended.
    pub fn ended(&self) -> (r: bool)
        ensures
            r == is_terminal(*self),
    {
        match self {
            SelectorState::AwaitingSeason => false,
            SelectorState::LoadingSeason { .. } => false,
            SelectorState::AwaitingEpisode { .. } => false,
            _ => true,
        }
    }
}

impl Selector {
    /// Begins the dialogue for `show`. A show without seasons ends it at
    /// once, with a message that says so.
    pub fn open(show: ShowDetail) -> (r: (Selector, SelectorAction))
        ensures
            r.0.show == show,
            r.0.season is None,
            r.0.state == opening_state(show),
            r.1@ == opening_action(show),
    {
        if show.seasons.len() == 0 || show.season_count == 0 {
            let mut message = String::from_str("TV Show: ");
            message.append(show.display_name.as_str());
            message.append(" has no seasons listed on TMDB.");
            (
                Selector { show, season: None, state: SelectorState::NothingListed },
                SelectorAction::Close(message),
            )
        } else {
            let prompt = season_prompt_text(&show);
            (
                Selector { show, season: None, state: SelectorState::AwaitingSeason },
                SelectorAction::Ask(prompt),
            )
        }
    }

    /// Takes an event and says what is to be done next.
    pub fn handle(&mut self, event: SelectorEvent) -> (r: SelectorAction)
        ensures
            final(self).show == old(self).show,
            final(self).state == next_state(old(self).state, old(self).show, old(self).season, event),
            final(self).season == next_season(old(self).state, old(self).season, event),
            r@ == action_after(
                old(self).state,
                final(self).state,
                final(self).show,
                final(self).season,
            ),
    {
        match self.state {
            SelectorState::AwaitingSeason => match event {
                SelectorEvent::Reply(text) => match choose_season(&self.show, text.as_str()) {
                    Some(n) => {
                        self.state = SelectorState::LoadingSeason { season: n };
                        SelectorAction::LoadSeason(n)
                    },
                    None => {
                        self.state = SelectorState::Invalid;
                        SelectorAction::Close(
                            String::from_str("Invalid season number or selection timed out."),
                        )
                    },
                },
                SelectorEvent::NoReply => {
                    self.state = SelectorState::TimedOut;
                    SelectorAction::Close(String::from_str("No season selected in time."))
                },
                _ => SelectorAction::Ignore,
            },
            SelectorState::LoadingSeason { season } => match event {
                SelectorEvent::SeasonLoaded(detail) => {
                    if detail.episodes.len() == 0 {
                        let mut message = String::from_str("Season ");
                        message.append(decimal_string(season as u64).as_str());
                        message.append(" of ");
                        message.append(self.show.display_name.as_str());
                        message.append(" has no episodes listed on TMDB.");
                        self.season = Some(detail);
                        self.state = SelectorState::NothingListed;
                        SelectorAction::Close(message)
                    } else {
                        let prompt = episode_prompt_text(season, &detail.episodes);
                        self.season = Some(detail);
                        self.state = SelectorState::AwaitingEpisode { season };
                        SelectorAction::Ask(prompt)
                    }
                },
                SelectorEvent::SeasonUnavailable => {
                    self.state = SelectorState::Failed;
                    SelectorAction::Close(
                        String::from_str("Could not fetch season episodes from TMDB."),
                    )
                },
                _ => SelectorAction::Ignore,
            },
            SelectorState::AwaitingEpisode { season } => match event {
                SelectorEvent::Reply(text) => {
                    let choice = match &self.season {
                        Some(detail) => choose_episode(&detail.episodes, text.as_str()),
                        None => {
                            let none: Vec<EpisodeSummary> = Vec::new();
                            choose_episode(&none, text.as_str())
                        },
                    };
                    match choice {
                        Some(episode) => {
                            self.state = SelectorState::Resolved { season, episode };
                            SelectorAction::Proceed { season, episode }
                        },
                        None => {
                            self.state = SelectorState::Invalid;
                            SelectorAction::Close(
                                String::from_str("Invalid episode number or selection timed out."),
                            )
                        },
                    }
                },
                SelectorEvent::NoReply => {
                    self.state = SelectorState::TimedOut;
                    SelectorAction::Close(String::from_str("No episode selected in time."))
                },
                _ => SelectorAction::Ignore,
            },
            _ => SelectorAction::Ignore,
        }
    }
}

} // verus!
