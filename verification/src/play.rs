//! The `play` command: from an external identifier to a playing track.
//!
//! The flow is a state machine. It asks the caller to do one thing at a time
//! (join a voice channel, ask the catalog, wait for a reply, fetch a page,
//! start the stream) and takes back what happened as an event. It ends with
//! the track playing or with a message that says why it does not.

use vstd::prelude::*;
use vstd::string::StringExecFns;
use crate::catalog::{
    find_address, find_url, found_item, pick_found, record_models, season_address,
    season_detail_url, show_address, show_detail_url, CatalogItem, ItemModel, MediaKind,
    ProviderRecord, SeasonDetail, ShowDetail,
};
use crate::commands::{is_external_id, validate_external_id, Scene};
use crate::decimal::{decimal, decimal_string};
use crate::errors::{fault_text, Fault};
use crate::extractor::{extract_direct_url, normalize_player_url, normalized_url, page_direct_url};
use crate::playback::{movie_title, movie_track_title, show_title, show_track_title, PlaybackSession};
use crate::resolver::{
    embed_path, is_success, next_pending, outcome_embed, status_is_success, step_after,
    title_path, FetchOutcome, OutcomeModel, Probe, ProbeStep, StepModel,
};
use crate::selection::{
    action_after, has_seasons, next_season, next_state, no_seasons_message, opening_state,
    season_prompt, ActionModel, Selector, SelectorAction, SelectorEvent, SelectorState,
};

verus! {

/// Where the flow stands.
#[derive(Clone, Copy, Debug, PartialEq, Eq, Structural)]
pub enum PlayStage {
    /// The bot is joining the author's voice channel.
    Joining,
    /// The catalog is asked what the identifier stands for.
    Finding,
    /// The catalog is asked for the seasons of the show.
    LoadingShow,
    /// The operator chooses a season and an episode.
    Choosing,
    /// The mirrors are asked for a player page.
    Locating,
    /// The player page is fetched.
    Extracting,
    /// The stream is being started.
    Starting,
    /// The flow has ended.
    Ended,
}

/// What happened since the last step.
#[derive(Clone, Debug)]
pub enum PlayEvent {
    /// The bot has joined the voice channel.
    Joined,
    /// The bot could not join the voice channel.
    JoinFailed,
    /// The catalog has answered a lookup with these movies and these shows.
    Found { movies: Vec<ProviderRecord>, shows: Vec<ProviderRecord> },
    /// The catalog has described the show.
    ShowLoaded(ShowDetail),
    /// The catalog has described the season.
    SeasonLoaded(SeasonDetail),
    /// A request to the catalog failed.
    CatalogFailed,
    /// The operator replied with this text.
    Reply(String),
    /// The wait for a reply ended without one.
    NoReply,
    /// This came of fetching the page that was asked for.
    Fetched(FetchOutcome),
    /// The stream has started.
    Started,
    /// The stream could not be started, for this reason.
    StartFailed(String),
    /// The bot is in no voice channel.
    NotConnected,
}

/// What the caller is to do next.
#[derive(Clone, Debug)]
pub enum PlayAction {
    /// Join this voice channel; hand back `Joined` or `JoinFailed`.
    Join { channel: u64 },
    /// Ask the catalog at this address; hand back what it answered, or
    /// `CatalogFailed`.
    Request(String),
    /// Wait for a reply on the channel of the command; hand back `Reply` or
    /// `NoReply`.
    AwaitReply,
    /// Fetch this page; hand back `Fetched`.
    Fetch(String),
    /// Stop what plays and start this stream; hand back `Started`,
    /// `StartFailed` or `NotConnected`.
    Start { title: String, media_url: String },
    /// Nothing more: the flow has ended.
    End,
    /// Nothing: the event changed nothing.
    Ignore,
}

/// One step of the flow: what to say, in this order, and what to do then.
#[derive(Clone, Debug)]
pub struct PlayStep {
    pub say: Vec<String>,
    pub next: PlayAction,
}

/// An action as a mathematical value.
pub enum PlayActionModel {
    Join { channel: u64 },
    Request(Seq<char>),
    AwaitReply,
    Fetch(Seq<char>),
    Start { title: Seq<char>, media_url: Seq<char> },
    End,
    Ignore,
}

impl View for PlayAction {
    type V = PlayActionModel;

    open spec fn view(&self) -> PlayActionModel {
        match self {
            PlayAction::Join { channel } => PlayActionModel::Join { channel: *channel },
            PlayAction::Request(url) => PlayActionModel::Request(url@),
            PlayAction::AwaitReply => PlayActionModel::AwaitReply,
            PlayAction::Fetch(url) => PlayActionModel::Fetch(url@),
            PlayAction::Start { title, media_url } => PlayActionModel::Start {
                title: title@,
                media_url: media_url@,
            },
            PlayAction::End => PlayActionModel::End,
            PlayAction::Ignore => PlayActionModel::Ignore,
        }
    }
}

/// What a step comes to: the stage after it, what is said, what is done.
pub struct Outcome {
    pub stage: PlayStage,
    pub say: Seq<Seq<char>>,
    pub next: PlayActionModel,
}

/// One run of the `play` command.
#[derive(Clone, Debug)]
pub struct PlayFlow {
    /// Where the flow stands.
    pub stage: PlayStage,
    /// The identifier that was asked for.
    pub external_id: String,
    /// The key of the catalog provider, if one is configured.
    pub api_key: Option<String>,
    /// The mirrors, in the order in which they are tried.
    pub mirrors: Vec<String>,
    /// The voice channel that the bot joins first, if it has to.
    pub channel: Option<u64>,
    /// The title that the identifier stands for, once it is known.
    pub item: Option<CatalogItem>,
    /// The dialogue about season and episode, once it has begun.
    pub selector: Option<Selector>,
    /// The run over the mirrors, once it has begun.
    pub probe: Option<Probe>,
    /// The title under which the track will play, once it is known.
    pub track_title: Option<String>,
}

/// A probe as a mathematical value.
pub struct ProbeModel {
    pub domains: Seq<Seq<char>>,
    pub path: Seq<char>,
    pub pending: Option<int>,
}

/// The model of a probe.
pub open spec fn probe_model(probe: Probe) -> ProbeModel {
    ProbeModel {
        domains: probe.domains.deep_view(),
        path: probe.path@,
        pending: match probe.pending {
            Some(i) => Some(i as int),
            None => None,
        },
    }
}

/// The model of an optional probe.
pub open spec fn probe_models(probe: Option<Probe>) -> Option<ProbeModel> {
    match probe {
        Some(p) => Some(probe_model(p)),
        None => None,
    }
}

/// The model of an optional item.
pub open spec fn item_model(item: Option<CatalogItem>) -> Option<ItemModel> {
    match item {
        Some(i) => Some(i@),
        None => None,
    }
}

/// What is said when no player page was found.
pub open spec fn no_page_text() -> Seq<char> {
    "Could not find a VidSrc streaming page for the selected media/episode."@
}

/// What is said when the player page gave no media address.
pub open spec fn no_media_text() -> Seq<char> {
    "Could not resolve a direct playable media URL."@
}

/// An outcome that ends the flow with these messages.
pub open spec fn ended(say: Seq<Seq<char>>) -> Outcome {
    Outcome { stage: PlayStage::Ended, say, next: PlayActionModel::End }
}

/// An outcome that leaves the flow at `stage` and asks for nothing.
pub open spec fn unchanged(stage: PlayStage) -> Outcome {
    Outcome { stage, say: Seq::empty(), next: PlayActionModel::Ignore }
}

/// Whether a key can be used.
pub open spec fn usable_key(key: Option<String>) -> bool {
    key matches Some(k) && k@.len() > 0
}

/// The text of a key, empty where there is none.
pub open spec fn key_chars(key: Option<String>) -> Seq<char> {
    match key {
        Some(k) => k@,
        None => Seq::empty(),
    }
}

/// The step that asks the catalog what `id` stands for, after `said` has
/// been said. Without a usable key the flow ends instead.
pub open spec fn begin_finding(id: Seq<char>, key: Option<String>, said: Seq<Seq<char>>) -> Outcome {
    if usable_key(key) {
        Outcome {
            stage: PlayStage::Finding,
            say: said,
            next: PlayActionModel::Request(find_address(key_chars(key), id)),
        }
    } else {
        ended(said.push("TMDB API key not configured or empty."@))
    }
}

/// The first step of the flow.
pub open spec fn opening(id: Seq<char>, scene: Scene, key: Option<String>) -> Outcome {
    if !is_external_id(id) {
        ended(seq![fault_text(Fault::ExternalId)])
    } else if !scene.in_server {
        ended(seq!["This command can only be used in a server."@])
    } else if !scene.connected {
        match scene.author_channel {
            Some(channel) => Outcome {
                stage: PlayStage::Joining,
                say: Seq::empty(),
                next: PlayActionModel::Join { channel },
            },
            None => ended(
                seq!["You are not in a voice channel. Please join one or use `m!join` first."@],
            ),
        }
    } else {
        begin_finding(id, key, Seq::empty())
    }
}

/// What is said when the bot has joined a voice channel for the flow.
pub open spec fn joined_text(channel: Option<u64>) -> Seq<char> {
    "Joined your voice channel: <#"@ + decimal(
        match channel {
            Some(c) => c as nat,
            None => 0,
        },
    ) + ">"@
}

/// The title under which a catalog title plays.
pub open spec fn track_title_of(
    item: ItemModel,
    season: Option<u32>,
    episode: Option<u32>,
    external_id: Seq<char>,
) -> Seq<char> {
    match (item.kind, season, episode) {
        (MediaKind::Show, Some(s), Some(e)) => show_title(
            item.primary_title,
            s as nat,
            e as nat,
            external_id,
        ),
        _ => movie_title(item.primary_title, external_id),
    }
}

/// A choice as the resolver takes it.
pub open spec fn as_nat(n: Option<u32>) -> Option<nat> {
    match n {
        Some(v) => Some(v as nat),
        None => None,
    }
}

/// The path of the chosen title on a mirror.
pub open spec fn chosen_path(item: ItemModel, season: Option<u32>, episode: Option<u32>) -> Option<
    Seq<char>,
> {
    embed_path(item.kind, item.provider_id, as_nat(season), as_nat(episode))
}

/// The step that begins the run over the mirrors. A title without a path,
/// and an empty list of mirrors, end the flow instead.
pub open spec fn begin_locating(
    item: ItemModel,
    season: Option<u32>,
    episode: Option<u32>,
    mirrors: Seq<Seq<char>>,
) -> Outcome {
    match chosen_path(item, season, episode) {
        Some(path) => if mirrors.len() > 0 {
            Outcome {
                stage: PlayStage::Locating,
                say: Seq::empty(),
                next: PlayActionModel::Fetch(mirrors[0] + path),
            }
        } else {
            ended(seq![no_page_text()])
        },
        None => ended(seq![no_page_text()]),
    }
}

/// The event of the dialogue that an event of the flow stands for.
pub open spec fn dialogue_event(event: PlayEvent) -> Option<SelectorEvent> {
    match event {
        PlayEvent::Reply(text) => Some(SelectorEvent::Reply(text)),
        PlayEvent::NoReply => Some(SelectorEvent::NoReply),
        PlayEvent::SeasonLoaded(detail) => Some(SelectorEvent::SeasonLoaded(detail)),
        PlayEvent::CatalogFailed => Some(SelectorEvent::SeasonUnavailable),
        _ => None,
    }
}

/// The dialogue after an event.
pub open spec fn selector_after_event(selector: Selector, event: SelectorEvent) -> Selector {
    Selector {
        show: selector.show,
        season: next_season(selector.state, selector.season, event),
        state: next_state(selector.state, selector.show, selector.season, event),
    }
}

/// The action of the dialogue on an event.
pub open spec fn selector_action(selector: Selector, event: SelectorEvent) -> ActionModel {
    let after = selector_after_event(selector, event);
    action_after(selector.state, after.state, after.show, after.season)
}

/// What a step of the dialogue comes to in the flow.
pub open spec fn choosing_outcome(
    flow: PlayFlow,
    item: ItemModel,
    selector: Selector,
    event: SelectorEvent,
) -> Outcome {
    match selector_action(selector, event) {
        ActionModel::Ask(prompt) => Outcome {
            stage: PlayStage::Choosing,
            say: seq![prompt],
            next: PlayActionModel::AwaitReply,
        },
        ActionModel::LoadSeason(n) => Outcome {
            stage: PlayStage::Choosing,
            say: Seq::empty(),
            next: PlayActionModel::Request(
                season_address(key_chars(flow.api_key), item.provider_id, n as nat),
            ),
        },
        ActionModel::Close(message) => ended(seq![message]),
        ActionModel::Proceed { season, episode } => begin_locating(
            item,
            Some(season),
            Some(episode),
            flow.mirrors.deep_view(),
        ),
        ActionModel::Ignore => unchanged(PlayStage::Choosing),
    }
}

/// What an answer of a mirror comes to in the flow.
pub open spec fn locating_outcome(probe: ProbeModel, outcome: OutcomeModel) -> Outcome {
    match step_after(probe.domains, probe.path, probe.pending, outcome_embed(outcome)) {
        StepModel::Fetch(url) => Outcome {
            stage: PlayStage::Locating,
            say: Seq::empty(),
            next: PlayActionModel::Fetch(url),
        },
        StepModel::Finished(Some(page)) => Outcome {
            stage: PlayStage::Extracting,
            say: Seq::empty(),
            next: PlayActionModel::Fetch(normalized_url(page)),
        },
        StepModel::Finished(None) => ended(seq![no_page_text()]),
    }
}

/// What the player page comes to in the flow.
pub open spec fn extracting_outcome(title: Seq<char>, outcome: OutcomeModel) -> Outcome {
    match outcome {
        OutcomeModel::Unreachable => ended(seq!["Error resolving direct media URL."@]),
        OutcomeModel::Response { status, body } => if is_success(status) {
            match page_direct_url(body) {
                Some(media_url) => Outcome {
                    stage: PlayStage::Starting,
                    say: Seq::empty(),
                    next: PlayActionModel::Start { title, media_url },
                },
                None => ended(seq![no_media_text()]),
            }
        } else {
            ended(seq![no_media_text()])
        },
    }
}

/// The text of an optional string, empty where there is none.
pub open spec fn text_of(s: Option<String>) -> Seq<char> {
    match s {
        Some(t) => t@,
        None => Seq::empty(),
    }
}

/// What a step of the flow comes to.
pub open spec fn flow_outcome(flow: PlayFlow, event: PlayEvent) -> Outcome {
    match flow.stage {
        PlayStage::Joining => match event {
            PlayEvent::Joined => begin_finding(
                flow.external_id@,
                flow.api_key,
                seq![joined_text(flow.channel)],
            ),
            PlayEvent::JoinFailed => ended(seq!["Failed to join your voice channel."@]),
            _ => unchanged(flow.stage),
        },
        PlayStage::Finding => match event {
            PlayEvent::Found { movies, shows } => match found_item(
                record_models(movies@),
                record_models(shows@),
            ) {
                Some(item) => match item.kind {
                    MediaKind::Movie => begin_locating(item, None, None, flow.mirrors.deep_view()),
                    MediaKind::Show => Outcome {
                        stage: PlayStage::LoadingShow,
                        say: Seq::empty(),
                        next: PlayActionModel::Request(
                            show_address(key_chars(flow.api_key), item.provider_id),
                        ),
                    },
                },
                None => ended(seq!["No media found for that IMDB ID."@]),
            },
            PlayEvent::CatalogFailed => ended(seq!["Error fetching media details."@]),
            _ => unchanged(flow.stage),
        },
        PlayStage::LoadingShow => match event {
            PlayEvent::ShowLoaded(show) => if has_seasons(show) {
                Outcome {
                    stage: PlayStage::Choosing,
                    say: seq![season_prompt(show)],
                    next: PlayActionModel::AwaitReply,
                }
            } else {
                ended(seq![no_seasons_message(show)])
            },
            PlayEvent::CatalogFailed => ended(seq!["Could not fetch TV show details from TMDB."@]),
            _ => unchanged(flow.stage),
        },
        PlayStage::Choosing => match (flow.selector, flow.item, dialogue_event(event)) {
            (Some(selector), Some(item), Some(e)) => choosing_outcome(flow, item@, selector, e),
            _ => unchanged(flow.stage),
        },
        PlayStage::Locating => match (flow.probe, event) {
            (Some(probe), PlayEvent::Fetched(outcome)) => locating_outcome(
                probe_model(probe),
                outcome@,
            ),
            _ => unchanged(flow.stage),
        },
        PlayStage::Extracting => match event {
            PlayEvent::Fetched(outcome) => extracting_outcome(text_of(flow.track_title), outcome@),
            _ => unchanged(flow.stage),
        },
        PlayStage::Starting => match event {
            PlayEvent::Started => ended(seq!["Now playing: "@ + text_of(flow.track_title)]),
            PlayEvent::StartFailed(reason) => ended(
                seq!["Error creating stream source: "@ + reason@],
            ),
            PlayEvent::NotConnected => ended(seq!["Not in a voice channel. Use `m!join` first."@]),
            _ => unchanged(flow.stage),
        },
        PlayStage::Ended => unchanged(flow.stage),
    }
}

/// The title that the flow knows after a step.
pub open spec fn item_after(flow: PlayFlow, event: PlayEvent) -> Option<ItemModel> {
    match (flow.stage, event) {
        (PlayStage::Finding, PlayEvent::Found { movies, shows }) => match found_item(
            record_models(movies@),
            record_models(shows@),
        ) {
            Some(item) => Some(item),
            None => item_model(flow.item),
        },
        _ => item_model(flow.item),
    }
}

/// The dialogue that the flow holds after a step.
pub open spec fn selector_after(flow: PlayFlow, event: PlayEvent) -> Option<Selector> {
    match flow.stage {
        PlayStage::LoadingShow => match event {
            PlayEvent::ShowLoaded(show) => Some(
                Selector { show, season: None, state: opening_state(show) },
            ),
            _ => flow.selector,
        },
        PlayStage::Choosing => match (flow.selector, flow.item, dialogue_event(event)) {
            (Some(selector), Some(_), Some(e)) => Some(selector_after_event(selector, e)),
            _ => flow.selector,
        },
        _ => flow.selector,
    }
}

/// The choice with which the run over the mirrors begins in a step, if it
/// begins in that step.
pub open spec fn locating_choice(flow: PlayFlow, event: PlayEvent) -> Option<
    (ItemModel, Option<u32>, Option<u32>),
> {
    match flow.stage {
        PlayStage::Finding => match event {
            PlayEvent::Found { movies, shows } => match found_item(
                record_models(movies@),
                record_models(shows@),
            ) {
                Some(item) => if item.kind == MediaKind::Movie {
                    Some((item, None, None))
                } else {
                    None
                },
                None => None,
            },
            _ => None,
        },
        PlayStage::Choosing => match (flow.selector, flow.item, dialogue_event(event)) {
            (Some(selector), Some(item), Some(e)) => match selector_action(selector, e) {
                ActionModel::Proceed { season, episode } => Some(
                    (item@, Some(season), Some(episode)),
                ),
                _ => None,
            },
            _ => None,
        },
        _ => None,
    }
}

/// The run over the mirrors that the flow holds after a step.
pub open spec fn probe_after(flow: PlayFlow, event: PlayEvent) -> Option<ProbeModel> {
    match locating_choice(flow, event) {
        Some((item, season, episode)) => Some(
            ProbeModel {
                domains: flow.mirrors.deep_view(),
                path: match chosen_path(item, season, episode) {
                    Some(p) => p,
                    None => Seq::empty(),
                },
                pending: if chosen_path(item, season, episode) is Some && flow.mirrors@.len() > 0 {
                    Some(0int)
                } else {
                    None
                },
            },
        ),
        None => match (flow.stage, flow.probe, event) {
            (PlayStage::Locating, Some(probe), PlayEvent::Fetched(outcome)) => Some(
                ProbeModel {
                    domains: probe.domains.deep_view(),
                    path: probe.path@,
                    pending: next_pending(
                        probe.domains@.len() as int,
                        probe_model(probe).pending,
                        outcome_embed(outcome@),
                    ),
                },
            ),
            _ => probe_models(flow.probe),
        },
    }
}

/// The title under which the track will play, as the flow knows it after a
/// step.
pub open spec fn track_title_after(flow: PlayFlow, event: PlayEvent) -> Option<Seq<char>> {
    match locating_choice(flow, event) {
        Some((item, season, episode)) => Some(
            track_title_of(item, season, episode, flow.external_id@),
        ),
        None => flow.track_title.deep_view(),
    }
}

/// The title of the session after a step: the track that has started plays
/// under its title; nothing else touches the session.
pub open spec fn session_title_after(
    flow: PlayFlow,
    event: PlayEvent,
    playing: Option<Seq<char>>,
) -> Option<Seq<char>> {
    if flow.stage is Starting && event is Started {
        Some(text_of(flow.track_title))
    } else {
        playing
    }
}

/// A reply that chooses no listed season or episode, and a wait that ends
/// without a reply, end the flow with a message: no mirror is asked and no
/// page is fetched, in that step or in any later one.
pub proof fn law_failed_choice_ends_flow(flow: PlayFlow, event: PlayEvent, later: PlayEvent)
    requires
        flow.stage is Choosing,
        flow.selector is Some,
        flow.item is Some,
        dialogue_event(event) is Some,
        ({
            let after = selector_after_event(flow.selector->0, dialogue_event(event)->0);
            after.state != flow.selector->0.state && (after.state is Invalid || after.state
                is TimedOut)
        }),
    ensures
        flow_outcome(flow, event).stage is Ended,
        flow_outcome(flow, event).next is End,
        flow_outcome(flow, event).say.len() == 1,
        locating_choice(flow, event) is None,
        forall|ended_flow: PlayFlow|
            ended_flow.stage is Ended ==> #[trigger] flow_outcome(ended_flow, later) == unchanged(
                PlayStage::Ended,
            ),
{
}

/// A page is fetched only while the mirrors are asked or the player page is
/// read, or in the step that begins the run over the mirrors.
pub proof fn law_fetch_needs_a_choice(flow: PlayFlow, event: PlayEvent)
    requires
        flow_outcome(flow, event).next is Fetch,
    ensures
        flow.stage is Locating || locating_choice(flow, event) is Some,
{
}

fn say_one(text: String) -> (r: Vec<String>)
    ensures
        r.deep_view() == seq![text@],
{
    let mut out: Vec<String> = Vec::new();
    out.push(text);
    proof {
        assert(out.deep_view() =~= seq![text@]);
    }
    out
}

fn say_nothing() -> (r: Vec<String>)
    ensures
        r.deep_view() == Seq::<Seq<char>>::empty(),
{
    let out: Vec<String> = Vec::new();
    proof {
        assert(out.deep_view() =~= Seq::<Seq<char>>::empty());
    }
    out
}

fn end_with(text: &str) -> (r: PlayStep)
    ensures
        r.say.deep_view() == seq![text@],
        r.next@ == PlayActionModel::End,
{
    PlayStep { say: say_one(String::from_str(text)), next: PlayAction::End }
}

fn ignore() -> (r: PlayStep)
    ensures
        r.say.deep_view() == Seq::<Seq<char>>::empty(),
        r.next@ == PlayActionModel::Ignore,
{
    PlayStep { say: say_nothing(), next: PlayAction::Ignore }
}

impl PlayStep {
    /// What the step comes to, for the stage that the flow is left in.
    pub open spec fn outcome(&self, stage: PlayStage) -> Outcome {
        Outcome { stage, say: self.say.deep_view(), next: self.next@ }
    }
}

impl PlayFlow {
    /// Begins the flow for `external_id`.
    pub fn open(external_id: String, scene: Scene, api_key: Option<String>, mirrors: Vec<String>) -> (r:
        (PlayFlow, PlayStep))
        ensures
            r.1.outcome(r.0.stage) == opening(external_id@, scene, api_key),
            r.0.external_id == external_id,
            r.0.api_key == api_key,
            r.0.mirrors == mirrors,
            r.0.channel == scene.author_channel,
            r.0.item is None,
            r.0.selector is None,
            r.0.probe is None,
            r.0.track_title is None,
    {
        let mut flow = PlayFlow {
            stage: PlayStage::Ended,
            external_id,
            api_key,
            mirrors,
            channel: scene.author_channel,
            item: None,
            selector: None,
            probe: None,
            track_title: None,
        };
        if validate_external_id(flow.external_id.as_str()).is_err() {
            let step = PlayStep { say: say_one(Fault::ExternalId.message()), next: PlayAction::End };
            return (flow, step);
        }
        if !scene.in_server {
            return (flow, end_with("This command can only be used in a server."));
        }
        if !scene.connected {
            return match scene.author_channel {
                Some(channel) => {
                    flow.stage = PlayStage::Joining;
                    (flow, PlayStep { say: say_nothing(), next: PlayAction::Join { channel } })
                },
                None => (
                    flow,
                    end_with(
                        "You are not in a voice channel. Please join one or use `m!join` first.",
                    ),
                ),
            };
        }
        let step = flow.start_finding(say_nothing());
        (flow, step)
    }

    fn start_finding(&mut self, said: Vec<String>) -> (r: PlayStep)
        ensures
            r.outcome(final(self).stage) == begin_finding(
                old(self).external_id@,
                old(self).api_key,
                said.deep_view(),
            ),
            final(self).external_id == old(self).external_id,
            final(self).api_key == old(self).api_key,
            final(self).mirrors == old(self).mirrors,
            final(self).channel == old(self).channel,
            final(self).item == old(self).item,
            final(self).selector == old(self).selector,
            final(self).probe == old(self).probe,
            final(self).track_title == old(self).track_title,
    {
        let mut say = said;
        let usable = match &self.api_key {
            Some(k) => k.as_str().unicode_len() > 0,
            None => false,
        };
        if usable {
            let url = match &self.api_key {
                Some(k) => find_url(k.as_str(), self.external_id.as_str()),
                None => String::new(),
            };
            self.stage = PlayStage::Finding;
            PlayStep { say, next: PlayAction::Request(url) }
        } else {
            let ghost before = say.deep_view();
            say.push(String::from_str("TMDB API key not configured or empty."));
            proof {
                assert(say.deep_view() =~= before.push("TMDB API key not configured or empty."@));
            }
            self.stage = PlayStage::Ended;
            PlayStep { say, next: PlayAction::End }
        }
    }

    fn start_locating(&mut self, season: Option<u32>, episode: Option<u32>) -> (r: PlayStep)
        requires
            old(self).item is Some,
        ensures
            r.outcome(final(self).stage) == begin_locating(
                old(self).item->0@,
                season,
                episode,
                old(self).mirrors.deep_view(),
            ),
            final(self).external_id == old(self).external_id,
            final(self).api_key == old(self).api_key,
            final(self).mirrors == old(self).mirrors,
            final(self).channel == old(self).channel,
            final(self).item == old(self).item,
            final(self).selector == old(self).selector,
            probe_models(final(self).probe) == Some(
                ProbeModel {
                    domains: old(self).mirrors.deep_view(),
                    path: match chosen_path(old(self).item->0@, season, episode) {
                        Some(p) => p,
                        None => Seq::empty(),
                    },
                    pending: if chosen_path(old(self).item->0@, season, episode) is Some && old(
                        self,
                    ).mirrors@.len() > 0 {
                        Some(0int)
                    } else {
                        None
                    },
                },
            ),
            final(self).track_title.deep_view() == Some(
                track_title_of(old(self).item->0@, season, episode, old(self).external_id@),
            ),
    {
        let (path, title) = match &self.item {
            Some(item) => {
                let path = title_path(item.kind, item.provider_id, season, episode);
                let title = match (item.kind, season, episode) {
                    (MediaKind::Show, Some(s), Some(e)) => show_track_title(
                        item.primary_title.as_str(),
                        s,
                        e,
                        self.external_id.as_str(),
                    ),
                    _ => movie_track_title(item.primary_title.as_str(), self.external_id.as_str()),
                };
                (path, title)
            },
            None => (None, String::new()),
        };
        self.track_title = Some(title);
        let mut domains: Vec<String> = Vec::new();
        let mut i: usize = 0;
        while i < self.mirrors.len()
            invariant
                i <= self.mirrors@.len(),
                domains@.len() == i,
                forall|j: int| 0 <= j < i ==> domains@[j]@ == self.mirrors@[j]@,
            decreases self.mirrors@.len() - i,
        {
            domains.push(self.mirrors[i].clone());
            i += 1;
        }
        proof {
            assert(domains.deep_view() =~= self.mirrors.deep_view());
        }
        let (probe, step) = Probe::start(domains, path);
        proof {
            if path is None {
                assert(probe.path@ =~= Seq::<char>::empty());
            }
        }
        self.probe = Some(probe);
        match step {
            ProbeStep::Fetch(url) => {
                self.stage = PlayStage::Locating;
                PlayStep { say: say_nothing(), next: PlayAction::Fetch(url) }
            },
            ProbeStep::Finished(_) => {
                self.stage = PlayStage::Ended;
                end_with("Could not find a VidSrc streaming page for the selected media/episode.")
            },
        }
    }

    /// Takes an event and says what is to be done next. The session is
    /// touched in one case only: when the stream has started, the track
    /// plays under its title.
    pub fn handle(&mut self, event: PlayEvent, session: &mut PlaybackSession) -> (r: PlayStep)
        ensures
            r.outcome(final(self).stage) == flow_outcome(*old(self), event),
            final(self).external_id == old(self).external_id,
            final(self).api_key == old(self).api_key,
            final(self).mirrors == old(self).mirrors,
            final(self).channel == old(self).channel,
            item_model(final(self).item) == item_after(*old(self), event),
            final(self).selector == selector_after(*old(self), event),
            probe_models(final(self).probe) == probe_after(*old(self), event),
            final(self).track_title.deep_view() == track_title_after(*old(self), event),
            final(session).title() == session_title_after(*old(self), event, old(session).title()),
    {
        match self.stage {
            PlayStage::Joining => match event {
                PlayEvent::Joined => {
                    let mut text = String::from_str("Joined your voice channel: <#");
                    let channel: u64 = match self.channel {
                        Some(c) => c,
                        None => 0,
                    };
                    text.append(decimal_string(channel).as_str());
                    text.append(">");
                    self.start_finding(say_one(text))
                },
                PlayEvent::JoinFailed => {
                    self.stage = PlayStage::Ended;
                    end_with("Failed to join your voice channel.")
                },
                _ => ignore(),
            },
            PlayStage::Finding => match event {
                PlayEvent::Found { movies, shows } => match pick_found(&movies, &shows) {
                    Some(item) => {
                        let kind = item.kind;
                        let id = item.provider_id;
                        self.item = Some(item);
                        match kind {
                            MediaKind::Movie => self.start_locating(None, None),
                            MediaKind::Show => {
                                let url = match &self.api_key {
                                    Some(k) => show_detail_url(k.as_str(), id),
                                    None => show_detail_url("", id),
                                };
                                proof {
                                    assert(""@ =~= Seq::<char>::empty()) by {
                                        reveal_strlit("");
                                    }
                                }
                                self.stage = PlayStage::LoadingShow;
                                PlayStep { say: say_nothing(), next: PlayAction::Request(url) }
                            },
                        }
                    },
                    None => {
                        self.stage = PlayStage::Ended;
                        end_with("No media found for that IMDB ID.")
                    },
                },
                PlayEvent::CatalogFailed => {
                    self.stage = PlayStage::Ended;
                    end_with("Error fetching media details.")
                },
                _ => ignore(),
            },
            PlayStage::LoadingShow => match event {
                PlayEvent::ShowLoaded(show) => {
                    let (selector, action) = Selector::open(show);
                    self.selector = Some(selector);
                    match action {
                        SelectorAction::Ask(prompt) => {
                            self.stage = PlayStage::Choosing;
                            PlayStep { say: say_one(prompt), next: PlayAction::AwaitReply }
                        },
                        SelectorAction::Close(message) => {
                            self.stage = PlayStage::Ended;
                            PlayStep { say: say_one(message), next: PlayAction::End }
                        },
                        _ => {
                            self.stage = PlayStage::Ended;
                            PlayStep { say: say_nothing(), next: PlayAction::End }
                        },
                    }
                },
                PlayEvent::CatalogFailed => {
                    self.stage = PlayStage::Ended;
                    end_with("Could not fetch TV show details from TMDB.")
                },
                _ => ignore(),
            },
            PlayStage::Choosing => {
                let dialogue = match event {
                    PlayEvent::Reply(text) => Some(SelectorEvent::Reply(text)),
                    PlayEvent::NoReply => Some(SelectorEvent::NoReply),
                    PlayEvent::SeasonLoaded(detail) => Some(SelectorEvent::SeasonLoaded(detail)),
                    PlayEvent::CatalogFailed => Some(SelectorEvent::SeasonUnavailable),
                    _ => None,
                };
                let e = match dialogue {
                    Some(e) => e,
                    None => {
                        return ignore();
                    },
                };
                if self.item.is_none() {
                    return ignore();
                }
                let mut selector = match self.selector.take() {
                    Some(s) => s,
                    None => {
                        return ignore();
                    },
                };
                let action = selector.handle(e);
                self.selector = Some(selector);
                match action {
                    SelectorAction::Ask(prompt) => PlayStep {
                        say: say_one(prompt),
                        next: PlayAction::AwaitReply,
                    },
                    SelectorAction::LoadSeason(n) => {
                        let id: i32 = match &self.item {
                            Some(item) => item.provider_id,
                            None => 0,
                        };
                        let url = match &self.api_key {
                            Some(k) => season_detail_url(k.as_str(), id, n),
                            None => season_detail_url("", id, n),
                        };
                        proof {
                            assert(""@ =~= Seq::<char>::empty()) by {
                                reveal_strlit("");
                            }
                        }
                        PlayStep { say: say_nothing(), next: PlayAction::Request(url) }
                    },
                    SelectorAction::Close(message) => {
                        self.stage = PlayStage::Ended;
                        PlayStep { say: say_one(message), next: PlayAction::End }
                    },
                    SelectorAction::Proceed { season, episode } => self.start_locating(
                        Some(season),
                        Some(episode),
                    ),
                    SelectorAction::Ignore => ignore(),
                }
            },
            PlayStage::Locating => match event {
                PlayEvent::Fetched(outcome) => {
                    let mut probe = match self.probe.take() {
                        Some(p) => p,
                        None => {
                            return ignore();
                        },
                    };
                    let step = probe.advance(&outcome);
                    self.probe = Some(probe);
                    match step {
                        ProbeStep::Fetch(url) => PlayStep {
                            say: say_nothing(),
                            next: PlayAction::Fetch(url),
                        },
                        ProbeStep::Finished(Some(page)) => {
                            self.stage = PlayStage::Extracting;
                            PlayStep {
                                say: say_nothing(),
                                next: PlayAction::Fetch(normalize_player_url(page.as_str())),
                            }
                        },
                        ProbeStep::Finished(None) => {
                            self.stage = PlayStage::Ended;
                            end_with(
                                "Could not find a VidSrc streaming page for the selected media/episode.",
                            )
                        },
                    }
                },
                _ => ignore(),
            },
            PlayStage::Extracting => match event {
                PlayEvent::Fetched(outcome) => match outcome {
                    FetchOutcome::Unreachable => {
                        self.stage = PlayStage::Ended;
                        end_with("Error resolving direct media URL.")
                    },
                    FetchOutcome::Response { status, body } => {
                        let found = if status_is_success(status) {
                            extract_direct_url(body.as_str())
                        } else {
                            None
                        };
                        match found {
                            Some(media_url) => {
                                let title = match &self.track_title {
                                    Some(t) => t.clone(),
                                    None => String::new(),
                                };
                                self.stage = PlayStage::Starting;
                                PlayStep {
                                    say: say_nothing(),
                                    next: PlayAction::Start { title, media_url },
                                }
                            },
                            None => {
                                self.stage = PlayStage::Ended;
                                end_with("Could not resolve a direct playable media URL.")
                            },
                        }
                    },
                },
                _ => ignore(),
            },
            PlayStage::Starting => match event {
                PlayEvent::Started => {
                    let title = match &self.track_title {
                        Some(t) => t.clone(),
                        None => String::new(),
                    };
                    let mut text = String::from_str("Now playing: ");
                    text.append(title.as_str());
                    session.begin(title);
                    self.stage = PlayStage::Ended;
                    PlayStep { say: say_one(text), next: PlayAction::End }
                },
                PlayEvent::StartFailed(reason) => {
                    let mut text = String::from_str("Error creating stream source: ");
                    text.append(reason.as_str());
                    self.stage = PlayStage::Ended;
                    PlayStep { say: say_one(text), next: PlayAction::End }
                },
                PlayEvent::NotConnected => {
                    self.stage = PlayStage::Ended;
                    end_with("Not in a voice channel. Use `m!join` first.")
                },
                _ => ignore(),
            },
            PlayStage::Ended => ignore(),
        }
    }
}

} // verus!
