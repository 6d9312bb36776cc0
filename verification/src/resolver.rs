//! The streaming locator resolver: from a catalog title to the address of a
//! player page.
//!
//! The mirrors are probed one after another, in the order of the list, and
//! the first one that answers with a page holding an embed marker decides.
//! The fetching is done by the caller: `Probe` says which address to fetch
//! next and takes back what came of it.

use vstd::prelude::*;
use vstd::string::StringExecFns;
use crate::catalog::MediaKind;
use crate::decimal::{decimal, decimal_string, push_signed_decimal, signed_decimal};
use crate::markup::{all_attrs, first_listed, first_of_list, select_all_attr};
use crate::text::{chars_of, has_prefix, starts_with, string_of};

verus! {

/// The mirror tried first.
pub const FIRST_MIRROR: &'static str = "https://vidsrc.to";

/// The mirror tried second.
pub const SECOND_MIRROR: &'static str = "https://vidsrc.me";

/// The elements that mark an embedded player.
pub const EMBED_SELECTOR: &'static str =
    "iframe[src*='2embed'], iframe[src*='vidsrc.me/player'], iframe[src*='vidsrc.xyz/player'], iframe[src*='player.vidsrc.to']";

/// The attribute that holds the address of the embedded player.
pub const EMBED_ATTR: &'static str = "src";

/// What came of fetching one address.
#[derive(Clone, Debug)]
pub enum FetchOutcome {
    /// No answer came.
    Unreachable,
    /// An answer came, with this status and this body.
    Response { status: u16, body: String },
}

/// What a probe asks for next.
#[derive(Clone, Debug)]
pub enum ProbeStep {
    /// Fetch this address and hand the outcome to `Probe::advance`.
    Fetch(String),
    /// The probe has ended, with the address of the player page where one
    /// was found.
    Finished(Option<String>),
}

/// A run over the mirrors for one title.
#[derive(Clone, Debug)]
pub struct Probe {
    /// The mirrors, in the order in which they are tried.
    pub domains: Vec<String>,
    /// The path of the title on every mirror.
    pub path: String,
    /// The index of the mirror whose answer is awaited.
    pub pending: Option<usize>,
}

/// A fetch outcome as a mathematical value.
pub enum OutcomeModel {
    Unreachable,
    Response { status: int, body: Seq<char> },
}

/// A probe step as a mathematical value.
pub enum StepModel {
    Fetch(Seq<char>),
    Finished(Option<Seq<char>>),
}

impl View for FetchOutcome {
    type V = OutcomeModel;

    open spec fn view(&self) -> OutcomeModel {
        match self {
            FetchOutcome::Unreachable => OutcomeModel::Unreachable,
            FetchOutcome::Response { status, body } => OutcomeModel::Response {
                status: *status as int,
                body: body@,
            },
        }
    }
}

impl View for ProbeStep {
    type V = StepModel;

    open spec fn view(&self) -> StepModel {
        match self {
            ProbeStep::Fetch(url) => StepModel::Fetch(url@),
            ProbeStep::Finished(found) => StepModel::Finished(found.deep_view()),
        }
    }
}

/// The models of a sequence of outcomes.
pub open spec fn outcome_models(outcomes: Seq<FetchOutcome>) -> Seq<OutcomeModel> {
    Seq::new(outcomes.len(), |i: int| outcomes[i]@)
}

/// The path of a title on a mirror: `/embed/movie/{id}` for a movie,
/// `/embed/tv/{id}/{season}-{episode}` for an episode of a show. A show
/// without both a season and an episode has no path.
pub open spec fn embed_path(
    kind: MediaKind,
    provider_id: int,
    season: Option<nat>,
    episode: Option<nat>,
) -> Option<Seq<char>> {
    match kind {
        MediaKind::Movie => Some("/embed/movie/"@ + signed_decimal(provider_id)),
        MediaKind::Show => match (season, episode) {
            (Some(s), Some(e)) => Some(
                "/embed/tv/"@ + signed_decimal(provider_id) + "/"@ + decimal(s) + "-"@ + decimal(
                    e,
                ),
            ),
            _ => None,
        },
    }
}

/// A source address with a scheme: one that begins with `//` gets `https:`
/// put in front.
pub open spec fn upgraded(src: Seq<char>) -> Seq<char> {
    if starts_with(src, "//"@) {
        "https:"@ + src
    } else {
        src
    }
}

/// The address of the player that the page `html` embeds: the source of the
/// first element that matches an embed marker.
pub open spec fn page_embed(html: Seq<char>) -> Option<Seq<char>> {
    match first_listed(all_attrs(html, EMBED_SELECTOR@, EMBED_ATTR@)) {
        Some(src) => Some(upgraded(src)),
        None => None,
    }
}

/// Whether a status reports success.
pub open spec fn is_success(status: int) -> bool {
    200 <= status <= 299
}

/// The page that an outcome brought: the body of an answer that reports
/// success.
pub open spec fn usable_page(outcome: OutcomeModel) -> Option<Seq<char>> {
    match outcome {
        OutcomeModel::Response { status, body } => if is_success(status) {
            Some(body)
        } else {
            None
        },
        OutcomeModel::Unreachable => None,
    }
}

/// The player address that an outcome yields: the embed of its page, where
/// it brought a page.
pub open spec fn outcome_embed(outcome: OutcomeModel) -> Option<Seq<char>> {
    match usable_page(outcome) {
        Some(html) => page_embed(html),
        None => None,
    }
}

/// The player address that the outcomes of the mirrors yield, taken in
/// order from index `from` on: that of the first outcome that yields one.
pub open spec fn first_embed_from(outcomes: Seq<OutcomeModel>, from: int) -> Option<Seq<char>>
    decreases outcomes.len() - from,
{
    if from < 0 || from >= outcomes.len() {
        None
    } else if outcome_embed(outcomes[from]) is Some {
        outcome_embed(outcomes[from])
    } else {
        first_embed_from(outcomes, from + 1)
    }
}

/// The mirror whose answer is awaited after the answer of mirror `pending`
/// yielded `embed`: the one after it, while nothing was found and a mirror
/// is left.
pub open spec fn next_pending(count: int, pending: Option<int>, embed: Option<Seq<char>>) -> Option<
    int,
> {
    match pending {
        Some(i) => if embed is None && 0 <= i && i + 1 < count {
            Some(i + 1)
        } else {
            None
        },
        None => None,
    }
}

/// What a probe asks for after the answer of mirror `pending` yielded
/// `embed`.
pub open spec fn step_after(
    domains: Seq<Seq<char>>,
    path: Seq<char>,
    pending: Option<int>,
    embed: Option<Seq<char>>,
) -> StepModel {
    match next_pending(domains.len() as int, pending, embed) {
        Some(j) => StepModel::Fetch(domains[j] + path),
        None => match pending {
            Some(i) => if 0 <= i < domains.len() {
                StepModel::Finished(embed)
            } else {
                StepModel::Finished(None)
            },
            None => StepModel::Finished(None),
        },
    }
}

/// The first mirror, in list order, whose outcome yields a player address
/// decides the result, whatever the other mirrors answered: any two runs
/// that agree on that mirror, and in which no earlier mirror yields
/// anything, end with that mirror's address.
pub proof fn law_first_usable_mirror_wins(
    outcomes: Seq<OutcomeModel>,
    others: Seq<OutcomeModel>,
    i: int,
)
    requires
        0 <= i < outcomes.len(),
        i < others.len(),
        outcome_embed(outcomes[i]) is Some,
        others[i] == outcomes[i],
        forall|j: int| 0 <= j < i ==> outcome_embed(#[trigger] outcomes[j]) is None,
        forall|j: int| 0 <= j < i ==> outcome_embed(#[trigger] others[j]) is None,
    ensures
        first_embed_from(outcomes, 0) == outcome_embed(outcomes[i]),
        first_embed_from(others, 0) == first_embed_from(outcomes, 0),
{
    lemma_first_embed_skips(outcomes, 0, i);
    lemma_first_embed_skips(others, 0, i);
}

/// Where no mirror yields a player address, there is no result.
pub proof fn law_no_usable_mirror(outcomes: Seq<OutcomeModel>)
    requires
        forall|j: int| 0 <= j < outcomes.len() ==> outcome_embed(#[trigger] outcomes[j]) is None,
    ensures
        first_embed_from(outcomes, 0) is None,
{
    lemma_first_embed_skips(outcomes, 0, outcomes.len() as int);
}

/// Outcomes that yield nothing are passed over.
proof fn lemma_first_embed_skips(outcomes: Seq<OutcomeModel>, from: int, to: int)
    requires
        0 <= from <= to <= outcomes.len(),
        forall|j: int| from <= j < to ==> outcome_embed(#[trigger] outcomes[j]) is None,
    ensures
        first_embed_from(outcomes, from) == first_embed_from(outcomes, to),
    decreases to - from,
{
    if from < to {
        lemma_first_embed_skips(outcomes, from + 1, to);
    }
}

/// The mirrors, in the order in which they are tried.
pub fn default_mirrors() -> (r: Vec<String>)
    ensures
        r.deep_view() == seq![FIRST_MIRROR@, SECOND_MIRROR@],
{
    let mut out: Vec<String> = Vec::new();
    out.push(String::from_str(FIRST_MIRROR));
    out.push(String::from_str(SECOND_MIRROR));
    proof {
        assert(out.deep_view() =~= seq![FIRST_MIRROR@, SECOND_MIRROR@]);
    }
    out
}

/// The path of a title on a mirror. For a show without both a season and an
/// episode there is none.
pub fn title_path(kind: MediaKind, provider_id: i32, season: Option<u32>, episode: Option<u32>) -> (r:
    Option<String>)
    ensures
        r.deep_view() == embed_path(
            kind,
            provider_id as int,
            match season {
                Some(s) => Some(s as nat),
                None => None,
            },
            match episode {
                Some(e) => Some(e as nat),
                None => None,
            },
        ),
{
    let mut id: Vec<char> = Vec::new();
    push_signed_decimal(&mut id, provider_id as i64);
    let id_text = string_of(id.as_slice());
    match kind {
        MediaKind::Movie => {
            let mut out = String::from_str("/embed/movie/");
            out.append(id_text.as_str());
            Some(out)
        },
        MediaKind::Show => match (season, episode) {
            (Some(s), Some(e)) => {
                let mut out = String::from_str("/embed/tv/");
                out.append(id_text.as_str());
                out.append("/");
                out.append(decimal_string(s as u64).as_str());
                out.append("-");
                out.append(decimal_string(e as u64).as_str());
                Some(out)
            },
            _ => None,
        },
    }
}

/// Puts `https:` in front of a source address that begins with `//`.
pub fn upgrade_scheme(src: &str) -> (r: String)
    ensures
        r@ == upgraded(src@),
{
    let chars = chars_of(src);
    let slashes = chars_of("//");
    if has_prefix(chars.as_slice(), slashes.as_slice()) {
        let mut out = String::from_str("https:");
        out.append(src);
        out
    } else {
        String::from_str(src)
    }
}

/// The player address that a source attribute stands for, where the page
/// has one.
pub fn embed_from_source(src: Option<String>) -> (r: Option<String>)
    ensures
        r.deep_view() == match src.deep_view() {
            Some(s) => Some(upgraded(s)),
            None => None,
        },
{
    match src {
        Some(s) => Some(upgrade_scheme(s.as_str())),
        None => None,
    }
}

/// The address of the player that the page `html` embeds.
pub fn embed_of_page(html: &str) -> (r: Option<String>)
    ensures
        r.deep_view() == page_embed(html@),
{
    embed_from_source(first_of_list(select_all_attr(html, EMBED_SELECTOR, EMBED_ATTR)))
}

/// Whether a status reports success.
pub fn status_is_success(status: u16) -> (r: bool)
    ensures
        r == is_success(status as int),
{
    200 <= status && status <= 299
}

impl FetchOutcome {
    /// The player address that this outcome yields. An unreachable mirror
    /// and an answer that does not report success yield none.
    pub fn embed(&self) -> (r: Option<String>)
        ensures
            r.deep_view() == outcome_embed(self@),
    {
        match self {
            FetchOutcome::Response { status, body } => {
                if status_is_success(*status) {
                    embed_of_page(body.as_str())
                } else {
                    None
                }
            },
            FetchOutcome::Unreachable => None,
        }
    }
}

impl Probe {
    /// Begins a run over `domains` for the title at `path`. Without a path,
    /// or without mirrors, the run ends at once and nothing is to be fetched.
    pub fn start(domains: Vec<String>, path: Option<String>) -> (r: (Probe, ProbeStep))
        ensures
            r.0.domains == domains,
            match path {
                Some(p) => r.0.path == p,
                None => r.0.path@.len() == 0,
            },
            path is Some && domains@.len() > 0 ==> r.0.pending == Some(0usize) && r.1@
                == StepModel::Fetch(domains@[0]@ + path->0@),
            path is None || domains@.len() == 0 ==> r.0.pending is None && r.1@
                == StepModel::Finished(None),
    {
        match path {
            Some(p) => {
                if domains.len() > 0 {
                    let mut url = domains[0].clone();
                    url.append(p.as_str());
                    (Probe { domains, path: p, pending: Some(0) }, ProbeStep::Fetch(url))
                } else {
                    (Probe { domains, path: p, pending: None }, ProbeStep::Finished(None))
                }
            },
            None => (
                Probe { domains, path: String::new(), pending: None },
                ProbeStep::Finished(None),
            ),
        }
    }

    /// Takes the outcome of the fetch that was asked for and says what is
    /// next: the run ends with the player address that the outcome yields;
    /// where it yields none, the next mirror is to be fetched; where none is
    /// left, the run ends without a result. After the end, and where no
    /// fetch was asked for, the answer is always that the run has ended
    /// without a result.
    pub fn advance(&mut self, outcome: &FetchOutcome) -> (r: ProbeStep)
        ensures
            final(self).domains == old(self).domains,
            final(self).path == old(self).path,
            r@ == step_after(
                old(self).domains.deep_view(),
                old(self).path@,
                match old(self).pending {
                    Some(i) => Some(i as int),
                    None => None,
                },
                outcome_embed(outcome@),
            ),
            match final(self).pending {
                Some(j) => Some(j as int),
                None => None,
            } == next_pending(
                old(self).domains@.len() as int,
                match old(self).pending {
                    Some(i) => Some(i as int),
                    None => None,
                },
                outcome_embed(outcome@),
            ),
    {
        let i = match self.pending {
            Some(i) => i,
            None => {
                return ProbeStep::Finished(None);
            },
        };
        if i >= self.domains.len() {
            self.pending = None;
            return ProbeStep::Finished(None);
        }
        let found = outcome.embed();
        if found.is_some() {
            self.pending = None;
            return ProbeStep::Finished(found);
        }
        if i + 1 < self.domains.len() {
            let mut url = self.domains[i + 1].clone();
            url.append(self.path.as_str());
            self.pending = Some(i + 1);
            ProbeStep::Fetch(url)
        } else {
            self.pending = None;
            ProbeStep::Finished(None)
        }
    }
}

/// The outcomes that a run over `count` mirrors looks at.
pub open spec fn outcomes_seen(outcomes: Seq<OutcomeModel>, count: int) -> Seq<OutcomeModel> {
    if 0 <= count < outcomes.len() {
        outcomes.take(count)
    } else {
        outcomes
    }
}

/// The address of the player page of a title, from what came of fetching it
/// on each mirror, `outcomes[i]` being the outcome for `domains[i]`: the
/// address that the first outcome, in list order, yields. A title without a
/// path resolves to nothing, and a mirror without an outcome counts as one
/// that yielded nothing. The result is found by running a `Probe` over the
/// outcomes.
pub fn resolve_player_page(
    domains: Vec<String>,
    path: Option<String>,
    outcomes: &Vec<FetchOutcome>,
) -> (r: Option<String>)
    ensures
        r.deep_view() == if path is Some {
            first_embed_from(
                outcomes_seen(outcome_models(outcomes@), domains@.len() as int),
                0,
            )
        } else {
            None
        },
{
    let ghost seen = outcomes_seen(outcome_models(outcomes@), domains@.len() as int);
    let ghost count = domains@.len();
    let (mut probe, mut step) = Probe::start(domains, path);
    let mut i: usize = 0;
    loop
        invariant
            probe.domains@.len() == count,
            count == domains@.len(),
            seen == outcomes_seen(outcome_models(outcomes@), count as int),
            match step@ {
                StepModel::Fetch(_) => {
                    &&& path is Some
                    &&& probe.pending == Some(i)
                    &&& i < count
                    &&& first_embed_from(seen, 0) == first_embed_from(seen, i as int)
                },
                StepModel::Finished(found) => found == if path is Some {
                    first_embed_from(seen, 0)
                } else {
                    None
                },
            },
        decreases
                if step@ is Fetch {
                    count - i + 1
                } else {
                    0
                },
    {
        match step {
            ProbeStep::Finished(found) => {
                return found;
            },
            ProbeStep::Fetch(_) => {
                if i >= outcomes.len() {
                    return None;
                }
                proof {
                    assert(seen[i as int] == outcomes@[i as int]@);
                    assert(seen.len() <= count);
                    assert(first_embed_from(seen, i as int) == if outcome_embed(seen[i as int])
                        is Some {
                        outcome_embed(seen[i as int])
                    } else {
                        first_embed_from(seen, i + 1)
                    });
                    if i + 1 >= seen.len() {
                        assert(first_embed_from(seen, i + 1) is None);
                    }
                }
                step = probe.advance(&outcomes[i]);
                match &step {
                    ProbeStep::Fetch(_) => {
                        i += 1;
                    },
                    ProbeStep::Finished(_) => {},
                }
            },
        }
    }
}

} // verus!
