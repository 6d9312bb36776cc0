//! The commands of the bot: how a message is read as a command, what each
//! command needs before it can be carried out, and what the user is told.
//!
//! A message is a command when it begins with `m!` or `!` and the name of a
//! command. A command that takes an argument is recognised only with a
//! space after its name; the argument is what follows, without the white
//! space around it.

use vstd::prelude::*;
use vstd::string::StringExecFns;
use crate::decimal::{decimal, decimal_string, parse_i64, parse_signed, parse_u64, parse_unsigned};
use crate::errors::{CoreError, Fault};
use crate::playback::{volume_decision, PlaybackSession, VolumeDecision};
use crate::text::{
    chars_of, has_prefix, push_str, starts_with, string_of, strip_repeated_prefix, trim, trimmed,
    without_repeated_prefix,
};

verus! {

/// The prefix of a command.
pub const PREFIX: &'static str = "m!";

/// The short prefix of a command.
pub const SHORT_PREFIX: &'static str = "!";

/// What every identifier of the external catalog begins with.
pub const EXTERNAL_ID_LEAD: &'static str = "tt";

/// A message read as a command.
#[derive(Clone, Debug)]
pub enum Command {
    Ping,
    Search { query: String },
    Imdb { id: String },
    Join,
    Play { id: String },
    Pause,
    Resume,
    Stop,
    Volume { percent: String },
    Playing,
    Skip { seconds: String },
    /// The message is no command.
    NoCommand,
}

/// A command as a mathematical value.
pub enum CommandModel {
    Ping,
    Search { query: Seq<char> },
    Imdb { id: Seq<char> },
    Join,
    Play { id: Seq<char> },
    Pause,
    Resume,
    Stop,
    Volume { percent: Seq<char> },
    Playing,
    Skip { seconds: Seq<char> },
    NoCommand,
}

impl View for Command {
    type V = CommandModel;

    open spec fn view(&self) -> CommandModel {
        match self {
            Command::Ping => CommandModel::Ping,
            Command::Search { query } => CommandModel::Search { query: query@ },
            Command::Imdb { id } => CommandModel::Imdb { id: id@ },
            Command::Join => CommandModel::Join,
            Command::Play { id } => CommandModel::Play { id: id@ },
            Command::Pause => CommandModel::Pause,
            Command::Resume => CommandModel::Resume,
            Command::Stop => CommandModel::Stop,
            Command::Volume { percent } => CommandModel::Volume { percent: percent@ },
            Command::Playing => CommandModel::Playing,
            Command::Skip { seconds } => CommandModel::Skip { seconds: seconds@ },
            Command::NoCommand => CommandModel::NoCommand,
        }
    }
}

/// Where a command was written, as far as the commands care.
#[derive(Clone, Copy, Debug, PartialEq, Eq, Structural)]
pub struct Scene {
    /// Whether the message was written in a server.
    pub in_server: bool,
    /// Whether the bot is in a voice channel of that server.
    pub connected: bool,
    /// The voice channel that the author is in, if any.
    pub author_channel: Option<u64>,
}

/// Something to be done to the voice connection or to the track.
#[derive(Clone, Copy, Debug, PartialEq, Eq, Structural)]
pub enum Operation {
    Join { channel: u64 },
    Pause,
    Resume,
    StopAndLeave,
    SetVolume { percent: u8 },
    Seek { seconds: u64 },
}

/// What a command leads to.
#[derive(Clone, Debug)]
pub enum Plan {
    /// Say this and be done.
    Reply(String),
    /// Do this, then say what `report` makes of how it went.
    Perform(Operation),
    /// Nothing: this command is not one of these.
    Pass,
}

/// A plan as a mathematical value.
pub enum PlanModel {
    Reply(Seq<char>),
    Perform(Operation),
    Pass,
}

impl View for Plan {
    type V = PlanModel;

    open spec fn view(&self) -> PlanModel {
        match self {
            Plan::Reply(text) => PlanModel::Reply(text@),
            Plan::Perform(operation) => PlanModel::Perform(*operation),
            Plan::Pass => PlanModel::Pass,
        }
    }
}

/// Whether `content` begins with a prefix and then `verb`.
pub open spec fn has_verb(content: Seq<char>, verb: Seq<char>) -> bool {
    starts_with(content, PREFIX@ + verb) || starts_with(content, SHORT_PREFIX@ + verb)
}

/// The prefix and verb with which `content` begins: the long form where it
/// begins with that, else the short form.
pub open spec fn lead_of(content: Seq<char>, verb: Seq<char>) -> Seq<char> {
    if starts_with(content, PREFIX@ + verb) {
        PREFIX@ + verb
    } else {
        SHORT_PREFIX@ + verb
    }
}

/// The argument of a command: what follows its lead, however often the lead
/// is repeated, without the white space around it.
pub open spec fn argument(content: Seq<char>, verb: Seq<char>) -> Seq<char> {
    trim(strip_repeated_prefix(content, lead_of(content, verb)))
}

/// The command that `content` is. The names are tried in a fixed order, and
/// the first that fits decides.
pub open spec fn parsed(content: Seq<char>) -> CommandModel {
    if has_verb(content, "ping"@) {
        CommandModel::Ping
    } else if has_verb(content, "search "@) {
        CommandModel::Search { query: argument(content, "search "@) }
    } else if has_verb(content, "imdb "@) {
        CommandModel::Imdb { id: argument(content, "imdb "@) }
    } else if has_verb(content, "join"@) {
        CommandModel::Join
    } else if has_verb(content, "play "@) {
        CommandModel::Play { id: argument(content, "play "@) }
    } else if has_verb(content, "pause"@) {
        CommandModel::Pause
    } else if has_verb(content, "resume"@) {
        CommandModel::Resume
    } else if has_verb(content, "stop"@) {
        CommandModel::Stop
    } else if has_verb(content, "volume "@) {
        CommandModel::Volume { percent: argument(content, "volume "@) }
    } else if has_verb(content, "playing"@) {
        CommandModel::Playing
    } else if has_verb(content, "skip "@) {
        CommandModel::Skip { seconds: argument(content, "skip "@) }
    } else {
        CommandModel::NoCommand
    }
}

/// The command that a message is: none where a bot wrote it.
pub open spec fn dispatched(author_is_bot: bool, content: Seq<char>) -> CommandModel {
    if author_is_bot {
        CommandModel::NoCommand
    } else {
        parsed(content)
    }
}

/// Whether `id` has the form of an external identifier: it begins with `tt`
/// and goes on after that.
pub open spec fn is_external_id(id: Seq<char>) -> bool {
    starts_with(id, EXTERNAL_ID_LEAD@) && id.len() >= EXTERNAL_ID_LEAD@.len() + 1
}

/// What the user is told when an operation has been tried.
pub open spec fn report_text(operation: Operation, done: bool) -> Seq<char> {
    match operation {
        Operation::Join { channel } => if done {
            "Joined voice channel: <#"@ + decimal(channel as nat) + ">"@
        } else {
            "Failed to join the voice channel."@
        },
        Operation::Pause => if done {
            "Playback paused."@
        } else {
            "Failed to pause playback. Nothing playing?"@
        },
        Operation::Resume => if done {
            "Playback resumed."@
        } else {
            "Failed to resume playback."@
        },
        Operation::StopAndLeave => if done {
            "Playback stopped and left voice channel."@
        } else {
            "Playback stopped. Failed to leave voice channel."@
        },
        Operation::SetVolume { percent } => if done {
            "Volume set to "@ + decimal(percent as nat) + "%."@
        } else {
            "Failed to set volume."@
        },
        Operation::Seek { seconds } => if done {
            "Skipped to "@ + decimal(seconds as nat) + " seconds."@
        } else {
            "Failed to skip. The stream might not be seekable."@
        },
    }
}

/// What a command about the voice connection or the track leads to, in a
/// scene and with a track playing or not. `Pass` for the commands that ask
/// the catalog.
pub open spec fn plan_of(command: CommandModel, scene: Scene, playing: Option<Seq<char>>) -> PlanModel {
    match command {
        CommandModel::Ping => PlanModel::Reply("Pong!"@),
        CommandModel::Playing => PlanModel::Reply(
            crate::playback::now_playing_text(playing),
        ),
        CommandModel::Join => if !scene.in_server {
            PlanModel::Reply("This command can only be used in a server."@)
        } else {
            match scene.author_channel {
                Some(channel) => PlanModel::Perform(Operation::Join { channel }),
                None => PlanModel::Reply(
                    "You need to be in a voice channel to use this command."@,
                ),
            }
        },
        CommandModel::Pause => guarded(scene, PlanModel::Perform(Operation::Pause)),
        CommandModel::Resume => guarded(scene, PlanModel::Perform(Operation::Resume)),
        CommandModel::Stop => guarded(scene, PlanModel::Perform(Operation::StopAndLeave)),
        CommandModel::Volume { percent } => guarded(
            scene,
            match parse_signed(percent, i64::MIN as int, i64::MAX as int) {
                None => PlanModel::Reply(crate::errors::fault_text(Fault::VolumeText)),
                Some(p) => match volume_decision(playing is Some, p) {
                    Err(_) => PlanModel::Reply(crate::errors::fault_text(Fault::VolumeRange)),
                    Ok(VolumeDecision::NothingPlaying) => PlanModel::Reply("Nothing is playing."@),
                    Ok(VolumeDecision::Apply { percent }) => PlanModel::Perform(
                        Operation::SetVolume { percent },
                    ),
                },
            },
        ),
        CommandModel::Skip { seconds } => guarded(
            scene,
            match parse_unsigned(seconds, u64::MAX as nat) {
                None => PlanModel::Reply(crate::errors::fault_text(Fault::SeekText)),
                Some(s) => if playing is Some {
                    PlanModel::Perform(Operation::Seek { seconds: s as u64 })
                } else {
                    PlanModel::Reply("Nothing is playing."@)
                },
            },
        ),
        _ => PlanModel::Pass,
    }
}

/// A plan that needs the bot to be in a voice channel of a server.
pub open spec fn guarded(scene: Scene, plan: PlanModel) -> PlanModel {
    if !scene.in_server {
        PlanModel::Reply("Command only for servers."@)
    } else if !scene.connected {
        PlanModel::Reply("Not in a voice channel."@)
    } else {
        plan
    }
}

/// The title that plays after a command has been planned: stopping clears
/// it, where the bot is in a voice channel; nothing else touches it.
pub open spec fn title_after(command: CommandModel, scene: Scene, playing: Option<Seq<char>>) -> Option<
    Seq<char>,
> {
    if command is Stop && scene.in_server && scene.connected {
        None
    } else {
        playing
    }
}

/// A volume outside 0 to 100 never reaches the track and never changes the
/// session, and a volume inside that range, with nothing playing, is
/// answered with the words that nothing is playing.
pub proof fn law_volume_is_validated(
    percent: Seq<char>,
    scene: Scene,
    playing: Option<Seq<char>>,
)
    requires
        scene.in_server,
        scene.connected,
    ensures
        title_after(CommandModel::Volume { percent }, scene, playing) == playing,
        match parse_signed(percent, i64::MIN as int, i64::MAX as int) {
            Some(p) => {
                &&& !(0 <= p <= 100) ==> plan_of(CommandModel::Volume { percent }, scene, playing)
                    == PlanModel::Reply("Volume must be between 0 and 100."@)
                &&& 0 <= p <= 100 && playing is None ==> plan_of(
                    CommandModel::Volume { percent },
                    scene,
                    playing,
                ) == PlanModel::Reply("Nothing is playing."@)
                &&& 0 <= p <= 100 && playing is Some ==> plan_of(
                    CommandModel::Volume { percent },
                    scene,
                    playing,
                ) == PlanModel::Perform(Operation::SetVolume { percent: p as u8 })
            },
            None => plan_of(CommandModel::Volume { percent }, scene, playing) is Reply,
        },
{
}

fn lead(prefix: &str, verb: &str) -> (r: Vec<char>)
    ensures
        r@ == prefix@ + verb@,
{
    let mut out = chars_of(prefix);
    push_str(&mut out, verb);
    out
}

fn begins_with_verb(content: &[char], verb: &str) -> (r: bool)
    ensures
        r == has_verb(content@, verb@),
{
    let long = lead(PREFIX, verb);
    let short = lead(SHORT_PREFIX, verb);
    has_prefix(content, long.as_slice()) || has_prefix(content, short.as_slice())
}

fn argument_of(content: &[char], verb: &str) -> (r: String)
    ensures
        r@ == argument(content@, verb@),
{
    let long = lead(PREFIX, verb);
    let short = lead(SHORT_PREFIX, verb);
    let rest = if has_prefix(content, long.as_slice()) {
        without_repeated_prefix(content, long.as_slice())
    } else {
        without_repeated_prefix(content, short.as_slice())
    };
    let arg = trimmed(rest.as_slice());
    string_of(arg.as_slice())
}

/// Reads the text of a message as a command.
pub fn parse_command(content: &str) -> (r: Command)
    ensures
        r@ == parsed(content@),
{
    let text = chars_of(content);
    let c = text.as_slice();
    if begins_with_verb(c, "ping") {
        Command::Ping
    } else if begins_with_verb(c, "search ") {
        Command::Search { query: argument_of(c, "search ") }
    } else if begins_with_verb(c, "imdb ") {
        Command::Imdb { id: argument_of(c, "imdb ") }
    } else if begins_with_verb(c, "join") {
        Command::Join
    } else if begins_with_verb(c, "play ") {
        Command::Play { id: argument_of(c, "play ") }
    } else if begins_with_verb(c, "pause") {
        Command::Pause
    } else if begins_with_verb(c, "resume") {
        Command::Resume
    } else if begins_with_verb(c, "stop") {
        Command::Stop
    } else if begins_with_verb(c, "volume ") {
        Command::Volume { percent: argument_of(c, "volume ") }
    } else if begins_with_verb(c, "playing") {
        Command::Playing
    } else if begins_with_verb(c, "skip ") {
        Command::Skip { seconds: argument_of(c, "skip ") }
    } else {
        Command::NoCommand
    }
}

/// Reads a message as a command. What a bot writes is never a command.
pub fn dispatch(author_is_bot: bool, content: &str) -> (r: Command)
    ensures
        r@ == dispatched(author_is_bot, content@),
{
    if author_is_bot {
        Command::NoCommand
    } else {
        parse_command(content)
    }
}

/// Checks the form of an external identifier.
pub fn validate_external_id(id: &str) -> (r: Result<(), CoreError>)
    ensures
        r is Ok <==> is_external_id(id@),
        r is Err ==> r == Err::<(), CoreError>(CoreError::Validation(Fault::ExternalId)),
{
    let text = chars_of(id);
    let want = chars_of(EXTERNAL_ID_LEAD);
    if has_prefix(text.as_slice(), want.as_slice()) && text.len() > want.len() {
        Ok(())
    } else {
        Err(CoreError::Validation(Fault::ExternalId))
    }
}

/// What the user is told when an operation has been tried.
pub fn report(operation: Operation, done: bool) -> (r: String)
    ensures
        r@ == report_text(operation, done),
{
    match operation {
        Operation::Join { channel } => if done {
            let mut out = String::from_str("Joined voice channel: <#");
            out.append(decimal_string(channel).as_str());
            out.append(">");
            out
        } else {
            String::from_str("Failed to join the voice channel.")
        },
        Operation::Pause => if done {
            String::from_str("Playback paused.")
        } else {
            String::from_str("Failed to pause playback. Nothing playing?")
        },
        Operation::Resume => if done {
            String::from_str("Playback resumed.")
        } else {
            String::from_str("Failed to resume playback.")
        },
        Operation::StopAndLeave => if done {
            String::from_str("Playback stopped and left voice channel.")
        } else {
            String::from_str("Playback stopped. Failed to leave voice channel.")
        },
        Operation::SetVolume { percent } => if done {
            let mut out = String::from_str("Volume set to ");
            out.append(decimal_string(percent as u64).as_str());
            out.append("%.");
            out
        } else {
            String::from_str("Failed to set volume.")
        },
        Operation::Seek { seconds } => if done {
            let mut out = String::from_str("Skipped to ");
            out.append(decimal_string(seconds).as_str());
            out.append(" seconds.");
            out
        } else {
            String::from_str("Failed to skip. The stream might not be seekable.")
        },
    }
}

fn guard(scene: Scene, plan: Plan) -> (r: Plan)
    ensures
        r@ == guarded(scene, plan@),
{
    if !scene.in_server {
        Plan::Reply(String::from_str("Command only for servers."))
    } else if !scene.connected {
        Plan::Reply(String::from_str("Not in a voice channel."))
    } else {
        plan
    }
}

/// Plans a command about the voice connection or the track. Stopping clears
/// the title of the session at once; no other command changes the session.
pub fn plan(command: &Command, scene: Scene, session: &mut PlaybackSession) -> (r: Plan)
    ensures
        r@ == plan_of(command@, scene, old(session).title()),
        final(session).title() == title_after(command@, scene, old(session).title()),
{
    match command {
        Command::Ping => Plan::Reply(String::from_str("Pong!")),
        Command::Playing => Plan::Reply(session.now_playing()),
        Command::Join => {
            if !scene.in_server {
                Plan::Reply(String::from_str("This command can only be used in a server."))
            } else {
                match scene.author_channel {
                    Some(channel) => Plan::Perform(Operation::Join { channel }),
                    None => Plan::Reply(
                        String::from_str("You need to be in a voice channel to use this command."),
                    ),
                }
            }
        },
        Command::Pause => guard(scene, Plan::Perform(Operation::Pause)),
        Command::Resume => guard(scene, Plan::Perform(Operation::Resume)),
        Command::Stop => {
            if scene.in_server && scene.connected {
                session.track_ended();
            }
            guard(scene, Plan::Perform(Operation::StopAndLeave))
        },
        Command::Volume { percent } => {
            let text = chars_of(percent.as_str());
            let inner = match parse_i64(text.as_slice()) {
                None => Plan::Reply(Fault::VolumeText.message()),
                Some(p) => match session.set_volume(p) {
                    Err(_) => Plan::Reply(Fault::VolumeRange.message()),
                    Ok(VolumeDecision::NothingPlaying) => Plan::Reply(
                        String::from_str("Nothing is playing."),
                    ),
                    Ok(VolumeDecision::Apply { percent }) => Plan::Perform(
                        Operation::SetVolume { percent },
                    ),
                },
            };
            guard(scene, inner)
        },
        Command::Skip { seconds } => {
            let text = chars_of(seconds.as_str());
            let inner = match parse_u64(text.as_slice()) {
                None => Plan::Reply(Fault::SeekText.message()),
                Some(s) => if session.is_playing() {
                    Plan::Perform(Operation::Seek { seconds: s })
                } else {
                    Plan::Reply(String::from_str("Nothing is playing."))
                },
            };
            guard(scene, inner)
        },
        _ => Plan::Pass,
    }
}

} // verus!
