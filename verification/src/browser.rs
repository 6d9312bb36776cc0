//! Texts handed to the automated browser that mirrors a player into a voice
//! channel: the log-in script and the selector of the channel to open.

use vstd::prelude::*;
use vstd::string::StringExecFns;

verus! {

/// The script up to the place of the token.
pub const LOGIN_SCRIPT_HEAD: &'static str =
    "\n        function login(token) {\n            setInterval(() => {\n                document.body.appendChild(document.createElement('iframe')).contentWindow.localStorage.token = `\"${token}\"`;\n            }, 50);\n            setTimeout(() => {\n                location.reload();\n            }, 2500);\n        }\n        login(`";

/// The script after the token.
pub const LOGIN_SCRIPT_TAIL: &'static str = "`);\n        ";

/// The channel that is opened where none is named.
pub const DEFAULT_CHANNEL_ID: &'static str = "1000710976343134293";

/// The script that logs the browser in with `token`: the fixed script text
/// with the token, unchanged, as the argument of its `login` call.
pub open spec fn login_script(token: Seq<char>) -> Seq<char> {
    LOGIN_SCRIPT_HEAD@ + token + LOGIN_SCRIPT_TAIL@
}

/// The CSS selector of the entry of channel `id` in the channel list.
pub open spec fn channel_selector_text(id: Seq<char>) -> Seq<char> {
    "[data-list-item-id='channels___"@ + id + "']"@
}

/// The script that logs the browser in with `token`.
pub fn return_script(token: &str) -> (r: String)
    ensures
        r@ == login_script(token@),
{
    let mut out = String::from_str(LOGIN_SCRIPT_HEAD);
    out.append(token);
    out.append(LOGIN_SCRIPT_TAIL);
    out
}

/// Where the mirrored player is shown.
pub struct DiscordData {
    /// The id of the voice channel.
    pub id: String,
}

impl Default for DiscordData {
    fn default() -> (r: DiscordData)
        ensures
            r.id@ == DEFAULT_CHANNEL_ID@,
    {
        DiscordData { id: String::from_str(DEFAULT_CHANNEL_ID) }
    }
}

impl DiscordData {
    /// The CSS selector of this channel's entry in the channel list.
    pub fn channel_selector(&self) -> (r: String)
        ensures
            r@ == channel_selector_text(self.id@),
    {
        let mut out = String::from_str("[data-list-item-id='channels___");
        out.append(self.id.as_str());
        out.append("']");
        out
    }
}

/// The first `upto` directories, separated by commas.
pub open spec fn joined_dirs(dirs: Seq<String>, upto: int) -> Seq<char>
    decreases upto,
{
    if upto <= 0 {
        Seq::empty()
    } else if upto == 1 {
        dirs[0]@
    } else {
        joined_dirs(dirs, upto - 1) + ","@ + dirs[upto - 1]@
    }
}

/// The argument that makes the browser load the extensions in `dirs`.
pub open spec fn load_extension_text(dirs: Seq<String>) -> Seq<char> {
    "--load-extension="@ + joined_dirs(dirs, dirs.len() as int)
}

/// The arguments with which the browser is started, in order, for the
/// extensions in `dirs`.
pub open spec fn browser_arguments(dirs: Seq<String>) -> Seq<Seq<char>> {
    seq![
        "--ignore-ssl-errors=yes"@,
        "--ignore-certificate-errors"@,
        "--auto-select-tab-capture-source-by-title=about:blank"@,
        "--disable-gpu"@,
        "--enable-chrome-browser-cloud-management"@,
        "--enable-javascript"@,
        "--disable-blink-features=AutomationControlled"@,
        "--auto-accept-camera-and-microphone-capture"@,
        "--user-agent=Mozilla/5.0 (Windows NT 10.0; Win64; x64) AppleWebKit/537.36 (KHTML, like Gecko) Chrome/120.0.0.0 Safari/537.36 Edg/120.0.0.0"@,
        "--start-maximized"@,
        load_extension_text(dirs),
    ]
}

/// The argument that makes the browser load the extensions in `dirs`.
pub fn load_extension_argument(dirs: &Vec<String>) -> (r: String)
    ensures
        r@ == load_extension_text(dirs@),
{
    let mut list = String::new();
    let mut i: usize = 0;
    while i < dirs.len()
        invariant
            i <= dirs@.len(),
            list@ == joined_dirs(dirs@, i as int),
        decreases dirs@.len() - i,
    {
        if i > 0 {
            list.append(",");
        }
        list.append(dirs[i].as_str());
        i += 1;
    }
    let mut out = String::from_str("--load-extension=");
    out.append(list.as_str());
    out
}

/// The arguments with which the browser is started, in order.
pub fn chrome_arguments(dirs: &Vec<String>) -> (r: Vec<String>)
    ensures
        r.deep_view() == browser_arguments(dirs@),
{
    let mut out: Vec<String> = Vec::new();
    out.push(String::from_str("--ignore-ssl-errors=yes"));
    out.push(String::from_str("--ignore-certificate-errors"));
    out.push(String::from_str("--auto-select-tab-capture-source-by-title=about:blank"));
    out.push(String::from_str("--disable-gpu"));
    out.push(String::from_str("--enable-chrome-browser-cloud-management"));
    out.push(String::from_str("--enable-javascript"));
    out.push(String::from_str("--disable-blink-features=AutomationControlled"));
    out.push(String::from_str("--auto-accept-camera-and-microphone-capture"));
    out.push(
        String::from_str(
            "--user-agent=Mozilla/5.0 (Windows NT 10.0; Win64; x64) AppleWebKit/537.36 (KHTML, like Gecko) Chrome/120.0.0.0 Safari/537.36 Edg/120.0.0.0",
        ),
    );
    out.push(String::from_str("--start-maximized"));
    out.push(load_extension_argument(dirs));
    proof {
        assert(out.deep_view() =~= browser_arguments(dirs@));
    }
    out
}

} // verus!
