//! Starting the daemon: the paths and the command it is started with, reading its
//! startup message from its log, and the connection that message describes.
use vstd::prelude::*;

use crate::error::ErrorKind;
use crate::json::lookup;
use crate::responses::BStart;
use crate::text::{
    decimal, decimal_string, lemma_removed_char_absent, first_index_of, last_index_of, lines_of, replace_all, replaced,
    split_lines, trim, trimmed,
};

verus! {

/// The operating systems the itch app keeps its files on in different places.
#[derive(Debug, Clone, Copy, PartialEq, Eq)]
pub enum Platform {
    MacOs,
    Linux,
    Windows,
}

/// Where butler keeps its database, before `~` and `%APPDATA%` are filled in.
pub open spec fn db_path_template(p: Platform) -> Seq<char> {
    match p {
        Platform::MacOs => "~/Library/Application Support/itch/db/butler.db"@,
        Platform::Linux => "~/.config/itch/db/butler.db"@,
        Platform::Windows => "%APPDATA%/itch/db/butler.db"@,
    }
}

/// The start of the path of the daemon's log, before `%TEMP%` is filled in.
pub open spec fn log_path_prefix(p: Platform) -> Seq<char> {
    match p {
        Platform::MacOs => "/tmp/butlerdrs"@,
        Platform::Linux => "/tmp/butlerdrs"@,
        Platform::Windows => "%TEMP%/butlerdrs"@,
    }
}

/// Where the prerequisites of games are kept, before `~` and `%APPDATA%` are filled in.
pub open spec fn prereqs_path_template(p: Platform) -> Seq<char> {
    match p {
        Platform::MacOs => "~/Library/Application Support/itch/prereqs"@,
        Platform::Linux => "~/.config/itch/prereqs"@,
        Platform::Windows => "%APPDATA%/itch/db/butler.db"@,
    }
}

/// On macOS and Linux, butler's database and the prerequisites lie in one itch directory
/// under the home directory: the database at `db/butler.db` in it, the prerequisites at
/// `prereqs`; on macOS that directory is `~/Library/Application Support/itch`, on Linux
/// `~/.config/itch`.
pub proof fn lemma_itch_directory(p: Platform)
    ensures
        p == Platform::MacOs ==> db_path_template(p) == "~/Library/Application Support/itch"@
            + "/db/butler.db"@ && prereqs_path_template(p) == "~/Library/Application Support/itch"@
            + "/prereqs"@,
        p == Platform::Linux ==> db_path_template(p) == "~/.config/itch"@ + "/db/butler.db"@
            && prereqs_path_template(p) == "~/.config/itch"@ + "/prereqs"@,
        p == Platform::Windows ==> db_path_template(p) == "%APPDATA%"@ + "/itch/db/butler.db"@
            && prereqs_path_template(p) == db_path_template(p),
{
    reveal_strlit("~/Library/Application Support/itch/db/butler.db");
    reveal_strlit("~/Library/Application Support/itch/prereqs");
    reveal_strlit("~/Library/Application Support/itch");
    reveal_strlit("~/.config/itch/db/butler.db");
    reveal_strlit("~/.config/itch/prereqs");
    reveal_strlit("~/.config/itch");
    reveal_strlit("/db/butler.db");
    reveal_strlit("/prereqs");
    reveal_strlit("%APPDATA%/itch/db/butler.db");
    reveal_strlit("%APPDATA%");
    reveal_strlit("/itch/db/butler.db");
    assert("~/Library/Application Support/itch/db/butler.db"@ =~= "~/Library/Application Support/itch"@ + "/db/butler.db"@);
    assert("~/Library/Application Support/itch/prereqs"@ =~= "~/Library/Application Support/itch"@ + "/prereqs"@);
    assert("~/.config/itch/db/butler.db"@ =~= "~/.config/itch"@ + "/db/butler.db"@);
    assert("~/.config/itch/prereqs"@ =~= "~/.config/itch"@ + "/prereqs"@);
    assert("%APPDATA%/itch/db/butler.db"@ =~= "%APPDATA%"@ + "/itch/db/butler.db"@);
}

impl Platform {
    /// Where butler keeps its database, before `~` and `%APPDATA%` are filled in.
    pub fn db_path_template(self) -> (r: &'static str)
        ensures
            r@ == db_path_template(self),
            self == Platform::MacOs ==> r@ == "~/Library/Application Support/itch/db/butler.db"@,
            self == Platform::Linux ==> r@ == "~/.config/itch/db/butler.db"@,
            self == Platform::Windows ==> r@ == "%APPDATA%/itch/db/butler.db"@,
    {
        match self {
            Platform::MacOs => "~/Library/Application Support/itch/db/butler.db",
            Platform::Linux => "~/.config/itch/db/butler.db",
            Platform::Windows => "%APPDATA%/itch/db/butler.db",
        }
    }

    /// The start of the path of the daemon's log, before `%TEMP%` is filled in.
    pub fn log_path_prefix(self) -> (r: &'static str)
        ensures
            r@ == log_path_prefix(self),
            self == Platform::MacOs ==> r@ == "/tmp/butlerdrs"@,
            self == Platform::Linux ==> r@ == "/tmp/butlerdrs"@,
            self == Platform::Windows ==> r@ == "%TEMP%/butlerdrs"@,
    {
        match self {
            Platform::MacOs => "/tmp/butlerdrs",
            Platform::Linux => "/tmp/butlerdrs",
            Platform::Windows => "%TEMP%/butlerdrs",
        }
    }

    /// Where the prerequisites of games are kept, before `~` and `%APPDATA%` are filled in.
    pub fn prereqs_path_template(self) -> (r: &'static str)
        ensures
            r@ == prereqs_path_template(self),
            self == Platform::MacOs ==> r@ == "~/Library/Application Support/itch/prereqs"@,
            self == Platform::Linux ==> r@ == "~/.config/itch/prereqs"@,
            self == Platform::Windows ==> r@ == "%APPDATA%/itch/db/butler.db"@,
    {
        match self {
            Platform::MacOs => "~/Library/Application Support/itch/prereqs",
            Platform::Linux => "~/.config/itch/prereqs",
            Platform::Windows => "%APPDATA%/itch/db/butler.db",
        }
    }
}

/// `s` with `%APPDATA%` replaced by `appdata` when it is given.
pub open spec fn with_appdata(s: Seq<char>, appdata: Option<Seq<char>>) -> Seq<char> {
    match appdata {
        Some(a) => replaced(s, "%APPDATA%"@, a),
        None => s,
    }
}

/// The path of butler's database: the template with `~` replaced by the home directory,
/// then `%APPDATA%` by the `APPDATA` variable when it is set.
pub fn db_path(platform: Platform, home: &str, appdata: Option<&str>) -> (r: String)
    ensures
        r@ == with_appdata(
            replaced(db_path_template(platform), "~"@, home@),
            match appdata {
                Some(a) => Some(a@),
                None => None,
            },
        ),
{
    let db = replace_all(platform.db_path_template(), "~", home);
    match appdata {
        Some(a) => replace_all(db.as_str(), "%APPDATA%", a),
        None => db,
    }
}

/// The path of the daemon's log: the prefix with `%TEMP%` replaced by the `TEMP` variable
/// when it is set, then `nonce`, then ".log".
pub fn log_path(platform: Platform, temp: Option<&str>, nonce: &str) -> (r: String)
    ensures
        r@ == match temp {
            Some(t) => replaced(log_path_prefix(platform), "%TEMP%"@, t@),
            None => log_path_prefix(platform),
        } + nonce@ + ".log"@,
{
    let mut p = match temp {
        Some(t) => replace_all(platform.log_path_prefix(), "%TEMP%", t),
        None => String::from_str(platform.log_path_prefix()),
    };
    p.append(nonce);
    p.append(".log");
    p
}

/// The shell command that starts the daemon on the database `db`, tied to the process `pid`.
pub fn daemon_command(db: &str, pid: u32) -> (r: String)
    ensures
        r@ == "butler daemon --json --dbpath="@ + db@ + " --destiny-pid="@ + decimal(pid as nat),
{
    let mut c = String::from_str("butler daemon --json --dbpath=");
    c.append(db);
    c.append(" --destiny-pid=");
    let p = decimal_string(pid as u64);
    c.append(p.as_str());
    c
}

/// The first match of `\{(?:.|\s)+\}` in `t`: as `.` or `\s` matches every character,
/// it runs from the first '{' to the last '}' when at least one character lies between.
pub open spec fn braced_block(t: Seq<char>) -> Option<Seq<char>> {
    let i = first_index_of(t, '{');
    let j = last_index_of(t, '}');
    if i >= 0 && j >= i + 2 {
        Some(t.subrange(i, j + 1))
    } else {
        None
    }
}

/// `Regex::find` with the pattern `\{(?:.|\s)+\}`, as the daemon's log is searched for its
/// startup message: the leftmost match, and the longest from there.
#[verifier::external_body]
fn find_braced_block(text: &str) -> (r: Option<String>)
    ensures
        r matches Some(b) ==> braced_block(text@) == Some(b@),
        r is None ==> braced_block(text@) is None,
{
    let re = regex::Regex::new(r"\{(?:.|\s)+\}").unwrap();
    match re.find(text) {
        Some(m) => Some(m.as_str().to_string()),
        None => None,
    }
}

/// The startup message in the daemon's log, with its escaped quotes (`\"`) taken out, once
/// the log holds one.
pub fn startup_block(log: &str) -> (r: Option<String>)
    ensures
        r matches Some(b) ==> (braced_block(log@) matches Some(found) && b@ == replaced(
            found,
            "\\\""@,
            Seq::empty(),
        )),
        r is None ==> braced_block(log@) is None,
{
    proof {
        reveal_strlit("");
        assert(""@ =~= Seq::<char>::empty());
    }
    match find_braced_block(log) {
        Some(found) => Some(replace_all(found.as_str(), "\\\"", "")),
        None => None,
    }
}

/// What a look at the daemon's log gives: wait this many milliseconds and look again, or
/// the startup message.
#[derive(Debug)]
pub enum LogPoll {
    Wait(u64),
    Ready(String),
}

/// The next step of waiting for the daemon's startup message: the message, as
/// `startup_block` gives it, once the log holds one; else wait a quarter of a second.
pub fn poll_log(log: &str) -> (r: LogPoll)
    ensures
        braced_block(log@) is None ==> r == LogPoll::Wait(250),
        braced_block(log@) matches Some(found) ==> (r matches LogPoll::Ready(b) && b@ == replaced(
            found,
            "\\\""@,
            Seq::empty(),
        )),
{
    match startup_block(log) {
        Some(b) => LogPoll::Ready(b),
        None => LogPoll::Wait(250),
    }
}

/// The lines of the startup message, each trimmed, in which its JSON is looked for.
pub fn startup_lines(block: &str) -> (r: Vec<String>)
    ensures
        r@.len() == lines_of(block@).len(),
        forall|i: int| 0 <= i < r@.len() ==> r@[i]@ == trimmed(lines_of(block@)[i]),
{
    let lines = split_lines(block);
    let mut r: Vec<String> = Vec::new();
    let mut i: usize = 0;
    while i < lines.len()
        invariant
            lines@.len() == lines_of(block@).len(),
            forall|k: int| 0 <= k < lines@.len() ==> lines@[k]@ == lines_of(block@)[k],
            i <= lines@.len(),
            r@.len() == i,
            forall|k: int| 0 <= k < i ==> r@[k]@ == trimmed(lines_of(block@)[k]),
        decreases lines@.len() - i,
    {
        r.push(trim(lines[i].as_str()));
        i = i + 1;
    }
    r
}

/// The first message among these parses, if any.
pub open spec fn first_parsed(candidates: Seq<Option<BStart>>) -> Option<BStart>
    decreases candidates.len(),
{
    if candidates.len() == 0 {
        None
    } else if candidates[0] is Some {
        candidates[0]
    } else {
        first_parsed(candidates.skip(1))
    }
}

/// The first startup message among the lines' parses (`None` where a line did not parse),
/// or the start-up error when no line parsed.
pub fn first_start(candidates: Vec<Option<BStart>>) -> (r: Result<BStart, ErrorKind>)
    ensures
        r matches Ok(b) ==> exists|i: int|
            0 <= i < candidates@.len() && candidates@[i] == Some(b) && forall|j: int|
                0 <= j < i ==> candidates@[j] is None,
        r is Err ==> forall|i: int| 0 <= i < candidates@.len() ==> candidates@[i] is None,
        r matches Err(e) ==> e matches ErrorKind::StartUpError(m) && m@
            == "Couldn't get butler startup"@,
        r matches Ok(b) ==> first_parsed(candidates@) == Some(b),
        r is Err <==> first_parsed(candidates@) is None,
{
    let mut rest = candidates;
    let ghost mut k: int = 0;
    assert(candidates@.skip(0) =~= candidates@);
    while rest.len() > 0
        invariant
            0 <= k <= candidates@.len(),
            rest@ == candidates@.skip(k),
            forall|j: int| 0 <= j < k ==> candidates@[j] is None,
            first_parsed(rest@) == first_parsed(candidates@),
        decreases rest@.len(),
    {
        let ghost before = rest@;
        let c = rest.remove(0);
        assert(candidates@[k] == c);
        match c {
            Some(b) => {
                return Ok(b);
            },
            None => {
                proof {
                    assert(rest@ =~= candidates@.skip(k + 1));
                    assert(before.skip(1) =~= rest@);
                    k = k + 1;
                }
            },
        }
    }
    Err(ErrorKind::StartUpError(String::from_str("Couldn't get butler startup")))
}

/// What a client needs to talk to a running daemon.
#[derive(Debug)]
pub struct Connection {
    /// The secret every request carries.
    pub secret: String,
    /// The daemon's HTTP address, as host and port.
    pub address: String,
    /// Where game prerequisites are installed.
    pub pre_dir: String,
}

/// The prerequisites directory: the template with `%APPDATA%` replaced by the `APPDATA`
/// variable when it is set, then `~` by the home directory.
pub open spec fn pre_dir_of(platform: Platform, appdata: Option<Seq<char>>, home: Seq<char>) -> Seq<char> {
    replaced(with_appdata(prereqs_path_template(platform), appdata), "~"@, home)
}

impl Connection {
    /// The connection a startup message describes: its secret, its HTTP address (the
    /// JSON text of `http.address` without quotes), and the prerequisites directory.
    pub fn from_start(pmeta: BStart, platform: Platform, appdata: Option<&str>, home: &str) -> (r:
        Connection)
        requires
            lookup(pmeta.http@, "address"@) is Some,
        ensures
            r.secret@ == pmeta.secret@,
            r.address@ == replaced(lookup(pmeta.http@, "address"@)->0, "\""@, Seq::empty()),
            !r.address@.contains('"'),
            r.pre_dir@ == pre_dir_of(
                platform,
                match appdata {
                    Some(a) => Some(a@),
                    None => None,
                },
                home@,
            ),
    {
        let pre = match appdata {
            Some(a) => replace_all(platform.prereqs_path_template(), "%APPDATA%", a),
            None => String::from_str(platform.prereqs_path_template()),
        };
        let pre_dir = replace_all(pre.as_str(), "~", home);
        proof {
            reveal_strlit("");
            assert(""@ =~= Seq::<char>::empty());
        }
        let address = match pmeta.http.get("address") {
            Some(text) => {
                proof {
                    reveal_strlit("\"");
                    assert("\""@ =~= seq!['"']);
                    lemma_removed_char_absent(text@, '"');
                }
                replace_all(text.as_str(), "\"", "")
            },
            None => {
                proof {
                    assert(false);
                }
                String::new()
            },
        };
        Connection { secret: pmeta.secret, address, pre_dir }
    }

    /// The connection that the first line of the startup message that parsed describes
    /// (`candidates` holds the parse of each line, `None` where it did not parse), or the
    /// start-up error when no line parsed.
    pub fn connect(candidates: Vec<Option<BStart>>, platform: Platform, appdata: Option<&str>, home: &str) -> (r:
        Result<Connection, ErrorKind>)
        requires
            first_parsed(candidates@) matches Some(b) ==> lookup(b.http@, "address"@) is Some,
        ensures
            first_parsed(candidates@) is None ==> (r matches Err(ErrorKind::StartUpError(m)) && m@
                == "Couldn't get butler startup"@),
            first_parsed(candidates@) matches Some(b) ==> (r matches Ok(c) && c.secret@ == b.secret@
                && c.address@ == replaced(lookup(b.http@, "address"@)->0, "\""@, Seq::empty())
                && c.pre_dir@ == pre_dir_of(
                platform,
                match appdata {
                    Some(a) => Some(a@),
                    None => None,
                },
                home@,
            )),
    {
        match first_start(candidates) {
            Ok(b) => Ok(Connection::from_start(b, platform, appdata, home)),
            Err(e) => Err(e),
        }
    }

    /// The URL of `path` on the daemon.
    pub fn url(&self, path: &str) -> (r: String)
        ensures
            r@ == "http://"@ + self.address@ + path@,
    {
        let mut u = String::from_str("http://");
        u.append(self.address.as_str());
        u.append(path);
        u
    }

    /// The headers every request carries: the secret, and the request id 0.
    pub fn headers(&self) -> (r: Vec<(String, String)>)
        ensures
            r@.len() == 2,
            r@[0].0@ == "X-Secret"@,
            r@[0].1@ == self.secret@,
            r@[1].0@ == "X-ID"@,
            r@[1].1@ == "0"@,
    {
        let mut h: Vec<(String, String)> = Vec::new();
        h.push((String::from_str("X-Secret"), self.secret.clone()));
        h.push((String::from_str("X-ID"), String::from_str("0")));
        h
    }
}

} // verus!
