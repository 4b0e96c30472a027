//! What butlerd answers to specific queries. These values are handed back by the
//! library's calls for the caller to use.
#![allow(non_camel_case_types)]

use vstd::prelude::*;

use crate::json::JsonObject;
use crate::text::str_eq;

verus! {

/// What butlerd prints at startup: its secret and the addresses it listens on.
/// `http` and `https` map each key to the JSON text of its value.
pub struct BStart {
    pub secret: String,
    pub http: JsonObject,
    pub https: JsonObject,
}

/// Game information.
#[derive(Debug, PartialEq, Eq)]
pub struct Game {
    pub id: i32,
    pub url: String,
    pub title: String,
    pub short_text: String,
    pub cover_url: String,
    pub still_cover_url: String,
    pub dates: Dates,
    pub min_price: i32,
    pub can_be_bought: bool,
    pub has_demo: bool,
    pub in_press_system: bool,
    pub user: Option<User>,
    pub sale: Option<Sale>,
    pub user_id: Option<i32>,
    pub views_count: Option<i32>,
    pub downloads_count: Option<i32>,
    pub purchases_count: Option<i32>,
    pub published: Option<bool>,
}

/// A Game that the logged-in user's profile owns.
#[derive(Debug, PartialEq, Eq)]
pub struct ProfileGame {
    pub game: Game,
    pub views_count: i32,
    pub downloads_count: i32,
    pub purchases_count: i32,
    pub published: bool,
}

/// A Profile gives more information about a user through its id, but requires login.
#[derive(Debug, PartialEq, Eq)]
pub struct Profile {
    pub id: i32,
    pub last_connected: String,
    pub user: User,
}

/// A downloadable file. Has a build only if the game is wharf-enabled.
#[derive(Debug, PartialEq, Eq)]
pub struct Upload {
    pub id: i32,
    pub storage: String,
    pub host: String,
    pub filename: String,
    pub display_name: String,
    pub size: i32,
    pub channel_name: String,
    pub build_id: i32,
    pub preorder: bool,
    pub demo: bool,
    pub dates: Dates,
    pub platforms: Platforms,
}

/// Whether an upload with these platforms supports the OS named `os`
/// ("windows", "osx" or "linux"; any other name is not supported).
pub open spec fn supports_os(platforms: Platforms, os: Seq<char>) -> bool {
    ||| os == "windows"@ && platforms.windows_archs() is Some
    ||| os == "osx"@ && platforms.osx_archs() is Some
    ||| os == "linux"@ && platforms.linux_archs() is Some
}

/// Each of the three OS names is supported exactly when the upload has architectures for
/// that OS, and no other name is supported.
pub proof fn lemma_supports_each_os(platforms: Platforms, os: Seq<char>)
    ensures
        supports_os(platforms, "windows"@) == (platforms.windows_archs() is Some),
        supports_os(platforms, "osx"@) == (platforms.osx_archs() is Some),
        supports_os(platforms, "linux"@) == (platforms.linux_archs() is Some),
        os != "windows"@ && os != "osx"@ && os != "linux"@ ==> !supports_os(platforms, os),
{
    reveal_strlit("windows");
    reveal_strlit("osx");
    reveal_strlit("linux");
    assert("windows"@.len() == 7);
    assert("osx"@.len() == 3);
    assert("linux"@.len() == 5);
}

impl Upload {
    /// Given a str representing an OS, checks if an upload supports it.
    /// Possible: windows, linux, osx.
    pub fn supports(&self, os: &str) -> (r: bool)
        ensures
            r == supports_os(self.platforms, os@),
            os@ == "windows"@ ==> r == (self.platforms.windows_archs() is Some),
            os@ == "osx"@ ==> r == (self.platforms.osx_archs() is Some),
            os@ == "linux"@ ==> r == (self.platforms.linux_archs() is Some),
            os@ != "windows"@ && os@ != "osx"@ && os@ != "linux"@ ==> !r,
    {
        proof {
            reveal_strlit("windows");
            reveal_strlit("osx");
            reveal_strlit("linux");
            assert("windows"@.len() == 7);
            assert("osx"@.len() == 3);
            assert("linux"@.len() == 5);
            lemma_supports_each_os(self.platforms, os@);
        }
        if str_eq(os, "windows") {
            self.platforms.windows.is_some()
        } else if str_eq(os, "osx") {
            self.platforms.osx.is_some()
        } else if str_eq(os, "linux") {
            self.platforms.linux.is_some()
        } else {
            false
        }
    }
}

/// The architectures that an Upload supports.
#[derive(Debug, Clone, Copy, PartialEq, Eq)]
pub enum Archs {
    All,
    i386,
    Amd64,
}

/// The platforms an Upload is compatible with.
#[derive(Debug, Clone, Copy, PartialEq, Eq)]
pub struct Platforms {
    windows: Option<Archs>,
    osx: Option<Archs>,
    linux: Option<Archs>,
}

impl Platforms {
    /// The architectures supported on Windows, if any.
    pub closed spec fn windows_archs(self) -> Option<Archs> {
        self.windows
    }

    /// The architectures supported on macOS, if any.
    pub closed spec fn osx_archs(self) -> Option<Archs> {
        self.osx
    }

    /// The architectures supported on Linux, if any.
    pub closed spec fn linux_archs(self) -> Option<Archs> {
        self.linux
    }

    /// Platforms with these architectures for Windows, macOS and Linux.
    pub fn new(windows: Option<Archs>, osx: Option<Archs>, linux: Option<Archs>) -> (r: Platforms)
        ensures
            r.windows_archs() == windows,
            r.osx_archs() == osx,
            r.linux_archs() == linux,
    {
        Platforms { windows, osx, linux }
    }

    /// The architectures supported on Windows, if any.
    pub fn windows(&self) -> (r: Option<Archs>)
        ensures
            r == self.windows_archs(),
    {
        self.windows
    }

    /// The architectures supported on macOS, if any.
    pub fn osx(&self) -> (r: Option<Archs>)
        ensures
            r == self.osx_archs(),
    {
        self.osx
    }

    /// The architectures supported on Linux, if any.
    pub fn linux(&self) -> (r: Option<Archs>)
        ensures
            r == self.linux_archs(),
    {
        self.linux
    }
}

/// An itch user's basic public info.
#[derive(Debug, PartialEq, Eq)]
pub struct User {
    pub id: i32,
    pub username: String,
    pub display_name: String,
    /// Whether or not the user is a developer.
    pub developer: bool,
    pub press_user: bool,
    pub url: String,
    pub cover_url: String,
    pub still_cover_url: String,
}

/// A specific build of a Game. Game must be wharf-enabled.
#[derive(Debug, PartialEq, Eq)]
pub struct Build {
    pub id: i32,
    pub parent_build_id: i32,
    pub state: String,
    /// The version of the Game.
    pub version: i32,
    pub user_version: String,
    /// The user that published the Build.
    pub user: Option<User>,
    pub dates: Dates,
}

/// A Cave holds a Game and associated info.
#[derive(Debug, PartialEq, Eq)]
pub struct Cave {
    pub id: String,
    /// The game this cave is associated with.
    pub game: Game,
    pub upload: Upload,
}

/// The base Response struct.
#[derive(Debug, PartialEq, Eq)]
pub struct Response {
    pub id: i32,
    /// The version of JSONRPC that butlerd is using.
    pub jsonrpc: String,
}

/// The base struct for publish/update dates.
#[derive(Debug, PartialEq, Eq)]
pub struct Dates {
    pub created_at: String,
    pub updated_at: String,
}

/// The base struct for responses with errors.
#[derive(Debug, PartialEq, Eq)]
pub struct ResponseErr {
    pub response: Response,
    pub error: BError,
}

/// The base struct for responses with results; `result` maps each key to the JSON
/// text of its value.
pub struct ResponseRes {
    pub response: Response,
    pub result: JsonObject,
}

/// A sale on a given Game.
#[derive(Debug, PartialEq, Eq)]
pub struct Sale {
    pub id: i32,
    pub game_id: i32,
    /// Can be negative due to reverse sales.
    pub rate: i32,
    pub start_date: String,
    pub end_date: String,
}

/// Info on a game install location.
#[derive(Debug, PartialEq, Eq)]
pub struct InstallLocationSummary {
    pub id: String,
    pub path: String,
    pub size_info: InstallLocationSizeInfo,
}

/// Info on storage usage for an install location.
#[derive(Debug, Clone, Copy, PartialEq, Eq)]
pub struct InstallLocationSizeInfo {
    /// Number of bytes used by currently installed games.
    pub installed_size: i64,
    /// Negative if unknown.
    pub free_size: i64,
    /// Negative if unknown.
    pub total_size: i64,
}

/// The reason you gave to download a game.
#[derive(Debug, Clone, Copy, PartialEq, Eq)]
pub enum DownloadReason {
    Install,
    Reinstall,
    Update,
    VersionSwitch,
}

/// The name butlerd uses for a download reason.
pub open spec fn reason_text(r: DownloadReason) -> Seq<char> {
    match r {
        DownloadReason::Install => "install"@,
        DownloadReason::Reinstall => "reinstall"@,
        DownloadReason::Update => "update"@,
        DownloadReason::VersionSwitch => "version-switch"@,
    }
}

/// Different download reasons have different names.
pub proof fn lemma_reason_text_injective(a: DownloadReason, b: DownloadReason)
    ensures
        reason_text(a) == reason_text(b) ==> a == b,
{
    reveal_strlit("install");
    reveal_strlit("reinstall");
    reveal_strlit("update");
    reveal_strlit("version-switch");
    if reason_text(a) == reason_text(b) && a != b {
        assert(reason_text(a).len() == reason_text(b).len());
        if a is Install || b is Install {
            assert(reason_text(a)[0] == reason_text(b)[0]);
        }
    }
}

/// Translates a DownloadReason into the string the butler API uses for it.
pub fn dr_str(r: DownloadReason) -> (s: String)
    ensures
        s@ == reason_text(r),
{
    match r {
        DownloadReason::Install => String::from_str("install"),
        DownloadReason::Reinstall => String::from_str("reinstall"),
        DownloadReason::Update => String::from_str("update"),
        DownloadReason::VersionSwitch => String::from_str("version-switch"),
    }
}

/// The response from queueing a game to be downloaded.
#[derive(Debug, PartialEq, Eq)]
pub struct QueueResponse {
    pub id: String,
    pub reason: DownloadReason,
    pub cave_id: String,
    pub game: Game,
    pub upload: Upload,
    pub build: Build,
    pub install_folder: String,
    pub staging_folder: String,
    pub install_location_id: String,
}

/// The request to queue up a game installation.
#[derive(Debug, PartialEq, Eq)]
pub struct InstallQueueReq {
    pub install_location_id: String,
    pub reason: String,
    pub game: Game,
    pub upload: Upload,
}

/// A download from the download queue.
#[derive(Debug, PartialEq, Eq)]
pub struct Download {
    pub id: String,
    pub error: Option<String>,
    pub error_message: Option<String>,
    pub error_code: Option<String>,
    pub reason: DownloadReason,
    pub position: i32,
    pub cave_id: String,
    pub game: Game,
    pub upload: Upload,
    pub build: Option<Build>,
    pub started_at: String,
    pub finished_at: Option<String>,
    pub staging_folder: String,
}

/// Butler daemon version info.
#[derive(Debug, PartialEq, Eq)]
pub struct VersionInfo {
    pub version: String,
    /// More verbose version.
    pub version_string: String,
}

/// Butler's response when you log in using a username and password; `cookie` maps
/// each key to the JSON text of its value.
pub struct PassLogRes {
    pub profile: Profile,
    pub cookie: JsonObject,
}

/// Representation of a download key for a purchased non-free game.
#[derive(Debug, PartialEq, Eq)]
pub struct DownloadKey {
    pub id: i64,
    pub game_id: i32,
    pub game: Game,
    pub owner_id: i64,
    pub dates: Dates,
}

/// Returned from fetch_commons. Most of butler's cached info.
#[derive(Debug, PartialEq, Eq)]
pub struct Commons {
    pub download_keys: Vec<DownloadKeySummary>,
    pub caves: Vec<CaveSummary>,
    pub install_locations: Vec<InstallLocationSummary>,
}

/// Summary of a DownloadKey, but not an actual DownloadKey.
#[derive(Debug, PartialEq, Eq)]
pub struct DownloadKeySummary {
    pub id: i64,
    pub game_id: i32,
    pub created_at: String,
}

/// Summary of a cave's info.
#[derive(Debug, PartialEq, Eq)]
pub struct CaveSummary {
    pub id: String,
    pub game_id: i32,
    pub last_touched_at: Option<String>,
    pub seconds_run: i32,
    pub installed_size: i64,
}

/// Info on a game collection.
#[derive(Debug, PartialEq, Eq)]
pub struct Collection {
    pub id: i32,
    pub title: String,
    pub dates: Dates,
    pub games_count: i32,
    /// Presence depends on whether fetched with fetch_collection or fetch_collection_games.
    pub collection_games: Option<Vec<CollectionGame>>,
    pub user_id: i32,
    pub user: User,
}

/// Info on a game within a game collection.
#[derive(Debug, PartialEq, Eq)]
pub struct CollectionGame {
    pub collection_id: i32,
    pub collection: Collection,
    pub game_id: i32,
    pub game: Game,
    pub position: i32,
    pub blurb: String,
    pub user_id: i32,
    pub dates: Dates,
}

/// Information on a filesystem. Returned by statfs.
#[derive(Debug, Clone, Copy, PartialEq, Eq)]
pub struct FsInfo {
    pub free_size: i64,
    pub total_size: i64,
}

/// Describes a directory that butler could clean up.
#[derive(Debug, PartialEq, Eq)]
pub struct CleanDownloadsEntry {
    pub path: String,
    pub size: i64,
}

/// A generic error struct. If the code is -1 or -2, it was a problem on this crate's
/// side. Otherwise, butler returned this in response to a request.
#[derive(Debug, PartialEq, Eq)]
pub struct BError {
    pub code: i64,
    pub message: String,
}

} // verus!
