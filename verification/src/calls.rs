//! The calls of butlerd's API: for each, the path, the JSON body and what is taken from
//! the answer. Where a body is built from fixed parameters, its members stand in the order
//! in which serde_json writes the members of an object: by key. The login with a username
//! and password, whose members butler reads in any order, names the username first.
use vstd::prelude::*;

use crate::json::{
    joined, lemma_quoted_reads_back, member_text, read_string,
    array_text, json_array,
    bool_text, json_bool, json_int, json_quoted, json_str, json_string_array,
    object_text, string_array_text, JsonObject,
};
use crate::rpc::{reply_field, Channel, Reply, Request};
use crate::responses::{dr_str, reason_text, CleanDownloadsEntry, DownloadReason, Game, InstallQueueReq, Upload};
use crate::text::int_text;

verus! {

/// Shuts down the butler daemon.
pub fn close() -> (r: Request)
    ensures
        r.path@ == "/call/Meta.Shutdown"@,
        r.body@ == object_text(Seq::empty()),
        r.channel == Channel::Standard,
        r.reply == Reply::Ignore,
{
    let params = JsonObject::new();
    proof {
        assert(params@ =~= Seq::<(Seq<char>, Seq<char>)>::empty());
    }
    Request::new("/call/Meta.Shutdown", params, Channel::Standard, Reply::Ignore)
}

/// Fetches all installed caves (member `items`).
pub fn fetchall() -> (r: Request)
    ensures
        r.path@ == "/call/Fetch.Caves"@,
        r.body@ == object_text(Seq::empty()),
        r.channel == Channel::Standard,
        reply_field(r.reply, "items"@),
{
    let params = JsonObject::new();
    proof {
        assert(params@ =~= Seq::<(Seq<char>, Seq<char>)>::empty());
    }
    Request::new("/call/Fetch.Caves", params, Channel::Standard, Reply::field("items"))
}

/// Fetches a specific game by id (member `game`).
pub fn fetch_game(game_id: i32) -> (r: Request)
    ensures
        r.path@ == "/call/Fetch.Game"@,
        r.body@ == object_text(seq![("gameId"@, int_text(game_id as int))]),
        r.channel == Channel::Standard,
        reply_field(r.reply, "game"@),
{
    let mut params = JsonObject::new();
    params.push("gameId", json_int(game_id as i64));
    proof {
        assert(params@ =~= seq![("gameId"@, int_text(game_id as int))]);
    }
    Request::new("/call/Fetch.Game", params, Channel::Standard, Reply::field("game"))
}

/// Fetches a specific cave by id (member `cave`).
pub fn fetch_cave(cave_id: &str) -> (r: Request)
    ensures
        r.path@ == "/call/Fetch.Cave"@,
        r.body@ == object_text(seq![("caveId"@, json_quoted(cave_id@))]),
        r.channel == Channel::Standard,
        reply_field(r.reply, "cave"@),
{
    let mut params = JsonObject::new();
    params.push("caveId", json_str(cave_id));
    proof {
        assert(params@ =~= seq![("caveId"@, json_quoted(cave_id@))]);
    }
    Request::new("/call/Fetch.Cave", params, Channel::Standard, Reply::field("cave"))
}

/// Makes a cave 'pinned' or not depending on `pinned`.
pub fn pin_cave(cave_id: &str, pinned: bool) -> (r: Request)
    ensures
        r.path@ == "/call/Caves.SetPinned"@,
        r.body@ == object_text(seq![("caveId"@, json_quoted(cave_id@)), ("pinned"@, bool_text(pinned))]),
        r.channel == Channel::Standard,
        r.reply == Reply::Ignore,
{
    let mut params = JsonObject::new();
    params.push("caveId", json_str(cave_id));
    params.push("pinned", json_bool(pinned));
    proof {
        assert(params@ =~= seq![("caveId"@, json_quoted(cave_id@)), ("pinned"@, bool_text(pinned))]);
    }
    Request::new("/call/Caves.SetPinned", params, Channel::Standard, Reply::Ignore)
}

/// Launches a game by cave id; the answer comes when the game is closed.
pub fn launch_game(cave_id: &str, prereqs_dir: &str) -> (r: Request)
    ensures
        r.path@ == "/call/Launch"@,
        r.body@ == object_text(seq![("caveId"@, json_quoted(cave_id@)), ("prereqsDir"@, json_quoted(prereqs_dir@))]),
        r.channel == Channel::Launch,
        r.reply == Reply::Ignore,
{
    let mut params = JsonObject::new();
    params.push("caveId", json_str(cave_id));
    params.push("prereqsDir", json_str(prereqs_dir));
    proof {
        assert(params@ =~= seq![("caveId"@, json_quoted(cave_id@)), ("prereqsDir"@, json_quoted(prereqs_dir@))]);
    }
    Request::new("/call/Launch", params, Channel::Launch, Reply::Ignore)
}

/// Lists saved profiles (member `profiles`).
pub fn profile_list() -> (r: Request)
    ensures
        r.path@ == "/call/Profile.List"@,
        r.body@ == object_text(Seq::empty()),
        r.channel == Channel::Standard,
        reply_field(r.reply, "profiles"@),
{
    let params = JsonObject::new();
    proof {
        assert(params@ =~= Seq::<(Seq<char>, Seq<char>)>::empty());
    }
    Request::new("/call/Profile.List", params, Channel::Standard, Reply::field("profiles"))
}

/// Sets a specific profile info value.
pub fn profile_put(profile_id: i32, key: &str, value: &str) -> (r: Request)
    ensures
        r.path@ == "/call/Profile.Data.Put"@,
        r.body@ == object_text(seq![("key"@, json_quoted(key@)), ("profileId"@, int_text(profile_id as int)), ("value"@, json_quoted(value@))]),
        r.channel == Channel::Standard,
        r.reply == Reply::Ignore,
{
    let mut params = JsonObject::new();
    params.push("key", json_str(key));
    params.push("profileId", json_int(profile_id as i64));
    params.push("value", json_str(value));
    proof {
        assert(params@ =~= seq![("key"@, json_quoted(key@)), ("profileId"@, int_text(profile_id as int)), ("value"@, json_quoted(value@))]);
    }
    Request::new("/call/Profile.Data.Put", params, Channel::Standard, Reply::Ignore)
}

/// Searches for folders possible to clean (member `entries`).
pub fn clean_search(roots: &Vec<String>, whitelist: &Vec<String>) -> (r: Request)
    ensures
        r.path@ == "/call/CleanDownloads.Search"@,
        r.body@ == object_text(seq![("roots"@, string_array_text(roots@.map_values(|s: String| s@))), ("whitelist"@, string_array_text(whitelist@.map_values(|s: String| s@)))]),
        r.channel == Channel::Standard,
        reply_field(r.reply, "entries"@),
{
    let mut params = JsonObject::new();
    params.push("roots", json_string_array(roots));
    params.push("whitelist", json_string_array(whitelist));
    proof {
        assert(params@ =~= seq![("roots"@, string_array_text(roots@.map_values(|s: String| s@))), ("whitelist"@, string_array_text(whitelist@.map_values(|s: String| s@)))]);
    }
    Request::new("/call/CleanDownloads.Search", params, Channel::Standard, Reply::field("entries"))
}

/// Gets a specific profile info value (member `value`).
pub fn profile_get(profile_id: i32, key: &str) -> (r: Request)
    ensures
        r.path@ == "/call/Profile.Data.Get"@,
        r.body@ == object_text(seq![("key"@, json_quoted(key@)), ("profileId"@, int_text(profile_id as int))]),
        r.channel == Channel::Standard,
        reply_field(r.reply, "value"@),
{
    let mut params = JsonObject::new();
    params.push("key", json_str(key));
    params.push("profileId", json_int(profile_id as i64));
    proof {
        assert(params@ =~= seq![("key"@, json_quoted(key@)), ("profileId"@, int_text(profile_id as int))]);
    }
    Request::new("/call/Profile.Data.Get", params, Channel::Standard, Reply::field("value"))
}

/// Removes a profile's saved info (member `success`).
pub fn profile_forget(profile_id: i32) -> (r: Request)
    ensures
        r.path@ == "/call/Profile.Forget"@,
        r.body@ == object_text(seq![("profileId"@, int_text(profile_id as int))]),
        r.channel == Channel::Standard,
        reply_field(r.reply, "success"@),
{
    let mut params = JsonObject::new();
    params.push("profileId", json_int(profile_id as i64));
    proof {
        assert(params@ =~= seq![("profileId"@, int_text(profile_id as int))]);
    }
    Request::new("/call/Profile.Forget", params, Channel::Standard, Reply::field("success"))
}

/// Disables updates for a cave.
pub fn snooze_cave(cave_id: &str) -> (r: Request)
    ensures
        r.path@ == "/call/Snooze.Cave"@,
        r.body@ == object_text(seq![("caveId"@, json_quoted(cave_id@))]),
        r.channel == Channel::Standard,
        r.reply == Reply::Ignore,
{
    let mut params = JsonObject::new();
    params.push("caveId", json_str(cave_id));
    proof {
        assert(params@ =~= seq![("caveId"@, json_quoted(cave_id@))]);
    }
    Request::new("/call/Snooze.Cave", params, Channel::Standard, Reply::Ignore)
}

/// Logs into a profile using saved credentials (member `profile`).
pub fn login_saved(profile_id: i32) -> (r: Request)
    ensures
        r.path@ == "/call/Profile.UseSavedLogin"@,
        r.body@ == object_text(seq![("profileId"@, int_text(profile_id as int))]),
        r.channel == Channel::Standard,
        reply_field(r.reply, "profile"@),
{
    let mut params = JsonObject::new();
    params.push("profileId", json_int(profile_id as i64));
    proof {
        assert(params@ =~= seq![("profileId"@, int_text(profile_id as int))]);
    }
    Request::new("/call/Profile.UseSavedLogin", params, Channel::Standard, Reply::field("profile"))
}

/// Logs into a profile with an API key (member `profile`).
pub fn login_api_key(api_key: &str) -> (r: Request)
    ensures
        r.path@ == "/call/Profile.LoginWithAPIKey"@,
        r.body@ == object_text(seq![("apiKey"@, json_quoted(api_key@))]),
        r.channel == Channel::Standard,
        reply_field(r.reply, "profile"@),
{
    let mut params = JsonObject::new();
    params.push("apiKey", json_str(api_key));
    proof {
        assert(params@ =~= seq![("apiKey"@, json_quoted(api_key@))]);
    }
    Request::new("/call/Profile.LoginWithAPIKey", params, Channel::Standard, Reply::field("profile"))
}

/// Logs into a profile with a username and password (the whole result).
pub fn login_password(username: &str, password: &str) -> (r: Request)
    ensures
        r.path@ == "/call/Profile.LoginWithPassword"@,
        r.body@ == object_text(seq![("username"@, json_quoted(username@)), ("password"@, json_quoted(password@))]),
        r.channel == Channel::Standard,
        r.reply == Reply::Whole,
{
    let mut params = JsonObject::new();
    params.push("username", json_str(username));
    params.push("password", json_str(password));
    proof {
        assert(params@ =~= seq![("username"@, json_quoted(username@)), ("password"@, json_quoted(password@))]);
    }
    Request::new("/call/Profile.LoginWithPassword", params, Channel::Standard, Reply::Whole)
}

/// Fetches all common/cached items and returns summaries (the whole result).
pub fn fetch_commons() -> (r: Request)
    ensures
        r.path@ == "/call/Fetch.Commons"@,
        r.body@ == object_text(Seq::empty()),
        r.channel == Channel::Standard,
        r.reply == Reply::Whole,
{
    let params = JsonObject::new();
    proof {
        assert(params@ =~= Seq::<(Seq<char>, Seq<char>)>::empty());
    }
    Request::new("/call/Fetch.Commons", params, Channel::Standard, Reply::Whole)
}

/// Fetches the games owned by a profile (member `items`).
pub fn fetch_profile_games(profile_id: i32) -> (r: Request)
    ensures
        r.path@ == "/call/Fetch.ProfileGames"@,
        r.body@ == object_text(seq![("profileId"@, int_text(profile_id as int))]),
        r.channel == Channel::Standard,
        reply_field(r.reply, "items"@),
{
    let mut params = JsonObject::new();
    params.push("profileId", json_int(profile_id as i64));
    proof {
        assert(params@ =~= seq![("profileId"@, int_text(profile_id as int))]);
    }
    Request::new("/call/Fetch.ProfileGames", params, Channel::Standard, Reply::field("items"))
}

/// Fetches a download key (member `downloadKey`).
pub fn fetch_download_key(profile_id: i32, download_key_id: i32, fresh: bool) -> (r: Request)
    ensures
        r.path@ == "/call/Fetch.DownloadKey"@,
        r.body@ == object_text(seq![("downloadKeyId"@, int_text(download_key_id as int)), ("fresh"@, bool_text(fresh)), ("profileId"@, int_text(profile_id as int))]),
        r.channel == Channel::Standard,
        reply_field(r.reply, "downloadKey"@),
{
    let mut params = JsonObject::new();
    params.push("downloadKeyId", json_int(download_key_id as i64));
    params.push("fresh", json_bool(fresh));
    params.push("profileId", json_int(profile_id as i64));
    proof {
        assert(params@ =~= seq![("downloadKeyId"@, int_text(download_key_id as int)), ("fresh"@, bool_text(fresh)), ("profileId"@, int_text(profile_id as int))]);
    }
    Request::new("/call/Fetch.DownloadKey", params, Channel::Standard, Reply::field("downloadKey"))
}

/// Fetches collection info, without its games (member `collection`).
pub fn fetch_collection(profile_id: i32, collection_id: i32, fresh: bool) -> (r: Request)
    ensures
        r.path@ == "/call/Fetch.Collection"@,
        r.body@ == object_text(seq![("collectionId"@, int_text(collection_id as int)), ("fresh"@, bool_text(fresh)), ("profileId"@, int_text(profile_id as int))]),
        r.channel == Channel::Standard,
        reply_field(r.reply, "collection"@),
{
    let mut params = JsonObject::new();
    params.push("collectionId", json_int(collection_id as i64));
    params.push("fresh", json_bool(fresh));
    params.push("profileId", json_int(profile_id as i64));
    proof {
        assert(params@ =~= seq![("collectionId"@, int_text(collection_id as int)), ("fresh"@, bool_text(fresh)), ("profileId"@, int_text(profile_id as int))]);
    }
    Request::new("/call/Fetch.Collection", params, Channel::Standard, Reply::field("collection"))
}

/// Fetches all collections of a profile, without their games (member `items`).
pub fn fetch_profile_collections(profile_id: i32, fresh: bool) -> (r: Request)
    ensures
        r.path@ == "/call/Fetch.ProfileCollections"@,
        r.body@ == object_text(seq![("fresh"@, bool_text(fresh)), ("profileId"@, int_text(profile_id as int))]),
        r.channel == Channel::Standard,
        reply_field(r.reply, "items"@),
{
    let mut params = JsonObject::new();
    params.push("fresh", json_bool(fresh));
    params.push("profileId", json_int(profile_id as i64));
    proof {
        assert(params@ =~= seq![("fresh"@, bool_text(fresh)), ("profileId"@, int_text(profile_id as int))]);
    }
    Request::new("/call/Fetch.ProfileCollections", params, Channel::Standard, Reply::field("items"))
}

/// Fetches the games in a collection (member `items`).
pub fn fetch_collection_games(profile_id: i32, collection_id: i32, fresh: bool) -> (r: Request)
    ensures
        r.path@ == "/call/Fetch.Collection.Games"@,
        r.body@ == object_text(seq![("collectionId"@, int_text(collection_id as int)), ("fresh"@, bool_text(fresh)), ("profileId"@, int_text(profile_id as int))]),
        r.channel == Channel::Standard,
        reply_field(r.reply, "items"@),
{
    let mut params = JsonObject::new();
    params.push("collectionId", json_int(collection_id as i64));
    params.push("fresh", json_bool(fresh));
    params.push("profileId", json_int(profile_id as i64));
    proof {
        assert(params@ =~= seq![("collectionId"@, int_text(collection_id as int)), ("fresh"@, bool_text(fresh)), ("profileId"@, int_text(profile_id as int))]);
    }
    Request::new("/call/Fetch.Collection.Games", params, Channel::Standard, Reply::field("items"))
}

/// Fetches the download keys a profile owns; `fresh` forces a refresh of butler's cache (member `items`).
pub fn fetch_profile_keys(profile_id: i32, fresh: bool) -> (r: Request)
    ensures
        r.path@ == "/call/Fetch.ProfileOwnedKeys"@,
        r.body@ == object_text(seq![("fresh"@, bool_text(fresh)), ("profileId"@, int_text(profile_id as int))]),
        r.channel == Channel::Standard,
        reply_field(r.reply, "items"@),
{
    let mut params = JsonObject::new();
    params.push("fresh", json_bool(fresh));
    params.push("profileId", json_int(profile_id as i64));
    proof {
        assert(params@ =~= seq![("fresh"@, bool_text(fresh)), ("profileId"@, int_text(profile_id as int))]);
    }
    Request::new("/call/Fetch.ProfileOwnedKeys", params, Channel::Standard, Reply::field("items"))
}

/// Searches users (member `users`).
pub fn search_users(profile_id: i32, query: &str) -> (r: Request)
    ensures
        r.path@ == "/call/Search.Users"@,
        r.body@ == object_text(seq![("profileId"@, int_text(profile_id as int)), ("query"@, json_quoted(query@))]),
        r.channel == Channel::Standard,
        reply_field(r.reply, "users"@),
{
    let mut params = JsonObject::new();
    params.push("profileId", json_int(profile_id as i64));
    params.push("query", json_str(query));
    proof {
        assert(params@ =~= seq![("profileId"@, int_text(profile_id as int)), ("query"@, json_quoted(query@))]);
    }
    Request::new("/call/Search.Users", params, Channel::Standard, Reply::field("users"))
}

/// Sets a throttle, in kbps, on the bandwidth butler uses; `enabled` false lifts it.
pub fn set_throttle(enabled: bool, rate: i64) -> (r: Request)
    ensures
        r.path@ == "/call/Network.SetBandwidthThrottle"@,
        r.body@ == object_text(seq![("enabled"@, bool_text(enabled)), ("rate"@, int_text(rate as int))]),
        r.channel == Channel::Standard,
        r.reply == Reply::Ignore,
{
    let mut params = JsonObject::new();
    params.push("enabled", json_bool(enabled));
    params.push("rate", json_int(rate));
    proof {
        assert(params@ =~= seq![("enabled"@, bool_text(enabled)), ("rate"@, int_text(rate as int))]);
    }
    Request::new("/call/Network.SetBandwidthThrottle", params, Channel::Standard, Reply::Ignore)
}

/// Fetches the best available sale for a game, if one exists (member `sale`).
pub fn fetch_sale(game_id: i32) -> (r: Request)
    ensures
        r.path@ == "/call/Fetch.Sale"@,
        r.body@ == object_text(seq![("gameId"@, int_text(game_id as int))]),
        r.channel == Channel::Standard,
        reply_field(r.reply, "sale"@),
{
    let mut params = JsonObject::new();
    params.push("gameId", json_int(game_id as i64));
    proof {
        assert(params@ =~= seq![("gameId"@, int_text(game_id as int))]);
    }
    Request::new("/call/Fetch.Sale", params, Channel::Standard, Reply::field("sale"))
}

/// Gets all configured install locations (member `installLocations`).
pub fn get_install_locations() -> (r: Request)
    ensures
        r.path@ == "/call/Install.Locations.List"@,
        r.body@ == object_text(Seq::empty()),
        r.channel == Channel::Standard,
        reply_field(r.reply, "installLocations"@),
{
    let params = JsonObject::new();
    proof {
        assert(params@ =~= Seq::<(Seq<char>, Seq<char>)>::empty());
    }
    Request::new("/call/Install.Locations.List", params, Channel::Standard, Reply::field("installLocations"))
}

/// Gets info on a filesystem (the whole result).
pub fn statfs(path: &str) -> (r: Request)
    ensures
        r.path@ == "/call/System.StatFS"@,
        r.body@ == object_text(seq![("path"@, json_quoted(path@))]),
        r.channel == Channel::Standard,
        r.reply == Reply::Whole,
{
    let mut params = JsonObject::new();
    params.push("path", json_str(path));
    proof {
        assert(params@ =~= seq![("path"@, json_quoted(path@))]);
    }
    Request::new("/call/System.StatFS", params, Channel::Standard, Reply::Whole)
}

/// Checks whether updates are available for caves; no cave ids means all caves (the whole result).
pub fn check_update(cave_ids: &Vec<String>) -> (r: Request)
    ensures
        r.path@ == "/call/CheckUpdate"@,
        r.body@ == object_text(seq![("caveIds"@, string_array_text(cave_ids@.map_values(|s: String| s@))), ("verbose"@, bool_text(false))]),
        r.channel == Channel::Standard,
        r.reply == Reply::Whole,
{
    let mut params = JsonObject::new();
    params.push("caveIds", json_string_array(cave_ids));
    params.push("verbose", json_bool(false));
    proof {
        assert(params@ =~= seq![("caveIds"@, string_array_text(cave_ids@.map_values(|s: String| s@))), ("verbose"@, bool_text(false))]);
    }
    Request::new("/call/CheckUpdate", params, Channel::Standard, Reply::Whole)
}

/// Cancels an install (member `didCancel`).
pub fn install_cancel(id: &str) -> (r: Request)
    ensures
        r.path@ == "/call/Install.Cancel"@,
        r.body@ == object_text(seq![("id"@, json_quoted(id@))]),
        r.channel == Channel::Standard,
        reply_field(r.reply, "didCancel"@),
{
    let mut params = JsonObject::new();
    params.push("id", json_str(id));
    proof {
        assert(params@ =~= seq![("id"@, json_quoted(id@))]);
    }
    Request::new("/call/Install.Cancel", params, Channel::Standard, Reply::field("didCancel"))
}

/// Performs an install whose download is complete.
pub fn install_perform(queue_id: &str, staging_folder: &str) -> (r: Request)
    ensures
        r.path@ == "/call/Install.Perform"@,
        r.body@ == object_text(seq![("id"@, json_quoted(queue_id@)), ("stagingFolder"@, json_quoted(staging_folder@))]),
        r.channel == Channel::Standard,
        r.reply == Reply::Ignore,
{
    let mut params = JsonObject::new();
    params.push("id", json_str(queue_id));
    params.push("stagingFolder", json_str(staging_folder));
    proof {
        assert(params@ =~= seq![("id"@, json_quoted(queue_id@)), ("stagingFolder"@, json_quoted(staging_folder@))]);
    }
    Request::new("/call/Install.Perform", params, Channel::Standard, Reply::Ignore)
}

/// Fetches all uploads of a game, fresh (member `uploads`).
pub fn fetch_uploads(game_id: i32, compatible: bool) -> (r: Request)
    ensures
        r.path@ == "/call/Fetch.GameUploads"@,
        r.body@ == object_text(seq![("compatible"@, bool_text(compatible)), ("fresh"@, bool_text(true)), ("gameId"@, int_text(game_id as int))]),
        r.channel == Channel::Standard,
        reply_field(r.reply, "uploads"@),
{
    let mut params = JsonObject::new();
    params.push("compatible", json_bool(compatible));
    params.push("fresh", json_bool(true));
    params.push("gameId", json_int(game_id as i64));
    proof {
        assert(params@ =~= seq![("compatible"@, bool_text(compatible)), ("fresh"@, bool_text(true)), ("gameId"@, int_text(game_id as int))]);
    }
    Request::new("/call/Fetch.GameUploads", params, Channel::Standard, Reply::field("uploads"))
}

/// Queues a download, to be downloaded by downloads_drive; the JSON text of the queue
/// response stands as the `item` object.
pub fn download_queue(queue_response_json: &str) -> (r: Request)
    ensures
        r.path@ == "/call/Downloads.Queue"@,
        r.body@ == object_text(seq![("item"@, queue_response_json@)]),
        r.channel == Channel::Standard,
        r.reply == Reply::Ignore,
{
    let mut params = JsonObject::new();
    params.push("item", String::from_str(queue_response_json));
    proof {
        assert(params@ =~= seq![("item"@, queue_response_json@)]);
    }
    Request::new("/call/Downloads.Queue", params, Channel::Standard, Reply::Ignore)
}

/// Cancels driving downloads (member `didCancel`).
pub fn cancel_download_drive() -> (r: Request)
    ensures
        r.path@ == "/call/Downloads.Drive.Cancel"@,
        r.body@ == object_text(Seq::empty()),
        r.channel == Channel::Standard,
        reply_field(r.reply, "didCancel"@),
{
    let params = JsonObject::new();
    proof {
        assert(params@ =~= Seq::<(Seq<char>, Seq<char>)>::empty());
    }
    Request::new("/call/Downloads.Drive.Cancel", params, Channel::Standard, Reply::field("didCancel"))
}

/// Forces butler's online/offline state: true is offline, false is online.
pub fn set_offline(offline: bool) -> (r: Request)
    ensures
        r.path@ == "/call/Network.SetSimulateOffline"@,
        r.body@ == object_text(seq![("enabled"@, bool_text(offline))]),
        r.channel == Channel::Standard,
        r.reply == Reply::Ignore,
{
    let mut params = JsonObject::new();
    params.push("enabled", json_bool(offline));
    proof {
        assert(params@ =~= seq![("enabled"@, bool_text(offline))]);
    }
    Request::new("/call/Network.SetSimulateOffline", params, Channel::Standard, Reply::Ignore)
}

/// Discards one download.
pub fn discard_download(download_id: &str) -> (r: Request)
    ensures
        r.path@ == "/call/Downloads.Discard"@,
        r.body@ == object_text(seq![("downloadId"@, json_quoted(download_id@))]),
        r.channel == Channel::Standard,
        r.reply == Reply::Ignore,
{
    let mut params = JsonObject::new();
    params.push("downloadId", json_str(download_id));
    proof {
        assert(params@ =~= seq![("downloadId"@, json_quoted(download_id@))]);
    }
    Request::new("/call/Downloads.Discard", params, Channel::Standard, Reply::Ignore)
}

/// Prioritizes a download.
pub fn prioritize_download(download_id: &str) -> (r: Request)
    ensures
        r.path@ == "/call/Downloads.Prioritize"@,
        r.body@ == object_text(seq![("downloadId"@, json_quoted(download_id@))]),
        r.channel == Channel::Standard,
        r.reply == Reply::Ignore,
{
    let mut params = JsonObject::new();
    params.push("downloadId", json_str(download_id));
    proof {
        assert(params@ =~= seq![("downloadId"@, json_quoted(download_id@))]);
    }
    Request::new("/call/Downloads.Prioritize", params, Channel::Standard, Reply::Ignore)
}

/// Retries an errored download.
pub fn download_retry(download_id: &str) -> (r: Request)
    ensures
        r.path@ == "/call/Downloads.Retry"@,
        r.body@ == object_text(seq![("downloadId"@, json_quoted(download_id@))]),
        r.channel == Channel::Standard,
        r.reply == Reply::Ignore,
{
    let mut params = JsonObject::new();
    params.push("downloadId", json_str(download_id));
    proof {
        assert(params@ =~= seq![("downloadId"@, json_quoted(download_id@))]);
    }
    Request::new("/call/Downloads.Retry", params, Channel::Standard, Reply::Ignore)
}

/// Gets butler's version strings (the whole result).
pub fn get_version() -> (r: Request)
    ensures
        r.path@ == "/call/Version.Get"@,
        r.body@ == object_text(Seq::empty()),
        r.channel == Channel::Standard,
        r.reply == Reply::Whole,
{
    let params = JsonObject::new();
    proof {
        assert(params@ =~= Seq::<(Seq<char>, Seq<char>)>::empty());
    }
    Request::new("/call/Version.Get", params, Channel::Standard, Reply::Whole)
}

/// Clears all completed downloads from the queue.
pub fn clear_completed() -> (r: Request)
    ensures
        r.path@ == "/call/Downloads.ClearFinished"@,
        r.body@ == object_text(Seq::empty()),
        r.channel == Channel::Standard,
        r.reply == Reply::Ignore,
{
    let params = JsonObject::new();
    proof {
        assert(params@ =~= Seq::<(Seq<char>, Seq<char>)>::empty());
    }
    Request::new("/call/Downloads.ClearFinished", params, Channel::Standard, Reply::Ignore)
}

/// Fetches the downloads in the queue (member `downloads`).
pub fn downloads_list() -> (r: Request)
    ensures
        r.path@ == "/call/Downloads.List"@,
        r.body@ == object_text(Seq::empty()),
        r.channel == Channel::Standard,
        reply_field(r.reply, "downloads"@),
{
    let params = JsonObject::new();
    proof {
        assert(params@ =~= Seq::<(Seq<char>, Seq<char>)>::empty());
    }
    Request::new("/call/Downloads.List", params, Channel::Standard, Reply::field("downloads"))
}

/// Searches games for a string; needs a profile id (member `games`).
pub fn search_games(profile_id: i32, query: &str) -> (r: Request)
    ensures
        r.path@ == "/call/Search.Games"@,
        r.body@ == object_text(seq![("profileId"@, int_text(profile_id as int)), ("query"@, json_quoted(query@))]),
        r.channel == Channel::Standard,
        reply_field(r.reply, "games"@),
{
    let mut params = JsonObject::new();
    params.push("profileId", json_int(profile_id as i64));
    params.push("query", json_str(query));
    proof {
        assert(params@ =~= seq![("profileId"@, int_text(profile_id as int)), ("query"@, json_quoted(query@))]);
    }
    Request::new("/call/Search.Games", params, Channel::Standard, Reply::field("games"))
}

/// Adds a new install location.
pub fn install_location_add(path: &str) -> (r: Request)
    ensures
        r.path@ == "/call/Install.Locations.Add"@,
        r.body@ == object_text(seq![("path"@, json_quoted(path@))]),
        r.channel == Channel::Standard,
        r.reply == Reply::Ignore,
{
    let mut params = JsonObject::new();
    params.push("path", json_str(path));
    proof {
        assert(params@ =~= seq![("path"@, json_quoted(path@))]);
    }
    Request::new("/call/Install.Locations.Add", params, Channel::Standard, Reply::Ignore)
}

/// Removes an install location.
pub fn install_location_remove(id: &str) -> (r: Request)
    ensures
        r.path@ == "/call/Install.Locations.Remove"@,
        r.body@ == object_text(seq![("id"@, json_quoted(id@))]),
        r.channel == Channel::Standard,
        r.reply == Reply::Ignore,
{
    let mut params = JsonObject::new();
    params.push("id", json_str(id));
    proof {
        assert(params@ =~= seq![("id"@, json_quoted(id@))]);
    }
    Request::new("/call/Install.Locations.Remove", params, Channel::Standard, Reply::Ignore)
}

/// Gets an install location from a previously fetched id (the whole result).
pub fn install_location_get_by_id(id: &str) -> (r: Request)
    ensures
        r.path@ == "/call/Install.Locations.GetByID"@,
        r.body@ == object_text(seq![("id"@, json_quoted(id@))]),
        r.channel == Channel::Standard,
        r.reply == Reply::Whole,
{
    let mut params = JsonObject::new();
    params.push("id", json_str(id));
    proof {
        assert(params@ =~= seq![("id"@, json_quoted(id@))]);
    }
    Request::new("/call/Install.Locations.GetByID", params, Channel::Standard, Reply::Whole)
}

/// Uninstalls a cave.
pub fn uninstall(cave_id: &str) -> (r: Request)
    ensures
        r.path@ == "/call/Uninstall.Perform"@,
        r.body@ == object_text(seq![("caveId"@, json_quoted(cave_id@))]),
        r.channel == Channel::Standard,
        r.reply == Reply::Ignore,
{
    let mut params = JsonObject::new();
    params.push("caveId", json_str(cave_id));
    proof {
        assert(params@ =~= seq![("caveId"@, json_quoted(cave_id@))]);
    }
    Request::new("/call/Uninstall.Perform", params, Channel::Standard, Reply::Ignore)
}

/// The JSON text of one entry of a clean-up: its path, then its size.
pub open spec fn clean_entry_text(e: CleanDownloadsEntry) -> Seq<char> {
    object_text(seq![("path"@, json_quoted(e.path@)), ("size"@, int_text(e.size as int))])
}

/// Each entry of a clean-up is written as a JSON object whose first member is named
/// "path" and holds a string literal that reads back as the entry's path, and whose second
/// member is named "size" and holds the decimal notation of its size.
pub proof fn lemma_clean_entry_reads_back(e: CleanDownloadsEntry)
    ensures
        exists|k1: Seq<char>, t: Seq<char>, k2: Seq<char>|
            #![trigger read_string(k1), read_string(t), read_string(k2)]
            clean_entry_text(e) == seq!['{'] + k1 + seq![':'] + t + seq![','] + k2 + seq![':']
                + int_text(e.size as int) + seq!['}'] && read_string(k1) == Some(("path"@, Seq::<char>::empty()))
                && read_string(t) == Some((e.path@, Seq::<char>::empty())) && read_string(k2) == Some(
                ("size"@, Seq::<char>::empty()),
            ),
{
    let k1 = json_quoted("path"@);
    let t = json_quoted(e.path@);
    let k2 = json_quoted("size"@);
    let fields = seq![("path"@, t), ("size"@, int_text(e.size as int))];
    let members = fields.map_values(|f: (Seq<char>, Seq<char>)| member_text(f));
    assert(members.drop_last() =~= seq![member_text(fields[0])]);
    assert(joined(members) == joined(members.drop_last()) + seq![','] + members.last());
    assert(clean_entry_text(e) =~= seq!['{'] + k1 + seq![':'] + t + seq![','] + k2 + seq![':']
        + int_text(e.size as int) + seq!['}']);
    lemma_quoted_reads_back("path"@, Seq::empty());
    lemma_quoted_reads_back(e.path@, Seq::empty());
    lemma_quoted_reads_back("size"@, Seq::empty());
    assert(k1 + Seq::<char>::empty() =~= k1);
    assert(t + Seq::<char>::empty() =~= t);
    assert(k2 + Seq::<char>::empty() =~= k2);
}

/// Cleans the given entries.
pub fn clean_apply(entries: &Vec<CleanDownloadsEntry>) -> (r: Request)
    ensures
        r.path@ == "/call/CleanDownloads.Apply"@,
        r.body@ == object_text(seq![("entries"@, array_text(entries@.map_values(|e: CleanDownloadsEntry| clean_entry_text(e))))]),
        r.channel == Channel::Standard,
        r.reply == Reply::Ignore,
{
    let mut items: Vec<String> = Vec::new();
    let mut i: usize = 0;
    while i < entries.len()
        invariant
            i <= entries@.len(),
            items@.len() == i,
            forall|k: int| 0 <= k < i ==> items@[k]@ == clean_entry_text(entries@[k]),
        decreases entries@.len() - i,
    {
        let mut entry = JsonObject::new();
        entry.push("path", json_str(entries[i].path.as_str()));
        entry.push("size", json_int(entries[i].size));
        proof {
            assert(entry@ =~= seq![("path"@, json_quoted(entries@[i as int].path@)), ("size"@, int_text(entries@[i as int].size as int))]);
        }
        items.push(entry.render());
        i = i + 1;
    }
    let ghost texts = entries@.map_values(|e: CleanDownloadsEntry| clean_entry_text(e));
    assert(items@.map_values(|s: String| s@) =~= texts);
    let mut params = JsonObject::new();
    params.push("entries", json_array(&items));
    proof {
        assert(params@ =~= seq![("entries"@, array_text(texts))]);
    }
    Request::new("/call/CleanDownloads.Apply", params, Channel::Standard, Reply::Ignore)
}

/// The request that queues up a game installation.
pub fn install_queue_req(game: Game, install_location_id: &str, upload: Upload, reason: DownloadReason) -> (r: InstallQueueReq)
    ensures
        r.install_location_id@ == install_location_id@,
        r.reason@ == reason_text(reason),
        r.game == game,
        r.upload == upload,
{
    InstallQueueReq {
        install_location_id: String::from_str(install_location_id),
        reason: dr_str(reason),
        game,
        upload,
    }
}

/// Queues up a game installation, given the JSON text of its `InstallQueueReq`
/// (the whole result).
pub fn install_queue(request_json: String) -> (r: Request)
    ensures
        r.path@ == "/call/Install.Queue"@,
        r.body@ == request_json@,
        r.channel == Channel::Standard,
        r.reply == Reply::Whole,
{
    Request {
        path: String::from_str("/call/Install.Queue"),
        body: request_json,
        channel: Channel::Standard,
        reply: Reply::Whole,
    }
}

/// Marks all local data as stale and outdated.
pub fn expireall() -> (r: Request)
    ensures
        r.path@ == "/call/Fetch.ExpireAll"@,
        r.body@ == Seq::<char>::empty(),
        r.channel == Channel::Detached,
        r.reply == Reply::Ignore,
{
    Request::detached("/call/Fetch.ExpireAll")
}

/// Starts downloading all games in the queue.
pub fn downloads_drive() -> (r: Request)
    ensures
        r.path@ == "/call/Downloads.Drive"@,
        r.body@ == Seq::<char>::empty(),
        r.channel == Channel::Detached,
        r.reply == Reply::Ignore,
{
    Request::detached("/call/Downloads.Drive")
}

} // verus!
