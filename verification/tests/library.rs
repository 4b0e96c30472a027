use butlerd::calls;
use butlerd::error::ErrorKind;
use butlerd::install::{
    drive_step, install_step, DriveAction, DriveEvent, DriveState, InstallAction, InstallEvent,
    InstallState,
};
use butlerd::json::{json_bool, json_int, json_str, json_string_array, JsonObject};
use butlerd::responses::{
    dr_str, Archs, BError, BStart, Build, CleanDownloadsEntry, Dates, DownloadReason, Game,
    Platforms, QueueResponse, Response, ResponseErr, ResponseRes, Upload, User,
};
use butlerd::rpc::{interpret, parse_r, pres, Channel, Reply, Request};
use butlerd::startup::{
    daemon_command, db_path, first_start, log_path, poll_log, startup_block, startup_lines,
    Connection, LogPoll, Platform,
};
use butlerd::text::{decimal_string, replace_all, split_lines, str_eq, trim};

fn dates() -> Dates {
    Dates { created_at: String::new(), updated_at: String::new() }
}

fn upload(platforms: Platforms) -> Upload {
    Upload {
        id: 1,
        storage: "hosted".to_string(),
        host: String::new(),
        filename: "game.zip".to_string(),
        display_name: "game.zip".to_string(),
        size: 10,
        channel_name: "linux".to_string(),
        build_id: 0,
        preorder: false,
        demo: false,
        dates: dates(),
        platforms,
    }
}

fn game(id: i32) -> Game {
    Game {
        id,
        url: "https://example.itch.io/game".to_string(),
        title: "Subserial Network".to_string(),
        short_text: String::new(),
        cover_url: String::new(),
        still_cover_url: String::new(),
        dates: dates(),
        min_price: 0,
        can_be_bought: false,
        has_demo: false,
        in_press_system: false,
        user: None,
        sale: None,
        user_id: None,
        views_count: None,
        downloads_count: None,
        purchases_count: None,
        published: None,
    }
}

fn object(entries: &[(&str, &str)]) -> JsonObject {
    JsonObject {
        entries: entries.iter().map(|(k, v)| (k.to_string(), v.to_string())).collect(),
    }
}

fn result_answer(entries: &[(&str, &str)]) -> Result<ResponseRes, String> {
    Ok(ResponseRes {
        response: Response { id: 0, jsonrpc: "2.0".to_string() },
        result: object(entries),
    })
}

fn error_answer(code: i64, message: &str) -> Result<ResponseErr, String> {
    Ok(ResponseErr {
        response: Response { id: 0, jsonrpc: "2.0".to_string() },
        error: BError { code, message: message.to_string() },
    })
}

#[test]
fn supports_named_platforms_only() {
    let u = upload(Platforms::new(Some(Archs::Amd64), None, Some(Archs::All)));
    assert!(u.supports("windows"));
    assert!(!u.supports("osx"));
    assert!(u.supports("linux"));
    assert!(!u.supports("Linux"));
    assert!(!u.supports("macos"));
    assert!(!u.supports(""));
}

#[test]
fn download_reasons_have_distinct_names() {
    assert_eq!(dr_str(DownloadReason::Install), "install");
    assert_eq!(dr_str(DownloadReason::Reinstall), "reinstall");
    assert_eq!(dr_str(DownloadReason::Update), "update");
    assert_eq!(dr_str(DownloadReason::VersionSwitch), "version-switch");
}

#[test]
fn json_string_escapes() {
    assert_eq!(json_str("plain"), "\"plain\"");
    assert_eq!(json_str("a\"b\\c"), "\"a\\\"b\\\\c\"");
    assert_eq!(json_str("\n\t\r\u{8}\u{c}"), "\"\\n\\t\\r\\b\\f\"");
    assert_eq!(json_str("\u{1}\u{1f}"), "\"\\u0001\\u001f\"");
    assert_eq!(json_str("é/\u{7f}"), "\"é/\u{7f}\"");
}

#[test]
fn json_numbers_and_booleans() {
    assert_eq!(json_int(0), "0");
    assert_eq!(json_int(248620), "248620");
    assert_eq!(json_int(-42), "-42");
    assert_eq!(json_int(i64::MIN), "-9223372036854775808");
    assert_eq!(json_bool(true), "true");
    assert_eq!(json_bool(false), "false");
    assert_eq!(json_string_array(&vec![]), "[]");
    assert_eq!(json_string_array(&vec!["a".to_string(), "b\"".to_string()]), "[\"a\",\"b\\\"\"]");
}

#[test]
fn object_rendering_and_lookup() {
    assert_eq!(JsonObject::new().render(), "{}");
    let o = object(&[("b", "1"), ("a", "\"x\""), ("b", "2")]);
    assert_eq!(o.render(), "{\"b\":1,\"a\":\"x\",\"b\":2}");
    assert_eq!(o.get("a"), Some("\"x\"".to_string()));
    assert_eq!(o.get("b"), Some("1".to_string()));
    assert_eq!(o.get("c"), None);
}

#[test]
fn request_bodies() {
    let r = calls::fetch_game(248620);
    assert_eq!(r.path, "/call/Fetch.Game");
    assert_eq!(r.body, "{\"gameId\":248620}");
    assert_eq!(r.channel, Channel::Standard);
    assert!(matches!(r.reply, Reply::Field(ref f) if f == "game"));

    let r = calls::pin_cave("e97cd944-386d-4c6c-b1e9-76a3175f4ca9", true);
    assert_eq!(r.body, "{\"caveId\":\"e97cd944-386d-4c6c-b1e9-76a3175f4ca9\",\"pinned\":true}");
    assert!(matches!(r.reply, Reply::Ignore));

    let r = calls::launch_game("cave", "/home/u/.config/itch/prereqs");
    assert_eq!(r.channel, Channel::Launch);
    assert_eq!(r.body, "{\"caveId\":\"cave\",\"prereqsDir\":\"/home/u/.config/itch/prereqs\"}");

    let r = calls::set_throttle(true, 10);
    assert_eq!(r.path, "/call/Network.SetBandwidthThrottle");
    assert_eq!(r.body, "{\"enabled\":true,\"rate\":10}");

    let r = calls::fetch_download_key(7, 9, false);
    assert_eq!(r.body, "{\"downloadKeyId\":9,\"fresh\":false,\"profileId\":7}");

    let r = calls::check_update(&vec!["e97cd944-386d-4c6c-b1e9-76a3175f4ca9".to_string()]);
    assert_eq!(r.body, "{\"caveIds\":[\"e97cd944-386d-4c6c-b1e9-76a3175f4ca9\"],\"verbose\":false}");
    assert!(matches!(r.reply, Reply::Whole));

    let r = calls::fetch_uploads(283483, true);
    assert_eq!(r.body, "{\"compatible\":true,\"fresh\":true,\"gameId\":283483}");

    let r = calls::close();
    assert_eq!(r.path, "/call/Meta.Shutdown");
    assert_eq!(r.body, "{}");

    let r = calls::clear_completed();
    assert_eq!(r.body, "{}");

    let r = calls::download_queue("{\"id\":\"q\"}");
    assert_eq!(r.body, "{\"item\":{\"id\":\"q\"}}");

    let r = calls::fetch_profile_collections(7, true);
    assert_eq!(r.path, "/call/Fetch.ProfileCollections");
    assert_eq!(r.body, "{\"fresh\":true,\"profileId\":7}");
    assert!(matches!(r.reply, Reply::Field(ref f) if f == "items"));

    let r = calls::fetch_collection(7, 3, false);
    assert_eq!(r.path, "/call/Fetch.Collection");
    assert_eq!(r.body, "{\"collectionId\":3,\"fresh\":false,\"profileId\":7}");

    let r = calls::clean_apply(&vec![
        CleanDownloadsEntry { path: "/a".to_string(), size: 3 },
        CleanDownloadsEntry { path: "/b".to_string(), size: -1 },
    ]);
    assert_eq!(r.body, "{\"entries\":[{\"path\":\"/a\",\"size\":3},{\"path\":\"/b\",\"size\":-1}]}");

    let r = calls::expireall();
    assert_eq!(r.path, "/call/Fetch.ExpireAll");
    assert_eq!(r.body, "");
    assert_eq!(r.channel, Channel::Detached);

    let r = calls::search_games(1, "q");
    assert_eq!(r.path, "/call/Search.Games");
    assert_eq!(r.body, "{\"profileId\":1,\"query\":\"q\"}");
}

#[test]
fn install_queue_request_carries_reason_name() {
    let req = calls::install_queue_req(
        game(3),
        "loc",
        upload(Platforms::new(None, None, None)),
        DownloadReason::VersionSwitch,
    );
    assert_eq!(req.reason, "version-switch");
    assert_eq!(req.install_location_id, "loc");
    assert_eq!(req.game.id, 3);
    let r = calls::install_queue("{}".to_string());
    assert_eq!(r.path, "/call/Install.Queue");
    assert_eq!(r.body, "{}");
}

#[test]
fn result_answers() {
    let res = result_answer(&[("game", "{\"id\":1}"), ("x", "2")]);
    let text = pres(res, Err("not an error".to_string())).unwrap();
    assert_eq!(text, "{\"game\":{\"id\":1},\"x\":2}");

    let res = result_answer(&[("game", "{\"id\":1}")]);
    assert_eq!(parse_r(res, Err(String::new()), "game").unwrap(), "{\"id\":1}");

    let res = result_answer(&[("game", "{\"id\":1}")]);
    match parse_r(res, Err(String::new()), "cave") {
        Err(ErrorKind::MissingField(f)) => assert_eq!(f, "cave"),
        other => panic!("unexpected {:?}", other),
    }
}

#[test]
fn error_and_unreadable_answers() {
    let r = pres(Err("no result".to_string()), error_answer(-32601, "no such method"));
    match r {
        Err(ErrorKind::ButlerError(e)) => {
            assert_eq!(e.code, -32601);
            assert_eq!(e.message, "no such method");
        },
        other => panic!("unexpected {:?}", other),
    }
    let r = parse_r(Err("no result".to_string()), Err("expected value".to_string()), "game");
    match r {
        Err(ErrorKind::Parse(m)) => assert_eq!(m, "expected value"),
        other => panic!("unexpected {:?}", other),
    }
}

#[test]
fn failures_agree_for_whole_and_member() {
    let whole = pres(Err("x".to_string()), error_answer(5, "m"));
    let member = parse_r(Err("x".to_string()), error_answer(5, "m"), "anything");
    assert_eq!(format!("{:?}", whole), format!("{:?}", member));
}

#[test]
fn interpret_by_reply() {
    let r = interpret(&Reply::Ignore, Err(String::new()), Err(String::new()));
    assert!(matches!(r, Ok(None)));
    let r = interpret(&Reply::Whole, result_answer(&[("a", "1")]), Err(String::new()));
    assert_eq!(r.unwrap(), Some("{\"a\":1}".to_string()));
    let r = interpret(&Reply::Field("a".to_string()), result_answer(&[("a", "1")]), Err(String::new()));
    assert_eq!(r.unwrap(), Some("1".to_string()));
}

#[test]
fn error_messages() {
    assert_eq!(ErrorKind::StartUpError("x".to_string()).message(), "couldn't start butler: 'x'");
    assert_eq!(
        ErrorKind::ButlerError(BError { code: 1, message: "bad".to_string() }).message(),
        "error message: bad"
    );
    assert_eq!(ErrorKind::MissingField("game".to_string()).message(), "missing field game in response");
    assert_eq!(ErrorKind::Parse("p".to_string()).message(), "p");
    assert_eq!(ErrorKind::Fmt.message(), "an error occurred when formatting an argument");
    assert_eq!(ErrorKind::StartUpError("x".to_string()).description(), "error starting butler");
    assert_eq!(
        ErrorKind::ButlerError(BError { code: 1, message: "bad".to_string() }).description(),
        "butler encountered an error"
    );
    assert_eq!(ErrorKind::MissingField("g".to_string()).description(), "missing field in response");
}

#[test]
fn text_replacement() {
    assert_eq!(replace_all("~/.config/itch", "~", "/home/u"), "/home/u/.config/itch");
    assert_eq!(replace_all("aaa", "aa", "b"), "ba");
    assert_eq!(replace_all("abc", "", "x"), "xaxbxcx");
    assert_eq!(replace_all("", "", "x"), "x");
    assert_eq!(replace_all("\"1.2.3.4:5\"", "\"", ""), "1.2.3.4:5");
    assert_eq!(replace_all("no match", "zz", "y"), "no match");
}

#[test]
fn text_lines_and_trim() {
    assert_eq!(split_lines("foo\nbar\n\r\nbaz\r"), vec!["foo", "bar", "", "baz\r"]);
    assert_eq!(split_lines("a\n"), vec!["a"]);
    assert_eq!(split_lines(""), Vec::<String>::new());
    assert_eq!(split_lines("\n"), vec![""]);
    assert_eq!(trim("  x y \t\n"), "x y");
    assert_eq!(trim("\u{3000}x\u{a0}"), "x");
    assert_eq!(trim(" \t "), "");
    assert!(str_eq("abc", "abc"));
    assert!(!str_eq("abc", "abd"));
    assert!(!str_eq("ab", "abc"));
    assert_eq!(decimal_string(0), "0");
    assert_eq!(decimal_string(4294967295), "4294967295");
}

#[test]
fn startup_paths_and_command() {
    assert_eq!(db_path(Platform::Linux, "/home/u", None), "/home/u/.config/itch/db/butler.db");
    assert_eq!(
        db_path(Platform::Windows, "C:/Users/u", Some("C:/AppData")),
        "C:/AppData/itch/db/butler.db"
    );
    assert_eq!(
        db_path(Platform::MacOs, "/Users/u", None),
        "/Users/u/Library/Application Support/itch/db/butler.db"
    );
    assert_eq!(log_path(Platform::Linux, Some("/var/tmp"), "0.25"), "/tmp/butlerdrs0.25.log");
    assert_eq!(log_path(Platform::Windows, Some("C:/Temp"), "0.5"), "C:/Temp/butlerdrs0.5.log");
    assert_eq!(
        daemon_command("/db", 4242),
        "butler daemon --json --dbpath=/db --destiny-pid=4242"
    );
}

#[test]
fn startup_message_in_log() {
    assert_eq!(startup_block("no message yet"), None);
    assert_eq!(startup_block("{}"), None);
    assert_eq!(startup_block("{x}"), Some("{x}".to_string()));
    let log = "noise {\"secret\":\"s\",\"http\":{\"address\":\"127.0.0.1:1\"}} tail\n{\"b\":1} end";
    assert_eq!(
        startup_block(log),
        Some("{\"secret\":\"s\",\"http\":{\"address\":\"127.0.0.1:1\"}} tail\n{\"b\":1}".to_string())
    );
    assert_eq!(startup_block("{\\\"a\\\":1}"), Some("{a:1}".to_string()));
    assert_eq!(startup_lines(" {\"a\":1} \r\n\n x"), vec!["{\"a\":1}", "", "x"]);
}

#[test]
fn polling_the_log() {
    assert!(matches!(poll_log("starting..."), LogPoll::Wait(250)));
    match poll_log("x {\\\"secret\\\":1} y") {
        LogPoll::Ready(b) => assert_eq!(b, "{secret:1}"),
        other => panic!("unexpected {:?}", other),
    }
}

#[test]
fn startup_first_parse_wins() {
    let start = |s: &str| BStart {
        secret: s.to_string(),
        http: object(&[("address", "\"127.0.0.1:9\"")]),
        https: JsonObject::new(),
    };
    let r = first_start(vec![None, Some(start("one")), Some(start("two"))]);
    assert_eq!(r.unwrap().secret, "one");
    match first_start(vec![None, None]) {
        Err(ErrorKind::StartUpError(m)) => assert_eq!(m, "Couldn't get butler startup"),
        _ => panic!("expected a start-up error"),
    }
}

#[test]
fn connection_from_start() {
    let pmeta = BStart {
        secret: "s3".to_string(),
        http: object(&[("address", "\"127.0.0.1:13337\"")]),
        https: JsonObject::new(),
    };
    let c = Connection::from_start(pmeta, Platform::Linux, None, "/home/u");
    assert_eq!(c.secret, "s3");
    assert_eq!(c.address, "127.0.0.1:13337");
    assert!(!c.address.contains('"'));
    assert_eq!(c.pre_dir, "/home/u/.config/itch/prereqs");
    assert_eq!(c.url("/call/Fetch.Game"), "http://127.0.0.1:13337/call/Fetch.Game");
    let h = c.headers();
    assert_eq!(h, vec![("X-Secret".to_string(), "s3".to_string()), ("X-ID".to_string(), "0".to_string())]);

    let pmeta = BStart {
        secret: String::new(),
        http: object(&[("address", "\"h:1\"")]),
        https: JsonObject::new(),
    };
    let c = Connection::from_start(pmeta, Platform::Windows, Some("C:/AppData"), "C:/u");
    assert_eq!(c.pre_dir, "C:/AppData/itch/db/butler.db");
}

#[test]
fn connection_from_first_parsed_line() {
    let start = |s: &str, addr: &str| BStart {
        secret: s.to_string(),
        http: object(&[("address", addr)]),
        https: JsonObject::new(),
    };
    let c = Connection::connect(
        vec![None, Some(start("one", "\"127.0.0.1:7\"")), Some(start("two", "\"h:8\""))],
        Platform::Linux,
        None,
        "/home/u",
    )
    .unwrap();
    assert_eq!(c.secret, "one");
    assert_eq!(c.address, "127.0.0.1:7");
    assert_eq!(c.pre_dir, "/home/u/.config/itch/prereqs");
    match Connection::connect(vec![None], Platform::Linux, None, "/home/u") {
        Err(ErrorKind::StartUpError(m)) => assert_eq!(m, "Couldn't get butler startup"),
        other => panic!("unexpected {:?}", other),
    }
}

fn queue_response() -> QueueResponse {
    QueueResponse {
        id: "queue-1".to_string(),
        reason: DownloadReason::Install,
        cave_id: "cave".to_string(),
        game: game(1),
        upload: upload(Platforms::new(None, None, None)),
        build: Build {
            id: 1,
            parent_build_id: 0,
            state: "done".to_string(),
            version: 1,
            user_version: String::new(),
            user: Some(User {
                id: 1,
                username: "u".to_string(),
                display_name: "U".to_string(),
                developer: false,
                press_user: false,
                url: String::new(),
                cover_url: String::new(),
                still_cover_url: String::new(),
            }),
            dates: dates(),
        },
        install_folder: "/games/g".to_string(),
        staging_folder: "/staging/g".to_string(),
        install_location_id: "loc".to_string(),
    }
}

#[test]
fn install_sequence_succeeds() {
    let (s, a) = install_step(InstallState::Start, InstallEvent::Begin);
    assert!(matches!(a, InstallAction::QueueInstall(DownloadReason::Install)));
    let (s, a) = install_step(s, InstallEvent::Queued(Ok(queue_response())));
    assert!(matches!(a, InstallAction::QueueDownload(ref q) if q.id == "queue-1"));
    let (s, a) = install_step(s, InstallEvent::Done(Ok(())));
    assert!(matches!(a, InstallAction::DriveDownloads));
    let (s, a) = install_step(s, InstallEvent::Done(Ok(())));
    match a {
        InstallAction::PerformInstall { id, staging } => {
            assert_eq!(id, "queue-1");
            assert_eq!(staging, "/staging/g");
        },
        other => panic!("unexpected {:?}", other),
    }
    let (s, a) = install_step(s, InstallEvent::Done(Ok(())));
    assert!(matches!(a, InstallAction::Finish(Ok(()))));
    assert!(matches!(s, InstallState::Finished));
}

#[test]
fn install_stops_at_first_failure() {
    let (s, _) = install_step(InstallState::Start, InstallEvent::Begin);
    let (s, _) = install_step(s, InstallEvent::Queued(Ok(queue_response())));
    let (s, a) = install_step(s, InstallEvent::Done(Err(ErrorKind::Network("down".to_string()))));
    assert!(matches!(s, InstallState::Finished));
    assert!(matches!(a, InstallAction::Finish(Err(ErrorKind::Network(ref m))) if m == "down"));
}

#[test]
fn drive_rounds_until_listing_fails() {
    let (s, a) = drive_step(DriveState::Start, DriveEvent::Begin);
    assert!(matches!(a, DriveAction::SendDrive));
    let (s, a) = drive_step(s, DriveEvent::Performed);
    assert!(matches!(a, DriveAction::Sleep(1000)));
    let (s, a) = drive_step(s, DriveEvent::Performed);
    assert!(matches!(a, DriveAction::ClearCompleted));
    let (s, a) = drive_step(s, DriveEvent::Cleared(Ok(())));
    assert!(matches!(a, DriveAction::ListDownloads));
    let (s, a) = drive_step(s, DriveEvent::Listed(true));
    assert!(matches!(a, DriveAction::Sleep(1000)));
    assert_eq!(s, DriveState::Sleeping);
    let (s, _) = drive_step(s, DriveEvent::Performed);
    let (s, _) = drive_step(s, DriveEvent::Cleared(Ok(())));
    let (s, a) = drive_step(s, DriveEvent::Listed(false));
    assert!(matches!(a, DriveAction::Finish(Ok(()))));
    assert_eq!(s, DriveState::Finished);
}

#[test]
fn drive_stops_when_clearing_fails() {
    let (s, _) = drive_step(DriveState::Sleeping, DriveEvent::Performed);
    let (s, a) = drive_step(s, DriveEvent::Cleared(Err(ErrorKind::Parse("bad".to_string()))));
    assert_eq!(s, DriveState::Finished);
    assert!(matches!(a, DriveAction::Finish(Err(ErrorKind::Parse(_)))));
}

#[test]
fn request_url_is_address_and_path() {
    let c = Connection {
        secret: "s".to_string(),
        address: "127.0.0.1:1".to_string(),
        pre_dir: String::new(),
    };
    let r: Request = calls::downloads_list();
    assert_eq!(c.url(&r.path), "http://127.0.0.1:1/call/Downloads.List");
}
