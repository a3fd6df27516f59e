use browser_use::browser::active_tab::{tab_check_expression, ActiveTabSearch, TabCheck, TabSearchAction};
use browser_use::browser::config::{BrowserEngine, LaunchOptions};
use browser_use::browser::devtools::{
    debug_ws_url_from_response, parse_local_http_url, response_body, version_request, ws_url_from_member,
};
use browser_use::browser::session::{
    chrome_launch_plan, check_lightpanda_markdown, check_lightpanda_options, find_in_path, lightpanda_launch_plan, locate_chrome, locate_lightpanda, next_browser_session_id,
    resolve_browser, resolve_chrome_path, resolve_lightpanda_path, ProfileDir, ResolvedBrowser, SessionIds,
};
use browser_use::browser::waits::{EndpointAction, EndpointWait, ReadinessAction, ReadinessWait};
use browser_use::error::BrowserError;
use browser_use::mcp::convert_result;

#[test]
fn local_urls() {
    let (h, p, path) = parse_local_http_url("http://127.0.0.1:9222/json/version").unwrap();
    assert_eq!((h.as_str(), p, path.as_str()), ("127.0.0.1", 9222, "/json/version"));
    let (h, p, path) = parse_local_http_url("http://localhost:80").unwrap();
    assert_eq!((h.as_str(), p, path.as_str()), ("localhost", 80, "/"));
    let (h, p, _) = parse_local_http_url("http://[::1]:+8080/x").unwrap();
    assert_eq!((h.as_str(), p), ("[::1]", 8080));
    let (h, p, path) = parse_local_http_url("http://a:b:7/x/y:1").unwrap();
    assert_eq!((h.as_str(), p, path.as_str()), ("a:b", 7, "/x/y:1"));
    let (h, p, path) = parse_local_http_url("http://:65535/").unwrap();
    assert_eq!((h.as_str(), p, path.as_str()), ("", 65535, "/"));
    assert_eq!(parse_local_http_url("https://a:1/").unwrap_err(), "expected http:// URL");
    assert_eq!(parse_local_http_url("http://host/path:80").unwrap_err(), "expected host:port");
    assert_eq!(parse_local_http_url("http://host:99999/").unwrap_err(), "number too large to fit in target type");
    assert_eq!(parse_local_http_url("http://host:/").unwrap_err(), "cannot parse integer from empty string");
    assert_eq!(parse_local_http_url("http://host:x1/").unwrap_err(), "invalid digit found in string");
}

#[test]
fn version_request_and_reply() {
    assert_eq!(
        version_request("127.0.0.1", 9222, "/json/version"),
        "GET /json/version HTTP/1.1\r\nHost: 127.0.0.1:9222\r\nConnection: close\r\n\r\n"
    );
    assert_eq!(response_body("HTTP/1.1 200 OK\r\nA: b\r\n\r\nbody\r\n\r\nmore").unwrap(), "body\r\n\r\nmore");
    assert_eq!(response_body("no blank line").unwrap_err(), "invalid HTTP response");
    let reply = b"HTTP/1.1 200 OK\r\nContent-Type: application/json\r\n\r\n{\"Browser\":\"LP\",\"webSocketDebuggerUrl\":\"ws://127.0.0.1:9222/devtools\"}".to_vec();
    assert_eq!(debug_ws_url_from_response(reply).unwrap(), "ws://127.0.0.1:9222/devtools");
    let missing = b"HTTP/1.1 200 OK\r\n\r\n{\"Browser\":\"LP\"}".to_vec();
    assert_eq!(debug_ws_url_from_response(missing).unwrap_err(), "missing webSocketDebuggerUrl in /json/version response");
    let not_json = b"HTTP/1.1 200 OK\r\n\r\nnot json".to_vec();
    assert!(debug_ws_url_from_response(not_json).is_err());
    assert!(debug_ws_url_from_response(vec![0xff, 0xfe]).is_err());
}

#[test]
fn browser_resolution() {
    let auto = LaunchOptions::new();
    let chrome = LaunchOptions::new().browser_engine(BrowserEngine::Chrome);
    let lp = LaunchOptions::new().browser_engine(BrowserEngine::Lightpanda);
    match resolve_browser(&auto, Ok("/c".to_string()), Ok("/l".to_string())).ok().unwrap() {
        ResolvedBrowser::Chrome(p) => assert_eq!(p, "/c"),
        _ => panic!(),
    }
    match resolve_browser(&auto, Err("x".to_string()), Ok("/l".to_string())).ok().unwrap() {
        ResolvedBrowser::Lightpanda(p) => assert_eq!(p, "/l"),
        _ => panic!(),
    }
    let e = resolve_browser(&auto, Err("x".to_string()), Err("y".to_string())).err().unwrap();
    assert!(matches!(e, BrowserError::LaunchFailed(ref m) if m.starts_with("Neither Chrome/Chromium nor LightPanda was found.")));
    let e = resolve_browser(&chrome, Err("gone".to_string()), Ok("/l".to_string())).err().unwrap();
    assert!(matches!(e, BrowserError::LaunchFailed(ref m) if m == "Chrome requested but unavailable: gone"));
    let e = resolve_browser(&lp, Ok("/c".to_string()), Err("gone".to_string())).err().unwrap();
    assert!(matches!(e, BrowserError::LaunchFailed(ref m) if m == "LightPanda requested but unavailable: gone"));
}

#[test]
fn executable_paths() {
    let missing = "/definitely/not/here/browser";
    assert_eq!(resolve_chrome_path(Some(missing), false, Ok("/d".to_string())).unwrap_err(), format!("{} does not exist", missing));
    assert_eq!(resolve_chrome_path(Some("/c"), true, Err("e".to_string())).unwrap(), "/c");
    assert_eq!(resolve_chrome_path(None, true, Ok("/d".to_string())).unwrap(), "/d");
    assert_eq!(locate_chrome(Some(missing), Ok("/d".to_string())).unwrap_err(), format!("{} does not exist", missing));
    assert_eq!(locate_chrome(None, Err("e".to_string())).unwrap_err(), "e");
    let here = "/proc/self/exe".to_string();
    assert_eq!(locate_chrome(Some(&here), Err("e".to_string())).unwrap(), here);
    let m = missing.to_string();
    assert_eq!(find_in_path(&vec![m.clone(), here.clone()], &vec![false, true]), Some(here.clone()));
    assert_eq!(find_in_path(&vec![m.clone()], &vec![false]), None);
    assert_eq!(
        resolve_lightpanda_path(None, false, &vec![], &vec![], &vec![m.clone()], &vec![false]).unwrap_err(),
        "lightpanda was not found on PATH"
    );
    assert_eq!(
        resolve_lightpanda_path(None, false, &vec![m.clone(), here.clone()], &vec![false, true], &vec![], &vec![]).unwrap(),
        here
    );
    assert_eq!(resolve_lightpanda_path(Some(missing), false, &vec![here.clone()], &vec![true], &vec![], &vec![]).unwrap_err(), format!("{} does not exist", missing));
    assert_eq!(resolve_lightpanda_path(Some("/lp"), true, &vec![], &vec![], &vec![], &vec![]).unwrap(), "/lp");
    assert_eq!(locate_lightpanda(None, &vec![m.clone(), here.clone()], &vec![]).unwrap(), here);
    assert_eq!(locate_lightpanda(None, &vec![m.clone()], &vec![here.clone()]).unwrap(), here);
    assert_eq!(locate_lightpanda(None, &vec![m.clone()], &vec![m.clone()]).unwrap_err(), "lightpanda was not found on PATH");
    assert_eq!(locate_lightpanda(Some(missing), &vec![here.clone()], &vec![]).unwrap_err(), format!("{} does not exist", missing));
    assert_eq!(locate_lightpanda(Some(&here), &vec![], &vec![]).unwrap(), here);
}

#[test]
fn launch_plans() {
    let plan = chrome_launch_plan(LaunchOptions::new().window_size(800, 600), "/c".to_string());
    assert_eq!(plan.executable, "/c");
    assert_eq!((plan.window_width, plan.window_height), (800, 600));
    assert!(matches!(plan.profile, ProfileDir::Temporary { ref prefix } if prefix == "web-access-mcp-chrome-"));
    assert_eq!(plan.ignore_default_args, vec!["--enable-automation".to_string()]);
    assert_eq!(plan.args, vec!["--disable-blink-features=AutomationControlled".to_string()]);
    assert_eq!(plan.idle_timeout_secs, 3600);
    let plan = chrome_launch_plan(LaunchOptions::new().user_data_dir("/p".to_string()), "/c".to_string());
    assert!(matches!(plan.profile, ProfileDir::Given(ref d) if d == "/p"));

    let lp = lightpanda_launch_plan(LaunchOptions::new().launch_timeout(0), "/l".to_string(), 4321).ok().unwrap();
    assert_eq!(lp.args, vec!["serve", "--host", "127.0.0.1", "--port", "4321", "--log-level", "info", "--log-format", "logfmt"]);
    assert_eq!(lp.env, vec![("LIGHTPANDA_DISABLE_TELEMETRY".to_string(), "true".to_string())]);
    assert_eq!(lp.version_url, "http://127.0.0.1:4321/json/version");
    assert_eq!(lp.connect_timeout_ms, 1);
    let (h, p, path) = parse_local_http_url(&lp.version_url).unwrap();
    assert_eq!((h.as_str(), p, path.as_str()), ("127.0.0.1", 4321, "/json/version"));
    let e = lightpanda_launch_plan(LaunchOptions::new().headless(false), "/l".to_string(), 1).err().unwrap();
    assert_eq!(e.message(), "Failed to launch browser: LightPanda is headless-only; remove --headed or use --browser chrome");
}

#[test]
fn session_ids_count_up() {
    let mut ids = SessionIds::new();
    assert_eq!(next_browser_session_id(&mut ids), 1);
    assert_eq!(next_browser_session_id(&mut ids), 2);
    ids.next = u64::MAX;
    assert_eq!(next_browser_session_id(&mut ids), u64::MAX);
    assert_eq!(ids.next, 0);
}

#[test]
fn active_tab_search() {
    assert_eq!(tab_check_expression(TabCheck::Visible), "document.visibilityState === 'visible'");
    let (mut s, act) = ActiveTabSearch::start(2);
    assert!(matches!(act, TabSearchAction::Probe { tab: 0, check: TabCheck::VisibleAndFocused }));
    assert!(matches!(s.step(None), TabSearchAction::Probe { tab: 1, check: TabCheck::VisibleAndFocused }));
    assert!(matches!(s.step(Some(false)), TabSearchAction::Probe { tab: 0, check: TabCheck::Visible }));
    assert!(matches!(s.step(Some(false)), TabSearchAction::Probe { tab: 1, check: TabCheck::Visible }));
    assert!(matches!(s.step(Some(true)), TabSearchAction::Found(1)));
    let (mut s, _) = ActiveTabSearch::start(1);
    s.step(None);
    match s.step(None) {
        TabSearchAction::Fail(e) => assert_eq!(e.message(), "Tab operation failed: No active tab found"),
        _ => panic!(),
    }
    assert!(matches!(ActiveTabSearch::start(0).1, TabSearchAction::Fail(_)));
}

#[test]
fn readiness_wait() {
    let (mut w, act) = ReadinessWait::start();
    assert_eq!(w.deadline_ms, 30_000);
    assert!(matches!(act, ReadinessAction::CheckDeadline));
    assert!(matches!(w.deadline_checked(false), ReadinessAction::Probe(_)));
    assert!(matches!(w.probed(Ok(Some(false))), ReadinessAction::Sleep(100)));
    assert!(matches!(w.slept(), ReadinessAction::CheckDeadline));
    w.deadline_checked(false);
    assert!(matches!(w.probed(Ok(Some(true))), ReadinessAction::Finish(Ok(()))));
    let (mut w, _) = ReadinessWait::start();
    match w.deadline_checked(true) {
        ReadinessAction::Finish(Err(e)) => assert_eq!(e.message(), "Navigation failed: Timed out waiting for LightPanda document readiness"),
        _ => panic!(),
    }
}

#[test]
fn endpoint_wait() {
    let (mut w, _) = EndpointWait::start("http://127.0.0.1:1/json/version".to_string(), 0);
    assert_eq!(w.deadline_ms, 1);
    assert!(matches!(w.deadline_checked(false), EndpointAction::CheckProcess));
    assert!(matches!(w.process_checked(Ok(None)), EndpointAction::FetchVersion));
    assert!(matches!(w.fetched(Err("refused".to_string())), EndpointAction::Sleep(100)));
    w.slept();
    match w.deadline_checked(true) {
        EndpointAction::Finish(Err(e)) => assert_eq!(
            e.message(),
            "Operation timed out: Timed out waiting for LightPanda CDP endpoint at http://127.0.0.1:1/json/version: refused"
        ),
        _ => panic!(),
    }
    let (mut w, _) = EndpointWait::start("u".to_string(), 5);
    w.deadline_checked(false);
    match w.process_checked(Ok(Some("exit status: 1".to_string()))) {
        EndpointAction::Finish(Err(e)) => assert_eq!(e.message(), "Failed to launch browser: LightPanda exited before CDP became available: exit status: 1"),
        _ => panic!(),
    }
    let (mut w, _) = EndpointWait::start("u".to_string(), 5);
    w.deadline_checked(false);
    w.process_checked(Ok(None));
    assert!(matches!(w.fetched(Ok("ws://x".to_string())), EndpointAction::Finish(Ok(ref s)) if s == "ws://x"));
    let (mut w, _) = EndpointWait::start("u".to_string(), 5);
    match w.deadline_checked(true) {
        EndpointAction::Finish(Err(e)) => assert!(e.message().ends_with("at u: unknown error")),
        _ => panic!(),
    }
}

#[test]
fn tool_call_answers() {
    assert_eq!(convert_result(true, Some("{}".to_string()), None), Ok("{}".to_string()));
    assert_eq!(convert_result(true, None, None), Ok("Success".to_string()));
    assert_eq!(convert_result(false, None, Some("bad".to_string())), Err("bad".to_string()));
    assert_eq!(convert_result(false, Some("{}".to_string()), None), Err("Unknown error".to_string()));
}

#[test]
fn find_in_path_selects_first_yes() {
    let c = vec!["a".to_string(), "b".to_string(), "c".to_string()];
    assert_eq!(find_in_path(&c, &vec![false, true, false]), Some("b".to_string()));
    assert_eq!(find_in_path(&c, &vec![true, true, true]), Some("a".to_string()));
    assert_eq!(find_in_path(&c, &vec![false, false, false]), None);
    assert_eq!(find_in_path(&vec![], &vec![]), None);
}

#[test]
fn lightpanda_env_before_path() {
    let env = vec!["/env/lightpanda".to_string(), "/env/bin/lightpanda".to_string()];
    let path = vec!["/usr/bin/lightpanda".to_string()];
    let r = resolve_lightpanda_path(None, false, &env, &vec![true, true], &path, &vec![true]);
    assert_eq!(r.unwrap(), "/env/lightpanda");
    let r = resolve_lightpanda_path(None, false, &env, &vec![false, true], &path, &vec![true]);
    assert_eq!(r.unwrap(), "/env/bin/lightpanda");
    let r = resolve_lightpanda_path(None, false, &env, &vec![false, false], &path, &vec![true]);
    assert_eq!(r.unwrap(), "/usr/bin/lightpanda");
}

#[test]
fn headed_lightpanda_refused_before_launch() {
    assert!(check_lightpanda_options(&LaunchOptions::new()).is_ok());
    let e = check_lightpanda_options(&LaunchOptions::new().headless(false)).err().unwrap();
    assert!(matches!(e, BrowserError::LaunchFailed(ref m) if m == "LightPanda is headless-only; remove --headed or use --browser chrome"));
}

#[test]
fn lightpanda_markdown_only_on_lightpanda() {
    assert!(check_lightpanda_markdown(BrowserEngine::Lightpanda).is_ok());
    for engine in [BrowserEngine::Chrome, BrowserEngine::Auto] {
        let e = check_lightpanda_markdown(engine).err().unwrap();
        assert!(matches!(e, BrowserError::InvalidArgument(ref m) if m == "LP.getMarkdown is only available for LightPanda sessions"));
    }
}

#[test]
fn ws_url_from_member_outcomes() {
    assert_eq!(ws_url_from_member(Ok(Some("ws://h/d".to_string()))).unwrap(), "ws://h/d");
    assert_eq!(
        ws_url_from_member(Ok(None)).unwrap_err(),
        "missing webSocketDebuggerUrl in /json/version response"
    );
    assert_eq!(ws_url_from_member(Err("expected value".to_string())).unwrap_err(), "expected value");
}
