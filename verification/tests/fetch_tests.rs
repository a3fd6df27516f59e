use browser_use::error::BrowserError;
use browser_use::tools::fetch::{
    decode_failure, extract_full_document, get_page_string, is_not_found_error, navigation_failure,
    page_check_verdict, parse_extraction_result, Evaluation, ExtractionResult, FetchAction, FetchEvent,
    FetchState, PageCheck, PageFetch, RemoteObject, RemoteValue,
};

fn extraction(content: &str, readability_failed: bool) -> ExtractionResult {
    ExtractionResult {
        title: "Title".to_string(),
        content: content.to_string(),
        text_content: String::new(),
        url: "https://final".to_string(),
        excerpt: "ex".to_string(),
        byline: "by".to_string(),
        site_name: "site".to_string(),
        length: 0,
        lang: String::new(),
        dir: String::new(),
        published_time: String::new(),
        readability_failed,
        error: None,
    }
}

fn returned(value: Option<RemoteValue>) -> Evaluation {
    Evaluation::Returned(RemoteObject { value, description: None, remote_type: "Undefined".to_string() })
}

#[test]
fn not_found_patterns() {
    assert!(is_not_found_error("net::ERR_NAME_NOT_RESOLVED at x"));
    assert!(is_not_found_error("HTTP 404"));
    assert!(is_not_found_error("DNS failure"));
    assert!(!is_not_found_error("timeout"));
    assert!(!is_not_found_error("not found"));
}

#[test]
fn navigation_failure_answers() {
    let url = "https://x".to_string();
    let r = navigation_failure(BrowserError::NavigationFailed("got 404".to_string()), &url).ok().unwrap();
    assert_eq!(r.status_code, 404);
    assert_eq!(r.message, "Unable to access the page: Navigation failed: got 404");
    assert_eq!(r.url, "https://x");
    assert_eq!(r.title, "");
    let r = navigation_failure(BrowserError::NavigationFailed("net::ERR_CONNECTION_REFUSED".to_string()), &url)
        .ok()
        .unwrap();
    assert_eq!(r.status_code, 0);
    let e = navigation_failure(BrowserError::NavigationFailed("boom".to_string()), &url).err().unwrap();
    assert_eq!(e.message(), "Navigation failed: boom");
}

#[test]
fn page_check_verdicts() {
    let url = "https://x".to_string();
    let none = page_check_verdict(PageCheck { is_chrome_error: Some(false), is_404: None, title: None }, &url);
    assert!(none.is_none());
    let nf = page_check_verdict(
        PageCheck { is_chrome_error: None, is_404: Some(true), title: Some("Gone".to_string()) },
        &url,
    )
    .unwrap();
    assert_eq!(nf.status_code, 404);
    assert_eq!(nf.message, "The page returned a 404 Not Found error");
    assert_eq!(nf.title, "Gone");
    let ce = page_check_verdict(PageCheck { is_chrome_error: Some(true), is_404: Some(false), title: None }, &url)
        .unwrap();
    assert_eq!(ce.status_code, 0);
    assert_eq!(ce.message, "Unable to access the page (DNS or connection error)");
    assert_eq!(ce.title, "");
}

#[test]
fn page_strings_and_extraction_values() {
    assert_eq!(get_page_string(returned(Some(RemoteValue::Text("Hacker News".to_string())))).ok().unwrap(), "Hacker News");
    assert_eq!(get_page_string(returned(None)).ok().unwrap(), "");
    let e = get_page_string(Evaluation::Failed("bad".to_string())).err().unwrap();
    assert_eq!(e.message(), "JavaScript evaluation failed: bad");

    let e = parse_extraction_result(None, Some("oops".to_string()), "Object".to_string()).err().unwrap();
    assert_eq!(
        e.message(),
        "Tool 'get_page_as_markdown' execution failed: No value returned from JavaScript. Description: oops"
    );
    let e = parse_extraction_result(None, None, "Undefined".to_string()).err().unwrap();
    assert_eq!(
        e.message(),
        "Tool 'get_page_as_markdown' execution failed: No value returned from JavaScript. Type: Undefined"
    );
    match extract_full_document(returned(Some(RemoteValue::Structured(serde_json::Value::Bool(true))))) {
        Ok(RemoteValue::Structured(v)) => assert_eq!(v, serde_json::Value::Bool(true)),
        _ => panic!("expected a structured value"),
    }
    let e = extract_full_document(Evaluation::TabUnavailable(BrowserError::TabOperationFailed("none".to_string())))
        .err()
        .unwrap();
    assert_eq!(e.message(), "Tab operation failed: none");
    assert_eq!(
        decode_failure(true, "eof").message(),
        "Tool 'get_page_as_markdown' execution failed: Failed to parse extraction result: eof"
    );
    assert_eq!(
        decode_failure(false, "eof").message(),
        "Tool 'get_page_as_markdown' execution failed: Failed to deserialize extraction result: eof"
    );
}

#[test]
fn fetch_readability_path() {
    let (mut m, act) = PageFetch::start("https://example.com".to_string(), true, false);
    assert!(matches!(act, FetchAction::Navigate(ref u) if u == "https://example.com"));
    assert!(matches!(m.step(FetchEvent::Navigated(Ok(()))), FetchAction::WaitForNavigation));
    assert!(matches!(m.step(FetchEvent::NavigationWaited(Ok(()))), FetchAction::Sleep(1000)));
    assert!(matches!(m.step(FetchEvent::Slept), FetchAction::CheckPage));
    assert!(matches!(m.step(FetchEvent::PageChecked(Ok(None))), FetchAction::RunReadability));
    let act = m.step(FetchEvent::Evaluated(returned(Some(RemoteValue::Text("{}".to_string())))));
    assert!(matches!(act, FetchAction::Decode(RemoteValue::Text(ref t)) if t == "{}"));
    match m.step(FetchEvent::Decoded(Ok(extraction("<h1>Hello</h1>", false)))) {
        FetchAction::Paginate(src) => {
            assert_eq!(src.markdown, "# Hello");
            assert_eq!(src.title, "Title");
            assert_eq!(src.url, "https://final");
            assert_eq!(src.byline, "by");
            assert_eq!(src.excerpt, "ex");
            assert_eq!(src.site_name, "site");
        },
        _ => panic!("expected pagination"),
    }
    assert!(matches!(m.state, FetchState::Finished));
}

#[test]
fn fetch_falls_back_to_full_document_once() {
    let (mut m, _) = PageFetch::start("u".to_string(), false, false);
    assert!(matches!(m.step(FetchEvent::Navigated(Ok(()))), FetchAction::Sleep(1000)));
    m.step(FetchEvent::Slept);
    m.step(FetchEvent::PageChecked(Ok(None)));
    // Readability could not be run at all
    assert!(matches!(m.step(FetchEvent::Evaluated(Evaluation::Failed("x".to_string()))), FetchAction::ExtractFullDocument));
    m.step(FetchEvent::Evaluated(returned(Some(RemoteValue::Text("{}".to_string())))));
    // the first result reports a Readability failure: one more extraction
    assert!(matches!(m.step(FetchEvent::Decoded(Ok(extraction("a", true)))), FetchAction::ExtractFullDocument));
    m.step(FetchEvent::Evaluated(returned(Some(RemoteValue::Text("{}".to_string())))));
    // the second is used whatever it says
    assert!(matches!(m.step(FetchEvent::Decoded(Ok(extraction("<p>b</p>", true)))), FetchAction::Paginate(ref src) if src.markdown == "b"));
}

#[test]
fn fetch_not_found_paths() {
    let (mut m, _) = PageFetch::start("https://nowhere".to_string(), true, false);
    match m.step(FetchEvent::Navigated(Err(BrowserError::NavigationFailed("net::ERR_NAME_NOT_RESOLVED".to_string())))) {
        FetchAction::Finish(Ok(nf)) => {
            assert_eq!(nf.status_code, 0);
            assert_eq!(nf.url, "https://nowhere");
        },
        _ => panic!("expected not found"),
    }
    let (mut m, _) = PageFetch::start("u".to_string(), true, false);
    m.step(FetchEvent::Navigated(Ok(())));
    match m.step(FetchEvent::NavigationWaited(Err(BrowserError::NavigationFailed("Navigation timeout".to_string())))) {
        FetchAction::Finish(Err(e)) => assert_eq!(e.message(), "Navigation failed: Navigation timeout"),
        _ => panic!("expected the error"),
    }
    let (mut m, _) = PageFetch::start("u".to_string(), false, false);
    m.step(FetchEvent::Navigated(Ok(())));
    m.step(FetchEvent::Slept);
    let check = PageCheck { is_chrome_error: Some(false), is_404: Some(true), title: Some("404".to_string()) };
    match m.step(FetchEvent::PageChecked(Ok(Some(check)))) {
        FetchAction::Finish(Ok(nf)) => {
            assert_eq!(nf.status_code, 404);
            assert_eq!(nf.title, "404");
        },
        _ => panic!("expected not found"),
    }
}

#[test]
fn fetch_lightpanda_path() {
    let (mut m, _) = PageFetch::start("https://news.ycombinator.com/".to_string(), true, true);
    m.step(FetchEvent::Navigated(Ok(())));
    m.step(FetchEvent::NavigationWaited(Ok(())));
    m.step(FetchEvent::Slept);
    assert!(matches!(m.step(FetchEvent::PageChecked(Ok(None))), FetchAction::ReadLightpandaMarkdown));
    assert!(matches!(m.step(FetchEvent::LightpandaMarkdownRead(Ok("md".to_string()))), FetchAction::ReadPageString("document.title")));
    assert!(matches!(
        m.step(FetchEvent::Evaluated(returned(Some(RemoteValue::Text("Hacker News".to_string()))))),
        FetchAction::ReadPageString("window.location.href")
    ));
    match m.step(FetchEvent::Evaluated(returned(Some(RemoteValue::Text("https://news.ycombinator.com/".to_string()))))) {
        FetchAction::Paginate(src) => {
            assert_eq!(src.markdown, "md");
            assert_eq!(src.title, "Hacker News");
            assert_eq!(src.url, "https://news.ycombinator.com/");
            assert_eq!(src.byline, "");
        },
        _ => panic!("expected pagination"),
    }
}

#[test]
fn fetch_decode_failure() {
    let (mut m, _) = PageFetch::start("u".to_string(), false, false);
    m.step(FetchEvent::Navigated(Ok(())));
    m.step(FetchEvent::Slept);
    m.step(FetchEvent::PageChecked(Ok(None)));
    m.step(FetchEvent::Evaluated(returned(Some(RemoteValue::Structured(serde_json::Value::Null)))));
    match m.step(FetchEvent::Decoded(Err("invalid type".to_string()))) {
        FetchAction::Finish(Err(e)) => assert_eq!(
            e.message(),
            "Tool 'get_page_as_markdown' execution failed: Failed to deserialize extraction result: invalid type"
        ),
        _ => panic!("expected a failure"),
    }
}
