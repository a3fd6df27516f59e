//! The decisions that the page tool takes while it drives the browser: how a failed
//! navigation is answered, when a loaded page counts as "not found", where the content
//! is extracted from, and in which order the browser is asked for what.
//!
//! The browser work itself (navigating, waiting, evaluating scripts, decoding the JSON
//! that a script returns) is done by the caller, who feeds each outcome
//! back as an event; `PageFetch::step` answers with the next thing to do.

use vstd::prelude::*;
use crate::error::{BrowserError, BrowserErrorView, error_message};
use crate::text::{contains, str_contains};
use crate::tools::html_to_markdown::{convert_html_to_markdown, htmd_markdown};

verus! {

#[verifier::external_type_specification]
#[verifier::external_body]
pub struct ExJsonValue(serde_json::Value);

/// A value that a script returned: a JSON string, or any other JSON value (carried as is).
pub enum RemoteValue {
    Text(String),
    Structured(serde_json::Value),
}

/// What the browser handed back for an evaluated script.
pub struct RemoteObject {
    pub value: Option<RemoteValue>,
    pub description: Option<String>,
    /// The remote object's type, as printed with `{:?}`.
    pub remote_type: String,
}

/// The outcome of asking the active tab to evaluate a script.
pub enum Evaluation {
    /// No active tab could be obtained.
    TabUnavailable(BrowserError),
    /// The evaluation itself failed, with this message.
    Failed(String),
    Returned(RemoteObject),
}

/// Answer for a page that could not be reached or that reports itself as missing.
pub struct PageNotFound {
    pub message: String,
    pub url: String,
    pub title: String,
    pub status_code: u16,
}

/// What a script that inspects the loaded page reported (each entry absent when the
/// script's result did not hold it with the expected type).
pub struct PageCheck {
    pub is_chrome_error: Option<bool>,
    pub is_404: Option<bool>,
    pub title: Option<String>,
}

/// The article that the extraction scripts produce.
pub struct ExtractionResult {
    pub title: String,
    pub content: String,
    pub text_content: String,
    pub url: String,
    pub excerpt: String,
    pub byline: String,
    pub site_name: String,
    pub length: usize,
    pub lang: String,
    pub dir: String,
    pub published_time: String,
    pub readability_failed: bool,
    pub error: Option<String>,
}

/// The Markdown of a page and its metadata, ready to be paginated.
pub struct PageSource {
    pub markdown: String,
    pub title: String,
    pub url: String,
    pub byline: String,
    pub excerpt: String,
    pub site_name: String,
}

/// Messages of navigation errors that mean the page does not exist or cannot be reached.
pub open spec fn is_not_found_message(msg: Seq<char>) -> bool {
    ||| contains(msg, "404"@)
    ||| contains(msg, "Not Found"@)
    ||| contains(msg, "net::ERR_NAME_NOT_RESOLVED"@)
    ||| contains(msg, "net::ERR_CONNECTION_REFUSED"@)
    ||| contains(msg, "net::ERR_INTERNET_DISCONNECTED"@)
    ||| contains(msg, "net::ERR_NAME_RESOLUTION_FAILED"@)
    ||| contains(msg, "DNS"@)
}

/// The status code reported for a navigation error that means "not found".
pub open spec fn not_found_status(msg: Seq<char>) -> u16 {
    if contains(msg, "404"@) || contains(msg, "Not Found"@) {
        404
    } else {
        0
    }
}

/// `r` is how a navigation that failed with `e` is answered: a "not found" answer when
/// the error's message says so, the error itself otherwise.
pub open spec fn navigation_answer(e: BrowserError, url: Seq<char>, r: Result<PageNotFound, BrowserError>) -> bool {
    let msg = error_message(e@);
    if is_not_found_message(msg) {
        &&& r is Ok
        &&& r->Ok_0.message@ == "Unable to access the page: "@ + msg
        &&& r->Ok_0.url@ == url
        &&& r->Ok_0.title@ == Seq::<char>::empty()
        &&& r->Ok_0.status_code == not_found_status(msg)
    } else {
        r == Err::<PageNotFound, BrowserError>(e)
    }
}

/// Whether a navigation error message means "not found".
pub fn is_not_found_error(msg: &str) -> (res: bool)
    ensures
        res == is_not_found_message(msg@),
{
    str_contains(msg, "404") || str_contains(msg, "Not Found") || str_contains(
        msg,
        "net::ERR_NAME_NOT_RESOLVED",
    ) || str_contains(msg, "net::ERR_CONNECTION_REFUSED") || str_contains(
        msg,
        "net::ERR_INTERNET_DISCONNECTED",
    ) || str_contains(msg, "net::ERR_NAME_RESOLUTION_FAILED") || str_contains(msg, "DNS")
}

/// Answers a failed navigation to `url` (see `navigation_answer`).
pub fn navigation_failure(e: BrowserError, url: &String) -> (res: Result<PageNotFound, BrowserError>)
    ensures
        navigation_answer(e, url@, res),
{
    let msg = e.message();
    if is_not_found_error(msg.as_str()) {
        let status: u16 = if str_contains(msg.as_str(), "404") || str_contains(
            msg.as_str(),
            "Not Found",
        ) {
            404
        } else {
            0
        };
        let mut message = "Unable to access the page: ".to_owned();
        message.append(msg.as_str());
        Ok(PageNotFound { message, url: url.clone(), title: String::new(), status_code: status })
    } else {
        Err(e)
    }
}

/// `r` is the verdict on a loaded page that the inspection script described as `check`:
/// a "not found" answer when it reports a browser error page or a 404 page.
pub open spec fn page_check_answer(check: PageCheck, url: Seq<char>, r: Option<PageNotFound>) -> bool {
    let is_error = check.is_chrome_error == Some(true);
    let is_404 = check.is_404 == Some(true);
    if is_error || is_404 {
        &&& r is Some
        &&& r->0.message@ == (if is_404 {
            "The page returned a 404 Not Found error"@
        } else {
            "Unable to access the page (DNS or connection error)"@
        })
        &&& r->0.url@ == url
        &&& r->0.title@ == (match check.title {
            Some(t) => t@,
            None => Seq::<char>::empty(),
        })
        &&& r->0.status_code == (if is_404 { 404u16 } else { 0u16 })
    } else {
        r is None
    }
}

/// The verdict on a loaded page (see `page_check_answer`).
pub fn page_check_verdict(check: PageCheck, url: &String) -> (res: Option<PageNotFound>)
    ensures
        page_check_answer(check, url@, res),
{
    let is_chrome_error = check.is_chrome_error.unwrap_or(false);
    let is_404 = check.is_404.unwrap_or(false);
    if is_chrome_error || is_404 {
        let message = if is_404 {
            "The page returned a 404 Not Found error".to_owned()
        } else {
            "Unable to access the page (DNS or connection error)".to_owned()
        };
        let title = match check.title {
            Some(t) => t,
            None => String::new(),
        };
        Some(
            PageNotFound {
                message,
                url: url.clone(),
                title,
                status_code: if is_404 { 404 } else { 0 },
            },
        )
    } else {
        None
    }
}

/// The text of a returned value: the string itself, or empty for anything else.
pub open spec fn returned_text(v: Option<RemoteValue>) -> Seq<char> {
    match v {
        Some(RemoteValue::Text(s)) => s@,
        _ => Seq::empty(),
    }
}

/// `r` is the page string read by an evaluation: the tab's error, an evaluation error,
/// or the returned text.
pub open spec fn page_string_answer(ev: Evaluation, r: Result<String, BrowserError>) -> bool {
    match ev {
        Evaluation::TabUnavailable(e) => r == Err::<String, BrowserError>(e),
        Evaluation::Failed(m) => r is Err && r->Err_0@ == BrowserErrorView::EvaluationFailed(m@),
        Evaluation::Returned(o) => r is Ok && r->Ok_0@ == returned_text(o.value),
    }
}

/// The string that an evaluated expression yielded (see `page_string_answer`).
pub fn get_page_string(ev: Evaluation) -> (res: Result<String, BrowserError>)
    ensures
        page_string_answer(ev, res),
{
    match ev {
        Evaluation::TabUnavailable(e) => Err(e),
        Evaluation::Failed(m) => Err(BrowserError::EvaluationFailed(m)),
        Evaluation::Returned(o) => match o.value {
            Some(RemoteValue::Text(s)) => Ok(s),
            _ => Ok(String::new()),
        },
    }
}

/// The name under which the page tool reports its failures.
pub open spec fn tool_name() -> Seq<char> {
    "get_page_as_markdown"@
}

/// The reason given when a script returned no value.
pub open spec fn missing_value_reason(description: Option<String>, remote_type: Seq<char>) -> Seq<char> {
    "No value returned from JavaScript. "@ + match description {
        Some(d) => "Description: "@ + d@,
        None => "Type: "@ + remote_type,
    }
}

/// `r` is what an extraction script's result yields: its value to decode, or a tool
/// failure when there is none.
pub open spec fn extraction_answer(
    value: Option<RemoteValue>,
    description: Option<String>,
    remote_type: Seq<char>,
    r: Result<RemoteValue, BrowserError>,
) -> bool {
    match value {
        Some(v) => r == Ok::<RemoteValue, BrowserError>(v),
        None => r is Err && r->Err_0@ == BrowserErrorView::ToolExecutionFailed {
            tool: tool_name(),
            reason: missing_value_reason(description, remote_type),
        },
    }
}

/// Takes the value of an extraction script's result (see `extraction_answer`).
pub fn parse_extraction_result(
    value: Option<RemoteValue>,
    description: Option<String>,
    remote_type: String,
) -> (res: Result<RemoteValue, BrowserError>)
    ensures
        extraction_answer(value, description, remote_type@, res),
{
    match value {
        Some(v) => Ok(v),
        None => {
            let mut reason = "No value returned from JavaScript. ".to_owned();
            match description {
                Some(d) => {
                    reason.append("Description: ");
                    reason.append(d.as_str());
                    assert(reason@ =~= missing_value_reason(Some(d), remote_type@));
                },
                None => {
                    reason.append("Type: ");
                    reason.append(remote_type.as_str());
                    assert(reason@ =~= missing_value_reason(None, remote_type@));
                },
            }
            Err(
                BrowserError::ToolExecutionFailed {
                    tool: "get_page_as_markdown".to_owned(),
                    reason,
                },
            )
        },
    }
}

/// `r` is what the whole-document extraction script's evaluation yields.
pub open spec fn full_document_answer(ev: Evaluation, r: Result<RemoteValue, BrowserError>) -> bool {
    match ev {
        Evaluation::TabUnavailable(e) => r == Err::<RemoteValue, BrowserError>(e),
        Evaluation::Failed(m) => r is Err && r->Err_0@ == BrowserErrorView::EvaluationFailed(m@),
        Evaluation::Returned(o) => extraction_answer(o.value, o.description, o.remote_type@, r),
    }
}

/// The value to decode from the whole-document extraction (see `full_document_answer`).
pub fn extract_full_document(ev: Evaluation) -> (res: Result<RemoteValue, BrowserError>)
    ensures
        full_document_answer(ev, res),
{
    match ev {
        Evaluation::TabUnavailable(e) => Err(e),
        Evaluation::Failed(m) => Err(BrowserError::EvaluationFailed(m)),
        Evaluation::Returned(o) => parse_extraction_result(o.value, o.description, o.remote_type),
    }
}

/// The reason given when an extraction result could not be decoded.
pub open spec fn decode_failure_reason(from_text: bool, err: Seq<char>) -> Seq<char> {
    if from_text {
        "Failed to parse extraction result: "@ + err
    } else {
        "Failed to deserialize extraction result: "@ + err
    }
}

/// The failure reported when an extraction result (JSON text when `from_text`, a JSON
/// value otherwise) could not be decoded, with the decoder's message `err`.
pub fn decode_failure(from_text: bool, err: &str) -> (res: BrowserError)
    ensures
        res@ == (BrowserErrorView::ToolExecutionFailed {
            tool: tool_name(),
            reason: decode_failure_reason(from_text, err@),
        }),
{
    let mut reason = if from_text {
        "Failed to parse extraction result: ".to_owned()
    } else {
        "Failed to deserialize extraction result: ".to_owned()
    };
    reason.append(err);
    BrowserError::ToolExecutionFailed { tool: "get_page_as_markdown".to_owned(), reason }
}

/// Where the page tool stands between two pieces of browser work.
pub enum FetchState {
    Navigating,
    WaitingForLoad,
    Settling,
    CheckingPage,
    ReadingLightpandaMarkdown,
    ReadingTitle { markdown: String },
    ReadingUrl { markdown: String, title: String },
    RunningReadability,
    /// `first` when no extraction result has been examined yet.
    ExtractingFullDocument { first: bool },
    Decoding { first: bool, from_text: bool },
    Finished,
}

/// The outcome of the last piece of browser work.
pub enum FetchEvent {
    Navigated(Result<(), BrowserError>),
    NavigationWaited(Result<(), BrowserError>),
    Slept,
    /// `Ok(None)` when the inspection script could not be run or returned nothing.
    PageChecked(Result<Option<PageCheck>, BrowserError>),
    LightpandaMarkdownRead(Result<String, BrowserError>),
    Evaluated(Evaluation),
    /// The decoded extraction result, or the decoder's error message.
    Decoded(Result<ExtractionResult, String>),
}

/// The next piece of browser work, or the tool's answer.
pub enum FetchAction {
    Navigate(String),
    WaitForNavigation,
    /// Pause for this many milliseconds so that dynamic content can load.
    Sleep(u64),
    /// Evaluate the script that looks for browser error pages and 404 pages.
    CheckPage,
    /// Ask LightPanda for its own Markdown rendering of the page.
    ReadLightpandaMarkdown,
    /// Evaluate this expression and read its string value.
    ReadPageString(&'static str),
    /// Evaluate the Readability-based extraction script.
    RunReadability,
    /// Evaluate the whole-document extraction script.
    ExtractFullDocument,
    /// Decode this value into an `ExtractionResult`.
    Decode(RemoteValue),
    /// Paginate this Markdown with `markdown_tool_result`; the tool's answer is that page.
    Paginate(PageSource),
    /// The tool's answer.
    Finish(Result<PageNotFound, BrowserError>),
}

/// The page tool's run on one URL.
pub struct PageFetch {
    /// The URL to load, already normalized.
    pub url: String,
    pub wait_for_load: bool,
    /// The session is backed by LightPanda, which renders Markdown itself.
    pub is_lightpanda: bool,
    pub state: FetchState,
}

/// `r` reports why the evaluation `ev` yielded no value: the tab's error, or the
/// evaluation's message as an evaluation failure.
pub open spec fn evaluation_failure(ev: Evaluation, r: Result<PageNotFound, BrowserError>) -> bool {
    match ev {
        Evaluation::TabUnavailable(e) => r == Err::<PageNotFound, BrowserError>(e),
        Evaluation::Failed(m) => r is Err && r->Err_0@ == BrowserErrorView::EvaluationFailed(m@),
        Evaluation::Returned(_) => false,
    }
}

/// The event that answers the work requested on entering `state`.
pub open spec fn expects(state: FetchState, event: FetchEvent) -> bool {
    match state {
        FetchState::Navigating => event is Navigated,
        FetchState::WaitingForLoad => event is NavigationWaited,
        FetchState::Settling => event is Slept,
        FetchState::CheckingPage => event is PageChecked,
        FetchState::ReadingLightpandaMarkdown => event is LightpandaMarkdownRead,
        FetchState::ReadingTitle { .. } => event is Evaluated,
        FetchState::ReadingUrl { .. } => event is Evaluated,
        FetchState::RunningReadability => event is Evaluated,
        FetchState::ExtractingFullDocument { .. } => event is Evaluated,
        FetchState::Decoding { .. } => event is Decoded,
        FetchState::Finished => false,
    }
}

/// What follows a completed (or skipped) wait for the page to load.
pub open spec fn after_load(next: FetchState, act: FetchAction) -> bool {
    next is Settling && act == FetchAction::Sleep(1000)
}

/// The extraction path chosen once the page has been found to exist.
pub open spec fn after_check(m: PageFetch, next: FetchState, act: FetchAction) -> bool {
    if m.is_lightpanda {
        next is ReadingLightpandaMarkdown && act is ReadLightpandaMarkdown
    } else {
        next is RunningReadability && act is RunReadability
    }
}

/// `act` hands over a value to decode, and `next` waits for that decoding.
pub open spec fn decode_next(
    first: bool,
    r: Result<RemoteValue, BrowserError>,
    next: FetchState,
    act: FetchAction,
) -> bool {
    match r {
        Ok(v) => {
            &&& next == FetchState::Decoding { first, from_text: v is Text }
            &&& act == FetchAction::Decode(v)
        },
        Err(e) => next is Finished && act == FetchAction::Finish(Err(e)),
    }
}

/// One step of the page tool: from `m` and the outcome `event` of the work it asked
/// for, the next state `next` and the next work `act`.
pub open spec fn fetch_step(m: PageFetch, event: FetchEvent, next: FetchState, act: FetchAction) -> bool {
    match m.state {
        FetchState::Navigating | FetchState::WaitingForLoad => match event {
            FetchEvent::Navigated(r) | FetchEvent::NavigationWaited(r) => match r {
                Ok(_) => if m.state is Navigating && m.wait_for_load {
                    next is WaitingForLoad && act is WaitForNavigation
                } else {
                    after_load(next, act)
                },
                Err(e) => next is Finished && act is Finish && navigation_answer(
                    e,
                    m.url@,
                    act->Finish_0,
                ),
            },
            _ => false,
        },
        FetchState::Settling => next is CheckingPage && act is CheckPage,
        FetchState::CheckingPage => match event {
            FetchEvent::PageChecked(Err(e)) => next is Finished && act == FetchAction::Finish(
                Err(e),
            ),
            FetchEvent::PageChecked(Ok(Some(check))) if check.is_chrome_error == Some(true)
                || check.is_404 == Some(true) => {
                &&& next is Finished
                &&& act matches FetchAction::Finish(Ok(nf))
                &&& page_check_answer(check, m.url@, Some(nf))
            },
            FetchEvent::PageChecked(Ok(_)) => after_check(m, next, act),
            _ => false,
        },
        FetchState::ReadingLightpandaMarkdown => match event {
            FetchEvent::LightpandaMarkdownRead(Ok(md)) => {
                &&& next == FetchState::ReadingTitle { markdown: md }
                &&& act matches FetchAction::ReadPageString(e) && e@ == "document.title"@
            },
            FetchEvent::LightpandaMarkdownRead(Err(e)) => next is Finished && act
                == FetchAction::Finish(Err(e)),
            _ => false,
        },
        FetchState::ReadingTitle { markdown } => match event {
            FetchEvent::Evaluated(ev) => match ev {
                Evaluation::Returned(o) => {
                    &&& next matches FetchState::ReadingUrl { markdown: md, title }
                    &&& md == markdown && title@ == returned_text(o.value)
                    &&& act matches FetchAction::ReadPageString(e) && e@
                        == "window.location.href"@
                },
                _ => next is Finished && act is Finish && evaluation_failure(ev, act->Finish_0),
            },
            _ => false,
        },
        FetchState::ReadingUrl { markdown, title } => match event {
            FetchEvent::Evaluated(ev) => match ev {
                Evaluation::Returned(o) => {
                    &&& next is Finished
                    &&& act matches FetchAction::Paginate(src)
                    &&& src.markdown == markdown && src.title == title
                    &&& src.url@ == returned_text(o.value)
                    &&& src.byline@ == Seq::<char>::empty()
                    &&& src.excerpt@ == Seq::<char>::empty()
                    &&& src.site_name@ == Seq::<char>::empty()
                },
                _ => next is Finished && act is Finish && evaluation_failure(ev, act->Finish_0),
            },
            _ => false,
        },
        FetchState::RunningReadability => match event {
            FetchEvent::Evaluated(Evaluation::TabUnavailable(e)) => next is Finished && act
                == FetchAction::Finish(Err(e)),
            FetchEvent::Evaluated(Evaluation::Failed(_)) => next
                == FetchState::ExtractingFullDocument { first: true } && act
                is ExtractFullDocument,
            FetchEvent::Evaluated(Evaluation::Returned(o)) => exists|
                r: Result<RemoteValue, BrowserError>,
            |
                extraction_answer(o.value, o.description, o.remote_type@, r) && decode_next(
                    true,
                    r,
                    next,
                    act,
                ),
            _ => false,
        },
        FetchState::ExtractingFullDocument { first } => match event {
            FetchEvent::Evaluated(ev) => exists|r: Result<RemoteValue, BrowserError>|
                full_document_answer(ev, r) && decode_next(first, r, next, act),
            _ => false,
        },
        FetchState::Decoding { first, from_text } => match event {
            FetchEvent::Decoded(Err(err)) => {
                &&& next is Finished
                &&& act matches FetchAction::Finish(Err(e))
                &&& e@ == (BrowserErrorView::ToolExecutionFailed {
                    tool: tool_name(),
                    reason: decode_failure_reason(from_text, err@),
                })
            },
            FetchEvent::Decoded(Ok(x)) => if first && x.readability_failed {
                next == FetchState::ExtractingFullDocument { first: false } && act
                    is ExtractFullDocument
            } else {
                &&& next is Finished
                &&& act matches FetchAction::Paginate(src)
                &&& src.markdown@ == htmd_markdown(x.content@)
                &&& src.title == x.title && src.url == x.url
                &&& src.byline == x.byline && src.excerpt == x.excerpt
                &&& src.site_name == x.site_name
            },
            _ => false,
        },
        FetchState::Finished => false,
    }
}

/// How much work can still lie ahead of the page tool in `state`, at most.
pub open spec fn fetch_rank(state: FetchState) -> nat {
    match state {
        FetchState::Navigating => 13,
        FetchState::WaitingForLoad => 12,
        FetchState::Settling => 11,
        FetchState::CheckingPage => 10,
        FetchState::ReadingLightpandaMarkdown => 9,
        FetchState::ReadingTitle { .. } => 8,
        FetchState::ReadingUrl { .. } => 7,
        FetchState::RunningReadability => 7,
        FetchState::ExtractingFullDocument { first } => if first { 6 } else { 4 },
        FetchState::Decoding { first, .. } => if first { 5 } else { 3 },
        FetchState::Finished => 0,
    }
}

/// Every step of the page tool brings it strictly closer to its answer, so it asks the
/// browser for a bounded amount of work; and it stops exactly when it hands out its
/// answer (a "not found" answer or an error, or the Markdown to paginate).
pub proof fn lemma_fetch_progress(m: PageFetch, event: FetchEvent, next: FetchState, act: FetchAction)
    requires
        expects(m.state, event),
        fetch_step(m, event, next, act),
    ensures
        fetch_rank(next) < fetch_rank(m.state),
        (next is Finished) <==> (act is Finish || act is Paginate),
{
}

/// A navigation whose error message mentions 404 is answered as a missing page with
/// status code 404, not as a failure of the tool.
pub proof fn lemma_404_navigation_is_not_found(e: BrowserError, url: Seq<char>, r: Result<PageNotFound, BrowserError>)
    requires
        contains(error_message(e@), "404"@),
        navigation_answer(e, url, r),
    ensures
        r is Ok,
        r->Ok_0.status_code == 404,
        r->Ok_0.url@ == url,
{
}

/// A navigation whose error message mentions "Not Found" is answered as a missing page
/// with status code 404.
pub proof fn lemma_not_found_navigation_is_404(e: BrowserError, url: Seq<char>, r: Result<PageNotFound, BrowserError>)
    requires
        contains(error_message(e@), "Not Found"@),
        navigation_answer(e, url, r),
    ensures
        r is Ok,
        r->Ok_0.status_code == 404,
        r->Ok_0.url@ == url,
{
}

/// A navigation that failed because the host could not be resolved or reached, or the
/// machine is offline (its message mentions `pattern`, one of the DNS and connection
/// errors), is answered as a missing page at `url`, with the error's message after
/// "Unable to access the page: ", an empty title, and status code 0 unless the message
/// also mentions "404" or "Not Found".
pub proof fn lemma_unreachable_navigation_is_not_found(
    e: BrowserError,
    url: Seq<char>,
    pattern: Seq<char>,
    r: Result<PageNotFound, BrowserError>,
)
    requires
        pattern == "net::ERR_NAME_NOT_RESOLVED"@ || pattern == "net::ERR_CONNECTION_REFUSED"@
            || pattern == "net::ERR_INTERNET_DISCONNECTED"@ || pattern
            == "net::ERR_NAME_RESOLUTION_FAILED"@ || pattern == "DNS"@,
        contains(error_message(e@), pattern),
        navigation_answer(e, url, r),
    ensures
        r is Ok,
        r->Ok_0.url@ == url,
        r->Ok_0.message@ == "Unable to access the page: "@ + error_message(e@),
        r->Ok_0.title@ == Seq::<char>::empty(),
        r->Ok_0.status_code == (if contains(error_message(e@), "404"@) || contains(
            error_message(e@),
            "Not Found"@,
        ) {
            404u16
        } else {
            0u16
        }),
{
}

/// A navigation error that mentions none of the "not found" patterns is returned as
/// it is: the tool fails with that error.
pub proof fn lemma_other_navigation_error_is_returned(
    e: BrowserError,
    url: Seq<char>,
    r: Result<PageNotFound, BrowserError>,
)
    requires
        !contains(error_message(e@), "404"@),
        !contains(error_message(e@), "Not Found"@),
        !contains(error_message(e@), "net::ERR_NAME_NOT_RESOLVED"@),
        !contains(error_message(e@), "net::ERR_CONNECTION_REFUSED"@),
        !contains(error_message(e@), "net::ERR_INTERNET_DISCONNECTED"@),
        !contains(error_message(e@), "net::ERR_NAME_RESOLUTION_FAILED"@),
        !contains(error_message(e@), "DNS"@),
        navigation_answer(e, url, r),
    ensures
        r == Err::<PageNotFound, BrowserError>(e),
{
}

/// On the LightPanda path, the title handed on is the text that evaluating
/// `document.title` returned (empty when it returned no text), and the Markdown read
/// from LightPanda is carried along unchanged.
pub proof fn lemma_lightpanda_title(
    m: PageFetch,
    markdown: String,
    o: RemoteObject,
    next: FetchState,
    act: FetchAction,
)
    requires
        m.state == (FetchState::ReadingTitle { markdown }),
        fetch_step(m, FetchEvent::Evaluated(Evaluation::Returned(o)), next, act),
    ensures
        next matches FetchState::ReadingUrl { markdown: md, title } && md == markdown && (
        o.value matches Some(RemoteValue::Text(t)) ==> title@ == t@) && (!(o.value matches Some(
            RemoteValue::Text(_),
        )) ==> title@ == Seq::<char>::empty()),
        act matches FetchAction::ReadPageString(e) && e@ == "window.location.href"@,
{
}

/// On the LightPanda path, the page handed to pagination has the URL that evaluating
/// `window.location.href` returned (the page's final address, whatever URL was
/// requested; empty when it returned no text), with the Markdown and title read before
/// and no byline, excerpt or site name.
pub proof fn lemma_lightpanda_final_url(
    m: PageFetch,
    markdown: String,
    title: String,
    o: RemoteObject,
    next: FetchState,
    act: FetchAction,
)
    requires
        m.state == (FetchState::ReadingUrl { markdown, title }),
        fetch_step(m, FetchEvent::Evaluated(Evaluation::Returned(o)), next, act),
    ensures
        next is Finished,
        act matches FetchAction::Paginate(src) && src.markdown == markdown && src.title == title
            && (o.value matches Some(RemoteValue::Text(u)) ==> src.url@ == u@) && (!(
        o.value matches Some(RemoteValue::Text(_))) ==> src.url@ == Seq::<char>::empty())
            && src.byline@ == Seq::<char>::empty() && src.excerpt@ == Seq::<char>::empty()
            && src.site_name@ == Seq::<char>::empty(),
{
}

/// On the LightPanda path, reading the title or the URL fails the tool: with the tab's
/// error when no tab is available, or with an evaluation failure carrying the
/// evaluation's message.
pub proof fn lemma_lightpanda_read_failures(m: PageFetch, ev: Evaluation, next: FetchState, act: FetchAction)
    requires
        m.state is ReadingTitle || m.state is ReadingUrl,
        !(ev is Returned),
        fetch_step(m, FetchEvent::Evaluated(ev), next, act),
    ensures
        next is Finished,
        ev matches Evaluation::TabUnavailable(e) ==> act == FetchAction::Finish(
            Err::<PageNotFound, BrowserError>(e),
        ),
        ev matches Evaluation::Failed(msg) ==> (act matches FetchAction::Finish(Err(e)) && e@
            == BrowserErrorView::EvaluationFailed(msg@)),
{
}

/// The extracted article is handed to pagination field by field: its HTML converted to
/// Markdown, and its title, URL, byline, excerpt and site name unchanged. Only a first
/// extraction that reports a Readability failure is redone, once, from the whole
/// document.
pub proof fn lemma_extraction_handoff(
    m: PageFetch,
    first: bool,
    from_text: bool,
    x: ExtractionResult,
    next: FetchState,
    act: FetchAction,
)
    requires
        m.state == (FetchState::Decoding { first, from_text }),
        fetch_step(m, FetchEvent::Decoded(Ok(x)), next, act),
    ensures
        (first && x.readability_failed) ==> next == (FetchState::ExtractingFullDocument {
            first: false,
        }) && act is ExtractFullDocument,
        !(first && x.readability_failed) ==> next is Finished && (act matches FetchAction::Paginate(
            src,
        ) && src.markdown@ == htmd_markdown(x.content@) && src.title == x.title && src.url
            == x.url && src.byline == x.byline && src.excerpt == x.excerpt && src.site_name
            == x.site_name),
{
}

/// A loaded page that the inspection script reports as a 404 page is answered as a
/// missing page with status 404 and the 404 message; one reported only as a browser
/// error page gets status 0 and the connection message; the reported title is kept.
/// Any other page is not a missing page.
pub proof fn lemma_page_check_verdicts(check: PageCheck, url: Seq<char>, r: Option<PageNotFound>)
    requires
        page_check_answer(check, url, r),
    ensures
        check.is_404 == Some(true) ==> (r matches Some(nf) && nf.status_code == 404 && nf.message@
            == "The page returned a 404 Not Found error"@ && nf.url@ == url),
        check.is_404 != Some(true) && check.is_chrome_error == Some(true) ==> (r matches Some(nf)
            && nf.status_code == 0 && nf.message@
            == "Unable to access the page (DNS or connection error)"@ && nf.url@ == url),
        check.title matches Some(t) ==> (r matches Some(nf) ==> nf.title@ == t@),
        check.is_404 != Some(true) && check.is_chrome_error != Some(true) ==> r is None,
{
}

impl PageFetch {
    /// Starts the page tool on `url` (already normalized): the first work is to navigate there.
    pub fn start(url: String, wait_for_load: bool, is_lightpanda: bool) -> (res: (PageFetch, FetchAction))
        ensures
            res.0.url == url,
            res.0.wait_for_load == wait_for_load,
            res.0.is_lightpanda == is_lightpanda,
            res.0.state is Navigating,
            res.1 matches FetchAction::Navigate(u) && u@ == url@,
    {
        let target = url.clone();
        (PageFetch { url, wait_for_load, is_lightpanda, state: FetchState::Navigating }, FetchAction::Navigate(target))
    }

    /// Takes the outcome of the work last asked for and says what to do next.
    pub fn step(&mut self, event: FetchEvent) -> (act: FetchAction)
        requires
            expects(old(self).state, event),
        ensures
            final(self).url == old(self).url,
            final(self).wait_for_load == old(self).wait_for_load,
            final(self).is_lightpanda == old(self).is_lightpanda,
            fetch_step(*old(self), event, final(self).state, act),
    {
        let mut state = FetchState::Finished;
        std::mem::swap(&mut state, &mut self.state);
        match state {
            FetchState::Navigating | FetchState::WaitingForLoad => {
                let navigating = matches!(state, FetchState::Navigating);
                let r = match event {
                    FetchEvent::Navigated(r) => r,
                    FetchEvent::NavigationWaited(r) => r,
                    _ => {
                        proof {
                            assert(false);
                        }
                        return FetchAction::WaitForNavigation;
                    },
                };
                match r {
                    Ok(_) => {
                        if navigating && self.wait_for_load {
                            self.state = FetchState::WaitingForLoad;
                            FetchAction::WaitForNavigation
                        } else {
                            self.state = FetchState::Settling;
                            FetchAction::Sleep(1000)
                        }
                    },
                    Err(e) => FetchAction::Finish(navigation_failure(e, &self.url)),
                }
            },
            FetchState::Settling => {
                self.state = FetchState::CheckingPage;
                FetchAction::CheckPage
            },
            FetchState::CheckingPage => match event {
                FetchEvent::PageChecked(Err(e)) => FetchAction::Finish(Err(e)),
                FetchEvent::PageChecked(Ok(Some(check))) => {
                    let ghost g_check = check;
                    match page_check_verdict(check, &self.url) {
                        Some(nf) => FetchAction::Finish(Ok(nf)),
                        None => {
                            assert(!(g_check.is_chrome_error == Some(true) || g_check.is_404
                                == Some(true)));
                            self.start_extraction()
                        },
                    }
                },
                FetchEvent::PageChecked(Ok(None)) => self.start_extraction(),
                _ => {
                    proof {
                        assert(false);
                    }
                    FetchAction::CheckPage
                },
            },
            FetchState::ReadingLightpandaMarkdown => match event {
                FetchEvent::LightpandaMarkdownRead(Ok(md)) => {
                    self.state = FetchState::ReadingTitle { markdown: md };
                    FetchAction::ReadPageString("document.title")
                },
                FetchEvent::LightpandaMarkdownRead(Err(e)) => FetchAction::Finish(Err(e)),
                _ => {
                    proof {
                        assert(false);
                    }
                    FetchAction::CheckPage
                },
            },
            FetchState::ReadingTitle { markdown } => match event {
                FetchEvent::Evaluated(ev) => match ev {
                    Evaluation::TabUnavailable(e) => FetchAction::Finish(Err(e)),
                    Evaluation::Failed(m) => FetchAction::Finish(
                        Err(BrowserError::EvaluationFailed(m)),
                    ),
                    Evaluation::Returned(o) => {
                        let title = match get_page_string(Evaluation::Returned(o)) {
                            Ok(t) => t,
                            Err(_) => String::new(),
                        };
                        self.state = FetchState::ReadingUrl { markdown, title };
                        FetchAction::ReadPageString("window.location.href")
                    },
                },
                _ => {
                    proof {
                        assert(false);
                    }
                    FetchAction::CheckPage
                },
            },
            FetchState::ReadingUrl { markdown, title } => match event {
                FetchEvent::Evaluated(ev) => match ev {
                    Evaluation::TabUnavailable(e) => FetchAction::Finish(Err(e)),
                    Evaluation::Failed(m) => FetchAction::Finish(
                        Err(BrowserError::EvaluationFailed(m)),
                    ),
                    Evaluation::Returned(o) => {
                        let url = match get_page_string(Evaluation::Returned(o)) {
                            Ok(u) => u,
                            Err(_) => String::new(),
                        };
                        FetchAction::Paginate(
                            PageSource {
                                markdown,
                                title,
                                url,
                                byline: String::new(),
                                excerpt: String::new(),
                                site_name: String::new(),
                            },
                        )
                    },
                },
                _ => {
                    proof {
                        assert(false);
                    }
                    FetchAction::CheckPage
                },
            },
            FetchState::RunningReadability => match event {
                FetchEvent::Evaluated(Evaluation::TabUnavailable(e)) => FetchAction::Finish(Err(e)),
                FetchEvent::Evaluated(Evaluation::Failed(_)) => {
                    self.state = FetchState::ExtractingFullDocument { first: true };
                    FetchAction::ExtractFullDocument
                },
                FetchEvent::Evaluated(Evaluation::Returned(o)) => {
                    let r = parse_extraction_result(o.value, o.description, o.remote_type);
                    self.decode(true, r)
                },
                _ => {
                    proof {
                        assert(false);
                    }
                    FetchAction::CheckPage
                },
            },
            FetchState::ExtractingFullDocument { first } => match event {
                FetchEvent::Evaluated(ev) => {
                    let r = extract_full_document(ev);
                    self.decode(first, r)
                },
                _ => {
                    proof {
                        assert(false);
                    }
                    FetchAction::CheckPage
                },
            },
            FetchState::Decoding { first, from_text } => match event {
                FetchEvent::Decoded(Err(err)) => FetchAction::Finish(
                    Err(decode_failure(from_text, err.as_str())),
                ),
                FetchEvent::Decoded(Ok(x)) => {
                    if first && x.readability_failed {
                        self.state = FetchState::ExtractingFullDocument { first: false };
                        FetchAction::ExtractFullDocument
                    } else {
                        let markdown = convert_html_to_markdown(x.content.as_str());
                        FetchAction::Paginate(
                            PageSource {
                                markdown,
                                title: x.title,
                                url: x.url,
                                byline: x.byline,
                                excerpt: x.excerpt,
                                site_name: x.site_name,
                            },
                        )
                    }
                },
                _ => {
                    proof {
                        assert(false);
                    }
                    FetchAction::CheckPage
                },
            },
            FetchState::Finished => {
                proof {
                    assert(false);
                }
                FetchAction::CheckPage
            },
        }
    }

    /// Chooses the extraction path once the page is known to exist.
    fn start_extraction(&mut self) -> (act: FetchAction)
        ensures
            final(self).url == old(self).url,
            final(self).wait_for_load == old(self).wait_for_load,
            final(self).is_lightpanda == old(self).is_lightpanda,
            after_check(*old(self), final(self).state, act),
    {
        if self.is_lightpanda {
            self.state = FetchState::ReadingLightpandaMarkdown;
            FetchAction::ReadLightpandaMarkdown
        } else {
            self.state = FetchState::RunningReadability;
            FetchAction::RunReadability
        }
    }

    /// Hands over an extraction value for decoding, or finishes with the error.
    fn decode(&mut self, first: bool, r: Result<RemoteValue, BrowserError>) -> (act: FetchAction)
        ensures
            final(self).url == old(self).url,
            final(self).wait_for_load == old(self).wait_for_load,
            final(self).is_lightpanda == old(self).is_lightpanda,
            decode_next(first, r, final(self).state, act),
    {
        match r {
            Ok(v) => {
                let from_text = matches!(v, RemoteValue::Text(_));
                self.state = FetchState::Decoding { first, from_text };
                FetchAction::Decode(v)
            },
            Err(e) => {
                self.state = FetchState::Finished;
                FetchAction::Finish(Err(e))
            },
        }
    }
}

} // verus!
