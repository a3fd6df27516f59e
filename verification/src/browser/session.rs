//! Decisions of a browser session: which browser to run, how to launch it, and how to
//! reach its DevTools endpoint.

use vstd::prelude::*;
use crate::browser::config::{BrowserEngine, LaunchOptions};
use crate::error::{BrowserError, BrowserErrorView};
use crate::text::{decimal, push_decimal};
use crate::browser::active_tab::{first_yes_from, lemma_first_yes_at, lemma_no_yes};

verus! {

/// A text result taken by view.
pub open spec fn text_result(r: Result<String, String>) -> Result<Seq<char>, Seq<char>> {
    match r {
        Ok(s) => Ok(s@),
        Err(e) => Err(e@),
    }
}

/// Whether a regular file exists at `path` (std's `Path::is_file`). What it answers
/// depends on the file system at the time of the call, so nothing is stated of it.
#[verifier::external_body]
pub(crate) fn executable_exists(path: &str) -> bool {
    std::path::Path::new(path).is_file()
}

/// `answer` is what `executable_exists` answered when it was handed a path whose text
/// is `path` (the probe itself states nothing of its answer, which depends on the disk).
pub closed spec fn probe_answered(path: Seq<char>, answer: bool) -> bool {
    exists|q: &str| q@ == path && #[trigger] call_ensures(executable_exists, (q,), answer)
}

/// Probes `path` with `executable_exists`.
fn probe(path: &str) -> (res: bool)
    ensures
        probe_answered(path@, res),
{
    let check = executable_exists;
    check(path)
}

/// How a path given explicitly by the user is answered once its existence is known.
pub open spec fn explicit_path_answer(path: Seq<char>, exists: bool) -> Result<Seq<char>, Seq<char>> {
    if exists {
        Ok(path)
    } else {
        Err(path + " does not exist"@)
    }
}

/// Answers an explicitly given executable path once its existence is known (see
/// `explicit_path_answer`).
fn explicit_path_result(path: &str, exists: bool) -> (res: Result<String, String>)
    ensures
        text_result(res) == explicit_path_answer(path@, exists),
{
    if exists {
        Ok(path.to_owned())
    } else {
        let mut msg = path.to_owned();
        msg.append(" does not exist");
        Err(msg)
    }
}

/// Where Chrome is found: an explicitly given path if a file is there
/// (`custom_exists`, the answer of probing it with `executable_exists`), and an error
/// naming it otherwise; without one, the location that headless_chrome's search found
/// (`default_executable`).
pub fn resolve_chrome_path(
    custom_path: Option<&str>,
    custom_exists: bool,
    default_executable: Result<String, String>,
) -> (res: Result<String, String>)
    ensures
        custom_path matches Some(p) ==> text_result(res) == explicit_path_answer(p@, custom_exists),
        custom_path is None ==> res == default_executable,
{
    match custom_path {
        Some(p) => explicit_path_result(p, custom_exists),
        None => default_executable,
    }
}

/// Locates Chrome on this machine: probes the explicit path when there is one, and
/// answers as `resolve_chrome_path` does for what the probe answered.
pub fn locate_chrome(custom_path: Option<&str>, default_executable: Result<String, String>) -> (res: Result<
    String,
    String,
>)
    ensures
        custom_path matches Some(p) ==> exists|custom_exists: bool|
            probe_answered(p@, custom_exists) && text_result(res) == explicit_path_answer(
                p@,
                custom_exists,
            ),
        custom_path is None ==> res == default_executable,
{
    match custom_path {
        Some(p) => {
            let exists = probe(p);
            resolve_chrome_path(custom_path, exists, default_executable)
        },
        None => resolve_chrome_path(None, false, default_executable),
    }
}

/// The candidate that existence answers select: the first one answered yes.
pub open spec fn selected_candidate(candidates: Seq<String>, answers: Seq<bool>) -> Option<Seq<char>> {
    match first_yes_from(answers, 0) {
        Some(i) => Some(candidates[i]@),
        None => None,
    }
}

/// The text of an optional string.
pub open spec fn opt_string_text(s: Option<String>) -> Option<Seq<char>> {
    match s {
        Some(t) => Some(t@),
        None => None,
    }
}

/// The first of `candidates` at which a file exists, given the answer `answers[i]` of
/// probing `candidates[i]` (`executable_exists`) for each candidate.
pub fn find_in_path(candidates: &Vec<String>, answers: &Vec<bool>) -> (res: Option<String>)
    requires
        answers.len() == candidates.len(),
    ensures
        opt_string_text(res) == selected_candidate(candidates@, answers@),
{
    let mut i: usize = 0;
    while i < answers.len()
        invariant
            i <= answers.len() == candidates.len(),
            first_yes_from(answers@, 0) == first_yes_from(answers@, i as int),
        decreases answers.len() - i,
    {
        if answers[i] {
            return Some(candidates[i].clone());
        }
        i += 1;
    }
    None
}

/// Where LightPanda is found: an explicitly given path when a file is there (and an
/// error naming it otherwise), with nothing else consulted; without one, the first of
/// `env_values` that exists, else the first of `path_candidates` that exists, else the
/// "not found" error.
pub open spec fn lightpanda_answer(
    custom_path: Option<Seq<char>>,
    custom_exists: bool,
    env_values: Seq<String>,
    env_answers: Seq<bool>,
    path_candidates: Seq<String>,
    path_answers: Seq<bool>,
) -> Result<Seq<char>, Seq<char>> {
    match custom_path {
        Some(p) => explicit_path_answer(p, custom_exists),
        None => match selected_candidate(env_values, env_answers) {
            Some(p) => Ok(p),
            None => match selected_candidate(path_candidates, path_answers) {
                Some(p) => Ok(p),
                None => Err("lightpanda was not found on PATH"@),
            },
        },
    }
}

/// The order in which LightPanda is looked for: an explicit path is taken when a file
/// is there and refused ("<path> does not exist") otherwise, whatever the rest; without
/// one, the first environment value that exists wins over every PATH candidate; only
/// when none exists does the first existing PATH candidate win; and when nothing
/// exists the answer is "lightpanda was not found on PATH".
pub proof fn lemma_lightpanda_search_order(
    custom_path: Option<Seq<char>>,
    custom_exists: bool,
    env_values: Seq<String>,
    env_answers: Seq<bool>,
    path_candidates: Seq<String>,
    path_answers: Seq<bool>,
)
    requires
        env_answers.len() == env_values.len(),
        path_answers.len() == path_candidates.len(),
    ensures
        custom_path matches Some(p) ==> lightpanda_answer(
            custom_path,
            custom_exists,
            env_values,
            env_answers,
            path_candidates,
            path_answers,
        ) == (if custom_exists {
            Ok::<Seq<char>, Seq<char>>(p)
        } else {
            Err::<Seq<char>, Seq<char>>(p + " does not exist"@)
        }),
        custom_path is None ==> forall|i: int|
            0 <= i < env_values.len() && #[trigger] env_answers[i] && (forall|j: int|
                0 <= j < i ==> !env_answers[j]) ==> lightpanda_answer(
                custom_path,
                custom_exists,
                env_values,
                env_answers,
                path_candidates,
                path_answers,
            ) == Ok::<Seq<char>, Seq<char>>(env_values[i]@),
        custom_path is None && (forall|j: int| 0 <= j < env_values.len() ==> !env_answers[j])
            ==> forall|i: int|
            0 <= i < path_candidates.len() && #[trigger] path_answers[i] && (forall|j: int|
                0 <= j < i ==> !path_answers[j]) ==> lightpanda_answer(
                custom_path,
                custom_exists,
                env_values,
                env_answers,
                path_candidates,
                path_answers,
            ) == Ok::<Seq<char>, Seq<char>>(path_candidates[i]@),
        custom_path is None && (forall|j: int| 0 <= j < env_values.len() ==> !env_answers[j])
            && (forall|j: int| 0 <= j < path_candidates.len() ==> !path_answers[j])
            ==> lightpanda_answer(
            custom_path,
            custom_exists,
            env_values,
            env_answers,
            path_candidates,
            path_answers,
        ) == Err::<Seq<char>, Seq<char>>("lightpanda was not found on PATH"@),
{
    if custom_path is None {
        assert forall|i: int|
            0 <= i < env_values.len() && #[trigger] env_answers[i] && (forall|j: int|
                0 <= j < i ==> !env_answers[j]) implies lightpanda_answer(
            custom_path,
            custom_exists,
            env_values,
            env_answers,
            path_candidates,
            path_answers,
        ) == Ok::<Seq<char>, Seq<char>>(env_values[i]@) by {
            lemma_first_yes_at(env_answers, 0, i);
        }
        if forall|j: int| 0 <= j < env_values.len() ==> !env_answers[j] {
            lemma_no_yes(env_answers, 0);
            assert forall|i: int|
                0 <= i < path_candidates.len() && #[trigger] path_answers[i] && (forall|j: int|
                    0 <= j < i ==> !path_answers[j]) implies lightpanda_answer(
                custom_path,
                custom_exists,
                env_values,
                env_answers,
                path_candidates,
                path_answers,
            ) == Ok::<Seq<char>, Seq<char>>(path_candidates[i]@) by {
                lemma_first_yes_at(path_answers, 0, i);
            }
            if forall|j: int| 0 <= j < path_candidates.len() ==> !path_answers[j] {
                lemma_no_yes(path_answers, 0);
            }
        }
    }
}

/// An optional path taken by view.
pub open spec fn opt_str_text(s: Option<&str>) -> Option<Seq<char>> {
    match s {
        Some(t) => Some(t@),
        None => None,
    }
}

/// Locates LightPanda (see `lightpanda_answer`) from the answers of probing, with
/// `executable_exists`, the explicit path (`custom_exists`), each of `env_values` (the
/// values of `LIGHTPANDA` and `LIGHTPANDA_BIN`, in that order, where set) and each of
/// `path_candidates` (`lightpanda` joined to each directory of `PATH`, in order).
pub fn resolve_lightpanda_path(
    custom_path: Option<&str>,
    custom_exists: bool,
    env_values: &Vec<String>,
    env_answers: &Vec<bool>,
    path_candidates: &Vec<String>,
    path_answers: &Vec<bool>,
) -> (res: Result<String, String>)
    requires
        env_answers.len() == env_values.len(),
        path_answers.len() == path_candidates.len(),
    ensures
        text_result(res) == lightpanda_answer(
            opt_str_text(custom_path),
            custom_exists,
            env_values@,
            env_answers@,
            path_candidates@,
            path_answers@,
        ),
{
    match custom_path {
        Some(p) => explicit_path_result(p, custom_exists),
        None => match find_in_path(env_values, env_answers) {
            Some(found) => Ok(found),
            None => match find_in_path(path_candidates, path_answers) {
                Some(found) => Ok(found),
                None => Err("lightpanda was not found on PATH".to_owned()),
            },
        },
    }
}

/// `answers[i]` is what probing `paths[i]` answered, for each path.
pub open spec fn all_probed(paths: Seq<String>, answers: Seq<bool>) -> bool {
    &&& answers.len() == paths.len()
    &&& forall|i: int| 0 <= i < paths.len() ==> #[trigger] probe_answered(paths[i]@, answers[i])
}

/// Probes each of `paths` with `executable_exists`, in order.
fn probe_each(paths: &Vec<String>) -> (res: Vec<bool>)
    ensures
        all_probed(paths@, res@),
{
    let mut res: Vec<bool> = Vec::new();
    let mut i: usize = 0;
    while i < paths.len()
        invariant
            i <= paths.len(),
            res.len() == i,
            forall|k: int| 0 <= k < i ==> #[trigger] probe_answered(paths@[k]@, res@[k]),
        decreases paths.len() - i,
    {
        let b = probe(paths[i].as_str());
        res.push(b);
        i += 1;
    }
    res
}

/// Locates LightPanda on this machine: probes the explicit path alone when there is
/// one, and otherwise each of `env_values` (the values of `LIGHTPANDA` and
/// `LIGHTPANDA_BIN`, in that order, where set) and each of `path_candidates`
/// (`lightpanda` joined to each directory of `PATH`, in order), then answers as
/// `resolve_lightpanda_path` does for what the probes answered.
pub fn locate_lightpanda(
    custom_path: Option<&str>,
    env_values: &Vec<String>,
    path_candidates: &Vec<String>,
) -> (res: Result<String, String>)
    ensures
        custom_path matches Some(p) ==> exists|custom_exists: bool|
            probe_answered(p@, custom_exists) && text_result(res) == explicit_path_answer(
                p@,
                custom_exists,
            ),
        custom_path is None ==> exists|env_answers: Seq<bool>, path_answers: Seq<bool>|
            {
                &&& all_probed(env_values@, env_answers)
                &&& all_probed(path_candidates@, path_answers)
                &&& text_result(res) == lightpanda_answer(
                    None,
                    false,
                    env_values@,
                    env_answers,
                    path_candidates@,
                    path_answers,
                )
            },
{
    match custom_path {
        Some(p) => {
            let exists = probe(p);
            let none: Vec<String> = Vec::new();
            let no_answers: Vec<bool> = Vec::new();
            resolve_lightpanda_path(custom_path, exists, &none, &no_answers, &none, &no_answers)
        },
        None => {
            let env_answers = probe_each(env_values);
            let path_answers = probe_each(path_candidates);
            let res = resolve_lightpanda_path(None, false, env_values, &env_answers, path_candidates, &path_answers);
            assert(all_probed(env_values@, env_answers@));
            assert(all_probed(path_candidates@, path_answers@));
            res
        },
    }
}

/// The browser executable that a session will run.
pub enum ResolvedBrowser {
    Chrome(String),
    Lightpanda(String),
}

/// A resolved browser taken by view: `true` for Chrome, with the executable's path.
pub open spec fn resolved_view(r: ResolvedBrowser) -> (bool, Seq<char>) {
    match r {
        ResolvedBrowser::Chrome(p) => (true, p@),
        ResolvedBrowser::Lightpanda(p) => (false, p@),
    }
}

/// Which browser runs for an engine choice, given where Chrome and LightPanda were
/// (or were not) found: Auto prefers Chrome; an explicit engine never falls back.
pub open spec fn browser_choice(
    engine: BrowserEngine,
    chrome: Result<Seq<char>, Seq<char>>,
    lightpanda: Result<Seq<char>, Seq<char>>,
) -> Result<(bool, Seq<char>), BrowserErrorView> {
    match engine {
        BrowserEngine::Auto => match chrome {
            Ok(p) => Ok((true, p)),
            Err(_) => match lightpanda {
                Ok(p) => Ok((false, p)),
                Err(_) => Err(
                    BrowserErrorView::LaunchFailed(
                        "Neither Chrome/Chromium nor LightPanda was found. Install Chrome/Chromium, install LightPanda, or pass --executable-path."@,
                    ),
                ),
            },
        },
        BrowserEngine::Chrome => match chrome {
            Ok(p) => Ok((true, p)),
            Err(e) => Err(
                BrowserErrorView::LaunchFailed("Chrome requested but unavailable: "@ + e),
            ),
        },
        BrowserEngine::Lightpanda => match lightpanda {
            Ok(p) => Ok((false, p)),
            Err(e) => Err(
                BrowserErrorView::LaunchFailed("LightPanda requested but unavailable: "@ + e),
            ),
        },
    }
}

/// A resolution result taken by view.
pub open spec fn resolution_view(r: Result<ResolvedBrowser, BrowserError>) -> Result<
    (bool, Seq<char>),
    BrowserErrorView,
> {
    match r {
        Ok(b) => Ok(resolved_view(b)),
        Err(e) => Err(e@),
    }
}

/// Chooses the browser to launch for `options.browser_engine`, given the outcome of
/// locating Chrome (`locate_chrome`) and LightPanda (`locate_lightpanda`).
pub fn resolve_browser(
    options: &LaunchOptions,
    chrome: Result<String, String>,
    lightpanda: Result<String, String>,
) -> (res: Result<ResolvedBrowser, BrowserError>)
    ensures
        resolution_view(res) == browser_choice(
            options.browser_engine,
            text_result(chrome),
            text_result(lightpanda),
        ),
{
    match options.browser_engine {
        BrowserEngine::Auto => match chrome {
            Ok(p) => Ok(ResolvedBrowser::Chrome(p)),
            Err(_) => match lightpanda {
                Ok(p) => Ok(ResolvedBrowser::Lightpanda(p)),
                Err(_) => Err(
                    BrowserError::LaunchFailed(
                        "Neither Chrome/Chromium nor LightPanda was found. Install Chrome/Chromium, install LightPanda, or pass --executable-path.".to_owned(),
                    ),
                ),
            },
        },
        BrowserEngine::Chrome => match chrome {
            Ok(p) => Ok(ResolvedBrowser::Chrome(p)),
            Err(e) => {
                let mut msg = "Chrome requested but unavailable: ".to_owned();
                msg.append(e.as_str());
                Err(BrowserError::LaunchFailed(msg))
            },
        },
        BrowserEngine::Lightpanda => match lightpanda {
            Ok(p) => Ok(ResolvedBrowser::Lightpanda(p)),
            Err(e) => {
                let mut msg = "LightPanda requested but unavailable: ".to_owned();
                msg.append(e.as_str());
                Err(BrowserError::LaunchFailed(msg))
            },
        },
    }
}

/// Checks, without launching anything, that a browser binary is available for
/// `options`, given the outcome of locating Chrome and LightPanda.
pub fn validate_browser_binary(
    options: &LaunchOptions,
    chrome: Result<String, String>,
    lightpanda: Result<String, String>,
) -> (res: Result<(), BrowserError>)
    ensures
        match browser_choice(options.browser_engine, text_result(chrome), text_result(lightpanda)) {
            Ok(_) => res is Ok,
            Err(e) => res is Err && res->Err_0@ == e,
        },
{
    match resolve_browser(options, chrome, lightpanda) {
        Ok(_) => Ok(()),
        Err(e) => Err(e),
    }
}

/// With Auto, a Chrome that was found is always the one launched, whatever became of
/// the search for LightPanda.
pub proof fn lemma_auto_prefers_chrome(
    chrome: Seq<char>,
    lightpanda: Result<Seq<char>, Seq<char>>,
)
    ensures
        browser_choice(BrowserEngine::Auto, Ok(chrome), lightpanda) == Ok::<
            (bool, Seq<char>),
            BrowserErrorView,
        >((true, chrome)),
{
}

/// An explicitly requested engine is either launched or reported as unavailable; the
/// other engine is never substituted for it.
pub proof fn lemma_explicit_engine_never_substituted(
    engine: BrowserEngine,
    chrome: Result<Seq<char>, Seq<char>>,
    lightpanda: Result<Seq<char>, Seq<char>>,
)
    requires
        engine != BrowserEngine::Auto,
    ensures
        browser_choice(engine, chrome, lightpanda) matches Ok((is_chrome, _)) ==> is_chrome == (
        engine == BrowserEngine::Chrome),
        engine == BrowserEngine::Chrome ==> (browser_choice(engine, chrome, lightpanda) is Ok
            <==> chrome is Ok),
        engine == BrowserEngine::Lightpanda ==> (browser_choice(engine, chrome, lightpanda) is Ok
            <==> lightpanda is Ok),
{
}

/// The browser launched is run from the path found for it: an explicit engine runs
/// from exactly the path found for that engine, and Auto from Chrome's path when
/// Chrome was found, else from LightPanda's, whatever was found for the other engine.
pub proof fn lemma_launch_path_is_found_path(
    chrome: Result<Seq<char>, Seq<char>>,
    lightpanda: Result<Seq<char>, Seq<char>>,
)
    ensures
        chrome matches Ok(p) ==> browser_choice(BrowserEngine::Chrome, chrome, lightpanda) == Ok::<
            (bool, Seq<char>),
            BrowserErrorView,
        >((true, p)),
        lightpanda matches Ok(p) ==> browser_choice(BrowserEngine::Lightpanda, chrome, lightpanda)
            == Ok::<(bool, Seq<char>), BrowserErrorView>((false, p)),
        chrome matches Ok(p) ==> browser_choice(BrowserEngine::Auto, chrome, lightpanda) == Ok::<
            (bool, Seq<char>),
            BrowserErrorView,
        >((true, p)),
        chrome is Err ==> (lightpanda matches Ok(p) ==> browser_choice(
            BrowserEngine::Auto,
            chrome,
            lightpanda,
        ) == Ok::<(bool, Seq<char>), BrowserErrorView>((false, p))),
{
}

/// The texts of a sequence of strings.
pub open spec fn texts(v: Seq<String>) -> Seq<Seq<char>> {
    v.map_values(|s: String| s@)
}

/// The prefix of the temporary profile directory created for a Chrome session.
pub open spec fn temp_profile_prefix() -> Seq<char> {
    "web-access-mcp-chrome-"@
}

/// Where a Chrome session keeps its profile.
pub enum ProfileDir {
    /// The directory the user asked for.
    Given(String),
    /// A fresh temporary directory whose name starts with `prefix`, owned by the session.
    Temporary { prefix: String },
}

/// How Chrome is to be launched.
pub struct ChromeLaunchPlan {
    pub executable: String,
    pub headless: bool,
    pub window_width: u32,
    pub window_height: u32,
    pub sandbox: bool,
    pub profile: ProfileDir,
    /// Default arguments to leave out.
    pub ignore_default_args: Vec<String>,
    /// Extra arguments.
    pub args: Vec<String>,
    /// Seconds of inactivity after which the browser connection is closed.
    pub idle_timeout_secs: u64,
}

/// How Chrome is launched for `options`: headless mode, window size and sandbox as
/// asked; the given profile directory or a temporary one; without the automation
/// switch and with the automation-controlled Blink feature disabled (so that pages do
/// not see an automated browser); an idle timeout of one hour.
pub fn chrome_launch_plan(options: LaunchOptions, chrome_path: String) -> (res: ChromeLaunchPlan)
    ensures
        res.executable == chrome_path,
        res.headless == options.headless,
        res.window_width == options.window_width,
        res.window_height == options.window_height,
        res.sandbox == options.sandbox,
        match options.user_data_dir {
            Some(d) => res.profile == ProfileDir::Given(d),
            None => res.profile matches ProfileDir::Temporary { prefix } && prefix@
                == temp_profile_prefix(),
        },
        texts(res.ignore_default_args@) == seq!["--enable-automation"@],
        texts(res.args@) == seq!["--disable-blink-features=AutomationControlled"@],
        res.idle_timeout_secs == 3600,
{
    let profile = match options.user_data_dir {
        Some(d) => ProfileDir::Given(d),
        None => ProfileDir::Temporary { prefix: "web-access-mcp-chrome-".to_owned() },
    };
    let ignore_default_args = vec!["--enable-automation".to_owned()];
    let args = vec!["--disable-blink-features=AutomationControlled".to_owned()];
    assert(texts(ignore_default_args@) =~= seq!["--enable-automation"@]);
    assert(texts(args@) =~= seq!["--disable-blink-features=AutomationControlled"@]);
    ChromeLaunchPlan {
        executable: chrome_path,
        headless: options.headless,
        window_width: options.window_width,
        window_height: options.window_height,
        sandbox: options.sandbox,
        profile,
        ignore_default_args,
        args,
        idle_timeout_secs: 60 * 60,
    }
}

/// The URL of the DevTools version document of a LightPanda serving on `port`.
pub open spec fn lightpanda_version_url(port: u16) -> Seq<char> {
    "http://127.0.0.1:"@ + decimal(port as nat) + "/json/version"@
}

/// The arguments that make LightPanda serve DevTools on `port` of the loopback interface.
pub open spec fn lightpanda_args(port: u16) -> Seq<Seq<char>> {
    seq![
        "serve"@,
        "--host"@,
        "127.0.0.1"@,
        "--port"@,
        decimal(port as nat),
        "--log-level"@,
        "info"@,
        "--log-format"@,
        "logfmt"@,
    ]
}

/// A timeout of at least one millisecond.
pub open spec fn at_least_one_ms(ms: u64) -> u64 {
    if ms < 1 {
        1
    } else {
        ms
    }
}

/// How LightPanda is to be launched.
pub struct LightpandaLaunchPlan {
    pub executable: String,
    pub args: Vec<String>,
    /// Environment variables set for the process.
    pub env: Vec<(String, String)>,
    /// Where the DevTools endpoint announces its WebSocket URL.
    pub version_url: String,
    /// Milliseconds to wait for the endpoint, and for the WebSocket connection.
    pub connect_timeout_ms: u64,
    /// A profile directory that was asked for but that LightPanda cannot use.
    pub ignored_user_data_dir: Option<String>,
}

/// The refusal of a headed LightPanda launch.
pub open spec fn headed_lightpanda_refused(e: BrowserError) -> bool {
    e@ == BrowserErrorView::LaunchFailed(
        "LightPanda is headless-only; remove --headed or use --browser chrome"@,
    )
}

/// Checks that a session on `engine` can render Markdown itself with LightPanda's
/// `LP.getMarkdown` command, which only LightPanda sessions have.
pub fn check_lightpanda_markdown(engine: BrowserEngine) -> (res: Result<(), BrowserError>)
    ensures
        engine == BrowserEngine::Lightpanda ==> res is Ok,
        engine != BrowserEngine::Lightpanda ==> (res matches Err(e) && e@
            == BrowserErrorView::InvalidArgument(
            "LP.getMarkdown is only available for LightPanda sessions"@,
        )),
{
    if engine == BrowserEngine::Lightpanda {
        Ok(())
    } else {
        Err(
            BrowserError::InvalidArgument(
                "LP.getMarkdown is only available for LightPanda sessions".to_owned(),
            ),
        )
    }
}

/// Checks that `options` can be served by LightPanda, which runs headless only; done
/// before anything (such as a local port) is reserved for the launch.
pub fn check_lightpanda_options(options: &LaunchOptions) -> (res: Result<(), BrowserError>)
    ensures
        options.headless ==> res is Ok,
        !options.headless ==> res is Err && headed_lightpanda_refused(res->Err_0),
{
    if !options.headless {
        return Err(
            BrowserError::LaunchFailed(
                "LightPanda is headless-only; remove --headed or use --browser chrome".to_owned(),
            ),
        );
    }
    Ok(())
}

/// How LightPanda is launched for `options` on `port`: only headless (a headed launch
/// is refused); serving DevTools on the loopback interface with logfmt logs at info
/// level and telemetry off; the profile directory, if any, is ignored.
pub fn lightpanda_launch_plan(options: LaunchOptions, lightpanda_path: String, port: u16) -> (res: Result<LightpandaLaunchPlan, BrowserError>)
    ensures
        !options.headless ==> res is Err && headed_lightpanda_refused(res->Err_0),
        options.headless ==> (res matches Ok(plan) && {
            &&& plan.executable == lightpanda_path
            &&& texts(plan.args@) == lightpanda_args(port)
            &&& plan.env@.len() == 1
            &&& plan.env@[0].0@ == "LIGHTPANDA_DISABLE_TELEMETRY"@
            &&& plan.env@[0].1@ == "true"@
            &&& plan.version_url@ == lightpanda_version_url(port)
            &&& plan.connect_timeout_ms == at_least_one_ms(options.launch_timeout)
            &&& plan.ignored_user_data_dir == options.user_data_dir
        }),
{
    check_lightpanda_options(&options)?;
    let port_text = crate::text::decimal_string(port as usize);
    let args = vec![
        "serve".to_owned(),
        "--host".to_owned(),
        "127.0.0.1".to_owned(),
        "--port".to_owned(),
        port_text,
        "--log-level".to_owned(),
        "info".to_owned(),
        "--log-format".to_owned(),
        "logfmt".to_owned(),
    ];
    assert(texts(args@) =~= lightpanda_args(port));
    let env = vec![("LIGHTPANDA_DISABLE_TELEMETRY".to_owned(), "true".to_owned())];
    let mut version_url = "http://127.0.0.1:".to_owned();
    push_decimal(&mut version_url, port as usize);
    version_url.append("/json/version");
    let connect_timeout_ms = if options.launch_timeout < 1 { 1 } else { options.launch_timeout };
    Ok(
        LightpandaLaunchPlan {
            executable: lightpanda_path,
            args,
            env,
            version_url,
            connect_timeout_ms,
            ignored_user_data_dir: options.user_data_dir,
        },
    )
}

/// Hands out session numbers: 1, 2, 3, ... (wrapping around after `u64::MAX`).
pub struct SessionIds {
    pub next: u64,
}

impl SessionIds {
    /// Numbering starts at 1.
    pub fn new() -> (res: Self)
        ensures
            res.next == 1,
    {
        SessionIds { next: 1 }
    }
}

/// The counter after one call: the next number, wrapping to 0 after `u64::MAX`.
pub open spec fn id_after_call(next: u64) -> u64 {
    if next == u64::MAX {
        0
    } else {
        (next + 1) as u64
    }
}

/// The counter after `k` calls, starting from `start`.
pub open spec fn ids_after(start: u64, k: nat) -> u64
    decreases k,
{
    if k == 0 {
        start
    } else {
        id_after_call(ids_after(start, (k - 1) as nat))
    }
}

/// The next session number.
pub fn next_browser_session_id(ids: &mut SessionIds) -> (res: u64)
    ensures
        res == old(ids).next,
        final(ids).next == id_after_call(old(ids).next),
{
    let id = ids.next;
    ids.next = id.wrapping_add(1);
    id
}

/// Numbering from a fresh counter: call `i` (counted from 0) returns `ids_after(1, i)`,
/// which is `i + 1`; so within the first `k + 1` calls, with `k < u64::MAX`, the first
/// call returns 1, later calls return strictly larger numbers, and no two are equal.
/// Since a call needs the counter exclusively (`&mut`), calls from several threads on
/// one counter take turns, and the law holds in whatever order they take them.
pub proof fn lemma_session_ids_unique(k: nat)
    requires
        k < u64::MAX,
    ensures
        ids_after(1, 0) == 1,
        forall|i: nat| i <= k ==> #[trigger] ids_after(1, i) == i + 1,
        forall|i: nat, j: nat| i < j <= k ==> #[trigger] ids_after(1, i) < #[trigger] ids_after(1, j),
    decreases k,
{
    if k > 0 {
        lemma_session_ids_unique((k - 1) as nat);
        assert(ids_after(1, k) == id_after_call(ids_after(1, (k - 1) as nat)));
    }
    assert forall|i: nat| i <= k implies #[trigger] ids_after(1, i) == i + 1 by {
        if i < k {
            lemma_session_ids_unique((k - 1) as nat);
        }
    }
}

} // verus!
