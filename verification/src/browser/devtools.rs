//! Talking to a browser's DevTools HTTP endpoint: the local URL it is reached at, the
//! request for its version document, and the WebSocket URL read from the reply.

use vstd::prelude::*;
use vstd::utf8::{decode_utf8, valid_utf8};
use crate::browser::session::{lightpanda_version_url, text_result};
use crate::text::{
    all_digits, chars_occur_at, chars_of, decimal, digits_value, is_digit, lemma_decimal_digits, find_first, find_last, first_index_of,
    last_index_of, occurs_at, push_decimal, starts_with, str_starts_with, string_from_chars,
};

verus! {

/// The digits of an unsigned number's text: the text without one leading `+`.
pub open spec fn unsigned_digits(s: Seq<char>) -> Seq<char> {
    if s.len() > 0 && s[0] == '+' {
        s.skip(1)
    } else {
        s
    }
}

/// Text that std parses as a `u16`: an optional `+`, then at least one decimal digit,
/// denoting a number that fits.
pub open spec fn is_u16_text(s: Seq<char>) -> bool {
    let d = unsigned_digits(s);
    d.len() > 0 && all_digits(d) && digits_value(d) <= 65535
}

/// The text (`to_string`) of the error with which std's `s.parse::<u16>()` refuses `s`.
/// It depends on `s` alone.
pub uninterp spec fn u16_parse_error_text(s: Seq<char>) -> Seq<char>;

/// std's `s.parse::<u16>()`, its error rendered with `to_string`. The contract claims
/// what std documents: the text is accepted exactly when it is an optional `+` followed
/// by decimal digits whose value fits in a `u16`, and then the value is that of the
/// digits. The error's text is named (`u16_parse_error_text`), not stated: std's
/// documentation fixes neither its wording nor which error is reported for a text that
/// is wrong in two ways.
#[verifier::external_body]
fn parse_u16(s: &str) -> (res: Result<u16, String>)
    ensures
        match res {
            Ok(v) => is_u16_text(s@) && v == digits_value(unsigned_digits(s@)),
            Err(m) => !is_u16_text(s@) && m@ == u16_parse_error_text(s@),
        },
{
    s.parse::<u16>().map_err(|e| e.to_string())
}

/// The authority and path of what follows the scheme: split at the first `/`.
pub open spec fn authority_and_path(rest: Seq<char>) -> (Seq<char>, Seq<char>) {
    match first_index_of(rest, '/') {
        Some(i) => (rest.take(i), rest.skip(i + 1)),
        None => (rest, Seq::<char>::empty()),
    }
}

/// The parts of a local `http://host:port/path` URL, with the port still as text.
pub open spec fn url_parts(url: Seq<char>) -> Option<(Seq<char>, Seq<char>, Seq<char>)> {
    let ap = authority_and_path(url.skip(7));
    match last_index_of(ap.0, ':') {
        Some(j) => Some((ap.0.take(j), ap.0.skip(j + 1), "/"@ + ap.1)),
        None => None,
    }
}

/// How `http://host:port/path` is split into host, port and path: the host is what
/// precedes the last `:` before the first `/` after the scheme, and the path keeps its
/// leading `/` (a bare `/` when there is none).
#[verifier::opaque]
pub open spec fn local_url_answer(url: Seq<char>) -> Result<(Seq<char>, u16, Seq<char>), Seq<char>> {
    if !starts_with(url, "http://"@) {
        Err("expected http:// URL"@)
    } else {
        match url_parts(url) {
            None => Err("expected host:port"@),
            Some((host, port, path)) => if is_u16_text(port) {
                Ok((host, digits_value(unsigned_digits(port)) as u16, path))
            } else {
                Err(u16_parse_error_text(port))
            },
        }
    }
}

/// The characters `cs[from..to]` as a new vector.
fn sub_chars(cs: &Vec<char>, from: usize, to: usize) -> (res: Vec<char>)
    requires
        from <= to <= cs.len(),
    ensures
        res@ == cs@.subrange(from as int, to as int),
{
    let mut res: Vec<char> = Vec::new();
    let mut i = from;
    while i < to
        invariant
            from <= i <= to <= cs.len(),
            res@ == cs@.subrange(from as int, i as int),
        decreases to - i,
    {
        res.push(cs[i]);
        assert(cs@.subrange(from as int, i + 1) =~= cs@.subrange(from as int, i as int).push(
            cs@[i as int],
        ));
        i += 1;
    }
    res
}

/// Splits what follows the scheme into authority and path (see `authority_and_path`).
fn split_authority(rest: &Vec<char>) -> (res: (Vec<char>, Vec<char>))
    ensures
        (res.0@, res.1@) == authority_and_path(rest@),
{
    match find_first(rest, '/') {
        Some(i) => {
            let a = sub_chars(rest, 0, i);
            let p = sub_chars(rest, i + 1, rest.len());
            assert(a@ =~= rest@.take(i as int));
            assert(p@ =~= rest@.skip(i + 1));
            (a, p)
        },
        None => {
            let p: Vec<char> = Vec::new();
            assert(p@ =~= Seq::<char>::empty());
            (sub_chars(rest, 0, rest.len()), p)
        },
    }
}

/// Splits an authority at its last `:` into host and port text.
fn split_host_port(authority: &Vec<char>) -> (res: Option<(String, String)>)
    ensures
        match res {
            Some((h, p)) => last_index_of(authority@, ':') matches Some(j) && h@ == authority@.take(
                j,
            ) && p@ == authority@.skip(j + 1),
            None => last_index_of(authority@, ':') is None,
        },
{
    match find_last(authority, ':') {
        None => None,
        Some(j) => {
            let host = string_from_chars(authority, 0, j);
            let port_text = string_from_chars(authority, j + 1, authority.len());
            assert(host@ =~= authority@.take(j as int));
            assert(port_text@ =~= authority@.skip(j + 1));
            Some((host, port_text))
        },
    }
}

/// Splits a local `http://host:port/path` URL into its parts (see `url_parts`).
fn split_url(url: &str) -> (res: Option<(String, String, String)>)
    requires
        starts_with(url@, "http://"@),
    ensures
        match res {
            Some((h, p, q)) => url_parts(url@) == Some((h@, p@, q@)),
            None => url_parts(url@) is None,
        },
{
    let cs = chars_of(url);
    assert("http://"@.len() == 7) by {
        reveal_strlit("http://");
    }
    let rest = sub_chars(&cs, 7, cs.len());
    assert(rest@ =~= url@.skip(7));
    let (authority, path) = split_authority(&rest);
    match split_host_port(&authority) {
        None => None,
        Some((host, port_text)) => {
            let mut full_path = "/".to_owned();
            let path_text = string_from_chars(&path, 0, path.len());
            assert(path_text@ =~= path@);
            full_path.append(path_text.as_str());
            Some((host, port_text, full_path))
        },
    }
}

/// Splits a local `http://host:port/path` URL (see `local_url_answer`).
pub fn parse_local_http_url(url: &str) -> (res: Result<(String, u16, String), String>)
    ensures
        match res {
            Ok((host, port, path)) => local_url_answer(url@) == Ok::<
                (Seq<char>, u16, Seq<char>),
                Seq<char>,
            >((host@, port, path@)),
            Err(e) => local_url_answer(url@) == Err::<(Seq<char>, u16, Seq<char>), Seq<char>>(e@),
        },
{
    proof {
        reveal(local_url_answer);
    }
    if !str_starts_with(url, "http://") {
        return Err("expected http:// URL".to_owned());
    }
    match split_url(url) {
        None => Err("expected host:port".to_owned()),
        Some((host, port_text, path)) => match parse_u16(port_text.as_str()) {
            Ok(port) => Ok((host, port, path)),
            Err(e) => Err(e),
        },
    }
}

/// The HTTP request that asks `host:port` for the document at `path`.
pub open spec fn version_request_text(host: Seq<char>, port: u16, path: Seq<char>) -> Seq<char> {
    "GET "@ + path + " HTTP/1.1\r\nHost: "@ + host + ":"@ + decimal(port as nat)
        + "\r\nConnection: close\r\n\r\n"@
}

/// Builds the request for the DevTools version document (see `version_request_text`).
pub fn version_request(host: &str, port: u16, path: &str) -> (res: String)
    ensures
        res@ == version_request_text(host@, port, path@),
{
    let mut s = "GET ".to_owned();
    s.append(path);
    s.append(" HTTP/1.1\r\nHost: ");
    s.append(host);
    s.append(":");
    push_decimal(&mut s, port as usize);
    s.append("\r\nConnection: close\r\n\r\n");
    s
}

/// The message with which std refuses to decode `bytes` as UTF-8.
pub uninterp spec fn utf8_error_text(bytes: Seq<u8>) -> Seq<char>;

/// std's `String::from_utf8`, its error rendered with `to_string`: the decoded text
/// when the bytes are valid UTF-8; the error's text is named, not stated.
#[verifier::external_body]
fn string_from_utf8(bytes: Vec<u8>) -> (res: Result<String, String>)
    ensures
        match res {
            Ok(s) => valid_utf8(bytes@) && s@ == decode_utf8(bytes@),
            Err(m) => !valid_utf8(bytes@) && m@ == utf8_error_text(bytes@),
        },
{
    String::from_utf8(bytes).map_err(|e| e.to_string())
}

/// Position of the first occurrence of `p` in `s`, if any.
pub open spec fn first_occurrence(s: Seq<char>, p: Seq<char>) -> Option<int> {
    if exists|i: int| occurs_at(s, p, i) {
        Some(choose|i: int| occurs_at(s, p, i) && forall|j: int| 0 <= j < i ==> !occurs_at(s, p, j))
    } else {
        None
    }
}

/// Among the occurrences of `p` in `s` up to a known one at `i`, there is a first one.
proof fn lemma_least_occurrence(s: Seq<char>, p: Seq<char>, i: int)
    requires
        occurs_at(s, p, i),
    ensures
        exists|k: int| occurs_at(s, p, k) && k <= i && forall|j: int| 0 <= j < k ==> !occurs_at(s, p, j),
    decreases i,
{
    if exists|j: int| 0 <= j < i && occurs_at(s, p, j) {
        let j = choose|j: int| 0 <= j < i && occurs_at(s, p, j);
        lemma_least_occurrence(s, p, j);
    } else {
        assert(forall|j: int| 0 <= j < i ==> !occurs_at(s, p, j));
    }
}

/// `first_occurrence` is well defined: it is the first position at which `p` occurs in
/// `s`, and it is `None` exactly when `p` occurs nowhere in `s`.
pub proof fn lemma_first_occurrence(s: Seq<char>, p: Seq<char>)
    ensures
        first_occurrence(s, p) is None <==> forall|i: int| !occurs_at(s, p, i),
        first_occurrence(s, p) matches Some(k) ==> {
            &&& occurs_at(s, p, k)
            &&& forall|j: int| 0 <= j < k ==> !occurs_at(s, p, j)
        },
{
    if exists|i: int| occurs_at(s, p, i) {
        let i = choose|i: int| occurs_at(s, p, i);
        lemma_least_occurrence(s, p, i);
    }
}

/// The body of an HTTP response: what follows the first blank line.
pub open spec fn response_body_answer(response: Seq<char>) -> Result<Seq<char>, Seq<char>> {
    match first_occurrence(response, "\r\n\r\n"@) {
        Some(i) => Ok(response.skip(i + 4)),
        None => Err("invalid HTTP response"@),
    }
}

/// Splits the body off an HTTP response (see `response_body_answer`).
pub fn response_body(response: &str) -> (res: Result<String, String>)
    ensures
        text_result(res) == response_body_answer(response@),
{
    proof {
        reveal_strlit("\r\n\r\n");
    }
    let s = chars_of(response);
    let sep = chars_of("\r\n\r\n");
    let mut i: usize = 0;
    while s.len() >= 4 && i <= s.len() - 4
        invariant
            sep@ == "\r\n\r\n"@,
            sep@.len() == 4,
            s@ == response@,
            forall|j: int| 0 <= j < i ==> !occurs_at(s@, sep@, j),
        decreases s.len() - i,
    {
        if chars_occur_at(&s, &sep, i) {
            let ghost w = choose|k: int| occurs_at(s@, sep@, k) && forall|j: int| 0 <= j < k ==> !occurs_at(s@, sep@, j);
            assert(w == i) by {
                if w < i {
                } else if w > i {
                }
            }
            let body = string_from_chars(&s, i + 4, s.len());
            assert(body@ =~= response@.skip(i + 4));
            return Ok(body);
        }
        i += 1;
    }
    assert forall|j: int| !occurs_at(s@, sep@, j) by {
        if 0 <= j < i {
        }
    }
    Err("invalid HTTP response".to_owned())
}

/// What a JSON text holds under `key` at its top level: a decoding error, the string
/// stored there, or nothing when the key is absent or holds no string.
pub uninterp spec fn json_string_member(text: Seq<char>, key: Seq<char>) -> Result<Option<Seq<char>>, Seq<char>>;

/// serde_json's `from_str::<Value>` on `text`, then `Value::get(key)` and
/// `Value::as_str` on the result. Its outcome depends on the text and key alone and is
/// named by `json_string_member`; nothing more is stated of JSON decoding.
#[verifier::external_body]
fn json_string_field(text: &str, key: &str) -> (res: Result<Option<String>, String>)
    ensures
        match res {
            Ok(Some(s)) => json_string_member(text@, key@) == Ok::<Option<Seq<char>>, Seq<char>>(Some(s@)),
            Ok(None) => json_string_member(text@, key@) == Ok::<Option<Seq<char>>, Seq<char>>(None),
            Err(m) => json_string_member(text@, key@) == Err::<Option<Seq<char>>, Seq<char>>(m@),
        },
{
    let value: serde_json::Value = serde_json::from_str(text).map_err(|e| e.to_string())?;
    Ok(value.get(key).and_then(serde_json::Value::as_str).map(|s| s.to_owned()))
}

/// The WebSocket URL announced in a DevTools version document.
pub open spec fn ws_url_answer(document: Seq<char>) -> Result<Seq<char>, Seq<char>> {
    ws_url_member_answer(json_string_member(document, "webSocketDebuggerUrl"@))
}

/// The WebSocket URL once the document's `webSocketDebuggerUrl` member has been read:
/// the member's text, the "missing" error when there is no such string member, or the
/// decoder's error.
pub open spec fn ws_url_member_answer(member: Result<Option<Seq<char>>, Seq<char>>) -> Result<
    Seq<char>,
    Seq<char>,
> {
    match member {
        Err(e) => Err(e),
        Ok(Some(url)) => Ok(url),
        Ok(None) => Err("missing webSocketDebuggerUrl in /json/version response"@),
    }
}

/// An optional-member result taken by view.
pub open spec fn member_view(member: Result<Option<String>, String>) -> Result<Option<Seq<char>>, Seq<char>> {
    match member {
        Ok(Some(s)) => Ok(Some(s@)),
        Ok(None) => Ok(None),
        Err(e) => Err(e@),
    }
}

/// The WebSocket URL from the outcome of reading the `webSocketDebuggerUrl` member
/// (see `ws_url_member_answer`).
pub fn ws_url_from_member(member: Result<Option<String>, String>) -> (res: Result<String, String>)
    ensures
        text_result(res) == ws_url_member_answer(member_view(member)),
{
    match member {
        Ok(Some(url)) => Ok(url),
        Ok(None) => Err("missing webSocketDebuggerUrl in /json/version response".to_owned()),
        Err(e) => Err(e),
    }
}

/// The WebSocket URL in the raw reply to the version request: the reply must be UTF-8,
/// have a body, and the body must be JSON with a string `webSocketDebuggerUrl`.
pub open spec fn debug_ws_url_answer(response: Seq<u8>) -> Result<Seq<char>, Seq<char>> {
    if !valid_utf8(response) {
        Err(utf8_error_text(response))
    } else {
        match response_body_answer(decode_utf8(response)) {
            Err(e) => Err(e),
            Ok(body) => ws_url_answer(body),
        }
    }
}

/// Reads the WebSocket URL out of the raw reply (see `debug_ws_url_answer`).
pub fn debug_ws_url_from_response(response: Vec<u8>) -> (res: Result<String, String>)
    ensures
        text_result(res) == debug_ws_url_answer(response@),
{
    let ghost bytes = response@;
    let text = string_from_utf8(response)?;
    let body = response_body(text.as_str())?;
    let member = json_string_field(body.as_str(), "webSocketDebuggerUrl");
    ws_url_from_member(member)
}

/// The parts of a local URL built from a host without `/`, a port and any path.
proof fn lemma_local_url_parts(host: Seq<char>, port: u16, path: Seq<char>)
    requires
        !host.contains('/'),
    ensures
        starts_with("http://"@ + host + ":"@ + decimal(port as nat) + "/"@ + path, "http://"@),
        url_parts("http://"@ + host + ":"@ + decimal(port as nat) + "/"@ + path) == Some(
            (host, decimal(port as nat), "/"@ + path),
        ),
{
    reveal_strlit("http://");
    reveal_strlit(":");
    reveal_strlit("/");
    let d = decimal(port as nat);
    lemma_decimal_digits(port as nat);
    let url = "http://"@ + host + ":"@ + d + "/"@ + path;
    let hl = host.len() as int;
    assert(url.subrange(0, 7) =~= "http://"@);
    assert(starts_with(url, "http://"@));
    let rest = url.skip(7);
    assert(rest =~= host + seq![':'] + d + seq!['/'] + path);
    let i: int = hl + 1 + d.len() as int;
    assert(rest[i] == '/');
    assert forall|j: int| 0 <= j < i implies rest[j] != '/' by {
        if j < hl {
            assert(rest[j] == host[j]);
        } else if j > hl {
            assert(rest[j] == d[j - hl - 1]);
            assert(is_digit(d[j - hl - 1]));
        }
    }
    let w = choose|k: int| 0 <= k < rest.len() && rest[k] == '/' && forall|j: int| 0 <= j < k ==> rest[j] != '/';
    assert(w == i) by {
        if w < i {
        } else if w > i {
        }
    }
    assert(first_index_of(rest, '/') == Some(i));
    let authority = rest.take(i);
    assert(authority =~= host + seq![':'] + d);
    assert(rest.skip(i + 1) =~= path);
    assert(authority[hl] == ':');
    assert forall|j: int| hl < j < authority.len() implies authority[j] != ':' by {
        assert(authority[j] == d[j - hl - 1]);
        assert(is_digit(d[j - hl - 1]));
    }
    let v = choose|k: int| 0 <= k < authority.len() && authority[k] == ':' && forall|j: int| k < j < authority.len() ==> authority[j] != ':';
    assert(v == hl) by {
        if v < hl {
        } else if v > hl {
        }
    }
    assert(last_index_of(authority, ':') == Some(hl));
    assert(authority.take(hl) =~= host);
    assert(authority.skip(hl + 1) =~= d);
    assert(url_parts(url) == Some((host, d, "/"@ + path)));
}

/// A local URL built from a host without `/`, a port and any path reads back as that
/// host, port and path (with its leading `/`); the host may itself hold `:`, since the
/// port is what follows the last `:` before the first `/`.
pub proof fn lemma_local_url_round_trip(host: Seq<char>, port: u16, path: Seq<char>)
    requires
        !host.contains('/'),
    ensures
        local_url_answer("http://"@ + host + ":"@ + decimal(port as nat) + "/"@ + path) == Ok::<
            (Seq<char>, u16, Seq<char>),
            Seq<char>,
        >((host, port, "/"@ + path)),
{
    reveal(local_url_answer);
    lemma_local_url_parts(host, port, path);
    let d = decimal(port as nat);
    lemma_decimal_digits(port as nat);
    assert(is_digit(d[0]));
    assert(unsigned_digits(d) == d);
    assert(is_u16_text(d));
}

/// The LightPanda version URL is the local URL of host `127.0.0.1`, `port` and path
/// `json/version`.
proof fn lemma_version_url_shape(port: u16)
    ensures
        lightpanda_version_url(port) == "http://"@ + "127.0.0.1"@ + ":"@ + decimal(port as nat) + "/"@
            + seq!['j', 's', 'o', 'n', '/', 'v', 'e', 'r', 's', 'i', 'o', 'n'],
        "/"@ + seq!['j', 's', 'o', 'n', '/', 'v', 'e', 'r', 's', 'i', 'o', 'n'] == "/json/version"@,
        !"127.0.0.1"@.contains('/'),
{
    reveal_strlit("http://127.0.0.1:");
    reveal_strlit("http://");
    reveal_strlit(":");
    reveal_strlit("/json/version");
    reveal_strlit("/");
    reveal_strlit("127.0.0.1");
    let tail = seq!['j', 's', 'o', 'n', '/', 'v', 'e', 'r', 's', 'i', 'o', 'n'];
    let front = "http://"@ + "127.0.0.1"@ + ":"@;
    let d = decimal(port as nat);
    assert(front =~= "http://127.0.0.1:"@);
    assert("/"@ + tail =~= "/json/version"@);
    assert(front + d + "/"@ + tail =~= front + d + ("/"@ + tail));
}

/// The version URL built for a LightPanda on `port` reads back as host `127.0.0.1`,
/// that port, and path `/json/version`.
pub proof fn lemma_version_url_round_trip(port: u16)
    ensures
        local_url_answer(lightpanda_version_url(port)) == Ok::<(Seq<char>, u16, Seq<char>), Seq<char>>(
            ("127.0.0.1"@, port, "/json/version"@),
        ),
{
    lemma_version_url_shape(port);
    lemma_local_url_round_trip(
        "127.0.0.1"@,
        port,
        seq!['j', 's', 'o', 'n', '/', 'v', 'e', 'r', 's', 'i', 'o', 'n'],
    );
}

} // verus!
