//! The Jailgun HTTP ingest client's rules: which endpoints it may talk to,
//! which response URLs it follows, how it reads MCP tool replies and run
//! summaries, and how a finished run becomes evidence.

use vstd::prelude::*;

use crate::crypto::{hex_encode, hex_lower, sha256, sha256_of};
use crate::domain::{adapter_error, AdapterError};
use crate::evidence::{evidence_views, Evidence, EvidenceView};
use crate::jailgun::{
    ensure_no_prompt_text, evidence_for_summary, file_uri, file_uri_spec, has_prompt_key,
    require_wire_version, summary_evidence_spec, wire_version_error, JailgunSummary,
    JailgunSummaryView,
};
use crate::json::{json_bool, json_get, json_get_str, lookup, Json, JsonNumber};
use crate::text::{
    concat, contains, contains_text, is_blank, is_blank_text, signed_decimal,
    signed_decimal_text, split_on, split_text, starts_with, str_eq, texts, trim,
    trim_end_char, trim_end_char_text, trim_start_char, trim_start_char_text, trim_text,
};

verus! {

// ---------------------------------------------------------------- URLs

/// The parts of a parsed absolute URL that the local-origin rules read:
/// scheme, user name, password, query and fragment.
#[derive(Clone, Debug, PartialEq, Eq)]
pub struct UrlParts {
    pub scheme: String,
    pub username: String,
    pub password: Option<String>,
    pub query: Option<String>,
    pub fragment: Option<String>,
}

/// The texts of the parts.
pub open spec fn url_parts_texts(p: UrlParts) -> (
    Seq<char>,
    Seq<char>,
    Option<Seq<char>>,
    Option<Seq<char>>,
    Option<Seq<char>>,
) {
    (p.scheme@, p.username@, opt_seq(p.password), opt_seq(p.query), opt_seq(p.fragment))
}

/// The text of an optional string.
pub open spec fn opt_seq(o: Option<String>) -> Option<Seq<char>> {
    match o {
        Some(s) => Some(s@),
        None => None,
    }
}

/// What `url::Url::parse` makes of a text, by the parts of the URL it reads
/// back (scheme, user name, password, query, fragment); `None` where the text
/// is no absolute URL.
pub uninterp spec fn url_parsed(text: Seq<char>) -> Option<
    (Seq<char>, Seq<char>, Option<Seq<char>>, Option<Seq<char>>, Option<Seq<char>>),
>;

/// Parses an absolute URL with `reqwest::Url::parse` (the `url` crate) and
/// reads back its scheme, user name, password, query and fragment. The
/// contract names the result and says no more: URL parsing is that crate's
/// own logic.
#[verifier::external_body]
fn parse_url(text: &str) -> (r: Option<UrlParts>)
    ensures
        url_parsed(text@) == match r {
            Some(p) => Some(url_parts_texts(p)),
            None => None,
        },
{
    match reqwest::Url::parse(text) {
        Ok(url) => Some(UrlParts {
            scheme: url.scheme().to_owned(),
            username: url.username().to_owned(),
            password: url.password().map(str::to_owned),
            query: url.query().map(str::to_owned),
            fragment: url.fragment().map(str::to_owned),
        }),
        Err(_) => None,
    }
}

/// The configured base URL, trimmed of whitespace and trailing slashes.
pub open spec fn base_url_text(base: Seq<char>) -> Seq<char> {
    trim_end_char_text(trim_text(base), '/')
}

/// Why a base URL is not an acceptable ingest endpoint, if it is not.
pub open spec fn base_url_error(base: Seq<char>) -> Option<Seq<char>> {
    let b = base_url_text(base);
    if b.len() == 0 {
        Some("Jailgun ingest endpoint is not configured"@)
    } else {
        match url_parsed(b) {
            None => Some("Jailgun ingest endpoint is not valid"@),
            Some((scheme, username, password, query, fragment)) => if scheme != "http"@ && scheme
                != "https"@ {
                Some("Jailgun ingest endpoint must use http or https"@)
            } else if username.len() > 0 || password is Some {
                Some("Jailgun ingest endpoint must not include credentials"@)
            } else if query is Some || fragment is Some {
                Some("Jailgun ingest endpoint must not include query or fragment"@)
            } else {
                None
            },
        }
    }
}

/// Checks the configured base URL: set, parseable, plain http(s), without
/// credentials, query or fragment. Gives it back trimmed.
pub fn validate_jailgun_base_url(base_url: &str) -> (r: Result<String, AdapterError>)
    ensures
        match r {
            Ok(b) => base_url_error(base_url@) is None && b@ == base_url_text(base_url@),
            Err(e) => base_url_error(base_url@) == Some(e.message@),
        },
{
    let trimmed = trim(base_url);
    let b = trim_end_char(trimmed.as_str(), '/');
    if b.unicode_len() == 0 {
        return Err(adapter_error("Jailgun ingest endpoint is not configured".to_owned()));
    }
    let parts = match parse_url(b.as_str()) {
        Some(p) => p,
        None => {
            return Err(adapter_error("Jailgun ingest endpoint is not valid".to_owned()));
        },
    };
    if !str_eq(parts.scheme.as_str(), "http") && !str_eq(parts.scheme.as_str(), "https") {
        return Err(adapter_error("Jailgun ingest endpoint must use http or https".to_owned()));
    }
    if parts.username.unicode_len() > 0 || parts.password.is_some() {
        return Err(
            adapter_error("Jailgun ingest endpoint must not include credentials".to_owned()),
        );
    }
    if parts.query.is_some() || parts.fragment.is_some() {
        return Err(
            adapter_error("Jailgun ingest endpoint must not include query or fragment".to_owned()),
        );
    }
    Ok(b)
}

/// An endpoint under the base URL: the base without trailing slashes, `/`,
/// and the path without leading slashes.
pub open spec fn endpoint_spec(base: Seq<char>, path: Seq<char>) -> Result<Seq<char>, Seq<char>> {
    match base_url_error(base) {
        Some(e) => Err(e),
        None => Ok(
            trim_end_char_text(base_url_text(base), '/') + "/"@ + trim_start_char_text(path, '/'),
        ),
    }
}

/// The URL of an endpoint under the configured base URL.
pub fn endpoint(base_url: &str, path: &str) -> (r: Result<String, AdapterError>)
    ensures
        match r {
            Ok(u) => endpoint_spec(base_url@, path@) == Ok::<Seq<char>, Seq<char>>(u@),
            Err(e) => endpoint_spec(base_url@, path@) == Err::<Seq<char>, Seq<char>>(e.message@),
        },
{
    let base = match validate_jailgun_base_url(base_url) {
        Ok(b) => b,
        Err(e) => {
            return Err(e);
        },
    };
    let head = trim_end_char(base.as_str(), '/');
    let tail = trim_start_char(path, '/');
    let mut url = concat(head.as_str(), "/");
    url.append(tail.as_str());
    Ok(url)
}

/// `pre` begins `s`.
pub open spec fn has_prefix(s: Seq<char>, pre: Seq<char>) -> bool {
    pre.len() <= s.len() && s.subrange(0, pre.len() as int) == pre
}

/// Why a URL from a Jailgun response may not be followed, if it may not: it
/// must be a local absolute path without query or fragment.
pub open spec fn same_origin_error(path: Seq<char>) -> Option<Seq<char>> {
    let p = trim_text(path);
    if has_prefix(p, "//"@) || has_prefix(p, "http://"@) || has_prefix(p, "https://"@) {
        Some("Jailgun response URL is outside local origin"@)
    } else if p.len() == 0 || !has_prefix(p, "/"@) {
        Some("Jailgun response URL must be a local relative path"@)
    } else if contains_text(p, "?"@) || contains_text(p, "#"@) {
        Some("Jailgun response URL must not include query or fragment"@)
    } else {
        None
    }
}

/// The endpoint a response URL leads to, under the base URL.
pub open spec fn same_origin_endpoint_spec(base: Seq<char>, path: Seq<char>) -> Result<
    Seq<char>,
    Seq<char>,
> {
    match same_origin_error(path) {
        Some(e) => Err(e),
        None => endpoint_spec(base, trim_text(path)),
    }
}

/// Resolves a URL from a Jailgun response against the base URL, refusing
/// anything that could leave the local origin.
pub fn same_origin_endpoint(base_url: &str, path: &str) -> (r: Result<String, AdapterError>)
    ensures
        match r {
            Ok(u) => same_origin_endpoint_spec(base_url@, path@) == Ok::<Seq<char>, Seq<char>>(
                u@,
            ),
            Err(e) => same_origin_endpoint_spec(base_url@, path@) == Err::<Seq<char>, Seq<char>>(
                e.message@,
            ),
        },
{
    let p = trim(path);
    if starts_with(p.as_str(), "//") || starts_with(p.as_str(), "http://") || starts_with(
        p.as_str(),
        "https://",
    ) {
        return Err(adapter_error("Jailgun response URL is outside local origin".to_owned()));
    }
    if p.unicode_len() == 0 || !starts_with(p.as_str(), "/") {
        return Err(
            adapter_error("Jailgun response URL must be a local relative path".to_owned()),
        );
    }
    if contains(p.as_str(), "?") || contains(p.as_str(), "#") {
        return Err(
            adapter_error("Jailgun response URL must not include query or fragment".to_owned()),
        );
    }
    endpoint(base_url, p.as_str())
}

/// The name of the setting that lists the base URLs runs may be submitted to.
pub fn jailgun_allowed_policy_env() -> (name: String)
    ensures
        name@ == "JMCP_JAILGUN_ALLOWED_URLS"@,
{
    "JMCP_JAILGUN_ALLOWED_URLS".to_owned()
}

/// The allowed entry at `i`, trimmed of whitespace and trailing slashes, is
/// the base URL.
pub open spec fn entry_matches(allowed: Seq<char>, i: int, base: Seq<char>) -> bool {
    &&& 0 <= i < split_text(allowed, ',').len()
    &&& trim_end_char_text(trim_text(split_text(allowed, ',')[i]), '/') == base_url_text(base)
}

/// The base URL is one of the comma-separated allowed URLs, each compared
/// trimmed of whitespace and trailing slashes.
pub open spec fn authorized_spec(base: Seq<char>, allowed: Option<Seq<char>>) -> bool {
    &&& allowed is Some
    &&& exists|i: int| #[trigger] entry_matches(allowed->0, i, base)
}

proof fn lemma_entry_authorizes(b: Seq<char>, a: Seq<char>, i: int)
    requires
        entry_matches(a, i, b),
    ensures
        authorized_spec(b, Some(a)),
{
    let o: Option<Seq<char>> = Some(a);
    assert(o is Some);
    assert(o->0 == a);
    assert(exists|j: int| #[trigger] entry_matches(a, j, b));
    assert(exists|j: int| #[trigger] entry_matches(o->0, j, b));
    assert(authorized_spec(b, o));
}

/// Whether the base URL is on the local submission allow-list (`allowed` is
/// the setting's value, `None` when unset).
pub fn url_is_authorized_for_local_submission(base_url: &str, allowed: Option<&str>) -> (r: bool)
    ensures
        r == authorized_spec(base_url@, opt_str(allowed)),
{
    let trimmed = trim(base_url);
    let normalized = trim_end_char(trimmed.as_str(), '/');
    match allowed {
        None => false,
        Some(a) => {
            let entries = split_on(a, ',');
            let ghost parts = split_text(a@, ',');
            let mut i: usize = 0;
            while i < entries.len()
                invariant
                    i <= entries@.len(),
                    texts(entries@) == parts,
                    parts == split_text(a@, ','),
                    opt_str(allowed) == Some(a@),
                    normalized@ == base_url_text(base_url@),
                    forall|k: int| 0 <= k < i ==> !#[trigger] entry_matches(a@, k, base_url@),
                decreases entries@.len() - i,
            {
                let t = trim(entries[i].as_str());
                let e = trim_end_char(t.as_str(), '/');
                assert(parts[i as int] == entries@[i as int]@);
                if str_eq(e.as_str(), normalized.as_str()) {
                    assert(trim_end_char_text(trim_text(split_text(a@, ',')[i as int]), '/')
                        == base_url_text(base_url@));
                    assert(0 <= i < split_text(a@, ',').len());
                    assert(opt_str(allowed) == Some(a@));
                    proof {
                        lemma_entry_authorizes(base_url@, a@, i as int);
                    }
                    return true;
                }
                i = i + 1;
            }
            false
        },
    }
}

/// The text of an optional string slice.
pub open spec fn opt_str(o: Option<&str>) -> Option<Seq<char>> {
    match o {
        Some(s) => Some(s@),
        None => None,
    }
}

/// Why the client may not submit runs, if it may not.
pub open spec fn client_config_error(base: Seq<char>, token: Seq<char>, allowed: Option<Seq<char>>) -> Option<Seq<char>> {
    match base_url_error(base) {
        Some(e) => Some(e),
        None => if is_blank_text(token) {
            Some("Jailgun ingest token is not configured"@)
        } else if !authorized_spec(base, allowed) {
            Some("Jailgun ingest endpoint is outside configured local submission policy"@)
        } else {
            None
        },
    }
}

/// Checks that the client may submit runs: a valid base URL, a token, and
/// the base URL on the local submission allow-list.
pub fn validate_jailgun_client_config(base_url: &str, token: &str, allowed: Option<&str>) -> (r: Result<(), AdapterError>)
    ensures
        match r {
            Ok(()) => client_config_error(base_url@, token@, opt_str(allowed)) is None,
            Err(e) => client_config_error(base_url@, token@, opt_str(allowed)) == Some(e.message@),
        },
{
    match validate_jailgun_base_url(base_url) {
        Err(e) => {
            return Err(e);
        },
        Ok(_) => {},
    }
    if is_blank(token) {
        return Err(adapter_error("Jailgun ingest token is not configured".to_owned()));
    }
    if !url_is_authorized_for_local_submission(base_url, allowed) {
        return Err(
            adapter_error(
                "Jailgun ingest endpoint is outside configured local submission policy".to_owned(),
            ),
        );
    }
    Ok(())
}

/// The first position of an `api`, `runs` pair followed by one more piece.
pub open spec fn first_runs_window(parts: Seq<Seq<char>>, i: nat) -> Option<nat>
    decreases parts.len() - i,
{
    if i + 2 >= parts.len() {
        None
    } else if parts[i as int] == "api"@ && parts[i + 1int] == "runs"@ {
        Some(i)
    } else {
        first_runs_window(parts, i + 1)
    }
}

/// The run id in a summary URL: the piece after the first `api/runs`, when
/// it is not empty.
pub open spec fn run_id_from_summary_url_spec(url: Seq<char>) -> Option<Seq<char>> {
    let parts = split_text(trim_text(url), '/');
    match first_runs_window(parts, 0) {
        Some(i) => if parts[i + 2int].len() > 0 {
            Some(parts[i + 2int])
        } else {
            None
        },
        None => None,
    }
}

/// Reads the run id out of a summary URL such as `/api/runs/{id}/summary`.
pub fn run_id_from_summary_url(summary_url: &str) -> (r: Option<String>)
    ensures
        opt_seq(r) == run_id_from_summary_url_spec(summary_url@),
{
    let t = trim(summary_url);
    let parts = split_on(t.as_str(), '/');
    let ghost p = split_text(trim_text(summary_url@), '/');
    let mut i: usize = 0;
    while parts.len() >= 3 && i < parts.len() - 2
        invariant
            texts(parts@) == p,
            p == split_text(trim_text(summary_url@), '/'),
            p.len() == parts@.len(),
            first_runs_window(p, 0) == first_runs_window(p, i as nat),
        decreases parts@.len() - i,
    {
        assert(p[i as int] == parts@[i as int]@);
        assert(p[i + 1] == parts@[i + 1]@);
        if str_eq(parts[i].as_str(), "api") && str_eq(parts[i + 1].as_str(), "runs") {
            assert(p[i + 2] == parts@[i + 2]@);
            assert(first_runs_window(p, i as nat) == Some(i as nat));
            assert(first_runs_window(p, 0) == Some(i as nat));
            assert(p == split_text(trim_text(summary_url@), '/'));
            if parts[i + 2].unicode_len() > 0 {
                let id = parts[i + 2].clone();
                assert(id@ == p[i + 2]);
                return Some(id);
            }
            assert(p[i + 2].len() == 0);
            return None;
        }
        i = i + 1;
    }
    assert(first_runs_window(p, i as nat) is None);
    None
}

// ---------------------------------------------------------------- MCP and summaries

/// The names of an object's members, in order.
pub open spec fn member_names(entries: Seq<(String, Json)>) -> Seq<Seq<char>> {
    entries.map_values(|e: (String, Json)| e.0@)
}

/// The members of an object value; empty for other values.
pub open spec fn object_entries(j: Json) -> Seq<(String, Json)> {
    match j {
        Json::Object(entries) => entries@,
        _ => Seq::empty(),
    }
}

/// The JSON-RPC body of an MCP `tools/call` request for the tool `name`:
/// `{"jsonrpc": "2.0", "id": 1, "method": "tools/call", "params": {"name":
/// name, "arguments": arguments}}`.
pub fn mcp_tool_call_body(name: &str, arguments: Json) -> (body: Json)
    ensures
        body is Object,
        member_names(object_entries(body)) == seq!["jsonrpc"@, "id"@, "method"@, "params"@],
        json_get_str(body, "jsonrpc"@) == Some("2.0"@),
        json_get(body, "id"@) == Some(Json::Number(JsonNumber::PosInt(1))),
        json_get_str(body, "method"@) == Some("tools/call"@),
        member_names(object_entries(json_get(body, "params"@).unwrap())) == seq![
            "name"@,
            "arguments"@,
        ],
        json_get_str(json_get(body, "params"@).unwrap(), "name"@) == Some(name@),
        json_get(json_get(body, "params"@).unwrap(), "arguments"@) == Some(arguments),
{
    proof {
        reveal_strlit("jsonrpc");
        reveal_strlit("id");
        reveal_strlit("method");
        reveal_strlit("params");
        reveal_strlit("name");
        reveal_strlit("arguments");
        reveal_with_fuel(lookup, 5);
    }
    let mut params: Vec<(String, Json)> = Vec::new();
    params.push(("name".to_owned(), Json::String(name.to_owned())));
    params.push(("arguments".to_owned(), arguments));
    let ghost p = params@;
    assert(member_names(p) =~= seq!["name"@, "arguments"@]);
    assert(p.drop_first()[0] == p[1]);
    let mut entries: Vec<(String, Json)> = Vec::new();
    entries.push(("jsonrpc".to_owned(), Json::String("2.0".to_owned())));
    entries.push(("id".to_owned(), Json::Number(JsonNumber::PosInt(1))));
    entries.push(("method".to_owned(), Json::String("tools/call".to_owned())));
    entries.push(("params".to_owned(), Json::Object(params)));
    let ghost e = entries@;
    assert(member_names(e) =~= seq!["jsonrpc"@, "id"@, "method"@, "params"@]);
    assert(e.drop_first()[0] == e[1]);
    assert(e.drop_first().drop_first()[0] == e[2]);
    assert(e.drop_first().drop_first().drop_first()[0] == e[3]);
    assert("id"@.len() == 2 && "jsonrpc"@.len() == 7 && "method"@.len() == 6);
    assert("id"@ != "jsonrpc"@);
    assert(lookup(e, "id"@) == lookup(e.drop_first(), "id"@));
    assert(lookup(e.drop_first(), "id"@) == Some(e[1].1));
    assert("method"@ != "jsonrpc"@);
    assert("method"@ != "id"@);
    assert(lookup(e, "method"@) == lookup(e.drop_first(), "method"@));
    assert(lookup(e.drop_first(), "method"@) == lookup(e.drop_first().drop_first(), "method"@));
    assert(lookup(e.drop_first().drop_first(), "method"@) == Some(e[2].1));
    assert("params"@.len() == 6 && "params"@[0] != "method"@[0]);
    assert("params"@ != "jsonrpc"@ && "params"@ != "id"@ && "params"@ != "method"@);
    assert(lookup(e, "params"@) == lookup(e.drop_first(), "params"@));
    assert(lookup(e.drop_first(), "params"@) == lookup(e.drop_first().drop_first(), "params"@));
    assert(lookup(e.drop_first().drop_first(), "params"@) == lookup(
        e.drop_first().drop_first().drop_first(),
        "params"@,
    ));
    assert(lookup(e.drop_first().drop_first().drop_first(), "params"@) == Some(e[3].1));
    assert(e[3].1 == Json::Object(params));
    assert(lookup(p, "name"@) == Some(p[0].1));
    assert("arguments"@.len() == 9 && "name"@.len() == 4);
    assert(lookup(p, "arguments"@) == lookup(p.drop_first(), "arguments"@));
    assert(lookup(p.drop_first(), "arguments"@) == Some(p[1].1));
    Json::Object(entries)
}

/// The arguments of the `jailgun.run_summary` tool: `{"run_id": run_id}`.
pub fn run_summary_arguments(run_id: &str) -> (args: Json)
    ensures
        member_names(object_entries(args)) == seq!["run_id"@],
        json_get_str(args, "run_id"@) == Some(run_id@),
{
    let mut entries: Vec<(String, Json)> = Vec::new();
    entries.push(("run_id".to_owned(), Json::String(run_id.to_owned())));
    assert(member_names(entries@) =~= seq!["run_id"@]);
    Json::Object(entries)
}

/// Why an MCP reply carries no tool output, if it does not.
pub open spec fn mcp_reply_error(resp: Json) -> Option<Seq<char>> {
    if json_get(resp, "error"@) is Some {
        Some("Jailgun MCP response contained an error"@)
    } else {
        match json_get(resp, "result"@) {
            None => Some("Jailgun MCP response missing result"@),
            Some(r) => if json_bool(json_get(r, "isError"@)) == Some(true) {
                Some("Jailgun MCP tool returned an error"@)
            } else if json_get(r, "structuredContent"@) is None {
                Some("Jailgun MCP response missing structuredContent"@)
            } else {
                None
            },
        }
    }
}

/// The structured output of an MCP tool reply.
pub fn mcp_structured_content(response: &Json) -> (r: Result<&Json, AdapterError>)
    ensures
        match r {
            Ok(c) => {
                &&& mcp_reply_error(*response) is None
                &&& json_get(json_get(*response, "result"@).unwrap(), "structuredContent"@) == Some(
                    *c,
                )
            },
            Err(e) => mcp_reply_error(*response) == Some(e.message@),
        },
{
    if response.get("error").is_some() {
        return Err(adapter_error("Jailgun MCP response contained an error".to_owned()));
    }
    let result = match response.get("result") {
        Some(r) => r,
        None => {
            return Err(adapter_error("Jailgun MCP response missing result".to_owned()));
        },
    };
    let is_error = match result.get("isError") {
        Some(v) => v.as_bool(),
        None => None,
    };
    if is_error == Some(true) {
        return Err(adapter_error("Jailgun MCP tool returned an error".to_owned()));
    }
    match result.get("structuredContent") {
        Some(c) => Ok(c),
        None => Err(
            adapter_error("Jailgun MCP response missing structuredContent".to_owned()),
        ),
    }
}

/// Why a run summary may not be read, if it may not: through MCP it must not
/// still be running; it must carry no prompt text and speak wire version 1.
pub open spec fn summary_value_error(v: Json, via_mcp: bool) -> Option<Seq<char>> {
    if via_mcp && json_get_str(v, "status"@) == Some("running"@) {
        Some("Jailgun MCP summary is still running"@)
    } else if has_prompt_key(v) {
        Some("Jailgun durable artifact contains prompt text key"@)
    } else {
        wire_version_error(v, "Jailgun summary"@)
    }
}

/// Checks a run summary's JSON before it is read.
pub fn check_summary_value(value: &Json, via_mcp: bool) -> (r: Result<(), AdapterError>)
    ensures
        match r {
            Ok(()) => summary_value_error(*value, via_mcp) is None,
            Err(e) => summary_value_error(*value, via_mcp) == Some(e.message@),
        },
{
    if via_mcp {
        match value.get_str("status") {
            Some(s) => if str_eq(s, "running") {
                return Err(adapter_error("Jailgun MCP summary is still running".to_owned()));
            },
            None => {},
        }
    }
    match ensure_no_prompt_text(value) {
        Err(e) => {
            return Err(e);
        },
        Ok(()) => {},
    }
    require_wire_version(value, "Jailgun summary")
}

/// What the MCP summary poll does after a failed attempt.
#[derive(Clone, Debug, PartialEq, Eq)]
pub enum McpPoll {
    /// Ask again after a short pause: the run is still going.
    Retry,
    /// Give up with this error.
    Fail(String),
}

/// After a failed attempt with `message`: only a run that is still running
/// is asked again, and only until the timeout.
pub fn mcp_poll_next(message: &str, elapsed_ms: u64, timeout_ms: u64) -> (next: McpPoll)
    ensures
        !contains_text(message@, "still running"@) ==> (next matches McpPoll::Fail(m) && m@
            == message@),
        contains_text(message@, "still running"@) && elapsed_ms >= timeout_ms ==> (next matches McpPoll::Fail(m) && m@ == "Jailgun MCP summary timed out"@),
        contains_text(message@, "still running"@) && elapsed_ms < timeout_ms ==> next == McpPoll::Retry,
{
    if !contains(message, "still running") {
        McpPoll::Fail(message.to_owned())
    } else if elapsed_ms >= timeout_ms {
        McpPoll::Fail("Jailgun MCP summary timed out".to_owned())
    } else {
        McpPoll::Retry
    }
}

// ---------------------------------------------------------------- CLI runs

/// The bytes a failed command's digest covers: its exit code (`-1` when it
/// has none), then `\0stdout\0`, stdout, `\0stderr\0`, stderr.
pub open spec fn output_digest_input(code: Option<i32>, stdout: Seq<u8>, stderr: Seq<u8>) -> Seq<u8> {
    let c: int = match code {
        Some(c) => c as int,
        None => -1,
    };
    vstd::utf8::encode_utf8(signed_decimal_text(c)) + seq![0u8] + vstd::utf8::encode_utf8(
        "stdout"@,
    ) + seq![0u8] + stdout + seq![0u8] + vstd::utf8::encode_utf8("stderr"@) + seq![0u8]
        + stderr
}

fn append_bytes(out: &mut Vec<u8>, bytes: &[u8])
    ensures
        final(out)@ == old(out)@ + bytes@,
{
    let ghost start = out@;
    let mut i: usize = 0;
    while i < bytes.len()
        invariant
            i <= bytes@.len(),
            out@ == start + bytes@.take(i as int),
        decreases bytes@.len() - i,
    {
        out.push(bytes[i]);
        assert(bytes@.take(i + 1) =~= bytes@.take(i as int).push(bytes@[i as int]));
        i = i + 1;
    }
    assert(bytes@.take(i as int) =~= bytes@);
}

/// The lower-case hex SHA-256 digest of a failed command's exit code and
/// output.
pub fn digest_output(code: Option<i32>, stdout: &[u8], stderr: &[u8]) -> (digest: String)
    ensures
        digest@ == hex_lower(sha256_of(output_digest_input(code, stdout@, stderr@))),
{
    let c: i64 = match code {
        Some(c) => c as i64,
        None => -1,
    };
    let code_text = signed_decimal(c);
    let mut data: Vec<u8> = Vec::new();
    append_bytes(&mut data, code_text.as_str().as_bytes());
    data.push(0u8);
    append_bytes(&mut data, "stdout".as_bytes());
    data.push(0u8);
    append_bytes(&mut data, stdout);
    data.push(0u8);
    append_bytes(&mut data, "stderr".as_bytes());
    data.push(0u8);
    append_bytes(&mut data, stderr);
    assert(data@ =~= output_digest_input(code, stdout@, stderr@));
    let d = sha256(data.as_slice());
    hex_encode(d.as_slice())
}

/// The refusal of a CLI operation that exited unsuccessfully.
pub open spec fn command_failure_text(operation: Seq<char>, code: Option<i32>, stdout: Seq<u8>, stderr: Seq<u8>) -> Seq<char> {
    "jailgun "@ + operation + " failed with digest "@ + hex_lower(
        sha256_of(output_digest_input(code, stdout, stderr)),
    )
}

/// Checks how a Jailgun CLI operation exited: a failure is reported by a
/// digest of its exit code and output, never by the output itself.
pub fn check_command_output(operation: &str, success: bool, code: Option<i32>, stdout: &[u8], stderr: &[u8]) -> (r: Result<(), AdapterError>)
    ensures
        success ==> r is Ok,
        !success ==> (r matches Err(e) && e.message@ == command_failure_text(
            operation@,
            code,
            stdout@,
            stderr@,
        )),
{
    if success {
        return Ok(());
    }
    let digest = digest_output(code, stdout, stderr);
    let mut m = concat("jailgun ", operation);
    m.append(" failed with digest ");
    m.append(digest.as_str());
    Err(adapter_error(m))
}

/// The pause before starting a CLI command again: only a busy executable is
/// retried, at most four times, waiting 50 ms longer each time.
pub fn launch_retry_delay_ms(attempt: u64, busy: bool) -> (delay: Option<u64>)
    ensures
        delay == (if busy && attempt < 4 {
            Some((50 * (attempt + 1)) as u64)
        } else {
            None
        }),
{
    if busy && attempt < 4 {
        Some(50 * (attempt + 1))
    } else {
        None
    }
}

// ---------------------------------------------------------------- finished runs

/// The ingest endpoint's answer to a submitted run.
#[derive(Clone, Debug, PartialEq, Eq)]
pub struct JailgunAcceptedRun {
    pub run_id: String,
    pub status: String,
    pub summary_json: String,
    pub events_jsonl: String,
    pub run_url: String,
    pub summary_url: String,
}

/// Why a finished run is not a success, if it is not: it must have
/// succeeded, and a deploy must have produced receipts.
pub open spec fn run_settle_error(s: JailgunSummaryView, receipt_required: bool) -> Option<Seq<char>> {
    if s.status != "succeeded"@ {
        Some("jailgun run "@ + s.run_id + " finished with status "@ + s.status)
    } else if receipt_required && s.receipt_paths.len() == 0 {
        Some("jailgun deploy summary missing receipt_paths"@)
    } else {
        None
    }
}

/// Why a finished run yields no evidence, if it yields none.
pub open spec fn finish_run_error(base: Seq<char>, summary_url: Seq<char>, s: JailgunSummaryView, receipt_required: bool) -> Option<Seq<char>> {
    match same_origin_endpoint_spec(base, summary_url) {
        Err(e) => Some(e),
        Ok(_) => run_settle_error(s, receipt_required),
    }
}

/// The evidence of a finished run, once its summary URL resolves under the
/// base URL and the run succeeded (with receipts, for a deploy).
pub fn finish_run(base_url: &str, accepted: &JailgunAcceptedRun, summary: &JailgunSummary, receipt_required: bool) -> (r: Result<Vec<Evidence>, AdapterError>)
    ensures
        match r {
            Ok(evidence) => {
                &&& finish_run_error(base_url@, accepted.summary_url@, summary@, receipt_required)
                    is None
                &&& evidence_views(evidence@) == summary_evidence_spec(
                    summary@,
                    same_origin_endpoint_spec(base_url@, accepted.summary_url@)->Ok_0,
                    file_uri_spec(accepted.events_jsonl@),
                )
            },
            Err(e) => finish_run_error(base_url@, accepted.summary_url@, summary@, receipt_required)
                == Some(e.message@),
        },
{
    let summary_uri = match same_origin_endpoint(base_url, accepted.summary_url.as_str()) {
        Ok(u) => u,
        Err(e) => {
            return Err(e);
        },
    };
    let events_uri = file_uri(accepted.events_jsonl.as_str());
    if !str_eq(summary.status.as_str(), "succeeded") {
        let mut m = concat("jailgun run ", summary.run_id.as_str());
        m.append(" finished with status ");
        m.append(summary.status.as_str());
        return Err(adapter_error(m));
    }
    if receipt_required && summary.receipt_paths.len() == 0 {
        return Err(adapter_error("jailgun deploy summary missing receipt_paths".to_owned()));
    }
    Ok(evidence_for_summary(summary, summary_uri.as_str(), events_uri.as_str()))
}

// ---------------------------------------------------------------- laws

/// A finished run yields evidence only when it succeeded, and a deploy only
/// when it produced receipts; its evidence then opens with the run, its
/// summary, its events and its prompt reference.
pub proof fn law_settled_run(base: Seq<char>, summary_url: Seq<char>, s: JailgunSummaryView, receipt_required: bool, summary_uri: Seq<char>, events_uri: Seq<char>)
    requires
        finish_run_error(base, summary_url, s, receipt_required) is None,
    ensures
        s.status == "succeeded"@,
        receipt_required ==> s.receipt_paths.len() > 0,
        summary_evidence_spec(s, summary_uri, events_uri).len() >= 4,
        summary_evidence_spec(s, summary_uri, events_uri)[0].kind == "jailgun.run"@,
        summary_evidence_spec(s, summary_uri, events_uri)[1].uri == summary_uri,
        summary_evidence_spec(s, summary_uri, events_uri)[2].uri == events_uri,
        summary_evidence_spec(s, summary_uri, events_uri)[3].uri == s.prompt_ref,
{
}

proof fn lemma_trim_end_idempotent(s: Seq<char>, c: char)
    ensures
        trim_end_char_text(trim_end_char_text(s, c), c) == trim_end_char_text(s, c),
{
    let t = trim_end_char_text(s, c);
    lemma_trailing_count_last(s, c);
    if t.len() > 0 {
        assert(t.last() != c);
    }
    assert(trailing_count_of(t, c) == 0);
    assert(t.subrange(0, t.len() as int) =~= t);
}

spec fn trailing_count_of(s: Seq<char>, c: char) -> int {
    crate::text::trailing_count(s, c)
}

proof fn lemma_trailing_count_last(s: Seq<char>, c: char)
    ensures
        0 <= crate::text::trailing_count(s, c) <= s.len(),
        trim_end_char_text(s, c).len() > 0 ==> trim_end_char_text(s, c).last() != c,
    decreases s.len(),
{
    if s.len() > 0 && s.last() == c {
        lemma_trailing_count_last(s.drop_last(), c);
        assert(trim_end_char_text(s, c) =~= trim_end_char_text(s.drop_last(), c));
    }
}

/// A response URL is only ever followed inside the configured origin: the
/// endpoint it resolves to starts with the trimmed base URL and a slash.
pub proof fn law_same_origin_stays_local(base: Seq<char>, path: Seq<char>)
    requires
        same_origin_endpoint_spec(base, path) is Ok,
    ensures
        base_url_error(base) is None,
        has_prefix(same_origin_endpoint_spec(base, path)->Ok_0, base_url_text(base) + "/"@),
{
    let b = base_url_text(base);
    lemma_trim_end_idempotent(trim_text(base), '/');
    let u = same_origin_endpoint_spec(base, path)->Ok_0;
    let tail = trim_start_char_text(trim_text(path), '/');
    assert(u == trim_end_char_text(b, '/') + "/"@ + tail);
    assert(trim_end_char_text(b, '/') == b);
    assert(u.subrange(0, (b + "/"@).len() as int) =~= b + "/"@);
}

/// A summary that passes its checks carries no prompt text and speaks wire
/// version 1.
pub proof fn law_checked_summary_has_no_prompt_text(v: Json, via_mcp: bool)
    requires
        summary_value_error(v, via_mcp) is None,
    ensures
        !has_prompt_key(v),
        wire_version_error(v, "Jailgun summary"@) is None,
{
}

} // verus!
