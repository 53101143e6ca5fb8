//! Operator checks: the environment doctor that keeps the control plane off
//! Jeryu's ports, the Telegram setup doctor, and small runtime rules of the
//! daemon and the CLI.

use vstd::prelude::*;

use crate::clock::{uuid_text, uuid_to_text};
use crate::json::{json_get, json_get_str, set_member, Json};
use crate::telegram::username_or_none;
use crate::text::{
    all_digits, concat, contains, contains_text, decimal, decimal_text, digits_value, parse_digits,
    parse_i64, parse_i64_spec, signed_decimal, signed_decimal_text, split_on, split_text, str_eq,
    texts, trim, trim_text,
};

verus! {

/// The ports Jeryu owns, which the control plane must never bind.
pub open spec fn protected_ports() -> Seq<u16> {
    seq![2224u16, 8787u16, 8799u16, 8929u16, 18787u16, 18788u16, 19800u16]
}

/// One of Jeryu's ports.
pub open spec fn is_protected(port: u16) -> bool {
    protected_ports().contains(port)
}

/// Whether a port is one of Jeryu's.
pub fn is_jeryu_protected_port(port: u16) -> (r: bool)
    ensures
        r == is_protected(port),
{
    let r = port == 2224 || port == 8787 || port == 8799 || port == 8929 || port == 18787 || port
        == 18788 || port == 19800;
    proof {
        let ps = protected_ports();
        if r {
            if port == 2224 { assert(ps[0] == port); }
            if port == 8787 { assert(ps[1] == port); }
            if port == 8799 { assert(ps[2] == port); }
            if port == 8929 { assert(ps[3] == port); }
            if port == 18787 { assert(ps[4] == port); }
            if port == 18788 { assert(ps[5] == port); }
            if port == 19800 { assert(ps[6] == port); }
        } else {
            assert forall|i: int| 0 <= i < ps.len() implies ps[i] != port by {}
        }
    }
    r
}

/// The refusal of the daemon's bind port, if it is one of Jeryu's.
pub fn api_bind_port_error(port: u16) -> (e: Option<String>)
    ensures
        match e {
            Some(m) => is_protected(port) && m@
                == "JMCP_API_BIND must not use Jeryu protected port "@ + decimal_text(port as nat),
            None => !is_protected(port),
        },
{
    if is_jeryu_protected_port(port) {
        let d = decimal(port as u64);
        Some(concat("JMCP_API_BIND must not use Jeryu protected port ", d.as_str()))
    } else {
        None
    }
}

/// A TCP port as the doctor reads it: ASCII digits only, at most 65535.
pub open spec fn parse_port_spec(value: Seq<char>) -> Result<u16, Seq<char>> {
    if value.len() == 0 || !all_digits(value) {
        Err("is not numeric: "@ + value)
    } else if digits_value(value) > 65535 {
        Err("is outside the valid TCP port range: "@ + value)
    } else {
        Ok(digits_value(value) as u16)
    }
}

/// Reads a TCP port.
pub fn parse_port(value: &str) -> (r: Result<u16, String>)
    ensures
        match r {
            Ok(p) => parse_port_spec(value@) == Ok::<u16, Seq<char>>(p),
            Err(m) => parse_port_spec(value@) == Err::<u16, Seq<char>>(m@),
        },
{
    let n = value.unicode_len();
    let mut numeric = n > 0;
    let mut i: usize = 0;
    while i < n
        invariant
            n == value@.len(),
            i <= n,
            numeric == (n > 0 && forall|k: int| 0 <= k < i ==> '0' <= #[trigger] value@[k] <= '9'),
        decreases n - i,
    {
        let c = value.get_char(i);
        if !('0' <= c && c <= '9') {
            numeric = false;
        }
        i = i + 1;
    }
    if !numeric {
        return Err(concat("is not numeric: ", value));
    }
    match parse_digits(value, 65535) {
        Some(v) => Ok(v as u16),
        None => Err(concat("is outside the valid TCP port range: ", value)),
    }
}

/// The last position of `c` before `end`.
pub open spec fn last_char_before(s: Seq<char>, c: char, end: int) -> Option<int>
    decreases end,
{
    if end <= 0 {
        None
    } else if s[end - 1] == c {
        Some(end - 1)
    } else {
        last_char_before(s, c, end - 1)
    }
}

/// The port of a `host:port` bind address: what follows its last `:`.
pub open spec fn port_from_bind_spec(bind: Seq<char>) -> Option<u16> {
    match last_char_before(bind, ':', bind.len() as int) {
        Some(k) => match parse_port_spec(bind.subrange(k + 1, bind.len() as int)) {
            Ok(p) => Some(p),
            Err(_) => None,
        },
        None => None,
    }
}

/// Reads the port of a `host:port` bind address.
pub fn port_from_bind(bind: &str) -> (p: Option<u16>)
    ensures
        p == port_from_bind_spec(bind@),
{
    let n = bind.unicode_len();
    let mut end = n;
    while end > 0
        invariant
            n == bind@.len(),
            end <= n,
            last_char_before(bind@, ':', n as int) == last_char_before(bind@, ':', end as int),
        decreases end,
    {
        if bind.get_char(end - 1) == ':' {
            let tail = bind.substring_char(end, n);
            return match parse_port(tail) {
                Ok(p) => Some(p),
                Err(_) => None,
            };
        }
        end = end - 1;
    }
    None
}

/// The first piece at or after `i` containing `needle`.
pub open spec fn first_containing(pieces: Seq<Seq<char>>, needle: Seq<char>, i: nat) -> Option<Seq<char>>
    decreases pieces.len() - i,
{
    if i >= pieces.len() {
        None
    } else if contains_text(pieces[i as int], needle) {
        Some(pieces[i as int])
    } else {
        first_containing(pieces, needle, i + 1)
    }
}

/// What listens on a port, by the first line of the listener table that
/// mentions `:{port} `, trimmed; `None` without a table.
pub open spec fn owner_spec(table: Option<Seq<char>>, port: u16) -> Option<Seq<char>> {
    match table {
        None => None,
        Some(t) => match first_containing(
            split_text(t, '\n'),
            ":"@ + decimal_text(port as nat) + " "@,
            0,
        ) {
            Some(line) => Some(trim_text(line)),
            None => None,
        },
    }
}

/// The text of an optional string slice.
pub open spec fn opt_str_text(o: Option<&str>) -> Option<Seq<char>> {
    match o {
        Some(s) => Some(s@),
        None => None,
    }
}

/// The text of an optional string.
pub open spec fn opt_string_text(o: Option<String>) -> Option<Seq<char>> {
    match o {
        Some(s) => Some(s@),
        None => None,
    }
}

/// What listens on `port`, read from the listener table (`ss -ltnp`).
pub fn listener_owner(table: Option<&str>, port: u16) -> (owner: Option<String>)
    ensures
        opt_string_text(owner) == owner_spec(opt_str_text(table), port),
{
    match table {
        None => None,
        Some(t) => {
            let d = decimal(port as u64);
            let mut needle = concat(":", d.as_str());
            needle.append(" ");
            let lines = split_on(t, '\n');
            let ghost pieces = split_text(t@, '\n');
            let mut i: usize = 0;
            while i < lines.len()
                invariant
                    i <= lines@.len(),
                    texts(lines@) == pieces,
                    pieces == split_text(t@, '\n'),
                    opt_str_text(table) == Some(t@),
                    needle@ == ":"@ + decimal_text(port as nat) + " "@,
                    first_containing(pieces, needle@, 0) == first_containing(
                        pieces,
                        needle@,
                        i as nat,
                    ),
                decreases lines@.len() - i,
            {
                assert(pieces[i as int] == lines@[i as int]@);
                if contains(lines[i].as_str(), needle.as_str()) {
                    assert(first_containing(pieces, needle@, i as nat) == Some(pieces[i as int]));
                    return Some(trim(lines[i].as_str()));
                }
                i = i + 1;
            }
            None
        },
    }
}

/// A line of a doctor's report, to standard error or standard output.
#[derive(Clone, Debug, PartialEq, Eq)]
pub struct ReportLine {
    pub to_stderr: bool,
    pub text: String,
}

/// A doctor's report: its lines in order, and whether all is well.
#[derive(Clone, Debug, PartialEq, Eq)]
pub struct DoctorReport {
    pub lines: Vec<ReportLine>,
    pub ok: bool,
}

/// The lines of a report as plain values.
pub open spec fn report_lines(lines: Seq<ReportLine>) -> Seq<(bool, Seq<char>)> {
    lines.map_values(|l: ReportLine| (l.to_stderr, l.text@))
}

/// The cockpit port the doctor reports: the parsed one, or 0.
pub open spec fn cockpit_port_of(value: Seq<char>) -> u16 {
    match parse_port_spec(value) {
        Ok(p) => p,
        Err(_) => 0,
    }
}

/// The lines about the listeners of Jeryu's ports, in order.
pub open spec fn occupied_lines(ports: Seq<u16>, table: Option<Seq<char>>) -> Seq<(bool, Seq<char>)>
    decreases ports.len(),
{
    if ports.len() == 0 {
        seq![]
    } else {
        occupied_lines(ports.drop_last(), table) + match owner_spec(table, ports.last()) {
            Some(o) => seq![
                (
                    false,
                    "Jeryu protected port "@ + decimal_text(ports.last() as nat) + " is occupied by: "@
                        + o,
                ),
            ],
            None => seq![],
        }
    }
}

/// Whether the environment is unsafe: an unreadable cockpit port or bind
/// address, or either on one of Jeryu's ports.
pub open spec fn doctor_failed(api_bind: Seq<char>, cockpit_value: Seq<char>) -> bool {
    let port = cockpit_port_of(cockpit_value);
    ||| parse_port_spec(cockpit_value) is Err
    ||| port_from_bind_spec(api_bind) is None
    ||| (port_from_bind_spec(api_bind) matches Some(p) && is_protected(p))
    ||| (port != 0 && is_protected(port))
}

/// The report's line on an unreadable cockpit port.
pub open spec fn cockpit_parse_lines(cockpit_value: Seq<char>) -> Seq<(bool, Seq<char>)> {
    match parse_port_spec(cockpit_value) {
        Err(m) => seq![(true, "error: JMCP_COCKPIT_PORT "@ + m)],
        Ok(_) => seq![],
    }
}

/// The report's settings lines.
pub open spec fn settings_lines(
    server: Seq<char>,
    api_bind: Seq<char>,
    cockpit_host: Seq<char>,
    cockpit_value: Seq<char>,
) -> Seq<(bool, Seq<char>)> {
    seq![
        (false, "JMCP_API_BIND="@ + api_bind),
        (false, "JMCP_API_URL="@ + server),
        (false, "JMCP_COCKPIT_HOST="@ + cockpit_host),
        (false, "JMCP_COCKPIT_PORT="@ + decimal_text(cockpit_port_of(cockpit_value) as nat)),
    ]
}

/// The report's lines on the bind address.
pub open spec fn api_bind_lines(api_bind: Seq<char>, table: Option<Seq<char>>) -> Seq<(bool, Seq<char>)> {
    match port_from_bind_spec(api_bind) {
        Some(p) => (if is_protected(p) {
            seq![(true, "error: JMCP_API_BIND uses Jeryu protected port "@ + decimal_text(p as nat))]
        } else {
            seq![]
        }) + match owner_spec(table, p) {
            Some(o) => seq![
                (false, "api bind conflict on port "@ + decimal_text(p as nat) + ": "@ + o),
            ],
            None => seq![],
        },
        None => seq![(true, "error: could not parse JMCP_API_BIND="@ + api_bind)],
    }
}

/// The report's lines on the cockpit port.
pub open spec fn cockpit_lines(port: u16, table: Option<Seq<char>>) -> Seq<(bool, Seq<char>)> {
    (if port != 0 && is_protected(port) {
        seq![(true, "error: JMCP_COCKPIT_PORT uses Jeryu protected port "@ + decimal_text(port as nat))]
    } else {
        seq![]
    }) + (if port != 0 {
        match owner_spec(table, port) {
            Some(o) => seq![
                (false, "cockpit bind conflict on port "@ + decimal_text(port as nat) + ": "@ + o),
            ],
            None => seq![],
        }
    } else {
        seq![]
    })
}

/// The report's warning when Jeryu is not seen on either of its HTTP ports.
pub open spec fn detection_lines(table: Option<Seq<char>>) -> Seq<(bool, Seq<char>)> {
    if owner_spec(table, 8799) is None && owner_spec(table, 8787) is None {
        seq![(true, "warning: Jeryu was not detected on 127.0.0.1:8799 or 127.0.0.1:8787"@)]
    } else {
        seq![]
    }
}

/// The environment doctor's report, line by line.
pub open spec fn doctor_lines(
    server: Seq<char>,
    api_bind: Seq<char>,
    cockpit_host: Seq<char>,
    cockpit_value: Seq<char>,
    table: Option<Seq<char>>,
) -> Seq<(bool, Seq<char>)> {
    cockpit_parse_lines(cockpit_value) + settings_lines(server, api_bind, cockpit_host, cockpit_value)
        + api_bind_lines(api_bind, table) + cockpit_lines(cockpit_port_of(cockpit_value), table)
        + occupied_lines(protected_ports(), table) + detection_lines(table) + (if doctor_failed(
        api_bind,
        cockpit_value,
    ) {
        seq![]
    } else {
        seq![(false, "JMCP environment is safe for Jeryu coexistence"@)]
    })
}

fn push_line(lines: &mut Vec<ReportLine>, to_stderr: bool, text: String)
    ensures
        report_lines(final(lines)@) == report_lines(old(lines)@).push((to_stderr, text@)),
{
    let ghost before = lines@;
    let line = ReportLine { to_stderr, text };
    lines.push(line);
    assert(report_lines(lines@) =~= report_lines(before).push((to_stderr, line.text@)));
}

/// The daemon's default bind address.
pub const DEFAULT_API_BIND: &'static str = "127.0.0.1:18877";

/// The cockpit's default host.
pub const DEFAULT_COCKPIT_HOST: &'static str = "127.0.0.1";

/// The cockpit's default port, as the setting's text.
pub const DEFAULT_COCKPIT_PORT: &'static str = "15873";

fn add_cockpit_parse(lines: &mut Vec<ReportLine>, cockpit_port_value: &str) -> (port: u16)
    ensures
        port == cockpit_port_of(cockpit_port_value@),
        report_lines(final(lines)@) == report_lines(old(lines)@) + cockpit_parse_lines(
            cockpit_port_value@,
        ),
{
    match parse_port(cockpit_port_value) {
        Ok(p) => {
            assert(report_lines(lines@) =~= report_lines(lines@) + cockpit_parse_lines(
                cockpit_port_value@,
            ));
            p
        },
        Err(m) => {
            push_line(lines, true, concat("error: JMCP_COCKPIT_PORT ", m.as_str()));
            0
        },
    }
}

fn add_api_bind(lines: &mut Vec<ReportLine>, api_bind: &str, table: Option<&str>) -> (bad: bool)
    ensures
        bad == (port_from_bind_spec(api_bind@) is None || (port_from_bind_spec(api_bind@) matches Some(
            p,
        ) && is_protected(p))),
        report_lines(final(lines)@) == report_lines(old(lines)@) + api_bind_lines(
            api_bind@,
            opt_str_text(table),
        ),
{
    let ghost start = report_lines(lines@);
    match port_from_bind(api_bind) {
        Some(port) => {
            let pd = decimal(port as u64);
            let bad = is_jeryu_protected_port(port);
            if bad {
                push_line(lines, true, concat("error: JMCP_API_BIND uses Jeryu protected port ", pd.as_str()));
            }
            let ghost mid = report_lines(lines@);
            match listener_owner(table, port) {
                Some(owner) => {
                    let mut t = concat("api bind conflict on port ", pd.as_str());
                    t.append(": ");
                    t.append(owner.as_str());
                    push_line(lines, false, t);
                },
                None => {},
            }
            assert(report_lines(lines@) =~= start + api_bind_lines(api_bind@, opt_str_text(table)));
            bad
        },
        None => {
            push_line(lines, true, concat("error: could not parse JMCP_API_BIND=", api_bind));
            assert(report_lines(lines@) =~= start + api_bind_lines(api_bind@, opt_str_text(table)));
            true
        },
    }
}

fn add_cockpit(lines: &mut Vec<ReportLine>, port: u16, table: Option<&str>)
    ensures
        report_lines(final(lines)@) == report_lines(old(lines)@) + cockpit_lines(
            port,
            opt_str_text(table),
        ),
{
    let ghost start = report_lines(lines@);
    let cp = decimal(port as u64);
    if port != 0 && is_jeryu_protected_port(port) {
        push_line(lines, true, concat("error: JMCP_COCKPIT_PORT uses Jeryu protected port ", cp.as_str()));
    }
    if port != 0 {
        match listener_owner(table, port) {
            Some(owner) => {
                let mut t = concat("cockpit bind conflict on port ", cp.as_str());
                t.append(": ");
                t.append(owner.as_str());
                push_line(lines, false, t);
            },
            None => {},
        }
    }
    assert(report_lines(lines@) =~= start + cockpit_lines(port, opt_str_text(table)));
}

fn add_occupied(lines: &mut Vec<ReportLine>, table: Option<&str>)
    ensures
        report_lines(final(lines)@) == report_lines(old(lines)@) + occupied_lines(
            protected_ports(),
            opt_str_text(table),
        ),
{
    let ghost start = report_lines(lines@);
    let ghost tb = opt_str_text(table);
    let ports: [u16; 7] = [2224, 8787, 8799, 8929, 18787, 18788, 19800];
    assert(ports@ =~= protected_ports());
    assert(ports@.take(0) =~= Seq::<u16>::empty());
    assert(report_lines(lines@) =~= start + occupied_lines(ports@.take(0), tb));
    let mut k: usize = 0;
    while k < 7
        invariant
            k <= 7,
            ports@ == protected_ports(),
            tb == opt_str_text(table),
            report_lines(lines@) == start + occupied_lines(ports@.take(k as int), tb),
        decreases 7 - k,
    {
        let port = ports[k];
        proof {
            assert(ports@.take(k + 1).drop_last() =~= ports@.take(k as int));
            assert(ports@.take(k + 1).last() == port);
        }
        let ghost before = report_lines(lines@);
        match listener_owner(table, port) {
            Some(owner) => {
                let pd = decimal(port as u64);
                let mut t = concat("Jeryu protected port ", pd.as_str());
                t.append(" is occupied by: ");
                t.append(owner.as_str());
                push_line(lines, false, t);
            },
            None => {},
        }
        assert(report_lines(lines@) =~= start + occupied_lines(ports@.take(k + 1), tb));
        k = k + 1;
    }
    assert(ports@.take(7) =~= ports@);
}

/// Checks that the control plane's bind addresses keep off Jeryu's ports,
/// and reports what listens where. `table` is the listener table, `None`
/// when it could not be read.
pub fn doctor_env(server: &str, api_bind: &str, cockpit_host: &str, cockpit_port_value: &str, table: Option<&str>) -> (report: DoctorReport)
    ensures
        report_lines(report.lines@) == doctor_lines(
            server@,
            api_bind@,
            cockpit_host@,
            cockpit_port_value@,
            opt_str_text(table),
        ),
        report.ok == !doctor_failed(api_bind@, cockpit_port_value@),
{
    let ghost tb = opt_str_text(table);
    let mut lines: Vec<ReportLine> = Vec::new();
    assert(report_lines(lines@) =~= Seq::<(bool, Seq<char>)>::empty());
    let cockpit_port = add_cockpit_parse(&mut lines, cockpit_port_value);
    let cockpit_bad = match parse_port(cockpit_port_value) {
        Ok(_) => false,
        Err(_) => true,
    };
    push_line(&mut lines, false, concat("JMCP_API_BIND=", api_bind));
    push_line(&mut lines, false, concat("JMCP_API_URL=", server));
    push_line(&mut lines, false, concat("JMCP_COCKPIT_HOST=", cockpit_host));
    let cp = decimal(cockpit_port as u64);
    push_line(&mut lines, false, concat("JMCP_COCKPIT_PORT=", cp.as_str()));
    let ghost after_settings = report_lines(lines@);
    assert(after_settings =~= cockpit_parse_lines(cockpit_port_value@) + settings_lines(
        server@,
        api_bind@,
        cockpit_host@,
        cockpit_port_value@,
    ));
    let bind_bad = add_api_bind(&mut lines, api_bind, table);
    add_cockpit(&mut lines, cockpit_port, table);
    add_occupied(&mut lines, table);
    let ghost before_detect = report_lines(lines@);
    if listener_owner(table, 8799).is_none() && listener_owner(table, 8787).is_none() {
        push_line(&mut lines, true, "warning: Jeryu was not detected on 127.0.0.1:8799 or 127.0.0.1:8787".to_owned());
    }
    assert(report_lines(lines@) =~= before_detect + detection_lines(tb));
    let failed = cockpit_bad || bind_bad || (cockpit_port != 0 && is_jeryu_protected_port(cockpit_port));
    assert(failed == doctor_failed(api_bind@, cockpit_port_value@));
    let ghost before_final = report_lines(lines@);
    if !failed {
        push_line(&mut lines, false, "JMCP environment is safe for Jeryu coexistence".to_owned());
    }
    assert(report_lines(lines@) =~= doctor_lines(
        server@,
        api_bind@,
        cockpit_host@,
        cockpit_port_value@,
        tb,
    ));
    DoctorReport { lines, ok: !failed }
}

/// The refusal a doctor reports when the environment is unsafe.
pub const ENVIRONMENT_UNSAFE_TEXT: &'static str = "JMCP environment is not safe";

/// How a voice note's duration is shown: `{seconds}s`, or `not-measured`.
pub fn format_voice_duration(duration: Option<i64>) -> (text: String)
    ensures
        text@ == match duration {
            Some(s) => signed_decimal_text(s as int) + "s"@,
            None => "not-measured"@,
        },
{
    match duration {
        Some(s) => {
            let d = signed_decimal(s);
            concat(d.as_str(), "s")
        },
        None => "not-measured".to_owned(),
    }
}

/// The adapter that owns each microtask work-order kind.
pub open spec fn holder_spec(kind: Seq<char>) -> Option<Seq<char>> {
    if kind == "jankurai.proof"@ || kind == "jankurai.diff-audit"@ || kind == "jankurai.doctor"@ {
        Some("jankurai"@)
    } else if kind == "reason"@ || kind == "jekko.run"@ || kind == "jekko.task"@ || kind == "run"@
        || kind == "worker"@ {
        Some("jekko"@)
    } else {
        None
    }
}

/// Routes microtask work orders to the adapters that run them.
#[derive(Clone, Debug, PartialEq, Eq)]
pub struct RealMicrotaskExecutor {
    pub jekko: crate::jekko::JekkoAdapter,
    pub jankurai: crate::jankurai::JankuraiAdapter,
}

impl RealMicrotaskExecutor {
    /// The executor over the configured Jekko adapter (`model_setting` is the
    /// model setting's value, if set).
    pub fn from_env(model_setting: Option<String>) -> (e: RealMicrotaskExecutor)
        ensures
            e.jekko.model@ == crate::jekko::setting_or_spec(
                crate::ecosystem::opt_text(model_setting),
                crate::jekko::DEFAULT_MODEL@,
            ),
    {
        RealMicrotaskExecutor {
            jekko: crate::jekko::JekkoAdapter::configured(model_setting),
            jankurai: crate::jankurai::JankuraiAdapter,
        }
    }

    /// The holder of a microtask kind; kinds no adapter owns stay queued.
    pub fn holder_for(&self, kind: &str) -> (h: Option<&'static str>)
        ensures
            match h {
                Some(s) => holder_spec(kind@) == Some(s@),
                None => holder_spec(kind@) is None,
            },
    {
        if str_eq(kind, "jankurai.proof") || str_eq(kind, "jankurai.diff-audit") || str_eq(
            kind,
            "jankurai.doctor",
        ) {
            Some("jankurai")
        } else if str_eq(kind, "reason") || str_eq(kind, "jekko.run") || str_eq(kind, "jekko.task")
            || str_eq(kind, "run") || str_eq(kind, "worker") {
            Some("jekko")
        } else {
            None
        }
    }
}

/// The kind of the microtask the dispatcher generates for each repository.
pub const REPO_AUDIT_MICROTASK: &'static str = "jankurai.repo-refresh-audit";

// ---------------------------------------------------------------- Telegram setup

/// How reading the stored update offset went.
#[derive(Clone, Debug, PartialEq, Eq)]
pub enum OffsetFileRead {
    /// The file's contents.
    Contents(String),
    /// There is no such file.
    Absent,
    /// The file could not be read, for this reason.
    Unreadable(String),
}

/// What the Telegram doctor observed.
#[derive(Debug, PartialEq, Eq)]
pub struct TelegramDoctorInput {
    pub env_file: String,
    pub api_base: String,
    pub allowed_user_ids: usize,
    pub allowed_chat_ids: usize,
    /// The configuration's redacted `Debug` text.
    pub config_debug: String,
    pub has_allowlist: bool,
    /// The bot's id and user name, or why `getMe` failed.
    pub get_me: Result<(i64, Option<String>), String>,
    pub offset_file: String,
    pub offset: OffsetFileRead,
}

/// Whether the Telegram setup is not ready.
pub open spec fn telegram_doctor_failed(input: TelegramDoctorInput) -> bool {
    ||| !input.has_allowlist
    ||| input.get_me is Err
    ||| match input.offset {
        OffsetFileRead::Contents(c) => parse_i64_spec(trim_text(c@)) is None,
        OffsetFileRead::Absent => false,
        OffsetFileRead::Unreadable(_) => true,
    }
}

/// The Telegram doctor's report, line by line.
pub open spec fn telegram_doctor_lines(input: TelegramDoctorInput) -> Seq<(bool, Seq<char>)> {
    let head = seq![
        (false, "JMCP_TELEGRAM_ENV="@ + input.env_file@),
        (false, "telegram_token=loaded (redacted)"@),
        (false, "telegram_api_base="@ + input.api_base@),
        (
            false,
            "telegram_allowlist=user_ids:"@ + decimal_text(input.allowed_user_ids as nat)
                + " chat_ids:"@ + decimal_text(input.allowed_chat_ids as nat),
        ),
        (false, "telegram_config="@ + input.config_debug@),
    ];
    let allow = if input.has_allowlist {
        seq![]
    } else {
        seq![(true, "error: telegram allowlist missing"@)]
    };
    let me = match input.get_me {
        Ok((id, username)) => seq![
            (
                false,
                "telegram_getMe=ok id:"@ + signed_decimal_text(id as int) + " username:"@
                    + match username {
                    Some(u) => u@,
                    None => "(none)"@,
                },
            ),
        ],
        Err(e) => seq![(true, "error: telegram getMe failed: "@ + e@)],
    };
    let offset = match input.offset {
        OffsetFileRead::Contents(c) => match parse_i64_spec(trim_text(c@)) {
            Some(o) => seq![
                (
                    false,
                    "telegram_offset_file="@ + input.offset_file@ + " offset="@ + signed_decimal_text(
                        o as int,
                    ),
                ),
            ],
            None => seq![
                (true, "error: telegram offset file is not a valid integer: "@ + input.offset_file@),
            ],
        },
        OffsetFileRead::Absent => seq![
            (false, "telegram_offset_file="@ + input.offset_file@ + " status=absent"@),
        ],
        OffsetFileRead::Unreadable(e) => seq![
            (
                true,
                "error: telegram offset file could not be read: "@ + input.offset_file@ + ": "@
                    + e@,
            ),
        ],
    };
    let last = if telegram_doctor_failed(input) {
        seq![]
    } else {
        seq![(false, "Telegram setup is ready"@)]
    };
    head + allow + me + offset + last
}

/// Reports whether the Telegram setup is ready: an allow-list, a bot that
/// answers `getMe`, and a readable update offset (or none yet).
pub fn telegram_doctor(input: &TelegramDoctorInput) -> (report: DoctorReport)
    ensures
        report_lines(report.lines@) == telegram_doctor_lines(*input),
        report.ok == !telegram_doctor_failed(*input),
{
    let mut lines: Vec<ReportLine> = Vec::new();
    let mut failed = false;
    push_line(&mut lines, false, concat("JMCP_TELEGRAM_ENV=", input.env_file.as_str()));
    push_line(&mut lines, false, "telegram_token=loaded (redacted)".to_owned());
    push_line(&mut lines, false, concat("telegram_api_base=", input.api_base.as_str()));
    let users = decimal(input.allowed_user_ids as u64);
    let chats = decimal(input.allowed_chat_ids as u64);
    let mut allow = concat("telegram_allowlist=user_ids:", users.as_str());
    allow.append(" chat_ids:");
    allow.append(chats.as_str());
    push_line(&mut lines, false, allow);
    push_line(&mut lines, false, concat("telegram_config=", input.config_debug.as_str()));
    let ghost after_head = report_lines(lines@);
    if !input.has_allowlist {
        push_line(&mut lines, true, "error: telegram allowlist missing".to_owned());
        failed = true;
    }
    let ghost after_allow = report_lines(lines@);
    match &input.get_me {
        Ok((id, username)) => {
            let idt = signed_decimal(*id);
            let mut t = concat("telegram_getMe=ok id:", idt.as_str());
            t.append(" username:");
            let name = match username {
                Some(u) => u.clone(),
                None => "(none)".to_owned(),
            };
            t.append(name.as_str());
            push_line(&mut lines, false, t);
        },
        Err(e) => {
            push_line(&mut lines, true, concat("error: telegram getMe failed: ", e.as_str()));
            failed = true;
        },
    }
    let ghost after_me = report_lines(lines@);
    match &input.offset {
        OffsetFileRead::Contents(c) => {
            let trimmed = trim(c.as_str());
            match parse_i64(trimmed.as_str()) {
                Some(o) => {
                    let mut t = concat("telegram_offset_file=", input.offset_file.as_str());
                    t.append(" offset=");
                    let ot = signed_decimal(o);
                    t.append(ot.as_str());
                    push_line(&mut lines, false, t);
                },
                None => {
                    push_line(&mut lines, true, concat("error: telegram offset file is not a valid integer: ", input.offset_file.as_str()));
                    failed = true;
                },
            }
        },
        OffsetFileRead::Absent => {
            let mut t = concat("telegram_offset_file=", input.offset_file.as_str());
            t.append(" status=absent");
            push_line(&mut lines, false, t);
        },
        OffsetFileRead::Unreadable(e) => {
            let mut t = concat("error: telegram offset file could not be read: ", input.offset_file.as_str());
            t.append(": ");
            t.append(e.as_str());
            push_line(&mut lines, true, t);
            failed = true;
        },
    }
    assert(failed == telegram_doctor_failed(*input));
    if !failed {
        push_line(&mut lines, false, "Telegram setup is ready".to_owned());
    }
    assert(report_lines(lines@) =~= telegram_doctor_lines(*input));
    DoctorReport { lines, ok: !failed }
}

/// The refusal the Telegram doctor reports when the setup is not ready.
pub const TELEGRAM_NOT_READY_TEXT: &'static str = "Telegram setup is not ready";

/// The stored update offset: none for an empty file, else its integer.
pub open spec fn stored_offset_spec(contents: Seq<char>) -> Option<Option<i64>> {
    let t = trim_text(contents);
    if t.len() == 0 {
        Some(None)
    } else {
        match parse_i64_spec(t) {
            Some(o) => Some(Some(o)),
            None => None,
        }
    }
}

/// Reads a stored update offset: `Some(None)` for an empty file, `None` when
/// the contents are no integer.
pub fn stored_offset(contents: &str) -> (r: Option<Option<i64>>)
    ensures
        r == stored_offset_spec(contents@),
{
    let t = trim(contents);
    if t.unicode_len() == 0 {
        Some(None)
    } else {
        match parse_i64(t.as_str()) {
            Some(o) => Some(Some(o)),
            None => None,
        }
    }
}

// ---------------------------------------------------------------- small runtime rules

/// `PathBuf::join` of a relative component: a separator is put between
/// unless the base is empty or already ends with one.
pub open spec fn path_join_spec(base: Seq<char>, component: Seq<char>) -> Seq<char> {
    if base.len() == 0 {
        component
    } else if base.last() == '/' {
        base + component
    } else {
        base + "/"@ + component
    }
}

/// Joins a relative component onto a path.
pub fn path_join(base: &str, component: &str) -> (path: String)
    ensures
        path@ == path_join_spec(base@, component@),
{
    let n = base.unicode_len();
    if n == 0 {
        component.to_owned()
    } else if base.get_char(n - 1) == '/' {
        concat(base, component)
    } else {
        let mut p = concat(base, "/");
        p.append(component);
        p
    }
}

/// The local signing key's default place under the home directory:
/// `.local/share/jmcp/keys/local.key`; an error when no home is set.
pub open spec fn default_key_path_spec(home: Seq<char>) -> Seq<char> {
    path_join_spec(
        path_join_spec(
            path_join_spec(path_join_spec(path_join_spec(home, ".local"@), "share"@), "jmcp"@),
            "keys"@,
        ),
        "local.key"@,
    )
}

/// The local signing key's default path, given the home directory setting.
pub fn default_key_path(home: Option<&str>) -> (path: Result<String, String>)
    ensures
        match path {
            Ok(p) => home is Some && p@ == default_key_path_spec(home.unwrap()@),
            Err(m) => home is None && m@ == "HOME is not set"@,
        },
{
    match home {
        None => Err("HOME is not set".to_owned()),
        Some(h) => {
            let a = path_join(h, ".local");
            let b = path_join(a.as_str(), "share");
            let c = path_join(b.as_str(), "jmcp");
            let d = path_join(c.as_str(), "keys");
            Ok(path_join(d.as_str(), "local.key"))
        },
    }
}

/// The event cursor after a poll: the id of the last event seen, else
/// unchanged.
pub fn events_cursor(after: i64, last_id: Option<i64>) -> (next: i64)
    ensures
        next == match last_id {
            Some(id) => id,
            None => after,
        },
{
    match last_id {
        Some(id) => id,
        None => after,
    }
}

/// A dispatch sweep is reported when it touched any microtask.
pub fn sweep_reported(completed: usize, failed: usize, skipped: usize) -> (r: bool)
    ensures
        r == (completed + failed + skipped > 0),
{
    completed > 0 || failed > 0 || skipped > 0
}

/// How many characters a text has.
pub fn char_count(text: &str) -> (n: usize)
    ensures
        n == text@.len(),
{
    text.unicode_len()
}

/// A structured runtime event: its id, name, level, the emitting component,
/// when it happened (as its serialized timestamp text) and its fields.
pub fn structured_event_record(level: &str, event: &str, fields: Json, event_id: u128, timestamp: &str) -> (record: Json)
    ensures
        json_get_str(record, "eventId"@) == Some(uuid_text(event_id)),
        json_get_str(record, "event"@) == Some(event@),
        json_get_str(record, "level"@) == Some(level@),
        json_get_str(record, "component"@) == Some("jmcpd"@),
        json_get_str(record, "timestamp"@) == Some(timestamp@),
        json_get(record, "fields"@) == Some(fields),
{
    let id = uuid_to_text(event_id);
    let mut entries: Vec<(String, Json)> = Vec::new();
    set_member(&mut entries, "eventId".to_owned(), Json::String(id));
    set_member(&mut entries, "event".to_owned(), Json::String(event.to_owned()));
    set_member(&mut entries, "level".to_owned(), Json::String(level.to_owned()));
    set_member(&mut entries, "component".to_owned(), Json::String("jmcpd".to_owned()));
    set_member(&mut entries, "timestamp".to_owned(), Json::String(timestamp.to_owned()));
    set_member(&mut entries, "fields".to_owned(), fields);
    proof {
        reveal_strlit("eventId");
        reveal_strlit("event");
        reveal_strlit("level");
        reveal_strlit("component");
        reveal_strlit("timestamp");
        reveal_strlit("fields");
        assert("eventId"@.len() == 7 && "event"@.len() == 5 && "level"@.len() == 5);
        assert("component"@.len() == 9 && "timestamp"@.len() == 9 && "fields"@.len() == 6);
        assert("event"@[0] != "level"@[0]);
        assert("component"@[0] != "timestamp"@[0]);
    }
    Json::Object(entries)
}

// ---------------------------------------------------------------- laws

/// A port's decimal text reads back as that port.
pub proof fn law_port_round_trip(p: u16)
    ensures
        parse_port_spec(decimal_text(p as nat)) == Ok::<u16, Seq<char>>(p),
{
    crate::text::lemma_decimal_digits(p as nat);
}

/// An update offset written to the offset file reads back unchanged.
pub proof fn law_stored_offset_round_trip(offset: i64)
    ensures
        stored_offset_spec(signed_decimal_text(offset as int)) == Some(Some(offset)),
{
    crate::text::law_signed_decimal_round_trip(offset);
    if offset < 0 {
        crate::text::lemma_decimal_digits((-(offset as int)) as nat);
    } else {
        crate::text::lemma_decimal_digits(offset as nat);
    }
}

/// When the doctor finds the environment safe, the bind address has a port
/// that is not one of Jeryu's, and so has the cockpit unless it is unset.
pub proof fn law_safe_environment_avoids_jeryu_ports(api_bind: Seq<char>, cockpit_value: Seq<char>)
    requires
        !doctor_failed(api_bind, cockpit_value),
    ensures
        port_from_bind_spec(api_bind) matches Some(p) && !is_protected(p),
        parse_port_spec(cockpit_value) is Ok,
        cockpit_port_of(cockpit_value) == 0 || !is_protected(cockpit_port_of(cockpit_value)),
{
}

} // verus!