//! `config init` and `config test`: how answers to the setup questions are
//! read, and how a connectivity test is reported.
use vstd::prelude::*;

use crate::api::http::{parse_url, url_parses};
use crate::api::models::arr::SystemStatus;
use crate::api::models::plex::Identity;
use crate::error::{message_spec, CliarrError, Result};
use crate::text::{
    chars_eq_ignore_ascii_case, chars_of, eq_ignore_ascii_case, push_str, starts_with, string_of,
    trim_chars, trim_ws,
};

verus! {

/// `Configure X? [Y/n]` defaults to yes: an empty answer, `y` or `yes` (any
/// ASCII case).
pub open spec fn wants_service(answer: Seq<char>) -> bool {
    answer.len() == 0 || eq_ignore_ascii_case(answer, "y"@) || eq_ignore_ascii_case(
        answer,
        "yes"@,
    )
}

pub fn service_answer(answer: &str) -> (r: bool)
    ensures
        r == wants_service(answer@),
{
    let a = chars_of(answer);
    a.len() == 0 || chars_eq_ignore_ascii_case(&a, &chars_of("y")) || chars_eq_ignore_ascii_case(
        &a,
        &chars_of("yes"),
    )
}

/// The URL an answer stands for: the answer itself, or when it is empty the
/// current value, else the example.
pub open spec fn url_value(answer: Seq<char>, current: Option<Seq<char>>, example: Seq<char>) -> Seq<
    char,
> {
    if answer.len() > 0 {
        answer
    } else {
        match current {
            Some(c) => c,
            None => example,
        }
    }
}

/// A URL answer is accepted when the url crate parses it; otherwise the
/// question is asked again.
pub fn url_answer(answer: &str, current: Option<&str>, example: &str) -> (r: Option<String>)
    ensures
        ({
            let cur = match current {
                Some(c) => Some(c@),
                None => None,
            };
            let v = url_value(answer@, cur, example@);
            &&& r is Some <==> url_parses(v)
            &&& r matches Some(s) ==> s@ == v
        }),
{
    let value = if !answer.is_empty() {
        string_of(&chars_of(answer))
    } else {
        match current {
            Some(c) => string_of(&chars_of(c)),
            None => string_of(&chars_of(example)),
        }
    };
    match parse_url(value.as_str()) {
        Ok(_) => Some(value),
        Err(_) => None,
    }
}

/// A secret answer: the answer when given, else the current value; with
/// neither the question is asked again.
pub fn secret_answer(answer: &str, current: Option<&str>) -> (r: Option<String>)
    ensures
        answer@.len() > 0 ==> (r matches Some(s) && s@ == answer@),
        answer@.len() == 0 ==> match current {
            Some(c) => r matches Some(s) && s@ == c@,
            None => r is None,
        },
{
    if !answer.is_empty() {
        Some(string_of(&chars_of(answer)))
    } else {
        match current {
            Some(c) => Some(string_of(&chars_of(c))),
            None => None,
        }
    }
}

/// One service's line in the connectivity report.
#[derive(Debug, Clone)]
pub struct TestResult {
    pub service: &'static str,
    pub configured: bool,
    pub ok: bool,
    pub detail: String,
}

/// Reads a probe's outcome: not configured, reachable (with the version
/// text), or failed (with the error's message).
pub fn test_result(service: &'static str, outcome: Option<Result<String>>) -> (r: TestResult)
    ensures
        r.service == service,
        match outcome {
            None => !r.configured && !r.ok && r.detail@ == "not configured"@,
            Some(Ok(d)) => r.configured && r.ok && r.detail@ == d@,
            Some(Err(e)) => r.configured && !r.ok && match e {
                CliarrError::Http(_) | CliarrError::Url(_) => starts_with(
                    r.detail@,
                    message_spec(e),
                ),
                _ => r.detail@ == message_spec(e),
            },
        },
{
    match outcome {
        None => TestResult {
            service,
            configured: false,
            ok: false,
            detail: string_of(&chars_of("not configured")),
        },
        Some(Ok(detail)) => TestResult { service, configured: true, ok: true, detail },
        Some(Err(e)) => TestResult { service, configured: true, ok: false, detail: e.message() },
    }
}

/// `Radarr 5.2.1` / `Sonarr 4.0.0`.
pub fn arr_detail(name: &str, status: &SystemStatus) -> (r: String)
    ensures
        r@ == name@ + " "@ + status.version@,
{
    let mut t = chars_of(name);
    push_str(&mut t, " ");
    push_str(&mut t, status.version.as_str());
    string_of(&t)
}

/// `Plex 1.40.0 (Living Room)`; an unnamed server shows `()`.
pub fn plex_detail(identity: &Identity) -> (r: String)
    ensures
        r@ == "Plex "@ + identity.version@ + " ("@ + (match identity.friendly_name {
            Some(n) => n@,
            None => Seq::empty(),
        }) + ")"@,
{
    let mut t = chars_of("Plex ");
    push_str(&mut t, identity.version.as_str());
    push_str(&mut t, " (");
    match &identity.friendly_name {
        Some(n) => push_str(&mut t, n.as_str()),
        None => {},
    }
    push_str(&mut t, ")");
    string_of(&t)
}

/// `qBittorrent v4.6.2`, the version text trimmed.
pub fn qbit_detail(version: &str) -> (r: String)
    ensures
        r@ == "qBittorrent "@ + trim_ws(version@),
{
    let mut t = chars_of("qBittorrent ");
    let v = trim_chars(&chars_of(version));
    let vs = string_of(&v);
    push_str(&mut t, vs.as_str());
    string_of(&t)
}

/// `NZBGet 24.1`.
pub fn nzbget_detail(version: &str) -> (r: String)
    ensures
        r@ == "NZBGet "@ + version@,
{
    let mut t = chars_of("NZBGet ");
    push_str(&mut t, version);
    string_of(&t)
}

/// Column width of the service name in the report.
pub const SERVICE_COLUMN: usize = 12;

/// The mark in front of a report line: `·` unconfigured, `✓` reachable,
/// `✗` failed.
pub open spec fn mark_of(r: TestResult) -> char {
    if !r.configured {
        '·'
    } else if r.ok {
        '✓'
    } else {
        '✗'
    }
}

/// `s` followed by spaces up to `width` characters (`{:<width}`).
pub open spec fn pad_right(s: Seq<char>, width: nat) -> Seq<char> {
    if s.len() >= width {
        s
    } else {
        s + Seq::new((width - s.len()) as nat, |i: int| ' ')
    }
}

pub open spec fn report_line(r: TestResult) -> Seq<char> {
    seq![mark_of(r), ' '] + pad_right(r.service@, SERVICE_COLUMN as nat) + " "@ + r.detail@
}

pub open spec fn any_failed(results: Seq<TestResult>) -> bool {
    exists|i: int| 0 <= i < results.len() && results[i].configured && !results[i].ok
}

pub open spec fn failure_message() -> Seq<char> {
    "one or more services failed the connectivity test"@
}

/// The report: one line per service, in order; it fails when any
/// configured service failed.
pub fn test_report(results: &[TestResult]) -> (r: (Vec<String>, Result<()>))
    ensures
        r.0@.len() == results@.len(),
        forall|i: int| 0 <= i < results@.len() ==> #[trigger] r.0@[i]@ == report_line(results@[i]),
        r.1 is Ok <==> !any_failed(results@),
        r.1 matches Err(e) ==> e is Other && e->Other_0@ == failure_message(),
{
    let mut lines: Vec<String> = Vec::new();
    let mut failed = false;
    let mut i: usize = 0;
    while i < results.len()
        invariant
            0 <= i <= results@.len(),
            lines@.len() == i,
            forall|j: int| 0 <= j < i ==> #[trigger] lines@[j]@ == report_line(results@[j]),
            failed <==> exists|j: int| 0 <= j < i && results@[j].configured && !results@[j].ok,
        decreases results@.len() - i,
    {
        let r = &results[i];
        let mark = if !r.configured {
            '·'
        } else if r.ok {
            '✓'
        } else {
            failed = true;
            '✗'
        };
        let mut t: Vec<char> = Vec::new();
        t.push(mark);
        t.push(' ');
        let name = chars_of(r.service);
        let mut k: usize = 0;
        while k < name.len()
            invariant
                0 <= k <= name@.len(),
                t@ == seq![mark, ' '] + name@.take(k as int),
            decreases name@.len() - k,
        {
            t.push(name[k]);
            assert(name@.take(k + 1) =~= name@.take(k as int).push(name@[k as int]));
            k = k + 1;
        }
        assert(name@.take(k as int) =~= name@);
        let mut pad: usize = name.len();
        while pad < SERVICE_COLUMN
            invariant
                name@.len() <= pad <= SERVICE_COLUMN || (pad == name@.len() && pad
                    >= SERVICE_COLUMN),
                t@ == seq![mark, ' '] + name@ + Seq::new((pad - name@.len()) as nat, |i: int| ' '),
            decreases SERVICE_COLUMN - pad,
        {
            t.push(' ');
            assert(Seq::new((pad + 1 - name@.len()) as nat, |i: int| ' ') =~= Seq::new(
                (pad - name@.len()) as nat,
                |i: int| ' ',
            ).push(' '));
            pad = pad + 1;
        }
        if name.len() >= SERVICE_COLUMN {
            assert(Seq::new((pad - name@.len()) as nat, |i: int| ' ') =~= Seq::<char>::empty());
        }
        assert(t@ =~= seq![mark, ' '] + pad_right(r.service@, SERVICE_COLUMN as nat));
        t.push(' ');
        push_str(&mut t, r.detail.as_str());
        proof {
            reveal_strlit(" ");
            assert(t@ =~= report_line(*r));
        }
        lines.push(string_of(&t));
        i = i + 1;
    }
    let outcome = if failed {
        Err(CliarrError::Other(string_of(&chars_of("one or more services failed the connectivity test"))))
    } else {
        Ok(())
    };
    (lines, outcome)
}

} // verus!
