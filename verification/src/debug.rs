//! Capture of HTTP traffic for debugging: the entries kept for each request,
//! their text form, and the redaction of secrets in headers and bodies.
use vstd::prelude::*;
use vstd::string::*;
use vstd::utf8::*;
use std::fmt::Write;
use crate::config::DebugConfig;
use std::path::PathBuf;
use crate::html::opt_text;
use crate::json::{is_sensitive_key, json_compact_spec, json_parse_spec, json_pretty_spec, parse_json, redact_model, redacted, sensitive_key, write_json, write_json_pretty};
use crate::text::{has_prefix, str_starts_with, chars_of, join_prefix, join_with, lemma_join_last, lemma_split_append, lemma_split_join, lemma_split_nonempty, lemma_split_pieces_clean, lemma_split_whole_text, split_on, split_text, has_sub, lowercase_str, nat_chars, nat_text, push_char, str_contains, str_eq, string_from_chars, unicode_lowercase};
use crate::validate::hyphenated_uuid_text;

verus! {

broadcast use encode_utf8_valid_utf8;

/// `uuid::Uuid::new_v4().to_string()`: a fresh random identifier. The uuid crate
/// writes a `Uuid` in its hyphenated form, which is all that is claimed here;
/// that two calls give different identifiers is not stated.
#[verifier::external_body]
fn new_request_id() -> (r: String)
    ensures
        hyphenated_uuid_text(r@),
{
    uuid::Uuid::new_v4().to_string()
}

/// `chrono::Utc::now().timestamp_millis()`: the current time in milliseconds
/// since the Unix epoch; nothing is claimed of it.
#[verifier::external_body]
fn now_millis() -> (r: i64) {
    chrono::Utc::now().timestamp_millis()
}

/// What chrono writes for the instant `millis` milliseconds after the Unix epoch,
/// in UTC, formatted with the strftime-like `fmt`; `None` when the instant is out
/// of chrono's range or the format cannot be written.
pub uninterp spec fn utc_time_text(millis: int, fmt: Seq<char>) -> Option<Seq<char>>;

/// `chrono::DateTime::<Utc>::from_timestamp_millis`, then `format(fmt)` written
/// into a string: the result is named `utc_time_text` of the two arguments.
#[verifier::external_body]
fn format_utc_millis(millis: i64, fmt: &str) -> (r: Option<String>)
    ensures
        opt_text(r) == utc_time_text(millis as int, fmt@),
{
    let t = chrono::DateTime::<chrono::Utc>::from_timestamp_millis(millis)?;
    let mut s = String::new();
    write!(s, "{}", t.format(fmt)).ok()?;
    Some(s)
}

/// How an entry writes its timestamp.
pub const TIMESTAMP_FORMAT: &'static str = "%Y-%m-%d %H:%M:%S%.3f UTC";

/// A single HTTP traffic entry.
#[derive(Debug, Clone)]
pub struct TrafficEntry {
    /// Unique request ID.
    pub request_id: String,
    /// When the request was made, in milliseconds since the Unix epoch (UTC).
    pub timestamp: i64,
    /// Request method.
    pub method: String,
    /// Request URL.
    pub url: String,
    /// Request headers (redacted if configured).
    pub request_headers: Vec<(String, String)>,
    /// Request body (redacted if configured).
    pub request_body: Option<String>,
    /// Response status code.
    pub response_status: Option<u16>,
    /// Response headers.
    pub response_headers: Vec<(String, String)>,
    /// Response body.
    pub response_body: Option<String>,
    /// Request duration in milliseconds.
    pub duration_ms: Option<u64>,
    /// Any error that occurred.
    pub error: Option<String>,
}

/// The abstract value of a [`TrafficEntry`].
pub struct TrafficEntryView {
    pub request_id: Seq<char>,
    pub timestamp: int,
    pub method: Seq<char>,
    pub url: Seq<char>,
    pub request_headers: Seq<(Seq<char>, Seq<char>)>,
    pub request_body: Option<Seq<char>>,
    pub response_status: Option<u16>,
    pub response_headers: Seq<(Seq<char>, Seq<char>)>,
    pub response_body: Option<Seq<char>>,
    pub duration_ms: Option<u64>,
    pub error: Option<Seq<char>>,
}

/// The abstract value of a list of header pairs.
pub open spec fn pairs_view(v: Seq<(String, String)>) -> Seq<(Seq<char>, Seq<char>)> {
    v.map_values(|p: (String, String)| (p.0@, p.1@))
}

impl View for TrafficEntry {
    type V = TrafficEntryView;

    open spec fn view(&self) -> TrafficEntryView {
        TrafficEntryView {
            request_id: self.request_id@,
            timestamp: self.timestamp as int,
            method: self.method@,
            url: self.url@,
            request_headers: pairs_view(self.request_headers@),
            request_body: opt_text(self.request_body),
            response_status: self.response_status,
            response_headers: pairs_view(self.response_headers@),
            response_body: opt_text(self.response_body),
            duration_ms: self.duration_ms,
            error: opt_text(self.error),
        }
    }
}

/// Length of a text in UTF-8 bytes.
pub open spec fn byte_len(s: Seq<char>) -> nat {
    encode_utf8(s).len()
}

/// The text of the first `n` UTF-8 bytes of `s`.
pub open spec fn byte_prefix(s: Seq<char>, n: int) -> Seq<char> {
    decode_utf8(encode_utf8(s).subrange(0, n))
}

/// A line of sixty `=`.
pub open spec fn rule_text() -> Seq<char> {
    Seq::new(60, |i: int| '=')
}

/// One `key: value` line per header, in order.
pub open spec fn header_lines(hs: Seq<(Seq<char>, Seq<char>)>) -> Seq<char>
    decreases hs.len(),
{
    if hs.len() == 0 {
        Seq::empty()
    } else {
        header_lines(hs.drop_last()) + hs.last().0 + ": "@ + hs.last().1 + "\n"@
    }
}

/// How a response body is shown: JSON pretty-printed; other text cut after 2000
/// bytes, with a note of its full length.
pub open spec fn response_body_text(body: Seq<char>) -> Seq<char> {
    match json_parse_spec(body) {
        Some(m) => match json_pretty_spec(m) {
            Some(p) => p,
            None => body,
        },
        None => if byte_len(body) > 2000 {
            byte_prefix(body, 2000) + "\n... [truncated, "@ + nat_text(byte_len(body))
                + " bytes total]"@
        } else {
            body
        },
    }
}

/// A body that can be shown: one that is not JSON and longer than 2000 bytes is
/// cut at a character boundary.
pub open spec fn body_displayable(body: Seq<char>) -> bool {
    json_parse_spec(body) is None && byte_len(body) > 2000 ==> is_char_boundary(encode_utf8(body), 2000)
}

/// An entry that can be written out: its timestamp is one chrono can write and
/// its response body can be shown.
pub open spec fn entry_formattable(e: TrafficEntryView) -> bool {
    &&& utc_time_text(e.timestamp, TIMESTAMP_FORMAT@) is Some
    &&& e.response_body matches Some(b) ==> body_displayable(b)
}

/// The opening lines of an entry: rule, time, method, URL and request ID.
pub open spec fn head_text(e: TrafficEntryView, stamp: Seq<char>) -> Seq<char> {
    "\n"@ + rule_text() + "\n["@ + stamp + "] "@ + e.method + " "@ + e.url + "\nRequest ID: "@
        + e.request_id + "\n"@
}

/// A titled block of header lines, or nothing for no headers.
pub open spec fn headers_block(title: Seq<char>, hs: Seq<(Seq<char>, Seq<char>)>) -> Seq<char> {
    if hs.len() > 0 {
        title + header_lines(hs)
    } else {
        Seq::empty()
    }
}

/// The request body block, if there is a body.
pub open spec fn request_body_block(b: Option<Seq<char>>) -> Seq<char> {
    match b {
        Some(t) => "\n--- Request Body ---\n"@ + t + "\n"@,
        None => Seq::empty(),
    }
}

/// The response status line, if there is a status.
pub open spec fn status_block(s: Option<u16>) -> Seq<char> {
    match s {
        Some(n) => "\n--- Response Status: "@ + nat_text(n as nat) + " ---\n"@,
        None => Seq::empty(),
    }
}

/// The response body block, if there is a body.
pub open spec fn response_body_block(b: Option<Seq<char>>) -> Seq<char> {
    match b {
        Some(t) => "\n--- Response Body ---\n"@ + response_body_text(t) + "\n"@,
        None => Seq::empty(),
    }
}

/// The duration line, if there is a duration.
pub open spec fn duration_block(d: Option<u64>) -> Seq<char> {
    match d {
        Some(n) => "\nDuration: "@ + nat_text(n as nat) + "ms\n"@,
        None => Seq::empty(),
    }
}

/// The error line, if there is an error.
pub open spec fn error_block(e: Option<Seq<char>>) -> Seq<char> {
    match e {
        Some(t) => "\n!!! Error: "@ + t + " !!!\n"@,
        None => Seq::empty(),
    }
}

/// The text form of an entry whose timestamp reads `stamp`.
pub open spec fn entry_text(e: TrafficEntryView, stamp: Seq<char>) -> Seq<char> {
    head_text(e, stamp)
        + headers_block("\n--- Request Headers ---\n"@, e.request_headers)
        + request_body_block(e.request_body)
        + status_block(e.response_status)
        + headers_block("\n--- Response Headers ---\n"@, e.response_headers)
        + response_body_block(e.response_body)
        + duration_block(e.duration_ms)
        + error_block(e.error)
        + rule_text() + "\n"@
}

/// The text form of an entry, with its timestamp as chrono writes it.
pub open spec fn entry_display(e: TrafficEntryView) -> Seq<char> {
    entry_text(e, utc_time_text(e.timestamp, TIMESTAMP_FORMAT@)->Some_0)
}

fn push_rule(out: &mut String)
    ensures
        final(out)@ == old(out)@ + rule_text(),
{
    let ghost start = out@;
    let mut i: usize = 0;
    while i < 60
        invariant
            i <= 60,
            out@ == start + Seq::new(i as nat, |k: int| '='),
        decreases 60 - i,
    {
        push_char(out, '=');
        assert(start + Seq::new((i + 1) as nat, |k: int| '=') =~= start + Seq::new(i as nat, |k: int| '=')
            + seq!['=']);
        i += 1;
    }
    assert(Seq::new(60 as nat, |k: int| '=') =~= rule_text());
}

fn push_nat(out: &mut String, n: u64)
    ensures
        final(out)@ == old(out)@ + nat_text(n as nat),
{
    let digits = nat_chars(n);
    let s = string_from_chars(digits.as_slice());
    out.append(s.as_str());
}

fn push_header_lines(out: &mut String, hs: &Vec<(String, String)>)
    ensures
        final(out)@ == old(out)@ + header_lines(pairs_view(hs@)),
{
    let ghost start = out@;
    let ghost v = pairs_view(hs@);
    let mut i: usize = 0;
    while i < hs.len()
        invariant
            i <= hs@.len(),
            v == pairs_view(hs@),
            out@ == start + header_lines(v.take(i as int)),
        decreases hs@.len() - i,
    {
        assert(v.take(i + 1).drop_last() =~= v.take(i as int));
        out.append(hs[i].0.as_str());
        out.append(": ");
        out.append(hs[i].1.as_str());
        out.append("\n");
        proof {
            let t = v.take(i + 1);
            assert(t.last() == v[i as int]);
            assert(out@ =~= start + header_lines(t));
        }
        i += 1;
    }
    assert(v.take(hs@.len() as int) =~= v);
}

fn push_headers_block(out: &mut String, title: &str, hs: &Vec<(String, String)>)
    ensures
        final(out)@ == old(out)@ + headers_block(title@, pairs_view(hs@)),
{
    if hs.len() > 0 {
        let ghost start = out@;
        out.append(title);
        push_header_lines(out, hs);
        assert(out@ =~= start + headers_block(title@, pairs_view(hs@)));
    } else {
        assert(out@ =~= out@ + headers_block(title@, pairs_view(hs@)));
    }
}

/// The shown form of a response body (see [`response_body_text`]).
fn push_response_body(out: &mut String, body: &String)
    requires
        body_displayable(body@),
    ensures
        final(out)@ == old(out)@ + response_body_text(body@),
{
    let ghost start = out@;
    match parse_json(body.as_str()) {
        Some(json) => {
            match write_json_pretty(&json) {
                Some(pretty) => out.append(pretty.as_str()),
                None => out.append(body.as_str()),
            }
        },
        None => {
            let n = body.as_str().as_bytes().len();
            if n > 2000 {
                let (head, _) = body.as_str().split_at(2000);
                proof {
                    encode_utf8_decode_utf8(head@);
                }
                out.append(head);
                out.append("\n... [truncated, ");
                push_nat(out, n as u64);
                out.append(" bytes total]");
                assert(out@ =~= start + response_body_text(body@));
            } else {
                out.append(body.as_str());
            }
        },
    }
}

fn push_head(out: &mut String, e: &TrafficEntry, stamp: &str)
    ensures
        final(out)@ == old(out)@ + head_text(e@, stamp@),
{
    let ghost start = out@;
    out.append("\n");
    push_rule(out);
    out.append("\n[");
    out.append(stamp);
    out.append("] ");
    out.append(e.method.as_str());
    out.append(" ");
    out.append(e.url.as_str());
    out.append("\nRequest ID: ");
    out.append(e.request_id.as_str());
    out.append("\n");
    assert(out@ =~= start + head_text(e@, stamp@));
}

fn push_request_body_block(out: &mut String, body: &Option<String>)
    ensures
        final(out)@ == old(out)@ + request_body_block(opt_text(*body)),
{
    let ghost start = out@;
    match body {
        Some(b) => {
            out.append("\n--- Request Body ---\n");
            out.append(b.as_str());
            out.append("\n");
        },
        None => {},
    }
    assert(out@ =~= start + request_body_block(opt_text(*body)));
}

fn push_status_block(out: &mut String, status: Option<u16>)
    ensures
        final(out)@ == old(out)@ + status_block(status),
{
    let ghost start = out@;
    match status {
        Some(s) => {
            out.append("\n--- Response Status: ");
            push_nat(out, s as u64);
            out.append(" ---\n");
        },
        None => {},
    }
    assert(out@ =~= start + status_block(status));
}

fn push_response_body_block(out: &mut String, body: &Option<String>)
    requires
        body matches Some(b) ==> body_displayable(b@),
    ensures
        final(out)@ == old(out)@ + response_body_block(opt_text(*body)),
{
    let ghost start = out@;
    match body {
        Some(b) => {
            out.append("\n--- Response Body ---\n");
            push_response_body(out, b);
            out.append("\n");
        },
        None => {},
    }
    assert(out@ =~= start + response_body_block(opt_text(*body)));
}

fn push_duration_block(out: &mut String, duration: Option<u64>)
    ensures
        final(out)@ == old(out)@ + duration_block(duration),
{
    let ghost start = out@;
    match duration {
        Some(d) => {
            out.append("\nDuration: ");
            push_nat(out, d);
            out.append("ms\n");
        },
        None => {},
    }
    assert(out@ =~= start + duration_block(duration));
}

fn push_error_block(out: &mut String, error: &Option<String>)
    ensures
        final(out)@ == old(out)@ + error_block(opt_text(*error)),
{
    let ghost start = out@;
    match error {
        Some(e) => {
            out.append("\n!!! Error: ");
            out.append(e.as_str());
            out.append(" !!!\n");
        },
        None => {},
    }
    assert(out@ =~= start + error_block(opt_text(*error)));
}

impl TrafficEntry {
    /// A new entry for a request: a fresh identifier, the current time, and
    /// nothing captured yet.
    pub fn new(method: &str, url: &str) -> (r: Self)
        ensures
            hyphenated_uuid_text(r.request_id@),
            r.method@ == method@,
            r.url@ == url@,
            r.request_headers@.len() == 0,
            r.request_body is None,
            r.response_status is None,
            r.response_headers@.len() == 0,
            r.response_body is None,
            r.duration_ms is None,
            r.error is None,
    {
        TrafficEntry {
            request_id: new_request_id(),
            timestamp: now_millis(),
            method: method.to_owned(),
            url: url.to_owned(),
            request_headers: Vec::new(),
            request_body: None,
            response_status: None,
            response_headers: Vec::new(),
            response_body: None,
            duration_ms: None,
            error: None,
        }
    }

    /// The entry as a debug text: its time, request line, identifier, headers and
    /// bodies, status, duration and error, between two rules.
    pub fn format(&self) -> (r: String)
        requires
            entry_formattable(self@),
        ensures
            r@ == entry_display(self@),
    {
        let stamp = match format_utc_millis(self.timestamp, TIMESTAMP_FORMAT) {
            Some(s) => s,
            None => String::new(),
        };
        let mut out = String::new();
        push_head(&mut out, self, stamp.as_str());
        push_headers_block(&mut out, "\n--- Request Headers ---\n", &self.request_headers);
        push_request_body_block(&mut out, &self.request_body);
        push_status_block(&mut out, self.response_status);
        push_headers_block(&mut out, "\n--- Response Headers ---\n", &self.response_headers);
        push_response_body_block(&mut out, &self.response_body);
        push_duration_block(&mut out, self.duration_ms);
        push_error_block(&mut out, &self.error);
        push_rule(&mut out);
        out.append("\n");
        out
    }

    /// The entry as a debug text, or `None` where [`TrafficEntry::format`] cannot
    /// write it (a timestamp out of chrono's range, or a long body that is not
    /// JSON cut inside a character).
    pub fn try_format(&self) -> (r: Option<String>)
        ensures
            r is Some <==> entry_formattable(self@),
            r matches Some(t) ==> t@ == entry_display(self@),
    {
        if format_utc_millis(self.timestamp, TIMESTAMP_FORMAT).is_none() {
            return None;
        }
        match &self.response_body {
            Some(b) => {
                if parse_json(b.as_str()).is_none() && b.as_str().as_bytes().len() > 2000
                    && !b.as_str().is_char_boundary(2000) {
                    return None;
                }
            },
            None => {},
        }
        Some(self.format())
    }
}

} // verus!

verus! {

/// A form field whose lower case starts with `password=` is written
/// `Password=REDACTED`; another field `name=value` whose name is one under which
/// secrets are kept (its lower case contains `password`, `secret` or `token`, or
/// is `pin`) is written `name=REDACTED`; any other field, and a piece without
/// `=`, is kept.
pub open spec fn redact_field(p: Seq<char>) -> Seq<char> {
    let parts = split_on(p, '=');
    if has_prefix(unicode_lowercase(p), "password="@) {
        "Password=REDACTED"@
    } else if parts.len() > 1 && sensitive_key(parts[0]) {
        parts[0] + "=REDACTED"@
    } else {
        p
    }
}

/// A form-encoded body with its secret fields redacted.
pub open spec fn redact_form_text(body: Seq<char>) -> Seq<char> {
    join_with(split_on(body, '&').map_values(|p: Seq<char>| redact_field(p)), '&')
}

/// A body with its secrets redacted: a body containing `Password=` is taken as
/// form data, each secret field replaced; otherwise a JSON body is written back
/// compactly with its secret members replaced (kept as it is should writing
/// fail); any other body is taken as form data as well.
pub open spec fn redact_body_text(body: Seq<char>) -> Seq<char> {
    if has_sub(body, "Password="@) {
        redact_form_text(body)
    } else {
        match json_parse_spec(body) {
            Some(m) => match json_compact_spec(redact_model(m)) {
                Some(t) => t,
                None => body,
            },
            None => redact_form_text(body),
        }
    }
}

/// A header that carries credentials: its lower-case name contains
/// `authorization`, `cookie`, `token` or `auth`.
pub open spec fn sensitive_header(key: Seq<char>) -> bool {
    let l = unicode_lowercase(key);
    has_sub(l, "authorization"@) || has_sub(l, "cookie"@) || has_sub(l, "token"@) || has_sub(l, "auth"@)
}

/// A header value as logged: for a credential header, its first five bytes and
/// `...REDACTED` when it is longer than ten bytes, else `REDACTED`; other
/// values unchanged.
pub open spec fn redact_header_text(key: Seq<char>, value: Seq<char>) -> Seq<char> {
    if sensitive_header(key) {
        if byte_len(value) > 10 {
            byte_prefix(value, 5) + "...REDACTED"@
        } else {
            "REDACTED"@
        }
    } else {
        value
    }
}

/// A header value that can be redacted: when it is cut, the cut falls between
/// characters.
pub open spec fn header_redactable(key: Seq<char>, value: Seq<char>) -> bool {
    sensitive_header(key) && byte_len(value) > 10 ==> is_char_boundary(encode_utf8(value), 5)
}

/// Header values as HTTP carries them: ASCII text.
pub open spec fn ascii_values(hs: Seq<(Seq<char>, Seq<char>)>) -> bool {
    forall|i: int| 0 <= i < hs.len() ==> is_ascii_chars(#[trigger] hs[i].1)
}

/// Headers as captured: values redacted when `redact` is set.
pub open spec fn captured_headers(hs: Seq<(Seq<char>, Seq<char>)>, redact: bool) -> Seq<(Seq<char>, Seq<char>)> {
    hs.map_values(|p: (Seq<char>, Seq<char>)| (p.0, if redact { redact_header_text(p.0, p.1) } else { p.1 }))
}

/// A body as captured: redacted when `redact` is set.
pub open spec fn captured_body(body: Seq<char>, redact: bool) -> Seq<char> {
    if redact { redact_body_text(body) } else { body }
}

/// An ASCII value can always be cut after five bytes.
pub proof fn lemma_ascii_redactable(key: Seq<char>, value: Seq<char>)
    requires
        is_ascii_chars(value),
    ensures
        header_redactable(key, value),
{
    if byte_len(value) > 10 {
        let bytes = encode_utf8(value);
        is_ascii_chars_encode_utf8(value);
        is_ascii_chars_nat_bound(value);
        assert((value[5] as nat) < 128);
        assert(bytes[5] == value[5] as u8);
        assert(is_leading_byte_width_1(bytes[5]));
        is_char_boundary_iff_is_leading_byte(bytes, 5);
    }
}

} // verus!

verus! {

/// One form field, redacted when it holds a secret.
fn redact_piece(p: &str) -> (r: String)
    ensures
        r@ == redact_field(p@),
{
    let l = lowercase_str(p);
    if str_starts_with(l.as_str(), "password=") {
        return "Password=REDACTED".to_owned();
    }
    let parts = split_text(p, '=');
    let ghost ps = split_on(p@, '=');
    assert(parts@.len() == ps.len());
    if parts.len() > 1 {
        assert(parts@[0]@ == ps[0]);
        if is_sensitive_key(parts[0].as_str()) {
            let mut s = parts[0].clone();
            s.append("=REDACTED");
            return s;
        }
    }
    p.to_owned()
}

/// A form-encoded body with its secret fields redacted.
fn redact_form(body: &str) -> (r: String)
    ensures
        r@ == redact_form_text(body@),
{
    let v = chars_of(body);
    let mut out = String::new();
    let mut cur = String::new();
    let mut i: usize = 0;
    proof {
        assert(v@.take(0) =~= Seq::<char>::empty());
    }
    while i < v.len()
        invariant
            i <= v@.len(),
            v@ == body@,
            split_on(v@.take(i as int), '&').len() >= 1,
            cur@ == split_on(v@.take(i as int), '&').last(),
            out@ == join_prefix(split_on(v@.take(i as int), '&').map_values(|p: Seq<char>| redact_field(p)), '&'),
        decreases v@.len() - i,
    {
        let ghost ps = split_on(v@.take(i as int), '&');
        let ghost mp = ps.map_values(|p: Seq<char>| redact_field(p));
        assert(v@.take(i + 1).drop_last() =~= v@.take(i as int));
        assert(v@.take(i + 1).last() == v@[i as int]);
        let c = v[i];
        if c == '&' {
            let piece = redact_piece(cur.as_str());
            out.append(piece.as_str());
            push_char(&mut out, '&');
            cur = String::new();
            proof {
                let ps2 = split_on(v@.take(i + 1), '&');
                assert(ps2 == ps.push(Seq::empty()));
                let mp2 = ps2.map_values(|p: Seq<char>| redact_field(p));
                assert(mp2.drop_last() =~= mp);
                lemma_join_last(mp, '&');
                assert(out@ =~= join_prefix(mp2, '&'));
            }
        } else {
            push_char(&mut cur, c);
            proof {
                let ps2 = split_on(v@.take(i + 1), '&');
                assert(ps2 == ps.update(ps.len() - 1, ps.last().push(c)));
                let mp2 = ps2.map_values(|p: Seq<char>| redact_field(p));
                assert(mp2.drop_last() =~= mp.drop_last());
                assert(out@ =~= join_prefix(mp2, '&'));
            }
        }
        i += 1;
    }
    let last = redact_piece(cur.as_str());
    out.append(last.as_str());
    proof {
        assert(v@.take(v@.len() as int) =~= v@);
        let mp = split_on(v@, '&').map_values(|p: Seq<char>| redact_field(p));
        lemma_join_last(mp, '&');
    }
    out
}

} // verus!

verus! {

/// HTTP traffic logger: it keeps an entry per request, with what the
/// configuration asks to capture.
#[derive(Debug)]
pub struct HttpDebugger {
    config: DebugConfig,
    enabled: bool,
    log_buffer: Vec<TrafficEntry>,
}

/// The abstract state of an [`HttpDebugger`].
pub struct HttpDebuggerView {
    /// Whether debugging is on at the moment.
    pub enabled: bool,
    /// Whether bodies are captured.
    pub log_bodies: bool,
    /// Whether secrets are redacted.
    pub redact_sensitive: bool,
    /// Whether answered entries are written to a log file.
    pub writes_file: bool,
    /// The log file answered entries are written to, if any.
    pub log_file: Option<PathBuf>,
    /// The captured entries, oldest first.
    pub entries: Seq<TrafficEntryView>,
}

/// The abstract values of a list of entries.
pub open spec fn entries_view(v: Seq<TrafficEntry>) -> Seq<TrafficEntryView> {
    v.map_values(|e: TrafficEntry| e@)
}

impl View for HttpDebugger {
    type V = HttpDebuggerView;

    closed spec fn view(&self) -> HttpDebuggerView {
        HttpDebuggerView {
            enabled: self.enabled,
            log_bodies: self.config.log_bodies,
            redact_sensitive: self.config.redact_sensitive,
            writes_file: self.config.log_file is Some,
            log_file: self.config.log_file,
            entries: entries_view(self.log_buffer@),
        }
    }
}

/// The abstract value of an optional text.
pub open spec fn opt_str(o: Option<&str>) -> Option<Seq<char>> {
    match o {
        Some(s) => Some(s@),
        None => None,
    }
}

/// Two states with the same settings.
pub open spec fn same_settings(a: HttpDebuggerView, b: HttpDebuggerView) -> bool {
    a.enabled == b.enabled && a.log_bodies == b.log_bodies && a.redact_sensitive == b.redact_sensitive
        && a.writes_file == b.writes_file && a.log_file == b.log_file
}

/// A body as the debugger keeps it: only when bodies are logged, redacted when
/// secrets are.
pub open spec fn logged_body(d: HttpDebuggerView, body: Option<Seq<char>>) -> Option<Seq<char>> {
    if d.log_bodies && body is Some {
        Some(captured_body(body->Some_0, d.redact_sensitive))
    } else {
        None
    }
}

/// The entry that a request makes.
pub open spec fn requested(
    d: HttpDebuggerView,
    id: Seq<char>,
    timestamp: int,
    method: Seq<char>,
    url: Seq<char>,
    headers: Seq<(Seq<char>, Seq<char>)>,
    body: Option<Seq<char>>,
) -> TrafficEntryView {
    TrafficEntryView {
        request_id: id,
        timestamp: timestamp,
        method: method,
        url: url,
        request_headers: captured_headers(headers, d.redact_sensitive),
        request_body: logged_body(d, body),
        response_status: None,
        response_headers: Seq::empty(),
        response_body: None,
        duration_ms: None,
        error: None,
    }
}

/// An entry after its response: status and duration set, headers added, the body
/// replaced when one is logged.
pub open spec fn responded(
    d: HttpDebuggerView,
    e: TrafficEntryView,
    status: u16,
    headers: Seq<(Seq<char>, Seq<char>)>,
    body: Option<Seq<char>>,
    duration_ms: u64,
) -> TrafficEntryView {
    TrafficEntryView {
        response_status: Some(status),
        duration_ms: Some(duration_ms),
        response_headers: e.response_headers + captured_headers(headers, d.redact_sensitive),
        response_body: match logged_body(d, body) {
            Some(b) => Some(b),
            None => e.response_body,
        },
        ..e
    }
}

/// `i` is the first entry with this request ID.
pub open spec fn is_first_match(es: Seq<TrafficEntryView>, id: Seq<char>, i: int) -> bool {
    &&& 0 <= i < es.len()
    &&& es[i].request_id == id
    &&& forall|j: int| 0 <= j < i ==> (#[trigger] es[j]).request_id != id
}

/// Some entry has this request ID.
pub open spec fn has_match(es: Seq<TrafficEntryView>, id: Seq<char>) -> bool {
    exists|i: int| 0 <= i < es.len() && (#[trigger] es[i]).request_id == id
}

/// The response entry of a debugger can be written out, where it is to be.
pub open spec fn response_loggable(
    d: HttpDebuggerView,
    id: Seq<char>,
    status: u16,
    headers: Seq<(Seq<char>, Seq<char>)>,
    body: Option<Seq<char>>,
    duration_ms: u64,
) -> bool {
    d.writes_file ==> forall|i: int| #[trigger] is_first_match(d.entries, id, i)
        ==> entry_formattable(responded(d, d.entries[i], status, headers, body, duration_ms))
}

fn copy_opt(o: &Option<String>) -> (r: Option<String>)
    ensures
        opt_text(r) == opt_text(*o),
{
    match o {
        Some(s) => Some(s.clone()),
        None => None,
    }
}

fn copy_pairs(v: &Vec<(String, String)>) -> (r: Vec<(String, String)>)
    ensures
        pairs_view(r@) == pairs_view(v@),
{
    let mut r: Vec<(String, String)> = Vec::new();
    let mut i: usize = 0;
    while i < v.len()
        invariant
            i <= v@.len(),
            r@.len() == i,
            forall|k: int| 0 <= k < i ==> (#[trigger] r@[k]).0@ == v@[k].0@ && r@[k].1@ == v@[k].1@,
        decreases v@.len() - i,
    {
        r.push((v[i].0.clone(), v[i].1.clone()));
        i += 1;
    }
    assert(pairs_view(r@) =~= pairs_view(v@));
    r
}

fn copy_entry(e: &TrafficEntry) -> (r: TrafficEntry)
    ensures
        r@ == e@,
{
    TrafficEntry {
        request_id: e.request_id.clone(),
        timestamp: e.timestamp,
        method: e.method.clone(),
        url: e.url.clone(),
        request_headers: copy_pairs(&e.request_headers),
        request_body: copy_opt(&e.request_body),
        response_status: e.response_status,
        response_headers: copy_pairs(&e.response_headers),
        response_body: copy_opt(&e.response_body),
        duration_ms: e.duration_ms,
        error: copy_opt(&e.error),
    }
}

/// The texts joined with line breaks.
pub open spec fn join_lines(ts: Seq<Seq<char>>) -> Seq<char> {
    join_with(ts, '\n')
}

impl Default for HttpDebugger {
    fn default() -> (r: Self)
        ensures
            !r@.enabled && r@.log_bodies && r@.redact_sensitive && !r@.writes_file,
            r@.entries.len() == 0,
    {
        HttpDebugger::new(DebugConfig::default())
    }
}

impl HttpDebugger {
    /// A debugger with the given configuration and no entries.
    pub fn new(config: DebugConfig) -> (r: Self)
        ensures
            r@.enabled == config.enabled,
            r@.log_bodies == config.log_bodies,
            r@.redact_sensitive == config.redact_sensitive,
            r@.writes_file == config.log_file is Some,
            r@.log_file == config.log_file,
            r@.entries.len() == 0,
    {
        let enabled = config.enabled;
        let r = HttpDebugger { config, enabled, log_buffer: Vec::new() };
        assert(r@.entries =~= Seq::<TrafficEntryView>::empty());
        r
    }

    /// Whether debugging is enabled.
    pub fn is_enabled(&self) -> (r: bool)
        ensures
            r == self@.enabled,
    {
        self.enabled
    }

    /// Enable debugging.
    pub fn enable(&mut self)
        ensures
            final(self)@ == (HttpDebuggerView { enabled: true, ..old(self)@ }),
    {
        self.enabled = true;
    }

    /// Disable debugging.
    pub fn disable(&mut self)
        ensures
            final(self)@ == (HttpDebuggerView { enabled: false, ..old(self)@ }),
    {
        self.enabled = false;
    }

    /// A header value as logged (see [`redact_header_text`]).
    pub fn redact_header(&self, key: &str, value: &str) -> (r: String)
        requires
            header_redactable(key@, value@),
        ensures
            r@ == redact_header_text(key@, value@),
    {
        let k = lowercase_str(key);
        let kl = k.as_str();
        if str_contains(kl, "authorization") || str_contains(kl, "cookie") || str_contains(kl, "token")
            || str_contains(kl, "auth") {
            if value.as_bytes().len() > 10 {
                let (head, _) = value.split_at(5);
                proof {
                    encode_utf8_decode_utf8(head@);
                }
                let mut s = head.to_owned();
                s.append("...REDACTED");
                s
            } else {
                "REDACTED".to_owned()
            }
        } else {
            value.to_owned()
        }
    }

    /// A body with its secrets redacted (see [`redact_body_text`]).
    pub fn redact_body(&self, body: &str) -> (r: String)
        ensures
            r@ == redact_body_text(body@),
    {
        if str_contains(body, "Password=") {
            return redact_form(body);
        }
        match parse_json(body) {
            Some(json) => {
                let clean = redacted(&json);
                match write_json(&clean) {
                    Some(t) => t,
                    None => body.to_owned(),
                }
            },
            None => redact_form(body),
        }
    }

    fn capture_headers(&self, hs: &Vec<(String, String)>, into: &mut Vec<(String, String)>)
        requires
            ascii_values(pairs_view(hs@)),
        ensures
            pairs_view(final(into)@) == pairs_view(old(into)@) + captured_headers(pairs_view(hs@), self@.redact_sensitive),
    {
        let ghost start = pairs_view(into@);
        let ghost want = captured_headers(pairs_view(hs@), self@.redact_sensitive);
        let mut i: usize = 0;
        while i < hs.len()
            invariant
                i <= hs@.len(),
                ascii_values(pairs_view(hs@)),
                want == captured_headers(pairs_view(hs@), self@.redact_sensitive),
                pairs_view(into@) =~= start + want.take(i as int),
            decreases hs@.len() - i,
        {
            let ghost before = pairs_view(into@);
            let key = hs[i].0.as_str();
            let value = hs[i].1.as_str();
            assert(pairs_view(hs@)[i as int] == (key@, value@));
            assert(is_ascii_chars(pairs_view(hs@)[i as int].1));
            let v = if self.config.redact_sensitive {
                proof {
                    lemma_ascii_redactable(key@, value@);
                }
                self.redact_header(key, value)
            } else {
                value.to_owned()
            };
            into.push((key.to_owned(), v));
            assert(want[i as int] == (key@, v@));
            assert(pairs_view(into@) =~= before.push((key@, v@)));
            assert(want.take(i + 1) =~= want.take(i as int).push(want[i as int]));
            i += 1;
        }
        assert(want.take(hs@.len() as int) =~= want);
    }

    fn capture_body(&self, body: Option<&str>) -> (r: Option<String>)
        ensures
            opt_text(r) == logged_body(self@, opt_str(body)),
    {
        if self.config.log_bodies {
            match body {
                Some(b) => Some(if self.config.redact_sensitive { self.redact_body(b) } else { b.to_owned() }),
                None => None,
            }
        } else {
            None
        }
    }

    /// The index of the first entry with this request ID.
    fn find_entry(&self, request_id: &str) -> (r: Option<usize>)
        ensures
            match r {
                Some(i) => is_first_match(self@.entries, request_id@, i as int),
                None => !has_match(self@.entries, request_id@),
            },
    {
        let mut i: usize = 0;
        while i < self.log_buffer.len()
            invariant
                i <= self.log_buffer@.len(),
                forall|j: int| 0 <= j < i ==> (#[trigger] self@.entries[j]).request_id != request_id@,
            decreases self.log_buffer@.len() - i,
        {
            if str_eq(self.log_buffer[i].request_id.as_str(), request_id) {
                return Some(i);
            }
            i += 1;
        }
        None
    }

    /// Log a request before it is sent: a new entry with its headers (values
    /// redacted if configured) and, if bodies are logged, its body. Returns the
    /// entry's request ID.
    pub fn log_request(
        &mut self,
        method: &str,
        url: &str,
        headers: &Vec<(String, String)>,
        body: Option<&str>,
    ) -> (r: String)
        requires
            ascii_values(pairs_view(headers@)),
        ensures
            hyphenated_uuid_text(r@),
            same_settings(final(self)@, old(self)@),
            final(self)@.entries == old(self)@.entries.push(
                requested(
                    old(self)@,
                    r@,
                    final(self)@.entries.last().timestamp,
                    method@,
                    url@,
                    pairs_view(headers@),
                    opt_str(body),
                ),
            ),
    {
        let mut entry = TrafficEntry::new(method, url);
        let mut hs: Vec<(String, String)> = Vec::new();
        self.capture_headers(headers, &mut hs);
        entry.request_headers = hs;
        entry.request_body = self.capture_body(body);
        let id = entry.request_id.clone();
        self.log_buffer.push(entry);
        proof {
            let e = self@.entries.last();
            assert(e.request_headers =~= captured_headers(pairs_view(headers@), old(self)@.redact_sensitive));
            assert(e.response_headers =~= Seq::<(Seq<char>, Seq<char>)>::empty());
            assert(e == requested(old(self)@, id@, e.timestamp, method@, url@, pairs_view(headers@), opt_str(body)));
            assert(self@.entries =~= old(self)@.entries.push(
                requested(old(self)@, id@, e.timestamp, method@, url@, pairs_view(headers@), opt_str(body)),
            ));
        }
        id
    }

    fn respond_entry(
        &self,
        e: &TrafficEntry,
        status: u16,
        headers: &Vec<(String, String)>,
        body: Option<&str>,
        duration_ms: u64,
    ) -> (r: TrafficEntry)
        requires
            ascii_values(pairs_view(headers@)),
        ensures
            r@ == responded(self@, e@, status, pairs_view(headers@), opt_str(body), duration_ms),
    {
        let mut r = copy_entry(e);
        r.response_status = Some(status);
        r.duration_ms = Some(duration_ms);
        let mut hs = copy_pairs(&e.response_headers);
        self.capture_headers(headers, &mut hs);
        r.response_headers = hs;
        match self.capture_body(body) {
            Some(b) => {
                r.response_body = Some(b);
            },
            None => {},
        }
        assert(r@ =~= responded(self@, e@, status, pairs_view(headers@), opt_str(body), duration_ms));
        r
    }

    /// Log the response to a request: the first entry with this request ID gets
    /// the status, the duration, the headers (values redacted if configured)
    /// and, if bodies are logged, the body. Where a log file is configured, the
    /// result is the entry's text to append to it.
    pub fn log_response(
        &mut self,
        request_id: &str,
        status: u16,
        headers: &Vec<(String, String)>,
        body: Option<&str>,
        duration_ms: u64,
    ) -> (r: Option<String>)
        requires
            ascii_values(pairs_view(headers@)),
            response_loggable(old(self)@, request_id@, status, pairs_view(headers@), opt_str(body), duration_ms),
        ensures
            !has_match(old(self)@.entries, request_id@) ==> final(self)@ == old(self)@ && r is None,
            has_match(old(self)@.entries, request_id@) ==> exists|i: int| is_first_match(old(self)@.entries, request_id@, i),
            forall|i: int| #[trigger] is_first_match(old(self)@.entries, request_id@, i) ==> {
                let e = responded(old(self)@, old(self)@.entries[i], status, pairs_view(headers@), opt_str(body), duration_ms);
                &&& same_settings(final(self)@, old(self)@)
                &&& final(self)@.entries == old(self)@.entries.update(i, e)
                &&& opt_text(r) == (if old(self)@.writes_file { Some(entry_display(e)) } else { None })
            },
    {
        match self.find_entry(request_id) {
            None => None,
            Some(i) => {
                let e = self.respond_entry(&self.log_buffer[i], status, headers, body, duration_ms);
                let text = if self.config.log_file.is_some() {
                    assert(is_first_match(self@.entries, request_id@, i as int));
                    Some(e.format())
                } else {
                    None
                };
                self.log_buffer.set(i, e);
                proof {
                    assert(self@.entries =~= old(self)@.entries.update(
                        i as int,
                        responded(old(self)@, old(self)@.entries[i as int], status, pairs_view(headers@), opt_str(body), duration_ms),
                    ));
                    assert forall|k: int| #[trigger] is_first_match(old(self)@.entries, request_id@, k) implies k == i by {
                        if k < i {
                            assert(old(self)@.entries[k].request_id != request_id@);
                        } else if k > i {
                            assert(old(self)@.entries[i as int].request_id != request_id@);
                        }
                    }
                }
                text
            },
        }
    }

    /// [`HttpDebugger::log_response`] where its entry can be written out; `None`,
    /// with nothing changed, where a log file is configured and the answered
    /// entry cannot be written (see [`TrafficEntry::try_format`]).
    pub fn try_log_response(
        &mut self,
        request_id: &str,
        status: u16,
        headers: &Vec<(String, String)>,
        body: Option<&str>,
        duration_ms: u64,
    ) -> (r: Option<Option<String>>)
        requires
            ascii_values(pairs_view(headers@)),
        ensures
            r is None <==> !response_loggable(old(self)@, request_id@, status, pairs_view(headers@), opt_str(body), duration_ms),
            r is None ==> final(self)@ == old(self)@,
            !has_match(old(self)@.entries, request_id@) ==> final(self)@ == old(self)@ && r == Some(None::<String>),
            forall|i: int| #[trigger] is_first_match(old(self)@.entries, request_id@, i) && r is Some ==> {
                let e = responded(old(self)@, old(self)@.entries[i], status, pairs_view(headers@), opt_str(body), duration_ms);
                &&& same_settings(final(self)@, old(self)@)
                &&& final(self)@.entries == old(self)@.entries.update(i, e)
                &&& opt_text(r->Some_0) == (if old(self)@.writes_file { Some(entry_display(e)) } else { None })
            },
    {
        match self.find_entry(request_id) {
            None => Some(self.log_response(request_id, status, headers, body, duration_ms)),
            Some(i) => {
                let e = self.respond_entry(&self.log_buffer[i], status, headers, body, duration_ms);
                proof {
                    assert forall|k: int| #[trigger] is_first_match(self@.entries, request_id@, k) implies k == i by {
                        if k < i {
                            assert(self@.entries[k].request_id != request_id@);
                        } else if k > i {
                            assert(self@.entries[i as int].request_id != request_id@);
                        }
                    }
                }
                if self.config.log_file.is_some() && e.try_format().is_none() {
                    assert(is_first_match(self@.entries, request_id@, i as int));
                    None
                } else {
                    Some(self.log_response(request_id, status, headers, body, duration_ms))
                }
            },
        }
    }

    /// Log an error: the first entry with this request ID records it.
    pub fn log_error(&mut self, request_id: &str, error: &str)
        ensures
            !has_match(old(self)@.entries, request_id@) ==> final(self)@ == old(self)@,
            has_match(old(self)@.entries, request_id@) ==> exists|i: int| is_first_match(old(self)@.entries, request_id@, i),
            forall|i: int| #[trigger] is_first_match(old(self)@.entries, request_id@, i) ==> {
                &&& same_settings(final(self)@, old(self)@)
                &&& final(self)@.entries == old(self)@.entries.update(
                    i,
                    TrafficEntryView { error: Some(error@), ..old(self)@.entries[i] },
                )
            },
    {
        match self.find_entry(request_id) {
            None => {},
            Some(i) => {
                let mut e = copy_entry(&self.log_buffer[i]);
                e.error = Some(error.to_owned());
                self.log_buffer.set(i, e);
                proof {
                    assert(self@.entries =~= old(self)@.entries.update(
                        i as int,
                        TrafficEntryView { error: Some(error@), ..old(self)@.entries[i as int] },
                    ));
                    assert forall|k: int| #[trigger] is_first_match(old(self)@.entries, request_id@, k) implies k == i by {
                        if k < i {
                            assert(old(self)@.entries[k].request_id != request_id@);
                        } else if k > i {
                            assert(old(self)@.entries[i as int].request_id != request_id@);
                        }
                    }
                }
            },
        }
    }

    /// All captured traffic entries, oldest first.
    pub fn get_traffic(&self) -> (r: Vec<TrafficEntry>)
        ensures
            entries_view(r@) == self@.entries,
    {
        let mut r: Vec<TrafficEntry> = Vec::new();
        let mut i: usize = 0;
        while i < self.log_buffer.len()
            invariant
                i <= self.log_buffer@.len(),
                r@.len() == i,
                forall|k: int| 0 <= k < i ==> (#[trigger] r@[k])@ == self.log_buffer@[k]@,
            decreases self.log_buffer@.len() - i,
        {
            r.push(copy_entry(&self.log_buffer[i]));
            i += 1;
        }
        assert(entries_view(r@) =~= self@.entries);
        r
    }

    /// Clear the traffic buffer.
    pub fn clear(&mut self)
        ensures
            final(self)@ == (HttpDebuggerView { entries: Seq::empty(), ..old(self)@ }),
    {
        self.log_buffer.clear();
        assert(self@.entries =~= Seq::<TrafficEntryView>::empty());
    }

    /// All traffic as text: each entry's text, joined by line breaks.
    pub fn export(&self) -> (r: String)
        requires
            forall|i: int| 0 <= i < self@.entries.len() ==> entry_formattable(#[trigger] self@.entries[i]),
        ensures
            r@ == join_lines(self@.entries.map_values(|e: TrafficEntryView| entry_display(e))),
    {
        let ghost ts = self@.entries.map_values(|e: TrafficEntryView| entry_display(e));
        let mut out = String::new();
        let mut i: usize = 0;
        while i < self.log_buffer.len()
            invariant
                i <= self.log_buffer@.len(),
                ts == self@.entries.map_values(|e: TrafficEntryView| entry_display(e)),
                forall|k: int| 0 <= k < self@.entries.len() ==> entry_formattable(#[trigger] self@.entries[k]),
                out@ == join_lines(ts.take(i as int)),
            decreases self.log_buffer@.len() - i,
        {
            assert(self@.entries[i as int] == self.log_buffer@[i as int]@);
            let t = self.log_buffer[i].format();
            if i > 0 {
                push_char(&mut out, '\n');
            }
            out.append(t.as_str());
            assert(ts.take(i + 1).drop_last() =~= ts.take(i as int));
            assert(out@ =~= join_lines(ts.take(i + 1)));
            i += 1;
        }
        assert(ts.take(ts.len() as int) =~= ts);
        out
    }

    /// All traffic as text, or `None` where some entry cannot be written out.
    pub fn try_export(&self) -> (r: Option<String>)
        ensures
            r is Some <==> forall|i: int| 0 <= i < self@.entries.len() ==> entry_formattable(#[trigger] self@.entries[i]),
            r matches Some(t) ==> t@ == join_lines(self@.entries.map_values(|e: TrafficEntryView| entry_display(e))),
    {
        let mut i: usize = 0;
        while i < self.log_buffer.len()
            invariant
                i <= self.log_buffer@.len(),
                forall|k: int| 0 <= k < i ==> entry_formattable(#[trigger] self@.entries[k]),
            decreases self.log_buffer@.len() - i,
        {
            assert(self@.entries[i as int] == self.log_buffer@[i as int]@);
            if self.log_buffer[i].try_format().is_none() {
                return None;
            }
            i += 1;
        }
        Some(self.export())
    }
}

} // verus!

verus! {

/// A piece cut from a text without `c` holds no `c`.
proof fn lemma_split_pieces_avoid(s: Seq<char>, sep: char, c: char)
    requires
        forall|i: int| 0 <= i < s.len() ==> s[i] != c,
    ensures
        forall|k: int, i: int| 0 <= k < split_on(s, sep).len() && 0 <= i < split_on(s, sep)[k].len()
            ==> split_on(s, sep)[k][i] != c,
    decreases s.len(),
{
    if s.len() > 0 {
        lemma_split_pieces_avoid(s.drop_last(), sep, c);
        lemma_split_nonempty(s.drop_last(), sep);
        assert(s[s.len() - 1] != c);
    }
}

/// A redacted field, cut at `=`, is its name and `REDACTED`.
proof fn lemma_redacted_field_parts(name: Seq<char>)
    requires
        forall|i: int| 0 <= i < name.len() ==> name[i] != '=',
    ensures
        name + "=REDACTED"@ == name + seq!['='] + "REDACTED"@,
        split_on(name + "=REDACTED"@, '=') == seq![name, "REDACTED"@],
{
    reveal_strlit("=REDACTED");
    reveal_strlit("REDACTED");
    assert("=REDACTED"@ =~= seq!['='] + "REDACTED"@);
    assert(name + "=REDACTED"@ =~= name + seq!['='] + "REDACTED"@);
    lemma_split_append(name, "REDACTED"@, '=');
    lemma_split_whole_text(name, '=');
    assert(seq![name].push("REDACTED"@) =~= seq![name, "REDACTED"@]);
}

/// The fixed password field, cut at `=`, is `Password` and `REDACTED`.
proof fn lemma_password_field_parts()
    ensures
        "Password=REDACTED"@ == "Password"@ + "=REDACTED"@,
        split_on("Password=REDACTED"@, '=') == seq!["Password"@, "REDACTED"@],
{
    reveal_strlit("Password=REDACTED");
    reveal_strlit("Password");
    reveal_strlit("=REDACTED");
    assert("Password=REDACTED"@ =~= "Password"@ + "=REDACTED"@);
    lemma_redacted_field_parts("Password"@);
}

/// Redacting a form body keeps its fields, in order, each redacted on its own;
/// and no field of the result keeps a secret: a field whose name is one under
/// which secrets are kept has the value `REDACTED`.
pub proof fn lemma_form_redaction_hides_secrets(body: Seq<char>)
    ensures
        split_on(redact_form_text(body), '&') == split_on(body, '&').map_values(|p: Seq<char>| redact_field(p)),
        forall|i: int| 0 <= i < split_on(redact_form_text(body), '&').len() ==> {
            let f = #[trigger] split_on(redact_form_text(body), '&')[i];
            split_on(f, '=').len() > 1 && sensitive_key(split_on(f, '=')[0])
                ==> f == split_on(f, '=')[0] + "=REDACTED"@
        },
{
    let ps = split_on(body, '&');
    let mp = ps.map_values(|p: Seq<char>| redact_field(p));
    lemma_split_nonempty(body, '&');
    lemma_split_pieces_clean(body, '&');
    reveal_strlit("=REDACTED");
    assert forall|k: int| 0 <= k < mp.len() implies {
        &&& forall|i: int| 0 <= i < mp[k].len() ==> mp[k][i] != '&'
        &&& (split_on(mp[k], '=').len() > 1 && sensitive_key(split_on(mp[k], '=')[0])
            ==> mp[k] == split_on(mp[k], '=')[0] + "=REDACTED"@)
    } by {
        let p = ps[k];
        assert(forall|i: int| 0 <= i < p.len() ==> p[i] != '&');
        let parts = split_on(p, '=');
        if has_prefix(unicode_lowercase(p), "password="@) {
            lemma_password_field_parts();
            assert(mp[k] == "Password"@ + "=REDACTED"@);
            assert forall|i: int| 0 <= i < mp[k].len() implies mp[k][i] != '&' by {
                reveal_strlit("Password=REDACTED");
            }
        } else if parts.len() > 1 && sensitive_key(parts[0]) {
            lemma_split_pieces_avoid(p, '=', '&');
            lemma_split_pieces_clean(p, '=');
            let name = parts[0];
            assert(forall|i: int| 0 <= i < name.len() ==> name[i] != '=');
            lemma_redacted_field_parts(name);
            assert(mp[k] == name + "=REDACTED"@);
            assert forall|i: int| 0 <= i < mp[k].len() implies mp[k][i] != '&' by {
                if i < name.len() {
                    assert(mp[k][i] == name[i]);
                } else {
                    assert(mp[k][i] == "=REDACTED"@[i - name.len()]);
                }
            }
        } else {
            assert(mp[k] == p);
        }
    }
    assert forall|k: int, i: int| 0 <= k < mp.len() && 0 <= i < mp[k].len() implies mp[k][i] != '&' by {}
    lemma_split_join(mp, '&');
}

/// Without redaction, headers and bodies are captured as they are.
pub proof fn lemma_no_redaction_keeps_traffic(hs: Seq<(Seq<char>, Seq<char>)>, body: Seq<char>)
    ensures
        captured_headers(hs, false) == hs,
        captured_body(body, false) == body,
{
    assert(captured_headers(hs, false) =~= hs);
}

} // verus!
