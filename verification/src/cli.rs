//! The decisions of the `sauna` command line: reading times and modes, what a
//! command asks of the sauna, and what it reports back.
use vstd::prelude::*;
use vstd::string::*;
use crate::text::{
    chars_of, digit_char, lemma_split_append, lemma_split_whole_text, int_string, int_text, nat_text, pad2_string, pad2_text, split_on, split_text, str_eq,
    to_owned_string, unicode_lowercase, lowercase_str,
};
use crate::html::opt_text;
use crate::models::{SaunaMode, SaunaStatus, StatusCode};
use crate::profiles::{profile_new_spec, Profile, ProfileView, Profiles};
use crate::validate::is_ascii_digit;

verus! {

/// The value of a run of decimal digits.
pub open spec fn digits_value(d: Seq<char>) -> int
    decreases d.len(),
{
    if d.len() == 0 {
        0
    } else {
        digits_value(d.drop_last()) * 10 + (d.last() as int - '0' as int)
    }
}

/// Every character is a decimal digit.
pub open spec fn all_digits(d: Seq<char>) -> bool {
    forall|i: int| 0 <= i < d.len() ==> is_ascii_digit(#[trigger] d[i])
}

/// What `str::parse::<i32>` reads in a text: an optional `+` or `-`, then one or
/// more decimal digits, whose value must fit in an `i32`; `None` for anything else.
pub open spec fn i32_text_value(s: Seq<char>) -> Option<int> {
    let signed = s.len() > 0 && (s[0] == '-' || s[0] == '+');
    let d = if signed { s.drop_first() } else { s };
    let v = if s.len() > 0 && s[0] == '-' { -digits_value(d) } else { digits_value(d) };
    if d.len() > 0 && all_digits(d) && i32::MIN <= v <= i32::MAX {
        Some(v)
    } else {
        None
    }
}

/// A longer run of digits has at least the value of its start.
proof fn lemma_digits_monotone(d: Seq<char>, k: int)
    requires
        all_digits(d),
        0 <= k <= d.len(),
    ensures
        0 <= digits_value(d.take(k)) <= digits_value(d),
    decreases d.len(),
{
    if k == d.len() {
        assert(d.take(k) =~= d);
        if d.len() > 0 {
            lemma_digits_monotone(d.drop_last(), k - 1);
            assert(is_ascii_digit(d[d.len() - 1]));
        }
    } else {
        lemma_digits_monotone(d.drop_last(), k);
        assert(d.drop_last().take(k) =~= d.take(k));
        assert(is_ascii_digit(d[d.len() - 1]));
    }
}

/// The value of one decimal digit.
fn digit_value(c: char) -> (r: Option<i64>)
    ensures
        match r {
            Some(v) => is_ascii_digit(c) && v == c as int - '0' as int,
            None => !is_ascii_digit(c),
        },
{
    if c == '0' { Some(0) }
    else if c == '1' { Some(1) }
    else if c == '2' { Some(2) }
    else if c == '3' { Some(3) }
    else if c == '4' { Some(4) }
    else if c == '5' { Some(5) }
    else if c == '6' { Some(6) }
    else if c == '7' { Some(7) }
    else if c == '8' { Some(8) }
    else if c == '9' { Some(9) }
    else { None }
}

/// Read a decimal `i32` as `str::parse` does (see [`i32_text_value`]).
pub fn parse_i32(s: &str) -> (r: Option<i32>)
    ensures
        match r {
            Some(v) => i32_text_value(s@) == Some(v as int),
            None => i32_text_value(s@) is None,
        },
{
    let v = chars_of(s);
    let n = v.len();
    if n == 0 {
        return None;
    }
    let neg = v[0] == '-';
    let start: usize = if v[0] == '-' || v[0] == '+' { 1 } else { 0 };
    let ghost d = if start == 1 { s@.drop_first() } else { s@ };
    assert(d =~= v@.subrange(start as int, n as int));
    assert((s@.len() > 0 && (s@[0] == '-' || s@[0] == '+')) == (start == 1));
    if start >= n {
        return None;
    }
    let mut acc: i64 = 0;
    let mut i: usize = start;
    assert(v@.subrange(start as int, start as int) =~= Seq::<char>::empty());
    while i < n
        invariant
            start <= i <= n,
            n == v@.len(),
            v@ == s@,
            d == v@.subrange(start as int, n as int),
            d == (if start == 1 { s@.drop_first() } else { s@ }),
            (s@.len() > 0 && (s@[0] == '-' || s@[0] == '+')) == (start == 1),
            neg == (s@.len() > 0 && s@[0] == '-'),
            all_digits(v@.subrange(start as int, i as int)),
            acc == digits_value(v@.subrange(start as int, i as int)),
            0 <= acc <= 2147483648,
        decreases n - i,
    {
        let c = v[i];
        match digit_value(c) {
            None => {
                assert(d[i - start] == c);
                assert(!is_ascii_digit(d[i - start]));
                return None;
            },
            Some(dv) => {
                let ghost prev = v@.subrange(start as int, i as int);
                let ghost next = v@.subrange(start as int, i + 1);
                assert(next.drop_last() =~= prev);
                assert(next.last() == c);
                assert forall|k: int| 0 <= k < next.len() implies is_ascii_digit(#[trigger] next[k]) by {
                    if k < prev.len() {
                        assert(next[k] == prev[k]);
                    }
                }
                acc = acc * 10 + dv;
                assert(acc == digits_value(next));
                if acc > 2147483648 {
                    proof {
                        if all_digits(d) {
                            assert(d.take(i + 1 - start) =~= next);
                            lemma_digits_monotone(d, i + 1 - start);
                            assert(digits_value(d) > 2147483648);
                        }
                        assert(i32_text_value(s@) is None);
                    }
                    return None;
                }
            },
        }
        i += 1;
    }
    assert(v@.subrange(start as int, n as int) == d);
    if neg {
        Some((-acc) as i32)
    } else if acc <= 2147483647 {
        Some(acc as i32)
    } else {
        None
    }
}

} // verus!

verus! {

/// A result with its error text taken as characters.
pub open spec fn res_view<T>(r: Result<T, String>) -> Result<T, Seq<char>> {
    match r {
        Ok(v) => Ok(v),
        Err(e) => Err(e@),
    }
}

/// The message for a time that is not `HH:MM`.
pub open spec fn time_format_error(t: Seq<char>) -> Seq<char> {
    "Invalid time format '"@ + t + "'. Use HH:MM format (e.g., 18:30)"@
}

/// What a start time given as `HH:MM` reads as: the text cut at `:` must give two
/// pieces, each a decimal `i32` (the range of hours and minutes is the sauna's
/// to check).
pub open spec fn schedule_time_spec(t: Seq<char>) -> Result<(i32, i32), Seq<char>> {
    let parts = split_on(t, ':');
    if parts.len() != 2 {
        Err(time_format_error(t))
    } else {
        match i32_text_value(parts[0]) {
            None => Err("Invalid hour: "@ + parts[0]),
            Some(h) => match i32_text_value(parts[1]) {
                None => Err("Invalid minute: "@ + parts[1]),
                Some(m) => Ok((h as i32, m as i32)),
            },
        }
    }
}

/// Read a start time given as `HH:MM` (see [`schedule_time_spec`]).
pub fn parse_schedule_time(text: &str) -> (r: Result<(i32, i32), String>)
    ensures
        res_view(r) == schedule_time_spec(text@),
{
    let parts = split_text(text, ':');
    let ghost ps = split_on(text@, ':');
    assert(parts@.len() == ps.len());
    if parts.len() != 2 {
        let mut msg = to_owned_string("Invalid time format '");
        msg.append(text);
        msg.append("'. Use HH:MM format (e.g., 18:30)");
        return Err(msg);
    }
    assert(parts@[0]@ == ps[0] && parts@[1]@ == ps[1]);
    let hour = match parse_i32(parts[0].as_str()) {
        Some(h) => h,
        None => {
            let mut msg = to_owned_string("Invalid hour: ");
            msg.append(parts[0].as_str());
            return Err(msg);
        },
    };
    let minute = match parse_i32(parts[1].as_str()) {
        Some(m) => m,
        None => {
            let mut msg = to_owned_string("Invalid minute: ");
            msg.append(parts[1].as_str());
            return Err(msg);
        },
    };
    Ok((hour, minute))
}

/// The message when no sauna is named and none is the default.
pub open spec fn no_sauna_id_text() -> Seq<char> {
    "No sauna ID provided. Use --sauna-id or set a default with 'klafs config --sauna-id <ID>'"@
}

/// The sauna a command is for: the one named, else the configured default.
pub fn resolve_sauna_id(given: Option<String>, default: Option<String>) -> (r: Result<String, String>)
    ensures
        match (given, default) {
            (Some(g), _) => r matches Ok(s) && s@ == g@,
            (None, Some(d)) => r matches Ok(s) && s@ == d@,
            (None, None) => r matches Err(e) && e@ == no_sauna_id_text(),
        },
{
    match given {
        Some(g) => Ok(g),
        None => match default {
            Some(d) => Ok(d),
            None => Err(to_owned_string(
                "No sauna ID provided. Use --sauna-id or set a default with 'klafs config --sauna-id <ID>'",
            )),
        },
    }
}

/// The mode a name on the command line stands for, in any letter case:
/// `sauna`, `sanarium`, or `infrared` (also `ir`).
pub open spec fn mode_name_spec(mode: Seq<char>) -> Result<SaunaMode, Seq<char>> {
    let l = unicode_lowercase(mode);
    if l == "sauna"@ {
        Ok(SaunaMode::Sauna)
    } else if l == "sanarium"@ {
        Ok(SaunaMode::Sanarium)
    } else if l == "infrared"@ || l == "ir"@ {
        Ok(SaunaMode::Infrared)
    } else {
        Err("Invalid mode '"@ + mode + "'. Use: sauna, sanarium, or infrared"@)
    }
}

/// Read a mode named on the command line (see [`mode_name_spec`]).
pub fn parse_mode_name(mode: &str) -> (r: Result<SaunaMode, String>)
    ensures
        res_view(r) == mode_name_spec(mode@),
{
    let l = lowercase_str(mode);
    if str_eq(l.as_str(), "sauna") {
        Ok(SaunaMode::Sauna)
    } else if str_eq(l.as_str(), "sanarium") {
        Ok(SaunaMode::Sanarium)
    } else if str_eq(l.as_str(), "infrared") || str_eq(l.as_str(), "ir") {
        Ok(SaunaMode::Infrared)
    } else {
        let mut msg = to_owned_string("Invalid mode '");
        msg.append(mode);
        msg.append("'. Use: sauna, sanarium, or infrared");
        Err(msg)
    }
}

/// The mode a saved profile names: exactly `sauna`, `sanarium` or `infrared`.
pub open spec fn profile_mode_spec(mode: Seq<char>) -> Result<SaunaMode, Seq<char>> {
    if mode == "sauna"@ {
        Ok(SaunaMode::Sauna)
    } else if mode == "sanarium"@ {
        Ok(SaunaMode::Sanarium)
    } else if mode == "infrared"@ {
        Ok(SaunaMode::Infrared)
    } else {
        Err("Invalid mode in profile: "@ + mode)
    }
}

/// Read the mode of a saved profile (see [`profile_mode_spec`]).
pub fn profile_mode(mode: &str) -> (r: Result<SaunaMode, String>)
    ensures
        res_view(r) == profile_mode_spec(mode@),
{
    if str_eq(mode, "sauna") {
        Ok(SaunaMode::Sauna)
    } else if str_eq(mode, "sanarium") {
        Ok(SaunaMode::Sanarium)
    } else if str_eq(mode, "infrared") {
        Ok(SaunaMode::Infrared)
    } else {
        let mut msg = to_owned_string("Invalid mode in profile: ");
        msg.append(mode);
        Err(msg)
    }
}

/// What the schedule command asks for: `--clear` with no time clears, a time
/// sets it, and nothing at all clears too.
pub open spec fn schedule_request_spec(time: Option<Seq<char>>, clear: bool) -> Result<Option<(i32, i32)>, Seq<char>> {
    if clear {
        if time is Some {
            Err("Cannot use --clear with a time argument"@)
        } else {
            Ok(None)
        }
    } else {
        match time {
            Some(t) => match schedule_time_spec(t) {
                Ok(p) => Ok(Some(p)),
                Err(e) => Err(e),
            },
            None => Ok(None),
        }
    }
}

/// The abstract value of an optional text.
pub open spec fn opt_chars(o: Option<&str>) -> Option<Seq<char>> {
    match o {
        Some(s) => Some(s@),
        None => None,
    }
}

/// Read what the schedule command asks for (see [`schedule_request_spec`]).
pub fn schedule_request(time: Option<&str>, clear: bool) -> (r: Result<Option<(i32, i32)>, String>)
    ensures
        res_view(r) == schedule_request_spec(opt_chars(time), clear),
{
    if clear {
        if time.is_some() {
            return Err(to_owned_string("Cannot use --clear with a time argument"));
        }
        Ok(None)
    } else {
        match time {
            Some(t) => match parse_schedule_time(t) {
                Ok(p) => Ok(Some(p)),
                Err(e) => Err(e),
            },
            None => Ok(None),
        }
    }
}

/// Texts joined with `sep` between each two.
pub open spec fn join_texts_with(ps: Seq<Seq<char>>, sep: Seq<char>) -> Seq<char>
    decreases ps.len(),
{
    if ps.len() == 0 {
        Seq::empty()
    } else if ps.len() == 1 {
        ps[0]
    } else {
        join_texts_with(ps.drop_last(), sep) + sep + ps.last()
    }
}

/// The changes a configure command describes, in order.
pub open spec fn change_list(temp: Option<i32>, humidity: Option<i32>, time: Option<(i32, i32)>) -> Seq<Seq<char>> {
    (match temp {
        Some(t) => seq!["temperature "@ + int_text(t as int) + "°C"@],
        None => Seq::empty(),
    }) + (match humidity {
        Some(h) => seq!["humidity level "@ + int_text(h as int)],
        None => Seq::empty(),
    }) + (match time {
        Some((h, m)) => seq!["start time "@ + pad2_text(h as int) + ":"@ + pad2_text(m as int)],
        None => Seq::empty(),
    })
}

/// What a configure command asks for: the start time it names, and the
/// description of its changes; refused when the time does not read or when no
/// change is asked for.
pub open spec fn configure_spec(temp: Option<i32>, humidity: Option<i32>, time: Option<Seq<char>>) -> Result<(Option<(i32, i32)>, Seq<char>), Seq<char>> {
    let parsed = match time {
        Some(t) => match schedule_time_spec(t) {
            Ok(p) => Ok(Some(p)),
            Err(e) => Err(e),
        },
        None => Ok(None),
    };
    match parsed {
        Err(e) => Err(e),
        Ok(tm) => if temp is None && humidity is None && tm is None {
            Err("No configuration options provided. Use --temp, --humidity, or --time."@)
        } else {
            Ok((tm, join_texts_with(change_list(temp, humidity, tm), ", "@)))
        },
    }
}

fn push_change(changes: &mut String, count: usize, change: &str)
    requires
        count < usize::MAX,
    ensures
        final(changes)@ == (if count == 0 { change@ } else { old(changes)@ + ", "@ + change@ }),
{
    if count == 0 {
        *changes = to_owned_string(change);
    } else {
        changes.append(", ");
        changes.append(change);
    }
}

/// Read what a configure command asks for (see [`configure_spec`]).
pub fn configure_request(temp: Option<i32>, humidity: Option<i32>, time: Option<&str>) -> (r: Result<(Option<(i32, i32)>, String), String>)
    ensures
        match r {
            Ok((tm, d)) => configure_spec(temp, humidity, opt_chars(time)) == Ok::<(Option<(i32, i32)>, Seq<char>), Seq<char>>((tm, d@)),
            Err(e) => configure_spec(temp, humidity, opt_chars(time)) == Err::<(Option<(i32, i32)>, Seq<char>), Seq<char>>(e@),
        },
{
    let tm = match time {
        Some(t) => match parse_schedule_time(t) {
            Ok(p) => Some(p),
            Err(e) => return Err(e),
        },
        None => None,
    };
    if temp.is_none() && humidity.is_none() && tm.is_none() {
        return Err(to_owned_string("No configuration options provided. Use --temp, --humidity, or --time."));
    }
    let ghost list = change_list(temp, humidity, tm);
    let mut text = String::new();
    let mut count: usize = 0;
    let ghost mut done: Seq<Seq<char>> = Seq::empty();
    if let Some(t) = temp {
        let mut c = to_owned_string("temperature ");
        let n = int_string(t as i64);
        c.append(n.as_str());
        c.append("°C");
        push_change(&mut text, count, c.as_str());
        proof {
            done = done.push(c@);
        }
        count += 1;
    }
    assert(text@ == join_texts_with(done, ", "@)) by {
        if done.len() == 1 {
            assert(done[0] == text@);
        }
    }
    if let Some(h) = humidity {
        let mut c = to_owned_string("humidity level ");
        let n = int_string(h as i64);
        c.append(n.as_str());
        let ghost before = done;
        push_change(&mut text, count, c.as_str());
        proof {
            done = done.push(c@);
            assert(done.drop_last() =~= before);
        }
        count += 1;
    }
    assert(text@ == join_texts_with(done, ", "@));
    if let Some((h, m)) = tm {
        let mut c = to_owned_string("start time ");
        let hs = pad2_string(h as i64);
        c.append(hs.as_str());
        c.append(":");
        let ms = pad2_string(m as i64);
        c.append(ms.as_str());
        let ghost before = done;
        push_change(&mut text, count, c.as_str());
        proof {
            done = done.push(c@);
            assert(done.drop_last() =~= before);
        }
        count += 1;
    }
    assert(done =~= list);
    Ok((tm, text))
}

/// The message for an empty user name.
pub open spec fn empty_username_text() -> Seq<char> {
    "Username cannot be empty"@
}

/// The message for an empty password.
pub open spec fn empty_password_text() -> Seq<char> {
    "Password cannot be empty"@
}

/// Credentials are refused when the user name, or else the password, is empty.
pub fn check_credentials(username: &str, password: &str) -> (r: Result<(), String>)
    ensures
        username@.len() == 0 ==> (r matches Err(e) && e@ == empty_username_text()),
        username@.len() > 0 && password@.len() == 0 ==> (r matches Err(e) && e@ == empty_password_text()),
        username@.len() > 0 && password@.len() > 0 ==> r is Ok,
{
    if username.is_empty() {
        return Err(to_owned_string("Username cannot be empty"));
    }
    if password.is_empty() {
        return Err(to_owned_string("Password cannot be empty"));
    }
    Ok(())
}

/// Whether the sauna with this ID is the configured default.
pub fn is_default_sauna(default_id: Option<&str>, id: &str) -> (r: bool)
    ensures
        r == (default_id matches Some(d) && d@ == id@),
{
    match default_id {
        Some(d) => str_eq(d, id),
        None => false,
    }
}

} // verus!

verus! {

/// How a reported value is shown.
#[derive(Debug, Clone, Copy, PartialEq, Eq, Structural)]
pub enum Tone {
    Plain,
    Heading,
    Dimmed,
    Green,
    GreenBold,
    Red,
    Yellow,
    Blue,
    Cyan,
    Magenta,
    WhiteBold,
}

/// One line of a report: a label, a value shown in a tone, and a suffix.
#[derive(Debug)]
pub struct ReportLine {
    pub label: String,
    pub value: String,
    pub tone: Tone,
    pub suffix: String,
}

/// The abstract value of a [`ReportLine`].
pub struct ReportLineView {
    pub label: Seq<char>,
    pub value: Seq<char>,
    pub tone: Tone,
    pub suffix: Seq<char>,
}

impl View for ReportLine {
    type V = ReportLineView;

    open spec fn view(&self) -> ReportLineView {
        ReportLineView { label: self.label@, value: self.value@, tone: self.tone, suffix: self.suffix@ }
    }
}

/// The abstract value of a list of report lines.
pub open spec fn lines_view(v: Seq<ReportLine>) -> Seq<ReportLineView> {
    v.map_values(|l: ReportLine| l@)
}

/// A report line.
pub open spec fn line(label: Seq<char>, value: Seq<char>, tone: Tone, suffix: Seq<char>) -> ReportLineView {
    ReportLineView { label, value, tone, suffix }
}

/// An empty line.
pub open spec fn blank_line() -> ReportLineView {
    line(Seq::empty(), Seq::empty(), Tone::Plain, Seq::empty())
}

/// How a status is shown.
pub open spec fn status_tone(s: StatusCode) -> Tone {
    match s {
        StatusCode::Off => Tone::Dimmed,
        StatusCode::HeatingUp => Tone::Yellow,
        StatusCode::Ready => Tone::GreenBold,
        StatusCode::Standby => Tone::Blue,
        StatusCode::Unknown(_) => Tone::Plain,
    }
}

/// The name of the selected mode.
pub open spec fn mode_label(m: Option<SaunaMode>) -> Seq<char> {
    match m {
        Some(SaunaMode::Sauna) => "Sauna"@,
        Some(SaunaMode::Sanarium) => "Sanarium"@,
        Some(SaunaMode::Infrared) => "Infrared"@,
        None => "None"@,
    }
}

/// How the selected mode is shown.
pub open spec fn mode_tone(m: Option<SaunaMode>) -> Tone {
    match m {
        Some(SaunaMode::Sauna) => Tone::Cyan,
        Some(SaunaMode::Sanarium) => Tone::Magenta,
        Some(SaunaMode::Infrared) => Tone::Yellow,
        None => Tone::Dimmed,
    }
}

/// The opening of the status report: heading, connection, power, status, and
/// "Ready for use!" when it is.
pub open spec fn report_head(s: SaunaStatus) -> Seq<ReportLineView> {
    let code = StatusCode::from_code_spec(s.status_code);
    seq![
        line(Seq::empty(), "Sauna Status"@, Tone::Heading, Seq::empty()),
        blank_line(),
        line("  Connection:     "@, if s.is_connected { "Connected"@ } else { "Disconnected"@ },
            if s.is_connected { Tone::Green } else { Tone::Red }, Seq::empty()),
        line("  Power:          "@, if s.is_powered_on { "On"@ } else { "Off"@ },
            if s.is_powered_on { Tone::GreenBold } else { Tone::Dimmed }, Seq::empty()),
        line("  Status:         "@, code.name_text(), status_tone(code), Seq::empty()),
    ] + (if s.is_ready_for_use {
        seq![line("                  "@, "Ready for use!"@, Tone::GreenBold, Seq::empty())]
    } else {
        Seq::empty()
    })
}

/// The mode and temperature lines of the status report.
pub open spec fn report_mode(s: SaunaStatus) -> Seq<ReportLineView> {
    let mode = s.current_mode_spec();
    seq![
        blank_line(),
        line("  Mode:           "@, mode_label(mode), mode_tone(mode), Seq::empty()),
        line("  Current Temp:   "@, int_text(s.current_temperature as int), Tone::WhiteBold, "°C"@),
        line("  Target Temp:    "@, int_text(s.target_temperature_spec() as int), Tone::Cyan, "°C"@),
    ]
}

/// The humidity lines of the status report, in sanarium mode.
pub open spec fn report_humidity(s: SaunaStatus) -> Seq<ReportLineView> {
    if s.sanarium_selected {
        seq![
            line("  Current Humid:  "@, int_text(s.current_humidity as int), Tone::WhiteBold, "%"@),
            line("  Target Humid:   Level "@, int_text(s.selected_hum_level as int), Tone::Cyan, Seq::empty()),
        ]
    } else {
        Seq::empty()
    }
}

/// The remaining-time lines, while the bath is on or its hours are shown.
pub open spec fn report_timer(s: SaunaStatus) -> Seq<ReportLineView> {
    if s.show_bathing_hour || s.is_powered_on {
        seq![blank_line(), line("  Remaining Time: "@, s.remaining_time_text(), Tone::Yellow, Seq::empty())]
    } else {
        Seq::empty()
    }
}

/// The scheduled start line, when one is set.
pub open spec fn report_schedule(s: SaunaStatus) -> Seq<ReportLineView> {
    if s.selected_hour > 0 || s.selected_minute > 0 {
        seq![line("  Scheduled:      "@, pad2_text(s.selected_hour as int) + ":"@ + pad2_text(s.selected_minute as int),
            Tone::Plain, Seq::empty())]
    } else {
        Seq::empty()
    }
}

/// The status report, then an empty line.
pub open spec fn status_report_spec(s: SaunaStatus) -> Seq<ReportLineView> {
    report_head(s) + report_mode(s) + report_humidity(s) + report_timer(s) + report_schedule(s) + seq![blank_line()]
}

fn push_line(out: &mut Vec<ReportLine>, label: &str, value: String, tone: Tone, suffix: &str)
    ensures
        lines_view(final(out)@) == lines_view(old(out)@).push(line(label@, value@, tone, suffix@)),
{
    out.push(ReportLine { label: to_owned_string(label), value, tone, suffix: to_owned_string(suffix) });
    assert(lines_view(out@) =~= lines_view(old(out)@).push(line(label@, value@, tone, suffix@)));
}

proof fn lemma_empty_literal()
    ensures
        ""@ == Seq::<char>::empty(),
{
    reveal_strlit("");
    assert(""@ =~= Seq::<char>::empty());
}

fn push_blank(out: &mut Vec<ReportLine>)
    ensures
        lines_view(final(out)@) == lines_view(old(out)@).push(blank_line()),
{
    push_line(out, "", String::new(), Tone::Plain, "");
    proof {
        lemma_empty_literal();
    }
}

fn push_report_head(out: &mut Vec<ReportLine>, s: &SaunaStatus)
    ensures
        lines_view(final(out)@) == lines_view(old(out)@) + report_head(*s),
{
    let ghost start = lines_view(out@);
    proof {
        lemma_empty_literal();
    }
    let code = s.status();
    push_line(out, "", to_owned_string("Sauna Status"), Tone::Heading, "");
    push_blank(out);
    push_line(out, "  Connection:     ",
        to_owned_string(if s.is_connected { "Connected" } else { "Disconnected" }),
        if s.is_connected { Tone::Green } else { Tone::Red }, "");
    push_line(out, "  Power:          ", to_owned_string(if s.is_powered_on { "On" } else { "Off" }),
        if s.is_powered_on { Tone::GreenBold } else { Tone::Dimmed }, "");
    let tone = match code {
        StatusCode::Off => Tone::Dimmed,
        StatusCode::HeatingUp => Tone::Yellow,
        StatusCode::Ready => Tone::GreenBold,
        StatusCode::Standby => Tone::Blue,
        StatusCode::Unknown(_) => Tone::Plain,
    };
    push_line(out, "  Status:         ", code.display(), tone, "");
    if s.is_ready_for_use {
        push_line(out, "                  ", to_owned_string("Ready for use!"), Tone::GreenBold, "");
    }
    assert(lines_view(out@) =~= start + report_head(*s));
}

fn push_report_mode(out: &mut Vec<ReportLine>, s: &SaunaStatus)
    ensures
        lines_view(final(out)@) == lines_view(old(out)@) + report_mode(*s),
{
    let ghost start = lines_view(out@);
    proof {
        lemma_empty_literal();
    }
    let mode = s.current_mode();
    push_blank(out);
    let (label, mtone) = match mode {
        Some(SaunaMode::Sauna) => ("Sauna", Tone::Cyan),
        Some(SaunaMode::Sanarium) => ("Sanarium", Tone::Magenta),
        Some(SaunaMode::Infrared) => ("Infrared", Tone::Yellow),
        None => ("None", Tone::Dimmed),
    };
    push_line(out, "  Mode:           ", to_owned_string(label), mtone, "");
    push_line(out, "  Current Temp:   ", int_string(s.current_temperature as i64), Tone::WhiteBold, "°C");
    push_line(out, "  Target Temp:    ", int_string(s.target_temperature() as i64), Tone::Cyan, "°C");
    assert(lines_view(out@) =~= start + report_mode(*s));
}

fn push_report_tail(out: &mut Vec<ReportLine>, s: &SaunaStatus)
    ensures
        lines_view(final(out)@) == lines_view(old(out)@) + report_humidity(*s) + report_timer(*s)
            + report_schedule(*s) + seq![blank_line()],
{
    let ghost start = lines_view(out@);
    proof {
        lemma_empty_literal();
    }
    if s.sanarium_selected {
        push_line(out, "  Current Humid:  ", int_string(s.current_humidity as i64), Tone::WhiteBold, "%");
        push_line(out, "  Target Humid:   Level ", int_string(s.selected_hum_level as i64), Tone::Cyan, "");
    }
    assert(lines_view(out@) =~= start + report_humidity(*s));
    let ghost mid = lines_view(out@);
    if s.show_bathing_hour || s.is_powered_on {
        push_blank(out);
        push_line(out, "  Remaining Time: ", s.remaining_time(), Tone::Yellow, "");
    }
    assert(lines_view(out@) =~= mid + report_timer(*s));
    let ghost mid2 = lines_view(out@);
    if s.selected_hour > 0 || s.selected_minute > 0 {
        let mut t = pad2_string(s.selected_hour as i64);
        t.append(":");
        let m = pad2_string(s.selected_minute as i64);
        t.append(m.as_str());
        push_line(out, "  Scheduled:      ", t, Tone::Plain, "");
    }
    assert(lines_view(out@) =~= mid2 + report_schedule(*s));
    let ghost mid3 = lines_view(out@);
    push_blank(out);
    assert(lines_view(out@) =~= mid3 + seq![blank_line()]);
}

/// The report of a sauna's status (see [`status_report_spec`]).
pub fn status_report(s: &SaunaStatus) -> (r: Vec<ReportLine>)
    ensures
        lines_view(r@) == status_report_spec(*s),
{
    let mut out: Vec<ReportLine> = Vec::new();
    assert(lines_view(out@) =~= Seq::<ReportLineView>::empty());
    push_report_head(&mut out, s);
    push_report_mode(&mut out, s);
    push_report_tail(&mut out, s);
    proof {
        let a = report_head(*s);
        let b = report_mode(*s);
        let c = report_humidity(*s);
        let d = report_timer(*s);
        let e = report_schedule(*s);
        let f = seq![blank_line()];
        assert(Seq::<ReportLineView>::empty() + a =~= a);
        assert((a + b) + c + d + e + f =~= a + b + c + d + e + f);
    }
    out
}

/// The command line's settings: the account and the default sauna.
#[derive(Debug, Clone)]
pub struct Config {
    /// Email/username for the Klafs account.
    pub username: Option<String>,
    /// Default sauna ID to use.
    pub sauna_id: Option<String>,
}

impl Default for Config {
    fn default() -> (r: Self)
        ensures
            r.username is None,
            r.sauna_id is None,
    {
        Config { username: None, sauna_id: None }
    }
}

/// What a configuration command changes: the default sauna, and the sauna for
/// which a PIN is stored.
#[derive(Debug)]
pub struct ConfigChange {
    /// The default sauna after the change.
    pub sauna_id: Option<String>,
    /// The sauna whose PIN is stored, if a PIN was given.
    pub pin_sauna_id: Option<String>,
    /// Whether anything changes (the configuration is then saved).
    pub changed: bool,
}

/// The message when a PIN is given before any sauna is.
pub open spec fn pin_needs_sauna_text() -> Seq<char> {
    "Set a sauna ID first with --sauna-id"@
}

/// What a configuration command changes: a new default sauna replaces the
/// current one; a PIN is stored for the default sauna, and is refused when
/// there is none.
pub fn config_change(current: Option<String>, sauna_id: Option<String>, pin_given: bool) -> (r: Result<ConfigChange, String>)
    ensures
        match r {
            Ok(c) => {
                &&& opt_text(c.sauna_id) == (if sauna_id is Some { opt_text(sauna_id) } else { opt_text(current) })
                &&& opt_text(c.pin_sauna_id) == (if pin_given { opt_text(c.sauna_id) } else { None })
                &&& c.changed == (sauna_id is Some || pin_given)
            },
            Err(e) => pin_given && sauna_id is None && current is None && e@ == pin_needs_sauna_text(),
        },
        pin_given && sauna_id is None && current is None ==> r is Err,
{
    let changed = sauna_id.is_some() || pin_given;
    let sid = match sauna_id {
        Some(s) => Some(s),
        None => current,
    };
    if pin_given {
        match sid {
            Some(s) => {
                let p = s.clone();
                Ok(ConfigChange { sauna_id: Some(s), pin_sauna_id: Some(p), changed })
            },
            None => Err(to_owned_string("Set a sauna ID first with --sauna-id")),
        }
    } else {
        Ok(ConfigChange { sauna_id: sid, pin_sauna_id: None, changed })
    }
}

} // verus!

verus! {

/// The message for a profile name already taken.
pub open spec fn profile_exists_text(name: Seq<char>) -> Seq<char> {
    "Profile '"@ + name + "' already exists. Delete it first or use a different name."@
}

/// The message for a profile name not found.
pub open spec fn profile_not_found_text(name: Seq<char>) -> Seq<char> {
    "Profile '"@ + name + "' not found"@
}

fn copy_profile(p: &Profile) -> (r: Profile)
    ensures
        r@ == p@,
{
    Profile { mode: p.mode.clone(), temperature: p.temperature, humidity: p.humidity }
}

fn not_found(name: &str) -> (r: String)
    ensures
        r@ == profile_not_found_text(name@),
{
    let mut msg = to_owned_string("Profile '");
    msg.append(name);
    msg.append("' not found");
    msg
}

/// Create and save a profile under a new name: refused when the name is taken
/// or the settings are (see [`profile_new_spec`]); the collection changes only
/// when the profile is made.
pub fn create_profile(profiles: &mut Profiles, name: &str, mode: &str, temperature: i32, humidity: Option<i32>) -> (r: Result<Profile, String>)
    ensures
        old(profiles)@.contains_key(name@) ==> (r matches Err(e) && e@ == profile_exists_text(name@)),
        !old(profiles)@.contains_key(name@) ==> match profile_new_spec(mode@, temperature, humidity) {
            Ok(p) => r matches Ok(q) && q@ == p,
            Err(m) => r matches Err(e) && e@ == m,
        },
        match r {
            Ok(q) => final(profiles)@ == old(profiles)@.insert(name@, q@),
            Err(_) => final(profiles)@ == old(profiles)@,
        },
{
    if profiles.contains(name) {
        let mut msg = to_owned_string("Profile '");
        msg.append(name);
        msg.append("' already exists. Delete it first or use a different name.");
        return Err(msg);
    }
    match Profile::new(mode, temperature, humidity) {
        Ok(p) => {
            profiles.set(name, copy_profile(&p));
            Ok(p)
        },
        Err(e) => Err(e),
    }
}

/// The profile saved under a name.
pub fn find_profile<'a>(profiles: &'a Profiles, name: &str) -> (r: Result<&'a Profile, String>)
    ensures
        profiles@.contains_key(name@) ==> (r matches Ok(p) && p@ == profiles@[name@]),
        !profiles@.contains_key(name@) ==> (r matches Err(e) && e@ == profile_not_found_text(name@)),
{
    match profiles.get(name) {
        Some(p) => Ok(p),
        None => Err(not_found(name)),
    }
}

/// Delete the profile saved under a name; refused when there is none.
pub fn delete_profile(profiles: &mut Profiles, name: &str) -> (r: Result<Profile, String>)
    ensures
        final(profiles)@ == old(profiles)@.remove(name@),
        old(profiles)@.contains_key(name@) ==> (r matches Ok(p) && p@ == old(profiles)@[name@]),
        !old(profiles)@.contains_key(name@) ==> (r matches Err(e) && e@ == profile_not_found_text(name@)),
{
    match profiles.remove(name) {
        Some(p) => Ok(p),
        None => Err(not_found(name)),
    }
}

/// What applying a profile asks of the sauna: its mode, then its temperature,
/// humidity level (0 when it has none) and infrared level (0).
pub open spec fn apply_plan_spec(p: ProfileView) -> Result<(SaunaMode, i32, i32, i32), Seq<char>> {
    match profile_mode_spec(p.mode) {
        Ok(m) => Ok((m, p.temperature, match p.humidity { Some(h) => h, None => 0 }, 0)),
        Err(e) => Err(e),
    }
}

/// What applying a profile asks of the sauna (see [`apply_plan_spec`]).
pub fn apply_plan(profile: &Profile) -> (r: Result<(SaunaMode, i32, i32, i32), String>)
    ensures
        res_view(r) == apply_plan_spec(profile@),
{
    match profile_mode(profile.mode.as_str()) {
        Ok(m) => {
            let humidity = match profile.humidity {
                Some(h) => h,
                None => 0,
            };
            Ok((m, profile.temperature, humidity, 0))
        },
        Err(e) => Err(e),
    }
}

} // verus!

verus! {

/// A profile that creation accepts can always be applied: its mode reads back as
/// the sauna mode it names, and the sauna is asked for its temperature, its
/// humidity (0 when it has none) and no infrared level.
pub proof fn lemma_created_profile_applies(mode: Seq<char>, temperature: i32, humidity: Option<i32>)
    requires
        profile_new_spec(mode, temperature, humidity) is Ok,
    ensures
        ({
            let p = profile_new_spec(mode, temperature, humidity)->Ok_0;
            let m = if p.mode == "sauna"@ { SaunaMode::Sauna } else { SaunaMode::Sanarium };
            apply_plan_spec(p) == Ok::<(SaunaMode, i32, i32, i32), Seq<char>>(
                (m, temperature, match humidity { Some(h) => h, None => 0 }, 0),
            )
        }),
{
    reveal_strlit("sauna");
    reveal_strlit("sanarium");
    assert("sauna"@ != "sanarium"@) by {
        assert("sauna"@.len() != "sanarium"@.len());
    }
}

} // verus!

verus! {

proof fn lemma_digit_char(d: int)
    requires
        0 <= d < 10,
    ensures
        is_ascii_digit(digit_char(d)),
        digit_char(d) as int - '0' as int == d,
        digit_char(d) != ':',
{
}

/// The value of digits followed by one more digit.
proof fn lemma_digits_push(t: Seq<char>, c: char)
    ensures
        digits_value(t.push(c)) == digits_value(t) * 10 + (c as int - '0' as int),
{
    assert(t.push(c).drop_last() =~= t);
    assert(t.push(c).last() == c);
}

/// The decimal text of a number reads back as that number.
proof fn lemma_nat_text_value(n: nat)
    ensures
        nat_text(n).len() > 0,
        all_digits(nat_text(n)),
        digits_value(nat_text(n)) == n,
    decreases n,
{
    if n < 10 {
        lemma_digit_char(n as int);
        let c = digit_char(n as int);
        assert(seq![c] =~= Seq::<char>::empty().push(c));
        lemma_digits_push(Seq::<char>::empty(), c);
        assert(digits_value(Seq::<char>::empty()) == 0);
    } else {
        lemma_nat_text_value(n / 10);
        lemma_digit_char((n % 10) as int);
        let t = nat_text(n / 10);
        let c = digit_char((n % 10) as int);
        let s = t.push(c);
        lemma_digits_push(t, c);
        assert((n / 10) * 10 + n % 10 == n);
        assert forall|i: int| 0 <= i < s.len() implies is_ascii_digit(#[trigger] s[i]) by {
            if i < t.len() {
                assert(s[i] == t[i]);
            }
        }
    }
}

/// A number written with two-digit padding reads back as that number, and its
/// text holds no `:`.
proof fn lemma_pad2_value(n: int)
    requires
        i32::MIN <= n <= i32::MAX,
    ensures
        forall|i: int| 0 <= i < pad2_text(n).len() ==> pad2_text(n)[i] != ':',
        i32_text_value(pad2_text(n)) == Some(n),
{
    let t = pad2_text(n);
    if 0 <= n < 10 {
        lemma_digit_char(n);
        let c = digit_char(n);
        assert(t =~= Seq::<char>::empty().push('0').push(c));
        lemma_digits_push(Seq::<char>::empty(), '0');
        lemma_digits_push(Seq::<char>::empty().push('0'), c);
        assert(digits_value(Seq::<char>::empty()) == 0);
        assert(is_ascii_digit(t[0]) && is_ascii_digit(t[1]));
        assert(t[0] != '-' && t[0] != '+');
    } else if n >= 10 {
        lemma_nat_text_value(n as nat);
        assert(is_ascii_digit(t[0]));
        assert(t[0] != '-' && t[0] != '+');
        assert forall|i: int| 0 <= i < t.len() implies t[i] != ':' by {
            assert(is_ascii_digit(t[i]));
        }
    } else {
        let d = nat_text((-n) as nat);
        lemma_nat_text_value((-n) as nat);
        assert(t == seq!['-'] + d);
        assert(t.drop_first() =~= d);
        assert forall|i: int| 0 <= i < t.len() implies t[i] != ':' by {
            if i > 0 {
                assert(t[i] == d[i - 1]);
                assert(is_ascii_digit(d[i - 1]));
            }
        }
    }
}

/// Two texts without `sep`, joined by it, are cut back into the two.
proof fn lemma_split_pair(a: Seq<char>, b: Seq<char>, sep: char)
    requires
        forall|i: int| 0 <= i < a.len() ==> a[i] != sep,
        forall|i: int| 0 <= i < b.len() ==> b[i] != sep,
    ensures
        split_on(a + seq![sep] + b, sep) == seq![a, b],
{
    lemma_split_append(a, b, sep);
    lemma_split_whole_text(a, sep);
    assert(seq![a].push(b) =~= seq![a, b]);
}

/// A time written as the command line writes it, `{:02}:{:02}`, reads back as
/// the same hour and minute.
pub proof fn lemma_schedule_time_round_trip(hour: i32, minute: i32)
    ensures
        schedule_time_spec(pad2_text(hour as int) + ":"@ + pad2_text(minute as int)) == Ok::<(i32, i32), Seq<char>>((hour, minute)),
{
    reveal_strlit(":");
    let a = pad2_text(hour as int);
    let b = pad2_text(minute as int);
    lemma_pad2_value(hour as int);
    lemma_pad2_value(minute as int);
    assert(a + ":"@ + b =~= a + seq![':'] + b);
    lemma_split_pair(a, b, ':');
}

} // verus!

verus! {

/// The status report tells a connected sauna from a disconnected one, and a
/// powered one from one that is off: its connection line reads `Connected`
/// exactly when the sauna is connected (`Disconnected` otherwise), its power
/// line reads `On` exactly when the sauna is powered (`Off` otherwise), and its
/// status line names the status the API number stands for.
pub proof fn lemma_report_connection_and_power(s: SaunaStatus)
    ensures
        status_report_spec(s).len() > 4,
        status_report_spec(s)[2].label == "  Connection:     "@,
        (status_report_spec(s)[2].value == "Connected"@) == s.is_connected,
        !s.is_connected ==> status_report_spec(s)[2].value == "Disconnected"@,
        status_report_spec(s)[3].label == "  Power:          "@,
        (status_report_spec(s)[3].value == "On"@) == s.is_powered_on,
        !s.is_powered_on ==> status_report_spec(s)[3].value == "Off"@,
        status_report_spec(s)[4].value == StatusCode::from_code_spec(s.status_code).name_text(),
{
    reveal_strlit("Connected");
    reveal_strlit("Disconnected");
    reveal_strlit("On");
    reveal_strlit("Off");
    assert("Connected"@.len() != "Disconnected"@.len());
    assert("On"@[1] != "Off"@[1]);
    let head = report_head(s);
    let rest = report_mode(s) + report_humidity(s) + report_timer(s) + report_schedule(s) + seq![blank_line()];
    assert(status_report_spec(s) =~= head + rest);
    assert(head.len() >= 5);
    assert(status_report_spec(s)[2] == head[2]);
    assert(status_report_spec(s)[3] == head[3]);
    assert(status_report_spec(s)[4] == head[4]);
}

} // verus!

verus! {

/// The mode line of the status report names the selected mode (`None` when no
/// mode is selected), and the temperature lines give the measured temperature
/// and the target of the selected mode.
pub proof fn lemma_report_mode_lines(s: SaunaStatus)
    ensures
        ({
            let k: int = if s.is_ready_for_use { 6 } else { 5 };
            let r = status_report_spec(s);
            &&& r.len() > k + 3
            &&& r[k + 1].label == "  Mode:           "@
            &&& r[k + 1].value == match s.current_mode_spec() {
                Some(m) => m.name_text(),
                None => "None"@,
            }
            &&& r[k + 2].value == int_text(s.current_temperature as int)
            &&& r[k + 3].value == int_text(s.target_temperature_spec() as int)
        }),
{
    let head = report_head(s);
    let mode = report_mode(s);
    let rest = report_humidity(s) + report_timer(s) + report_schedule(s) + seq![blank_line()];
    assert(status_report_spec(s) =~= head + mode + rest);
    let k: int = if s.is_ready_for_use { 6 } else { 5 };
    assert(head.len() == k);
    assert((head + mode + rest)[k + 1] == mode[1]);
    assert((head + mode + rest)[k + 2] == mode[2]);
    assert((head + mode + rest)[k + 3] == mode[3]);
}

} // verus!
