//! The decisions of the API client. Each operation is a [`Flow`]: the arguments are
//! validated up front, then the flow names the requests to send one at a time and
//! judges each reply, until it finishes with an [`Outcome`] or an error. Sending the
//! requests (HTTP, cookies, parsing the status JSON into [`SaunaStatus`]) is left to
//! the caller.
use vstd::prelude::*;
use vstd::string::*;
use vstd::utf8::encode_utf8;
use crate::error::{KlafsError, KlafsErrorView};
use crate::html::{extract_saunas_from_html, extract_verification_token, opt_text, saunas_spec, saunas_view, verification_token_spec};
use crate::json::{as_bool_spec, as_str_spec, get_member, json_as_bool, json_as_str, json_parse_spec, member_spec, parse_json};
use crate::models::{
    FavoriteSelectedRequest, PowerControlRequest, SaunaInfoView, SaunaMode, SaunaStatus,
    SetHumidityRequest, SetModeRequest, SetSelectedTimeRequest, SetTemperatureRequest,
    StopCabinRequest, SaunaInfo, ConfigChangeRequest,
};
use crate::text::{digit_char, has_sub, int_string, int_text, str_contains, to_owned_string};
use crate::validate::{
    bad_sauna_id_text, guid_text, range_check, range_text, valid_pin, validate_hour,
    validate_humidity_level, validate_minute, validate_pin, validate_sanarium_temperature,
    validate_sauna_id, validate_temperature,
};

verus! {

/// Bytes that URL encoding leaves as they are: ASCII letters, digits and `-._~`.
pub open spec fn url_safe(b: u8) -> bool {
    (0x30 <= b <= 0x39) || (0x41 <= b <= 0x5a) || (0x61 <= b <= 0x7a) || b == 0x2d || b == 0x2e
        || b == 0x5f || b == 0x7e
}

/// The upper-case hexadecimal digit for `d` (`0 <= d < 16`).
pub open spec fn hex_upper(d: int) -> char {
    if d < 10 {
        digit_char(d)
    } else if d == 10 {
        'A'
    } else if d == 11 {
        'B'
    } else if d == 12 {
        'C'
    } else if d == 13 {
        'D'
    } else if d == 14 {
        'E'
    } else {
        'F'
    }
}

/// Percent-encoding of bytes: safe bytes as themselves, any other as `%XX`.
pub open spec fn url_encode_bytes(bs: Seq<u8>) -> Seq<char>
    decreases bs.len(),
{
    if bs.len() == 0 {
        Seq::empty()
    } else {
        (if url_safe(bs[0]) {
            seq![bs[0] as char]
        } else {
            seq!['%', hex_upper((bs[0] / 16) as int), hex_upper((bs[0] % 16) as int)]
        }) + url_encode_bytes(bs.drop_first())
    }
}

/// The URL encoding of a text (of its UTF-8 bytes).
pub open spec fn url_encode_text(s: Seq<char>) -> Seq<char> {
    url_encode_bytes(encode_utf8(s))
}

/// `urlencoding::encode`: its source (enc.rs) keeps ASCII letters, digits and `-._~`
/// and writes every other byte of the UTF-8 text as `%` and two upper-case hex
/// digits; this wrapper claims exactly that.
#[verifier::external_body]
fn url_encode(s: &str) -> (r: String)
    ensures
        r@ == url_encode_text(s@),
{
    urlencoding::encode(s).into_owned()
}

/// The reason phrase `http` gives a status code, if it knows one.
pub uninterp spec fn canonical_reason_spec(code: u16) -> Option<Seq<char>>;

/// `StatusCode::from_u16` and `StatusCode::canonical_reason` (reqwest re-exports
/// `http`'s): the phrase is named by `canonical_reason_spec`.
#[verifier::external_body]
fn canonical_reason(code: u16) -> (r: Option<String>)
    ensures
        opt_text(r) == canonical_reason_spec(code),
{
    reqwest::StatusCode::from_u16(code).ok().and_then(|s| s.canonical_reason()).map(|s| s.to_string())
}

/// How a status code is displayed: the number and its reason phrase.
pub open spec fn status_text(code: u16) -> Seq<char> {
    int_text(code as int) + " "@ + match canonical_reason_spec(code) {
        Some(r) => r,
        None => "<unknown status code>"@,
    }
}

/// The display text of a status code, e.g. `404 Not Found`.
pub fn status_display(code: u16) -> (s: String)
    ensures
        s@ == status_text(code),
{
    let mut s = int_string(code as i64);
    s.append(" ");
    match canonical_reason(code) {
        Some(r) => s.append(r.as_str()),
        None => s.append("<unknown status code>"),
    }
    s
}

/// 2xx.
pub open spec fn is_success(code: u16) -> bool {
    200 <= code < 300
}

/// 3xx.
pub open spec fn is_redirection(code: u16) -> bool {
    300 <= code < 400
}

/// 401 or 403: the session is not (or no longer) accepted.
pub open spec fn session_refused(code: u16) -> bool {
    code == 401 || code == 403
}

/// The error a reply's status stands for, if any.
pub open spec fn status_error(code: u16, body: Seq<char>) -> Option<KlafsErrorView> {
    if session_refused(code) {
        Some(KlafsErrorView::SessionExpired)
    } else if !is_success(code) {
        Some(KlafsErrorView::ApiError { status_code: code, message: body })
    } else {
        None
    }
}

/// Check a reply's status: 401/403 mean the session expired, another non-2xx status
/// is an API error carrying the body.
pub fn check_response_status(status: u16, response_text: &str) -> (r: Result<(), KlafsError>)
    ensures
        match status_error(status, response_text@) {
            Some(e) => r matches Err(x) && x@ == e,
            None => r is Ok,
        },
{
    if status == 401 || status == 403 {
        return Err(KlafsError::SessionExpired);
    }
    if !(200 <= status && status < 300) {
        return Err(KlafsError::ApiError { status_code: status, message: to_owned_string(response_text) });
    }
    Ok(())
}

/// HTTP method of a request.
#[derive(Debug, Clone, Copy, PartialEq, Eq, Structural)]
pub enum HttpMethod {
    Get,
    Post,
}

/// The body of a request.
#[derive(Debug)]
pub enum RequestBody {
    /// No body.
    Empty,
    /// A form: its fields, and the URL-encoded text of it.
    Form { params: Vec<(String, String)>, text: String },
    PowerControl(PowerControlRequest),
    StopCabin(StopCabinRequest),
    SetMode(SetModeRequest),
    SetTemperature(SetTemperatureRequest),
    SetHumidity(SetHumidityRequest),
    SetSelectedTime(SetSelectedTimeRequest),
    FavoriteSelected(FavoriteSelectedRequest),
    ConfigChange(ConfigChangeRequest),
}

/// The abstract content of a [`RequestBody`].
pub enum RequestBodyView {
    Empty,
    Form { params: Seq<(Seq<char>, Seq<char>)>, text: Seq<char> },
    PowerControl { id: Seq<char>, pin: Seq<char>, time_selected: bool, sel_hour: Option<i32>, sel_min: Option<i32> },
    StopCabin { id: Seq<char> },
    SetMode { id: Seq<char>, selected_mode: u8 },
    SetTemperature { id: Seq<char>, temperature: i32 },
    SetHumidity { id: Seq<char>, level: i32 },
    SetSelectedTime { id: Seq<char>, time_set: bool, hours: i32, minutes: i32 },
    FavoriteSelected { id: Seq<char>, temp: i32, hum_level: i32, ir_level: i32 },
    ConfigChange {
        sauna_id: Seq<char>,
        selected_sauna_temperature: Option<i32>,
        selected_sanarium_temperature: Option<i32>,
        selected_hum_level: Option<i32>,
        selected_hour: Option<i32>,
        selected_minute: Option<i32>,
    },
}

impl View for RequestBody {
    type V = RequestBodyView;

    open spec fn view(&self) -> RequestBodyView {
        match self {
            RequestBody::Empty => RequestBodyView::Empty,
            RequestBody::Form { params, text } => RequestBodyView::Form {
                params: params@.map_values(|p: (String, String)| (p.0@, p.1@)),
                text: text@,
            },
            RequestBody::PowerControl(r) => RequestBodyView::PowerControl {
                id: r.id@,
                pin: r.pin@,
                time_selected: r.time_selected,
                sel_hour: r.sel_hour,
                sel_min: r.sel_min,
            },
            RequestBody::StopCabin(r) => RequestBodyView::StopCabin { id: r.id@ },
            RequestBody::SetMode(r) => RequestBodyView::SetMode { id: r.id@, selected_mode: r.selected_mode },
            RequestBody::SetTemperature(r) => RequestBodyView::SetTemperature { id: r.id@, temperature: r.temperature },
            RequestBody::SetHumidity(r) => RequestBodyView::SetHumidity { id: r.id@, level: r.level },
            RequestBody::SetSelectedTime(r) => RequestBodyView::SetSelectedTime {
                id: r.id@,
                time_set: r.time_set,
                hours: r.hours,
                minutes: r.minutes,
            },
            RequestBody::FavoriteSelected(r) => RequestBodyView::FavoriteSelected {
                id: r.id@,
                temp: r.temp,
                hum_level: r.hum_level,
                ir_level: r.ir_level,
            },
            RequestBody::ConfigChange(r) => RequestBodyView::ConfigChange {
                sauna_id: r.sauna_id@,
                selected_sauna_temperature: r.selected_sauna_temperature,
                selected_sanarium_temperature: r.selected_sanarium_temperature,
                selected_hum_level: r.selected_hum_level,
                selected_hour: r.selected_hour,
                selected_minute: r.selected_minute,
            },
        }
    }
}

/// A request to send.
#[derive(Debug)]
pub struct ApiRequest {
    pub method: HttpMethod,
    pub url: String,
    pub body: RequestBody,
    /// The reply's body is a sauna status: parse it into the reply's `sauna_status`.
    pub reads_status: bool,
}

/// The abstract content of an [`ApiRequest`].
pub struct ApiRequestView {
    pub method: HttpMethod,
    pub url: Seq<char>,
    pub body: RequestBodyView,
    pub reads_status: bool,
}

impl View for ApiRequest {
    type V = ApiRequestView;

    open spec fn view(&self) -> ApiRequestView {
        ApiRequestView { method: self.method, url: self.url@, body: self.body@, reads_status: self.reads_status }
    }
}

/// What came back for a request.
pub struct Reply {
    /// The HTTP status code.
    pub status: u16,
    /// The body text.
    pub body: String,
    /// Whether the client holds a cookie for the API's address.
    pub has_session_cookie: bool,
    /// For a request that reads a status: the body parsed as a sauna status, or the
    /// parser's message.
    pub sauna_status: Option<Result<SaunaStatus, String>>,
}

/// One request of a flow and the judgement of its reply.
#[derive(Debug, Clone, Copy)]
pub enum Stage {
    /// Load the login page (for its anti-forgery token).
    LoadLoginPage,
    /// Submit the login form.
    SubmitLogin,
    /// Read the sauna's status, which is the result.
    FetchStatus,
    /// Read the sauna's status: a status that shows another mode than sanarium
    /// refuses the change; one that cannot be read lets it go on.
    CheckSanarium,
    /// Read the settings page that lists the saunas, which are the result.
    FetchSaunas,
    /// Set the humidity level.
    ChangeHumLevel(i32),
    /// Set (`Some`) or clear (`None`) the scheduled start time.
    SetSelectedTime(Option<(i32, i32)>),
    /// Start the sauna, now (`None`) or at the scheduled time.
    StartCabin(Option<(i32, i32)>),
    /// Stop the sauna.
    StopCabin,
    /// Set the operating mode.
    SetMode(SaunaMode),
    /// Set the target temperature.
    ChangeTemperature(i32),
    /// Apply favorite settings: temperature, humidity level, infrared level.
    FavoriteSelected(i32, i32, i32),
    /// Change several settings in one request: sauna temperature, sanarium
    /// temperature, humidity level, hour and minute, each only when given.
    ConfigChange(Option<i32>, Option<i32>, Option<i32>, Option<i32>, Option<i32>),
}

/// What a finished flow yields.
#[derive(Debug)]
pub enum Outcome {
    /// The change was made.
    Done,
    /// Logged in; the anti-forgery token of the page the login answered with, if any.
    LoggedIn { verification_token: Option<String> },
    /// The status of a sauna.
    Status(SaunaStatus),
    /// The saunas of the account.
    Saunas(Vec<SaunaInfo>),
}

/// The abstract content of an [`Outcome`].
pub enum OutcomeView {
    Done,
    LoggedIn { verification_token: Option<Seq<char>> },
    Status(SaunaStatus),
    Saunas(Seq<SaunaInfoView>),
}

impl View for Outcome {
    type V = OutcomeView;

    open spec fn view(&self) -> OutcomeView {
        match self {
            Outcome::Done => OutcomeView::Done,
            Outcome::LoggedIn { verification_token } => OutcomeView::LoggedIn {
                verification_token: opt_text(*verification_token),
            },
            Outcome::Status(s) => OutcomeView::Status(*s),
            Outcome::Saunas(v) => OutcomeView::Saunas(saunas_view(v@)),
        }
    }
}

/// An operation on the API in progress.
pub struct Flow {
    base_url: String,
    sauna_id: String,
    username: String,
    password: String,
    pin: String,
    stages: Vec<Stage>,
    next: usize,
    login_token: Option<String>,
}

/// The abstract state of a [`Flow`].
pub struct FlowView {
    pub base_url: Seq<char>,
    pub sauna_id: Seq<char>,
    pub username: Seq<char>,
    pub password: Seq<char>,
    pub pin: Seq<char>,
    pub stages: Seq<Stage>,
    pub next: int,
    pub login_token: Option<Seq<char>>,
}

impl View for Flow {
    type V = FlowView;

    closed spec fn view(&self) -> FlowView {
        FlowView {
            base_url: self.base_url@,
            sauna_id: self.sauna_id@,
            username: self.username@,
            password: self.password@,
            pin: self.pin@,
            stages: self.stages@,
            next: self.next as int,
            login_token: opt_text(self.login_token),
        }
    }
}

impl Flow {
    #[verifier::type_invariant]
    spec fn next_in_range(self) -> bool {
        self.next <= self.stages@.len()
    }
}

/// A flow that has not sent anything yet.
pub open spec fn fresh(f: FlowView, base_url: Seq<char>, sauna_id: Seq<char>, username: Seq<char>, password: Seq<char>, pin: Seq<char>, stages: Seq<Stage>) -> bool {
    &&& f.base_url == base_url
    &&& f.sauna_id == sauna_id
    &&& f.username == username
    &&& f.password == password
    &&& f.pin == pin
    &&& f.stages == stages
    &&& f.next == 0
    &&& f.login_token is None
}

/// The stages of a login.
pub open spec fn login_plan() -> Seq<Stage> {
    seq![Stage::LoadLoginPage, Stage::SubmitLogin]
}

/// The error for a sauna ID that is not a GUID, if it is not.
pub open spec fn id_error(id: Seq<char>) -> Option<KlafsErrorView> {
    if guid_text(id) {
        None
    } else {
        Some(KlafsErrorView::InvalidParameter { message: bad_sauna_id_text(id) })
    }
}

/// The error for a value outside `min..=max`, if it is.
pub open spec fn range_error(name: Seq<char>, min: int, max: int, v: int) -> Option<KlafsErrorView> {
    if min <= v <= max {
        None
    } else {
        Some(KlafsErrorView::InvalidParameter { message: range_text(name, min, max, v) })
    }
}

/// The error for a time of day, if the hour or then the minute is out of range.
pub open spec fn time_error(hour: i32, minute: i32) -> Option<KlafsErrorView> {
    if range_error("Hour"@, 0, 23, hour as int) is Some {
        range_error("Hour"@, 0, 23, hour as int)
    } else {
        range_error("Minute"@, 0, 59, minute as int)
    }
}

/// The first error of two, if any.
pub open spec fn first_error(a: Option<KlafsErrorView>, b: Option<KlafsErrorView>) -> Option<KlafsErrorView> {
    if a is Some { a } else { b }
}

/// A planned flow: the error, or the stages.
pub open spec fn plan_result(r: Result<Flow, KlafsError>, err: Option<KlafsErrorView>, base_url: Seq<char>, sauna_id: Seq<char>, pin: Seq<char>, stages: Seq<Stage>) -> bool {
    match err {
        Some(e) => r matches Err(x) && x@ == e,
        None => r matches Ok(f) && fresh(f@, base_url, sauna_id, Seq::empty(), Seq::empty(), pin, stages),
    }
}

/// The error of a power-on request, if any: sauna ID, PIN, then the scheduled time.
/// A PIN that is not four digits is an invalid PIN, refused before anything is
/// sent.
pub open spec fn power_on_error(id: Seq<char>, pin: Seq<char>, schedule: Option<(i32, i32)>) -> Option<KlafsErrorView> {
    first_error(
        id_error(id),
        if valid_pin(pin) {
            match schedule {
                Some((h, m)) => time_error(h, m),
                None => None,
            }
        } else {
            Some(KlafsErrorView::InvalidPin)
        },
    )
}

/// The stages of a power-on: set the schedule first when there is one.
pub open spec fn power_on_plan(schedule: Option<(i32, i32)>) -> Seq<Stage> {
    match schedule {
        Some(t) => seq![Stage::SetSelectedTime(Some(t)), Stage::StartCabin(Some(t))],
        None => seq![Stage::StartCabin(None)],
    }
}

/// The error of a request to set the scheduled time, if any.
pub open spec fn selected_time_error(id: Seq<char>, time: Option<(i32, i32)>) -> Option<KlafsErrorView> {
    first_error(
        id_error(id),
        match time {
            Some((h, m)) => time_error(h, m),
            None => None,
        },
    )
}

/// The error of a request to apply favorite settings, if any.
pub open spec fn favorite_error(id: Seq<char>, temperature: i32, humidity_level: i32, ir_level: i32) -> Option<KlafsErrorView> {
    if id_error(id) is Some {
        id_error(id)
    } else if !(10 <= temperature <= 100) {
        Some(KlafsErrorView::InvalidParameter {
            message: "Temperature must be between 10 and 100°C, got "@ + int_text(temperature as int),
        })
    } else if !(0 <= humidity_level <= 10) {
        Some(KlafsErrorView::InvalidParameter {
            message: "Humidity level must be between 0 and 10, got "@ + int_text(humidity_level as int),
        })
    } else if !(0 <= ir_level <= 10) {
        Some(KlafsErrorView::InvalidParameter {
            message: "IR level must be between 0 and 10, got "@ + int_text(ir_level as int),
        })
    } else {
        None
    }
}

/// The error of an optional value outside its range, if any.
pub open spec fn opt_range_error(name: Seq<char>, min: int, max: int, v: Option<i32>) -> Option<KlafsErrorView> {
    match v {
        Some(x) => range_error(name, min, max, x as int),
        None => None,
    }
}

/// The error of a combined configuration, if any: the sauna ID, each given value in
/// turn, then the lack of any change.
pub open spec fn configure_error(
    id: Seq<char>,
    sauna_temperature: Option<i32>,
    sanarium_temperature: Option<i32>,
    humidity_level: Option<i32>,
    hour: Option<i32>,
    minute: Option<i32>,
) -> Option<KlafsErrorView> {
    first_error(id_error(id),
    first_error(opt_range_error("Temperature (°C)"@, 10, 100, sauna_temperature),
    first_error(opt_range_error("Sanarium temperature (°C)"@, 40, 75, sanarium_temperature),
    first_error(opt_range_error("Humidity level"@, 1, 10, humidity_level),
    first_error(opt_range_error("Hour"@, 0, 23, hour),
    first_error(opt_range_error("Minute"@, 0, 59, minute),
        if sauna_temperature is None && sanarium_temperature is None && humidity_level is None
            && hour is None && minute is None {
            Some(KlafsErrorView::InvalidParameter { message: "No configuration changes specified"@ })
        } else {
            None
        }))))))
}

/// The stages of a combined configuration: one request that carries every
/// setting given, and no other.
pub open spec fn configure_plan(
    sauna_temperature: Option<i32>,
    sanarium_temperature: Option<i32>,
    humidity_level: Option<i32>,
    hour: Option<i32>,
    minute: Option<i32>,
) -> Seq<Stage> {
    seq![Stage::ConfigChange(sauna_temperature, sanarium_temperature, humidity_level, hour, minute)]
}

/// The message given when humidity is asked for outside sanarium mode.
pub open spec fn not_sanarium_text() -> Seq<char> {
    "Humidity can only be set in Sanarium mode. Use 'set-mode sanarium' first."@
}

/// The empty text.
fn no_text() -> (s: &'static str)
    ensures
        s@ == Seq::<char>::empty(),
{
    proof {
        reveal_strlit("");
    }
    ""
}

impl Flow {
    /// The abstract state of this flow.
    pub open spec fn state(&self) -> FlowView {
        self@
    }

    fn start(base_url: &str, sauna_id: &str, username: &str, password: &str, pin: &str, stages: Vec<Stage>) -> (r: Flow)
        ensures
            fresh(r@, base_url@, sauna_id@, username@, password@, pin@, stages@),
    {
        Flow {
            base_url: to_owned_string(base_url),
            sauna_id: to_owned_string(sauna_id),
            username: to_owned_string(username),
            password: to_owned_string(password),
            pin: to_owned_string(pin),
            stages,
            next: 0,
            login_token: None,
        }
    }

    /// Log in: load the login page, then submit the form with the credentials (and
    /// the page's anti-forgery token, if it has one).
    pub fn login(base_url: &str, username: &str, password: &str) -> (r: Flow)
        ensures
            fresh(r@, base_url@, Seq::empty(), username@, password@, Seq::empty(), login_plan()),
    {
        let mut stages = Vec::new();
        stages.push(Stage::LoadLoginPage);
        stages.push(Stage::SubmitLogin);
        assert(stages@ =~= login_plan());
        Flow::start(base_url, no_text(), username, password, no_text(), stages)
    }

    /// Get the current status of a sauna.
    pub fn get_status(base_url: &str, sauna_id: &str) -> (r: Result<Flow, KlafsError>)
        ensures
            plan_result(r, id_error(sauna_id@), base_url@, sauna_id@, Seq::empty(), seq![Stage::FetchStatus]),
    {
        validate_sauna_id(sauna_id)?;
        let mut stages = Vec::new();
        stages.push(Stage::FetchStatus);
        assert(stages@ =~= seq![Stage::FetchStatus]);
        Ok(Flow::start(base_url, sauna_id, no_text(), no_text(), no_text(), stages))
    }

    /// List all saunas registered to the account.
    pub fn list_saunas(base_url: &str) -> (r: Flow)
        ensures
            fresh(r@, base_url@, Seq::empty(), Seq::empty(), Seq::empty(), Seq::empty(), seq![Stage::FetchSaunas]),
    {
        let mut stages = Vec::new();
        stages.push(Stage::FetchSaunas);
        assert(stages@ =~= seq![Stage::FetchSaunas]);
        Flow::start(base_url, no_text(), no_text(), no_text(), no_text(), stages)
    }

    /// Power on the sauna immediately, or at the scheduled time `(hour, minute)`.
    pub fn power_on(base_url: &str, sauna_id: &str, pin: &str, schedule: Option<(i32, i32)>) -> (r: Result<Flow, KlafsError>)
        ensures
            plan_result(r, power_on_error(sauna_id@, pin@, schedule), base_url@, sauna_id@, pin@, power_on_plan(schedule)),
    {
        validate_sauna_id(sauna_id)?;
        if validate_pin(pin).is_err() {
            return Err(KlafsError::InvalidPin);
        }
        let mut stages = Vec::new();
        match schedule {
            Some((hour, minute)) => {
                validate_hour(hour)?;
                validate_minute(minute)?;
                stages.push(Stage::SetSelectedTime(Some((hour, minute))));
                stages.push(Stage::StartCabin(Some((hour, minute))));
            },
            None => {
                stages.push(Stage::StartCabin(None));
            },
        }
        assert(stages@ =~= power_on_plan(schedule));
        Ok(Flow::start(base_url, sauna_id, no_text(), no_text(), pin, stages))
    }

    /// Power off the sauna (no PIN needed).
    pub fn power_off(base_url: &str, sauna_id: &str) -> (r: Result<Flow, KlafsError>)
        ensures
            plan_result(r, id_error(sauna_id@), base_url@, sauna_id@, Seq::empty(), seq![Stage::StopCabin]),
    {
        validate_sauna_id(sauna_id)?;
        let mut stages = Vec::new();
        stages.push(Stage::StopCabin);
        assert(stages@ =~= seq![Stage::StopCabin]);
        Ok(Flow::start(base_url, sauna_id, no_text(), no_text(), no_text(), stages))
    }

    /// Set the operating mode.
    pub fn set_mode(base_url: &str, sauna_id: &str, mode: SaunaMode) -> (r: Result<Flow, KlafsError>)
        ensures
            plan_result(r, id_error(sauna_id@), base_url@, sauna_id@, Seq::empty(), seq![Stage::SetMode(mode)]),
    {
        validate_sauna_id(sauna_id)?;
        let mut stages = Vec::new();
        stages.push(Stage::SetMode(mode));
        assert(stages@ =~= seq![Stage::SetMode(mode)]);
        Ok(Flow::start(base_url, sauna_id, no_text(), no_text(), no_text(), stages))
    }

    /// Set the target temperature (10-100 °C).
    pub fn set_temperature(base_url: &str, sauna_id: &str, temperature: i32) -> (r: Result<Flow, KlafsError>)
        ensures
            plan_result(
                r,
                first_error(id_error(sauna_id@), range_error("Temperature (°C)"@, 10, 100, temperature as int)),
                base_url@,
                sauna_id@,
                Seq::empty(),
                seq![Stage::ChangeTemperature(temperature)],
            ),
    {
        validate_sauna_id(sauna_id)?;
        validate_temperature(temperature)?;
        let mut stages = Vec::new();
        stages.push(Stage::ChangeTemperature(temperature));
        assert(stages@ =~= seq![Stage::ChangeTemperature(temperature)]);
        Ok(Flow::start(base_url, sauna_id, no_text(), no_text(), no_text(), stages))
    }

    /// Set the humidity level (1-10): read the status first, and refuse when it
    /// shows the sauna in another mode than sanarium.
    pub fn set_humidity(base_url: &str, sauna_id: &str, level: i32) -> (r: Result<Flow, KlafsError>)
        ensures
            plan_result(
                r,
                first_error(id_error(sauna_id@), range_error("Humidity level"@, 1, 10, level as int)),
                base_url@,
                sauna_id@,
                Seq::empty(),
                seq![Stage::CheckSanarium, Stage::ChangeHumLevel(level)],
            ),
    {
        validate_sauna_id(sauna_id)?;
        validate_humidity_level(level)?;
        let mut stages = Vec::new();
        stages.push(Stage::CheckSanarium);
        stages.push(Stage::ChangeHumLevel(level));
        assert(stages@ =~= seq![Stage::CheckSanarium, Stage::ChangeHumLevel(level)]);
        Ok(Flow::start(base_url, sauna_id, no_text(), no_text(), no_text(), stages))
    }

    /// Set or clear (`None`) the scheduled start time without starting the sauna.
    pub fn set_selected_time(base_url: &str, sauna_id: &str, time: Option<(i32, i32)>) -> (r: Result<Flow, KlafsError>)
        ensures
            plan_result(r, selected_time_error(sauna_id@, time), base_url@, sauna_id@, Seq::empty(), seq![Stage::SetSelectedTime(time)]),
    {
        validate_sauna_id(sauna_id)?;
        if let Some((hour, minute)) = time {
            validate_hour(hour)?;
            validate_minute(minute)?;
        }
        let mut stages = Vec::new();
        stages.push(Stage::SetSelectedTime(time));
        assert(stages@ =~= seq![Stage::SetSelectedTime(time)]);
        Ok(Flow::start(base_url, sauna_id, no_text(), no_text(), no_text(), stages))
    }

    /// Set the scheduled start time: one configuration change carrying the hour
    /// and the minute, and no other setting.
    pub fn set_start_time(base_url: &str, sauna_id: &str, hour: i32, minute: i32) -> (r: Result<Flow, KlafsError>)
        ensures
            plan_result(
                r,
                selected_time_error(sauna_id@, Some((hour, minute))),
                base_url@,
                sauna_id@,
                Seq::empty(),
                configure_plan(None, None, None, Some(hour), Some(minute)),
            ),
    {
        validate_sauna_id(sauna_id)?;
        validate_hour(hour)?;
        validate_minute(minute)?;
        let mut stages = Vec::new();
        stages.push(Stage::ConfigChange(None, None, None, Some(hour), Some(minute)));
        assert(stages@ =~= configure_plan(None, None, None, Some(hour), Some(minute)));
        Ok(Flow::start(base_url, sauna_id, no_text(), no_text(), no_text(), stages))
    }

    /// Apply favorite settings: temperature (10-100 °C), humidity level and infrared
    /// level (0-10 each, 0 meaning unset).
    pub fn apply_favorite(base_url: &str, sauna_id: &str, temperature: i32, humidity_level: i32, ir_level: i32) -> (r: Result<Flow, KlafsError>)
        ensures
            plan_result(
                r,
                favorite_error(sauna_id@, temperature, humidity_level, ir_level),
                base_url@,
                sauna_id@,
                Seq::empty(),
                seq![Stage::FavoriteSelected(temperature, humidity_level, ir_level)],
            ),
    {
        validate_sauna_id(sauna_id)?;
        if !(10 <= temperature && temperature <= 100) {
            let mut message = to_owned_string("Temperature must be between 10 and 100°C, got ");
            let n = int_string(temperature as i64);
            message.append(n.as_str());
            return Err(KlafsError::InvalidParameter { message });
        }
        if !(0 <= humidity_level && humidity_level <= 10) {
            let mut message = to_owned_string("Humidity level must be between 0 and 10, got ");
            let n = int_string(humidity_level as i64);
            message.append(n.as_str());
            return Err(KlafsError::InvalidParameter { message });
        }
        if !(0 <= ir_level && ir_level <= 10) {
            let mut message = to_owned_string("IR level must be between 0 and 10, got ");
            let n = int_string(ir_level as i64);
            message.append(n.as_str());
            return Err(KlafsError::InvalidParameter { message });
        }
        let mut stages = Vec::new();
        stages.push(Stage::FavoriteSelected(temperature, humidity_level, ir_level));
        assert(stages@ =~= seq![Stage::FavoriteSelected(temperature, humidity_level, ir_level)]);
        Ok(Flow::start(base_url, sauna_id, no_text(), no_text(), no_text(), stages))
    }

    /// Configure several settings in a single request: only the given settings
    /// are sent, each validated first.
    pub fn configure(
        base_url: &str,
        sauna_id: &str,
        sauna_temperature: Option<i32>,
        sanarium_temperature: Option<i32>,
        humidity_level: Option<i32>,
        hour: Option<i32>,
        minute: Option<i32>,
    ) -> (r: Result<Flow, KlafsError>)
        ensures
            plan_result(
                r,
                configure_error(sauna_id@, sauna_temperature, sanarium_temperature, humidity_level, hour, minute),
                base_url@,
                sauna_id@,
                Seq::empty(),
                configure_plan(sauna_temperature, sanarium_temperature, humidity_level, hour, minute),
            ),
    {
        validate_sauna_id(sauna_id)?;
        if let Some(t) = sauna_temperature {
            validate_temperature(t)?;
        }
        if let Some(t) = sanarium_temperature {
            validate_sanarium_temperature(t)?;
        }
        if let Some(l) = humidity_level {
            validate_humidity_level(l)?;
        }
        if let Some(h) = hour {
            validate_hour(h)?;
        }
        if let Some(m) = minute {
            validate_minute(m)?;
        }
        if sauna_temperature.is_none() && sanarium_temperature.is_none() && humidity_level.is_none()
            && hour.is_none() && minute.is_none() {
            return Err(KlafsError::InvalidParameter {
                message: to_owned_string("No configuration changes specified"),
            });
        }
        let mut stages = Vec::new();
        stages.push(Stage::ConfigChange(sauna_temperature, sanarium_temperature, humidity_level, hour, minute));
        assert(stages@ =~= configure_plan(sauna_temperature, sanarium_temperature, humidity_level, hour, minute));
        Ok(Flow::start(base_url, sauna_id, no_text(), no_text(), no_text(), stages))
    }
}


/// The fields of the login form.
pub open spec fn form_params_spec(user: Seq<char>, pass: Seq<char>, token: Option<Seq<char>>) -> Seq<(Seq<char>, Seq<char>)> {
    seq![("UserName"@, user), ("Password"@, pass), ("RememberMe"@, "false"@)] + match token {
        Some(t) => seq![("__RequestVerificationToken"@, t)],
        None => Seq::empty(),
    }
}

/// The URL-encoded text of the login form.
pub open spec fn form_text_spec(user: Seq<char>, pass: Seq<char>, token: Option<Seq<char>>) -> Seq<char> {
    "UserName="@ + url_encode_text(user) + "&Password="@ + url_encode_text(pass) + "&RememberMe="@
        + url_encode_text("false"@) + match token {
        Some(t) => "&__RequestVerificationToken="@ + url_encode_text(t),
        None => Seq::empty(),
    }
}

/// The hour of an optional time, or 0.
pub open spec fn hour_of(t: Option<(i32, i32)>) -> i32 {
    match t {
        Some((h, _)) => h,
        None => 0,
    }
}

/// The minute of an optional time, or 0.
pub open spec fn minute_of(t: Option<(i32, i32)>) -> i32 {
    match t {
        Some((_, m)) => m,
        None => 0,
    }
}

/// A POST with a body to a path of the API.
pub open spec fn post(f: FlowView, path: Seq<char>, body: RequestBodyView) -> ApiRequestView {
    ApiRequestView { method: HttpMethod::Post, url: f.base_url + path, body, reads_status: false }
}

/// The request a stage sends.
pub open spec fn request_spec(f: FlowView, st: Stage) -> ApiRequestView {
    let id = f.sauna_id;
    match st {
        Stage::LoadLoginPage => ApiRequestView {
            method: HttpMethod::Get,
            url: f.base_url + "/Account/Login"@,
            body: RequestBodyView::Empty,
            reads_status: false,
        },
        Stage::SubmitLogin => post(f, "/Account/Login"@, RequestBodyView::Form {
            params: form_params_spec(f.username, f.password, f.login_token),
            text: form_text_spec(f.username, f.password, f.login_token),
        }),
        Stage::FetchStatus | Stage::CheckSanarium => ApiRequestView {
            method: HttpMethod::Get,
            url: f.base_url + "/SaunaApp/GetData?id="@ + id,
            body: RequestBodyView::Empty,
            reads_status: true,
        },
        Stage::FetchSaunas => ApiRequestView {
            method: HttpMethod::Get,
            url: f.base_url + "/SaunaApp/ChangeSettings"@,
            body: RequestBodyView::Empty,
            reads_status: false,
        },
        Stage::ChangeHumLevel(level) => post(f, "/SaunaApp/ChangeHumLevel"@, RequestBodyView::SetHumidity { id, level }),
        Stage::SetSelectedTime(t) => post(f, "/SaunaApp/SetSelectedTime"@, RequestBodyView::SetSelectedTime {
            id,
            time_set: t is Some,
            hours: hour_of(t),
            minutes: minute_of(t),
        }),
        Stage::StartCabin(t) => post(f, "/SaunaApp/StartCabin"@, RequestBodyView::PowerControl {
            id,
            pin: f.pin,
            time_selected: t is Some,
            sel_hour: Some(hour_of(t)),
            sel_min: Some(minute_of(t)),
        }),
        Stage::StopCabin => post(f, "/SaunaApp/StopCabin"@, RequestBodyView::StopCabin { id }),
        Stage::SetMode(m) => post(f, "/SaunaApp/SetMode"@, RequestBodyView::SetMode { id, selected_mode: m.code_spec() }),
        Stage::ChangeTemperature(t) => post(f, "/SaunaApp/ChangeTemperature"@, RequestBodyView::SetTemperature { id, temperature: t }),
        Stage::FavoriteSelected(t, h, i) => post(f, "/SaunaApp/FavoriteSelected"@, RequestBodyView::FavoriteSelected {
            id,
            temp: t,
            hum_level: h,
            ir_level: i,
        }),
        Stage::ConfigChange(st, sn, hl, h, m) => post(f, "/SaunaApp/PostConfigChange"@, RequestBodyView::ConfigChange {
            sauna_id: id,
            selected_sauna_temperature: st,
            selected_sanarium_temperature: sn,
            selected_hum_level: hl,
            selected_hour: h,
            selected_minute: m,
        }),
    }
}

/// The stages whose reply is a sauna status.
pub open spec fn reads_status(st: Stage) -> bool {
    st is FetchStatus || st is CheckSanarium
}

/// The message of a power-on reply whose JSON says `"Success": false`: its
/// `ErrorMessage`, or "Unknown error". `None` when the reply says no such thing.
pub open spec fn cabin_rejection_spec(body: Seq<char>) -> Option<Seq<char>> {
    match json_parse_spec(body) {
        Some(m) => match member_spec(m, "Success"@) {
            Some(x) => if as_bool_spec(x) == Some(false) {
                Some(match member_spec(m, "ErrorMessage"@) {
                    Some(e) => match as_str_spec(e) {
                        Some(t) => t,
                        None => "Unknown error"@,
                    },
                    None => "Unknown error"@,
                })
            } else {
                None
            },
            None => None,
        },
        None => None,
    }
}

/// The judgement of a status reply: the status, or the error.
pub open spec fn status_verdict(status: u16, body: Seq<char>, parsed: Option<Result<SaunaStatus, String>>) -> Result<SaunaStatus, KlafsErrorView> {
    if status_error(status, body) is Some {
        Err(status_error(status, body)->0)
    } else {
        match parsed {
            Some(Ok(s)) => Ok(s),
            Some(Err(m)) => Err(KlafsErrorView::Parse(m@)),
            None => Err(KlafsErrorView::Parse(Seq::empty())),
        }
    }
}

/// The judgement of the reply to a stage: what it yields (`Done` for a stage that
/// yields nothing), or the error that ends the flow.
pub open spec fn verdict(st: Stage, status: u16, body: Seq<char>, cookie: bool, parsed: Option<Result<SaunaStatus, String>>) -> Result<OutcomeView, KlafsErrorView> {
    match st {
        Stage::LoadLoginPage => if !is_success(status) {
            Err(KlafsErrorView::ApiError { status_code: status, message: "Failed to load login page"@ })
        } else {
            Ok(OutcomeView::Done)
        },
        Stage::SubmitLogin => if has_sub(body, "Sicherheitskontrolle"@) || has_sub(body, "security check"@) {
            Err(KlafsErrorView::AccountLocked)
        } else if has_sub(body, "Invalid login"@) || has_sub(body, "Ungültige Anmeldung"@) {
            Err(KlafsErrorView::AuthenticationFailed { message: "Invalid username or password"@ })
        } else if is_success(status) || is_redirection(status) {
            if !cookie {
                Err(KlafsErrorView::AuthenticationFailed { message: "No session cookie received"@ })
            } else {
                Ok(OutcomeView::LoggedIn { verification_token: verification_token_spec(body) })
            }
        } else {
            Err(KlafsErrorView::ApiError { status_code: status, message: "Login failed with status "@ + status_text(status) })
        },
        Stage::FetchStatus => match status_verdict(status, body, parsed) {
            Ok(s) => Ok(OutcomeView::Status(s)),
            Err(e) => Err(e),
        },
        Stage::CheckSanarium => if session_refused(status) {
            Err(KlafsErrorView::SessionExpired)
        } else {
            match status_verdict(status, body, parsed) {
                Ok(s) => if s.sanarium_selected {
                    Ok(OutcomeView::Done)
                } else {
                    Err(KlafsErrorView::InvalidParameter { message: not_sanarium_text() })
                },
                Err(_) => Ok(OutcomeView::Done),
            }
        },
        Stage::FetchSaunas => if status_error(status, body) is Some {
            Err(status_error(status, body)->0)
        } else {
            Ok(OutcomeView::Saunas(saunas_spec(body)))
        },
        Stage::StartCabin(_) => if session_refused(status) {
            Err(KlafsErrorView::SessionExpired)
        } else if has_sub(body, "PIN"@) && has_sub(body, "invalid"@) {
            Err(KlafsErrorView::InvalidPin)
        } else if !is_success(status) {
            Err(KlafsErrorView::ApiError { status_code: status, message: body })
        } else if cabin_rejection_spec(body) is Some {
            Err(KlafsErrorView::ApiError { status_code: status, message: cabin_rejection_spec(body)->0 })
        } else {
            Ok(OutcomeView::Done)
        },
        _ => if status_error(status, body) is Some {
            Err(status_error(status, body)->0)
        } else {
            Ok(OutcomeView::Done)
        },
    }
}

/// The message of a power-on reply that reports a failure in its JSON.
fn cabin_rejection(body: &str) -> (r: Option<String>)
    ensures
        opt_text(r) == cabin_rejection_spec(body@),
{
    match parse_json(body) {
        Some(j) => {
            match get_member(&j, "Success") {
                Some(x) => {
                    if json_as_bool(x) == Some(false) {
                        let msg = match get_member(&j, "ErrorMessage") {
                            Some(e) => match json_as_str(e) {
                                Some(t) => to_owned_string(t),
                                None => to_owned_string("Unknown error"),
                            },
                            None => to_owned_string("Unknown error"),
                        };
                        Some(msg)
                    } else {
                        None
                    }
                },
                None => None,
            }
        },
        None => None,
    }
}

/// Judge a status reply.
fn judge_status(status: u16, body: &str, parsed: Option<Result<SaunaStatus, String>>) -> (r: Result<SaunaStatus, KlafsError>)
    ensures
        match status_verdict(status, body@, parsed) {
            Ok(s) => r == Ok::<SaunaStatus, KlafsError>(s),
            Err(e) => r matches Err(x) && x@ == e,
        },
{
    check_response_status(status, body)?;
    match parsed {
        Some(Ok(s)) => Ok(s),
        Some(Err(m)) => Err(KlafsError::Parse(m)),
        None => Err(KlafsError::Parse(String::new())),
    }
}

/// Judge the reply to the login form.
fn judge_login(status: u16, body: &str, cookie: bool) -> (r: Result<Outcome, KlafsError>)
    ensures
        match verdict(Stage::SubmitLogin, status, body@, cookie, None) {
            Ok(o) => r matches Ok(x) && x@ == o,
            Err(e) => r matches Err(x) && x@ == e,
        },
{
    if str_contains(body, "Sicherheitskontrolle") || str_contains(body, "security check") {
        Err(KlafsError::AccountLocked)
    } else if str_contains(body, "Invalid login") || str_contains(body, "Ungültige Anmeldung") {
        Err(KlafsError::AuthenticationFailed { message: to_owned_string("Invalid username or password") })
    } else if 200 <= status && status < 400 {
        let token = match extract_verification_token(body) {
            Ok(t) => Some(t),
            Err(_) => None,
        };
        if !cookie {
            Err(KlafsError::AuthenticationFailed { message: to_owned_string("No session cookie received") })
        } else {
            Ok(Outcome::LoggedIn { verification_token: token })
        }
    } else {
        let mut message = to_owned_string("Login failed with status ");
        let d = status_display(status);
        message.append(d.as_str());
        Err(KlafsError::ApiError { status_code: status, message })
    }
}

/// Judge the reply to a power-on request.
fn judge_cabin(t: Option<(i32, i32)>, status: u16, body: String) -> (r: Result<Outcome, KlafsError>)
    ensures
        match verdict(Stage::StartCabin(t), status, body@, false, None) {
            Ok(o) => r matches Ok(x) && x@ == o,
            Err(e) => r matches Err(x) && x@ == e,
        },
{
    if status == 401 || status == 403 {
        Err(KlafsError::SessionExpired)
    } else if str_contains(body.as_str(), "PIN") && str_contains(body.as_str(), "invalid") {
        Err(KlafsError::InvalidPin)
    } else if !(200 <= status && status < 300) {
        Err(KlafsError::ApiError { status_code: status, message: body })
    } else {
        match cabin_rejection(body.as_str()) {
            Some(message) => Err(KlafsError::ApiError { status_code: status, message }),
            None => Ok(Outcome::Done),
        }
    }
}

/// Judge the reply to a stage (see [`verdict`]).
fn judge(st: Stage, status: u16, body: String, cookie: bool, parsed: Option<Result<SaunaStatus, String>>) -> (r: Result<Outcome, KlafsError>)
    ensures
        match verdict(st, status, body@, cookie, parsed) {
            Ok(o) => r matches Ok(x) && x@ == o,
            Err(e) => r matches Err(x) && x@ == e,
        },
{
    match st {
        Stage::LoadLoginPage => {
            if !(200 <= status && status < 300) {
                Err(KlafsError::ApiError { status_code: status, message: to_owned_string("Failed to load login page") })
            } else {
                Ok(Outcome::Done)
            }
        },
        Stage::SubmitLogin => judge_login(status, body.as_str(), cookie),
        Stage::FetchStatus => {
            match judge_status(status, body.as_str(), parsed) {
                Ok(s) => Ok(Outcome::Status(s)),
                Err(e) => Err(e),
            }
        },
        Stage::CheckSanarium => {
            if status == 401 || status == 403 {
                return Err(KlafsError::SessionExpired);
            }
            match judge_status(status, body.as_str(), parsed) {
                Ok(s) => if s.sanarium_selected {
                    Ok(Outcome::Done)
                } else {
                    Err(KlafsError::InvalidParameter {
                        message: to_owned_string("Humidity can only be set in Sanarium mode. Use 'set-mode sanarium' first."),
                    })
                },
                Err(_) => Ok(Outcome::Done),
            }
        },
        Stage::FetchSaunas => {
            match check_response_status(status, body.as_str()) {
                Err(e) => Err(e),
                Ok(()) => match extract_saunas_from_html(body.as_str()) {
                    Ok(v) => Ok(Outcome::Saunas(v)),
                    Err(e) => Err(e),
                },
            }
        },
        Stage::StartCabin(t) => judge_cabin(t, status, body),
        _ => {
            match check_response_status(status, body.as_str()) {
                Err(e) => Err(e),
                Ok(()) => Ok(Outcome::Done),
            }
        },
    }
}

/// The body of a POST.
fn post_request(url: String, body: RequestBody) -> (r: ApiRequest)
    ensures
        r@ == (ApiRequestView { method: HttpMethod::Post, url: url@, body: body@, reads_status: false }),
{
    ApiRequest { method: HttpMethod::Post, url, body, reads_status: false }
}

impl Flow {
    /// The login form of this flow.
    fn login_form(&self) -> (r: RequestBody)
        ensures
            r@ == (RequestBodyView::Form {
                params: form_params_spec(self@.username, self@.password, self@.login_token),
                text: form_text_spec(self@.username, self@.password, self@.login_token),
            }),
    {
        let mut params: Vec<(String, String)> = Vec::new();
        params.push((to_owned_string("UserName"), self.username.clone()));
        params.push((to_owned_string("Password"), self.password.clone()));
        params.push((to_owned_string("RememberMe"), to_owned_string("false")));
        let mut text = to_owned_string("UserName=");
        let u = url_encode(self.username.as_str());
        text.append(u.as_str());
        text.append("&Password=");
        let p = url_encode(self.password.as_str());
        text.append(p.as_str());
        text.append("&RememberMe=");
        let f = url_encode("false");
        text.append(f.as_str());
        let mut suffix = String::new();
        if let Some(t) = &self.login_token {
            params.push((to_owned_string("__RequestVerificationToken"), t.clone()));
            suffix = to_owned_string("&__RequestVerificationToken=");
            let e = url_encode(t.as_str());
            suffix.append(e.as_str());
        }
        text.append(suffix.as_str());
        proof {
            assert(params@.map_values(|p: (String, String)| (p.0@, p.1@)) =~= form_params_spec(self@.username, self@.password, self@.login_token));
        }
        RequestBody::Form { params, text }
    }

    /// The request a stage sends.
    fn request_for(&self, st: Stage) -> (r: ApiRequest)
        ensures
            r@ == request_spec(self@, st),
    {
        let id = self.sauna_id.clone();
        match st {
            Stage::LoadLoginPage => ApiRequest {
                method: HttpMethod::Get,
                url: self.url("/Account/Login"),
                body: RequestBody::Empty,
                reads_status: false,
            },
            Stage::SubmitLogin => post_request(self.url("/Account/Login"), self.login_form()),
            Stage::FetchStatus | Stage::CheckSanarium => {
                let mut url = self.url("/SaunaApp/GetData?id=");
                url.append(self.sauna_id.as_str());
                ApiRequest { method: HttpMethod::Get, url, body: RequestBody::Empty, reads_status: true }
            },
            Stage::FetchSaunas => ApiRequest {
                method: HttpMethod::Get,
                url: self.url("/SaunaApp/ChangeSettings"),
                body: RequestBody::Empty,
                reads_status: false,
            },
            Stage::ChangeHumLevel(level) => post_request(
                self.url("/SaunaApp/ChangeHumLevel"),
                RequestBody::SetHumidity(SetHumidityRequest { id, level }),
            ),
            Stage::SetSelectedTime(t) => {
                let (time_set, hours, minutes) = match t {
                    Some((h, m)) => (true, h, m),
                    None => (false, 0, 0),
                };
                post_request(
                    self.url("/SaunaApp/SetSelectedTime"),
                    RequestBody::SetSelectedTime(SetSelectedTimeRequest { id, time_set, hours, minutes }),
                )
            },
            Stage::StartCabin(t) => {
                let (time_selected, h, m) = match t {
                    Some((h, m)) => (true, h, m),
                    None => (false, 0, 0),
                };
                post_request(
                    self.url("/SaunaApp/StartCabin"),
                    RequestBody::PowerControl(PowerControlRequest {
                        id,
                        pin: self.pin.clone(),
                        time_selected,
                        sel_hour: Some(h),
                        sel_min: Some(m),
                    }),
                )
            },
            Stage::StopCabin => post_request(
                self.url("/SaunaApp/StopCabin"),
                RequestBody::StopCabin(StopCabinRequest { id }),
            ),
            Stage::SetMode(mode) => post_request(
                self.url("/SaunaApp/SetMode"),
                RequestBody::SetMode(SetModeRequest { id, selected_mode: mode.code() }),
            ),
            Stage::ChangeTemperature(temperature) => post_request(
                self.url("/SaunaApp/ChangeTemperature"),
                RequestBody::SetTemperature(SetTemperatureRequest { id, temperature }),
            ),
            Stage::FavoriteSelected(temp, hum_level, ir_level) => post_request(
                self.url("/SaunaApp/FavoriteSelected"),
                RequestBody::FavoriteSelected(FavoriteSelectedRequest { id, temp, hum_level, ir_level }),
            ),
            Stage::ConfigChange(st, sn, hl, h, m) => post_request(
                self.url("/SaunaApp/PostConfigChange"),
                RequestBody::ConfigChange(ConfigChangeRequest {
                    sauna_id: id,
                    selected_sauna_temperature: st,
                    selected_sanarium_temperature: sn,
                    selected_hum_level: hl,
                    selected_hour: h,
                    selected_minute: m,
                }),
            ),
        }
    }

    /// The request of the next stage; `None` once every stage has been answered.
    pub fn next_request(&self) -> (r: Option<ApiRequest>)
        ensures
            r is Some <==> self@.next < self@.stages.len(),
            r matches Some(q) ==> q@ == request_spec(self@, self@.stages[self@.next]),
    {
        proof {
            use_type_invariant(self);
        }
        if self.next >= self.stages.len() {
            return None;
        }
        Some(self.request_for(self.stages[self.next]))
    }

    /// The base URL followed by `path`.
    fn url(&self, path: &str) -> (r: String)
        ensures
            r@ == self@.base_url + path@,
    {
        let mut u = self.base_url.clone();
        u.append(path);
        u
    }

    /// Judge the reply to the pending request. `Some` when the flow ends: with the
    /// error the reply stands for, or, after the last stage, with what the flow
    /// yields; `None` when there is a next request to send. Once the flow has
    /// ended, it has no next request.
    pub fn on_reply(&mut self, reply: Reply) -> (r: Option<Result<Outcome, KlafsError>>)
        requires
            old(self)@.next < old(self)@.stages.len(),
        ensures
            r is Some <==> final(self)@.next == final(self)@.stages.len(),
            ({
                let f = old(self)@;
                let st = f.stages[f.next];
                let v = verdict(st, reply.status, reply.body@, reply.has_session_cookie, reply.sauna_status);
                &&& match v {
                    Err(e) => r matches Some(Err(x)) && x@ == e,
                    Ok(o) => if f.next + 1 == f.stages.len() {
                        r matches Some(Ok(out)) && out@ == o
                    } else {
                        r is None
                    },
                }
                &&& final(self)@ == (FlowView {
                    next: if v is Err { f.stages.len() as int } else { f.next + 1 },
                    login_token: if st is LoadLoginPage && v is Ok {
                        verification_token_spec(reply.body@)
                    } else {
                        f.login_token
                    },
                    ..f
                })
            }),
    {
        proof {
            use_type_invariant(&*self);
        }
        let st = self.stages[self.next];
        let last = self.stages.len() - self.next == 1;
        let is_login_page = match st { Stage::LoadLoginPage => true, _ => false };
        let token = if is_login_page {
            match extract_verification_token(reply.body.as_str()) {
                Ok(t) => Some(t),
                Err(_) => None,
            }
        } else {
            None
        };
        let result = judge(st, reply.status, reply.body, reply.has_session_cookie, reply.sauna_status);
        self.next = if result.is_ok() { self.next + 1 } else { self.stages.len() };
        if is_login_page && result.is_ok() {
            self.login_token = token;
        }
        match result {
            Err(e) => Some(Err(e)),
            Ok(o) => if last { Some(Ok(o)) } else { None },
        }
    }
}


/// Each stage sends its request to its own endpoint of the API, with the method
/// the API asks for: the pages and the status are read with GET, every change is
/// a POST.
pub proof fn lemma_stage_endpoints(f: FlowView)
    ensures
        request_spec(f, Stage::LoadLoginPage).method == HttpMethod::Get,
        request_spec(f, Stage::LoadLoginPage).url == f.base_url + "/Account/Login"@,
        request_spec(f, Stage::SubmitLogin).method == HttpMethod::Post,
        request_spec(f, Stage::SubmitLogin).url == f.base_url + "/Account/Login"@,
        request_spec(f, Stage::FetchStatus).method == HttpMethod::Get,
        request_spec(f, Stage::FetchStatus).url == f.base_url + "/SaunaApp/GetData?id="@ + f.sauna_id,
        request_spec(f, Stage::FetchStatus).reads_status,
        request_spec(f, Stage::CheckSanarium).method == HttpMethod::Get,
        request_spec(f, Stage::CheckSanarium).url == f.base_url + "/SaunaApp/GetData?id="@ + f.sauna_id,
        request_spec(f, Stage::CheckSanarium).reads_status,
        request_spec(f, Stage::FetchSaunas).method == HttpMethod::Get,
        request_spec(f, Stage::FetchSaunas).url == f.base_url + "/SaunaApp/ChangeSettings"@,
        request_spec(f, Stage::StopCabin).method == HttpMethod::Post,
        request_spec(f, Stage::StopCabin).url == f.base_url + "/SaunaApp/StopCabin"@,
        forall|l: i32| #[trigger] request_spec(f, Stage::ChangeHumLevel(l)).url == f.base_url + "/SaunaApp/ChangeHumLevel"@
            && request_spec(f, Stage::ChangeHumLevel(l)).method == HttpMethod::Post,
        forall|t: Option<(i32, i32)>| #[trigger] request_spec(f, Stage::SetSelectedTime(t)).url == f.base_url + "/SaunaApp/SetSelectedTime"@
            && request_spec(f, Stage::SetSelectedTime(t)).method == HttpMethod::Post,
        forall|t: Option<(i32, i32)>| #[trigger] request_spec(f, Stage::StartCabin(t)).url == f.base_url + "/SaunaApp/StartCabin"@
            && request_spec(f, Stage::StartCabin(t)).method == HttpMethod::Post,
        forall|m: SaunaMode| #[trigger] request_spec(f, Stage::SetMode(m)).url == f.base_url + "/SaunaApp/SetMode"@
            && request_spec(f, Stage::SetMode(m)).method == HttpMethod::Post,
        forall|t: i32| #[trigger] request_spec(f, Stage::ChangeTemperature(t)).url == f.base_url + "/SaunaApp/ChangeTemperature"@
            && request_spec(f, Stage::ChangeTemperature(t)).method == HttpMethod::Post,
        forall|t: i32, h: i32, i: i32| #[trigger] request_spec(f, Stage::FavoriteSelected(t, h, i)).url == f.base_url + "/SaunaApp/FavoriteSelected"@
            && request_spec(f, Stage::FavoriteSelected(t, h, i)).method == HttpMethod::Post,
        forall|a: Option<i32>, b: Option<i32>, c: Option<i32>, d: Option<i32>, e: Option<i32>|
            #[trigger] request_spec(f, Stage::ConfigChange(a, b, c, d, e)).url == f.base_url + "/SaunaApp/PostConfigChange"@
            && request_spec(f, Stage::ConfigChange(a, b, c, d, e)).method == HttpMethod::Post,
{
}

/// Powering off and powering on go to different endpoints: a power-off never
/// reaches the endpoint that starts the sauna.
pub proof fn lemma_stop_is_not_start(f: FlowView, t: Option<(i32, i32)>)
    ensures
        request_spec(f, Stage::StopCabin).url != request_spec(f, Stage::StartCabin(t)).url,
        request_spec(f, Stage::StopCabin).body is StopCabin,
{
    reveal_strlit("/SaunaApp/StopCabin");
    reveal_strlit("/SaunaApp/StartCabin");
    let b = f.base_url;
    let stop = b + "/SaunaApp/StopCabin"@;
    let start = b + "/SaunaApp/StartCabin"@;
    let k: int = b.len() as int + 12;
    assert(stop[k] == 'o' && start[k] == 'a');
}

/// The mode a SetMode request carries is the API number of the mode asked for:
/// 1 for sauna, 2 for sanarium, 3 for infrared, a number that reads back as that
/// mode; the request names the flow's sauna.
pub proof fn lemma_set_mode_request(f: FlowView, m: SaunaMode)
    ensures
        request_spec(f, Stage::SetMode(m)).body matches RequestBodyView::SetMode { id, selected_mode } && {
            &&& id == f.sauna_id
            &&& SaunaMode::from_code_spec(selected_mode) == Some(m)
            &&& selected_mode == match m {
                SaunaMode::Sauna => 1u8,
                SaunaMode::Sanarium => 2u8,
                SaunaMode::Infrared => 3u8,
            }
        },
{
}

/// A power-on starts now unless a time was given: the StartCabin request has
/// `time_selected` exactly when a schedule was given, the scheduled hour and
/// minute then, and 0 and 0 for an immediate start; it carries the flow's sauna
/// and PIN.
pub proof fn lemma_start_cabin_request(f: FlowView, t: Option<(i32, i32)>)
    ensures
        request_spec(f, Stage::StartCabin(t)).body matches RequestBodyView::PowerControl {
            id, pin, time_selected, sel_hour, sel_min,
        } && {
            &&& id == f.sauna_id
            &&& pin == f.pin
            &&& time_selected == (t is Some)
            &&& match t {
                Some((h, m)) => sel_hour == Some(h) && sel_min == Some(m),
                None => !time_selected && sel_hour == Some(0i32) && sel_min == Some(0i32),
            }
        },
{
}

/// Clearing the schedule sends `time_set` false; setting it sends `time_set`
/// true with the hour and minute given.
pub proof fn lemma_selected_time_request(f: FlowView, t: Option<(i32, i32)>)
    ensures
        request_spec(f, Stage::SetSelectedTime(t)).body matches RequestBodyView::SetSelectedTime {
            id, time_set, hours, minutes,
        } && {
            &&& id == f.sauna_id
            &&& time_set == (t is Some)
            &&& match t {
                Some((h, m)) => hours == h && minutes == m,
                None => !time_set && hours == 0 && minutes == 0,
            }
        },
{
}

/// Every request a flow sends goes to the flow's base URL.
pub proof fn lemma_requests_go_to_base_url(f: FlowView, st: Stage)
    ensures
        request_spec(f, st).url.len() >= f.base_url.len(),
        request_spec(f, st).url.subrange(0, f.base_url.len() as int) == f.base_url,
{
    let u = request_spec(f, st).url;
    let b = f.base_url;
    let p: Seq<char> = match st {
        Stage::LoadLoginPage | Stage::SubmitLogin => "/Account/Login"@,
        Stage::FetchStatus | Stage::CheckSanarium => "/SaunaApp/GetData?id="@ + f.sauna_id,
        Stage::FetchSaunas => "/SaunaApp/ChangeSettings"@,
        Stage::ChangeHumLevel(_) => "/SaunaApp/ChangeHumLevel"@,
        Stage::SetSelectedTime(_) => "/SaunaApp/SetSelectedTime"@,
        Stage::StartCabin(_) => "/SaunaApp/StartCabin"@,
        Stage::StopCabin => "/SaunaApp/StopCabin"@,
        Stage::SetMode(_) => "/SaunaApp/SetMode"@,
        Stage::ChangeTemperature(_) => "/SaunaApp/ChangeTemperature"@,
        Stage::FavoriteSelected(_, _, _) => "/SaunaApp/FavoriteSelected"@,
        Stage::ConfigChange(_, _, _, _, _) => "/SaunaApp/PostConfigChange"@,
    };
    assert(u =~= b + p);
    assert((b + p).subrange(0, b.len() as int) =~= b);
}

/// Once logged in, a refused session (401 or 403) ends any step with
/// `SessionExpired`, whatever the body says.
pub proof fn lemma_refused_session_expires(st: Stage, status: u16, body: Seq<char>, cookie: bool, parsed: Option<Result<SaunaStatus, String>>)
    requires
        session_refused(status),
        !(st is LoadLoginPage),
        !(st is SubmitLogin),
    ensures
        verdict(st, status, body, cookie, parsed) == Err::<OutcomeView, KlafsErrorView>(KlafsErrorView::SessionExpired),
{
}

/// A login is accepted only with a 2xx or 3xx answer that left a session cookie,
/// and never when the answer mentions the security check or an invalid login.
pub proof fn lemma_login_needs_session_cookie(status: u16, body: Seq<char>, cookie: bool)
    ensures
        verdict(Stage::SubmitLogin, status, body, cookie, None) is Ok ==> {
            &&& cookie
            &&& is_success(status) || is_redirection(status)
            &&& !has_sub(body, "security check"@)
            &&& !has_sub(body, "Invalid login"@)
        },
        has_sub(body, "security check"@) ==> verdict(Stage::SubmitLogin, status, body, cookie, None)
            == Err::<OutcomeView, KlafsErrorView>(KlafsErrorView::AccountLocked),
{
}

/// A combined configuration sends a single request, to PostConfigChange, and
/// that request carries exactly the settings given: each one given is sent with
/// its value, each one not given is left out.
pub proof fn lemma_configure_sends_every_setting(
    f: FlowView,
    sauna_temperature: Option<i32>,
    sanarium_temperature: Option<i32>,
    humidity_level: Option<i32>,
    hour: Option<i32>,
    minute: Option<i32>,
)
    ensures
        configure_plan(sauna_temperature, sanarium_temperature, humidity_level, hour, minute).len() == 1,
        request_spec(f, configure_plan(sauna_temperature, sanarium_temperature, humidity_level, hour, minute)[0])
            == post(f, "/SaunaApp/PostConfigChange"@, RequestBodyView::ConfigChange {
                sauna_id: f.sauna_id,
                selected_sauna_temperature: sauna_temperature,
                selected_sanarium_temperature: sanarium_temperature,
                selected_hum_level: humidity_level,
                selected_hour: hour,
                selected_minute: minute,
            }),
{
}

/// The status check before a humidity change refuses it only when the session is
/// refused, or when a status was read and shows another mode than sanarium; a
/// status that could not be read lets the change go on.
pub proof fn lemma_sanarium_check(status: u16, body: Seq<char>, cookie: bool, parsed: Option<Result<SaunaStatus, String>>)
    ensures
        verdict(Stage::CheckSanarium, status, body, cookie, parsed) == if session_refused(status) {
            Err::<OutcomeView, KlafsErrorView>(KlafsErrorView::SessionExpired)
        } else if is_success(status) && (parsed matches Some(Ok(s)) && !s.sanarium_selected) {
            Err(KlafsErrorView::InvalidParameter { message: not_sanarium_text() })
        } else {
            Ok(OutcomeView::Done)
        },
{
}

/// A parameter out of range is refused before any request is sent: the flow is
/// not even created.
pub proof fn lemma_bad_temperature_sends_nothing(id: Seq<char>, temperature: i32)
    requires
        !(10 <= temperature <= 100),
    ensures
        first_error(id_error(id), range_error("Temperature (°C)"@, 10, 100, temperature as int)) is Some,
{
}

} // verus!

verus! {

/// Each change request carries the flow's sauna and exactly the values asked
/// for.
pub proof fn lemma_change_request_values(f: FlowView, t: i32, l: i32, h: i32, i: i32)
    ensures
        request_spec(f, Stage::ChangeTemperature(t)).body == (RequestBodyView::SetTemperature { id: f.sauna_id, temperature: t }),
        request_spec(f, Stage::ChangeHumLevel(l)).body == (RequestBodyView::SetHumidity { id: f.sauna_id, level: l }),
        request_spec(f, Stage::FavoriteSelected(t, h, i)).body == (RequestBodyView::FavoriteSelected {
            id: f.sauna_id,
            temp: t,
            hum_level: h,
            ir_level: i,
        }),
        request_spec(f, Stage::StopCabin).body == (RequestBodyView::StopCabin { id: f.sauna_id }),
        request_spec(f, Stage::LoadLoginPage).body == RequestBodyView::Empty,
        request_spec(f, Stage::FetchStatus).body == RequestBodyView::Empty,
{
}

/// The login form sends the user name and password it was given, and the
/// page's anti-forgery token when there was one.
pub proof fn lemma_login_form_carries_credentials(f: FlowView)
    ensures
        request_spec(f, Stage::SubmitLogin).body matches RequestBodyView::Form { params, text } && {
            &&& params[0] == ("UserName"@, f.username)
            &&& params[1] == ("Password"@, f.password)
            &&& params[2] == ("RememberMe"@, "false"@)
            &&& params.len() == (if f.login_token is Some { 4int } else { 3int })
            &&& f.login_token matches Some(tok) ==> params[3] == ("__RequestVerificationToken"@, tok)
        },
{
}

/// A change is done exactly when its reply has a 2xx status; a refused session
/// ends it with `SessionExpired`, and any other status with an API error that
/// carries the status and the reply's body.
pub proof fn lemma_change_verdict(st: Stage, status: u16, body: Seq<char>, cookie: bool, parsed: Option<Result<SaunaStatus, String>>)
    requires
        st is ChangeHumLevel || st is SetSelectedTime || st is StopCabin || st is SetMode
            || st is ChangeTemperature || st is FavoriteSelected || st is ConfigChange,
    ensures
        verdict(st, status, body, cookie, parsed) == if session_refused(status) {
            Err::<OutcomeView, KlafsErrorView>(KlafsErrorView::SessionExpired)
        } else if 200 <= status < 300 {
            Ok(OutcomeView::Done)
        } else {
            Err(KlafsErrorView::ApiError { status_code: status, message: body })
        },
{
}

/// Reading a status yields the status the reply was parsed into when the reply
/// is a 2xx; a refused session is `SessionExpired`, another status an API error
/// with the body, and a body that does not parse a parse error.
pub proof fn lemma_status_verdict(status: u16, body: Seq<char>, cookie: bool, parsed: Option<Result<SaunaStatus, String>>)
    ensures
        verdict(Stage::FetchStatus, status, body, cookie, parsed) == if session_refused(status) {
            Err::<OutcomeView, KlafsErrorView>(KlafsErrorView::SessionExpired)
        } else if !(200 <= status < 300) {
            Err(KlafsErrorView::ApiError { status_code: status, message: body })
        } else {
            match parsed {
                Some(Ok(s)) => Ok(OutcomeView::Status(s)),
                Some(Err(m)) => Err(KlafsErrorView::Parse(m@)),
                None => Err(KlafsErrorView::Parse(Seq::empty())),
            }
        },
{
}

} // verus!

verus! {

/// A power-on reply that speaks of an invalid PIN is `InvalidPin` (unless the
/// session was refused); a 2xx reply that neither does so nor reports
/// `"Success": false` starts the sauna.
pub proof fn lemma_start_verdict(t: Option<(i32, i32)>, status: u16, body: Seq<char>, cookie: bool)
    ensures
        !session_refused(status) && has_sub(body, "PIN"@) && has_sub(body, "invalid"@)
            ==> verdict(Stage::StartCabin(t), status, body, cookie, None)
                == Err::<OutcomeView, KlafsErrorView>(KlafsErrorView::InvalidPin),
        session_refused(status) ==> verdict(Stage::StartCabin(t), status, body, cookie, None)
            == Err::<OutcomeView, KlafsErrorView>(KlafsErrorView::SessionExpired),
        200 <= status < 300 && !(has_sub(body, "PIN"@) && has_sub(body, "invalid"@)) && cabin_rejection_spec(body) is None
            ==> verdict(Stage::StartCabin(t), status, body, cookie, None) == Ok::<OutcomeView, KlafsErrorView>(OutcomeView::Done),
{
}

} // verus!
