//! Data models of the sauna API: modes, status codes and the status record.
use vstd::prelude::*;
use vstd::string::*;
use crate::text::{int_string, int_text, pad2_string, pad2_text, to_owned_string};

verus! {

/// Information about a registered sauna.
#[derive(Debug, Clone)]
pub struct SaunaInfo {
    /// Unique identifier (UUID) for the sauna.
    pub id: String,
    /// Display name of the sauna.
    pub name: String,
}

/// The abstract content of a [`SaunaInfo`].
pub struct SaunaInfoView {
    pub id: Seq<char>,
    pub name: Seq<char>,
}

impl View for SaunaInfo {
    type V = SaunaInfoView;

    open spec fn view(&self) -> SaunaInfoView {
        SaunaInfoView { id: self.id@, name: self.name@ }
    }
}

/// Operating mode for the sauna.
#[derive(Debug, Clone, Copy, PartialEq, Eq, Structural)]
pub enum SaunaMode {
    /// Traditional sauna mode (dry heat, 10-100°C).
    Sauna,
    /// Sanarium mode (humid heat, 40-75°C).
    Sanarium,
    /// Infrared mode.
    Infrared,
}

impl SaunaMode {
    /// The number by which the API names a mode.
    pub open spec fn code_spec(self) -> u8 {
        match self {
            SaunaMode::Sauna => 1,
            SaunaMode::Sanarium => 2,
            SaunaMode::Infrared => 3,
        }
    }

    /// The mode an API number names, if any.
    pub open spec fn from_code_spec(value: u8) -> Option<SaunaMode> {
        if value == 1 {
            Some(SaunaMode::Sauna)
        } else if value == 2 {
            Some(SaunaMode::Sanarium)
        } else if value == 3 {
            Some(SaunaMode::Infrared)
        } else {
            None
        }
    }

    /// The display name of a mode.
    pub open spec fn name_text(self) -> Seq<char> {
        match self {
            SaunaMode::Sauna => "Sauna"@,
            SaunaMode::Sanarium => "Sanarium"@,
            SaunaMode::Infrared => "Infrared"@,
        }
    }

    /// The message given for a number that names no mode.
    pub open spec fn invalid_code_text(value: u8) -> Seq<char> {
        "Invalid sauna mode: "@ + int_text(value as int)
    }

    /// The API number of this mode.
    pub fn code(self) -> (c: u8)
        ensures
            c == self.code_spec(),
    {
        match self {
            SaunaMode::Sauna => 1,
            SaunaMode::Sanarium => 2,
            SaunaMode::Infrared => 3,
        }
    }

    /// The mode with API number `value`; numbers other than 1, 2 and 3 are refused.
    pub fn from_code(value: u8) -> (r: Result<SaunaMode, String>)
        ensures
            r is Ok <==> Self::from_code_spec(value) is Some,
            r matches Ok(m) ==> Self::from_code_spec(value) == Some(m),
            r matches Err(e) ==> e@ == Self::invalid_code_text(value),
    {
        if value == 1 {
            Ok(SaunaMode::Sauna)
        } else if value == 2 {
            Ok(SaunaMode::Sanarium)
        } else if value == 3 {
            Ok(SaunaMode::Infrared)
        } else {
            let mut msg = to_owned_string("Invalid sauna mode: ");
            let n = int_string(value as i64);
            msg.append(n.as_str());
            Err(msg)
        }
    }

    /// The display name of this mode ("Sauna", "Sanarium" or "Infrared").
    pub fn display(&self) -> (s: String)
        ensures
            s@ == self.name_text(),
    {
        match self {
            SaunaMode::Sauna => to_owned_string("Sauna"),
            SaunaMode::Sanarium => to_owned_string("Sanarium"),
            SaunaMode::Infrared => to_owned_string("Infrared"),
        }
    }
}

/// Converting a mode to its number and back gives the mode again, and the numbers
/// that name a mode are exactly 1, 2 and 3.
pub proof fn lemma_mode_code_round_trip(m: SaunaMode, value: u8)
    ensures
        SaunaMode::from_code_spec(m.code_spec()) == Some(m),
        1 <= m.code_spec() <= 3,
        SaunaMode::from_code_spec(value) is Some <==> 1 <= value <= 3,
        SaunaMode::from_code_spec(value) matches Some(n) ==> n.code_spec() == value,
{
}

impl From<SaunaMode> for u8 {
    fn from(mode: SaunaMode) -> (r: u8) {
        mode.code()
    }
}

impl vstd::std_specs::convert::FromSpecImpl<SaunaMode> for u8 {
    open spec fn obeys_from_spec() -> bool {
        true
    }

    open spec fn from_spec(mode: SaunaMode) -> u8 {
        mode.code_spec()
    }
}

/// Status code returned by the API.
#[derive(Debug, Clone, Copy, PartialEq, Eq, Structural)]
pub enum StatusCode {
    /// Sauna is off.
    Off,
    /// Sauna is heating up.
    HeatingUp,
    /// Sauna is ready for use.
    Ready,
    /// Sauna is in standby/idle.
    Standby,
    /// Unknown status.
    Unknown(i32),
}

impl StatusCode {
    /// The status an API number stands for.
    pub open spec fn from_code_spec(value: i32) -> StatusCode {
        if value == 0 {
            StatusCode::Off
        } else if value == 1 {
            StatusCode::HeatingUp
        } else if value == 2 {
            StatusCode::Ready
        } else if value == 3 {
            StatusCode::Standby
        } else {
            StatusCode::Unknown(value)
        }
    }

    /// The display text of a status.
    pub open spec fn name_text(self) -> Seq<char> {
        match self {
            StatusCode::Off => "Off"@,
            StatusCode::HeatingUp => "Heating Up"@,
            StatusCode::Ready => "Ready"@,
            StatusCode::Standby => "Standby"@,
            StatusCode::Unknown(code) => "Unknown ("@ + int_text(code as int) + ")"@,
        }
    }

    /// The status an API number stands for (0 to 3 are known, any other is `Unknown`).
    pub fn from_code(value: i32) -> (s: StatusCode)
        ensures
            s == Self::from_code_spec(value),
    {
        if value == 0 {
            StatusCode::Off
        } else if value == 1 {
            StatusCode::HeatingUp
        } else if value == 2 {
            StatusCode::Ready
        } else if value == 3 {
            StatusCode::Standby
        } else {
            StatusCode::Unknown(value)
        }
    }

    /// The display text of this status.
    pub fn display(&self) -> (s: String)
        ensures
            s@ == self.name_text(),
    {
        match self {
            StatusCode::Off => to_owned_string("Off"),
            StatusCode::HeatingUp => to_owned_string("Heating Up"),
            StatusCode::Ready => to_owned_string("Ready"),
            StatusCode::Standby => to_owned_string("Standby"),
            StatusCode::Unknown(code) => {
                let mut s = to_owned_string("Unknown (");
                let n = int_string(*code as i64);
                s.append(n.as_str());
                s.append(")");
                s
            },
        }
    }
}

impl From<i32> for StatusCode {
    fn from(value: i32) -> (r: StatusCode) {
        StatusCode::from_code(value)
    }
}

impl vstd::std_specs::convert::FromSpecImpl<i32> for StatusCode {
    open spec fn obeys_from_spec() -> bool {
        true
    }

    open spec fn from_spec(value: i32) -> StatusCode {
        StatusCode::from_code_spec(value)
    }
}

/// Every number is read as some status, and a status that is not `Unknown`
/// comes from exactly one of the numbers 0 to 3.
pub proof fn lemma_status_code_total(value: i32)
    ensures
        (0 <= value <= 3) <==> !(StatusCode::from_code_spec(value) is Unknown),
        StatusCode::from_code_spec(value) matches StatusCode::Unknown(c) ==> c == value,
{
}

/// Full sauna status as returned by the status endpoint.
#[derive(Debug, Clone)]
pub struct SaunaStatus {
    /// Unique identifier for this sauna.
    pub sauna_id: String,
    /// Whether traditional sauna mode is selected.
    pub sauna_selected: bool,
    /// Whether sanarium mode is selected.
    pub sanarium_selected: bool,
    /// Whether infrared mode is selected.
    pub ir_selected: bool,
    /// Target temperature for sauna mode (10-100°C).
    pub selected_sauna_temperature: i32,
    /// Target temperature for sanarium mode (40-75°C).
    pub selected_sanarium_temperature: i32,
    /// Target temperature for infrared mode.
    pub selected_ir_temperature: i32,
    /// Humidity level for sanarium mode (1-10).
    pub selected_hum_level: i32,
    /// Infrared level (1-10).
    pub selected_ir_level: i32,
    /// Scheduled start hour (0-23).
    pub selected_hour: i32,
    /// Scheduled start minute (0-59).
    pub selected_minute: i32,
    /// Whether the sauna is connected to the network.
    pub is_connected: bool,
    /// Whether the sauna is currently powered on.
    pub is_powered_on: bool,
    /// Whether the sauna is ready for use (reached target temperature).
    pub is_ready_for_use: bool,
    /// Current measured temperature in °C.
    pub current_temperature: i32,
    /// Current measured humidity percentage.
    pub current_humidity: i32,
    /// Status code (see [`StatusCode`]).
    pub status_code: i32,
    /// Optional status message.
    pub status_message: Option<String>,
    /// Whether to show bathing hours.
    pub show_bathing_hour: bool,
    /// Remaining bathing hours.
    pub bathing_hours: i32,
    /// Remaining bathing minutes.
    pub bathing_minutes: i32,
    /// Current humidity status indicator.
    pub current_humidity_status: i32,
    /// Current temperature status indicator.
    pub current_temperature_status: i32,
}

impl SaunaStatus {
    /// The selected mode: the first of sauna, sanarium, infrared whose flag is set.
    pub open spec fn current_mode_spec(&self) -> Option<SaunaMode> {
        if self.sauna_selected {
            Some(SaunaMode::Sauna)
        } else if self.sanarium_selected {
            Some(SaunaMode::Sanarium)
        } else if self.ir_selected {
            Some(SaunaMode::Infrared)
        } else {
            None
        }
    }

    /// The target temperature of the selected mode (the sauna one when none is selected).
    pub open spec fn target_temperature_spec(&self) -> i32 {
        if self.sauna_selected {
            self.selected_sauna_temperature
        } else if self.sanarium_selected {
            self.selected_sanarium_temperature
        } else if self.ir_selected {
            self.selected_ir_temperature
        } else {
            self.selected_sauna_temperature
        }
    }

    /// The remaining bathing time as `{hours}h {minutes:02}m`.
    pub open spec fn remaining_time_text(&self) -> Seq<char> {
        int_text(self.bathing_hours as int) + "h "@ + pad2_text(self.bathing_minutes as int) + "m"@
    }

    /// Get the currently selected mode.
    pub fn current_mode(&self) -> (m: Option<SaunaMode>)
        ensures
            m == self.current_mode_spec(),
    {
        if self.sauna_selected {
            Some(SaunaMode::Sauna)
        } else if self.sanarium_selected {
            Some(SaunaMode::Sanarium)
        } else if self.ir_selected {
            Some(SaunaMode::Infrared)
        } else {
            None
        }
    }

    /// Get the target temperature for the currently selected mode.
    pub fn target_temperature(&self) -> (t: i32)
        ensures
            t == self.target_temperature_spec(),
    {
        if self.sauna_selected {
            self.selected_sauna_temperature
        } else if self.sanarium_selected {
            self.selected_sanarium_temperature
        } else if self.ir_selected {
            self.selected_ir_temperature
        } else {
            self.selected_sauna_temperature
        }
    }

    /// Get the status code as an enum.
    pub fn status(&self) -> (s: StatusCode)
        ensures
            s == StatusCode::from_code_spec(self.status_code),
    {
        StatusCode::from_code(self.status_code)
    }

    /// Get remaining bathing time as a formatted string, e.g. `1h 05m`.
    pub fn remaining_time(&self) -> (s: String)
        ensures
            s@ == self.remaining_time_text(),
    {
        let mut s = int_string(self.bathing_hours as i64);
        s.append("h ");
        let m = pad2_string(self.bathing_minutes as i64);
        s.append(m.as_str());
        s.append("m");
        s
    }
}

/// The target temperature is that of the mode `current_mode` reports, and the
/// sauna temperature when no mode is selected.
pub proof fn lemma_target_temperature_follows_mode(s: SaunaStatus)
    ensures
        s.target_temperature_spec() == match s.current_mode_spec() {
            Some(SaunaMode::Sauna) => s.selected_sauna_temperature,
            Some(SaunaMode::Sanarium) => s.selected_sanarium_temperature,
            Some(SaunaMode::Infrared) => s.selected_ir_temperature,
            None => s.selected_sauna_temperature,
        },
{
}

/// Request body for the power-on endpoint.
#[derive(Debug, Clone)]
pub struct PowerControlRequest {
    pub id: String,
    pub pin: String,
    pub time_selected: bool,
    pub sel_hour: Option<i32>,
    pub sel_min: Option<i32>,
}

/// Request body for the power-off endpoint.
#[derive(Debug, Clone)]
pub struct StopCabinRequest {
    pub id: String,
}

/// Request body for setting temperature.
#[derive(Debug, Clone)]
pub struct SetTemperatureRequest {
    pub id: String,
    pub temperature: i32,
}

/// Request body for setting humidity level.
#[derive(Debug, Clone)]
pub struct SetHumidityRequest {
    pub id: String,
    pub level: i32,
}

/// Request body for setting mode.
#[derive(Debug, Clone)]
pub struct SetModeRequest {
    pub id: String,
    pub selected_mode: u8,
}

/// Request body for the scheduled-time endpoint (schedule without starting).
#[derive(Debug, Clone)]
pub struct SetSelectedTimeRequest {
    pub id: String,
    pub time_set: bool,
    pub hours: i32,
    pub minutes: i32,
}

/// Request body for changing several settings at once: only the settings that
/// are given are sent.
#[derive(Debug, Clone)]
pub struct ConfigChangeRequest {
    pub sauna_id: String,
    pub selected_sauna_temperature: Option<i32>,
    pub selected_sanarium_temperature: Option<i32>,
    pub selected_hum_level: Option<i32>,
    pub selected_hour: Option<i32>,
    pub selected_minute: Option<i32>,
}

/// Request body for applying favorite settings.
#[derive(Debug, Clone)]
pub struct FavoriteSelectedRequest {
    pub id: String,
    pub temp: i32,
    pub hum_level: i32,
    pub ir_level: i32,
}

} // verus!
