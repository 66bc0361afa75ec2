//! The commands of the command line, and what each of them asks of a device.

use vstd::prelude::*;
use vstd::string::{StringExecFns, to_string_from_display_ensures};
use crate::bulb::{
    DevInfoDataBulb, DevReqBulbColorType, DevReqBulbColorTypeCW, DevReqBulbColorTypeRGB,
    SonoffBulb, bulb_json,
};
use crate::codec::ToJson;
use crate::device::{
    DevRes, HttpReply, SonoffDevice, Step, is_decoded, reply_data, reply_envelope, sends_to,
};
use crate::device_common::{DevInfo, WifiSetupReq, reply_device_part};
use crate::dimmable::SonoffDimmable;
use crate::dimmer::{DevInfoDataDimmer, SonoffDimmer, dimmer_json};
use crate::error::SonoffError;
use crate::json::JsonModel;
use crate::switch::{SonoffSwitch, pulse_json};
use crate::switchable::{
    SonoffSwitchable, startup_json, switch_json, switch_outcome_of, toggled,
};

verus! {

/// What to do with a switch.
#[derive(Debug, Clone, PartialEq, Eq)]
pub enum SwitchCommand {
    On,
    Off,
    Toggle,
    Get,
    Pulse { milliseconds: u32 },
    /// Set startup state ("on", "off", or "stay")
    Startup { startup: String },
}

/// What to do with a bulb.
#[derive(Debug, Clone, PartialEq, Eq)]
pub enum BulbCommand {
    On,
    Off,
    Toggle,
    Get,
    Rgb { brightness: u8, red: u8, green: u8, blue: u8 },
    White { brightness: u8, temperature: u8 },
}

/// What to do with a dimmer.
#[derive(Debug, Clone, PartialEq, Eq)]
pub enum DimmerCommand {
    On,
    Off,
    Toggle,
    Get,
    Dim { brightness: u8 },
    /// Set startup state ("on", "off", or "stay")
    Startup { startup: String },
}

/// What to do with the device at the address given.
#[derive(Debug, Clone, PartialEq, Eq)]
pub enum Command {
    /// Get information about the device
    Info,
    /// Set device Wi-Fi network
    Wifi { ssid: String, password: String },
    /// Get or set switch state on switchable devices
    Switch { switch_cmd: Option<SwitchCommand> },
    /// Get or set settings on bulb devices
    Bulb { bulb_cmd: Option<BulbCommand> },
    /// Get or set settings on dimmer devices
    Dimmer { dimmer_cmd: Option<DimmerCommand> },
}

/// What a command has to show when it has ended.
#[derive(Debug, Clone, PartialEq)]
pub enum Output {
    /// The command was carried out; there is nothing to show.
    Nothing,
    /// The info of the device.
    Info(DevInfo),
    /// Whether the device is switched on.
    Switch(bool),
    /// What a bulb says of itself.
    Bulb(DevInfoDataBulb),
    /// What a dimmer says of itself.
    Dimmer(DevInfoDataDimmer),
}

/// The line `label=value`.
pub open spec fn text_line(label: Seq<char>, value: Seq<char>) -> Seq<char> {
    label + "="@ + value
}

/// Whether `line` is `label=` and then the number `n`, as `i64` prints
/// itself.
pub open spec fn is_number_line(line: Seq<char>, label: Seq<char>, n: i64) -> bool {
    exists|text: String| #[trigger]
        to_string_from_display_ensures::<i64>(&n, text) && line == text_line(label, text@)
}

/// The text that shows a boolean.
pub open spec fn bool_text(b: bool) -> Seq<char> {
    if b {
        "true"@
    } else {
        "false"@
    }
}

/// The text of an optional string: the empty text where there is none.
pub open spec fn text_or_empty(s: Option<String>) -> Seq<char> {
    match s {
        Some(s) => s@,
        None => Seq::<char>::empty(),
    }
}

/// Whether `lines` show `output`: nothing for a command that was carried
/// out; for an info its six members, what is missing as the empty text, 0 or
/// `false`; for a switch whether it is on; for a bulb its switch and the
/// values of its light; for a dimmer its switch and its brightness.
pub open spec fn shows(lines: Seq<String>, output: Output) -> bool {
    match output {
        Output::Nothing => lines.len() == 0,
        Output::Info(info) => {
            &&& lines.len() == 6
            &&& lines[0]@ == text_line("deviceid"@, info.deviceid@)
            &&& lines[1]@ == text_line("ssid"@, text_or_empty(info.ssid))
            &&& lines[2]@ == text_line("bssid"@, text_or_empty(info.bssid))
            &&& is_number_line(
                lines[3]@,
                "signal_strength"@,
                match info.signal_strength {
                    Some(n) => n as i64,
                    None => 0,
                },
            )
            &&& lines[4]@ == text_line("fw_version"@, text_or_empty(info.fw_version))
            &&& lines[5]@ == text_line(
                "ota_unlock"@,
                bool_text(
                    match info.ota_unlock {
                        Some(b) => b,
                        None => false,
                    },
                ),
            )
        },
        Output::Switch(on) => lines.len() == 1 && lines[0]@ == bool_text(on),
        Output::Bulb(info) => {
            &&& lines.len() >= 1
            &&& lines[0]@ == text_line("switch"@, info.switch@)
            &&& match info.color_type {
                DevReqBulbColorType::Color(c) => {
                    &&& lines.len() == 5
                    &&& is_number_line(lines[1]@, "brightness"@, c.br as i64)
                    &&& is_number_line(lines[2]@, "red"@, c.r as i64)
                    &&& is_number_line(lines[3]@, "green"@, c.g as i64)
                    &&& is_number_line(lines[4]@, "blue"@, c.b as i64)
                },
                DevReqBulbColorType::White(w) => {
                    &&& lines.len() == 3
                    &&& is_number_line(lines[1]@, "brightness"@, w.br as i64)
                    &&& is_number_line(lines[2]@, "temperature"@, w.ct as i64)
                },
            }
        },
        Output::Dimmer(info) => {
            &&& lines.len() == 2
            &&& lines[0]@ == text_line("switch"@, info.switch@)
            &&& is_number_line(lines[1]@, "brightness"@, info.brightness as i64)
        },
    }
}

/// What the user is told of a failure: for a command that is missing, or
/// that lacks its sub-command, which one is, and else the message of the
/// error.
pub open spec fn failure_text(error: SonoffError, command: Option<Command>) -> Seq<char> {
    match (error, command) {
        (SonoffError::InvalidCommand, None) => "No command"@,
        (SonoffError::InvalidCommand, Some(Command::Switch { .. })) => "Invalid switch command"@,
        (SonoffError::InvalidCommand, Some(Command::Bulb { .. })) => "Invalid bulb command"@,
        (SonoffError::InvalidCommand, Some(Command::Dimmer { .. })) => "Invalid dimmer command"@,
        (SonoffError::InvalidCommand, _) => "Invalid command"@,
        (SonoffError::TransportError, _) => "HTTP request failed"@,
        (SonoffError::SerializationError, _) => "Malformed JSON"@,
        (SonoffError::EmptyResponseData, _) => "Bad response from device"@,
    }
}

/// Whether `r` ends a command that shows nothing on `reply`: done where the
/// reply holds an envelope, and else the error that the reply is.
pub open spec fn acks(r: Result<Step<Output>, SonoffError>, reply: HttpReply) -> bool {
    r == match reply_envelope(reply) {
        Ok(_) => Ok::<Step<Output>, SonoffError>(Step::Done(Output::Nothing)),
        Err(e) => Err(e),
    }
}

/// Whether `r` is the step of a command of one exchange that shows nothing:
/// the POST of `data` to `path`, then the end on the reply.
pub open spec fn commands(
    r: Result<Step<Output>, SonoffError>,
    address: Seq<char>,
    id: Seq<char>,
    replies: Seq<HttpReply>,
    path: Seq<char>,
    data: JsonModel,
) -> bool {
    &&& replies.len() == 0 ==> sends_to(r, address, id, path, data)
    &&& replies.len() > 0 ==> acks(r, replies[0])
}

/// Whether `r` is the step of asking a device of kind `S` whether it is
/// switched on: the info query, then the end with the state that the reply
/// tells.
pub open spec fn runs_get_switch<S: SonoffSwitchable>(
    r: Result<Step<Output>, SonoffError>,
    address: Seq<char>,
    id: Seq<char>,
    replies: Seq<HttpReply>,
) -> bool {
    &&& replies.len() == 0 ==> sends_to(
        r,
        address,
        id,
        "/info"@,
        JsonModel::empty_object(),
    )
    &&& replies.len() > 0 ==> r == match switch_outcome_of::<S>(replies[0]) {
        Ok(on) => Ok::<Step<Output>, SonoffError>(Step::Done(Output::Switch(on))),
        Err(e) => Err(e),
    }
}

/// Whether `r` is the step of toggling a device of kind `S`: the info query;
/// on its reply one command to the switch, "off" where the device is on and
/// "on" where it is not, or the error where the reply does not tell; on the
/// second reply the end.
pub open spec fn runs_toggle<S: SonoffSwitchable>(
    r: Result<Step<Output>, SonoffError>,
    address: Seq<char>,
    id: Seq<char>,
    replies: Seq<HttpReply>,
) -> bool {
    &&& replies.len() == 0 ==> sends_to(
        r,
        address,
        id,
        "/info"@,
        JsonModel::empty_object(),
    )
    &&& replies.len() > 0 ==> match switch_outcome_of::<S>(replies[0]) {
        Ok(on) => {
            &&& replies.len() == 1 ==> sends_to(
                r,
                address,
                id,
                "/switch"@,
                switch_json(toggled(on)),
            )
            &&& replies.len() > 1 ==> acks(r, replies[1])
        },
        Err(e) => r == Err::<Step<Output>, SonoffError>(e),
    }
}

/// Whether `r` is the step of showing the info of a device.
pub open spec fn shows_info(
    r: Result<Step<Output>, SonoffError>,
    address: Seq<char>,
    id: Seq<char>,
    replies: Seq<HttpReply>,
) -> bool {
    &&& replies.len() == 0 ==> sends_to(
        r,
        address,
        id,
        "/info"@,
        JsonModel::empty_object(),
    )
    &&& replies.len() > 0 ==> match r {
        Ok(Step::Done(Output::Info(info))) => is_decoded(Ok(info), reply_data(replies[0])),
        Ok(_) => false,
        Err(e) => is_decoded(Err::<DevInfo, SonoffError>(e), reply_data(replies[0])),
    }
}

/// Whether `r` is the step of showing what a bulb says of itself.
pub open spec fn shows_bulb(
    r: Result<Step<Output>, SonoffError>,
    address: Seq<char>,
    id: Seq<char>,
    replies: Seq<HttpReply>,
) -> bool {
    &&& replies.len() == 0 ==> sends_to(
        r,
        address,
        id,
        "/info"@,
        JsonModel::empty_object(),
    )
    &&& replies.len() > 0 ==> match r {
        Ok(Step::Done(Output::Bulb(info))) => is_decoded(
            Ok(info),
            reply_device_part(replies[0]),
        ),
        Ok(_) => false,
        Err(e) => is_decoded(Err::<DevInfoDataBulb, SonoffError>(e), reply_device_part(replies[0])),
    }
}

/// Whether `r` is the step of showing what a dimmer says of itself.
pub open spec fn shows_dimmer(
    r: Result<Step<Output>, SonoffError>,
    address: Seq<char>,
    id: Seq<char>,
    replies: Seq<HttpReply>,
) -> bool {
    &&& replies.len() == 0 ==> sends_to(
        r,
        address,
        id,
        "/info"@,
        JsonModel::empty_object(),
    )
    &&& replies.len() > 0 ==> match r {
        Ok(Step::Done(Output::Dimmer(info))) => is_decoded(
            Ok(info),
            reply_device_part(replies[0]),
        ),
        Ok(_) => false,
        Err(e) => is_decoded(
            Err::<DevInfoDataDimmer, SonoffError>(e),
            reply_device_part(replies[0]),
        ),
    }
}

/// Whether `r` is the step of `command` on the switch at `address`.
pub open spec fn runs_switch(
    r: Result<Step<Output>, SonoffError>,
    address: Seq<char>,
    id: Seq<char>,
    command: SwitchCommand,
    replies: Seq<HttpReply>,
) -> bool {
    match command {
        SwitchCommand::On => commands(r, address, id, replies, "/switch"@, switch_json("on"@)),
        SwitchCommand::Off => commands(r, address, id, replies, "/switch"@, switch_json("off"@)),
        SwitchCommand::Toggle => runs_toggle::<SonoffSwitch>(r, address, id, replies),
        SwitchCommand::Get => runs_get_switch::<SonoffSwitch>(r, address, id, replies),
        SwitchCommand::Pulse { milliseconds } => commands(
            r,
            address,
            id,
            replies,
            "/pulse"@,
            pulse_json(milliseconds),
        ),
        SwitchCommand::Startup { startup } => commands(
            r,
            address,
            id,
            replies,
            "/startup"@,
            startup_json(startup@),
        ),
    }
}

/// Whether `r` is the step of `command` on the bulb at `address`.
pub open spec fn runs_bulb(
    r: Result<Step<Output>, SonoffError>,
    address: Seq<char>,
    id: Seq<char>,
    command: BulbCommand,
    replies: Seq<HttpReply>,
) -> bool {
    match command {
        BulbCommand::On => commands(r, address, id, replies, "/switch"@, switch_json("on"@)),
        BulbCommand::Off => commands(r, address, id, replies, "/switch"@, switch_json("off"@)),
        BulbCommand::Toggle => runs_toggle::<SonoffBulb>(r, address, id, replies),
        BulbCommand::Get => shows_bulb(r, address, id, replies),
        BulbCommand::Rgb { brightness, red, green, blue } => commands(
            r,
            address,
            id,
            replies,
            "/dimmable"@,
            bulb_json(
                DevReqBulbColorType::Color(
                    DevReqBulbColorTypeRGB { br: brightness, r: red, g: green, b: blue },
                ),
            ),
        ),
        BulbCommand::White { brightness, temperature } => commands(
            r,
            address,
            id,
            replies,
            "/dimmable"@,
            bulb_json(
                DevReqBulbColorType::White(
                    DevReqBulbColorTypeCW { br: brightness, ct: temperature },
                ),
            ),
        ),
    }
}

/// Whether `r` is the step of `command` on the dimmer at `address`.
pub open spec fn runs_dimmer(
    r: Result<Step<Output>, SonoffError>,
    address: Seq<char>,
    id: Seq<char>,
    command: DimmerCommand,
    replies: Seq<HttpReply>,
) -> bool {
    match command {
        DimmerCommand::On => commands(r, address, id, replies, "/switch"@, switch_json("on"@)),
        DimmerCommand::Off => commands(r, address, id, replies, "/switch"@, switch_json("off"@)),
        DimmerCommand::Toggle => runs_toggle::<SonoffDimmer>(r, address, id, replies),
        DimmerCommand::Get => shows_dimmer(r, address, id, replies),
        DimmerCommand::Dim { brightness } => commands(
            r,
            address,
            id,
            replies,
            "/dimmable"@,
            dimmer_json(brightness),
        ),
        DimmerCommand::Startup { startup } => commands(
            r,
            address,
            id,
            replies,
            "/startup"@,
            startup_json(startup@),
        ),
    }
}

/// Whether `r` is the step of `command` on the device at `address`, after
/// `replies`. A command that is missing, or that lacks its sub-command, is an
/// `InvalidCommand` before anything is sent.
pub open spec fn runs(
    r: Result<Step<Output>, SonoffError>,
    address: Seq<char>,
    command: Option<Command>,
    replies: Seq<HttpReply>,
) -> bool {
    match command {
        None => r == Err::<Step<Output>, SonoffError>(SonoffError::InvalidCommand),
        Some(Command::Info) => shows_info(r, address, Seq::<char>::empty(), replies),
        Some(Command::Wifi { ssid, password }) => commands(
            r,
            address,
            Seq::<char>::empty(),
            replies,
            "/wifi"@,
            (WifiSetupReq { ssid, password }).json(),
        ),
        Some(Command::Switch { switch_cmd: Some(command) }) => runs_switch(
            r,
            address,
            Seq::<char>::empty(),
            command,
            replies,
        ),
        Some(Command::Bulb { bulb_cmd: Some(command) }) => runs_bulb(
            r,
            address,
            Seq::<char>::empty(),
            command,
            replies,
        ),
        Some(Command::Dimmer { dimmer_cmd: Some(command) }) => runs_dimmer(
            r,
            address,
            Seq::<char>::empty(),
            command,
            replies,
        ),
        Some(_) => r == Err::<Step<Output>, SonoffError>(SonoffError::InvalidCommand),
    }
}

/// Whether `command` is there with its sub-command.
pub open spec fn is_complete(command: Option<Command>) -> bool {
    match command {
        None => false,
        Some(Command::Switch { switch_cmd: None }) => false,
        Some(Command::Bulb { bulb_cmd: None }) => false,
        Some(Command::Dimmer { dimmer_cmd: None }) => false,
        Some(_) => true,
    }
}

/// Whether `command` toggles a device.
pub open spec fn is_toggle(command: Option<Command>) -> bool {
    match command {
        Some(Command::Switch { switch_cmd: Some(SwitchCommand::Toggle) }) => true,
        Some(Command::Bulb { bulb_cmd: Some(BulbCommand::Toggle) }) => true,
        Some(Command::Dimmer { dimmer_cmd: Some(DimmerCommand::Toggle) }) => true,
        _ => false,
    }
}

/// A command fails with `InvalidCommand` exactly where it is missing or lacks
/// its sub-command, whatever the replies: nothing is sent for such a command,
/// and no reply makes a complete command invalid.
pub proof fn lemma_invalid_command(
    r: Result<Step<Output>, SonoffError>,
    address: Seq<char>,
    command: Option<Command>,
    replies: Seq<HttpReply>,
)
    requires
        runs(r, address, command, replies),
    ensures
        r == Err::<Step<Output>, SonoffError>(SonoffError::InvalidCommand) <==> !is_complete(
            command,
        ),
{
}

/// Every command is one exchange, but a toggle, which is two: after the
/// first reply only a toggle sends again, and after the second nothing does.
pub proof fn lemma_exchanges_are_bounded(
    r: Result<Step<Output>, SonoffError>,
    address: Seq<char>,
    command: Option<Command>,
    replies: Seq<HttpReply>,
)
    requires
        runs(r, address, command, replies),
        r matches Ok(Step::Send(_)),
    ensures
        replies.len() <= 1,
        replies.len() == 1 ==> is_toggle(command),
{
}

/// The end of a command that shows nothing, out of the step of the operation
/// that carries it out.
fn ack(step: Result<Step<DevRes>, SonoffError>) -> (r: Result<Step<Output>, SonoffError>)
    ensures
        r == match step {
            Ok(Step::Send(request)) => Ok::<Step<Output>, SonoffError>(Step::Send(request)),
            Ok(Step::Done(_)) => Ok(Step::Done(Output::Nothing)),
            Err(e) => Err(e),
        },
{
    match step {
        Ok(Step::Send(request)) => Ok(Step::Send(request)),
        Ok(Step::Done(_)) => Ok(Step::Done(Output::Nothing)),
        Err(e) => Err(e),
    }
}

/// The end of a query for the state of the switch.
fn show_switch(step: Result<Step<bool>, SonoffError>) -> (r: Result<Step<Output>, SonoffError>)
    ensures
        r == match step {
            Ok(Step::Send(request)) => Ok::<Step<Output>, SonoffError>(Step::Send(request)),
            Ok(Step::Done(on)) => Ok(Step::Done(Output::Switch(on))),
            Err(e) => Err(e),
        },
{
    match step {
        Ok(Step::Send(request)) => Ok(Step::Send(request)),
        Ok(Step::Done(on)) => Ok(Step::Done(Output::Switch(on))),
        Err(e) => Err(e),
    }
}

/// One step of `command` on the switch `switch`.
pub fn switch_command(switch: &SonoffSwitch, command: &SwitchCommand, replies: &[HttpReply]) -> (r:
    Result<Step<Output>, SonoffError>)
    ensures
        runs_switch(r, switch.device().address@, switch.device().id@, *command, replies@),
{
    match command {
        SwitchCommand::On => ack(switch.on(replies)),
        SwitchCommand::Off => ack(switch.off(replies)),
        SwitchCommand::Toggle => ack(switch.toggle(replies)),
        SwitchCommand::Get => show_switch(switch.get_switch(replies)),
        SwitchCommand::Pulse { milliseconds } => ack(switch.pulse(*milliseconds, replies)),
        SwitchCommand::Startup { startup } => ack(switch.set_startup(startup.clone(), replies)),
    }
}

/// One step of `command` on the bulb `bulb`.
pub fn bulb_command(bulb: &SonoffBulb, command: &BulbCommand, replies: &[HttpReply]) -> (r: Result<
    Step<Output>,
    SonoffError,
>)
    ensures
        runs_bulb(r, bulb.device().address@, bulb.device().id@, *command, replies@),
{
    match command {
        BulbCommand::On => ack(bulb.on(replies)),
        BulbCommand::Off => ack(bulb.off(replies)),
        BulbCommand::Toggle => ack(bulb.toggle(replies)),
        BulbCommand::Get => match bulb.get_info(replies) {
            Ok(Step::Send(request)) => Ok(Step::Send(request)),
            Ok(Step::Done(bulb_info)) => Ok(Step::Done(Output::Bulb(bulb_info))),
            Err(e) => Err(e),
        },
        BulbCommand::Rgb { brightness, red, green, blue } => ack(
            bulb.color(*brightness, *red, *green, *blue, replies),
        ),
        BulbCommand::White { brightness, temperature } => ack(
            bulb.white(*brightness, *temperature, replies),
        ),
    }
}

/// One step of `command` on the dimmer `dimmer`.
pub fn dimmer_command(dimmer: &SonoffDimmer, command: &DimmerCommand, replies: &[HttpReply]) -> (r:
    Result<Step<Output>, SonoffError>)
    ensures
        runs_dimmer(r, dimmer.device().address@, dimmer.device().id@, *command, replies@),
{
    match command {
        DimmerCommand::On => ack(dimmer.on(replies)),
        DimmerCommand::Off => ack(dimmer.off(replies)),
        DimmerCommand::Toggle => ack(dimmer.toggle(replies)),
        DimmerCommand::Get => match dimmer.get_info(replies) {
            Ok(Step::Send(request)) => Ok(Step::Send(request)),
            Ok(Step::Done(dimmer_info)) => Ok(Step::Done(Output::Dimmer(dimmer_info))),
            Err(e) => Err(e),
        },
        DimmerCommand::Dim { brightness } => ack(dimmer.dim(*brightness, replies)),
        DimmerCommand::Startup { startup } => ack(dimmer.set_startup(startup.clone(), replies)),
    }
}

/// The line `label=value`.
fn line(label: &str, value: &str) -> (line: String)
    ensures
        line@ == text_line(label@, value@),
{
    let mut line = label.to_owned();
    line.append("=");
    line.append(value);
    line
}

/// The line `label=n`.
fn number_line(label: &str, n: i64) -> (line: String)
    ensures
        is_number_line(line@, label@, n),
{
    let text = n.to_string();
    line(label, text.as_str())
}

/// The text that shows a boolean.
fn bool_str(b: bool) -> (text: &'static str)
    ensures
        text@ == bool_text(b),
{
    if b {
        "true"
    } else {
        "false"
    }
}

/// The text of an optional string.
fn str_or_empty(s: &Option<String>) -> (text: &str)
    ensures
        text@ == text_or_empty(*s),
{
    match s {
        Some(s) => s.as_str(),
        None => {
            proof {
                reveal_strlit("");
            }
            ""
        },
    }
}

/// The lines that show `output` to the user.
pub fn output_lines(output: &Output) -> (lines: Vec<String>)
    ensures
        shows(lines@, *output),
{
    let mut lines: Vec<String> = Vec::new();
    match output {
        Output::Nothing => {},
        Output::Info(dev_info) => {
            lines.push(line("deviceid", dev_info.deviceid.as_str()));
            lines.push(line("ssid", str_or_empty(&dev_info.ssid)));
            lines.push(line("bssid", str_or_empty(&dev_info.bssid)));
            let signal_strength: i64 = match dev_info.signal_strength {
                Some(n) => n as i64,
                None => 0,
            };
            lines.push(number_line("signal_strength", signal_strength));
            lines.push(line("fw_version", str_or_empty(&dev_info.fw_version)));
            let ota_unlock = match dev_info.ota_unlock {
                Some(b) => b,
                None => false,
            };
            lines.push(line("ota_unlock", bool_str(ota_unlock)));
        },
        Output::Switch(on) => {
            lines.push(bool_str(*on).to_owned());
        },
        Output::Bulb(bulb_info) => {
            lines.push(line("switch", bulb_info.switch.as_str()));
            match bulb_info.color_type {
                DevReqBulbColorType::Color(rgb_bulb_info) => {
                    lines.push(number_line("brightness", rgb_bulb_info.br as i64));
                    lines.push(number_line("red", rgb_bulb_info.r as i64));
                    lines.push(number_line("green", rgb_bulb_info.g as i64));
                    lines.push(number_line("blue", rgb_bulb_info.b as i64));
                },
                DevReqBulbColorType::White(white_bulb_info) => {
                    lines.push(number_line("brightness", white_bulb_info.br as i64));
                    lines.push(number_line("temperature", white_bulb_info.ct as i64));
                },
            }
        },
        Output::Dimmer(dimmer_info) => {
            lines.push(line("switch", dimmer_info.switch.as_str()));
            lines.push(number_line("brightness", dimmer_info.brightness as i64));
        },
    }
    lines
}

/// What the user is told of a failure of `command`.
pub fn failure_message(error: SonoffError, command: &Option<Command>) -> (text: &'static str)
    ensures
        text@ == failure_text(error, *command),
{
    match error {
        SonoffError::InvalidCommand => match command {
            None => "No command",
            Some(Command::Switch { .. }) => "Invalid switch command",
            Some(Command::Bulb { .. }) => "Invalid bulb command",
            Some(Command::Dimmer { .. }) => "Invalid dimmer command",
            Some(_) => "Invalid command",
        },
        other => other.message(),
    }
}

/// One step of what the command line asks: `command` on the device at
/// `address`, after `replies`. A command that is missing, or that lacks its
/// sub-command, fails with `InvalidCommand` before anything is sent.
pub fn cli(address: &str, command: &Option<Command>, replies: &[HttpReply]) -> (r: Result<
    Step<Output>,
    SonoffError,
>)
    ensures
        runs(r, address@, *command, replies@),
{
    let dev = SonoffDevice::new(address);
    let cmd = match command {
        Some(cmd) => cmd,
        None => { return Err(SonoffError::InvalidCommand); },
    };
    match cmd {
        Command::Info => match dev.get_info(replies) {
            Ok(Step::Send(request)) => Ok(Step::Send(request)),
            Ok(Step::Done(dev_info)) => Ok(Step::Done(Output::Info(dev_info))),
            Err(e) => Err(e),
        },
        Command::Wifi { ssid, password } => ack(
            dev.set_wifi(ssid.clone(), password.clone(), replies),
        ),
        Command::Switch { switch_cmd } => {
            let switch = SonoffSwitch::from(&dev);
            match switch_cmd {
                Some(switch_cmd) => switch_command(&switch, switch_cmd, replies),
                None => Err(SonoffError::InvalidCommand),
            }
        },
        Command::Bulb { bulb_cmd } => {
            let bulb = SonoffBulb::from(&dev);
            match bulb_cmd {
                Some(bulb_cmd) => bulb_command(&bulb, bulb_cmd, replies),
                None => Err(SonoffError::InvalidCommand),
            }
        },
        Command::Dimmer { dimmer_cmd } => {
            let dimmer = SonoffDimmer::from(&dev);
            match dimmer_cmd {
                Some(dimmer_cmd) => dimmer_command(&dimmer, dimmer_cmd, replies),
                None => Err(SonoffError::InvalidCommand),
            }
        },
    }
}

} // verus!
