//! The plain switch.

use vstd::prelude::*;
use vstd::std_specs::convert::FromSpecImpl;
use crate::codec::{FromJson, ToJson, is_text, read_str, read_u32};
use crate::device::{DevRes, HttpReply, SonoffDevice, Step, finishes, reply_envelope, sends};
use crate::error::SonoffError;
use crate::json::JsonModel;
use crate::device_common::DevInfoReq;
use crate::switchable::{SonoffSwitchReq, SonoffSwitchable};
use crate::value::{value_insert, value_object, value_str, value_u64};

verus! {

/// What a switch says of itself.
#[derive(Debug, Clone, PartialEq, Eq)]
pub struct SonoffSwitchInfo {
    pub switch: String,
    pub startup: String,
    pub pulse: String,
    pub pulse_width: u32,
}

/// The command that sets the pulse of a switch.
#[derive(Debug, Clone, PartialEq, Eq)]
pub struct SonoffSwitchPulseReq {
    pub pulse: String,
    pub pulse_width: u32,
}

/// The document that sets the pulse to `milliseconds`: a width of 0 turns the
/// pulse off, every other width turns it on.
pub open spec fn pulse_json(milliseconds: u32) -> JsonModel {
    JsonModel::empty_object().with(
        "pulse"@,
        JsonModel::Str(
            if milliseconds == 0 {
                "off"@
            } else {
                "on"@
            },
        ),
    ).with("pulseWidth"@, JsonModel::Int(milliseconds as int))
}

impl FromJson for SonoffSwitchInfo {
    open spec fn json_valid(j: JsonModel) -> bool {
        &&& j.str_member("switch"@) is Some
        &&& j.str_member("startup"@) is Some
        &&& j.str_member("pulse"@) is Some
        &&& j.int_member("pulseWidth"@, 0, u32::MAX as int) is Some
    }

    open spec fn json_matches(&self, j: JsonModel) -> bool {
        &&& j.str_member("switch"@) == Some(self.switch@)
        &&& j.str_member("startup"@) == Some(self.startup@)
        &&& j.str_member("pulse"@) == Some(self.pulse@)
        &&& j.int_member("pulseWidth"@, 0, u32::MAX as int) == Some(self.pulse_width as int)
    }

    fn from_json(v: &serde_json::Value) -> (r: Result<Self, SonoffError>) {
        let switch = read_str(v, "switch")?;
        let startup = read_str(v, "startup")?;
        let pulse = read_str(v, "pulse")?;
        let pulse_width = read_u32(v, "pulseWidth")?;
        Ok(SonoffSwitchInfo { switch, startup, pulse, pulse_width })
    }
}

impl ToJson for SonoffSwitchPulseReq {
    open spec fn json(&self) -> JsonModel {
        JsonModel::empty_object().with("pulse"@, JsonModel::Str(self.pulse@)).with(
            "pulseWidth"@,
            JsonModel::Int(self.pulse_width as int),
        )
    }

    fn to_json(&self) -> (v: serde_json::Value) {
        let mut v = value_object();
        value_insert(&mut v, "pulse", value_str(self.pulse.as_str()));
        value_insert(&mut v, "pulseWidth", value_u64(self.pulse_width as u64));
        v
    }
}

/// A switch.
pub struct SonoffSwitch {
    dev: SonoffDevice,
}

impl<'a> From<&'a SonoffDevice> for SonoffSwitch {
    fn from(value: &'a SonoffDevice) -> (switch: SonoffSwitch)
        ensures
            switch.device() == *value,
    {
        SonoffSwitch { dev: value.clone() }
    }
}

impl<'a> FromSpecImpl<&'a SonoffDevice> for SonoffSwitch {
    open spec fn obeys_from_spec() -> bool {
        true
    }

    closed spec fn from_spec(value: &'a SonoffDevice) -> SonoffSwitch {
        SonoffSwitch { dev: *value }
    }
}

impl SonoffSwitchable for SonoffSwitch {
    closed spec fn device(&self) -> SonoffDevice {
        self.dev
    }

    /// A switch is on where the member `switch` of its info is the text
    /// "on"; nothing else of the info is read.
    open spec fn switch_of(info: JsonModel) -> Option<bool> {
        match info.str_member("switch"@) {
            Some(state) => Some(state == "on"@),
            None => None,
        }
    }

    fn get_dev(&self) -> (dev: &SonoffDevice) {
        &self.dev
    }

    fn get_switch(&self, replies: &[HttpReply]) -> (r: Result<Step<bool>, SonoffError>) {
        let req_obj = DevInfoReq {  };
        match self.get_dev().request::<DevInfoReq, SonoffSwitchReq>("/info", &req_obj, replies)? {
            Step::Send(request) => Ok(Step::Send(request)),
            Step::Done(state) => Ok(Step::Done(is_text(&state.switch, "on"))),
        }
    }
}

impl SonoffSwitch {
    /// Sets the pulse of the switch: POSTs the width to `/pulse`, then reads
    /// the reply's envelope. Only supports multiples of 500ms. Setting `0`
    /// deactivates pulse.
    pub fn pulse(&self, milliseconds: u32, replies: &[HttpReply]) -> (r: Result<
        Step<DevRes>,
        SonoffError,
    >)
        ensures
            replies@.len() == 0 ==> sends(r, self.device(), "/pulse"@, pulse_json(milliseconds)),
            replies@.len() > 0 ==> finishes(r, reply_envelope(replies@[0])),
    {
        let req_obj = SonoffSwitchPulseReq {
            pulse: if milliseconds == 0 {
                "off"
            } else {
                "on"
            }.to_owned(),
            pulse_width: milliseconds,
        };
        self.get_dev().__request("/pulse", &req_obj, replies)
    }
}

} // verus!
