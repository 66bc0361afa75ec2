//! The dimmer.

use vstd::prelude::*;
use vstd::std_specs::convert::FromSpecImpl;
use crate::codec::{FromJson, ToJson, is_text, opt_u8_json, read_str, read_u8, write_opt_u8};
use crate::device::{DevRes, HttpReply, SonoffDevice, Step, finishes, sends};
use crate::device_common::{DevInfo, device_part, reply_device_part};
use crate::dimmable::SonoffDimmable;
use crate::error::SonoffError;
use crate::json::JsonModel;
use crate::switchable::SonoffSwitchable;
use crate::value::{value_insert, value_object, value_str, value_u64};

verus! {

/// What a dimmer says of itself.
#[derive(Debug, Clone, PartialEq, Eq)]
pub struct DevInfoDataDimmer {
    pub switch: String,
    pub startup: String,
    pub brightness: u8,
    pub mode: u8,
    pub brightmin: u8,
    pub brightmax: u8,
}

/// The command that sets a dimmer. What is `None` is sent as `null`, and the
/// device keeps its own value.
#[derive(Debug, Clone, PartialEq, Eq)]
pub struct DevReqDimmer {
    pub switch: String,
    pub brightness: u8,
    pub mode: Option<u8>,
    pub brightmin: Option<u8>,
    pub brightmax: Option<u8>,
}

/// The document that dims a dimmer to `br`: that brightness, the switch on,
/// and nothing set of mode and limits.
pub open spec fn dimmer_json(br: u8) -> JsonModel {
    JsonModel::empty_object().with("switch"@, JsonModel::Str("on"@)).with(
        "brightness"@,
        JsonModel::Int(br as int),
    ).with("mode"@, JsonModel::Null).with("brightmin"@, JsonModel::Null).with(
        "brightmax"@,
        JsonModel::Null,
    )
}

impl FromJson for DevInfoDataDimmer {
    open spec fn json_valid(j: JsonModel) -> bool {
        &&& j.str_member("switch"@) is Some
        &&& j.str_member("startup"@) is Some
        &&& j.int_member("brightness"@, 0, u8::MAX as int) is Some
        &&& j.int_member("mode"@, 0, u8::MAX as int) is Some
        &&& j.int_member("brightmin"@, 0, u8::MAX as int) is Some
        &&& j.int_member("brightmax"@, 0, u8::MAX as int) is Some
    }

    open spec fn json_matches(&self, j: JsonModel) -> bool {
        &&& j.str_member("switch"@) == Some(self.switch@)
        &&& j.str_member("startup"@) == Some(self.startup@)
        &&& j.int_member("brightness"@, 0, u8::MAX as int) == Some(self.brightness as int)
        &&& j.int_member("mode"@, 0, u8::MAX as int) == Some(self.mode as int)
        &&& j.int_member("brightmin"@, 0, u8::MAX as int) == Some(self.brightmin as int)
        &&& j.int_member("brightmax"@, 0, u8::MAX as int) == Some(self.brightmax as int)
    }

    fn from_json(v: &serde_json::Value) -> (r: Result<Self, SonoffError>) {
        let switch = read_str(v, "switch")?;
        let startup = read_str(v, "startup")?;
        let brightness = read_u8(v, "brightness")?;
        let mode = read_u8(v, "mode")?;
        let brightmin = read_u8(v, "brightmin")?;
        let brightmax = read_u8(v, "brightmax")?;
        Ok(DevInfoDataDimmer { switch, startup, brightness, mode, brightmin, brightmax })
    }
}

impl ToJson for DevReqDimmer {
    open spec fn json(&self) -> JsonModel {
        JsonModel::empty_object().with("switch"@, JsonModel::Str(self.switch@)).with(
            "brightness"@,
            JsonModel::Int(self.brightness as int),
        ).with("mode"@, opt_u8_json(self.mode)).with(
            "brightmin"@,
            opt_u8_json(self.brightmin),
        ).with("brightmax"@, opt_u8_json(self.brightmax))
    }

    fn to_json(&self) -> (v: serde_json::Value) {
        let mut v = value_object();
        value_insert(&mut v, "switch", value_str(self.switch.as_str()));
        value_insert(&mut v, "brightness", value_u64(self.brightness as u64));
        value_insert(&mut v, "mode", write_opt_u8(self.mode));
        value_insert(&mut v, "brightmin", write_opt_u8(self.brightmin));
        value_insert(&mut v, "brightmax", write_opt_u8(self.brightmax));
        v
    }
}

/// A dimmer.
pub struct SonoffDimmer {
    dev: SonoffDevice,
}

impl<'a> From<&'a SonoffDevice> for SonoffDimmer {
    fn from(value: &'a SonoffDevice) -> (dimmer: SonoffDimmer)
        ensures
            dimmer.device() == *value,
    {
        SonoffDimmer { dev: value.clone() }
    }
}

impl<'a> FromSpecImpl<&'a SonoffDevice> for SonoffDimmer {
    open spec fn obeys_from_spec() -> bool {
        true
    }

    closed spec fn from_spec(value: &'a SonoffDevice) -> SonoffDimmer {
        SonoffDimmer { dev: *value }
    }
}

impl SonoffSwitchable for SonoffDimmer {
    closed spec fn device(&self) -> SonoffDevice {
        self.dev
    }

    /// A dimmer is on where its info is well formed and the member `switch`
    /// of it is the text "on".
    open spec fn switch_of(info: JsonModel) -> Option<bool> {
        if DevInfo::json_valid(info) && DevInfoDataDimmer::json_valid(device_part(info)) {
            Some(device_part(info).str_member("switch"@) == Some("on"@))
        } else {
            None
        }
    }

    fn get_dev(&self) -> (dev: &SonoffDevice) {
        &self.dev
    }

    fn get_switch(&self, replies: &[HttpReply]) -> (r: Result<Step<bool>, SonoffError>) {
        match self.get_info(replies)? {
            Step::Send(request) => Ok(Step::Send(request)),
            Step::Done(dimmer_info) => Ok(Step::Done(is_text(&dimmer_info.switch, "on"))),
        }
    }
}

impl SonoffDimmable for SonoffDimmer {
    closed spec fn dim_device(&self) -> SonoffDevice {
        self.dev
    }

    open spec fn dim_json(br: u8) -> JsonModel {
        dimmer_json(br)
    }

    fn dim(&self, br: u8, replies: &[HttpReply]) -> (r: Result<Step<DevRes>, SonoffError>)
        ensures
            replies@.len() == 0 ==> sends(r, self.device(), "/dimmable"@, dimmer_json(br)),
    {
        let req_obj = DevReqDimmer {
            switch: "on".to_owned(),  // must be "on"
            brightness: br,
            mode: None,
            brightmin: None,
            brightmax: None,
        };
        self.dev.__request("/dimmable", &req_obj, replies)
    }
}

impl SonoffDimmer {
    /// What the dimmer says of itself: asks for the device's info, then reads
    /// the part of it that is particular to a dimmer.
    pub fn get_info(&self, replies: &[HttpReply]) -> (r: Result<
        Step<DevInfoDataDimmer>,
        SonoffError,
    >)
        ensures
            replies@.len() == 0 ==> sends(r, self.device(), "/info"@, JsonModel::empty_object()),
            replies@.len() > 0 ==> finishes(r, reply_device_part(replies@[0])),
    {
        self.dev.get_part::<DevInfoDataDimmer>(replies)
    }
}

} // verus!
