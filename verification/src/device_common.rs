//! What every device answers to: the info query and the Wi-Fi setup.

use vstd::prelude::*;
use crate::codec::{
    FromJson, ToJson, opt_str_view, read_opt_bool, read_opt_int, read_opt_str, read_str,
};
use crate::device::{
    DevRes, HttpReply, SonoffDevice, Step, finishes, reply_data, reply_envelope, sends,
};
use crate::error::SonoffError;
use crate::json::JsonModel;
use crate::value::{value_insert, value_model, value_object, value_remove, value_str};

verus! {

/// The query for a device's info: an empty object.
#[derive(Debug, Clone, PartialEq, Eq)]
pub struct DevInfoReq {}

/// Wi-Fi configuration
#[derive(Debug, Clone, PartialEq, Eq)]
pub struct WifiSetupReq {
    pub ssid: String,
    pub password: String,
}

/// OTA (Over-The-Air) unlocking
#[derive(Debug, Clone, PartialEq, Eq)]
pub struct UnlockOTAReq {}

/// OTA (Over-The-Air) firmware
#[derive(Debug, Clone, PartialEq, Eq)]
pub struct UpdateOTAReq {
    pub download_url: String,
    pub sha256sum: String,
}

/// What a device says of itself: the members that every kind of device has,
/// and the rest as it came, for the kind's own reading.
#[derive(Debug, Clone, PartialEq)]
pub struct DevInfo {
    pub deviceid: String,
    pub bssid: Option<String>,
    pub ssid: Option<String>,
    pub signal_strength: Option<i32>,
    pub fw_version: Option<String>,
    pub ota_unlock: Option<bool>,
    pub per_device_info: serde_json::Value,
}

/// The view of an optional `i32`.
pub open spec fn opt_i32_view(n: Option<i32>) -> Option<int> {
    match n {
        Some(n) => Some(n as int),
        None => None,
    }
}

/// Whether `key` names one of the members that the info of every kind of
/// device has.
pub open spec fn common_key(key: Seq<char>) -> bool {
    ||| key == "deviceid"@
    ||| key == "bssid"@
    ||| key == "ssid"@
    ||| key == "signalStrength"@
    ||| key == "fwVersion"@
    ||| key == "otaUnlock"@
}

/// The part of a device's info that is particular to its kind: the info
/// without the members that [`DevInfo`] reads itself.
pub open spec fn device_part(info: JsonModel) -> JsonModel {
    info.without("deviceid"@).without("bssid"@).without("ssid"@).without(
        "signalStrength"@,
    ).without("fwVersion"@).without("otaUnlock"@)
}

/// The part of an info that is particular to the device's kind, out of the
/// reply to an info query; or why the reply holds none.
pub open spec fn reply_device_part(reply: HttpReply) -> Result<JsonModel, SonoffError> {
    match reply_data(reply) {
        Ok(info) if DevInfo::json_valid(info) => Ok(device_part(info)),
        Ok(_) => Err(SonoffError::SerializationError),
        Err(e) => Err(e),
    }
}

impl ToJson for DevInfoReq {
    open spec fn json(&self) -> JsonModel {
        JsonModel::empty_object()
    }

    fn to_json(&self) -> (v: serde_json::Value) {
        value_object()
    }
}

impl ToJson for UnlockOTAReq {
    open spec fn json(&self) -> JsonModel {
        JsonModel::empty_object()
    }

    fn to_json(&self) -> (v: serde_json::Value) {
        value_object()
    }
}

impl ToJson for WifiSetupReq {
    open spec fn json(&self) -> JsonModel {
        JsonModel::empty_object().with("ssid"@, JsonModel::Str(self.ssid@)).with(
            "password"@,
            JsonModel::Str(self.password@),
        )
    }

    fn to_json(&self) -> (v: serde_json::Value) {
        let mut v = value_object();
        value_insert(&mut v, "ssid", value_str(self.ssid.as_str()));
        value_insert(&mut v, "password", value_str(self.password.as_str()));
        v
    }
}

impl ToJson for UpdateOTAReq {
    open spec fn json(&self) -> JsonModel {
        JsonModel::empty_object().with("downloadUrl"@, JsonModel::Str(self.download_url@)).with(
            "sha256sum"@,
            JsonModel::Str(self.sha256sum@),
        )
    }

    fn to_json(&self) -> (v: serde_json::Value) {
        let mut v = value_object();
        value_insert(&mut v, "downloadUrl", value_str(self.download_url.as_str()));
        value_insert(&mut v, "sha256sum", value_str(self.sha256sum.as_str()));
        v
    }
}

impl FromJson for DevInfo {
    open spec fn json_valid(j: JsonModel) -> bool {
        &&& j.str_member("deviceid"@) is Some
        &&& j.opt_str_member("bssid"@) is Some
        &&& j.opt_str_member("ssid"@) is Some
        &&& j.opt_int_member("signalStrength"@, i32::MIN as int, i32::MAX as int) is Some
        &&& j.opt_str_member("fwVersion"@) is Some
        &&& j.opt_bool_member("otaUnlock"@) is Some
    }

    open spec fn json_matches(&self, j: JsonModel) -> bool {
        &&& j.str_member("deviceid"@) == Some(self.deviceid@)
        &&& j.opt_str_member("bssid"@) == Some(opt_str_view(self.bssid))
        &&& j.opt_str_member("ssid"@) == Some(opt_str_view(self.ssid))
        &&& j.opt_int_member("signalStrength"@, i32::MIN as int, i32::MAX as int) == Some(
            opt_i32_view(self.signal_strength),
        )
        &&& j.opt_str_member("fwVersion"@) == Some(opt_str_view(self.fw_version))
        &&& j.opt_bool_member("otaUnlock"@) == Some(self.ota_unlock)
        &&& value_model(self.per_device_info) == device_part(j)
    }

    fn from_json(v: &serde_json::Value) -> (r: Result<Self, SonoffError>) {
        let deviceid = read_str(v, "deviceid")?;
        let bssid = read_opt_str(v, "bssid")?;
        let ssid = read_opt_str(v, "ssid")?;
        let signal_strength = match read_opt_int(v, "signalStrength", -0x8000_0000, 0x7fff_ffff)? {
            Some(n) => Some(n as i32),
            None => None,
        };
        let fw_version = read_opt_str(v, "fwVersion")?;
        let ota_unlock = read_opt_bool(v, "otaUnlock")?;
        let mut per_device_info = v.clone();
        value_remove(&mut per_device_info, "deviceid");
        value_remove(&mut per_device_info, "bssid");
        value_remove(&mut per_device_info, "ssid");
        value_remove(&mut per_device_info, "signalStrength");
        value_remove(&mut per_device_info, "fwVersion");
        value_remove(&mut per_device_info, "otaUnlock");
        Ok(
            DevInfo {
                deviceid,
                bssid,
                ssid,
                signal_strength,
                fw_version,
                ota_unlock,
                per_device_info,
            },
        )
    }
}

/// The part of an info that is particular to the device's kind holds every
/// member of the info but the six that [`DevInfo`] reads itself, unchanged.
pub proof fn lemma_device_part_keeps(info: JsonModel, key: Seq<char>)
    requires
        info is Object,
        !common_key(key),
    ensures
        device_part(info).member(key) == info.member(key),
{
}

impl SonoffDevice {
    /// Asks the device for its info: POSTs an empty object to `/info`, then
    /// reads the `data` of the reply.
    pub fn get_info(&self, replies: &[HttpReply]) -> (r: Result<Step<DevInfo>, SonoffError>)
        ensures
            replies@.len() == 0 ==> sends(r, *self, "/info"@, JsonModel::empty_object()),
            replies@.len() > 0 ==> finishes(r, reply_data(replies@[0])),
    {
        let req_obj = DevInfoReq {  };
        self.request("/info", &req_obj, replies)
    }

    /// Asks the device for its info, as `get_info` does, then reads the part
    /// of it that is particular to the device's kind as a `T`.
    pub fn get_part<T: FromJson>(&self, replies: &[HttpReply]) -> (r: Result<Step<T>, SonoffError>)
        ensures
            replies@.len() == 0 ==> sends(r, *self, "/info"@, JsonModel::empty_object()),
            replies@.len() > 0 ==> finishes(r, reply_device_part(replies@[0])),
    {
        match self.get_info(replies)? {
            Step::Send(request) => Ok(Step::Send(request)),
            Step::Done(info) => {
                let part = T::from_json(&info.per_device_info)?;
                Ok(Step::Done(part))
            },
        }
    }

    /// Sets the Wi-Fi network that the device joins: POSTs the network's name
    /// and password to `/wifi`, then reads the reply's envelope.
    pub fn set_wifi(&self, ssid: String, password: String, replies: &[HttpReply]) -> (r: Result<
        Step<DevRes>,
        SonoffError,
    >)
        ensures
            replies@.len() == 0 ==> sends(
                r,
                *self,
                "/wifi"@,
                (WifiSetupReq { ssid, password }).json(),
            ),
            replies@.len() > 0 ==> finishes(r, reply_envelope(replies@[0])),
    {
        let req_obj = WifiSetupReq { ssid, password };
        self.__request("/wifi", &req_obj, replies)
    }
}

} // verus!
