//! The power meter: a hub with sub-devices of four outlets each.

use vstd::prelude::*;
use vstd::std_specs::convert::FromSpecImpl;
use crate::codec::{
    FromJson, ToJson, list_json, list_matches, list_valid, member_matches, member_valid,
    opt_str_json, read_bool, read_int, read_list, read_object, read_str, read_u32, read_u32_list,
    uint_list_member, write_list,
};
use crate::device::{
    DevRes, HttpReply, SonoffDevice, Step, finishes, reply_data, reply_envelope, sends,
};
use crate::error::SonoffError;
use crate::json::JsonModel;
use crate::value::{value_insert, value_null, value_object, value_str, value_u64};

verus! {

/// The overload settings of the four outlets of a sub-device.
#[derive(Debug, Clone, PartialEq, Eq)]
pub struct PowerMeterOverloads {
    pub overload_00: Overload,
    pub overload_01: Overload,
    pub overload_02: Overload,
    pub overload_03: Overload,
}

/// The state of the switch of one outlet.
#[derive(Debug, Clone, PartialEq, Eq)]
pub struct SwitchOutlet {
    pub outlet: u32,
    pub switch: String,
}

/// The overload settings of one outlet.
#[allow(non_snake_case)]
#[derive(Debug, Clone, PartialEq, Eq)]
pub struct Overload {
    pub minAP: OverloadValue,
    pub maxAP: OverloadValue,
    pub minV: OverloadValue,
    pub maxV: OverloadValue,
    pub maxC: OverloadValue,
    pub delayTime: u32,
}

/// One overload limit: whether it is enabled, and its value.
#[derive(Debug, Clone, PartialEq, Eq)]
pub struct OverloadValue {
    pub en: u32,
    pub val: u32,
}

/// The limits that a sub-device accepts for the overload settings.
#[allow(non_snake_case)]
#[derive(Debug, Clone, PartialEq, Eq)]
pub struct Threshold {
    pub actPow: Range,
    pub voltage: Range,
    pub current: Range,
}

/// A least and a greatest value.
#[derive(Debug, Clone, PartialEq, Eq)]
pub struct Range {
    pub min: u32,
    pub max: u32,
}

/// The communication faults of a sub-device.
#[allow(non_snake_case)]
#[derive(Debug, Clone, PartialEq, Eq)]
pub struct FaultState {
    pub subDevCom: u32,
    /// Sub-device cse7761 communication error. Array elements are Number type.
    /// The quantity is 4. Elements 0-3 are 1-4 channels respectively.
    /// [0,1] 1: Communication is normal. 0: Communication error.
    pub cse7761Com: Vec<u32>,
}

/// The command that sets switches of the outlets of one sub-device.
#[derive(Debug, Clone, PartialEq, Eq)]
pub struct SPMSwitchesReq {
    pub sub_dev_id: String,
    pub switches: Vec<DevDataSPMSwitch>,
}

/// The state to set on the switch of one outlet.
#[derive(Debug, Clone, PartialEq, Eq)]
pub struct DevDataSPMSwitch {
    pub outlet: u8,
    pub switch: String,
}

/// The query for the sub-devices of a hub: an empty object.
#[derive(Debug, Clone, PartialEq, Eq)]
pub struct SPMSubdevListReq {}

/// The sub-devices of a hub.
#[derive(Debug, Clone, PartialEq, Eq)]
pub struct SPMSubdevList {
    pub sub_dev_list: Vec<DevDataSPMSubdev>,
}

/// One sub-device of a hub: its identifier and its type code.
#[derive(Debug, Clone, PartialEq, Eq)]
pub struct DevDataSPMSubdev {
    pub sub_dev_id: String,
    pub _type: u32,
}

/// The query for a status: of the sub-device named, or of the hub itself
/// where none is.
#[derive(Debug, Clone, PartialEq, Eq)]
pub struct SPMStatusReq {
    pub sub_dev_id: Option<String>,
}

/// What a hub says of itself.
#[derive(Debug, Clone, PartialEq, Eq)]
pub struct SPMStatus {
    pub deviceid: String,
    pub sled_online: String,
    pub ssid: String,
    pub bssid: String,
    pub fw_version: String,
    pub sub_chip_fw_ver: String,
    pub signal_strength: i8,
    pub wifi_connected: bool,
}

/// What a hub says of one of its sub-devices.
#[allow(non_snake_case)]
#[derive(Debug, Clone, PartialEq, Eq)]
pub struct SPMSubdevStatus {
    pub fwVersion: String,
    pub switches: Vec<SwitchOutlet>,
    /// The overload settings; their members stand beside the others of the
    /// status, not in an object of their own.
    pub overload: PowerMeterOverloads,
    pub faultState: FaultState,
    pub threshold: Threshold,
}

/// The view of a list of `u32`.
pub open spec fn u32_list_view(xs: Seq<u32>) -> Seq<int> {
    xs.map_values(|x: u32| x as int)
}

impl FromJson for OverloadValue {
    open spec fn json_valid(j: JsonModel) -> bool {
        &&& j.int_member("en"@, 0, u32::MAX as int) is Some
        &&& j.int_member("val"@, 0, u32::MAX as int) is Some
    }

    open spec fn json_matches(&self, j: JsonModel) -> bool {
        &&& j.int_member("en"@, 0, u32::MAX as int) == Some(self.en as int)
        &&& j.int_member("val"@, 0, u32::MAX as int) == Some(self.val as int)
    }

    fn from_json(v: &serde_json::Value) -> (r: Result<Self, SonoffError>) {
        let en = read_u32(v, "en")?;
        let val = read_u32(v, "val")?;
        Ok(OverloadValue { en, val })
    }
}

impl FromJson for Overload {
    open spec fn json_valid(j: JsonModel) -> bool {
        &&& member_valid::<OverloadValue>(j, "minAP"@)
        &&& member_valid::<OverloadValue>(j, "maxAP"@)
        &&& member_valid::<OverloadValue>(j, "minV"@)
        &&& member_valid::<OverloadValue>(j, "maxV"@)
        &&& member_valid::<OverloadValue>(j, "maxC"@)
        &&& j.int_member("delayTime"@, 0, u32::MAX as int) is Some
    }

    open spec fn json_matches(&self, j: JsonModel) -> bool {
        &&& member_matches(self.minAP, j, "minAP"@)
        &&& member_matches(self.maxAP, j, "maxAP"@)
        &&& member_matches(self.minV, j, "minV"@)
        &&& member_matches(self.maxV, j, "maxV"@)
        &&& member_matches(self.maxC, j, "maxC"@)
        &&& j.int_member("delayTime"@, 0, u32::MAX as int) == Some(self.delayTime as int)
    }

    #[allow(non_snake_case)]
    fn from_json(v: &serde_json::Value) -> (r: Result<Self, SonoffError>) {
        let minAP = read_object::<OverloadValue>(v, "minAP")?;
        let maxAP = read_object::<OverloadValue>(v, "maxAP")?;
        let minV = read_object::<OverloadValue>(v, "minV")?;
        let maxV = read_object::<OverloadValue>(v, "maxV")?;
        let maxC = read_object::<OverloadValue>(v, "maxC")?;
        let delayTime = read_u32(v, "delayTime")?;
        Ok(Overload { minAP, maxAP, minV, maxV, maxC, delayTime })
    }
}

impl FromJson for PowerMeterOverloads {
    open spec fn json_valid(j: JsonModel) -> bool {
        &&& member_valid::<Overload>(j, "overload_00"@)
        &&& member_valid::<Overload>(j, "overload_01"@)
        &&& member_valid::<Overload>(j, "overload_02"@)
        &&& member_valid::<Overload>(j, "overload_03"@)
    }

    open spec fn json_matches(&self, j: JsonModel) -> bool {
        &&& member_matches(self.overload_00, j, "overload_00"@)
        &&& member_matches(self.overload_01, j, "overload_01"@)
        &&& member_matches(self.overload_02, j, "overload_02"@)
        &&& member_matches(self.overload_03, j, "overload_03"@)
    }

    fn from_json(v: &serde_json::Value) -> (r: Result<Self, SonoffError>) {
        let overload_00 = read_object::<Overload>(v, "overload_00")?;
        let overload_01 = read_object::<Overload>(v, "overload_01")?;
        let overload_02 = read_object::<Overload>(v, "overload_02")?;
        let overload_03 = read_object::<Overload>(v, "overload_03")?;
        Ok(PowerMeterOverloads { overload_00, overload_01, overload_02, overload_03 })
    }
}

impl FromJson for SwitchOutlet {
    open spec fn json_valid(j: JsonModel) -> bool {
        &&& j.int_member("outlet"@, 0, u32::MAX as int) is Some
        &&& j.str_member("switch"@) is Some
    }

    open spec fn json_matches(&self, j: JsonModel) -> bool {
        &&& j.int_member("outlet"@, 0, u32::MAX as int) == Some(self.outlet as int)
        &&& j.str_member("switch"@) == Some(self.switch@)
    }

    fn from_json(v: &serde_json::Value) -> (r: Result<Self, SonoffError>) {
        let outlet = read_u32(v, "outlet")?;
        let switch = read_str(v, "switch")?;
        Ok(SwitchOutlet { outlet, switch })
    }
}

impl FromJson for Range {
    open spec fn json_valid(j: JsonModel) -> bool {
        &&& j.int_member("min"@, 0, u32::MAX as int) is Some
        &&& j.int_member("max"@, 0, u32::MAX as int) is Some
    }

    open spec fn json_matches(&self, j: JsonModel) -> bool {
        &&& j.int_member("min"@, 0, u32::MAX as int) == Some(self.min as int)
        &&& j.int_member("max"@, 0, u32::MAX as int) == Some(self.max as int)
    }

    fn from_json(v: &serde_json::Value) -> (r: Result<Self, SonoffError>) {
        let min = read_u32(v, "min")?;
        let max = read_u32(v, "max")?;
        Ok(Range { min, max })
    }
}

impl FromJson for Threshold {
    open spec fn json_valid(j: JsonModel) -> bool {
        &&& member_valid::<Range>(j, "actPow"@)
        &&& member_valid::<Range>(j, "voltage"@)
        &&& member_valid::<Range>(j, "current"@)
    }

    open spec fn json_matches(&self, j: JsonModel) -> bool {
        &&& member_matches(self.actPow, j, "actPow"@)
        &&& member_matches(self.voltage, j, "voltage"@)
        &&& member_matches(self.current, j, "current"@)
    }

    #[allow(non_snake_case)]
    fn from_json(v: &serde_json::Value) -> (r: Result<Self, SonoffError>) {
        let actPow = read_object::<Range>(v, "actPow")?;
        let voltage = read_object::<Range>(v, "voltage")?;
        let current = read_object::<Range>(v, "current")?;
        Ok(Threshold { actPow, voltage, current })
    }
}

impl FromJson for FaultState {
    open spec fn json_valid(j: JsonModel) -> bool {
        &&& j.int_member("subDevCom"@, 0, u32::MAX as int) is Some
        &&& uint_list_member(j, "cse7761Com"@, u32::MAX as int) is Some
    }

    open spec fn json_matches(&self, j: JsonModel) -> bool {
        &&& j.int_member("subDevCom"@, 0, u32::MAX as int) == Some(self.subDevCom as int)
        &&& uint_list_member(j, "cse7761Com"@, u32::MAX as int) == Some(
            u32_list_view(self.cse7761Com@),
        )
    }

    #[allow(non_snake_case)]
    fn from_json(v: &serde_json::Value) -> (r: Result<Self, SonoffError>) {
        let subDevCom = read_u32(v, "subDevCom")?;
        let cse7761Com = read_u32_list(v, "cse7761Com")?;
        Ok(FaultState { subDevCom, cse7761Com })
    }
}

impl FromJson for DevDataSPMSubdev {
    open spec fn json_valid(j: JsonModel) -> bool {
        &&& j.str_member("subDevId"@) is Some
        &&& j.int_member("type"@, 0, u32::MAX as int) is Some
    }

    open spec fn json_matches(&self, j: JsonModel) -> bool {
        &&& j.str_member("subDevId"@) == Some(self.sub_dev_id@)
        &&& j.int_member("type"@, 0, u32::MAX as int) == Some(self._type as int)
    }

    fn from_json(v: &serde_json::Value) -> (r: Result<Self, SonoffError>) {
        let sub_dev_id = read_str(v, "subDevId")?;
        let _type = read_u32(v, "type")?;
        Ok(DevDataSPMSubdev { sub_dev_id, _type })
    }
}

impl FromJson for SPMSubdevList {
    open spec fn json_valid(j: JsonModel) -> bool {
        list_valid::<DevDataSPMSubdev>(j, "subDevList"@)
    }

    open spec fn json_matches(&self, j: JsonModel) -> bool {
        list_matches(self.sub_dev_list@, j, "subDevList"@)
    }

    fn from_json(v: &serde_json::Value) -> (r: Result<Self, SonoffError>) {
        let sub_dev_list = read_list::<DevDataSPMSubdev>(v, "subDevList")?;
        Ok(SPMSubdevList { sub_dev_list })
    }
}

impl FromJson for SPMStatus {
    open spec fn json_valid(j: JsonModel) -> bool {
        &&& j.str_member("deviceid"@) is Some
        &&& j.str_member("sledOnline"@) is Some
        &&& j.str_member("ssid"@) is Some
        &&& j.str_member("bssid"@) is Some
        &&& j.str_member("fwVersion"@) is Some
        &&& j.str_member("subChipFwVer"@) is Some
        &&& j.int_member("signalStrength"@, i8::MIN as int, i8::MAX as int) is Some
        &&& j.bool_member("wifiConnected"@) is Some
    }

    open spec fn json_matches(&self, j: JsonModel) -> bool {
        &&& j.str_member("deviceid"@) == Some(self.deviceid@)
        &&& j.str_member("sledOnline"@) == Some(self.sled_online@)
        &&& j.str_member("ssid"@) == Some(self.ssid@)
        &&& j.str_member("bssid"@) == Some(self.bssid@)
        &&& j.str_member("fwVersion"@) == Some(self.fw_version@)
        &&& j.str_member("subChipFwVer"@) == Some(self.sub_chip_fw_ver@)
        &&& j.int_member("signalStrength"@, i8::MIN as int, i8::MAX as int) == Some(
            self.signal_strength as int,
        )
        &&& j.bool_member("wifiConnected"@) == Some(self.wifi_connected)
    }

    fn from_json(v: &serde_json::Value) -> (r: Result<Self, SonoffError>) {
        let deviceid = read_str(v, "deviceid")?;
        let sled_online = read_str(v, "sledOnline")?;
        let ssid = read_str(v, "ssid")?;
        let bssid = read_str(v, "bssid")?;
        let fw_version = read_str(v, "fwVersion")?;
        let sub_chip_fw_ver = read_str(v, "subChipFwVer")?;
        let signal_strength = read_int(v, "signalStrength", -128, 127)?;
        let wifi_connected = read_bool(v, "wifiConnected")?;
        Ok(
            SPMStatus {
                deviceid,
                sled_online,
                ssid,
                bssid,
                fw_version,
                sub_chip_fw_ver,
                signal_strength: signal_strength as i8,
                wifi_connected,
            },
        )
    }
}

impl FromJson for SPMSubdevStatus {
    open spec fn json_valid(j: JsonModel) -> bool {
        &&& j.str_member("fwVersion"@) is Some
        &&& list_valid::<SwitchOutlet>(j, "switches"@)
        &&& PowerMeterOverloads::json_valid(j)
        &&& member_valid::<FaultState>(j, "faultState"@)
        &&& member_valid::<Threshold>(j, "threshold"@)
    }

    open spec fn json_matches(&self, j: JsonModel) -> bool {
        &&& j.str_member("fwVersion"@) == Some(self.fwVersion@)
        &&& list_matches(self.switches@, j, "switches"@)
        &&& self.overload.json_matches(j)
        &&& member_matches(self.faultState, j, "faultState"@)
        &&& member_matches(self.threshold, j, "threshold"@)
    }

    #[allow(non_snake_case)]
    fn from_json(v: &serde_json::Value) -> (r: Result<Self, SonoffError>) {
        let fwVersion = read_str(v, "fwVersion")?;
        let switches = read_list::<SwitchOutlet>(v, "switches")?;
        let overload = PowerMeterOverloads::from_json(v)?;
        let faultState = read_object::<FaultState>(v, "faultState")?;
        let threshold = read_object::<Threshold>(v, "threshold")?;
        Ok(SPMSubdevStatus { fwVersion, switches, overload, faultState, threshold })
    }
}

impl ToJson for DevDataSPMSwitch {
    open spec fn json(&self) -> JsonModel {
        JsonModel::empty_object().with("outlet"@, JsonModel::Int(self.outlet as int)).with(
            "switch"@,
            JsonModel::Str(self.switch@),
        )
    }

    fn to_json(&self) -> (v: serde_json::Value) {
        let mut v = value_object();
        value_insert(&mut v, "outlet", value_u64(self.outlet as u64));
        value_insert(&mut v, "switch", value_str(self.switch.as_str()));
        v
    }
}

/// The document that sets `switches` on the sub-device `sub_dev_id`.
pub open spec fn subdev_switches_json(
    sub_dev_id: Seq<char>,
    switches: Seq<DevDataSPMSwitch>,
) -> JsonModel {
    JsonModel::empty_object().with("subDevId"@, JsonModel::Str(sub_dev_id)).with(
        "switches"@,
        list_json(switches),
    )
}

/// The document that asks for the status of `sub_dev_id`, or of the hub
/// where that is `null`.
pub open spec fn status_json(sub_dev_id: JsonModel) -> JsonModel {
    JsonModel::empty_object().with("subDevId"@, sub_dev_id)
}

impl ToJson for SPMSwitchesReq {
    open spec fn json(&self) -> JsonModel {
        subdev_switches_json(self.sub_dev_id@, self.switches@)
    }

    fn to_json(&self) -> (v: serde_json::Value) {
        let mut v = value_object();
        value_insert(&mut v, "subDevId", value_str(self.sub_dev_id.as_str()));
        value_insert(&mut v, "switches", write_list(&self.switches));
        v
    }
}

impl ToJson for SPMSubdevListReq {
    open spec fn json(&self) -> JsonModel {
        JsonModel::empty_object()
    }

    fn to_json(&self) -> (v: serde_json::Value) {
        value_object()
    }
}

impl ToJson for SPMStatusReq {
    open spec fn json(&self) -> JsonModel {
        status_json(opt_str_json(self.sub_dev_id))
    }

    fn to_json(&self) -> (v: serde_json::Value) {
        let mut v = value_object();
        let id = match &self.sub_dev_id {
            Some(id) => value_str(id.as_str()),
            None => value_null(),
        };
        value_insert(&mut v, "subDevId", id);
        v
    }
}

/// A power meter hub.
pub struct SonoffPowerMeter {
    dev: SonoffDevice,
}

impl<'a> From<&'a SonoffDevice> for SonoffPowerMeter {
    fn from(value: &'a SonoffDevice) -> (meter: SonoffPowerMeter)
        ensures
            meter.device() == *value,
    {
        SonoffPowerMeter { dev: value.clone() }
    }
}

impl<'a> FromSpecImpl<&'a SonoffDevice> for SonoffPowerMeter {
    open spec fn obeys_from_spec() -> bool {
        true
    }

    closed spec fn from_spec(value: &'a SonoffDevice) -> SonoffPowerMeter {
        SonoffPowerMeter { dev: *value }
    }
}

impl SonoffPowerMeter {
    /// The handle of the device.
    pub closed spec fn device(&self) -> SonoffDevice {
        self.dev
    }

    pub fn get_dev(&self) -> (dev: &SonoffDevice)
        ensures
            *dev == self.device(),
    {
        &self.dev
    }

    /// Sets the switches of the outlets of the sub-device `sub_dev_id` that
    /// `switches` names: POSTs both to `/switches`, then reads the reply's
    /// envelope.
    pub fn set_switches(
        &self,
        sub_dev_id: String,
        switches: Vec<DevDataSPMSwitch>,
        replies: &[HttpReply],
    ) -> (r: Result<Step<DevRes>, SonoffError>)
        ensures
            replies@.len() == 0 ==> sends(
                r,
                self.device(),
                "/switches"@,
                subdev_switches_json(sub_dev_id@, switches@),
            ),
            replies@.len() > 0 ==> finishes(r, reply_envelope(replies@[0])),
    {
        let req_obj = SPMSwitchesReq { sub_dev_id, switches };
        self.get_dev().__request("/switches", &req_obj, replies)
    }

    /// The sub-devices that the hub knows: POSTs an empty object to
    /// `/subDevList`, then reads the `data` of the reply.
    pub fn get_subdevs(&self, replies: &[HttpReply]) -> (r: Result<
        Step<SPMSubdevList>,
        SonoffError,
    >)
        ensures
            replies@.len() == 0 ==> sends(
                r,
                self.device(),
                "/subDevList"@,
                JsonModel::empty_object(),
            ),
            replies@.len() > 0 ==> finishes(r, reply_data(replies@[0])),
    {
        let req_obj = SPMSubdevListReq {  };
        self.get_dev().request("/subDevList", &req_obj, replies)
    }

    /// The status of the hub: POSTs a query that names no sub-device to
    /// `/getState`, then reads the `data` of the reply.
    pub fn status(&self, replies: &[HttpReply]) -> (r: Result<Step<SPMStatus>, SonoffError>)
        ensures
            replies@.len() == 0 ==> sends(
                r,
                self.device(),
                "/getState"@,
                status_json(JsonModel::Null),
            ),
            replies@.len() > 0 ==> finishes(r, reply_data(replies@[0])),
    {
        let req_obj = SPMStatusReq { sub_dev_id: None };
        self.get_dev().request("/getState", &req_obj, replies)
    }

    /// The status of the sub-device `sub_dev_id`: POSTs a query that names
    /// it to `/getState`, then reads the `data` of the reply.
    pub fn subdev_status(&self, sub_dev_id: String, replies: &[HttpReply]) -> (r: Result<
        Step<SPMSubdevStatus>,
        SonoffError,
    >)
        ensures
            replies@.len() == 0 ==> sends(
                r,
                self.device(),
                "/getState"@,
                status_json(JsonModel::Str(sub_dev_id@)),
            ),
            replies@.len() > 0 ==> finishes(r, reply_data(replies@[0])),
    {
        let req_obj = SPMStatusReq { sub_dev_id: Some(sub_dev_id) };
        self.get_dev().request("/getState", &req_obj, replies)
    }
}

} // verus!
