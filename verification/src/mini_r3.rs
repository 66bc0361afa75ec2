//! The relay with several outlets.

use vstd::prelude::*;
use vstd::std_specs::convert::FromSpecImpl;
use crate::codec::{ToJson, list_json, opt_list_json, write_opt_list};
use crate::device::{DevRes, HttpReply, SonoffDevice, Step, finishes, reply_envelope, sends};
use crate::error::SonoffError;
use crate::json::JsonModel;
use crate::value::{value_insert, value_object, value_str, value_u64};

verus! {

/// A command to the relay. Of its three lists one is set; the two that are
/// `None` are sent as `null`. The outlets that the list does not name are
/// not spoken of.
#[derive(Debug, Clone, PartialEq, Eq)]
pub struct DevDataR3 {
    pub switches: Option<Vec<DevDataR3Switch>>,
    pub configure: Option<Vec<DevDataR3Startup>>,
    pub pulses: Option<Vec<DevDataR3Pulse>>,
}

/// The state of the switch of one outlet.
#[derive(Debug, Clone, PartialEq, Eq)]
pub struct DevDataR3Switch {
    pub outlet: u8,
    pub switch: String,
}

/// The startup state of one outlet.
#[derive(Debug, Clone, PartialEq, Eq)]
pub struct DevDataR3Startup {
    pub outlet: u8,
    pub startup: String,
}

/// The pulse of one outlet.
#[derive(Debug, Clone, PartialEq, Eq)]
pub struct DevDataR3Pulse {
    pub outlet: u8,
    pub pulse: String,
    pub switch: String,
    pub width: u32,
}

impl ToJson for DevDataR3Switch {
    open spec fn json(&self) -> JsonModel {
        JsonModel::empty_object().with("outlet"@, JsonModel::Int(self.outlet as int)).with(
            "switch"@,
            JsonModel::Str(self.switch@),
        )
    }

    fn to_json(&self) -> (v: serde_json::Value) {
        let mut v = value_object();
        value_insert(&mut v, "outlet", value_u64(self.outlet as u64));
        value_insert(&mut v, "switch", value_str(self.switch.as_str()));
        v
    }
}

impl ToJson for DevDataR3Startup {
    open spec fn json(&self) -> JsonModel {
        JsonModel::empty_object().with("outlet"@, JsonModel::Int(self.outlet as int)).with(
            "startup"@,
            JsonModel::Str(self.startup@),
        )
    }

    fn to_json(&self) -> (v: serde_json::Value) {
        let mut v = value_object();
        value_insert(&mut v, "outlet", value_u64(self.outlet as u64));
        value_insert(&mut v, "startup", value_str(self.startup.as_str()));
        v
    }
}

impl ToJson for DevDataR3Pulse {
    open spec fn json(&self) -> JsonModel {
        JsonModel::empty_object().with("outlet"@, JsonModel::Int(self.outlet as int)).with(
            "pulse"@,
            JsonModel::Str(self.pulse@),
        ).with("switch"@, JsonModel::Str(self.switch@)).with(
            "width"@,
            JsonModel::Int(self.width as int),
        )
    }

    fn to_json(&self) -> (v: serde_json::Value) {
        let mut v = value_object();
        value_insert(&mut v, "outlet", value_u64(self.outlet as u64));
        value_insert(&mut v, "pulse", value_str(self.pulse.as_str()));
        value_insert(&mut v, "switch", value_str(self.switch.as_str()));
        value_insert(&mut v, "width", value_u64(self.width as u64));
        v
    }
}

/// The document of a command to the relay, by its three lists.
pub open spec fn relay_json(
    switches: JsonModel,
    configure: JsonModel,
    pulses: JsonModel,
) -> JsonModel {
    JsonModel::empty_object().with("switches"@, switches).with("configure"@, configure).with(
        "pulses"@,
        pulses,
    )
}

impl ToJson for DevDataR3 {
    open spec fn json(&self) -> JsonModel {
        relay_json(
            opt_list_json(self.switches),
            opt_list_json(self.configure),
            opt_list_json(self.pulses),
        )
    }

    fn to_json(&self) -> (v: serde_json::Value) {
        let mut v = value_object();
        value_insert(&mut v, "switches", write_opt_list(&self.switches));
        value_insert(&mut v, "configure", write_opt_list(&self.configure));
        value_insert(&mut v, "pulses", write_opt_list(&self.pulses));
        v
    }
}

/// A command that sets switches speaks of the outlets of its list and of no
/// other: its `switches` hold one entry for each item of the list, in order,
/// with the outlet and the state of that item, and it sets no startup state
/// and no pulse.
pub proof fn lemma_switches_name_the_list(switches: Seq<DevDataR3Switch>)
    ensures
        ({
            let command = relay_json(list_json(switches), JsonModel::Null, JsonModel::Null);
            &&& command.member("configure"@) == Some(JsonModel::Null)
            &&& command.member("pulses"@) == Some(JsonModel::Null)
            &&& command.array_member("switches"@) matches Some(entries)
            &&& entries.len() == switches.len()
            &&& forall|i: int|
                0 <= i < entries.len() ==> {
                    &&& (#[trigger] entries[i]).int_member("outlet"@, 0, u8::MAX as int) == Some(
                        switches[i].outlet as int,
                    )
                    &&& entries[i].str_member("switch"@) == Some(switches[i].switch@)
                }
        }),
{
    reveal_strlit("switches");
    reveal_strlit("configure");
    reveal_strlit("pulses");
    reveal_strlit("outlet");
    reveal_strlit("switch");
    assert("switches"@.len() == 8 && "configure"@.len() == 9 && "pulses"@.len() == 6);
    assert("outlet"@[0] == 'o' && "switch"@[0] == 's');
}

/// A relay with several outlets.
pub struct SonoffMiniR3 {
    dev: SonoffDevice,
}

impl<'a> From<&'a SonoffDevice> for SonoffMiniR3 {
    fn from(value: &'a SonoffDevice) -> (relay: SonoffMiniR3)
        ensures
            relay.device() == *value,
    {
        SonoffMiniR3 { dev: value.clone() }
    }
}

impl<'a> FromSpecImpl<&'a SonoffDevice> for SonoffMiniR3 {
    open spec fn obeys_from_spec() -> bool {
        true
    }

    closed spec fn from_spec(value: &'a SonoffDevice) -> SonoffMiniR3 {
        SonoffMiniR3 { dev: *value }
    }
}

impl SonoffMiniR3 {
    /// The handle of the device.
    pub closed spec fn device(&self) -> SonoffDevice {
        self.dev
    }

    pub fn get_dev(&self) -> (dev: &SonoffDevice)
        ensures
            *dev == self.device(),
    {
        &self.dev
    }

    /// Sets the switches of the outlets that `switches` names: POSTs the
    /// list as it is, one entry for each item and in their order, to
    /// `/switches`, then reads the reply's envelope.
    pub fn set_switches(&self, switches: Vec<DevDataR3Switch>, replies: &[HttpReply]) -> (r: Result<
        Step<DevRes>,
        SonoffError,
    >)
        ensures
            replies@.len() == 0 ==> sends(
                r,
                self.device(),
                "/switches"@,
                relay_json(list_json(switches@), JsonModel::Null, JsonModel::Null),
            ),
            replies@.len() > 0 ==> finishes(r, reply_envelope(replies@[0])),
    {
        let req_obj = DevDataR3 { switches: Some(switches), configure: None, pulses: None };
        self.get_dev().__request("/switches", &req_obj, replies)
    }

    /// Sets the startup states of the outlets that `startups` names: POSTs
    /// the list as it is to `/startups`, then reads the reply's envelope.
    pub fn set_startup(&self, startups: Vec<DevDataR3Startup>, replies: &[HttpReply]) -> (r: Result<
        Step<DevRes>,
        SonoffError,
    >)
        ensures
            replies@.len() == 0 ==> sends(
                r,
                self.device(),
                "/startups"@,
                relay_json(JsonModel::Null, list_json(startups@), JsonModel::Null),
            ),
            replies@.len() > 0 ==> finishes(r, reply_envelope(replies@[0])),
    {
        let req_obj = DevDataR3 { switches: None, configure: Some(startups), pulses: None };
        self.get_dev().__request("/startups", &req_obj, replies)
    }

    /// Sets the pulses of the outlets that `pulses` names: POSTs the list as
    /// it is to `/pulses`, then reads the reply's envelope.
    pub fn set_pulses(&self, pulses: Vec<DevDataR3Pulse>, replies: &[HttpReply]) -> (r: Result<
        Step<DevRes>,
        SonoffError,
    >)
        ensures
            replies@.len() == 0 ==> sends(
                r,
                self.device(),
                "/pulses"@,
                relay_json(JsonModel::Null, JsonModel::Null, list_json(pulses@)),
            ),
            replies@.len() > 0 ==> finishes(r, reply_envelope(replies@[0])),
    {
        let req_obj = DevDataR3 { switches: None, configure: None, pulses: Some(pulses) };
        self.get_dev().__request("/pulses", &req_obj, replies)
    }
}

} // verus!
