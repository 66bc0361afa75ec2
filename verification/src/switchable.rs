//! What every device with one switch can do.

use vstd::prelude::*;
use vstd::slice::slice_subrange;
use crate::codec::{FromJson, ToJson, read_str};
use crate::device::{
    DevRes, HttpReply, SonoffDevice, Step, endpoint, finishes, reply_data, reply_envelope, sends,
};
use crate::error::SonoffError;
use crate::json::JsonModel;
use crate::value::{value_insert, value_object, value_str};

verus! {

/// The command that sets the switch; in a device's info, the state that the
/// switch is in.
#[derive(Debug, Clone, PartialEq, Eq)]
pub struct SonoffSwitchReq {
    /// Switch state: "on" or "off"
    pub switch: String,
}

/// The command that sets what the switch does when the device starts.
#[derive(Debug, Clone, PartialEq, Eq)]
pub struct SonoffSwitchStartupReq {
    /// Startup state: "on", "off", or "stay" for the last known state
    pub startup: String,
}

/// The document that sets the switch to `state`.
pub open spec fn switch_json(state: Seq<char>) -> JsonModel {
    JsonModel::empty_object().with("switch"@, JsonModel::Str(state))
}

/// The document that sets the startup state to `state`.
pub open spec fn startup_json(state: Seq<char>) -> JsonModel {
    JsonModel::empty_object().with("startup"@, JsonModel::Str(state))
}

impl ToJson for SonoffSwitchReq {
    open spec fn json(&self) -> JsonModel {
        switch_json(self.switch@)
    }

    fn to_json(&self) -> (v: serde_json::Value) {
        let mut v = value_object();
        value_insert(&mut v, "switch", value_str(self.switch.as_str()));
        v
    }
}

impl FromJson for SonoffSwitchReq {
    open spec fn json_valid(j: JsonModel) -> bool {
        j.str_member("switch"@) is Some
    }

    open spec fn json_matches(&self, j: JsonModel) -> bool {
        j.str_member("switch"@) == Some(self.switch@)
    }

    fn from_json(v: &serde_json::Value) -> (r: Result<Self, SonoffError>) {
        let switch = read_str(v, "switch")?;
        Ok(SonoffSwitchReq { switch })
    }
}

impl ToJson for SonoffSwitchStartupReq {
    open spec fn json(&self) -> JsonModel {
        startup_json(self.startup@)
    }

    fn to_json(&self) -> (v: serde_json::Value) {
        let mut v = value_object();
        value_insert(&mut v, "startup", value_str(self.startup.as_str()));
        v
    }
}

/// The info that a reply to an info query holds, where it holds one.
pub open spec fn reply_info(reply: HttpReply) -> JsonModel {
    reply_data(reply)->Ok_0
}

/// Whether the device that sent `reply` to an info query is switched on, or
/// why the reply does not tell. `state` is what the kind of device makes of
/// the info in the reply: whether it is on, or `None` where the info is
/// malformed.
pub open spec fn switch_outcome(reply: HttpReply, state: Option<bool>) -> Result<
    bool,
    SonoffError,
> {
    match reply_data(reply) {
        Ok(_) => match state {
            Some(on) => Ok(on),
            None => Err(SonoffError::SerializationError),
        },
        Err(e) => Err(e),
    }
}

/// Whether `r` is the step of toggling `dev` after `replies`: the info query;
/// on its reply one command to the switch, "off" where the device is on and
/// "on" where it is not, or the error where the reply does not tell; on the
/// second reply the end. `outcome` is what the first reply tells of the
/// switch.
pub open spec fn toggles<T: FromJson>(
    r: Result<Step<T>, SonoffError>,
    dev: SonoffDevice,
    replies: Seq<HttpReply>,
    outcome: Result<bool, SonoffError>,
) -> bool {
    &&& replies.len() == 0 ==> sends(r, dev, "/info"@, JsonModel::empty_object())
    &&& replies.len() > 0 ==> match outcome {
        Ok(on) => {
            &&& replies.len() == 1 ==> sends(r, dev, "/switch"@, switch_json(toggled(on)))
            &&& replies.len() > 1 ==> finishes(r, reply_envelope(replies[1]))
        },
        Err(e) => r == Err::<Step<T>, SonoffError>(e),
    }
}

/// The state that `toggle` sets on a device that is on, or is not.
pub open spec fn toggled(on: bool) -> Seq<char> {
    if on {
        "off"@
    } else {
        "on"@
    }
}

/// A device with one switch.
pub trait SonoffSwitchable {
    /// The handle of the device.
    spec fn device(&self) -> SonoffDevice;

    /// Whether a device of this kind is switched on, by its info; `None`
    /// where the info is malformed.
    spec fn switch_of(info: JsonModel) -> Option<bool>;

    fn get_dev(&self) -> (dev: &SonoffDevice)
        ensures
            *dev == self.device(),
    ;

    /// Whether the device is switched on: asks for the device's info, then
    /// reads the switch out of the `data` of the reply.
    fn get_switch(&self, replies: &[HttpReply]) -> (r: Result<Step<bool>, SonoffError>)
        ensures
            replies@.len() == 0 ==> sends(r, self.device(), "/info"@, JsonModel::empty_object()),
            replies@.len() > 0 ==> r == match switch_outcome(
                replies@[0],
                Self::switch_of(reply_info(replies@[0])),
            ) {
                Ok(on) => Ok::<Step<bool>, SonoffError>(Step::Done(on)),
                Err(e) => Err(e),
            },
    ;

    /// Sets the switch: POSTs `state` to `/switch`, then reads the reply's
    /// envelope. Valid state: "on", "off".
    fn set_switch(&self, state: &str, replies: &[HttpReply]) -> (r: Result<
        Step<DevRes>,
        SonoffError,
    >)
        ensures
            replies@.len() == 0 ==> sends(r, self.device(), "/switch"@, switch_json(state@)),
            replies@.len() > 0 ==> finishes(r, reply_envelope(replies@[0])),
    {
        let req_obj = SonoffSwitchReq { switch: state.to_owned() };
        self.get_dev().__request("/switch", &req_obj, replies)
    }

    /// Switches the device on.
    fn on(&self, replies: &[HttpReply]) -> (r: Result<Step<DevRes>, SonoffError>)
        ensures
            replies@.len() == 0 ==> sends(r, self.device(), "/switch"@, switch_json("on"@)),
            replies@.len() > 0 ==> finishes(r, reply_envelope(replies@[0])),
    {
        self.set_switch("on", replies)
    }

    /// Switches the device off.
    fn off(&self, replies: &[HttpReply]) -> (r: Result<Step<DevRes>, SonoffError>)
        ensures
            replies@.len() == 0 ==> sends(r, self.device(), "/switch"@, switch_json("off"@)),
            replies@.len() > 0 ==> finishes(r, reply_envelope(replies@[0])),
    {
        self.set_switch("off", replies)
    }

    /// Switches the device to the other state, in two exchanges: the first
    /// asks whether it is on, as `get_switch` does; the second switches it
    /// off if it is, and on if it is not. Where the first fails nothing more
    /// is sent. Nothing ties the two together: the state may change between
    /// them.
    fn toggle(&self, replies: &[HttpReply]) -> (r: Result<Step<DevRes>, SonoffError>)
        ensures
            toggles(
                r,
                self.device(),
                replies@,
                switch_outcome(replies@[0], Self::switch_of(reply_info(replies@[0]))),
            ),
    {
        match self.get_switch(replies)? {
            Step::Send(request) => Ok(Step::Send(request)),
            Step::Done(on) => {
                let rest = slice_subrange(replies, 1, replies.len());
                if on {
                    self.off(rest)
                } else {
                    self.on(rest)
                }
            },
        }
    }

    /// Set the state for when the device restarts (e.g. after a power loss):
    /// POSTs `state` to `/startup`, then reads the reply's envelope.
    /// Valid values are: "on", "off", and "stay" for the previous known state.
    ///
    /// NOTE: Bulbs do NOT support this.
    fn set_startup(&self, state: String, replies: &[HttpReply]) -> (r: Result<
        Step<DevRes>,
        SonoffError,
    >)
        ensures
            replies@.len() == 0 ==> sends(r, self.device(), "/startup"@, startup_json(state@)),
            replies@.len() > 0 ==> finishes(r, reply_envelope(replies@[0])),
    {
        let req_obj = SonoffSwitchStartupReq { startup: state };
        self.get_dev().__request("/startup", &req_obj, replies)
    }
}

/// Whether the device of kind `S` that sent `reply` to an info query is
/// switched on, or why the reply does not tell.
pub open spec fn switch_outcome_of<S: SonoffSwitchable>(reply: HttpReply) -> Result<
    bool,
    SonoffError,
> {
    switch_outcome(reply, S::switch_of(reply_info(reply)))
}

/// Toggling sends exactly one command to the switch, and it is the one that
/// `off` sends where the device is on, and that `on` sends where it is off.
/// Of the three steps of a toggle that gets that far, the first asks for the
/// info and is no command to the switch, the second is that command, and the
/// third sends nothing.
pub proof fn lemma_toggle_sends_one_command(
    dev: SonoffDevice,
    info: HttpReply,
    ack: HttpReply,
    on: bool,
    first: Result<Step<DevRes>, SonoffError>,
    second: Result<Step<DevRes>, SonoffError>,
    third: Result<Step<DevRes>, SonoffError>,
    direct: Result<Step<DevRes>, SonoffError>,
)
    requires
        toggles(first, dev, seq![], Ok(on)),
        toggles(second, dev, seq![info], Ok(on)),
        toggles(third, dev, seq![info, ack], Ok(on)),
        on ==> sends(direct, dev, "/switch"@, switch_json("off"@)),
        !on ==> sends(direct, dev, "/switch"@, switch_json("on"@)),
    ensures
        first matches Ok(Step::Send(query)) ==> query.url@ == endpoint(dev.address@, "/info"@)
            && query.url@ != endpoint(dev.address@, "/switch"@),
        second is Ok <==> direct is Ok,
        second matches Ok(step) ==> step matches Step::Send(command) && direct matches Ok(
            Step::Send(same),
        ) && command.url@ == same.url@ && command.body@ == same.body@,
        !(third matches Ok(Step::Send(_))),
{
    reveal_strlit("/info");
    reveal_strlit("/switch");
    let prefix = dev.address@ + "/zeroconf"@;
    assert(endpoint(dev.address@, "/info"@).len() == prefix.len() + 5);
    assert(endpoint(dev.address@, "/switch"@).len() == prefix.len() + 7);
}

} // verus!
