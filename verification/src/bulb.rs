//! The bulb, with its color and white modes.

use vstd::prelude::*;
use vstd::std_specs::convert::FromSpecImpl;
use crate::codec::{FromJson, ToJson, is_text, read_str, read_u8};
use crate::device::{DevRes, HttpReply, SonoffDevice, Step, finishes, reply_envelope, sends};
use crate::device_common::{
    DevInfo, common_key, device_part, lemma_device_part_keeps, reply_device_part,
};
use crate::dimmable::SonoffDimmable;
use crate::error::SonoffError;
use crate::json::JsonModel;
use crate::switchable::SonoffSwitchable;
use crate::value::{value_insert, value_object, value_str, value_u64};

verus! {

/// What a bulb says of itself.
#[derive(Debug, Clone, PartialEq, Eq)]
pub struct DevInfoDataBulb {
    pub switch: String,
    /// Lamp type ("color" or "white"), as `color_type` has it
    pub ltype: String,
    pub color_type: DevReqBulbColorType,
}

/// The command that sets the light of a bulb.
#[derive(Debug, Clone, PartialEq, Eq)]
pub struct DevReqBulb {
    /// Lamp type ("color" or "white")
    pub ltype: String,
    pub color_type: DevReqBulbColorType,
}

/// The light of a bulb: colored or white, never both.
#[derive(Debug, Clone, Copy, PartialEq, Eq, Structural)]
pub enum DevReqBulbColorType {
    Color(DevReqBulbColorTypeRGB),
    White(DevReqBulbColorTypeCW),
}

/// Colored light.
#[derive(Debug, Clone, Copy, PartialEq, Eq, Structural)]
pub struct DevReqBulbColorTypeRGB {
    /// Brightness (min=1, max=100)
    pub br: u8,
    /// Red (min=1, max=255)
    pub r: u8,
    /// Green (min=1, max=255)
    pub g: u8,
    /// Blue (min=1, max=255)
    pub b: u8,
}

/// White light.
#[derive(Debug, Clone, Copy, PartialEq, Eq, Structural)]
pub struct DevReqBulbColorTypeCW {
    /// Brightness (min=1, max=100)
    pub br: u8,
    /// Color temperature (min=0, max=100)
    pub ct: u8,
}

impl DevReqBulbColorType {
    /// The lamp type that tags this light: "color" or "white".
    pub open spec fn tag(self) -> Seq<char> {
        match self {
            DevReqBulbColorType::Color(_) => "color"@,
            DevReqBulbColorType::White(_) => "white"@,
        }
    }

    /// The members that hold this light.
    pub open spec fn fill(self, j: JsonModel) -> JsonModel {
        match self {
            DevReqBulbColorType::Color(c) => j.with("br"@, JsonModel::Int(c.br as int)).with(
                "r"@,
                JsonModel::Int(c.r as int),
            ).with("g"@, JsonModel::Int(c.g as int)).with("b"@, JsonModel::Int(c.b as int)),
            DevReqBulbColorType::White(w) => j.with("br"@, JsonModel::Int(w.br as int)).with(
                "ct"@,
                JsonModel::Int(w.ct as int),
            ),
        }
    }

    /// The light that the members of `j` hold, for the lamp type `ltype`.
    pub open spec fn read(j: JsonModel, ltype: Seq<char>) -> Option<DevReqBulbColorType> {
        if ltype == "color"@ {
            match (
                j.int_member("br"@, 0, u8::MAX as int),
                j.int_member("r"@, 0, u8::MAX as int),
                j.int_member("g"@, 0, u8::MAX as int),
                j.int_member("b"@, 0, u8::MAX as int),
            ) {
                (Some(br), Some(r), Some(g), Some(b)) => Some(
                    DevReqBulbColorType::Color(
                        DevReqBulbColorTypeRGB { br: br as u8, r: r as u8, g: g as u8, b: b as u8 },
                    ),
                ),
                _ => None,
            }
        } else if ltype == "white"@ {
            match (j.int_member("br"@, 0, u8::MAX as int), j.int_member("ct"@, 0, u8::MAX as int)) {
                (Some(br), Some(ct)) => Some(
                    DevReqBulbColorType::White(
                        DevReqBulbColorTypeCW { br: br as u8, ct: ct as u8 },
                    ),
                ),
                _ => None,
            }
        } else {
            None
        }
    }
}

/// The document that sets the light of a bulb: one flat object, the lamp
/// type beside the members of the light.
pub open spec fn bulb_json(color_type: DevReqBulbColorType) -> JsonModel {
    color_type.fill(JsonModel::empty_object().with("ltype"@, JsonModel::Str(color_type.tag())))
}

/// The light that a bulb's info holds, or `None` where it holds none: the
/// lamp type must be "color" or "white", and the members of that light must
/// be there.
pub open spec fn bulb_light(j: JsonModel) -> Option<DevReqBulbColorType> {
    match j.str_member("ltype"@) {
        Some(ltype) => DevReqBulbColorType::read(j, ltype),
        None => None,
    }
}

impl DevInfoDataBulb {
    /// Whether the lamp type is the one of the light: "color" beside colored
    /// light, "white" beside white light.
    pub open spec fn wf(&self) -> bool {
        self.ltype@ == self.color_type.tag()
    }

    /// What is read of a bulb has the lamp type of its light.
    pub proof fn lemma_read_is_wf(&self, j: JsonModel)
        requires
            self.json_matches(j),
        ensures
            self.wf(),
    {
    }
}

impl FromJson for DevInfoDataBulb {
    open spec fn json_valid(j: JsonModel) -> bool {
        &&& j.str_member("switch"@) is Some
        &&& bulb_light(j) is Some
    }

    open spec fn json_matches(&self, j: JsonModel) -> bool {
        &&& j.str_member("switch"@) == Some(self.switch@)
        &&& j.str_member("ltype"@) == Some(self.ltype@)
        &&& bulb_light(j) == Some(self.color_type)
    }

    fn from_json(v: &serde_json::Value) -> (r: Result<Self, SonoffError>) {
        let switch = read_str(v, "switch")?;
        let ltype = read_str(v, "ltype")?;
        if is_text(&ltype, "color") {
            let br = read_u8(v, "br")?;
            let r = read_u8(v, "r")?;
            let g = read_u8(v, "g")?;
            let b = read_u8(v, "b")?;
            let color_type = DevReqBulbColorType::Color(DevReqBulbColorTypeRGB { br, r, g, b });
            Ok(DevInfoDataBulb { switch, ltype, color_type })
        } else if is_text(&ltype, "white") {
            let br = read_u8(v, "br")?;
            let ct = read_u8(v, "ct")?;
            let color_type = DevReqBulbColorType::White(DevReqBulbColorTypeCW { br, ct });
            Ok(DevInfoDataBulb { switch, ltype, color_type })
        } else {
            Err(SonoffError::SerializationError)
        }
    }
}

impl ToJson for DevReqBulb {
    /// The members of the light beside the lamp type as the request has it.
    open spec fn json(&self) -> JsonModel {
        self.color_type.fill(JsonModel::empty_object().with("ltype"@, JsonModel::Str(self.ltype@)))
    }

    fn to_json(&self) -> (v: serde_json::Value) {
        let mut v = value_object();
        value_insert(&mut v, "ltype", value_str(self.ltype.as_str()));
        match self.color_type {
            DevReqBulbColorType::Color(c) => {
                value_insert(&mut v, "br", value_u64(c.br as u64));
                value_insert(&mut v, "r", value_u64(c.r as u64));
                value_insert(&mut v, "g", value_u64(c.g as u64));
                value_insert(&mut v, "b", value_u64(c.b as u64));
            },
            DevReqBulbColorType::White(w) => {
                value_insert(&mut v, "br", value_u64(w.br as u64));
                value_insert(&mut v, "ct", value_u64(w.ct as u64));
            },
        }
        v
    }
}

/// A bulb.
pub struct SonoffBulb {
    dev: SonoffDevice,
}

impl<'a> From<&'a SonoffDevice> for SonoffBulb {
    fn from(value: &'a SonoffDevice) -> (bulb: SonoffBulb)
        ensures
            bulb.device() == *value,
    {
        SonoffBulb { dev: value.clone() }
    }
}

impl<'a> FromSpecImpl<&'a SonoffDevice> for SonoffBulb {
    open spec fn obeys_from_spec() -> bool {
        true
    }

    closed spec fn from_spec(value: &'a SonoffDevice) -> SonoffBulb {
        SonoffBulb { dev: *value }
    }
}

impl SonoffSwitchable for SonoffBulb {
    closed spec fn device(&self) -> SonoffDevice {
        self.dev
    }

    /// A bulb is on where its info is well formed and the member `switch` of
    /// it is the text "on".
    open spec fn switch_of(info: JsonModel) -> Option<bool> {
        if DevInfo::json_valid(info) && DevInfoDataBulb::json_valid(device_part(info)) {
            Some(device_part(info).str_member("switch"@) == Some("on"@))
        } else {
            None
        }
    }

    fn get_dev(&self) -> (dev: &SonoffDevice) {
        &self.dev
    }

    fn get_switch(&self, replies: &[HttpReply]) -> (r: Result<Step<bool>, SonoffError>) {
        match self.get_info(replies)? {
            Step::Send(request) => Ok(Step::Send(request)),
            Step::Done(bulb_info) => Ok(Step::Done(is_text(&bulb_info.switch, "on"))),
        }
    }
}

impl SonoffBulb {
    /// Sets the light of the bulb: POSTs the light, tagged with its lamp
    /// type, to `/dimmable`, then reads the reply's envelope.
    pub fn set_bulb(&self, color_type: DevReqBulbColorType, replies: &[HttpReply]) -> (r: Result<
        Step<DevRes>,
        SonoffError,
    >)
        ensures
            replies@.len() == 0 ==> sends(r, self.device(), "/dimmable"@, bulb_json(color_type)),
            replies@.len() > 0 ==> finishes(r, reply_envelope(replies@[0])),
    {
        let ltype = match color_type {
            DevReqBulbColorType::Color(_) => "color",
            DevReqBulbColorType::White(_) => "white",
        }.to_owned();
        let req_obj = DevReqBulb { ltype, color_type };
        self.dev.__request("/dimmable", &req_obj, replies)
    }

    /// Sets colored light of brightness `br`.
    pub fn color(&self, br: u8, r: u8, g: u8, b: u8, replies: &[HttpReply]) -> (res: Result<
        Step<DevRes>,
        SonoffError,
    >)
        ensures
            replies@.len() == 0 ==> sends(
                res,
                self.device(),
                "/dimmable"@,
                bulb_json(DevReqBulbColorType::Color(DevReqBulbColorTypeRGB { br, r, g, b })),
            ),
            replies@.len() > 0 ==> finishes(res, reply_envelope(replies@[0])),
    {
        self.set_bulb(DevReqBulbColorType::Color(DevReqBulbColorTypeRGB { br, r, g, b }), replies)
    }

    /// Sets white light of brightness `br` and color temperature `ct`.
    pub fn white(&self, br: u8, ct: u8, replies: &[HttpReply]) -> (r: Result<
        Step<DevRes>,
        SonoffError,
    >)
        ensures
            replies@.len() == 0 ==> sends(
                r,
                self.device(),
                "/dimmable"@,
                bulb_json(DevReqBulbColorType::White(DevReqBulbColorTypeCW { br, ct })),
            ),
            replies@.len() > 0 ==> finishes(r, reply_envelope(replies@[0])),
    {
        self.set_bulb(DevReqBulbColorType::White(DevReqBulbColorTypeCW { br, ct }), replies)
    }

    /// What the bulb says of itself: asks for the device's info, then reads
    /// the part of it that is particular to a bulb.
    pub fn get_info(&self, replies: &[HttpReply]) -> (r: Result<
        Step<DevInfoDataBulb>,
        SonoffError,
    >)
        ensures
            replies@.len() == 0 ==> sends(r, self.device(), "/info"@, JsonModel::empty_object()),
            replies@.len() > 0 ==> finishes(r, reply_device_part(replies@[0])),
    {
        self.dev.get_part::<DevInfoDataBulb>(replies)
    }
}

/// The names of the members of a bulb's documents differ from each other,
/// and from those of the members that every device's info has.
proof fn lemma_bulb_keys()
    ensures
        "switch"@ != "ltype"@,
        "switch"@ != "br"@,
        "switch"@ != "r"@,
        "switch"@ != "g"@,
        "switch"@ != "b"@,
        "switch"@ != "ct"@,
        "ltype"@ != "br"@,
        "ltype"@ != "r"@,
        "ltype"@ != "g"@,
        "ltype"@ != "b"@,
        "ltype"@ != "ct"@,
        "br"@ != "r"@,
        "br"@ != "g"@,
        "br"@ != "b"@,
        "br"@ != "ct"@,
        "r"@ != "g"@,
        "r"@ != "b"@,
        "r"@ != "ct"@,
        "g"@ != "b"@,
        "g"@ != "ct"@,
        "b"@ != "ct"@,
        "color"@ != "white"@,
        !common_key("switch"@),
        !common_key("ltype"@),
        !common_key("br"@),
        !common_key("r"@),
        !common_key("g"@),
        !common_key("b"@),
        !common_key("ct"@),
{
    reveal_strlit("switch");
    reveal_strlit("ltype");
    reveal_strlit("br");
    reveal_strlit("r");
    reveal_strlit("g");
    reveal_strlit("b");
    reveal_strlit("ct");
    reveal_strlit("color");
    reveal_strlit("white");
    reveal_strlit("deviceid");
    reveal_strlit("bssid");
    reveal_strlit("ssid");
    reveal_strlit("signalStrength");
    reveal_strlit("fwVersion");
    reveal_strlit("otaUnlock");
    assert("switch"@.len() == 6 && "switch"@[0] == 's');
    assert("ltype"@.len() == 5 && "ltype"@[0] == 'l');
    assert("br"@.len() == 2 && "br"@[0] == 'b');
    assert("r"@.len() == 1 && "r"@[0] == 'r');
    assert("g"@.len() == 1 && "g"@[0] == 'g');
    assert("b"@.len() == 1 && "b"@[0] == 'b');
    assert("ct"@.len() == 2 && "ct"@[0] == 'c');
    assert("color"@.len() == 5 && "color"@[0] == 'c');
    assert("white"@.len() == 5 && "white"@[0] == 'w');
    assert("deviceid"@.len() == 8 && "deviceid"@[0] == 'd');
    assert("bssid"@.len() == 5 && "bssid"@[0] == 'b');
    assert("ssid"@.len() == 4 && "ssid"@[0] == 's');
    assert("signalStrength"@.len() == 14 && "signalStrength"@[0] == 's');
    assert("fwVersion"@.len() == 9 && "fwVersion"@[0] == 'f');
    assert("otaUnlock"@.len() == 9 && "otaUnlock"@[0] == 'o');
}

/// What the document that sets a light holds: the lamp type and the members
/// of that light, and no member of the other light.
pub proof fn lemma_bulb_json_members(color_type: DevReqBulbColorType)
    ensures
        bulb_json(color_type).str_member("ltype"@) == Some(color_type.tag()),
        bulb_light(bulb_json(color_type)) == Some(color_type),
        match color_type {
            DevReqBulbColorType::Color(c) => {
                &&& bulb_json(color_type).member("br"@) == Some(JsonModel::Int(c.br as int))
                &&& bulb_json(color_type).member("r"@) == Some(JsonModel::Int(c.r as int))
                &&& bulb_json(color_type).member("g"@) == Some(JsonModel::Int(c.g as int))
                &&& bulb_json(color_type).member("b"@) == Some(JsonModel::Int(c.b as int))
                &&& bulb_json(color_type).member("ct"@) is None
            },
            DevReqBulbColorType::White(w) => {
                &&& bulb_json(color_type).member("br"@) == Some(JsonModel::Int(w.br as int))
                &&& bulb_json(color_type).member("ct"@) == Some(JsonModel::Int(w.ct as int))
                &&& bulb_json(color_type).member("r"@) is None
                &&& bulb_json(color_type).member("g"@) is None
                &&& bulb_json(color_type).member("b"@) is None
            },
        },
{
    lemma_bulb_keys();
}

/// Setting a light and reading it back gives the same light: where a bulb's
/// info holds, under the lamp type and the members of the light, what the
/// command for `color_type` holds there, and tells the state of the switch,
/// then the info is well formed, and every reading `status` of it has the
/// light `color_type` with its values, and has its lamp type ("color" for
/// colored light, "white" for white light).
pub proof fn lemma_light_round_trip(
    color_type: DevReqBulbColorType,
    info: JsonModel,
    status: DevInfoDataBulb,
)
    requires
        DevInfo::json_valid(info),
        info.str_member("switch"@) is Some,
        info.member("ltype"@) == bulb_json(color_type).member("ltype"@),
        info.member("br"@) == bulb_json(color_type).member("br"@),
        color_type is Color ==> {
            &&& info.member("r"@) == bulb_json(color_type).member("r"@)
            &&& info.member("g"@) == bulb_json(color_type).member("g"@)
            &&& info.member("b"@) == bulb_json(color_type).member("b"@)
        },
        color_type is White ==> info.member("ct"@) == bulb_json(color_type).member("ct"@),
        status.json_matches(device_part(info)),
    ensures
        DevInfoDataBulb::json_valid(device_part(info)),
        status.color_type == color_type,
        status.ltype@ == color_type.tag(),
        Some(status.switch@) == info.str_member("switch"@),
{
    lemma_bulb_keys();
    lemma_bulb_json_members(color_type);
    lemma_device_part_keeps(info, "switch"@);
    lemma_device_part_keeps(info, "ltype"@);
    lemma_device_part_keeps(info, "br"@);
    lemma_device_part_keeps(info, "r"@);
    lemma_device_part_keeps(info, "g"@);
    lemma_device_part_keeps(info, "b"@);
    lemma_device_part_keeps(info, "ct"@);
}

/// Colored light that was set is read back as it was set, with the lamp
/// type "color": the law of [`lemma_light_round_trip`] for `color`.
pub proof fn lemma_color_round_trip(
    br: u8,
    r: u8,
    g: u8,
    b: u8,
    info: JsonModel,
    status: DevInfoDataBulb,
)
    requires
        DevInfo::json_valid(info),
        info.str_member("switch"@) is Some,
        info.member("ltype"@) == Some(JsonModel::Str("color"@)),
        info.member("br"@) == Some(JsonModel::Int(br as int)),
        info.member("r"@) == Some(JsonModel::Int(r as int)),
        info.member("g"@) == Some(JsonModel::Int(g as int)),
        info.member("b"@) == Some(JsonModel::Int(b as int)),
        status.json_matches(device_part(info)),
    ensures
        DevInfoDataBulb::json_valid(device_part(info)),
        status.color_type == DevReqBulbColorType::Color(DevReqBulbColorTypeRGB { br, r, g, b }),
        status.ltype@ == "color"@,
{
    let color_type = DevReqBulbColorType::Color(DevReqBulbColorTypeRGB { br, r, g, b });
    lemma_bulb_json_members(color_type);
    lemma_light_round_trip(color_type, info, status);
}

/// White light that was set is read back as it was set, with the lamp type
/// "white": the law of [`lemma_light_round_trip`] for `white`.
pub proof fn lemma_white_round_trip(br: u8, ct: u8, info: JsonModel, status: DevInfoDataBulb)
    requires
        DevInfo::json_valid(info),
        info.str_member("switch"@) is Some,
        info.member("ltype"@) == Some(JsonModel::Str("white"@)),
        info.member("br"@) == Some(JsonModel::Int(br as int)),
        info.member("ct"@) == Some(JsonModel::Int(ct as int)),
        status.json_matches(device_part(info)),
    ensures
        DevInfoDataBulb::json_valid(device_part(info)),
        status.color_type == DevReqBulbColorType::White(DevReqBulbColorTypeCW { br, ct }),
        status.ltype@ == "white"@,
{
    let color_type = DevReqBulbColorType::White(DevReqBulbColorTypeCW { br, ct });
    lemma_bulb_json_members(color_type);
    lemma_light_round_trip(color_type, info, status);
}

/// Dimming a bulb always sets white light of the color temperature 100 and of
/// the brightness given, and no color, whatever light the bulb had.
pub proof fn lemma_dim_sets_white(br: u8)
    ensures
        SonoffBulb::dim_json(br).str_member("ltype"@) == Some("white"@),
        SonoffBulb::dim_json(br).member("ct"@) == Some(JsonModel::Int(100)),
        SonoffBulb::dim_json(br).member("br"@) == Some(JsonModel::Int(br as int)),
        SonoffBulb::dim_json(br).member("r"@) is None,
        SonoffBulb::dim_json(br).member("g"@) is None,
        SonoffBulb::dim_json(br).member("b"@) is None,
{
    lemma_bulb_json_members(DevReqBulbColorType::White(DevReqBulbColorTypeCW { br, ct: 100 }));
}

impl SonoffDimmable for SonoffBulb {
    closed spec fn dim_device(&self) -> SonoffDevice {
        self.dev
    }

    /// Dimming a bulb sets white light of the color temperature 100: the
    /// light that the bulb had is not kept.
    open spec fn dim_json(br: u8) -> JsonModel {
        bulb_json(DevReqBulbColorType::White(DevReqBulbColorTypeCW { br, ct: 100 }))
    }

    fn dim(&self, br: u8, replies: &[HttpReply]) -> (r: Result<Step<DevRes>, SonoffError>)
        ensures
            replies@.len() == 0 ==> sends(
                r,
                self.device(),
                "/dimmable"@,
                bulb_json(DevReqBulbColorType::White(DevReqBulbColorTypeCW { br, ct: 100 })),
            ),
    {
        self.white(br, 100, replies)
    }
}

} // verus!
