//! The request and reply envelopes, and the handle of one device.

use vstd::prelude::*;
use vstd::string::StringExecFns;
use crate::codec::{FromJson, ToJson, read_uint};
use crate::error::SonoffError;
use crate::json::JsonModel;
use crate::value::{
    json_parse, json_text, value_from_str, value_get, value_insert, value_model, value_object,
    value_str, value_to_string,
};

verus! {

/// An HTTP POST that the caller has to send.
#[derive(Debug, Clone, PartialEq, Eq)]
pub struct HttpRequest {
    /// Where to send it.
    pub url: String,
    /// The JSON text to send.
    pub body: String,
}

/// How the exchange for an [`HttpRequest`] ended.
#[derive(Debug, Clone, PartialEq, Eq)]
pub enum HttpReply {
    /// No reply came: no connection, or the transfer broke.
    Failed,
    /// The server answered with this status code and this body.
    Answer { status: u16, body: String },
}

/// What an operation asks of its caller, given the replies so far.
///
/// Every operation is a conversation of one or two exchanges. It is called
/// with the replies received up to now, the oldest first: with none to learn
/// the first request, then again with each reply added, until it is `Done`.
#[derive(Debug, Clone, PartialEq)]
pub enum Step<T> {
    /// Send this request, and call again with its reply added.
    Send(HttpRequest),
    /// The operation has ended with this result.
    Done(T),
}

/// The envelope of every request.
#[derive(Debug, Clone, PartialEq)]
pub struct DevReq {
    pub device_id: String,
    pub data: serde_json::Value,
}

/// The envelope of every reply.
#[derive(Debug, Clone, PartialEq)]
pub struct DevRes {
    pub seq: u32,
    /// The device's own error code; 0 is success. It is handed on as it came.
    pub error: u32,
    pub data: Option<serde_json::Value>,
}

/// One device: its identifier and the base URL of its control endpoint.
#[derive(Debug, PartialEq, Eq)]
pub struct SonoffDevice {
    pub id: String,
    pub address: String,
}

/// The request envelope around `data`, for the device `id`.
pub open spec fn envelope(id: Seq<char>, data: JsonModel) -> JsonModel {
    JsonModel::empty_object().with("deviceId"@, JsonModel::Str(id)).with("data"@, data)
}

/// The URL of the endpoint `path` of the device at `address`.
pub open spec fn endpoint(address: Seq<char>, path: Seq<char>) -> Seq<char> {
    address + "/zeroconf"@ + path
}

/// Whether `r` asks to POST `data` to `path` of the device `id` at `address`:
/// the request with that URL and the text of the envelope, or
/// `SerializationError` where the envelope has no text.
pub open spec fn sends_to<T>(
    r: Result<Step<T>, SonoffError>,
    address: Seq<char>,
    id: Seq<char>,
    path: Seq<char>,
    data: JsonModel,
) -> bool {
    match r {
        Ok(Step::Send(request)) => {
            &&& request.url@ == endpoint(address, path)
            &&& json_text(envelope(id, data)) == Some(request.body@)
        },
        Ok(Step::Done(_)) => false,
        Err(e) => {
            &&& e == SonoffError::SerializationError
            &&& json_text(envelope(id, data)) is None
        },
    }
}

/// Whether `r` asks to POST `data` to `path` of `dev`.
pub open spec fn sends<T>(
    r: Result<Step<T>, SonoffError>,
    dev: SonoffDevice,
    path: Seq<char>,
    data: JsonModel,
) -> bool {
    sends_to(r, dev.address@, dev.id@, path, data)
}

/// Whether an HTTP status code reports success.
pub open spec fn status_ok(status: u16) -> bool {
    200 <= status <= 299
}

/// The envelope that a reply carries, or why it carries none: a lost
/// exchange and a status outside 200..=299 are a `TransportError`, whatever
/// the body holds; a body that is no JSON, or no envelope, is a
/// `SerializationError`.
pub open spec fn reply_envelope(reply: HttpReply) -> Result<JsonModel, SonoffError> {
    match reply {
        HttpReply::Failed => Err(SonoffError::TransportError),
        HttpReply::Answer { status, body } => if !status_ok(status) {
            Err(SonoffError::TransportError)
        } else {
            match json_parse(body@) {
                Some(j) if DevRes::json_valid(j) => Ok(j),
                _ => Err(SonoffError::SerializationError),
            }
        },
    }
}

/// The `data` of a reply, or why there is none to read: beyond the failures
/// of [`reply_envelope`], an envelope without `data` (or with `null` there)
/// is `EmptyResponseData`.
pub open spec fn reply_data(reply: HttpReply) -> Result<JsonModel, SonoffError> {
    match reply_envelope(reply) {
        Ok(j) => match j.opt_member("data"@) {
            Some(data) => Ok(data),
            None => Err(SonoffError::EmptyResponseData),
        },
        Err(e) => Err(e),
    }
}

/// Whether `r` is what reading `data` as a `T` gives: the error that `data`
/// is, `SerializationError` where the document has not the shape of a `T`,
/// and else a value that holds what the document says.
pub open spec fn is_decoded<T: FromJson>(
    r: Result<T, SonoffError>,
    data: Result<JsonModel, SonoffError>,
) -> bool {
    match data {
        Ok(j) => match r {
            Ok(x) => T::json_valid(j) && x.json_matches(j),
            Err(e) => !T::json_valid(j) && e == SonoffError::SerializationError,
        },
        Err(e) => r == Err::<T, SonoffError>(e),
    }
}

/// Whether `r` ends an operation with `data` read as a `T`.
pub open spec fn finishes<T: FromJson>(
    r: Result<Step<T>, SonoffError>,
    data: Result<JsonModel, SonoffError>,
) -> bool {
    match r {
        Ok(Step::Send(_)) => false,
        Ok(Step::Done(x)) => is_decoded(Ok(x), data),
        Err(e) => is_decoded(Err::<T, SonoffError>(e), data),
    }
}

/// The envelope of a request holds the identifier of the device and the
/// `data`, and nothing else.
pub proof fn lemma_envelope_members(id: Seq<char>, data: JsonModel)
    ensures
        envelope(id, data).member("deviceId"@) == Some(JsonModel::Str(id)),
        envelope(id, data).member("data"@) == Some(data),
        forall|key: Seq<char>|
            key != "deviceId"@ && key != "data"@ ==> (#[trigger] envelope(id, data).member(key))
                is None,
{
    reveal_strlit("deviceId");
    reveal_strlit("data");
    assert("deviceId"@.len() == 8 && "data"@.len() == 4);
}

/// A reply with a status outside 200..=299 is a `TransportError`, whatever
/// its body holds: the body of such a reply is not read, and every operation
/// that ends on it fails with that error.
pub proof fn lemma_bad_status_is_transport_error<T: FromJson>(
    status: u16,
    body: String,
    r: Result<Step<T>, SonoffError>,
)
    requires
        !status_ok(status),
        finishes(r, reply_envelope(HttpReply::Answer { status, body })) || finishes(
            r,
            reply_data(HttpReply::Answer { status, body }),
        ),
    ensures
        reply_envelope(HttpReply::Answer { status, body }) == Err::<JsonModel, SonoffError>(
            SonoffError::TransportError,
        ),
        reply_data(HttpReply::Answer { status, body }) == Err::<JsonModel, SonoffError>(
            SonoffError::TransportError,
        ),
        r == Err::<Step<T>, SonoffError>(SonoffError::TransportError),
{
}

/// A reply of good status whose envelope has no `data`, or `null` there: an
/// operation that reads a typed result fails with `EmptyResponseData`,
/// whatever the type; one that reads the envelope succeeds, with no `data` in
/// its result.
pub proof fn lemma_missing_data<T: FromJson>(
    status: u16,
    body: String,
    j: JsonModel,
    raw: Result<Step<DevRes>, SonoffError>,
    typed: Result<Step<T>, SonoffError>,
)
    requires
        status_ok(status),
        json_parse(body@) == Some(j),
        DevRes::json_valid(j),
        !j.has("data"@),
        finishes(raw, reply_envelope(HttpReply::Answer { status, body })),
        finishes(typed, reply_data(HttpReply::Answer { status, body })),
    ensures
        typed == Err::<Step<T>, SonoffError>(SonoffError::EmptyResponseData),
        raw matches Ok(Step::Done(res)) && res.data is None && res.json_matches(j),
{
}

impl Clone for SonoffDevice {
    fn clone(&self) -> (dev: SonoffDevice)
        ensures
            dev == *self,
    {
        SonoffDevice { id: self.id.clone(), address: self.address.clone() }
    }
}

impl ToJson for DevReq {
    open spec fn json(&self) -> JsonModel {
        envelope(self.device_id@, value_model(self.data))
    }

    fn to_json(&self) -> (v: serde_json::Value) {
        let mut v = value_object();
        value_insert(&mut v, "deviceId", value_str(self.device_id.as_str()));
        value_insert(&mut v, "data", self.data.clone());
        assert(self.json() == envelope(self.device_id@, value_model(self.data)));
        v
    }
}

impl FromJson for DevRes {
    open spec fn json_valid(j: JsonModel) -> bool {
        &&& j.int_member("seq"@, 0, u32::MAX as int) is Some
        &&& j.int_member("error"@, 0, u32::MAX as int) is Some
    }

    open spec fn json_matches(&self, j: JsonModel) -> bool {
        &&& j.int_member("seq"@, 0, u32::MAX as int) == Some(self.seq as int)
        &&& j.int_member("error"@, 0, u32::MAX as int) == Some(self.error as int)
        &&& match self.data {
            Some(data) => j.opt_member("data"@) == Some(value_model(data)),
            None => j.opt_member("data"@) is None,
        }
    }

    fn from_json(v: &serde_json::Value) -> (r: Result<Self, SonoffError>) {
        let seq = read_uint(v, "seq", 0xffff_ffff)?;
        let error = read_uint(v, "error", 0xffff_ffff)?;
        let data = match value_get(v, "data") {
            Some(member) => if member.is_null() {
                None
            } else {
                Some(member.clone())
            },
            None => None,
        };
        Ok(DevRes { seq: seq as u32, error: error as u32, data })
    }
}

impl DevRes {
    /// Reads an envelope out of its text.
    pub fn decode(text: &str) -> (r: Result<DevRes, SonoffError>)
        ensures
            match json_parse(text@) {
                Some(j) => is_decoded(r, Ok(j)),
                None => r == Err::<DevRes, SonoffError>(SonoffError::SerializationError),
            },
    {
        match value_from_str(text) {
            Ok(v) => DevRes::from_json(&v),
            Err(_) => Err(SonoffError::SerializationError),
        }
    }

    /// Reads the envelope of a reply. The device's `error` code is not looked
    /// at, and `data` may be missing.
    pub fn from_reply(reply: &HttpReply) -> (r: Result<DevRes, SonoffError>)
        ensures
            is_decoded(r, reply_envelope(*reply)),
    {
        match reply {
            HttpReply::Failed => Err(SonoffError::TransportError),
            HttpReply::Answer { status, body } => {
                if *status < 200 || *status > 299 {
                    return Err(SonoffError::TransportError);
                }
                DevRes::decode(body.as_str())
            },
        }
    }

    /// The `data` of the envelope, read as a `T`; `EmptyResponseData` where
    /// there is none.
    pub fn typed<T: FromJson>(self) -> (r: Result<T, SonoffError>)
        ensures
            match self.data {
                Some(data) => is_decoded(r, Ok(value_model(data))),
                None => r == Err::<T, SonoffError>(SonoffError::EmptyResponseData),
            },
    {
        match self.data {
            Some(data) => T::from_json(&data),
            None => Err(SonoffError::EmptyResponseData),
        }
    }
}

impl SonoffDevice {
    /// The device at `address`, with an empty identifier.
    pub fn new(address: &str) -> (dev: SonoffDevice)
        ensures
            dev.id@ == Seq::<char>::empty(),
            dev.address@ == address@,
    {
        SonoffDevice { id: String::new(), address: address.to_owned() }
    }

    /// The URL of the endpoint `url_path` of this device.
    pub fn url(&self, url_path: &str) -> (url: String)
        ensures
            url@ == endpoint(self.address@, url_path@),
    {
        let mut url = self.address.clone();
        url.append("/zeroconf");
        url.append(url_path);
        url
    }

    /// The POST of `req_type` to `url_path`, in the envelope of this device.
    pub fn post<Treq: ToJson, T>(&self, url_path: &str, req_type: &Treq) -> (r: Result<
        Step<T>,
        SonoffError,
    >)
        ensures
            sends(r, *self, url_path@, req_type.json()),
    {
        let req_obj = DevReq { device_id: self.id.clone(), data: req_type.to_json() };
        match value_to_string(&req_obj.to_json()) {
            Ok(body) => Ok(Step::Send(HttpRequest { url: self.url(url_path), body })),
            Err(_) => Err(SonoffError::SerializationError),
        }
    }

    /// One exchange that ends with the reply's envelope: POSTs `req_type` to
    /// `url_path`, then reads the first reply as an envelope.
    pub fn __request<Treq: ToJson>(
        &self,
        url_path: &str,
        req_type: &Treq,
        replies: &[HttpReply],
    ) -> (r: Result<Step<DevRes>, SonoffError>)
        ensures
            replies@.len() == 0 ==> sends(r, *self, url_path@, req_type.json()),
            replies@.len() > 0 ==> finishes(r, reply_envelope(replies@[0])),
    {
        if replies.len() == 0 {
            self.post(url_path, req_type)
        } else {
            let dev_res = DevRes::from_reply(&replies[0])?;
            Ok(Step::Done(dev_res))
        }
    }

    /// One exchange that ends with a typed result: POSTs `req_type` to
    /// `url_path`, then reads the `data` of the first reply as a `Tres`.
    pub fn request<Treq: ToJson, Tres: FromJson>(
        &self,
        url_path: &str,
        req_type: &Treq,
        replies: &[HttpReply],
    ) -> (r: Result<Step<Tres>, SonoffError>)
        ensures
            replies@.len() == 0 ==> sends(r, *self, url_path@, req_type.json()),
            replies@.len() > 0 ==> finishes(r, reply_data(replies@[0])),
    {
        if replies.len() == 0 {
            self.post(url_path, req_type)
        } else {
            let dev_res = DevRes::from_reply(&replies[0])?;
            let data = dev_res.typed::<Tres>()?;
            Ok(Step::Done(data))
        }
    }
}

} // verus!
