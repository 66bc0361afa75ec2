use serde_json::Value;
use sonoff_lib::device::{DevReq, DevRes, HttpReply, HttpRequest, SonoffDevice, Step};
use sonoff_lib::codec::ToJson;
use sonoff_lib::device_common::{DevInfo, DevInfoReq, WifiSetupReq};
use sonoff_lib::error::SonoffError;

fn json(text: &str) -> Value {
    serde_json::from_str(text).unwrap()
}

fn answer(status: u16, body: &str) -> HttpReply {
    HttpReply::Answer { status, body: body.to_string() }
}

fn sent<T: std::fmt::Debug>(step: Result<Step<T>, SonoffError>) -> HttpRequest {
    match step {
        Ok(Step::Send(request)) => request,
        other => panic!("expected a request, got {:?}", other),
    }
}

fn done<T: std::fmt::Debug>(step: Result<Step<T>, SonoffError>) -> T {
    match step {
        Ok(Step::Done(value)) => value,
        other => panic!("expected a result, got {:?}", other),
    }
}

#[test]
fn new_device_has_empty_id() {
    let dev = SonoffDevice::new("http://127.0.0.1:8081");
    assert_eq!(dev.id, "");
    assert_eq!(dev.address, "http://127.0.0.1:8081");
}

#[test]
fn clone_keeps_both_fields() {
    let dev = SonoffDevice { id: "1000abcdef".to_string(), address: "http://10.0.0.7:8081".to_string() };
    assert_eq!(dev.clone(), dev);
}

#[test]
fn url_appends_zeroconf_and_path() {
    let dev = SonoffDevice::new("http://10.0.0.7:8081");
    assert_eq!(dev.url("/switch"), "http://10.0.0.7:8081/zeroconf/switch");
    assert_eq!(dev.url(""), "http://10.0.0.7:8081/zeroconf");
}

#[test]
fn envelope_holds_id_and_data() {
    let req = DevReq { device_id: "1000abcdef".to_string(), data: json(r#"{"switch":"on"}"#) };
    assert_eq!(req.to_json(), json(r#"{"deviceId":"1000abcdef","data":{"switch":"on"}}"#));
}

#[test]
fn request_text_is_compact_with_sorted_keys() {
    let dev = SonoffDevice::new("http://127.0.0.1:8081");
    let request = sent(dev.__request("/info", &DevInfoReq {}, &[]));
    assert_eq!(request.url, "http://127.0.0.1:8081/zeroconf/info");
    assert_eq!(request.body, r#"{"data":{},"deviceId":""}"#);
}

#[test]
fn request_carries_the_device_id() {
    let dev = SonoffDevice { id: "1000abcdef".to_string(), address: "http://h".to_string() };
    let wifi = WifiSetupReq { ssid: "home".to_string(), password: "a\"b".to_string() };
    let request = sent(dev.__request("/wifi", &wifi, &[]));
    assert_eq!(request.url, "http://h/zeroconf/wifi");
    assert_eq!(
        json(&request.body),
        json(r#"{"deviceId":"1000abcdef","data":{"ssid":"home","password":"a\"b"}}"#)
    );
}

#[test]
fn typed_request_sends_the_same_post() {
    let dev = SonoffDevice::new("http://h");
    let raw = sent(dev.__request("/info", &DevInfoReq {}, &[]));
    let typed = sent(dev.request::<DevInfoReq, DevInfo>("/info", &DevInfoReq {}, &[]));
    assert_eq!(raw, typed);
}

#[test]
fn raw_request_ends_on_the_first_reply() {
    let dev = SonoffDevice::new("http://h");
    let replies = vec![answer(200, r#"{"seq":7,"error":0,"data":{"a":1}}"#)];
    let res = done(dev.__request("/info", &DevInfoReq {}, &replies));
    assert_eq!(res, DevRes { seq: 7, error: 0, data: Some(json(r#"{"a":1}"#)) });
}

#[test]
fn decode_reads_an_envelope() {
    let res = DevRes::decode(r#" {"error": 400, "seq": 2, "more": true} "#).unwrap();
    assert_eq!(res, DevRes { seq: 2, error: 400, data: None });
}

#[test]
fn device_error_code_is_not_a_failure() {
    let res = DevRes::from_reply(&answer(200, r#"{"seq":1,"error":422,"data":{}}"#)).unwrap();
    assert_eq!(res.error, 422);
    assert_eq!(res.data, Some(json("{}")));
}

#[test]
fn decode_rejects_what_is_no_json() {
    assert_eq!(DevRes::decode("{\"seq\":1,"), Err(SonoffError::SerializationError));
    assert_eq!(DevRes::decode(""), Err(SonoffError::SerializationError));
    assert_eq!(DevRes::decode("{\"seq\":1,\"error\":0} x"), Err(SonoffError::SerializationError));
}

#[test]
fn decode_rejects_what_is_no_envelope() {
    assert_eq!(DevRes::decode(r#"{"seq":1}"#), Err(SonoffError::SerializationError));
    assert_eq!(DevRes::decode(r#"{"error":0}"#), Err(SonoffError::SerializationError));
    assert_eq!(DevRes::decode(r#"{"seq":"1","error":0}"#), Err(SonoffError::SerializationError));
    assert_eq!(DevRes::decode(r#"{"seq":-1,"error":0}"#), Err(SonoffError::SerializationError));
    assert_eq!(DevRes::decode(r#"{"seq":1.5,"error":0}"#), Err(SonoffError::SerializationError));
    assert_eq!(DevRes::decode(r#"{"seq":4294967296,"error":0}"#), Err(SonoffError::SerializationError));
    assert_eq!(DevRes::decode(r#"[1,0]"#), Err(SonoffError::SerializationError));
    assert_eq!(DevRes::decode("null"), Err(SonoffError::SerializationError));
}

#[test]
fn decode_takes_the_greatest_u32() {
    let res = DevRes::decode(r#"{"seq":4294967295,"error":0}"#).unwrap();
    assert_eq!(res.seq, u32::MAX);
}

#[test]
fn status_500_is_a_transport_error_whatever_the_body() {
    let good_body = r#"{"seq":1,"error":0,"data":{"deviceid":"x"}}"#;
    for body in [good_body, "not json at all", ""] {
        for status in [500u16, 404, 301, 199, 300, 0, 65535] {
            let reply = answer(status, body);
            assert_eq!(DevRes::from_reply(&reply), Err(SonoffError::TransportError));
            let dev = SonoffDevice::new("http://h");
            let replies = vec![reply];
            assert_eq!(dev.get_info(&replies), Err(SonoffError::TransportError));
            assert_eq!(
                dev.__request("/info", &DevInfoReq {}, &replies),
                Err(SonoffError::TransportError)
            );
        }
    }
}

#[test]
fn every_2xx_status_is_read() {
    for status in [200u16, 201, 204, 299] {
        let reply = answer(status, r#"{"seq":1,"error":0}"#);
        assert_eq!(DevRes::from_reply(&reply), Ok(DevRes { seq: 1, error: 0, data: None }));
    }
}

#[test]
fn lost_exchange_is_a_transport_error() {
    assert_eq!(DevRes::from_reply(&HttpReply::Failed), Err(SonoffError::TransportError));
    let dev = SonoffDevice::new("http://h");
    assert_eq!(dev.get_info(&[HttpReply::Failed]), Err(SonoffError::TransportError));
}

#[test]
fn missing_data_fails_typed_and_passes_raw() {
    let dev = SonoffDevice::new("http://h");
    for body in [r#"{"seq":1,"error":0}"#, r#"{"seq":1,"error":0,"data":null}"#] {
        let replies = vec![answer(200, body)];
        assert_eq!(dev.get_info(&replies), Err(SonoffError::EmptyResponseData));
        assert_eq!(
            dev.request::<DevInfoReq, DevRes>("/info", &DevInfoReq {}, &replies),
            Err(SonoffError::EmptyResponseData)
        );
        let raw = done(dev.__request("/info", &DevInfoReq {}, &replies));
        assert_eq!(raw, DevRes { seq: 1, error: 0, data: None });
        assert_eq!(raw.typed::<DevInfo>(), Err(SonoffError::EmptyResponseData));
    }
}

#[test]
fn typed_reads_the_data() {
    let res = DevRes { seq: 1, error: 0, data: Some(json(r#"{"deviceid":"d1"}"#)) };
    let info: DevInfo = res.typed().unwrap();
    assert_eq!(info.deviceid, "d1");
}

#[test]
fn data_of_the_wrong_shape_is_a_serialization_error() {
    let dev = SonoffDevice::new("http://h");
    let replies = vec![answer(200, r#"{"seq":1,"error":0,"data":{"ssid":"home"}}"#)];
    assert_eq!(dev.get_info(&replies), Err(SonoffError::SerializationError));
    let replies = vec![answer(200, r#"{"seq":1,"error":0,"data":[1,2]}"#)];
    assert_eq!(dev.get_info(&replies), Err(SonoffError::SerializationError));
}

#[test]
fn later_replies_are_not_read() {
    let dev = SonoffDevice::new("http://h");
    let replies = vec![answer(200, r#"{"seq":1,"error":0}"#), answer(500, "")];
    assert_eq!(
        dev.__request("/info", &DevInfoReq {}, &replies),
        Ok(Step::Done(DevRes { seq: 1, error: 0, data: None }))
    );
}

#[test]
fn error_messages() {
    assert_eq!(SonoffError::TransportError.message(), "HTTP request failed");
    assert_eq!(SonoffError::SerializationError.message(), "Malformed JSON");
    assert_eq!(SonoffError::EmptyResponseData.message(), "Bad response from device");
    assert_eq!(SonoffError::InvalidCommand.message(), "Invalid command");
}
