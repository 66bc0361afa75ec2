use serde_json::Value;
use sonoff_lib::codec::{FromJson, ToJson};
use sonoff_lib::device::{DevRes, HttpReply, HttpRequest, SonoffDevice, Step};
use sonoff_lib::dimmable::SonoffDimmable;
use sonoff_lib::dimmer::{DevInfoDataDimmer, DevReqDimmer, SonoffDimmer};
use sonoff_lib::error::SonoffError;
use sonoff_lib::switchable::SonoffSwitchable;

fn json(text: &str) -> Value {
    serde_json::from_str(text).unwrap()
}

fn answer(body: &str) -> HttpReply {
    HttpReply::Answer { status: 200, body: body.to_string() }
}

fn sent<T: std::fmt::Debug>(step: Result<Step<T>, SonoffError>) -> HttpRequest {
    match step {
        Ok(Step::Send(request)) => request,
        other => panic!("expected a request, got {:?}", other),
    }
}

fn dimmer_at(address: &str) -> SonoffDimmer {
    let dev = SonoffDevice::new(address);
    SonoffDimmer::from(&dev)
}

#[test]
fn test_dimmer_half() {
    let dev = SonoffDevice::new("http://127.0.0.1:8081");
    let dimmer = SonoffDimmer::from(&dev);
    let ack = vec![answer(r#"{"seq":1,"error":0}"#)];

    let on = sent(dimmer.on(&[]));
    assert_eq!(on.url, "http://127.0.0.1:8081/zeroconf/switch");
    assert_eq!(json(&on.body), json(r#"{"deviceId":"","data":{"switch":"on"}}"#));
    assert_eq!(dimmer.on(&ack), Ok(Step::Done(DevRes { seq: 1, error: 0, data: None })));

    let dim = sent(dimmer.dim(50, &[]));
    assert_eq!(dim.url, "http://127.0.0.1:8081/zeroconf/dimmable");
    assert_eq!(
        json(&dim.body),
        json(r#"{"deviceId":"","data":{"switch":"on","brightness":50,"mode":null,"brightmin":null,"brightmax":null}}"#)
    );
    assert_eq!(dimmer.dim(50, &ack), Ok(Step::Done(DevRes { seq: 1, error: 0, data: None })));
}

#[test]
fn dim_passes_any_brightness_on_and_switches_on() {
    for br in [0u8, 100, 101, 255] {
        let request = sent(dimmer_at("http://h").dim(br, &[]));
        let data = json(&request.body)["data"].clone();
        assert_eq!(data["brightness"], Value::from(br));
        assert_eq!(data["switch"], Value::from("on"));
    }
}

#[test]
fn dim_reads_the_envelope_of_the_reply() {
    let dimmer = dimmer_at("http://h");
    let replies = vec![answer(r#"{"seq":5,"error":0,"data":{"x":1}}"#)];
    assert_eq!(
        dimmer.dim(10, &replies),
        Ok(Step::Done(DevRes { seq: 5, error: 0, data: Some(json(r#"{"x":1}"#)) }))
    );
    let replies = vec![HttpReply::Answer { status: 400, body: String::new() }];
    assert_eq!(dimmer.dim(10, &replies), Err(SonoffError::TransportError));
}

#[test]
fn dimmer_request_document() {
    let req = DevReqDimmer {
        switch: "off".to_string(),
        brightness: 12,
        mode: Some(1),
        brightmin: Some(0),
        brightmax: None,
    };
    assert_eq!(
        req.to_json(),
        json(r#"{"switch":"off","brightness":12,"mode":1,"brightmin":0,"brightmax":null}"#)
    );
}

#[test]
fn get_info_reads_the_dimmer() {
    let dimmer = dimmer_at("http://h");
    let request = sent(dimmer.get_info(&[]));
    assert_eq!(request.url, "http://h/zeroconf/info");
    let replies = vec![answer(
        r#"{"seq":1,"error":0,"data":{"deviceid":"d","ssid":"home","switch":"on","startup":"off","brightness":50,"mode":0,"brightmin":10,"brightmax":255}}"#,
    )];
    assert_eq!(
        dimmer.get_info(&replies),
        Ok(Step::Done(DevInfoDataDimmer {
            switch: "on".to_string(),
            startup: "off".to_string(),
            brightness: 50,
            mode: 0,
            brightmin: 10,
            brightmax: 255,
        }))
    );
    assert_eq!(dimmer.get_switch(&replies), Ok(Step::Done(true)));
}

#[test]
fn info_rejects_what_is_no_dimmer() {
    for text in [
        r#"{"startup":"off","brightness":50,"mode":0,"brightmin":10,"brightmax":255}"#,
        r#"{"switch":"on","brightness":50,"mode":0,"brightmin":10,"brightmax":255}"#,
        r#"{"switch":"on","startup":"off","mode":0,"brightmin":10,"brightmax":255}"#,
        r#"{"switch":"on","startup":"off","brightness":50,"brightmin":10,"brightmax":255}"#,
        r#"{"switch":"on","startup":"off","brightness":50,"mode":0,"brightmax":255}"#,
        r#"{"switch":"on","startup":"off","brightness":50,"mode":0,"brightmin":10}"#,
        r#"{"switch":"on","startup":"off","brightness":50,"mode":0,"brightmin":10,"brightmax":256}"#,
        r#"{"switch":"on","startup":"off","brightness":null,"mode":0,"brightmin":10,"brightmax":255}"#,
    ] {
        assert_eq!(
            DevInfoDataDimmer::from_json(&json(text)),
            Err(SonoffError::SerializationError),
            "{}",
            text
        );
    }
}

#[test]
fn get_switch_of_a_dimmer_needs_the_whole_info() {
    let dimmer = dimmer_at("http://h");
    let replies = vec![answer(r#"{"seq":1,"error":0,"data":{"deviceid":"d","switch":"on"}}"#)];
    assert_eq!(dimmer.get_switch(&replies), Err(SonoffError::SerializationError));
    let replies = vec![answer(
        r#"{"seq":1,"error":0,"data":{"deviceid":"d","switch":"off","startup":"off","brightness":50,"mode":0,"brightmin":10,"brightmax":255}}"#,
    )];
    assert_eq!(dimmer.get_switch(&replies), Ok(Step::Done(false)));
}

#[test]
fn toggle_of_a_dimmer_that_is_on_sends_off() {
    let dimmer = dimmer_at("http://h");
    let replies = vec![answer(
        r#"{"seq":1,"error":0,"data":{"deviceid":"d","switch":"on","startup":"off","brightness":50,"mode":0,"brightmin":10,"brightmax":255}}"#,
    )];
    let request = sent(dimmer.toggle(&replies));
    assert_eq!(request.url, "http://h/zeroconf/switch");
    assert_eq!(json(&request.body)["data"], json(r#"{"switch":"off"}"#));
}
