use serde_json::Value;
use sonoff_lib::codec::{FromJson, ToJson};
use sonoff_lib::device::{DevRes, HttpReply, HttpRequest, SonoffDevice, Step};
use sonoff_lib::error::SonoffError;
use sonoff_lib::switch::{SonoffSwitch, SonoffSwitchInfo, SonoffSwitchPulseReq};
use sonoff_lib::switchable::{SonoffSwitchReq, SonoffSwitchStartupReq, SonoffSwitchable};

fn json(text: &str) -> Value {
    serde_json::from_str(text).unwrap()
}

fn answer(body: &str) -> HttpReply {
    HttpReply::Answer { status: 200, body: body.to_string() }
}

fn sent<T: std::fmt::Debug>(step: Result<Step<T>, SonoffError>) -> HttpRequest {
    match step {
        Ok(Step::Send(request)) => request,
        other => panic!("expected a request, got {:?}", other),
    }
}

/// A device that records what it is sent and answers from a list.
struct Stub {
    answers: Vec<HttpReply>,
    received: Vec<HttpRequest>,
}

fn stub(answers: Vec<HttpReply>) -> Stub {
    Stub { answers, received: Vec::new() }
}

fn exchange(stub: &mut Stub, request: HttpRequest) -> HttpReply {
    let reply = stub.answers[stub.received.len()].clone();
    stub.received.push(request);
    reply
}

fn switch_at(address: &str) -> SonoffSwitch {
    let dev = SonoffDevice::new(address);
    SonoffSwitch::from(&dev)
}

#[test]
fn test_switch_on() {
    let dev = SonoffDevice::new("http://127.0.0.1:8081");
    let switch = SonoffSwitch::from(&dev);
    let mut device = stub(vec![answer(r#"{"seq":1,"error":0}"#)]);
    let mut replies = Vec::new();
    let res = loop {
        match switch.on(&replies).unwrap() {
            Step::Send(request) => replies.push(exchange(&mut device, request)),
            Step::Done(res) => break res,
        }
    };
    assert_eq!(res, DevRes { seq: 1, error: 0, data: None });
    assert_eq!(device.received.len(), 1);
    assert_eq!(device.received[0].url, "http://127.0.0.1:8081/zeroconf/switch");
    assert_eq!(json(&device.received[0].body), json(r#"{"deviceId":"","data":{"switch":"on"}}"#));
}

#[test]
fn from_keeps_the_device() {
    let dev = SonoffDevice { id: "1000abcdef".to_string(), address: "http://h".to_string() };
    let switch = SonoffSwitch::from(&dev);
    assert_eq!(*switch.get_dev(), dev);
}

#[test]
fn off_sends_off() {
    let request = sent(switch_at("http://h").off(&[]));
    assert_eq!(request.url, "http://h/zeroconf/switch");
    assert_eq!(request.body, r#"{"data":{"switch":"off"},"deviceId":""}"#);
}

#[test]
fn set_switch_sends_the_state_as_given() {
    let request = sent(switch_at("http://h").set_switch("blink", &[]));
    assert_eq!(json(&request.body), json(r#"{"deviceId":"","data":{"switch":"blink"}}"#));
}

#[test]
fn set_startup_sends_the_state() {
    let switch = switch_at("http://h");
    for state in ["on", "off", "stay"] {
        let request = sent(switch.set_startup(state.to_string(), &[]));
        assert_eq!(request.url, "http://h/zeroconf/startup");
        let expected = format!(r#"{{"deviceId":"","data":{{"startup":"{}"}}}}"#, state);
        assert_eq!(json(&request.body), json(&expected));
    }
}

#[test]
fn pulse_of_zero_turns_the_pulse_off() {
    let request = sent(switch_at("http://h").pulse(0, &[]));
    assert_eq!(request.url, "http://h/zeroconf/pulse");
    assert_eq!(
        json(&request.body),
        json(r#"{"deviceId":"","data":{"pulse":"off","pulseWidth":0}}"#)
    );
}

#[test]
fn pulse_of_any_other_width_turns_the_pulse_on() {
    for width in [1u32, 500, 1500, u32::MAX] {
        let request = sent(switch_at("http://h").pulse(width, &[]));
        let expected = format!(r#"{{"deviceId":"","data":{{"pulse":"on","pulseWidth":{}}}}}"#, width);
        assert_eq!(json(&request.body), json(&expected));
    }
}

#[test]
fn pulse_ends_on_the_reply() {
    let replies = vec![answer(r#"{"seq":9,"error":0}"#)];
    assert_eq!(
        switch_at("http://h").pulse(500, &replies),
        Ok(Step::Done(DevRes { seq: 9, error: 0, data: None }))
    );
}

#[test]
fn get_switch_asks_for_the_info() {
    let request = sent(switch_at("http://h").get_switch(&[]));
    assert_eq!(request.url, "http://h/zeroconf/info");
    assert_eq!(json(&request.body), json(r#"{"deviceId":"","data":{}}"#));
}

#[test]
fn get_switch_reads_the_switch() {
    let switch = switch_at("http://h");
    let on = vec![answer(r#"{"seq":1,"error":0,"data":{"switch":"on","deviceid":"d"}}"#)];
    assert_eq!(switch.get_switch(&on), Ok(Step::Done(true)));
    let off = vec![answer(r#"{"seq":1,"error":0,"data":{"switch":"off"}}"#)];
    assert_eq!(switch.get_switch(&off), Ok(Step::Done(false)));
    let other = vec![answer(r#"{"seq":1,"error":0,"data":{"switch":"ON"}}"#)];
    assert_eq!(switch.get_switch(&other), Ok(Step::Done(false)));
}

#[test]
fn get_switch_fails_where_the_reply_does_not_tell() {
    let switch = switch_at("http://h");
    let no_switch = vec![answer(r#"{"seq":1,"error":0,"data":{"deviceid":"d"}}"#)];
    assert_eq!(switch.get_switch(&no_switch), Err(SonoffError::SerializationError));
    let not_text = vec![answer(r#"{"seq":1,"error":0,"data":{"switch":true}}"#)];
    assert_eq!(switch.get_switch(&not_text), Err(SonoffError::SerializationError));
    let no_data = vec![answer(r#"{"seq":1,"error":0}"#)];
    assert_eq!(switch.get_switch(&no_data), Err(SonoffError::EmptyResponseData));
    let bad_status = vec![HttpReply::Answer { status: 500, body: String::new() }];
    assert_eq!(switch.get_switch(&bad_status), Err(SonoffError::TransportError));
}

fn toggle_against(info: &str) -> (Result<DevRes, SonoffError>, Vec<HttpRequest>) {
    let switch = switch_at("http://127.0.0.1:8081");
    let mut device = stub(vec![answer(info), answer(r#"{"seq":2,"error":0}"#)]);
    let mut replies = Vec::new();
    let res = loop {
        match switch.toggle(&replies) {
            Ok(Step::Send(request)) => replies.push(exchange(&mut device, request)),
            Ok(Step::Done(res)) => break Ok(res),
            Err(e) => break Err(e),
        }
    };
    (res, device.received)
}

#[test]
fn toggle_switches_on_a_device_that_is_off() {
    let (res, received) = toggle_against(r#"{"seq":1,"error":0,"data":{"switch":"off"}}"#);
    assert_eq!(res, Ok(DevRes { seq: 2, error: 0, data: None }));
    assert_eq!(received.len(), 2);
    assert_eq!(received[0].url, "http://127.0.0.1:8081/zeroconf/info");
    assert_eq!(received[1].url, "http://127.0.0.1:8081/zeroconf/switch");
    let sent: Value = json(&received[1].body);
    assert_eq!(sent["data"], json(r#"{"switch":"on"}"#));
    let on = switch_at("http://127.0.0.1:8081").on(&[]);
    assert_eq!(on, Ok(Step::Send(received[1].clone())));
    let switch_calls = received.iter().filter(|r| r.url.ends_with("/zeroconf/switch")).count();
    assert_eq!(switch_calls, 1);
}

#[test]
fn toggle_switches_off_a_device_that_is_on() {
    let (res, received) = toggle_against(r#"{"seq":1,"error":0,"data":{"switch":"on"}}"#);
    assert_eq!(res, Ok(DevRes { seq: 2, error: 0, data: None }));
    assert_eq!(received.len(), 2);
    let sent: Value = json(&received[1].body);
    assert_eq!(sent["data"], json(r#"{"switch":"off"}"#));
    let off = switch_at("http://127.0.0.1:8081").off(&[]);
    assert_eq!(off, Ok(Step::Send(received[1].clone())));
    let switch_calls = received.iter().filter(|r| r.url.ends_with("/zeroconf/switch")).count();
    assert_eq!(switch_calls, 1);
}

#[test]
fn toggle_sends_nothing_more_where_the_state_is_not_told() {
    let (res, received) = toggle_against(r#"{"seq":1,"error":0,"data":{}}"#);
    assert_eq!(res, Err(SonoffError::SerializationError));
    assert_eq!(received.len(), 1);
    let (res, received) = toggle_against(r#"{"seq":1,"error":0}"#);
    assert_eq!(res, Err(SonoffError::EmptyResponseData));
    assert_eq!(received.len(), 1);
}

#[test]
fn toggle_fails_on_a_bad_second_reply() {
    let switch = switch_at("http://h");
    let replies = vec![
        answer(r#"{"seq":1,"error":0,"data":{"switch":"off"}}"#),
        HttpReply::Answer { status: 503, body: String::new() },
    ];
    assert_eq!(switch.toggle(&replies), Err(SonoffError::TransportError));
    let replies = vec![answer(r#"{"seq":1,"error":0,"data":{"switch":"off"}}"#), HttpReply::Failed];
    assert_eq!(switch.toggle(&replies), Err(SonoffError::TransportError));
}

#[test]
fn toggle_reads_the_state_anew_each_time() {
    let switch = switch_at("http://h");
    let first = vec![answer(r#"{"seq":1,"error":0,"data":{"switch":"off"}}"#)];
    let second = vec![answer(r#"{"seq":3,"error":0,"data":{"switch":"off"}}"#)];
    let a = sent(switch.toggle(&first));
    let b = sent(switch.toggle(&second));
    assert_eq!(a, b);
    assert_eq!(json(&a.body)["data"], json(r#"{"switch":"on"}"#));
}

#[test]
fn switch_info_is_read_member_by_member() {
    let info = SonoffSwitchInfo::from_json(&json(
        r#"{"switch":"on","startup":"stay","pulse":"off","pulseWidth":500,"more":1}"#,
    ))
    .unwrap();
    assert_eq!(
        info,
        SonoffSwitchInfo {
            switch: "on".to_string(),
            startup: "stay".to_string(),
            pulse: "off".to_string(),
            pulse_width: 500,
        }
    );
    assert_eq!(
        SonoffSwitchInfo::from_json(&json(r#"{"switch":"on","startup":"stay","pulse":"off"}"#)),
        Err(SonoffError::SerializationError)
    );
    assert_eq!(
        SonoffSwitchInfo::from_json(&json(
            r#"{"switch":"on","startup":"stay","pulse":"off","pulse_width":500}"#
        )),
        Err(SonoffError::SerializationError)
    );
}

#[test]
fn switch_documents() {
    let req = SonoffSwitchReq { switch: "on".to_string() };
    assert_eq!(req.to_json(), json(r#"{"switch":"on"}"#));
    assert_eq!(SonoffSwitchReq::from_json(&json(r#"{"switch":"on"}"#)), Ok(req));
    let req = SonoffSwitchStartupReq { startup: "stay".to_string() };
    assert_eq!(req.to_json(), json(r#"{"startup":"stay"}"#));
    let req = SonoffSwitchPulseReq { pulse: "on".to_string(), pulse_width: 1000 };
    assert_eq!(req.to_json(), json(r#"{"pulse":"on","pulseWidth":1000}"#));
}
