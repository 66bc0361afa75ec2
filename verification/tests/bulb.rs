use serde_json::Value;
use sonoff_lib::bulb::{
    DevInfoDataBulb, DevReqBulb, DevReqBulbColorType, DevReqBulbColorTypeCW, DevReqBulbColorTypeRGB,
    SonoffBulb,
};
use sonoff_lib::codec::{FromJson, ToJson};
use sonoff_lib::device::{DevRes, HttpReply, HttpRequest, SonoffDevice, Step};
use sonoff_lib::dimmable::SonoffDimmable;
use sonoff_lib::error::SonoffError;
use sonoff_lib::switchable::SonoffSwitchable;

fn json(text: &str) -> Value {
    serde_json::from_str(text).unwrap()
}

fn answer(body: &str) -> HttpReply {
    HttpReply::Answer { status: 200, body: body.to_string() }
}

fn sent<T: std::fmt::Debug>(step: Result<Step<T>, SonoffError>) -> HttpRequest {
    match step {
        Ok(Step::Send(request)) => request,
        other => panic!("expected a request, got {:?}", other),
    }
}

fn bulb_at(address: &str) -> SonoffBulb {
    let dev = SonoffDevice::new(address);
    SonoffBulb::from(&dev)
}

/// A bulb that keeps what `/dimmable` and `/switch` set, and reports it on `/info`.
struct StubBulb {
    state: serde_json::Map<String, Value>,
    received: Vec<HttpRequest>,
}

fn stub_bulb(initial: &str) -> StubBulb {
    match json(initial) {
        Value::Object(state) => StubBulb { state, received: Vec::new() },
        _ => panic!("not an object"),
    }
}

fn exchange(stub: &mut StubBulb, request: HttpRequest) -> HttpReply {
    let envelope = json(&request.body);
    let data = envelope["data"].clone();
    let reply = if request.url.ends_with("/zeroconf/info") {
        let mut info = stub.state.clone();
        info.insert("deviceid".to_string(), Value::from("1000abcdef"));
        let mut body = serde_json::Map::new();
        body.insert("seq".to_string(), Value::from(stub.received.len() as u64));
        body.insert("error".to_string(), Value::from(0u64));
        body.insert("data".to_string(), Value::Object(info));
        answer(&Value::Object(body).to_string())
    } else {
        if request.url.ends_with("/zeroconf/dimmable") {
            for key in ["br", "r", "g", "b", "ct"] {
                stub.state.remove(key);
            }
        }
        if let Value::Object(members) = data {
            for (key, member) in members {
                stub.state.insert(key, member);
            }
        }
        answer(r#"{"seq":0,"error":0}"#)
    };
    stub.received.push(request);
    reply
}

fn run<T>(
    stub: &mut StubBulb,
    op: &dyn Fn(&[HttpReply]) -> Result<Step<T>, SonoffError>,
) -> Result<T, SonoffError> {
    let mut replies = Vec::new();
    loop {
        match op(&replies)? {
            Step::Send(request) => replies.push(exchange(stub, request)),
            Step::Done(value) => return Ok(value),
        }
    }
}

#[test]
fn test_bulb_white() {
    let dev = SonoffDevice::new("http://127.0.0.1:8081");
    let bulb = SonoffBulb::from(&dev);
    let mut device = stub_bulb(r#"{"switch":"off","ltype":"white","br":50,"ct":20}"#);
    run(&mut device, &|replies| bulb.on(replies)).unwrap();
    assert_eq!(device.received.len(), 1);
    assert_eq!(device.received[0].url, "http://127.0.0.1:8081/zeroconf/switch");
    assert_eq!(json(&device.received[0].body), json(r#"{"deviceId":"","data":{"switch":"on"}}"#));
    assert_eq!(device.state["switch"], Value::from("on"));
}

#[test]
fn color_sends_a_flat_object_tagged_color() {
    let request = sent(bulb_at("http://h").color(50, 10, 20, 30, &[]));
    assert_eq!(request.url, "http://h/zeroconf/dimmable");
    assert_eq!(
        request.body,
        r#"{"data":{"b":30,"br":50,"g":20,"ltype":"color","r":10},"deviceId":""}"#
    );
}

#[test]
fn white_sends_a_flat_object_tagged_white() {
    let request = sent(bulb_at("http://h").white(70, 35, &[]));
    assert_eq!(request.url, "http://h/zeroconf/dimmable");
    assert_eq!(request.body, r#"{"data":{"br":70,"ct":35,"ltype":"white"},"deviceId":""}"#);
}

#[test]
fn set_bulb_tags_by_the_variant() {
    let bulb = bulb_at("http://h");
    let color = DevReqBulbColorType::Color(DevReqBulbColorTypeRGB { br: 1, r: 2, g: 3, b: 4 });
    assert_eq!(sent(bulb.set_bulb(color, &[])), sent(bulb.color(1, 2, 3, 4, &[])));
    let white = DevReqBulbColorType::White(DevReqBulbColorTypeCW { br: 5, ct: 6 });
    assert_eq!(sent(bulb.set_bulb(white, &[])), sent(bulb.white(5, 6, &[])));
}

#[test]
fn values_out_of_their_bounds_are_sent_as_given() {
    let request = sent(bulb_at("http://h").color(0, 0, 255, 0, &[]));
    assert_eq!(
        json(&request.body)["data"],
        json(r#"{"ltype":"color","br":0,"r":0,"g":255,"b":0}"#)
    );
    let request = sent(bulb_at("http://h").white(255, 255, &[]));
    assert_eq!(json(&request.body)["data"], json(r#"{"ltype":"white","br":255,"ct":255}"#));
}

#[test]
fn color_then_get_info_gives_the_color_back() {
    let bulb = bulb_at("http://h");
    for (br, r, g, b) in [(1u8, 1u8, 1u8, 1u8), (100, 255, 255, 255), (42, 7, 200, 13)] {
        let mut device = stub_bulb(r#"{"switch":"on","ltype":"white","br":9,"ct":9}"#);
        let res = run(&mut device, &|replies| bulb.color(br, r, g, b, replies)).unwrap();
        assert_eq!(res, DevRes { seq: 0, error: 0, data: None });
        let info = run(&mut device, &|replies| bulb.get_info(replies)).unwrap();
        assert_eq!(
            info,
            DevInfoDataBulb {
                switch: "on".to_string(),
                ltype: "color".to_string(),
                color_type: DevReqBulbColorType::Color(DevReqBulbColorTypeRGB { br, r, g, b }),
            }
        );
    }
}

#[test]
fn white_then_get_info_gives_the_white_back() {
    let bulb = bulb_at("http://h");
    for (br, ct) in [(1u8, 0u8), (100, 100), (55, 45)] {
        let mut device = stub_bulb(r#"{"switch":"off","ltype":"color","br":9,"r":1,"g":2,"b":3}"#);
        run(&mut device, &|replies| bulb.white(br, ct, replies)).unwrap();
        let info = run(&mut device, &|replies| bulb.get_info(replies)).unwrap();
        assert_eq!(
            info,
            DevInfoDataBulb {
                switch: "off".to_string(),
                ltype: "white".to_string(),
                color_type: DevReqBulbColorType::White(DevReqBulbColorTypeCW { br, ct }),
            }
        );
    }
}

#[test]
fn dim_forces_white_of_temperature_100() {
    let bulb = bulb_at("http://h");
    let request = sent(bulb.dim(30, &[]));
    assert_eq!(request.url, "http://h/zeroconf/dimmable");
    assert_eq!(json(&request.body)["data"], json(r#"{"ltype":"white","br":30,"ct":100}"#));
    assert_eq!(request, sent(bulb.white(30, 100, &[])));
}

#[test]
fn dim_does_not_keep_the_color() {
    let bulb = bulb_at("http://h");
    let mut device = stub_bulb(r#"{"switch":"on","ltype":"color","br":80,"r":200,"g":100,"b":50}"#);
    run(&mut device, &|replies| bulb.dim(30, replies)).unwrap();
    let info = run(&mut device, &|replies| bulb.get_info(replies)).unwrap();
    assert_eq!(info.ltype, "white");
    assert_eq!(
        info.color_type,
        DevReqBulbColorType::White(DevReqBulbColorTypeCW { br: 30, ct: 100 })
    );
}

#[test]
fn dim_passes_any_brightness_on() {
    for br in [0u8, 101, 255] {
        let request = sent(bulb_at("http://h").dim(br, &[]));
        assert_eq!(json(&request.body)["data"]["br"], Value::from(br));
        assert_eq!(json(&request.body)["data"]["ct"], Value::from(100));
    }
}

#[test]
fn info_reads_the_light_of_its_lamp_type() {
    let info = DevInfoDataBulb::from_json(&json(
        r#"{"switch":"on","ltype":"white","br":10,"ct":20,"r":1,"g":2,"b":3}"#,
    ))
    .unwrap();
    assert_eq!(info.color_type, DevReqBulbColorType::White(DevReqBulbColorTypeCW { br: 10, ct: 20 }));
    let info = DevInfoDataBulb::from_json(&json(
        r#"{"switch":"on","ltype":"color","br":10,"ct":20,"r":1,"g":2,"b":3}"#,
    ))
    .unwrap();
    assert_eq!(
        info.color_type,
        DevReqBulbColorType::Color(DevReqBulbColorTypeRGB { br: 10, r: 1, g: 2, b: 3 })
    );
}

#[test]
fn info_rejects_what_is_no_bulb() {
    for text in [
        r#"{"ltype":"white","br":10,"ct":20}"#,
        r#"{"switch":"on","br":10,"ct":20}"#,
        r#"{"switch":"on","ltype":"warm","br":10,"ct":20}"#,
        r#"{"switch":"on","ltype":"white","br":10}"#,
        r#"{"switch":"on","ltype":"white","ct":10}"#,
        r#"{"switch":"on","ltype":"white","br":256,"ct":20}"#,
        r#"{"switch":"on","ltype":"white","br":-1,"ct":20}"#,
        r#"{"switch":"on","ltype":"white","br":"10","ct":20}"#,
        r#"{"switch":"on","ltype":"color","br":10,"r":1,"g":2}"#,
        r#"{"switch":"on","ltype":"color","br":10,"ct":20}"#,
        r#"{"switch":"on","ltype":"color","white":{"br":10,"ct":20}}"#,
    ] {
        assert_eq!(
            DevInfoDataBulb::from_json(&json(text)),
            Err(SonoffError::SerializationError),
            "{}",
            text
        );
    }
}

#[test]
fn get_info_needs_the_device_id() {
    let bulb = bulb_at("http://h");
    let replies =
        vec![answer(r#"{"seq":1,"error":0,"data":{"switch":"on","ltype":"white","br":1,"ct":2}}"#)];
    assert_eq!(bulb.get_info(&replies), Err(SonoffError::SerializationError));
    let replies = vec![answer(
        r#"{"seq":1,"error":0,"data":{"deviceid":"d","switch":"on","ltype":"white","br":1,"ct":2}}"#,
    )];
    assert!(bulb.get_info(&replies).is_ok());
}

#[test]
fn get_switch_reads_the_bulb_info() {
    let bulb = bulb_at("http://h");
    let request = sent(bulb.get_switch(&[]));
    assert_eq!(request.url, "http://h/zeroconf/info");
    let on = vec![answer(
        r#"{"seq":1,"error":0,"data":{"deviceid":"d","switch":"on","ltype":"white","br":1,"ct":2}}"#,
    )];
    assert_eq!(bulb.get_switch(&on), Ok(Step::Done(true)));
    let off = vec![answer(
        r#"{"seq":1,"error":0,"data":{"deviceid":"d","switch":"off","ltype":"color","br":1,"r":1,"g":1,"b":1}}"#,
    )];
    assert_eq!(bulb.get_switch(&off), Ok(Step::Done(false)));
    let no_light = vec![answer(r#"{"seq":1,"error":0,"data":{"deviceid":"d","switch":"on"}}"#)];
    assert_eq!(bulb.get_switch(&no_light), Err(SonoffError::SerializationError));
}

#[test]
fn toggle_of_a_bulb() {
    let bulb = bulb_at("http://h");
    let mut device = stub_bulb(r#"{"switch":"off","ltype":"white","br":50,"ct":20}"#);
    run(&mut device, &|replies| bulb.toggle(replies)).unwrap();
    assert_eq!(device.state["switch"], Value::from("on"));
    assert_eq!(device.received.len(), 2);
    run(&mut device, &|replies| bulb.toggle(replies)).unwrap();
    assert_eq!(device.state["switch"], Value::from("off"));
    assert_eq!(device.received.len(), 4);
}

#[test]
fn bulb_request_document() {
    let req = DevReqBulb {
        ltype: "white".to_string(),
        color_type: DevReqBulbColorType::White(DevReqBulbColorTypeCW { br: 1, ct: 2 }),
    };
    assert_eq!(req.to_json(), json(r#"{"ltype":"white","br":1,"ct":2}"#));
}
