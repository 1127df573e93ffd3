use ccx_gate::api::{
    ApiMethod, ApiVersion, CallAction, CallStage, DecodeError, CurrencyField, GateApi, GateApiConfig, HttpReply,
    Proxy, RequestError, RestCall, SignMaterial, SignatureData, API_BASE,
};
use ccx_gate::json::Json;
use ccx_gate::spot::{decode_currencies, decode_currency, Currency};

fn body(text: &str) -> Json {
    convert(&serde_json::from_str::<serde_json::Value>(text).unwrap())
}

fn convert(v: &serde_json::Value) -> Json {
    match v {
        serde_json::Value::Null => Json::Null,
        serde_json::Value::Bool(b) => Json::Bool(*b),
        serde_json::Value::Number(n) => match (n.as_i64(), n.as_u64()) {
            (Some(i), _) => Json::Int(i as i128),
            (None, Some(u)) => Json::Int(u as i128),
            (None, None) => Json::NonInteger,
        },
        serde_json::Value::String(s) => Json::Str(s.clone()),
        serde_json::Value::Array(a) => Json::Array(a.iter().map(convert).collect()),
        serde_json::Value::Object(o) => Json::Object(o.iter().map(|(k, v)| (k.clone(), convert(v))).collect()),
    }
}

fn private_call() -> RestCall {
    RestCall {
        method: ApiMethod::Get,
        url: "https://api.gateio.ws/api/v4/spot/accounts".to_string(),
        sign_path: "/api/v4/spot/accounts".to_string(),
        signed: true,
        stage: CallStage::Prepared,
    }
}

fn signature(ts: &str) -> SignatureData {
    SignatureData { key: "k".to_string(), timestamp: ts.to_string(), sign: format!("sig-{ts}") }
}

#[test]
fn method_and_version_names() {
    assert_eq!(ApiMethod::Get.as_str(), "GET");
    assert_eq!(ApiMethod::Post.as_str(), "POST");
    assert_eq!(ApiMethod::Put.as_str(), "PUT");
    assert_eq!(ApiMethod::Delete.as_str(), "DELETE");
    assert_eq!(ApiVersion::V4.as_str(), "v4");
}

#[test]
fn new_client_uses_the_public_base() {
    let api = GateApi::new((), Some(Proxy { host: "h".to_string(), port: 8080 }));
    assert_eq!(api.client.config.api_base, API_BASE);
    assert_eq!(api.client.config.proxy, Some(Proxy { host: "h".to_string(), port: 8080 }));
}

#[test]
fn with_config_keeps_the_config() {
    let config = GateApiConfig::new(7u8, "http://localhost/api/".to_string(), None);
    let api = GateApi::with_config(config);
    assert_eq!(api.client.config.signer, 7u8);
    assert_eq!(api.client.config.api_base, "http://localhost/api/");
    assert!(std::ptr::eq(api.spot().api, &api));
}

#[test]
fn public_request_is_sent_unsigned() {
    let api = GateApi::new((), None);
    let mut call = api.spot().all_currencies();
    assert_eq!(call.method, ApiMethod::Get);
    assert_eq!(call.url, "https://api.gateio.ws/api/v4/spot/currencies");
    assert_eq!(call.sign_path, "/api/v4/spot/currencies");
    assert!(!call.signed);
    assert_eq!(call.start(), CallAction::Send(None));
    assert_eq!(call.stage, CallStage::AwaitingResponse);
}

#[test]
fn currency_call_names_the_currency() {
    let api = GateApi::new((), None);
    let call = api.spot().currency("GT");
    assert_eq!(call.url, "https://api.gateio.ws/api/v4/spot/currencies/GT");
    assert_eq!(call.sign_path, "/api/v4/spot/currencies/GT");
    assert!(!call.signed);
}

#[test]
fn private_request_is_signed_once() {
    let mut call = private_call();
    match call.start() {
        CallAction::Sign(m) => {
            assert_eq!(m.method, ApiMethod::Get);
            assert_eq!(m.path, "/api/v4/spot/accounts");
            assert_eq!(m.query, "");
            assert_eq!(m.body, "");
        },
        other => panic!("expected a signing step, got {:?}", other),
    }
    assert_eq!(call.stage, CallStage::AwaitingSignature);
    let next = call.on_signature(Ok(signature("1"))).unwrap();
    assert_eq!(next, CallAction::Send(Some(signature("1"))));
    assert_eq!(call.stage, CallStage::AwaitingResponse);
}

#[test]
fn each_private_call_carries_its_own_signature() {
    let mut a = private_call();
    let mut b = private_call();
    a.start();
    b.start();
    let sa = a.on_signature(Ok(signature("100"))).unwrap();
    let sb = b.on_signature(Ok(signature("101"))).unwrap();
    assert_ne!(sa, sb);
}

#[test]
fn signer_failure_is_a_configuration_error() {
    let mut call = private_call();
    call.start();
    let got = call.on_signature(Err("missing key".to_string()));
    assert_eq!(got, Err(RequestError::Configuration("missing key".to_string())));
    assert_eq!(call.stage, CallStage::Finished);
}

#[test]
fn bad_request_reply_is_an_api_error() {
    let api = GateApi::new((), None);
    let mut call = api.spot().all_currencies();
    call.start();
    let reply = HttpReply { status: 400, body: Some(body(r#"{"code":"INVALID_ARGUMENT","message":"bad currency"}"#)) };
    let got = call.on_response(Ok(reply));
    match got {
        Err(e) => assert_eq!(
            e,
            RequestError::Api { label: "INVALID_ARGUMENT".to_string(), message: "bad currency".to_string() }
        ),
        Ok(_) => panic!("expected an error"),
    }
}

#[test]
fn label_field_is_read_first() {
    let mut call = private_call();
    call.start();
    call.on_signature(Ok(signature("1"))).unwrap();
    let reply = HttpReply { status: 403, body: Some(body(r#"{"label":"FORBIDDEN","message":"no"}"#)) };
    match call.on_response(Ok(reply)) {
        Err(e) => assert_eq!(e, RequestError::Api { label: "FORBIDDEN".to_string(), message: "no".to_string() }),
        Ok(_) => panic!("expected an error"),
    }
}

#[test]
fn unstructured_failure_is_a_status_error() {
    let mut call = GateApi::new((), None).spot().all_currencies();
    call.start();
    match call.on_response(Ok(HttpReply { status: 502, body: None })) {
        Err(e) => assert_eq!(e, RequestError::HttpStatus(502)),
        Ok(_) => panic!("expected an error"),
    }
}

#[test]
fn network_failure_is_a_transport_error() {
    let mut call = GateApi::new((), None).spot().all_currencies();
    call.start();
    match call.on_response(Err("connection reset".to_string())) {
        Err(e) => assert_eq!(e, RequestError::Transport("connection reset".to_string())),
        Ok(_) => panic!("expected an error"),
    }
}

#[test]
fn success_without_json_is_a_decode_error() {
    let mut call = GateApi::new((), None).spot().all_currencies();
    call.start();
    match call.on_response(Ok(HttpReply { status: 200, body: None })) {
        Err(e) => assert_eq!(e, RequestError::Decode(DecodeError::NotJson)),
        Ok(_) => panic!("expected an error"),
    }
}

#[test]
fn success_hands_back_the_body() {
    let mut call = GateApi::new((), None).spot().currency("GT");
    call.start();
    let reply = HttpReply { status: 200, body: Some(body(r#"{"currency":"GT","delisted":false,"withdraw_disabled":false,"withdraw_delayed":false,"deposit_disabled":false,"trade_disabled":true,"chain":"GT"}"#)) };
    let got = call.on_response(Ok(reply)).unwrap();
    assert_eq!(call.stage, CallStage::Finished);
    let currency = decode_currency(&got).unwrap();
    assert!(currency.trade_disabled);
}

#[test]
fn deserialize_currency() {
    let json = r#"{
     "currency": "GT",
     "delisted": false,
     "withdraw_disabled": false,
     "withdraw_delayed": false,
     "deposit_disabled": false,
     "trade_disabled": false,
     "chain": "GT"
  }"#;
    let expected = Currency {
        currency: "GT".to_string(),
        delisted: false,
        withdraw_disabled: false,
        withdraw_delayed: false,
        deposit_disabled: false,
        trade_disabled: false,
        fixed_rate: None,
        chain: "GT".to_string(),
    };
    assert_eq!(decode_currencies(&body(&format!("[{json}]"))).unwrap().as_slice(), &[expected]);
}

#[test]
fn currency_list_names_the_bad_item() {
    let text = r#"[
      {"currency":"GT","delisted":false,"withdraw_disabled":false,"withdraw_delayed":false,"deposit_disabled":false,"trade_disabled":false,"fixed_rate":"0.1","chain":"GT"},
      {"currency":"BTC","delisted":"no","withdraw_disabled":false,"withdraw_delayed":false,"deposit_disabled":false,"trade_disabled":false,"chain":"BTC"}
    ]"#;
    assert_eq!(decode_currencies(&body(text)).unwrap_err(), DecodeError::Malformed(Some(1), CurrencyField::Delisted));
    assert_eq!(decode_currencies(&body("{}")).unwrap_err(), DecodeError::NotAList);
    assert_eq!(decode_currency(&body("[]")).unwrap_err(), DecodeError::Malformed(None, CurrencyField::Record));
    let first = &decode_currencies(&body(&format!("[{}]", text.split("},").next().unwrap().trim_start_matches(|c: char| c == '[' || c.is_whitespace()).to_string() + "}"))).unwrap()[0];
    assert_eq!(first.fixed_rate, Some("0.1".to_string()));
}

#[test]
fn sign_text_joins_the_material_by_lines() {
    let m = SignMaterial {
        method: ApiMethod::Post,
        path: "/api/v4/spot/orders".to_string(),
        query: "currency_pair=BTC_USDT".to_string(),
        body: "{}".to_string(),
    };
    assert_eq!(
        m.text("ab12", "1700000000"),
        "POST\n/api/v4/spot/orders\ncurrency_pair=BTC_USDT\nab12\n1700000000"
    );
    assert_ne!(m.text("ab12", "1700000000"), m.text("ab12", "1700000001"));
}
