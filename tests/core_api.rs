use midtransclient::{
    decode_response, ApiRequest, CoreApi, JsonObject, Method, MidtransError, Payload, Transactions,
};
use reqwest::header::HeaderMap;

fn text<'a>(obj: &'a JsonObject, key: &str) -> Option<&'a str> {
    obj.get(key).and_then(|v| v.as_text()).map(|s| s.as_str())
}

fn payload(req: &ApiRequest) -> &JsonObject {
    match &req.payload {
        Payload::Query(o) => o,
        Payload::Json(o) => o,
    }
}

fn sandbox_core() -> CoreApi {
    CoreApi::new(false, "server_key".to_string()).build().ok().unwrap()
}

#[test]
fn core_api_new() {
    let core = CoreApi::new(false, "server_key".to_string()).build().ok().unwrap();
    assert_eq!(core.api_config.get_is_production(), false);
    assert_eq!(core.api_config.get_server_key(), "server_key");
    assert_eq!(core.api_config.get_client_key(), "");
    assert!(core.api_config.get_custom_headers().is_none());
    assert!(core.api_config.get_proxies().is_none());
}

#[test]
fn core_api_new_with_optionals() {
    let is_production = false;
    let server_key = String::from("server_key");
    let client_key = String::from("client_key");
    let mut custom_headers = HeaderMap::new();
    custom_headers.insert("X-Custom-Header", "Some Value".parse().unwrap());
    let proxies = reqwest::Proxy::http("https://secure.example").unwrap();
    let core = CoreApi::new(is_production, server_key)
        .client_key(client_key)
        .custom_headers(custom_headers.clone())
        .proxies(proxies)
        .build()
        .ok()
        .unwrap();
    assert_eq!(core.api_config.get_is_production(), false);
    assert_eq!(core.api_config.get_server_key(), "server_key");
    assert_eq!(core.api_config.get_client_key(), "client_key");
    assert_eq!(core.api_config.get_custom_headers().clone(), Some(custom_headers));
    assert!(!core.api_config.get_proxies().is_none());
}

#[test]
fn charge_request_is_one_authenticated_post() {
    let core = sandbox_core();
    let req = core
        .charge(r#"{"payment_type":"bank_transfer","transaction_details":{"gross_amount":24145,"order_id":"test-transaction-321"}}"#)
        .ok()
        .unwrap();
    assert_eq!(req.method, Method::Post);
    assert_eq!(req.url, "https://api.sandbox.midtrans.com/v2/charge");
    assert_eq!(req.username, "server_key");
    assert_eq!(req.password, "");
    assert!(matches!(req.payload, Payload::Json(_)));
    assert_eq!(text(payload(&req), "payment_type"), Some("bank_transfer"));
    assert!(payload(&req).contains_key("transaction_details"));
    assert_eq!(text(payload(&req), "transaction_details"), None);
}

#[test]
fn production_charge_goes_to_production_url() {
    let core = CoreApi::new(true, "server_key".to_string()).build().ok().unwrap();
    let req = core.charge("").ok().unwrap();
    assert_eq!(req.url, "https://api.midtrans.com/v2/charge");
}

#[test]
fn get_endpoints_send_parameters_as_query() {
    let core = sandbox_core();
    let req = core.card_token(r#"{"card_number":"4811111111111114"}"#).ok().unwrap();
    assert_eq!(req.method, Method::Get);
    assert_eq!(req.url, "https://api.sandbox.midtrans.com/v2/token");
    assert!(matches!(req.payload, Payload::Query(_)));
    let req = core.card_register("").ok().unwrap();
    assert_eq!(req.url, "https://api.sandbox.midtrans.com/v2/card/register");
    assert!(matches!(req.payload, Payload::Query(_)));
}

#[test]
fn endpoint_paths() {
    let core = sandbox_core();
    let cases: Vec<(Result<ApiRequest, MidtransError>, Method, &str)> = vec![
        (core.capture(""), Method::Post, "/v2/capture"),
        (core.card_point_inquiry("tok"), Method::Get, "/v2/point_inquiry/tok"),
        (core.create_subscription(""), Method::Post, "/v1/subscriptions"),
        (core.get_subscription("123"), Method::Get, "/v1/subscriptions/123"),
        (core.disable_subscription("123"), Method::Post, "/v1/subscriptions/123/disable"),
        (core.enable_subscription("123"), Method::Post, "/v1/subscriptions/123/enable"),
        (core.update_subscription("123", ""), Method::Patch, "/v1/subscriptions/123"),
        (core.link_payment_account(""), Method::Post, "/v2/pay/account"),
        (core.get_payment_account("acc"), Method::Get, "/v2/pay/account/acc"),
        (core.unlink_payment_account("acc"), Method::Post, "/v2/pay/account/acc/unbind"),
        (core.status("ord".to_string()), Method::Get, "/v2/ord/status"),
        (core.statusb2b("ord".to_string()), Method::Get, "/v2/ord/status/b2b"),
        (core.approve("ord".to_string()), Method::Post, "/v2/ord/approve"),
        (core.deny("ord".to_string()), Method::Post, "/v2/ord/deny"),
        (core.cancel("ord".to_string()), Method::Post, "/v2/ord/cancel"),
        (core.expire("ord".to_string()), Method::Post, "/v2/ord/expire"),
        (core.refund("ord".to_string(), ""), Method::Post, "/v2/ord/refund"),
        (core.refund_direct("ord".to_string(), ""), Method::Post, "/v2/ord/refund/online/direct"),
    ];
    for (req, method, path) in cases {
        let req = req.ok().unwrap();
        assert_eq!(req.method, method);
        assert_eq!(req.url, format!("https://api.sandbox.midtrans.com{}", path));
        assert_eq!(payload(&req).is_empty(), true);
    }
}

#[test]
fn core_api_charge_fail_empty_param() {
    // No local validation: the empty parameters go out as an empty object,
    // and the sandbox answers with a server error.
    let core = sandbox_core();
    let req = core.charge("").ok().unwrap();
    assert_eq!(payload(&req).is_empty(), true);
    let response = decode_response(500, "", r#"{"status_code":"500","status_message":"Sorry, an error occured"}"#);
    assert!(response.is_err());
    if let Err(MidtransError::ApiError(e)) = response {
        assert_eq!(e.status_code, 500);
    }
}

#[test]
fn core_api_charge_fail_zero_gross_amount() {
    let core = sandbox_core();
    let parameters = r#"{"payment_type":"bank_transfer","transaction_details":{"gross_amount":0,"order_id":"rust-midtransclient-test1"},"bank_transfer":{"bank":"bca"}}"#;
    let req = core.charge(parameters).ok().unwrap();
    assert_eq!(text(payload(&req), "payment_type"), Some("bank_transfer"));
    // The sandbox refuses the amount; the library only classifies its answer.
    let response = decode_response(
        200,
        "",
        r#"{"status_code":"400","status_message":"One or more parameters in the payload is invalid.","validation_messages":["transaction_details.gross_amount must be greater than or equal 0.01"]}"#,
    );
    assert!(response.is_err());
    if let Err(MidtransError::ApiError(e)) = response {
        assert_eq!(e.status_code, 400);
    } else {
        panic!("expected an API error");
    }
}

#[test]
fn core_api_exception_midtrans_api_error() {
    let core = sandbox_core();
    let req = core.status("non-exist-order-id".to_string()).ok().unwrap();
    assert_eq!(req.url, "https://api.sandbox.midtrans.com/v2/non-exist-order-id/status");
    let response = decode_response(
        404,
        "{\"content-type\": \"application/json\"}",
        r#"{"status_code":"404","status_message":"Transaction doesn't exist.","id":"e1f4ea7c-5c5b-4c3c-9c52-6f1a6d3a0f1a"}"#,
    );
    assert!(response.is_err());
    if let Err(MidtransError::ApiError(e)) = response {
        assert!(e.message.contains("Midtrans API is returning API error."));
        assert_eq!(e.status_code, 404);
        assert_eq!(text(&e.response, "status_message"), Some("Transaction doesn't exist."));
    } else {
        panic!("expected an API error");
    }
}

#[test]
fn core_api_status_fail_404() {
    let core = sandbox_core();
    let req = core.status(String::from("non-exist-order-id")).ok().unwrap();
    assert_eq!(req.method, Method::Get);
    let response = decode_response(404, "", r#"{"status_code":"404","status_message":"Transaction doesn't exist."}"#);
    assert!(response.is_err());
    if let Err(MidtransError::ApiError(e)) = response {
        assert_eq!(e.status_code, 404);
    }
}

#[test]
fn charge_fail_401() {
    let mut core = sandbox_core();
    core.api_config.set_server_key("invalid_key".to_string());
    let req = core.charge(r#"{"payment_type":"bank_transfer"}"#).ok().unwrap();
    assert_eq!(req.username, "invalid_key");
    let response = decode_response(
        401,
        "",
        r#"{"status_code":"401","status_message":"Unknown Merchant server_key/id","id":"x"}"#,
    );
    assert!(response.is_err());
    if let Err(MidtransError::ApiError(e)) = response {
        assert_eq!(e.status_code, 401);
    } else {
        panic!("expected an API error");
    }
}

#[test]
fn notification_from_json_fail() {
    let core = sandbox_core();
    let notification = String::new();
    assert!(core.notification_from_str(&notification).is_err());
    assert!(matches!(
        core.notification_from_str(&notification),
        Err(MidtransError::JsonDecodeError(_))
    ));
}

#[test]
fn notification_from_str_requeries_status() {
    let core = sandbox_core();
    let req = core.notification_from_str(r#"{"transaction_id":"X"}"#).ok().unwrap();
    let status = core.status("X".to_string()).ok().unwrap();
    assert_eq!(req.method, status.method);
    assert_eq!(req.url, status.url);
    assert_eq!(req.url, "https://api.sandbox.midtrans.com/v2/X/status");
    assert_eq!(req.username, status.username);
}

#[test]
fn notification_without_transaction_id_fails() {
    let core = sandbox_core();
    assert!(matches!(
        core.notification_from_str(r#"{"order_id":"X"}"#),
        Err(MidtransError::JsonDecodeError(_))
    ));
    assert!(matches!(
        core.notification_from_str(r#"{"transaction_id":7}"#),
        Err(MidtransError::JsonDecodeError(_))
    ));
}

#[test]
fn server_key_and_environment_changes_apply() {
    let mut core = sandbox_core();
    core.api_config.set_is_production(true);
    core.api_config.set_server_key("abc".to_string());
    let req = core.status("ord".to_string()).ok().unwrap();
    assert_eq!(req.url, "https://api.midtrans.com/v2/ord/status");
    assert_eq!(req.username, "abc");
    let new_config = midtransclient::ApiConfig::new(false, "server_key".to_string())
        .client_key("client_key".to_string())
        .build();
    core.set_api_config(new_config);
    let req = core.status("ord".to_string()).ok().unwrap();
    assert_eq!(req.url, "https://api.sandbox.midtrans.com/v2/ord/status");
    assert_eq!(core.get_api_config().get_client_key(), "client_key");
}
