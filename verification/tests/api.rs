use bili_ticket::api::{
    cancel_order, cancel_order_url, generate_qrcode, nav_info, order_create, order_info_url,
    order_prepare, pay_param, pay_param_url, project_info_url, qr_image_url, qrcode_login,
    qrcode_login_url, BUYER_LIST_URL, NAV_INFO_URL, ORDER_CREATE_URL, ORDER_LIST_URL,
    ORDER_PREPARE_URL, QRCODE_GENERATE_URL,
};
use bili_ticket::error::PlatformError;
use bili_ticket::json::Json;

fn doc(text: &str) -> Json {
    Json::parse(text).unwrap()
}

#[test]
fn request_addresses_are_the_platforms() {
    assert_eq!(
        cancel_order_url("4001"),
        "https://show.bilibili.com/api/ticket/order/cancel?order_id=4001"
    );
    assert_eq!(
        pay_param_url("4001"),
        "https://show.bilibili.com/api/ticket/order/getPayParam?order_id=4001"
    );
    assert_eq!(
        order_info_url("4001", 1700000000123),
        "https://show.bilibili.com/api/ticket/order/info?order_id=4001&timestamp=1700000000123"
    );
    assert_eq!(
        qrcode_login_url("k1"),
        "https://passport.bilibili.com/x/passport-login/web/qrcode/poll?qrcode_key=k1"
    );
    assert_eq!(project_info_url(73710), "https://show.bilibili.com/api/ticket/project/get?id=73710");
    assert_eq!(ORDER_PREPARE_URL, "https://show.bilibili.com/api/ticket/order/prepare");
    assert_eq!(ORDER_CREATE_URL, "https://show.bilibili.com/api/ticket/order/createV2");
    assert_eq!(NAV_INFO_URL, "https://api.bilibili.com/x/web-interface/nav");
    assert_eq!(
        ORDER_LIST_URL,
        "https://show.bilibili.com/api/ticket/order/list?page=0&page_size=20"
    );
    assert_eq!(BUYER_LIST_URL, "https://show.bilibili.com/api/ticket/buyer/list");
    assert_eq!(
        QRCODE_GENERATE_URL,
        "https://passport.bilibili.com/x/passport-login/web/qrcode/generate"
    );
}

#[test]
fn the_code_picture_escapes_ampersands() {
    assert_eq!(
        qr_image_url("https://x/qr?a=1&b=2"),
        "https://api.pwmqr.com/qrcode/create/?url=https://x/qr?a=1%26b=2"
    );
}

#[test]
fn cancellation_succeeds_on_errno_zero() {
    assert_eq!(cancel_order(&doc(r#"{"errno":0}"#)), Ok(()));
}

#[test]
fn cancellation_is_refused_on_another_errno() {
    assert_eq!(
        cancel_order(&doc(r#"{"errno":100034,"msg":"x"}"#)),
        Err(PlatformError::Rejected(String::new()))
    );
}

#[test]
fn cancellation_without_errno_is_malformed() {
    assert_eq!(cancel_order(&doc(r#"{"data":{}}"#)), Err(PlatformError::Malformed));
    assert_eq!(cancel_order(&doc(r#"{"errno":"0"}"#)), Err(PlatformError::Malformed));
    assert_eq!(cancel_order(&doc(r#"[0]"#)), Err(PlatformError::Malformed));
}

#[test]
fn payment_address_is_read_from_data() {
    assert_eq!(
        pay_param(&doc(r#"{"data":{"code_url":"weixin://pay?x=1&y=2"}}"#)),
        Ok("weixin://pay?x=1&y=2".to_string())
    );
    assert_eq!(pay_param(&doc(r#"{"data":{}}"#)), Err(PlatformError::Rejected(String::new())));
    assert_eq!(pay_param(&doc(r#"{"data":{"code_url":5}}"#)), Err(PlatformError::Malformed));
    assert_eq!(pay_param(&doc(r#"{"errno":1}"#)), Err(PlatformError::Malformed));
}

#[test]
fn reservation_yields_its_token() {
    assert_eq!(order_prepare(&doc(r#"{"data":{"token":"tok1"}}"#)), Ok("tok1".to_string()));
    assert_eq!(order_prepare(&doc(r#"{"data":{}}"#)), Err(PlatformError::Malformed));
    assert_eq!(order_prepare(&doc(r#"{"data":{"token":1}}"#)), Err(PlatformError::Malformed));
    assert_eq!(order_prepare(&doc(r#"{"token":"tok1"}"#)), Err(PlatformError::Malformed));
}

#[test]
fn creation_yields_the_order_id() {
    assert_eq!(order_create(&doc(r#"{"data":{"orderId":4001237}}"#)), Ok(4001237));
    assert_eq!(
        order_create(&doc(r#"{"data":{"orderId":4001237},"msg":"ignored"}"#)),
        Ok(4001237)
    );
}

#[test]
fn creation_without_order_id_fails_with_the_platforms_words() {
    assert_eq!(
        order_create(&doc(r#"{"msg":"sold out"}"#)),
        Err(PlatformError::Rejected("sold out".to_string()))
    );
    assert_eq!(
        order_create(&doc(r#"{"data":{},"msg":"sold out"}"#)),
        Err(PlatformError::Rejected("sold out".to_string()))
    );
}

#[test]
fn creation_with_neither_id_nor_words_is_malformed() {
    assert_eq!(order_create(&doc(r#"{"data":{}}"#)), Err(PlatformError::Malformed));
    assert_eq!(order_create(&doc(r#"{"data":{"orderId":"7"}}"#)), Err(PlatformError::Malformed));
    assert_eq!(order_create(&doc(r#"{"data":{"orderId":-7}}"#)), Err(PlatformError::Malformed));
    assert_eq!(order_create(&doc(r#"{"msg":7}"#)), Err(PlatformError::Malformed));
}

#[test]
fn identity_is_name_and_portrait() {
    assert_eq!(
        nav_info(&doc(r#"{"data":{"uname":"u","face":"https://i/f.jpg"}}"#)),
        Ok(("u".to_string(), "https://i/f.jpg".to_string()))
    );
    assert_eq!(nav_info(&doc(r#"{"data":{"uname":"u"}}"#)), Err(PlatformError::Malformed));
    assert_eq!(nav_info(&doc(r#"{"data":{"face":"f"}}"#)), Err(PlatformError::Malformed));
}

#[test]
fn login_code_is_address_and_key() {
    assert_eq!(
        generate_qrcode(&doc(r#"{"data":{"url":"https://x/qr","qrcode_key":"k1"}}"#)),
        Ok(("https://x/qr".to_string(), "k1".to_string()))
    );
    assert_eq!(generate_qrcode(&doc(r#"{"data":{"url":"https://x/qr"}}"#)), Err(PlatformError::Malformed));
}

#[test]
fn poll_answer_carries_code_message_and_cookie() {
    assert_eq!(
        qrcode_login(&doc(r#"{"data":{"code":86101,"message":"not scanned"}}"#), None),
        Ok((86101, "not scanned".to_string(), None))
    );
    assert_eq!(
        qrcode_login(
            &doc(r#"{"data":{"code":0,"message":""}}"#),
            Some("SESSDATA=abc".to_string())
        ),
        Ok((0, String::new(), Some("SESSDATA=abc".to_string())))
    );
    assert_eq!(
        qrcode_login(&doc(r#"{"data":{"code":-1,"message":"m"}}"#), None),
        Ok((-1, "m".to_string(), None))
    );
}

#[test]
fn poll_answer_without_code_or_message_is_malformed() {
    assert_eq!(qrcode_login(&doc(r#"{"data":{"message":"m"}}"#), None), Err(PlatformError::Malformed));
    assert_eq!(qrcode_login(&doc(r#"{"data":{"code":0}}"#), None), Err(PlatformError::Malformed));
    assert_eq!(qrcode_login(&doc(r#"{"data":{"code":0.5,"message":"m"}}"#), None), Err(PlatformError::Malformed));
    assert_eq!(qrcode_login(&doc(r#"{}"#), None), Err(PlatformError::Malformed));
}

#[test]
fn every_failure_has_its_words() {
    assert_eq!(PlatformError::Transport.reason(), "transport failure");
    assert_eq!(PlatformError::Rejected("sold out".to_string()).reason(), "sold out");
    assert_eq!(PlatformError::NotFound.reason(), "not found");
    assert_eq!(PlatformError::Malformed.reason(), "malformed response");
}
