//! The platform's operations: where each request goes and what its answer
//! means.
//!
//! Sending and receiving is the shell's work. It hands the answer over as a
//! [`Json`] document; the functions here read it and say, for every document,
//! what comes out.

use vstd::prelude::*;
use vstd::string::StringExecFns;
use crate::error::{PlatformError, PlatformErrorView};
use crate::json::Json;
use crate::text::{decimal, escape_ampersands, push_decimal, push_escaped};

verus! {

/// Where a reservation is posted.
pub const ORDER_PREPARE_URL: &'static str = "https://show.bilibili.com/api/ticket/order/prepare";

/// Where the creation of an order is posted.
pub const ORDER_CREATE_URL: &'static str = "https://show.bilibili.com/api/ticket/order/createV2";

/// Where the name and the portrait of the account are read.
pub const NAV_INFO_URL: &'static str = "https://api.bilibili.com/x/web-interface/nav";

/// Where the first twenty orders of the account are listed.
pub const ORDER_LIST_URL: &'static str =
    "https://show.bilibili.com/api/ticket/order/list?page=0&page_size=20";

/// Where the registered buyers of the account are listed.
pub const BUYER_LIST_URL: &'static str = "https://show.bilibili.com/api/ticket/buyer/list";

/// Where a login code is generated.
pub const QRCODE_GENERATE_URL: &'static str =
    "https://passport.bilibili.com/x/passport-login/web/qrcode/generate";

/// Where an order is cancelled: the address ends in the order's id.
pub fn cancel_order_url(order_id: &str) -> (url: String)
    ensures
        url@ == "https://show.bilibili.com/api/ticket/order/cancel?order_id="@ + order_id@,
{
    let mut url = String::from_str("https://show.bilibili.com/api/ticket/order/cancel?order_id=");
    url.append(order_id);
    url
}

/// Where the payment parameters of an order are read.
pub fn pay_param_url(order_id: &str) -> (url: String)
    ensures
        url@ == "https://show.bilibili.com/api/ticket/order/getPayParam?order_id="@ + order_id@,
{
    let mut url = String::from_str(
        "https://show.bilibili.com/api/ticket/order/getPayParam?order_id=",
    );
    url.append(order_id);
    url
}

/// Where one order is read, as seen at `timestamp_ms` milliseconds since the
/// epoch.
pub fn order_info_url(order_id: &str, timestamp_ms: u128) -> (url: String)
    ensures
        url@ == "https://show.bilibili.com/api/ticket/order/info?order_id="@ + order_id@
            + "&timestamp="@ + decimal(timestamp_ms as nat),
{
    let mut url = String::from_str("https://show.bilibili.com/api/ticket/order/info?order_id=");
    url.append(order_id);
    url.append("&timestamp=");
    push_decimal(&mut url, timestamp_ms);
    url
}

/// Where the state of a login code is polled.
pub fn qrcode_login_url(qrcode_key: &str) -> (url: String)
    ensures
        url@ == "https://passport.bilibili.com/x/passport-login/web/qrcode/poll?qrcode_key="@
            + qrcode_key@,
{
    let mut url = String::from_str(
        "https://passport.bilibili.com/x/passport-login/web/qrcode/poll?qrcode_key=",
    );
    url.append(qrcode_key);
    url
}

/// Where the catalog of a project is read.
pub fn project_info_url(project_id: u64) -> (url: String)
    ensures
        url@ == "https://show.bilibili.com/api/ticket/project/get?id="@ + decimal(
            project_id as nat,
        ),
{
    let mut url = String::from_str("https://show.bilibili.com/api/ticket/project/get?id=");
    push_decimal(&mut url, project_id as u128);
    url
}

/// The address of the picture that shows `target` as a scannable code: every
/// `&` of the target is written as `%26`.
pub fn qr_image_url(target: &str) -> (url: String)
    ensures
        url@ == "https://api.pwmqr.com/qrcode/create/?url="@ + escape_ampersands(target@),
{
    let mut url = String::from_str("https://api.pwmqr.com/qrcode/create/?url=");
    push_escaped(&mut url, target);
    url
}

/// The member `name` of the member `data` of an answer.
pub open spec fn data_member(doc: Json, name: Seq<char>) -> Option<Json> {
    match doc.member("data"@) {
        Some(data) => data.member(name),
        None => None,
    }
}

/// The characters of the string `data.name` of an answer.
pub open spec fn data_text(doc: Json, name: Seq<char>) -> Option<Seq<char>> {
    match data_member(doc, name) {
        Some(value) => value.text(),
        None => None,
    }
}

fn data_get<'a>(doc: &'a Json, name: &str) -> (found: Option<&'a Json>)
    ensures
        match found {
            Some(value) => data_member(*doc, name@) == Some(*value),
            None => data_member(*doc, name@) is None,
        },
{
    match doc.get("data") {
        Some(data) => data.get(name),
        None => None,
    }
}

fn data_string(doc: &Json, name: &str) -> (found: Option<String>)
    ensures
        match found {
            Some(s) => data_text(*doc, name@) == Some(s@),
            None => data_text(*doc, name@) is None,
        },
{
    match data_get(doc, name) {
        Some(value) => match value.as_str() {
            Some(s) => Some(String::from_str(s)),
            None => None,
        },
        None => None,
    }
}

/// What the answer to a cancellation means.
pub open spec fn cancel_order_spec(doc: Json) -> Result<(), PlatformErrorView> {
    match doc.member("errno"@) {
        Some(errno) => match errno.signed() {
            Some(code) => if code == 0 {
                Ok(())
            } else {
                Err(PlatformErrorView::Rejected(Seq::empty()))
            },
            None => Err(PlatformErrorView::Malformed),
        },
        None => Err(PlatformErrorView::Malformed),
    }
}

/// Reads the answer to a cancellation: done where `errno` is zero, refused
/// (without words) where it is another integer.
pub fn cancel_order(doc: &Json) -> (r: Result<(), PlatformError>)
    ensures
        match r {
            Ok(done) => cancel_order_spec(*doc) == Ok::<(), PlatformErrorView>(done),
            Err(e) => cancel_order_spec(*doc) == Err::<(), PlatformErrorView>(e@),
        },
{
    match doc.get("errno") {
        Some(errno) => match errno.as_i64() {
            Some(code) => if code == 0 {
                Ok(())
            } else {
                Err(PlatformError::Rejected(String::new()))
            },
            None => Err(PlatformError::Malformed),
        },
        None => Err(PlatformError::Malformed),
    }
}

/// What the answer to a request for payment parameters means.
pub open spec fn pay_param_spec(doc: Json) -> Result<Seq<char>, PlatformErrorView> {
    match doc.member("data"@) {
        Some(data) => match data.member("code_url"@) {
            Some(url) => match url.text() {
                Some(s) => Ok(s),
                None => Err(PlatformErrorView::Malformed),
            },
            None => Err(PlatformErrorView::Rejected(Seq::empty())),
        },
        None => Err(PlatformErrorView::Malformed),
    }
}

/// Reads the answer to a request for payment parameters: the payment address
/// `data.code_url`, or a refusal (without words) where `data` has none.
pub fn pay_param(doc: &Json) -> (r: Result<String, PlatformError>)
    ensures
        match r {
            Ok(url) => pay_param_spec(*doc) == Ok::<Seq<char>, PlatformErrorView>(url@),
            Err(e) => pay_param_spec(*doc) == Err::<Seq<char>, PlatformErrorView>(e@),
        },
{
    match doc.get("data") {
        Some(data) => match data.get("code_url") {
            Some(url) => match url.as_str() {
                Some(s) => Ok(String::from_str(s)),
                None => Err(PlatformError::Malformed),
            },
            None => Err(PlatformError::Rejected(String::new())),
        },
        None => Err(PlatformError::Malformed),
    }
}

/// What the answer to a reservation means.
pub open spec fn order_prepare_spec(doc: Json) -> Result<Seq<char>, PlatformErrorView> {
    match data_text(doc, "token"@) {
        Some(token) => Ok(token),
        None => Err(PlatformErrorView::Malformed),
    }
}

/// Reads the answer to a reservation: the token `data.token`.
pub fn order_prepare(doc: &Json) -> (r: Result<String, PlatformError>)
    ensures
        match r {
            Ok(token) => order_prepare_spec(*doc) == Ok::<Seq<char>, PlatformErrorView>(token@),
            Err(e) => order_prepare_spec(*doc) == Err::<Seq<char>, PlatformErrorView>(e@),
        },
{
    match data_string(doc, "token") {
        Some(token) => Ok(token),
        None => Err(PlatformError::Malformed),
    }
}

/// What the answer to the creation of an order means.
pub open spec fn order_create_spec(doc: Json) -> Result<u64, PlatformErrorView> {
    match data_member(doc, "orderId"@) {
        Some(id) => match id.unsigned() {
            Some(n) => Ok(n),
            None => Err(PlatformErrorView::Malformed),
        },
        None => match doc.member("msg"@) {
            Some(msg) => match msg.text() {
                Some(words) => Err(PlatformErrorView::Rejected(words)),
                None => Err(PlatformErrorView::Malformed),
            },
            None => Err(PlatformErrorView::Malformed),
        },
    }
}

/// Reads the answer to the creation of an order: the numeric id
/// `data.orderId` where there is one; where there is none, the refusal in
/// the platform's words `msg`.
pub fn order_create(doc: &Json) -> (r: Result<u64, PlatformError>)
    ensures
        match r {
            Ok(id) => order_create_spec(*doc) == Ok::<u64, PlatformErrorView>(id),
            Err(e) => order_create_spec(*doc) == Err::<u64, PlatformErrorView>(e@),
        },
{
    match data_get(doc, "orderId") {
        Some(id) => match id.as_u64() {
            Some(n) => Ok(n),
            None => Err(PlatformError::Malformed),
        },
        None => match doc.get("msg") {
            Some(msg) => match msg.as_str() {
                Some(words) => Err(PlatformError::Rejected(String::from_str(words))),
                None => Err(PlatformError::Malformed),
            },
            None => Err(PlatformError::Malformed),
        },
    }
}

/// The two strings `data.first` and `data.second` of an answer.
pub open spec fn data_pair_spec(doc: Json, first: Seq<char>, second: Seq<char>) -> Result<
    (Seq<char>, Seq<char>),
    PlatformErrorView,
> {
    match (data_text(doc, first), data_text(doc, second)) {
        (Some(a), Some(b)) => Ok((a, b)),
        _ => Err(PlatformErrorView::Malformed),
    }
}

fn data_pair(doc: &Json, first: &str, second: &str) -> (r: Result<(String, String), PlatformError>)
    ensures
        match r {
            Ok(pair) => data_pair_spec(*doc, first@, second@) == Ok::<
                (Seq<char>, Seq<char>),
                PlatformErrorView,
            >((pair.0@, pair.1@)),
            Err(e) => data_pair_spec(*doc, first@, second@) == Err::<
                (Seq<char>, Seq<char>),
                PlatformErrorView,
            >(e@),
        },
{
    match data_string(doc, first) {
        Some(a) => match data_string(doc, second) {
            Some(b) => Ok((a, b)),
            None => Err(PlatformError::Malformed),
        },
        None => Err(PlatformError::Malformed),
    }
}

/// Reads the identity of the account: its name `data.uname` and the address
/// of its portrait `data.face`.
pub fn nav_info(doc: &Json) -> (r: Result<(String, String), PlatformError>)
    ensures
        match r {
            Ok(pair) => data_pair_spec(*doc, "uname"@, "face"@) == Ok::<
                (Seq<char>, Seq<char>),
                PlatformErrorView,
            >((pair.0@, pair.1@)),
            Err(e) => data_pair_spec(*doc, "uname"@, "face"@) == Err::<
                (Seq<char>, Seq<char>),
                PlatformErrorView,
            >(e@),
        },
{
    data_pair(doc, "uname", "face")
}

/// Reads a fresh login code: the address to show, `data.url`, and the key to
/// poll with, `data.qrcode_key`.
pub fn generate_qrcode(doc: &Json) -> (r: Result<(String, String), PlatformError>)
    ensures
        match r {
            Ok(pair) => data_pair_spec(*doc, "url"@, "qrcode_key"@) == Ok::<
                (Seq<char>, Seq<char>),
                PlatformErrorView,
            >((pair.0@, pair.1@)),
            Err(e) => data_pair_spec(*doc, "url"@, "qrcode_key"@) == Err::<
                (Seq<char>, Seq<char>),
                PlatformErrorView,
            >(e@),
        },
{
    data_pair(doc, "url", "qrcode_key")
}

/// The status code and the message of the answer to a login poll.
pub open spec fn qrcode_login_spec(doc: Json) -> Result<(i64, Seq<char>), PlatformErrorView> {
    match data_member(doc, "code"@) {
        Some(code) => match (code.signed(), data_text(doc, "message"@)) {
            (Some(c), Some(m)) => Ok((c, m)),
            _ => Err(PlatformErrorView::Malformed),
        },
        None => Err(PlatformErrorView::Malformed),
    }
}

/// Reads the answer to a login poll: the status code `data.code`, the
/// message `data.message`, and the cookie that came in the answer's headers,
/// handed through as it is.
pub fn qrcode_login(doc: &Json, set_cookie: Option<String>) -> (r: Result<
    (i64, String, Option<String>),
    PlatformError,
>)
    ensures
        match r {
            Ok(answer) => qrcode_login_spec(*doc) == Ok::<(i64, Seq<char>), PlatformErrorView>(
                (answer.0, answer.1@),
            ) && answer.2 == set_cookie,
            Err(e) => qrcode_login_spec(*doc) == Err::<(i64, Seq<char>), PlatformErrorView>(e@),
        },
{
    match data_get(doc, "code") {
        Some(code) => match code.as_i64() {
            Some(c) => match data_string(doc, "message") {
                Some(m) => Ok((c, m, set_cookie)),
                None => Err(PlatformError::Malformed),
            },
            None => Err(PlatformError::Malformed),
        },
        None => Err(PlatformError::Malformed),
    }
}

} // verus!
