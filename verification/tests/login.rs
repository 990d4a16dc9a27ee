use bili_ticket::api::{generate_qrcode, qrcode_login};
use bili_ticket::client::BiliTicket;
use bili_ticket::error::PlatformError;
use bili_ticket::json::Json;
use bili_ticket::login::{LoginAction, LoginPhase, LOGIN_POLL_INTERVAL_MS};

const AGAIN: LoginAction = LoginAction::PollAfter { wait_ms: 3000 };

fn not_yet(code: i64) -> Result<(i64, String, Option<String>), PlatformError> {
    Ok((code, "waiting".to_string(), None))
}

fn confirmed(cookie: &str) -> Result<(i64, String, Option<String>), PlatformError> {
    Ok((0, String::new(), Some(cookie.to_string())))
}

#[test]
fn login_succeeds_on_the_third_poll() {
    let generated = Json::parse(r#"{"data":{"url":"https://x/qr","qrcode_key":"k1"}}"#).unwrap();
    let (url, key) = generate_qrcode(&generated).unwrap();
    assert_eq!((url.as_str(), key.as_str()), ("https://x/qr", "k1"));

    let mut client = BiliTicket::new(None);
    assert!(client.login_due());
    let mut session = client.do_login(&url, key);
    assert_eq!(session.qrcode_key(), "k1");
    assert!(!client.login_due());

    let bodies = [
        (r#"{"data":{"code":-1,"message":"m"}}"#, None),
        (r#"{"data":{"code":-1,"message":"m"}}"#, None),
        (r#"{"data":{"code":0,"message":"m"}}"#, Some("SESSDATA=abc".to_string())),
    ];
    let mut polls = 0;
    let mut action = session.next_action();
    for (body, cookie) in bodies {
        assert_eq!(action, AGAIN);
        assert!(!client.config.is_login);
        polls += 1;
        let answer = qrcode_login(&Json::parse(body).unwrap(), cookie);
        action = client.login_polled(&mut session, answer);
    }
    assert_eq!(action, LoginAction::Stop);
    assert_eq!(polls, 3);
    assert!(client.config.is_login);
    assert_eq!(client.config.cookie, "SESSDATA=abc");
    assert_eq!(session.phase(), LoginPhase::Authenticated);
}

#[test]
fn starting_a_login_shows_the_code() {
    let mut client = BiliTicket::new(None);
    let session = client.do_login("https://x/qr?a=1&b=2", "k1".to_string());
    assert_eq!(session.phase(), LoginPhase::Polling);
    assert_eq!(session.next_action(), AGAIN);
    assert_eq!(client.login_qr_url, "https://api.pwmqr.com/qrcode/create/?url=https://x/qr?a=1%26b=2");
    assert!(client.show_login_qr);
    assert!(client.logging);
    assert_eq!(client.terminal_buffer, "\n请扫描二维码登录:\n");
    assert!(!client.config.is_login);
    assert_eq!(LOGIN_POLL_INTERVAL_MS, 3000);
}

#[test]
fn the_session_is_written_exactly_once() {
    let mut client = BiliTicket::new(None);
    let mut session = client.do_login("u", "k".to_string());
    assert_eq!(client.login_polled(&mut session, not_yet(86101)), AGAIN);
    assert_eq!(client.login_polled(&mut session, confirmed("first")), LoginAction::Stop);
    assert_eq!(client.config.cookie, "first");
    assert!(client.config.is_login);
    assert!(!client.logging);
    assert_eq!(client.terminal_buffer, "\n请扫描二维码登录:\n登录成功!\n");
    assert_eq!(client.login_polled(&mut session, confirmed("second")), LoginAction::Stop);
    assert_eq!(client.login_polled(&mut session, not_yet(1)), LoginAction::Stop);
    assert_eq!(client.config.cookie, "first");
    assert_eq!(client.terminal_buffer, "\n请扫描二维码登录:\n登录成功!\n");
}

#[test]
fn failed_polls_count_as_not_yet() {
    let mut client = BiliTicket::new(None);
    let mut session = client.do_login("u", "k".to_string());
    let before = client.terminal_buffer.clone();
    assert_eq!(client.login_polled(&mut session, Err(PlatformError::Transport)), AGAIN);
    assert_eq!(client.login_polled(&mut session, Err(PlatformError::Malformed)), AGAIN);
    assert_eq!(client.login_polled(&mut session, not_yet(86038)), AGAIN);
    assert_eq!(
        client.login_polled(&mut session, Ok((86090, "scanned".to_string(), Some("c".to_string())))),
        AGAIN
    );
    assert_eq!(client.login_polled(&mut session, Ok((0, String::new(), None))), AGAIN);
    assert!(!client.config.is_login);
    assert_eq!(client.config.cookie, "");
    assert!(client.logging);
    assert_eq!(client.terminal_buffer, before);
    assert_eq!(session.phase(), LoginPhase::Polling);
}

#[test]
fn an_abandoned_login_never_logs_in() {
    let mut client = BiliTicket::new(None);
    let mut session = client.do_login("u", "k".to_string());
    client.abandon_login(&mut session);
    assert_eq!(session.phase(), LoginPhase::Idle);
    assert_eq!(session.next_action(), LoginAction::Stop);
    assert!(!client.logging);
    assert!(client.login_due());
    assert_eq!(client.login_polled(&mut session, confirmed("late")), LoginAction::Stop);
    assert!(!client.config.is_login);
    assert_eq!(client.config.cookie, "");
    client.abandon_login(&mut session);
    assert_eq!(session.phase(), LoginPhase::Idle);
}

#[test]
fn a_fresh_login_overwrites_the_cookie() {
    let mut client = BiliTicket::new(None);
    let mut first = client.do_login("u", "k".to_string());
    client.login_polled(&mut first, confirmed("one"));
    client.change_account();
    assert!(client.login_due());
    let mut second = client.do_login("u2", "k2".to_string());
    client.abandon_login(&mut first);
    assert_eq!(first.phase(), LoginPhase::Authenticated);
    assert_eq!(client.login_polled(&mut second, confirmed("two")), LoginAction::Stop);
    assert_eq!(client.config.cookie, "two");
}
