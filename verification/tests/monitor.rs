use bili_ticket::client::BiliTicket;
use bili_ticket::error::PlatformError;
use bili_ticket::model::{Img, ItemInfo, Order};
use bili_ticket::monitor::{MonitorAction, ORDER_POLL_INTERVAL_MS};

const POLL: MonitorAction = MonitorAction::Poll { then_sleep_ms: 1500 };

fn listed(order_id: &str) -> Order {
    Order {
        order_id: order_id.to_string(),
        uid: String::new(),
        order_type: 0,
        item_id: 0,
        item_info: ItemInfo {
            name: String::new(),
            img: String::new(),
            screen_id: 0,
            screen_name: String::new(),
            express_fee: 0,
            express_free_flag: 0,
            deliver_type: 0,
            screen_type: 0,
            link_id: 0,
            ticket_type: 0,
            time: 0,
            ticket_type_name: String::new(),
        },
        count: 0,
        total_money: 0,
        pay_money: 0,
        express_fee: 0,
        pay_channel: 0,
        status: 0,
        sub_status: 0,
        refund_status: 0,
        pay_time: 0,
        ctime: String::new(),
        source: String::new(),
        ticket_agent: String::new(),
        img: Img { url: String::new(), desc: String::new() },
        current_time: 0,
        deliver_type_name: String::new(),
        free_deliver: false,
        create_at: 0,
        pay_remain_time: 0,
        sub_status_name: String::new(),
    }
}

#[test]
fn the_monitor_starts_after_login_only() {
    let mut client = BiliTicket::new(None);
    assert!(!client.monitor_due());
    client.config.is_login = true;
    assert!(client.monitor_due());
    let monitor = client.handler_orders();
    assert!(!monitor.stopped());
    assert!(client.handler_order);
    assert!(!client.monitor_due());
    assert_eq!(client.terminal_buffer, "\n加载订单数据...\n");
    assert_eq!(ORDER_POLL_INTERVAL_MS, 1500);
}

#[test]
fn no_poll_starts_after_the_flag_was_seen_cleared() {
    let mut client = BiliTicket::new(None);
    let mut monitor = client.handler_orders();
    assert_eq!(client.monitor_tick(&mut monitor), POLL);
    assert_eq!(client.monitor_tick(&mut monitor), POLL);
    client.stop_monitor();
    client.orders_listed(Ok(vec![listed("in flight")]));
    assert_eq!(client.config.orders.len(), 1);
    assert_eq!(client.monitor_tick(&mut monitor), MonitorAction::Stop);
    assert!(monitor.stopped());
    client.handler_order = true;
    assert_eq!(client.monitor_tick(&mut monitor), MonitorAction::Stop);
    assert_eq!(client.monitor_tick(&mut monitor), MonitorAction::Stop);
}

#[test]
fn a_new_run_polls_again() {
    let mut client = BiliTicket::new(None);
    let mut first = client.handler_orders();
    client.stop_monitor();
    assert_eq!(client.monitor_tick(&mut first), MonitorAction::Stop);
    let mut second = client.handler_orders();
    assert_eq!(client.monitor_tick(&mut second), POLL);
    assert_eq!(client.monitor_tick(&mut first), MonitorAction::Stop);
}

#[test]
fn each_poll_replaces_the_snapshot_as_a_whole() {
    let mut client = BiliTicket::new(None);
    client.orders_listed(Ok(vec![listed("1"), listed("2"), listed("3")]));
    assert_eq!(client.config.orders, vec![listed("1"), listed("2"), listed("3")]);
    client.orders_listed(Ok(vec![listed("4")]));
    assert_eq!(client.config.orders, vec![listed("4")]);
    client.orders_listed(Ok(vec![]));
    assert!(client.config.orders.is_empty());
}

#[test]
fn a_failed_poll_keeps_the_snapshot() {
    let mut client = BiliTicket::new(None);
    client.orders_listed(Ok(vec![listed("1"), listed("2")]));
    client.orders_listed(Err(PlatformError::Transport));
    assert_eq!(client.config.orders, vec![listed("1"), listed("2")]);
    client.orders_listed(Err(PlatformError::Malformed));
    assert_eq!(client.config.orders, vec![listed("1"), listed("2")]);
}
