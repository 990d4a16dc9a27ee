use bili_ticket::catalog::{
    classify_order_type, performance_image_url, project_info, resolve_performance_image,
};
use bili_ticket::error::PlatformError;
use bili_ticket::json::{Json, JsonMember};
use bili_ticket::model::{OrderType, Project, Screen, Ticket};

fn ticket(anonymous_buy: bool) -> Ticket {
    Ticket { id: 398405, anonymous_buy, price: 68000, desc: "A".to_string(), ..Ticket::default() }
}

fn screen(delivery_type: i32, tickets: Vec<Ticket>) -> Screen {
    Screen {
        id: 134762,
        delivery_type,
        start_time: 1700000000,
        name: "day 1".to_string(),
        type_: 1,
        ticket_type: 1,
        screen_type: 1,
        ticket_list: tickets,
    }
}

fn project(buyer_info: &str, need_contact: i32, image: &str, screens: Vec<Screen>) -> Project {
    Project {
        buyer_info: buyer_info.to_string(),
        need_contact,
        name: "show".to_string(),
        status: 1,
        is_sale: 1,
        start_time: 1,
        end_time: 2,
        sale_begin: 3,
        sale_end: 4,
        sale_start: 5,
        performance_image: image.to_string(),
        screen_list: screens,
    }
}

fn expected(anonymous: bool, delivery: i32, buyer_info: &str, need_contact: i32) -> Option<OrderType> {
    if anonymous {
        return Some(OrderType::Anonymous);
    }
    if delivery == 3 {
        return Some(OrderType::Deliver);
    }
    if buyer_info == "2,1" {
        return Some(OrderType::Buyer);
    }
    if need_contact == 1 {
        return Some(OrderType::NamePhone);
    }
    None
}

#[test]
fn classification_follows_the_precedence_on_every_combination() {
    let mut seen = 0;
    for anonymous in [false, true] {
        for delivery in [1, 3] {
            for buyer_info in ["", "2,1"] {
                for need_contact in [0, 1] {
                    assert_eq!(
                        classify_order_type(anonymous, delivery, buyer_info, need_contact),
                        expected(anonymous, delivery, buyer_info, need_contact)
                    );
                    seen += 1;
                }
            }
        }
    }
    assert_eq!(seen, 16);
}

#[test]
fn an_anonymous_ticket_wins_over_everything() {
    assert_eq!(classify_order_type(true, 3, "2,1", 1), Some(OrderType::Anonymous));
}

#[test]
fn paper_delivery_wins_over_real_name_and_contact() {
    assert_eq!(classify_order_type(false, 3, "2,1", 1), Some(OrderType::Deliver));
}

#[test]
fn real_name_wins_over_contact() {
    assert_eq!(classify_order_type(false, 1, "2,1", 1), Some(OrderType::Buyer));
}

#[test]
fn contact_is_the_last_rule() {
    assert_eq!(classify_order_type(false, 1, "1", 1), Some(OrderType::NamePhone));
    assert_eq!(classify_order_type(false, 1, "2,1 ", 0), None);
    assert_eq!(classify_order_type(false, 2, "", 2), None);
}

#[test]
fn a_project_is_classified_by_its_first_screen_and_ticket() {
    let p = project(
        "2,1",
        1,
        "",
        vec![screen(1, vec![ticket(false), ticket(true)]), screen(3, vec![ticket(true)])],
    );
    assert_eq!(p.order_type(), Ok(Some(OrderType::Buyer)));
    let q = project("", 0, "", vec![screen(3, vec![ticket(false)])]);
    assert_eq!(q.order_type(), Ok(Some(OrderType::Deliver)));
    let r = project("", 0, "", vec![screen(1, vec![ticket(false)])]);
    assert_eq!(r.order_type(), Ok(None));
}

#[test]
fn a_project_without_a_first_ticket_is_malformed() {
    assert_eq!(project("2,1", 1, "", vec![]).order_type(), Err(PlatformError::Malformed));
    assert_eq!(
        project("2,1", 1, "", vec![screen(3, vec![])]).order_type(),
        Err(PlatformError::Malformed)
    );
}

#[test]
fn nested_image_field_resolves_to_an_absolute_address() {
    assert_eq!(
        resolve_performance_image("{\"first\":{\"url\":\"//img/a.jpg\"}}"),
        Ok("http://img/a.jpg".to_string())
    );
}

#[test]
fn image_field_without_the_nested_address_is_malformed() {
    assert_eq!(resolve_performance_image("{\"first\":{}}"), Err(PlatformError::Malformed));
    assert_eq!(resolve_performance_image("{\"second\":{\"url\":\"//a\"}}"), Err(PlatformError::Malformed));
    assert_eq!(resolve_performance_image("{\"first\":{\"url\":5}}"), Err(PlatformError::Malformed));
    assert_eq!(resolve_performance_image("//img/a.jpg"), Err(PlatformError::Malformed));
    assert_eq!(resolve_performance_image(""), Err(PlatformError::Malformed));
}

#[test]
fn image_address_is_read_from_a_document() {
    let document = Json::Object(vec![JsonMember {
        key: "first".to_string(),
        value: Json::Object(vec![JsonMember {
            key: "url".to_string(),
            value: Json::Text("//i0.hdslb.com/p.png".to_string()),
        }]),
    }]);
    assert_eq!(performance_image_url(&document), Ok("http://i0.hdslb.com/p.png".to_string()));
    assert_eq!(performance_image_url(&Json::Null), Err(PlatformError::Malformed));
}

#[test]
fn project_info_replaces_the_image_field_only() {
    let raw = "{\"first\":{\"url\":\"//img/a.jpg\"}}";
    let before = project("2,1", 1, raw, vec![screen(1, vec![ticket(false)])]);
    let after = project_info(before.clone()).unwrap();
    assert_eq!(after.performance_image, "http://img/a.jpg");
    assert_eq!(after, Project { performance_image: "http://img/a.jpg".to_string(), ..before });
}

#[test]
fn project_info_refuses_a_project_without_poster() {
    let p = project("2,1", 1, "null", vec![screen(1, vec![ticket(false)])]);
    assert_eq!(project_info(p), Err(PlatformError::Malformed));
}
