//! The platform's records: orders, the project / screen / ticket catalog, the
//! registered buyers, and the small forms a purchase starts from.

use vstd::prelude::*;
use crate::text::same_text;

verus! {

/// A registered real-name buyer of the account.
#[derive(Clone, Debug, PartialEq)]
pub struct Buyer {
    pub id: i64,
    pub uid: i64,
    pub account_channel: String,
    pub personal_id: String,
    pub name: String,
    pub id_card_front: String,
    pub id_card_back: String,
    pub is_default: i8,
    pub tel: String,
    pub error_code: i64,
    pub id_type: i64,
    pub verify_status: i64,
    pub account_id: i64,
}

/// What an order was placed for.
#[derive(Clone, Debug, PartialEq)]
pub struct ItemInfo {
    pub name: String,
    pub img: String,
    pub screen_id: i32,
    pub screen_name: String,
    pub express_fee: i32,
    pub express_free_flag: i32,
    pub deliver_type: i32,
    pub screen_type: i32,
    pub link_id: i32,
    pub ticket_type: i32,
    pub time: i32,
    pub ticket_type_name: String,
}

/// A picture with its caption.
#[derive(Clone, Debug, PartialEq)]
pub struct Img {
    pub url: String,
    pub desc: String,
}

/// One order as the platform lists it. Its identity is `order_id`; this crate
/// only observes orders and never changes one.
#[derive(Clone, Debug, PartialEq)]
pub struct Order {
    pub order_id: String,
    pub uid: String,
    pub order_type: i32,
    pub item_id: i32,
    pub item_info: ItemInfo,
    pub count: i32,
    pub total_money: i32,
    pub pay_money: i32,
    pub express_fee: i32,
    pub pay_channel: i32,
    pub status: i32,
    pub sub_status: i32,
    pub refund_status: i32,
    pub pay_time: i32,
    pub ctime: String,
    pub source: String,
    pub ticket_agent: String,
    pub img: Img,
    pub current_time: i32,
    pub deliver_type_name: String,
    pub free_deliver: bool,
    pub create_at: i32,
    pub pay_remain_time: i32,
    pub sub_status_name: String,
}

/// The label the platform gives an order that still waits for its payment.
pub open spec fn awaiting_payment_label() -> Seq<char> {
    "待支付"@
}

impl Order {
    /// Whether the order still waits for its payment.
    pub open spec fn awaits_payment(&self) -> bool {
        self.sub_status_name@ == awaiting_payment_label()
    }

    /// Whether the order still waits for its payment: only then are the
    /// payment code and the cancellation offered.
    pub fn is_awaiting_payment(&self) -> (r: bool)
        ensures
            r == self.awaits_payment(),
    {
        same_text(self.sub_status_name.as_str(), "待支付")
    }
}

/// A ticket on sale within a screen.
#[derive(Clone, Debug, PartialEq)]
pub struct Ticket {
    pub id: i64,
    pub anonymous_buy: bool,
    pub price: u64,
    pub desc: String,
    pub sale_start: String,
    pub sale_end: String,
    pub sale_type: i32,
    pub is_sale: i32,
    pub screen_name: String,
    pub click_able: bool,
}

/// A ticket with its texts as plain characters.
pub struct TicketView {
    pub id: i64,
    pub anonymous_buy: bool,
    pub price: u64,
    pub desc: Seq<char>,
    pub sale_start: Seq<char>,
    pub sale_end: Seq<char>,
    pub sale_type: i32,
    pub is_sale: i32,
    pub screen_name: Seq<char>,
    pub click_able: bool,
}

impl TicketView {
    /// The ticket that stands for "none chosen yet": every number zero,
    /// every flag off, every text empty.
    pub open spec fn blank() -> TicketView {
        TicketView {
            id: 0,
            anonymous_buy: false,
            price: 0,
            desc: Seq::empty(),
            sale_start: Seq::empty(),
            sale_end: Seq::empty(),
            sale_type: 0,
            is_sale: 0,
            screen_name: Seq::empty(),
            click_able: false,
        }
    }
}

impl View for Ticket {
    type V = TicketView;

    open spec fn view(&self) -> TicketView {
        TicketView {
            id: self.id,
            anonymous_buy: self.anonymous_buy,
            price: self.price,
            desc: self.desc@,
            sale_start: self.sale_start@,
            sale_end: self.sale_end@,
            sale_type: self.sale_type,
            is_sale: self.is_sale,
            screen_name: self.screen_name@,
            click_able: self.click_able,
        }
    }
}

impl Default for Ticket {
    fn default() -> (t: Ticket)
        ensures
            t@ == TicketView::blank(),
    {
        Ticket {
            id: 0,
            anonymous_buy: false,
            price: 0,
            desc: String::new(),
            sale_start: String::new(),
            sale_end: String::new(),
            sale_type: 0,
            is_sale: 0,
            screen_name: String::new(),
            click_able: false,
        }
    }
}

/// A sale session of a project, with the tickets it offers.
#[derive(Clone, Debug, PartialEq)]
pub struct Screen {
    pub id: i64,
    pub delivery_type: i32,
    pub start_time: u64,
    pub name: String,
    pub type_: i32,
    pub ticket_type: i32,
    pub screen_type: i32,
    pub ticket_list: Vec<Ticket>,
}

/// An event on sale, with its screens.
#[derive(Clone, Debug, PartialEq)]
pub struct Project {
    pub buyer_info: String,
    pub need_contact: i32,
    pub name: String,
    pub status: i32,
    pub is_sale: i32,
    pub start_time: u64,
    pub end_time: u64,
    pub sale_begin: i64,
    pub sale_end: u64,
    pub sale_start: u64,
    pub performance_image: String,
    pub screen_list: Vec<Screen>,
}

/// Contact details of an unregistered buyer.
#[derive(Clone, Debug, PartialEq)]
pub struct NamePhoneForm {
    pub name: String,
    pub phone: String,
}

impl View for NamePhoneForm {
    type V = (Seq<char>, Seq<char>);

    open spec fn view(&self) -> (Seq<char>, Seq<char>) {
        (self.name@, self.phone@)
    }
}

impl Default for NamePhoneForm {
    fn default() -> (f: NamePhoneForm)
        ensures
            f@ == (Seq::<char>::empty(), Seq::<char>::empty()),
    {
        NamePhoneForm { name: String::new(), phone: String::new() }
    }
}

/// Which details of the buyer a purchase has to carry.
#[derive(Clone, Copy, Debug, PartialEq, Eq, Structural)]
pub enum OrderType {
    Anonymous,
    NamePhone,
    Deliver,
    Buyer,
}

} // verus!
