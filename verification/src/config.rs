//! What the client remembers between two frames and between two runs: the
//! session, the orders last seen, and the choices made on screen.

use vstd::prelude::*;
use crate::model::{NamePhoneForm, Order, OrderType, Project, Ticket, TicketView};

verus! {

/// The remembered state of the client.
///
/// `cookie` and `is_login` are the session: a login writes both, once. The
/// order list is the snapshot of the last completed poll and is only ever
/// replaced as a whole.
#[derive(Clone, Debug, PartialEq)]
pub struct Config {
    pub ticket_count: String,
    pub name_phone_form: NamePhoneForm,
    pub loaded_user_head: bool,
    pub order_type: OrderType,
    pub select_order_id: String,
    pub is_select_ticket: bool,
    pub ticket: Ticket,
    pub screen_id: i64,
    pub is_got_project: bool,
    pub project_image_url: String,
    pub show_paying_qr: bool,
    pub project: Option<Project>,
    pub target_project: String,
    pub user_name: String,
    pub user_head_img_url: String,
    pub orders: Vec<Order>,
    pub cookie: String,
    pub is_login: bool,
    pub pay_code: String,
}

/// The remembered state with its texts as plain characters.
pub struct ConfigView {
    pub ticket_count: Seq<char>,
    pub name_phone_form: (Seq<char>, Seq<char>),
    pub loaded_user_head: bool,
    pub order_type: OrderType,
    pub select_order_id: Seq<char>,
    pub is_select_ticket: bool,
    pub ticket: TicketView,
    pub screen_id: i64,
    pub is_got_project: bool,
    pub project_image_url: Seq<char>,
    pub show_paying_qr: bool,
    pub project: Option<Project>,
    pub target_project: Seq<char>,
    pub user_name: Seq<char>,
    pub user_head_img_url: Seq<char>,
    pub orders: Seq<Order>,
    pub cookie: Seq<char>,
    pub is_login: bool,
    pub pay_code: Seq<char>,
}

impl ConfigView {
    /// The state of a client that has never run: one ticket to buy, nobody
    /// logged in, nothing chosen, no order seen.
    pub open spec fn initial() -> ConfigView {
        ConfigView {
            ticket_count: seq!['1'],
            name_phone_form: (Seq::empty(), Seq::empty()),
            loaded_user_head: false,
            order_type: OrderType::Anonymous,
            select_order_id: Seq::empty(),
            is_select_ticket: false,
            ticket: TicketView::blank(),
            screen_id: 0,
            is_got_project: false,
            project_image_url: Seq::empty(),
            show_paying_qr: false,
            project: None,
            target_project: Seq::empty(),
            user_name: Seq::empty(),
            user_head_img_url: Seq::empty(),
            orders: Seq::empty(),
            cookie: Seq::empty(),
            is_login: false,
            pay_code: Seq::empty(),
        }
    }
}

impl View for Config {
    type V = ConfigView;

    open spec fn view(&self) -> ConfigView {
        ConfigView {
            ticket_count: self.ticket_count@,
            name_phone_form: self.name_phone_form@,
            loaded_user_head: self.loaded_user_head,
            order_type: self.order_type,
            select_order_id: self.select_order_id@,
            is_select_ticket: self.is_select_ticket,
            ticket: self.ticket@,
            screen_id: self.screen_id,
            is_got_project: self.is_got_project,
            project_image_url: self.project_image_url@,
            show_paying_qr: self.show_paying_qr,
            project: self.project,
            target_project: self.target_project@,
            user_name: self.user_name@,
            user_head_img_url: self.user_head_img_url@,
            orders: self.orders@,
            cookie: self.cookie@,
            is_login: self.is_login,
            pay_code: self.pay_code@,
        }
    }
}

impl Default for Config {
    fn default() -> (config: Config)
        ensures
            config@ == ConfigView::initial(),
    {
        let mut ticket_count = String::new();
        ticket_count.push('1');
        assert(ticket_count@ =~= seq!['1']);
        Config {
            ticket_count,
            name_phone_form: NamePhoneForm::default(),
            loaded_user_head: false,
            order_type: OrderType::Anonymous,
            select_order_id: String::new(),
            is_select_ticket: false,
            ticket: Ticket::default(),
            screen_id: 0,
            is_got_project: false,
            project_image_url: String::new(),
            project: None,
            target_project: String::new(),
            user_name: String::new(),
            user_head_img_url: String::new(),
            orders: Vec::new(),
            cookie: String::new(),
            is_login: false,
            pay_code: String::new(),
            show_paying_qr: false,
        }
    }
}

/// The state a client starts from when nothing was saved.
pub fn load_config() -> (config: Config)
    ensures
        config@ == ConfigView::initial(),
{
    Config::default()
}

} // verus!
