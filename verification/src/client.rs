//! The client without its window: the state that the screen shows and the
//! steps that change it. The shell holds one [`BiliTicket`], performs the
//! network calls, and reports each answer by calling the step for it.

use vstd::prelude::*;
use vstd::string::StringExecFns;
use crate::api::qr_image_url;
use crate::catalog::{image_address, project_info};
use crate::config::{load_config, Config, ConfigView};
use crate::error::PlatformError;
use crate::json::parsed_json;
use crate::model::{Project, Screen, Ticket};
use crate::text::{
    decimal, ends_with_newline, escape_ampersands, has_final_newline, parse_u64, parse_u8,
    parsed_unsigned, unsigned_text,
};

verus! {

/// The client: the lines it has printed, the login code on show, what it
/// remembers, and the two flags that guard its background loops.
#[derive(Debug)]
pub struct BiliTicket {
    pub terminal_buffer: String,
    pub show_login_qr: bool,
    pub login_qr_url: String,
    pub config: Config,
    /// Set while a login poll loop is running.
    pub logging: bool,
    /// Set while the order monitor is meant to run.
    pub handler_order: bool,
}

/// The client with its texts as plain characters.
pub struct BiliTicketView {
    pub terminal_buffer: Seq<char>,
    pub show_login_qr: bool,
    pub login_qr_url: Seq<char>,
    pub config: ConfigView,
    pub logging: bool,
    pub handler_order: bool,
}

impl View for BiliTicket {
    type V = BiliTicketView;

    open spec fn view(&self) -> BiliTicketView {
        BiliTicketView {
            terminal_buffer: self.terminal_buffer@,
            show_login_qr: self.show_login_qr,
            login_qr_url: self.login_qr_url@,
            config: self.config@,
            logging: self.logging,
            handler_order: self.handler_order,
        }
    }
}

impl BiliTicketView {
    /// A client that has printed nothing and runs no loop, over `config`.
    pub open spec fn fresh(config: ConfigView) -> BiliTicketView {
        BiliTicketView {
            terminal_buffer: Seq::empty(),
            show_login_qr: false,
            login_qr_url: Seq::empty(),
            config,
            logging: false,
            handler_order: false,
        }
    }

    /// The client after `line` was printed: the line starts on a line of its
    /// own, so a line feed goes in first unless the terminal ends in one.
    pub open spec fn printed(self, line: Seq<char>) -> BiliTicketView {
        BiliTicketView {
            terminal_buffer: if ends_with_newline(self.terminal_buffer) {
                self.terminal_buffer + line
            } else {
                self.terminal_buffer.push('\n') + line
            },
            ..self
        }
    }

    /// The client with its payment code put away.
    pub open spec fn without_payment(self) -> BiliTicketView {
        BiliTicketView {
            config: ConfigView {
                show_paying_qr: false,
                pay_code: Seq::empty(),
                select_order_id: Seq::empty(),
                ..self.config
            },
            ..self
        }
    }

    /// Whether some order of the snapshot still waits for its payment.
    pub open spec fn has_unpaid_order(self) -> bool {
        exists|i: int| 0 <= i < self.config.orders.len() && self.config.orders[i].awaits_payment()
    }
}

/// The count of tickets in the text field after a step up or down. A text
/// that is no count, and a step beyond 0 or 255, leave the text as it is.
pub open spec fn count_stepped(text: Seq<char>, up: bool) -> Seq<char> {
    match parsed_unsigned(text, 255) {
        Some(n) => if up && n < 255 {
            decimal(n + 1)
        } else if !up && n > 0 {
            decimal((n - 1) as nat)
        } else {
            text
        },
        None => text,
    }
}

/// The position of the last of the first `upto` screens that has the id
/// `id`.
pub open spec fn last_screen_with(screens: Seq<Screen>, id: i64, upto: int) -> Option<int>
    decreases upto,
{
    if upto <= 0 {
        None
    } else if screens[upto - 1].id == id {
        Some(upto - 1)
    } else {
        last_screen_with(screens, id, upto - 1)
    }
}

impl Default for BiliTicket {
    fn default() -> (client: BiliTicket)
        ensures
            client@ == BiliTicketView::fresh(ConfigView::initial()),
    {
        BiliTicket {
            terminal_buffer: String::new(),
            show_login_qr: false,
            login_qr_url: String::new(),
            config: load_config(),
            logging: false,
            handler_order: false,
        }
    }
}

impl BiliTicket {
    /// A client over the state that was saved by the last run, or over the
    /// initial state where nothing was saved.
    pub fn new(saved: Option<Config>) -> (client: BiliTicket)
        ensures
            client@ == BiliTicketView::fresh(
                match saved {
                    Some(config) => config@,
                    None => ConfigView::initial(),
                },
            ),
    {
        let config = match saved {
            Some(config) => config,
            None => load_config(),
        };
        BiliTicket {
            terminal_buffer: String::new(),
            show_login_qr: false,
            login_qr_url: String::new(),
            config,
            logging: false,
            handler_order: false,
        }
    }

    /// Prints a line on the terminal, on a line of its own.
    pub fn print_terminal(&mut self, line: &str)
        ensures
            final(self)@ == old(self)@.printed(line@),
    {
        if !has_final_newline(self.terminal_buffer.as_str()) {
            self.terminal_buffer.push('\n');
        }
        self.terminal_buffer.append(line);
    }

    /// Whether the name and the portrait of the account are still to be
    /// fetched: somebody is logged in and they were not fetched yet.
    pub fn user_head_due(&self) -> (due: bool)
        ensures
            due == (self.config.is_login && !self.config.loaded_user_head),
    {
        self.config.is_login && !self.config.loaded_user_head
    }

    /// Takes the name and the portrait of the account, and notes that they
    /// were fetched.
    pub fn get_user_head(&mut self, uname: String, face_img: String)
        ensures
            final(self)@ == (BiliTicketView {
                config: ConfigView {
                    user_name: uname@,
                    user_head_img_url: face_img@,
                    loaded_user_head: true,
                    ..old(self)@.config
                },
                ..old(self)@
            }),
    {
        self.config.user_name = uname;
        self.config.user_head_img_url = face_img;
        self.config.loaded_user_head = true;
    }

    /// Takes the answer to a request for the payment address of the order
    /// `order_id`. With an address, the payment code becomes the picture
    /// that shows it, the code is put on show for this order, and the answer
    /// is `true`; without, a line says so and the answer is `false`.
    pub fn do_paying(&mut self, order_id: String, outcome: Result<String, PlatformError>) -> (shown:
        bool)
        ensures
            shown == outcome is Ok,
            match outcome {
                Ok(address) => final(self)@ == (BiliTicketView {
                    config: ConfigView {
                        pay_code: "https://api.pwmqr.com/qrcode/create/?url="@
                            + escape_ampersands(address@),
                        show_paying_qr: true,
                        select_order_id: order_id@,
                        ..old(self)@.config
                    },
                    ..old(self)@
                }),
                Err(_) => final(self)@ == old(self)@.printed(
                    "请求支付码失败，可能是订单不存在?\n"@,
                ),
            },
    {
        match outcome {
            Ok(address) => {
                self.config.pay_code = qr_image_url(address.as_str());
                self.config.show_paying_qr = true;
                self.config.select_order_id = order_id;
                true
            },
            Err(_) => {
                self.print_terminal("请求支付码失败，可能是订单不存在?\n");
                false
            },
        }
    }

    /// Takes the answer to a cancellation and prints what became of it.
    pub fn cancel_order(&mut self, outcome: Result<(), PlatformError>)
        ensures
            final(self)@ == old(self)@.printed(
                if outcome is Ok {
                    "取消订单成功!\n"@
                } else {
                    "取消订单失败，可能是订单不存在?\n"@
                },
            ),
    {
        match outcome {
            Ok(_) => {
                self.print_terminal("取消订单成功!\n");
            },
            Err(_) => {
                self.print_terminal("取消订单失败，可能是订单不存在?\n");
            },
        }
    }

    /// Whether some order of the snapshot still waits for its payment.
    pub fn has_unpaid_order(&self) -> (found: bool)
        ensures
            found == self@.has_unpaid_order(),
    {
        let mut i: usize = 0;
        while i < self.config.orders.len()
            invariant
                i <= self.config.orders.len(),
                forall|j: int| 0 <= j < i ==> !self.config.orders@[j].awaits_payment(),
            decreases self.config.orders.len() - i,
        {
            if self.config.orders[i].is_awaiting_payment() {
                assert(self@.config.orders[i as int].awaits_payment());
                return true;
            }
            i += 1;
        }
        false
    }

    /// Puts the payment code away: it is no longer shown, and no order is
    /// selected for payment.
    pub fn forget_payment(&mut self)
        ensures
            final(self)@ == old(self)@.without_payment(),
    {
        self.config.show_paying_qr = false;
        self.config.pay_code = String::new();
        self.config.select_order_id = String::new();
    }

    /// Puts the payment code away at the user's wish, and says so.
    pub fn hide_payment(&mut self)
        ensures
            final(self)@ == old(self)@.printed("删除缓存\n"@).without_payment(),
    {
        self.print_terminal("删除缓存\n");
        self.forget_payment();
    }

    /// Puts the payment code away once no order waits for its payment any
    /// more; with such an order in the snapshot nothing changes.
    pub fn settle_payment(&mut self)
        ensures
            old(self)@.has_unpaid_order() ==> final(self)@ == old(self)@,
            !old(self)@.has_unpaid_order() ==> final(self)@ == old(self)@.without_payment(),
    {
        if !self.has_unpaid_order() {
            self.forget_payment();
        }
    }

    /// Starts over for another account: everything remembered is dropped,
    /// session and orders included, and the order monitor is told to stop.
    pub fn change_account(&mut self)
        ensures
            final(self)@ == (BiliTicketView {
                config: ConfigView::initial(),
                handler_order: false,
                ..old(self)@
            }),
    {
        self.config = load_config();
        self.handler_order = false;
    }

    /// Steps the count of tickets in the text field up by one, or down by
    /// one. A text that is no count stays, and so does a count at its end
    /// of the range.
    pub fn step_ticket_count(&mut self, up: bool)
        ensures
            final(self)@ == (BiliTicketView {
                config: ConfigView {
                    ticket_count: count_stepped(old(self)@.config.ticket_count, up),
                    ..old(self)@.config
                },
                ..old(self)@
            }),
    {
        match parse_u8(self.config.ticket_count.as_str()) {
            Some(n) => {
                if up && n < 255 {
                    self.config.ticket_count = unsigned_text((n + 1) as u128);
                } else if !up && n > 0 {
                    self.config.ticket_count = unsigned_text((n - 1) as u128);
                }
            },
            None => {},
        }
    }

    /// Chooses the screen whose tickets are on offer.
    pub fn select_screen(&mut self, screen_id: i64)
        ensures
            final(self)@ == (BiliTicketView {
                config: ConfigView { screen_id, ..old(self)@.config },
                ..old(self)@
            }),
    {
        self.config.screen_id = screen_id;
    }

    /// Chooses the ticket to buy.
    pub fn select_ticket(&mut self, ticket: Ticket)
        ensures
            final(self)@ == (BiliTicketView {
                config: ConfigView {
                    ticket: ticket@,
                    is_select_ticket: true,
                    ..old(self)@.config
                },
                ..old(self)@
            }),
    {
        self.config.ticket = ticket;
        self.config.is_select_ticket = true;
    }

    /// The position, in the project's list, of the screen whose tickets are
    /// on offer: the last screen with the chosen id. `None` without a
    /// project or without such a screen.
    pub fn shown_screen(&self) -> (found: Option<usize>)
        ensures
            match self.config.project {
                Some(project) => match found {
                    Some(i) => last_screen_with(
                        project.screen_list@,
                        self.config.screen_id,
                        project.screen_list@.len() as int,
                    ) == Some(i as int),
                    None => last_screen_with(
                        project.screen_list@,
                        self.config.screen_id,
                        project.screen_list@.len() as int,
                    ) is None,
                },
                None => found is None,
            },
    {
        match &self.config.project {
            Some(project) => {
                let mut i: usize = project.screen_list.len();
                while i > 0
                    invariant
                        i <= project.screen_list.len(),
                        self.config.project == Some(*project),
                        last_screen_with(
                            project.screen_list@,
                            self.config.screen_id,
                            project.screen_list@.len() as int,
                        ) == last_screen_with(
                            project.screen_list@,
                            self.config.screen_id,
                            i as int,
                        ),
                    decreases i,
                {
                    if project.screen_list[i - 1].id == self.config.screen_id {
                        assert(last_screen_with(
                            project.screen_list@,
                            self.config.screen_id,
                            i as int,
                        ) == Some(i - 1));
                        return Some(i - 1);
                    }
                    i -= 1;
                }
                None
            },
            None => None,
        }
    }

    /// Notes that the catalog of the project named in the text field is
    /// being fetched: the ticket chosen before no longer counts, and a line
    /// says that loading began. The answer is the id to fetch, `None` where
    /// the text is no id.
    pub fn begin_project(&mut self) -> (project_id: Option<u64>)
        ensures
            final(self)@ == (BiliTicketView {
                config: ConfigView { is_select_ticket: false, ..old(self)@.config },
                ..old(self)@
            }).printed("加载票品信息...\n"@),
            match project_id {
                Some(id) => parsed_unsigned(old(self)@.config.target_project, u64::MAX as nat)
                    == Some(id as nat),
                None => parsed_unsigned(old(self)@.config.target_project, u64::MAX as nat)
                    is None,
            },
    {
        self.config.is_select_ticket = false;
        self.print_terminal("加载票品信息...\n");
        parse_u64(self.config.target_project.as_str())
    }

    /// Takes the catalog of a project as the platform sent it.
    ///
    /// The poster's address is resolved from the image field, the project is
    /// remembered, and the buyer mode is set by the catalog rule; where no
    /// rule matches the mode stays as it was. A project whose image field
    /// names no poster, or that lacks a first screen with a first ticket, is
    /// refused and nothing changes.
    pub fn get_project(&mut self, project: Project) -> (r: Result<(), PlatformError>)
        ensures
            r is Ok <==> image_address(parsed_json(project.performance_image@)) is Some
                && project.has_first_ticket(),
            match r {
                Ok(_) => {
                    &&& final(self)@.config.project matches Some(kept)
                    &&& Some(kept.performance_image@) == image_address(
                        parsed_json(project.performance_image@),
                    )
                    &&& kept == (Project { performance_image: kept.performance_image, ..project })
                    &&& final(self)@.config.order_type == match project.spec_order_type() {
                        Some(mode) => mode,
                        None => old(self)@.config.order_type,
                    }
                    &&& final(self)@ == (BiliTicketView {
                        config: ConfigView {
                            project: final(self)@.config.project,
                            order_type: final(self)@.config.order_type,
                            ..old(self)@.config
                        },
                        ..old(self)@
                    })
                },
                Err(e) => e == PlatformError::Malformed && final(self)@ == old(self)@,
            },
    {
        let mode = match project.order_type() {
            Ok(mode) => mode,
            Err(e) => {
                return Err(e);
            },
        };
        let done = match project_info(project) {
            Ok(done) => done,
            Err(e) => {
                return Err(e);
            },
        };
        self.config.project = Some(done);
        match mode {
            Some(mode) => {
                self.config.order_type = mode;
            },
            None => {},
        }
        Ok(())
    }

    /// Takes what became of fetching a project's catalog and prints it.
    ///
    /// A catalog that [`BiliTicket::get_project`] accepts is shown: its
    /// poster becomes the picture on screen. Anything else leaves the state
    /// as it was but for the line that reports the failure.
    pub fn confirm_project(&mut self, fetched: Result<Project, PlatformError>) -> (shown: bool)
        ensures
            shown <==> (fetched matches Ok(project) && image_address(
                parsed_json(project.performance_image@),
            ) is Some && project.has_first_ticket()),
            !shown ==> final(self)@ == old(self)@.printed(
                "载入票品信息失败,可能是票品不存在\n"@,
            ),
            shown ==> {
                &&& fetched matches Ok(project)
                &&& final(self)@.config.project matches Some(kept)
                &&& Some(kept.performance_image@) == image_address(
                    parsed_json(project.performance_image@),
                )
                &&& kept == (Project { performance_image: kept.performance_image, ..project })
                &&& final(self)@.config.order_type == match project.spec_order_type() {
                    Some(mode) => mode,
                    None => old(self)@.config.order_type,
                }
                &&& final(self)@ == (BiliTicketView {
                    config: ConfigView {
                        project: final(self)@.config.project,
                        order_type: final(self)@.config.order_type,
                        project_image_url: kept.performance_image@,
                        is_got_project: true,
                        ..old(self)@.config
                    },
                    ..old(self)@
                }).printed("载入商品信息完成\n"@)
            },
    {
        let accepted = match fetched {
            Ok(project) => self.get_project(project).is_ok(),
            Err(_) => false,
        };
        if accepted {
            let address = match &self.config.project {
                Some(kept) => kept.performance_image.clone(),
                None => String::new(),
            };
            self.config.project_image_url = address;
            self.config.is_got_project = true;
            self.print_terminal("载入商品信息完成\n");
            true
        } else {
            self.print_terminal("载入票品信息失败,可能是票品不存在\n");
            false
        }
    }
}

} // verus!
