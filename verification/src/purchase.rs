//! The purchase pipeline: reserve, then create, strictly in this order.
//!
//! A [`Purchase`] is one attempt. The shell posts the reservation, reports
//! its answer to [`Purchase::reserved`], posts the form that comes back, and
//! reports that answer to [`Purchase::created`]. A failure at either step
//! ends the attempt: nothing is tried again, and a new attempt needs a new
//! reservation.

use vstd::prelude::*;
use vstd::string::StringExecFns;
use crate::client::{BiliTicket, BiliTicketView};
use crate::error::{PlatformError, PlatformErrorView};
use crate::form::{CreateForm, PrepareForm, CLICK_LEAD_MS, ORDINARY_ORDER};
use crate::model::NamePhoneForm;
use crate::text::{parse_i64, parse_u8, parsed_signed, parsed_unsigned};

verus! {

/// Why an attempt cannot start.
#[derive(Clone, Copy, Debug, PartialEq, Eq, Structural)]
pub enum PurchaseRefusal {
    /// No ticket was asked for.
    ZeroCount,
    /// The amount to pay does not fit 64 bits.
    AmountTooLarge,
}

/// Where an attempt stands.
#[derive(Debug, PartialEq)]
pub enum PurchasePhase {
    /// The reservation is under way.
    Reserving,
    /// The reservation was redeemed; the creation is under way.
    Creating,
    /// The order exists, under this id.
    Succeeded(u64),
    /// The attempt failed, for this reason.
    Failed(PlatformError),
}

/// A phase with the words of its failure as plain characters.
pub enum PurchasePhaseView {
    Reserving,
    Creating,
    Succeeded(u64),
    Failed(PlatformErrorView),
}

impl View for PurchasePhase {
    type V = PurchasePhaseView;

    open spec fn view(&self) -> PurchasePhaseView {
        match self {
            PurchasePhase::Reserving => PurchasePhaseView::Reserving,
            PurchasePhase::Creating => PurchasePhaseView::Creating,
            PurchasePhase::Succeeded(id) => PurchasePhaseView::Succeeded(*id),
            PurchasePhase::Failed(e) => PurchasePhaseView::Failed(e@),
        }
    }
}

/// An answer that reaches an attempt.
pub enum PurchaseEvent {
    /// The answer to the reservation: a token or a failure.
    Reserved(Result<Seq<char>, PlatformErrorView>),
    /// The answer to the creation: an order id or a failure.
    Created(Result<u64, PlatformErrorView>),
}

impl PurchasePhaseView {
    /// Whether the attempt is over.
    pub open spec fn is_final(self) -> bool {
        self is Succeeded || self is Failed
    }

    /// Whether an answer makes the attempt send the creation: only a token
    /// that arrives while reserving does.
    pub open spec fn sends_create(self, event: PurchaseEvent) -> bool {
        self is Reserving && event matches PurchaseEvent::Reserved(Ok(_))
    }

    /// The phase after an answer. An answer that the phase does not wait
    /// for changes nothing.
    pub open spec fn step(self, event: PurchaseEvent) -> PurchasePhaseView {
        match (self, event) {
            (PurchasePhaseView::Reserving, PurchaseEvent::Reserved(Ok(_))) => {
                PurchasePhaseView::Creating
            },
            (PurchasePhaseView::Reserving, PurchaseEvent::Reserved(Err(e))) => {
                PurchasePhaseView::Failed(e)
            },
            (PurchasePhaseView::Creating, PurchaseEvent::Created(Ok(id))) => {
                PurchasePhaseView::Succeeded(id)
            },
            (PurchasePhaseView::Creating, PurchaseEvent::Created(Err(e))) => {
                PurchasePhaseView::Failed(e)
            },
            _ => self,
        }
    }

    /// The phase after a run of answers.
    pub open spec fn after(self, events: Seq<PurchaseEvent>) -> PurchasePhaseView
        decreases events.len(),
    {
        if events.len() == 0 {
            self
        } else {
            self.after(events.drop_last()).step(events.last())
        }
    }

    /// How many creations a run of answers makes the attempt send.
    pub open spec fn creations(self, events: Seq<PurchaseEvent>) -> nat
        decreases events.len(),
    {
        if events.len() == 0 {
            0
        } else if self.after(events.drop_last()).sends_create(events.last()) {
            self.creations(events.drop_last()) + 1
        } else {
            self.creations(events.drop_last())
        }
    }
}

/// An attempt that is past its reservation never reserves again: whatever
/// answers arrive, it sends no creation and does not go back to reserving.
/// An attempt that is over stays exactly as it is.
pub proof fn lemma_purchase_never_retries(phase: PurchasePhaseView, events: Seq<PurchaseEvent>)
    requires
        !(phase is Reserving),
    ensures
        phase.creations(events) == 0,
        !(phase.after(events) is Reserving),
        phase.is_final() ==> phase.after(events) == phase,
    decreases events.len(),
{
    if events.len() > 0 {
        lemma_purchase_never_retries(phase, events.drop_last());
    }
}

/// An attempt sends at most one creation, whatever answers arrive, and none
/// unless the reservation came back with a token while it was reserving.
pub proof fn lemma_purchase_creates_at_most_once(
    phase: PurchasePhaseView,
    events: Seq<PurchaseEvent>,
)
    ensures
        phase.creations(events) <= 1,
        phase.creations(events) == 1 ==> !(phase.after(events) is Reserving),
        phase.after(events) is Reserving ==> phase is Reserving,
    decreases events.len(),
{
    if events.len() > 0 {
        lemma_purchase_creates_at_most_once(phase, events.drop_last());
    }
}

/// One attempt to buy: what is asked for, for whom, at which unit price, and
/// how far it has come.
#[derive(Debug)]
pub struct Purchase {
    request: PrepareForm,
    contact: NamePhoneForm,
    unit_price: u64,
    phase: PurchasePhase,
}

impl Purchase {
    #[verifier::type_invariant]
    spec fn well_formed(&self) -> bool {
        self.request.count >= 1 && self.unit_price * self.request.count <= u64::MAX
    }

    /// What the attempt asks for.
    pub closed spec fn spec_request(&self) -> PrepareForm {
        self.request
    }

    /// The name and the phone number the attempt is made for.
    pub closed spec fn spec_contact(&self) -> (Seq<char>, Seq<char>) {
        self.contact@
    }

    /// The price of one ticket.
    pub closed spec fn spec_unit_price(&self) -> u64 {
        self.unit_price
    }

    /// How far the attempt has come.
    pub closed spec fn spec_phase(&self) -> PurchasePhaseView {
        self.phase@
    }

    /// What the attempt asks for: the form of its reservation.
    pub fn request(&self) -> (request: &PrepareForm)
        ensures
            *request == self.spec_request(),
            request.count >= 1,
            self.spec_unit_price() * request.count <= u64::MAX,
    {
        proof {
            use_type_invariant(self);
        }
        &self.request
    }

    /// The price of one ticket.
    pub fn unit_price(&self) -> (price: u64)
        ensures
            price == self.spec_unit_price(),
    {
        self.unit_price
    }

    /// How far the attempt has come.
    pub fn phase(&self) -> (phase: &PurchasePhase)
        ensures
            phase@ == self.spec_phase(),
    {
        &self.phase
    }

    /// Starts an attempt for `request` at `unit_price` a ticket. An attempt
    /// for no ticket at all is refused, and so is one whose amount would not
    /// fit 64 bits: for neither is anything ever sent.
    pub fn start(request: PrepareForm, contact: NamePhoneForm, unit_price: u64) -> (r: Result<
        Purchase,
        PurchaseRefusal,
    >)
        ensures
            match r {
                Ok(purchase) => {
                    &&& request.count >= 1
                    &&& unit_price * request.count <= u64::MAX
                    &&& purchase.spec_request() == request
                    &&& purchase.spec_contact() == contact@
                    &&& purchase.spec_unit_price() == unit_price
                    &&& purchase.spec_phase() is Reserving
                },
                Err(PurchaseRefusal::ZeroCount) => request.count == 0,
                Err(PurchaseRefusal::AmountTooLarge) => request.count >= 1 && unit_price
                    * request.count > u64::MAX,
            },
    {
        if request.count == 0 {
            return Err(PurchaseRefusal::ZeroCount);
        }
        match unit_price.checked_mul(request.count as u64) {
            Some(_) => Ok(Purchase { request, contact, unit_price, phase: PurchasePhase::Reserving }),
            None => Err(PurchaseRefusal::AmountTooLarge),
        }
    }

    /// Takes the answer to the reservation.
    ///
    /// With a token, while reserving, the payload of the creation comes
    /// back, built at `constructed_ms` and sent at `sent_ms` (clock readings
    /// in milliseconds since the epoch), and the attempt goes on to
    /// creating. A failure ends the attempt before any payload is built. An
    /// attempt that is not reserving ignores the answer.
    pub fn reserved(
        &mut self,
        answer: Result<String, PlatformError>,
        constructed_ms: u128,
        sent_ms: u128,
    ) -> (form: Option<CreateForm>)
        requires
            constructed_ms >= CLICK_LEAD_MS,
        ensures
            final(self).spec_request() == old(self).spec_request(),
            final(self).spec_contact() == old(self).spec_contact(),
            final(self).spec_unit_price() == old(self).spec_unit_price(),
            final(self).spec_phase() == old(self).spec_phase().step(
                PurchaseEvent::Reserved(
                    match answer {
                        Ok(token) => Ok(token@),
                        Err(e) => Err(e@),
                    },
                ),
            ),
            form is Some <==> old(self).spec_phase() is Reserving && answer is Ok,
            form matches Some(payload) ==> answer matches Ok(token) && payload.is_payload_for(
                old(self).spec_request(),
                old(self).spec_unit_price(),
                token@,
                constructed_ms,
                sent_ms,
                old(self).spec_contact().0,
                old(self).spec_contact().1,
            ),
    {
        proof {
            use_type_invariant(&*self);
        }
        match self.phase {
            PurchasePhase::Reserving => {},
            _ => {
                return None;
            },
        }
        match answer {
            Ok(token) => {
                let payload = CreateForm::derive(
                    &self.request,
                    self.unit_price,
                    token,
                    constructed_ms,
                    sent_ms,
                    &self.contact,
                );
                self.phase = PurchasePhase::Creating;
                Some(payload)
            },
            Err(e) => {
                self.phase = PurchasePhase::Failed(e);
                None
            },
        }
    }

    /// Takes the answer to the creation: the attempt has succeeded with the
    /// order's id, or failed with the platform's reason. An attempt that is
    /// not creating ignores the answer.
    pub fn created(&mut self, answer: Result<u64, PlatformError>)
        ensures
            final(self).spec_request() == old(self).spec_request(),
            final(self).spec_contact() == old(self).spec_contact(),
            final(self).spec_unit_price() == old(self).spec_unit_price(),
            final(self).spec_phase() == old(self).spec_phase().step(
                PurchaseEvent::Created(
                    match answer {
                        Ok(id) => Ok(id),
                        Err(e) => Err(e@),
                    },
                ),
            ),
    {
        proof {
            use_type_invariant(&*self);
        }
        match self.phase {
            PurchasePhase::Creating => {},
            _ => {
                return ;
            },
        }
        match answer {
            Ok(id) => {
                self.phase = PurchasePhase::Succeeded(id);
            },
            Err(e) => {
                self.phase = PurchasePhase::Failed(e);
            },
        }
    }
}

impl BiliTicketView {
    /// The client after the outcome of an attempt was reported: a line for
    /// a success, a line with the reason for a failure, nothing while the
    /// attempt is still under way.
    pub open spec fn purchase_reported(self, phase: PurchasePhaseView) -> BiliTicketView {
        match phase {
            PurchasePhaseView::Succeeded(_) => self.printed("购票成功"@),
            PurchasePhaseView::Failed(e) => self.printed(
                "购票失败，错误信息: "@ + e.reason() + "\n"@,
            ),
            _ => self,
        }
    }
}

impl BiliTicket {
    /// The reservation that the text fields ask for: an ordinary order for
    /// the ticket and the screen chosen on screen, of the project and in the
    /// count that the fields name. `None` where the project is no id or the
    /// count no count.
    pub fn prepare_form(&self) -> (form: Option<PrepareForm>)
        ensures
            form == match (
                parsed_signed(self.config.target_project@, i64::MAX as nat),
                parsed_unsigned(self.config.ticket_count@, 255),
            ) {
                (Some(project_id), Some(count)) => Some(
                    PrepareForm {
                        project_id: project_id as i64,
                        screen_id: self.config.screen_id,
                        sku_id: self.config.ticket.id,
                        order_type: ORDINARY_ORDER,
                        count: count as u8,
                    },
                ),
                _ => None,
            },
    {
        let project_id = match parse_i64(self.config.target_project.as_str()) {
            Some(project_id) => project_id,
            None => {
                return None;
            },
        };
        let count = match parse_u8(self.config.ticket_count.as_str()) {
            Some(count) => count,
            None => {
                return None;
            },
        };
        Some(
            PrepareForm {
                project_id,
                screen_id: self.config.screen_id,
                order_type: ORDINARY_ORDER,
                count,
                sku_id: self.config.ticket.id,
            },
        )
    }

    /// Starts an attempt to buy what `prepare_form` asks for, for the
    /// contact `anonymous_form`, at the price of the ticket chosen on
    /// screen.
    ///
    /// Asking for no ticket is refused with a line on the terminal, and
    /// nothing is sent. The same holds, without a line, for an amount that
    /// does not fit 64 bits.
    pub fn buy_ticket_now(&mut self, prepare_form: PrepareForm, anonymous_form: NamePhoneForm) -> (r:
        Result<Purchase, PurchaseRefusal>)
        ensures
            match r {
                Ok(purchase) => {
                    &&& prepare_form.count >= 1
                    &&& old(self).config.ticket.price * prepare_form.count <= u64::MAX
                    &&& purchase.spec_request() == prepare_form
                    &&& purchase.spec_contact() == anonymous_form@
                    &&& purchase.spec_unit_price() == old(self).config.ticket.price
                    &&& purchase.spec_phase() is Reserving
                    &&& final(self)@ == old(self)@
                },
                Err(PurchaseRefusal::ZeroCount) => {
                    &&& prepare_form.count == 0
                    &&& final(self)@ == old(self)@.printed("购买数量不能为0\n"@)
                },
                Err(PurchaseRefusal::AmountTooLarge) => {
                    &&& prepare_form.count >= 1
                    &&& old(self).config.ticket.price * prepare_form.count > u64::MAX
                    &&& final(self)@ == old(self)@
                },
            },
    {
        let started = Purchase::start(prepare_form, anonymous_form, self.config.ticket.price);
        match &started {
            Err(PurchaseRefusal::ZeroCount) => {
                self.print_terminal("购买数量不能为0\n");
            },
            _ => {},
        }
        started
    }

    /// Prints the outcome of an attempt: that the purchase succeeded, or
    /// that it failed and why. An attempt still under way prints nothing.
    pub fn report_purchase(&mut self, purchase: &Purchase)
        ensures
            final(self)@ == old(self)@.purchase_reported(purchase.spec_phase()),
    {
        match purchase.phase() {
            PurchasePhase::Succeeded(_) => {
                self.print_terminal("购票成功");
            },
            PurchasePhase::Failed(e) => {
                let mut line = String::from_str("购票失败，错误信息: ");
                let reason = e.reason();
                line.append(reason.as_str());
                line.append("\n");
                self.print_terminal(line.as_str());
            },
            _ => {},
        }
    }
}

} // verus!
