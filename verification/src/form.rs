//! The two forms of a purchase and the way they are written for the wire.
//!
//! The reservation form is a flat list of fields. The creation form carries
//! the click position as JSON text inside one of its fields: the platform
//! expects the encoding nested in this way, character for character.

use vstd::prelude::*;
use vstd::string::StringExecFns;
use crate::model::NamePhoneForm;
use crate::text::{
    bool_text, decimal, push_decimal, signed_decimal, signed_text, truth_text, unsigned_text,
};

verus! {

/// One field of a form, in the order and under the name the platform reads it.
#[derive(Clone, Debug, PartialEq)]
pub struct FormField {
    pub name: String,
    pub value: String,
}

impl View for FormField {
    type V = (Seq<char>, Seq<char>);

    open spec fn view(&self) -> (Seq<char>, Seq<char>) {
        (self.name@, self.value@)
    }
}

/// The names and values of a list of fields.
pub open spec fn fields_view(fields: Seq<FormField>) -> Seq<(Seq<char>, Seq<char>)> {
    fields.map_values(|f: FormField| f@)
}

fn push_field(fields: &mut Vec<FormField>, name: &str, value: String)
    ensures
        fields_view(final(fields)@) == fields_view(old(fields)@).push((name@, value@)),
{
    let field = FormField { name: String::from_str(name), value };
    fields.push(field);
    assert(fields_view(fields@) =~= fields_view(old(fields)@).push((name@, value@)));
}

/// The order type of an ordinary purchase.
pub const ORDINARY_ORDER: i32 = 1;

/// What a reservation asks for.
#[derive(Clone, Debug, PartialEq)]
pub struct PrepareForm {
    pub project_id: i64,
    pub screen_id: i64,
    pub sku_id: i64,
    pub order_type: i32,
    pub count: u8,
}

impl Default for PrepareForm {
    fn default() -> (f: PrepareForm)
        ensures
            f.project_id == 0,
            f.screen_id == 0,
            f.sku_id == 0,
            f.order_type == 0,
            f.count == 0,
    {
        PrepareForm { project_id: 0, screen_id: 0, sku_id: 0, order_type: 0, count: 0 }
    }
}

impl PrepareForm {
    /// The fields of the reservation request.
    pub open spec fn spec_form_fields(&self) -> Seq<(Seq<char>, Seq<char>)> {
        seq![
            ("project_id"@, signed_decimal(self.project_id as int)),
            ("screen_id"@, signed_decimal(self.screen_id as int)),
            ("sku_id"@, signed_decimal(self.sku_id as int)),
            ("order_type"@, signed_decimal(self.order_type as int)),
            ("count"@, decimal(self.count as nat)),
        ]
    }

    /// The fields of the reservation request, in the order they are sent.
    pub fn form_fields(&self) -> (fields: Vec<FormField>)
        ensures
            fields_view(fields@) == self.spec_form_fields(),
    {
        let mut fields: Vec<FormField> = Vec::new();
        assert(fields_view(fields@) =~= Seq::empty());
        push_field(&mut fields, "project_id", signed_text(self.project_id));
        push_field(&mut fields, "screen_id", signed_text(self.screen_id));
        push_field(&mut fields, "sku_id", signed_text(self.sku_id));
        push_field(&mut fields, "order_type", signed_text(self.order_type as i64));
        push_field(&mut fields, "count", unsigned_text(self.count as u128));
        assert(fields_view(fields@) =~= self.spec_form_fields());
        fields
    }
}

/// Where and when the purchase button counts as clicked.
#[derive(Clone, Copy, Debug, PartialEq, Eq, Structural)]
pub struct ClickPosition {
    pub x: u32,
    pub y: u32,
    /// Milliseconds since the epoch at which the button counts as pressed.
    pub origin: u128,
    /// Milliseconds since the epoch at which the request is sent.
    pub now: u128,
}

/// The horizontal coordinate every click is reported at.
pub const CLICK_X: u32 = 935;

/// The vertical coordinate every click is reported at.
pub const CLICK_Y: u32 = 786;

/// How long before the construction of the payload the button counts as
/// pressed, in milliseconds.
pub const CLICK_LEAD_MS: u128 = 1000;

impl ClickPosition {
    /// The click position as compact JSON text.
    pub open spec fn spec_json(&self) -> Seq<char> {
        "{\"x\":"@ + decimal(self.x as nat) + ",\"y\":"@ + decimal(self.y as nat)
            + ",\"origin\":"@ + decimal(self.origin as nat) + ",\"now\":"@ + decimal(
            self.now as nat,
        ) + "}"@
    }

    /// The click position as compact JSON text: an object of the four
    /// members `x`, `y`, `origin` and `now`, in this order, without blanks.
    pub fn to_json(&self) -> (text: String)
        ensures
            text@ == self.spec_json(),
    {
        let mut text = String::from_str("{\"x\":");
        push_decimal(&mut text, self.x as u128);
        text.append(",\"y\":");
        push_decimal(&mut text, self.y as u128);
        text.append(",\"origin\":");
        push_decimal(&mut text, self.origin);
        text.append(",\"now\":");
        push_decimal(&mut text, self.now);
        text.append("}");
        text
    }
}

/// What the creation of an order sends: the reservation it redeems and the
/// details the platform uses to tell a person from a script.
#[derive(Clone, Debug, PartialEq)]
pub struct CreateForm {
    pub project_id: i64,
    pub screen_id: i64,
    pub sku_id: i64,
    pub count: u8,
    pub pay_money: u64,
    pub order_type: i32,
    pub timestamp: u128,
    pub token: String,
    pub device_id: String,
    pub click_position: ClickPosition,
    pub new_risk: bool,
    pub request_source: String,
    pub buyer: String,
    pub tel: String,
}

impl CreateForm {
    /// Whether this form is the payload that redeems `token` for `request`
    /// at `unit_price` each, built at `constructed_ms` and sent at `sent_ms`
    /// (both in milliseconds since the epoch) for the contact `name` and
    /// `phone`.
    pub open spec fn is_payload_for(
        &self,
        request: PrepareForm,
        unit_price: u64,
        token: Seq<char>,
        constructed_ms: u128,
        sent_ms: u128,
        name: Seq<char>,
        phone: Seq<char>,
    ) -> bool {
        &&& self.project_id == request.project_id
        &&& self.screen_id == request.screen_id
        &&& self.sku_id == request.sku_id
        &&& self.count == request.count
        &&& self.pay_money == unit_price * request.count
        &&& self.order_type == ORDINARY_ORDER
        &&& self.timestamp == constructed_ms
        &&& self.token@ == token
        &&& self.device_id@ == Seq::<char>::empty()
        &&& self.click_position == (ClickPosition {
            x: CLICK_X,
            y: CLICK_Y,
            origin: (constructed_ms - CLICK_LEAD_MS) as u128,
            now: sent_ms,
        })
        &&& !self.new_risk
        &&& self.request_source@ == "pc-new"@
        &&& self.buyer@ == name
        &&& self.tel@ == phone
    }

    /// Builds the payload that redeems a reservation.
    ///
    /// The amount is the unit price times the count. The click counts as
    /// pressed one second before `constructed_ms`, the clock reading taken
    /// when the payload is built; `sent_ms` is the second reading, taken when
    /// the request leaves. The device id is empty, the risk flag off and the
    /// source `pc-new`.
    pub fn derive(
        request: &PrepareForm,
        unit_price: u64,
        token: String,
        constructed_ms: u128,
        sent_ms: u128,
        contact: &NamePhoneForm,
    ) -> (form: CreateForm)
        requires
            request.count >= 1,
            unit_price * request.count <= u64::MAX,
            constructed_ms >= CLICK_LEAD_MS,
        ensures
            form.is_payload_for(
                *request,
                unit_price,
                token@,
                constructed_ms,
                sent_ms,
                contact.name@,
                contact.phone@,
            ),
    {
        CreateForm {
            project_id: request.project_id,
            screen_id: request.screen_id,
            sku_id: request.sku_id,
            count: request.count,
            pay_money: unit_price * (request.count as u64),
            order_type: ORDINARY_ORDER,
            timestamp: constructed_ms,
            token,
            device_id: String::new(),
            click_position: ClickPosition {
                x: CLICK_X,
                y: CLICK_Y,
                origin: constructed_ms - CLICK_LEAD_MS,
                now: sent_ms,
            },
            new_risk: false,
            request_source: String::from_str("pc-new"),
            buyer: contact.name.clone(),
            tel: contact.phone.clone(),
        }
    }

    /// The fields of the creation request. The click position travels as
    /// JSON text inside the field `clickPosition`.
    pub open spec fn spec_form_fields(&self) -> Seq<(Seq<char>, Seq<char>)> {
        seq![
            ("project_id"@, signed_decimal(self.project_id as int)),
            ("screen_id"@, signed_decimal(self.screen_id as int)),
            ("sku_id"@, signed_decimal(self.sku_id as int)),
            ("count"@, decimal(self.count as nat)),
            ("pay_money"@, decimal(self.pay_money as nat)),
            ("order_type"@, signed_decimal(self.order_type as int)),
            ("timestamp"@, decimal(self.timestamp as nat)),
            ("token"@, self.token@),
            ("deviceId"@, self.device_id@),
            ("clickPosition"@, self.click_position.spec_json()),
            ("newRisk"@, bool_text(self.new_risk)),
            ("requestSource"@, self.request_source@),
            ("buyer"@, self.buyer@),
            ("tel"@, self.tel@),
        ]
    }

    /// The fields of the creation request, in the order they are sent.
    pub fn form_fields(&self) -> (fields: Vec<FormField>)
        ensures
            fields_view(fields@) == self.spec_form_fields(),
    {
        let mut fields: Vec<FormField> = Vec::new();
        assert(fields_view(fields@) =~= Seq::empty());
        push_field(&mut fields, "project_id", signed_text(self.project_id));
        push_field(&mut fields, "screen_id", signed_text(self.screen_id));
        push_field(&mut fields, "sku_id", signed_text(self.sku_id));
        push_field(&mut fields, "count", unsigned_text(self.count as u128));
        push_field(&mut fields, "pay_money", unsigned_text(self.pay_money as u128));
        push_field(&mut fields, "order_type", signed_text(self.order_type as i64));
        push_field(&mut fields, "timestamp", unsigned_text(self.timestamp));
        push_field(&mut fields, "token", self.token.clone());
        push_field(&mut fields, "deviceId", self.device_id.clone());
        push_field(&mut fields, "clickPosition", self.click_position.to_json());
        push_field(&mut fields, "newRisk", truth_text(self.new_risk));
        push_field(&mut fields, "requestSource", self.request_source.clone());
        push_field(&mut fields, "buyer", self.buyer.clone());
        push_field(&mut fields, "tel", self.tel.clone());
        assert(fields_view(fields@) =~= self.spec_form_fields());
        fields
    }
}

} // verus!
