//! The catalog rules: which details of the buyer a project asks for, and
//! where its poster is found.

use vstd::prelude::*;
use vstd::string::StringExecFns;
use crate::error::{PlatformError, PlatformErrorView};
use crate::json::{parsed_json, Json};
use crate::model::{OrderType, Project};
use crate::text::same_text;

verus! {

/// The delivery type of a screen whose tickets are sent on paper.
pub const PAPER_DELIVERY: i32 = 3;

/// The value of `need_contact` that asks for a name and a phone number.
pub const CONTACT_NEEDED: i32 = 1;

/// The value of `buyer_info` that asks for a registered real-name buyer.
pub open spec fn real_name_marker() -> Seq<char> {
    "2,1"@
}

/// The buyer mode that the four flags of a catalog call for. The first rule
/// that matches wins: an anonymous ticket, then paper delivery, then the
/// real-name marker, then the contact flag. Where none matches there is no
/// answer.
pub open spec fn order_type_rule(
    anonymous_buy: bool,
    delivery_type: i32,
    buyer_info: Seq<char>,
    need_contact: i32,
) -> Option<OrderType> {
    if anonymous_buy {
        Some(OrderType::Anonymous)
    } else if delivery_type == PAPER_DELIVERY {
        Some(OrderType::Deliver)
    } else if buyer_info == real_name_marker() {
        Some(OrderType::Buyer)
    } else if need_contact == CONTACT_NEEDED {
        Some(OrderType::NamePhone)
    } else {
        None
    }
}

/// Classifies the buyer mode from the four flags alone.
pub fn classify_order_type(
    anonymous_buy: bool,
    delivery_type: i32,
    buyer_info: &str,
    need_contact: i32,
) -> (mode: Option<OrderType>)
    ensures
        mode == order_type_rule(anonymous_buy, delivery_type, buyer_info@, need_contact),
{
    if anonymous_buy {
        Some(OrderType::Anonymous)
    } else if delivery_type == PAPER_DELIVERY {
        Some(OrderType::Deliver)
    } else if same_text(buyer_info, "2,1") {
        Some(OrderType::Buyer)
    } else if need_contact == CONTACT_NEEDED {
        Some(OrderType::NamePhone)
    } else {
        None
    }
}

/// The precedence of the buyer-mode rules, one rule at a time: each mode is
/// the answer exactly where its own flag is set and the flag of no earlier
/// rule is.
pub proof fn lemma_order_type_precedence(
    anonymous_buy: bool,
    delivery_type: i32,
    buyer_info: Seq<char>,
    need_contact: i32,
)
    ensures
        order_type_rule(anonymous_buy, delivery_type, buyer_info, need_contact) == Some(
            OrderType::Anonymous,
        ) <==> anonymous_buy,
        order_type_rule(anonymous_buy, delivery_type, buyer_info, need_contact) == Some(
            OrderType::Deliver,
        ) <==> !anonymous_buy && delivery_type == PAPER_DELIVERY,
        order_type_rule(anonymous_buy, delivery_type, buyer_info, need_contact) == Some(
            OrderType::Buyer,
        ) <==> !anonymous_buy && delivery_type != PAPER_DELIVERY && buyer_info
            == real_name_marker(),
        order_type_rule(anonymous_buy, delivery_type, buyer_info, need_contact) == Some(
            OrderType::NamePhone,
        ) <==> !anonymous_buy && delivery_type != PAPER_DELIVERY && buyer_info
            != real_name_marker() && need_contact == CONTACT_NEEDED,
        order_type_rule(anonymous_buy, delivery_type, buyer_info, need_contact) is None
            <==> !anonymous_buy && delivery_type != PAPER_DELIVERY && buyer_info
            != real_name_marker() && need_contact != CONTACT_NEEDED,
{
}

impl Project {
    /// Whether the project has a first screen with a first ticket: the two
    /// that the buyer mode is read from.
    pub open spec fn has_first_ticket(&self) -> bool {
        self.screen_list@.len() > 0 && self.screen_list@[0].ticket_list@.len() > 0
    }

    /// The buyer mode of the project, by the rule over the first ticket of
    /// its first screen, the delivery type of that screen, and its own two
    /// flags.
    pub open spec fn spec_order_type(&self) -> Option<OrderType> {
        order_type_rule(
            self.screen_list@[0].ticket_list@[0].anonymous_buy,
            self.screen_list@[0].delivery_type,
            self.buyer_info@,
            self.need_contact,
        )
    }

    /// The buyer mode the project asks for, `Ok(None)` where no rule
    /// matches. A project without a first screen, or whose first screen has
    /// no ticket, is answered with [`PlatformError::Malformed`].
    pub fn order_type(&self) -> (r: Result<Option<OrderType>, PlatformError>)
        ensures
            self.has_first_ticket() ==> r == Ok::<Option<OrderType>, PlatformError>(
                self.spec_order_type(),
            ),
            !self.has_first_ticket() ==> r == Err::<Option<OrderType>, PlatformError>(
                PlatformError::Malformed,
            ),
    {
        if self.screen_list.len() == 0 {
            return Err(PlatformError::Malformed);
        }
        let screen = &self.screen_list[0];
        if screen.ticket_list.len() == 0 {
            return Err(PlatformError::Malformed);
        }
        Ok(
            classify_order_type(
                screen.ticket_list[0].anonymous_buy,
                screen.delivery_type,
                self.buyer_info.as_str(),
                self.need_contact,
            ),
        )
    }
}

/// The scheme put in front of the poster's address.
pub open spec fn image_scheme() -> Seq<char> {
    "http:"@
}

/// The full address of the poster that a decoded image field names: the
/// scheme followed by the string `first.url`. `None` where the field was no
/// JSON document or the document has no such string.
pub open spec fn image_address(decoded: Option<Json>) -> Option<Seq<char>> {
    match decoded {
        Some(doc) => match doc.member("first"@) {
            Some(first) => match first.member("url"@) {
                Some(url) => match url.text() {
                    Some(relative) => Some(image_scheme() + relative),
                    None => None,
                },
                None => None,
            },
            None => None,
        },
        None => None,
    }
}

/// The full address of the poster in a decoded image field: the scheme
/// `http:` in front of the string `first.url`.
pub fn performance_image_url(doc: &Json) -> (r: Result<String, PlatformError>)
    ensures
        match r {
            Ok(url) => image_address(Some(*doc)) == Some(url@),
            Err(e) => image_address(Some(*doc)) is None && e == PlatformError::Malformed,
        },
{
    match doc.get("first") {
        Some(first) => match first.get("url") {
            Some(url) => match url.as_str() {
                Some(relative) => {
                    let mut address = String::from_str("http:");
                    address.append(relative);
                    Ok(address)
                },
                None => Err(PlatformError::Malformed),
            },
            None => Err(PlatformError::Malformed),
        },
        None => Err(PlatformError::Malformed),
    }
}

/// Decodes the image field of a project, which holds a JSON document as
/// text, and yields the full address of the poster.
pub fn resolve_performance_image(raw: &str) -> (r: Result<String, PlatformError>)
    ensures
        match r {
            Ok(url) => image_address(parsed_json(raw@)) == Some(url@),
            Err(e) => image_address(parsed_json(raw@)) is None && e == PlatformError::Malformed,
        },
{
    match Json::parse(raw) {
        Ok(doc) => performance_image_url(&doc),
        Err(_) => Err(PlatformError::Malformed),
    }
}

/// Finishes a project as the platform sent it: the image field, which
/// arrives as a JSON document in text, is replaced by the full address of
/// the poster. Nothing else changes.
pub fn project_info(project: Project) -> (r: Result<Project, PlatformError>)
    ensures
        match r {
            Ok(done) => {
                &&& image_address(parsed_json(project.performance_image@)) == Some(
                    done.performance_image@,
                )
                &&& done == (Project { performance_image: done.performance_image, ..project })
            },
            Err(e) => {
                &&& image_address(parsed_json(project.performance_image@)) is None
                &&& e == PlatformError::Malformed
            },
        },
{
    let mut project = project;
    match resolve_performance_image(project.performance_image.as_str()) {
        Ok(url) => {
            project.performance_image = url;
            Ok(project)
        },
        Err(e) => Err(e),
    }
}

} // verus!
