use vstd::prelude::*;

use crate::status::Status;

verus! {

/// An instant-transfer payment as the gateway reports it: the current
/// status, the gateway-assigned payment id, and the two renderings of the
/// code the payer scans (a base64 image and its literal text).
#[derive(Clone, Debug, PartialEq)]
pub struct Pix {
    pub status: Status,
    pub payment_id: String,
    pub qr_code: String,
    pub literal: String,
}

/// A card charge as the gateway reports it.  Amounts are in the minor unit
/// of the currency (cents), so they are exact integers.
#[derive(Clone, Debug, PartialEq)]
pub struct Card {
    pub status: Status,
    pub payment_id: String,
    pub total_amount: u64,
    pub increase: u64,
}

/// Outcome of a payment-creation call: a tagged union over the three
/// payment shapes.  Exactly one variant is populated per instance, and a
/// value is immutable once built; observing a fresher status means fetching
/// a new instance.
///
/// `Checkout` carries only the URL of a payment-collection page; it stands
/// for no single transaction and so has no status or payment id.
#[derive(PartialEq, Debug, Clone)]
pub enum Response {
    Checkout(String),
    Card(Card),
    Pix(Pix),
}

/// Two-state outcome of a reconciliation run.  The failure arm carries a
/// human-readable cause, which is why this is not a plain boolean.
#[derive(Copy, PartialEq, Debug, Hash, Clone)]
pub enum Verified<T> {
    Fail(T),
    Success,
}

/// A payload shape that can be read back out of a [`Response`].
///
/// The variant set is closed, so extraction is plain pattern matching: each
/// payload type knows which variant carries it (`carried_by`) and what that
/// variant's payload is (`payload_of`), and `extract` succeeds exactly on
/// responses of its own variant.
pub trait RespData: Sized {
    /// Whether the active variant of `response` carries a payload of this
    /// type.
    spec fn carried_by(response: &Response) -> bool;

    /// The payload this type reads out of `response`.
    spec fn payload_of(response: &Response) -> Self
        recommends
            Self::carried_by(response),
    ;

    /// Extract this payload type from `response`, succeeding exactly when
    /// the active variant carries it.
    fn extract(response: &Response) -> (out: Option<&Self>)
        ensures
            out is Some <==> Self::carried_by(response),
            out matches Some(payload) ==> *payload == Self::payload_of(response),
    ;
}

impl RespData for Pix {
    open spec fn carried_by(response: &Response) -> bool {
        response is Pix
    }

    open spec fn payload_of(response: &Response) -> Pix {
        response->Pix_0
    }

    fn extract(response: &Response) -> (out: Option<&Pix>) {
        match response {
            Response::Pix(payment) => Some(payment),
            _ => None,
        }
    }
}

impl RespData for Card {
    open spec fn carried_by(response: &Response) -> bool {
        response is Card
    }

    open spec fn payload_of(response: &Response) -> Card {
        response->Card_0
    }

    fn extract(response: &Response) -> (out: Option<&Card>) {
        match response {
            Response::Card(payment) => Some(payment),
            _ => None,
        }
    }
}

impl RespData for String {
    open spec fn carried_by(response: &Response) -> bool {
        response is Checkout
    }

    open spec fn payload_of(response: &Response) -> String {
        response->Checkout_0
    }

    fn extract(response: &Response) -> (out: Option<&String>) {
        match response {
            Response::Checkout(url) => Some(url),
            _ => None,
        }
    }
}

impl Response {
    /// The gateway-assigned id of the payment this response stands for, or
    /// `None` for a checkout link, which has no payment identity.
    pub open spec fn spec_payment_id(&self) -> Option<Seq<char>> {
        match self {
            Response::Checkout(_) => None,
            Response::Card(payment) => Some(payment.payment_id@),
            Response::Pix(payment) => Some(payment.payment_id@),
        }
    }

    /// Read the payload of a known variant directly, without matching on
    /// the union: `Some` exactly when `T` is the active variant's payload
    /// type, and absence — not an error — otherwise, since asking for the
    /// wrong variant is a caller's mistake rather than a runtime fault.
    pub fn access<T: RespData>(&self) -> (out: Option<&T>)
        ensures
            out is Some <==> T::carried_by(self),
            out matches Some(payload) ==> *payload == T::payload_of(self),
    {
        T::extract(self)
    }
}

/// Accessor round trip for an instant transfer: a response built over a
/// `Pix` payload carries back exactly that payload, and yields absence for
/// every other payload type.
pub proof fn lemma_access_pix(payment: Pix)
    ensures
        <Pix as RespData>::carried_by(&Response::Pix(payment)),
        <Pix as RespData>::payload_of(&Response::Pix(payment)) == payment,
        !<Card as RespData>::carried_by(&Response::Pix(payment)),
        !<String as RespData>::carried_by(&Response::Pix(payment)),
{
}

/// Accessor round trip for a card charge: a response built over a `Card`
/// payload carries back exactly that payload, and yields absence for every
/// other payload type.
pub proof fn lemma_access_card(payment: Card)
    ensures
        <Card as RespData>::carried_by(&Response::Card(payment)),
        <Card as RespData>::payload_of(&Response::Card(payment)) == payment,
        !<Pix as RespData>::carried_by(&Response::Card(payment)),
        !<String as RespData>::carried_by(&Response::Card(payment)),
{
}

/// Accessor round trip for a checkout link: a response built over a URL
/// carries back exactly that URL, and yields absence for every other
/// payload type.
pub proof fn lemma_access_checkout(url: String)
    ensures
        <String as RespData>::carried_by(&Response::Checkout(url)),
        <String as RespData>::payload_of(&Response::Checkout(url)) == url,
        !<Pix as RespData>::carried_by(&Response::Checkout(url)),
        !<Card as RespData>::carried_by(&Response::Checkout(url)),
{
}

} // verus!
