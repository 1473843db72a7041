use vstd::prelude::*;

use crate::product::Product;

verus! {

/// Request to create an instant-transfer payment.  The amount is in the
/// minor unit of the currency (cents).
#[derive(Clone, Debug, PartialEq)]
pub struct PixCreate {
    pub amount: u64,
    pub payer_email: String,
    pub payer_cpf: String,
}

/// Request to charge a card.  The amount is in the minor unit of the
/// currency (cents).
#[derive(Clone, Debug, PartialEq)]
pub struct CardCreate {
    pub amount: u64,
    pub number: String,
    pub cvv: String,
    pub payer_email: String,
    pub payer_name: String,
    pub payer_cpf: String,
    pub expiration_year: usize,
    pub expiration_month: usize,
}

/// Request to open a payment-collection page.  The amount is in the minor
/// unit of the currency (cents).
#[derive(Clone, Debug, PartialEq)]
pub struct Checkout {
    pub amount: u64,
    pub title: String,
    pub thumbnail: String,
    pub description: String,
    pub single_use: bool,
    pub products: Vec<Product>,
}

/// A payment-creation request, one variant per payment method.
#[derive(Clone, Debug, PartialEq)]
pub enum PaymentCreate {
    Checkout(Checkout),
    Card(CardCreate),
    Pix(PixCreate),
}

/// Acknowledgement that the gateway received a payment, by its id.
#[derive(Clone, Debug, PartialEq)]
pub struct PaymentReceived {
    pub payment_id: usize,
}

} // verus!
