use vstd::prelude::*;

pub mod fetch;
pub mod payment;
pub mod product;
pub mod reconcile;
pub mod response;
pub mod status;

verus! {

/// Exact character-for-character equality of two string slices.
pub fn text_eq(a: &str, b: &str) -> (r: bool)
    ensures
        r == (a@ == b@),
{
    let owned_a = String::from_str(a);
    let owned_b = String::from_str(b);
    owned_a == owned_b
}

/// The transport handle the payment calls go through: the gateway's base
/// URL and the authorization header sent with every request.
///
/// The base URL starts out empty; the embedding application, which owns
/// the transport, fills it in before issuing requests.
#[derive(Clone, Debug, PartialEq)]
pub struct Payments {
    pub api: String,
    pub auth: String,
}

impl Payments {
    /// Build the transport handle around a ready authorization header.
    pub fn call(auth: String) -> (payments: Payments)
        ensures
            payments.auth == auth,
            payments.api@ == Seq::<char>::empty(),
    {
        Payments { api: String::new(), auth }
    }
}

/// A logged-in handle to the payment gateway: the caller's access key and
/// the transport credentials derived from it.
#[derive(Clone, Debug, PartialEq)]
pub struct Client {
    pub auth: String,
    pub payments: Payments,
}

impl Client {
    /// Enter an access key.  The key itself is kept, and the bearer
    /// header sent with every payment call is derived from it.
    ///
    /// Do not share this key with anyone.
    pub fn login(auth: &str) -> (client: Client)
        ensures
            client.auth@ == auth@,
            client.payments.auth@ == "Bearer "@ + auth@,
            client.payments.api@ == Seq::<char>::empty(),
    {
        let payments = Payments::call(String::from_str("Bearer ").concat(auth));
        Client { auth: String::from_str(auth), payments }
    }
}

} // verus!
