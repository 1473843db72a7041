use vstd::prelude::*;

verus! {

/// A product listed on a checkout page: either described inline or taken
/// from the seller's catalog.
#[derive(Clone, Debug, PartialEq)]
pub enum Product {
    Custom(CustomProduct),
    Cataloged(CatalogedProduct),
}

/// A catalog product referenced by its id, together with whether the sale
/// goes through an affiliate.
#[derive(Clone, Debug, PartialEq)]
pub struct CatalogedProduct {
    pub product_id: String,
    pub affiliation: Affiliation,
}

/// Whether an affiliate takes part in the sale, and if so under which
/// product visibility.
#[derive(Clone, Debug, PartialEq)]
pub enum Affiliation {
    Yes(ProductType),
    No,
}

/// Visibility of an affiliated product: a private one needs the seller's
/// authorization certificate.
#[derive(Clone, Debug, PartialEq)]
pub enum ProductType {
    Private(Authorization),
    Public,
}

/// The certificate that authorizes selling a private catalog product.
#[derive(Clone, Debug, PartialEq)]
pub struct Authorization {
    pub certificate: String,
}

/// A product described inline on the checkout page itself.  The price is
/// in the minor unit of the currency (cents), so it is an exact integer.
#[derive(Clone, Debug, PartialEq)]
pub struct CustomProduct {
    pub price: u64,
    pub thumbnail: String,
    pub name: String,
    pub description: String,
}

impl Authorization {
    /// Wrap an access certificate for a private catalog product.
    pub fn cert(certificate: &str) -> (authorization: Authorization)
        ensures
            authorization.certificate@ == certificate@,
    {
        Authorization { certificate: String::from_str(certificate) }
    }
}

} // verus!
