use vstd::prelude::*;

use crate::text_eq;

verus! {

/// Best-known classification of a payment, as reported by the gateway.
///
/// The set is closed: every status string the gateway can emit maps to one
/// of these, and anything unrecognized degrades to `Unknown` rather than to
/// an error.  `Rejected` carries the free-text cause supplied by the gateway.
#[derive(Clone, Debug, PartialEq)]
pub enum Status {
    Rejected(String),
    Cancelled,
    Approved,
    Refunded,
    Pending,
    Unknown,
}

/// Mathematical shape of a [`Status`]: the rejection cause as a character
/// sequence.
pub enum StatusModel {
    Rejected(Seq<char>),
    Cancelled,
    Approved,
    Refunded,
    Pending,
    Unknown,
}

impl View for Status {
    type V = StatusModel;

    open spec fn view(&self) -> StatusModel {
        match self {
            Status::Rejected(cause) => StatusModel::Rejected(cause@),
            Status::Cancelled => StatusModel::Cancelled,
            Status::Approved => StatusModel::Approved,
            Status::Refunded => StatusModel::Refunded,
            Status::Pending => StatusModel::Pending,
            Status::Unknown => StatusModel::Unknown,
        }
    }
}

/// What [`transform`] returns: the five status words the gateway documents
/// map to their variants, `"rejected"` carrying the cause verbatim; every
/// other string (the empty one included) maps to `Unknown`.
pub open spec fn transform_model(api: Seq<char>, complement: Seq<char>) -> StatusModel {
    if api == "rejected"@ {
        StatusModel::Rejected(complement)
    } else if api == "cancelled"@ {
        StatusModel::Cancelled
    } else if api == "approved"@ {
        StatusModel::Approved
    } else if api == "refunded"@ {
        StatusModel::Refunded
    } else if api == "pending"@ {
        StatusModel::Pending
    } else {
        StatusModel::Unknown
    }
}

/// Total, case-sensitive mapping from a raw gateway status string to
/// [`Status`].  `complement` is the rejection cause and is only meaningful
/// when `api` is exactly `"rejected"`.
pub fn transform(api: String, complement: String) -> (status: Status)
    ensures
        status@ == transform_model(api@, complement@),
{
    if text_eq(api.as_str(), "rejected") {
        Status::Rejected(complement)
    } else if text_eq(api.as_str(), "cancelled") {
        Status::Cancelled
    } else if text_eq(api.as_str(), "approved") {
        Status::Approved
    } else if text_eq(api.as_str(), "refunded") {
        Status::Refunded
    } else if text_eq(api.as_str(), "pending") {
        Status::Pending
    } else {
        Status::Unknown
    }
}

/// The normalizer is total: any status string outside the five the gateway
/// documents classifies as `Unknown`, and a `"rejected"` status carries its
/// cause into the result verbatim.
pub proof fn lemma_transform_total(api: Seq<char>, complement: Seq<char>)
    ensures
        api != "rejected"@ && api != "cancelled"@ && api != "approved"@ && api != "refunded"@
            && api != "pending"@ ==> transform_model(api, complement) is Unknown,
        transform_model("rejected"@, complement) == StatusModel::Rejected(complement),
{
}

} // verus!
