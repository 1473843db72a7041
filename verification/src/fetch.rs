use vstd::prelude::*;

verus! {

/// One string-valued member of the gateway's `data` object: absent,
/// present as a JSON string, or present with some other JSON type.
#[derive(Clone, Debug, PartialEq)]
pub enum Field {
    Absent,
    Text(String),
    NotText,
}

/// Mathematical shape of a [`Field`].
pub enum FieldModel {
    Absent,
    Text(Seq<char>),
    NotText,
}

impl View for Field {
    type V = FieldModel;

    open spec fn view(&self) -> FieldModel {
        match self {
            Field::Absent => FieldModel::Absent,
            Field::Text(text) => FieldModel::Text(text@),
            Field::NotText => FieldModel::NotText,
        }
    }
}

/// The members of a status-lookup response body that this SDK reads, as
/// the JSON parser finds them: the body may fail to parse at all, may lack
/// the `data` member every well-formed reply carries, or carries the three
/// string members `data.error`, `data.status` and `data.cause`.
#[derive(Clone, Debug, PartialEq)]
pub enum BodyFields {
    Unparsed,
    MissingData,
    Fields { error: Field, status: Field, cause: Field },
}

/// Mathematical shape of a [`BodyFields`].
pub enum BodyFieldsModel {
    Unparsed,
    MissingData,
    Fields { error: FieldModel, status: FieldModel, cause: FieldModel },
}

impl View for BodyFields {
    type V = BodyFieldsModel;

    open spec fn view(&self) -> BodyFieldsModel {
        match self {
            BodyFields::Unparsed => BodyFieldsModel::Unparsed,
            BodyFields::MissingData => BodyFieldsModel::MissingData,
            BodyFields::Fields { error, status, cause } => BodyFieldsModel::Fields {
                error: error@,
                status: status@,
                cause: cause@,
            },
        }
    }
}

/// The fields that the JSON parser reads out of a status-lookup body: a
/// function of the text alone.
pub uninterp spec fn body_fields_of(body: Seq<char>) -> BodyFieldsModel;

/// Relies on `serde_json::from_str`, which succeeds exactly on the JSON
/// text it accepts (well-formed and within its recursion limit, the rest
/// answered with an error, never a panic), `serde_json::Value::get`, which
/// returns the member of an object under the given key and `None` when
/// there is none, and `serde_json::Value::as_str`, which returns `Some`
/// exactly when the value is a JSON string.  All three depend on the body
/// text alone.
#[verifier::external_body]
fn read_body_fields(body: &str) -> (fields: BodyFields)
    ensures
        fields@ == body_fields_of(body@),
{
    let document: serde_json::Value = match serde_json::from_str(body) {
        Ok(value) => value,
        Err(_) => return BodyFields::Unparsed,
    };
    let data = match document.get("data") { Some(data) => data, None => return BodyFields::MissingData };
    let member = |value: Option<&serde_json::Value>| match value.map(|v| v.as_str()) {
        None => Field::Absent,
        Some(None) => Field::NotText,
        Some(Some(text)) => Field::Text(text.to_string()),
    };
    BodyFields::Fields { error: member(data.get("error")), status: member(data.get("status")), cause: member(data.get("cause")) }
}

/// What one status-lookup round trip yielded, reduced to plain values.
///
/// `Transport` stands for a round trip that failed outright — the request
/// could not be sent or its reply not read — and carries the transport's
/// own message; `Malformed` for a reply that is not a JSON document or
/// whose expected members are absent or carry the wrong JSON type;
/// `GatewayError` for an explicit `data.error`;
/// `Observed` for a reported status with its optional cause; and
/// `NoStatus` for a well-formed reply that reports no status.
#[derive(Clone, Debug, PartialEq)]
pub enum FetchOutcome {
    Transport(String),
    Malformed,
    GatewayError(String),
    Observed { status: String, cause: Option<String> },
    NoStatus,
}

/// Mathematical shape of a [`FetchOutcome`].
pub enum FetchOutcomeModel {
    Transport(Seq<char>),
    Malformed,
    GatewayError(Seq<char>),
    Observed { status: Seq<char>, cause: Option<Seq<char>> },
    NoStatus,
}

impl View for FetchOutcome {
    type V = FetchOutcomeModel;

    open spec fn view(&self) -> FetchOutcomeModel {
        match self {
            FetchOutcome::Transport(message) => FetchOutcomeModel::Transport(message@),
            FetchOutcome::Malformed => FetchOutcomeModel::Malformed,
            FetchOutcome::GatewayError(message) => FetchOutcomeModel::GatewayError(message@),
            FetchOutcome::Observed { status, cause } => FetchOutcomeModel::Observed {
                status: status@,
                cause: match cause {
                    Some(text) => Some(text@),
                    None => None,
                },
            },
            FetchOutcome::NoStatus => FetchOutcomeModel::NoStatus,
        }
    }
}

/// How a status-lookup body classifies once its members are in hand.
///
/// A body that is not JSON, lacks the `data` member, or types one of the
/// read members as something other than a string is malformed.  Otherwise
/// an explicit `data.error` wins over everything else, then a reported
/// status with its optional cause, and a body with neither is `NoStatus`.
pub open spec fn classify_model(fields: BodyFieldsModel) -> FetchOutcomeModel {
    match fields {
        BodyFieldsModel::Unparsed => FetchOutcomeModel::Malformed,
        BodyFieldsModel::MissingData => FetchOutcomeModel::Malformed,
        BodyFieldsModel::Fields { error, status, cause } => match error {
            FieldModel::Text(message) => FetchOutcomeModel::GatewayError(message),
            FieldModel::NotText => FetchOutcomeModel::Malformed,
            FieldModel::Absent => match status {
                FieldModel::NotText => FetchOutcomeModel::Malformed,
                FieldModel::Absent => FetchOutcomeModel::NoStatus,
                FieldModel::Text(reported) => match cause {
                    FieldModel::NotText => FetchOutcomeModel::Malformed,
                    FieldModel::Absent => FetchOutcomeModel::Observed {
                        status: reported,
                        cause: None,
                    },
                    FieldModel::Text(text) => FetchOutcomeModel::Observed {
                        status: reported,
                        cause: Some(text),
                    },
                },
            },
        },
    }
}

/// Classify the body of one status-lookup reply.  The result is exactly
/// [`classify_model`] of the members the JSON parser finds in the text.
pub fn classify_fetch(body: &str) -> (outcome: FetchOutcome)
    ensures
        outcome@ == classify_model(body_fields_of(body@)),
{
    match read_body_fields(body) {
        BodyFields::Unparsed => FetchOutcome::Malformed,
        BodyFields::MissingData => FetchOutcome::Malformed,
        BodyFields::Fields { error, status, cause } => match error {
            Field::Text(message) => FetchOutcome::GatewayError(message),
            Field::NotText => FetchOutcome::Malformed,
            Field::Absent => match status {
                Field::NotText => FetchOutcome::Malformed,
                Field::Absent => FetchOutcome::NoStatus,
                Field::Text(reported) => match cause {
                    Field::NotText => FetchOutcome::Malformed,
                    Field::Absent => FetchOutcome::Observed { status: reported, cause: None },
                    Field::Text(text) => FetchOutcome::Observed {
                        status: reported,
                        cause: Some(text),
                    },
                },
            },
        },
    }
}

} // verus!
