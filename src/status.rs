use vstd::prelude::*;

verus! {

/// The operations of the API.
#[derive(Clone, Copy, PartialEq, Eq, Structural, Debug)]
pub enum Operation {
    ListModels,
    GetModel,
    CountMessageTokens,
    GenerateEmbeddings,
    Chat,
    GenerateText,
}

impl Operation {
    /// The operation names one model in its path.
    pub open spec fn addresses_model(self) -> bool {
        self != Operation::ListModels
    }

    /// The operation sends free-form content that the service may reject.
    pub open spec fn takes_content(self) -> bool {
        self != Operation::ListModels && self != Operation::GetModel
    }
}

/// A sampling parameter that a model may supply a default for.
#[derive(Clone, Copy, PartialEq, Eq, Structural, Debug)]
pub enum Parameter {
    Temperature,
    TopP,
    TopK,
}

/// Every way in which an operation can fail.
#[derive(PartialEq, Eq, Debug)]
pub enum ApiError {
    /// The API key was refused (401 or 403); retrying with the same key is useless.
    AuthError,
    /// The named model does not exist or does not support the operation (404).
    NotFound(String),
    /// The service rejected the content of the request (400).
    BadRequest(String),
    /// The model has no default for a parameter that the request left unset.
    MissingDefault(Parameter),
    /// A success response whose body did not have the expected shape.
    MalformedResponse,
    /// Any other status code, as received.
    Unexpected(u16),
}

/// How a status code reads for an operation, before any body is looked at.
#[derive(Clone, Copy, PartialEq, Eq, Structural, Debug)]
pub enum StatusClass {
    Success,
    Auth,
    NotFound,
    BadRequest,
    Unexpected,
}

pub open spec fn spec_status_class(op: Operation, status: u16) -> StatusClass {
    if status == 200 {
        StatusClass::Success
    } else if status == 401 || status == 403 {
        StatusClass::Auth
    } else if status == 404 && op.addresses_model() {
        StatusClass::NotFound
    } else if status == 400 && op.takes_content() {
        StatusClass::BadRequest
    } else {
        StatusClass::Unexpected
    }
}

/// Reads a status code for an operation.
pub fn status_class(op: Operation, status: u16) -> (c: StatusClass)
    ensures
        c == spec_status_class(op, status),
{
    if status == 200 {
        StatusClass::Success
    } else if status == 401 || status == 403 {
        StatusClass::Auth
    } else if status == 404 && op != Operation::ListModels {
        StatusClass::NotFound
    } else if status == 400 && op != Operation::ListModels && op != Operation::GetModel {
        StatusClass::BadRequest
    } else {
        StatusClass::Unexpected
    }
}

/// The detail that a rejected request of an operation carries.
pub open spec fn bad_request_detail(op: Operation) -> Seq<char> {
    if op == Operation::Chat || op == Operation::GenerateText {
        "Bad Request"@
    } else {
        "Message not found"@
    }
}

/// `e` is the error that status `status` gives for `op` on the model named `model`.
pub open spec fn is_error_for(op: Operation, status: u16, model: Seq<char>, e: ApiError) -> bool {
    match spec_status_class(op, status) {
        StatusClass::Success => false,
        StatusClass::Auth => e == ApiError::AuthError,
        StatusClass::NotFound => e matches ApiError::NotFound(m) && m@ == model,
        StatusClass::BadRequest => e matches ApiError::BadRequest(d) && d@ == bad_request_detail(op),
        StatusClass::Unexpected => e == ApiError::Unexpected(status),
    }
}

/// What a decoded success body gives: its value, or a malformed response.
pub open spec fn decoded<T>(o: Option<T>) -> Result<T, ApiError> {
    match o {
        Some(v) => Ok(v),
        None => Err(ApiError::MalformedResponse),
    }
}

/// Reads the status of a response to `op` on `model`: `Ok` where its body
/// is to be decoded, else the error that the status stands for.
pub fn classify_status(op: Operation, status: u16, model: &String) -> (r: Result<(), ApiError>)
    ensures
        r is Ok <==> status == 200,
        r matches Err(e) ==> is_error_for(op, status, model@, e),
        status == 401 || status == 403 ==> r == Err::<(), ApiError>(ApiError::AuthError),
        status == 404 && op.addresses_model() ==> (r matches Err(ApiError::NotFound(m))
            && m@ == model@),
{
    match status_class(op, status) {
        StatusClass::Success => Ok(()),
        StatusClass::Auth => Err(ApiError::AuthError),
        StatusClass::NotFound => Err(ApiError::NotFound(model.clone())),
        StatusClass::BadRequest => {
            if op == Operation::Chat || op == Operation::GenerateText {
                Err(ApiError::BadRequest(String::from_str("Bad Request")))
            } else {
                Err(ApiError::BadRequest(String::from_str("Message not found")))
            }
        },
        StatusClass::Unexpected => Err(ApiError::Unexpected(status)),
    }
}

/// Turns a response to `op` on `model` into the operation's result. The
/// body is handed to `decode` only where the status is 200; a body that
/// `decode` cannot read gives `MalformedResponse`.
pub fn classify<T, F: FnOnce(&str) -> Option<T>>(
    op: Operation,
    status: u16,
    model: &String,
    body: &str,
    decode: F,
) -> (r: Result<T, ApiError>)
    requires
        status == 200 ==> decode.requires((body,)),
    ensures
        status == 200 ==> exists|o: Option<T>| decode.ensures((body,), o) && r == decoded(o),
        status != 200 ==> (r matches Err(e) && is_error_for(op, status, model@, e)),
        status == 401 || status == 403 ==> r == Err::<T, ApiError>(ApiError::AuthError),
        status == 404 && op.addresses_model() ==> (r matches Err(ApiError::NotFound(m))
            && m@ == model@),
{
    match classify_status(op, status, model) {
        Ok(()) => {
            let o = decode(body);
            let r = match o {
                Some(v) => Ok(v),
                None => Err(ApiError::MalformedResponse),
            };
            assert(decode.ensures((body,), o) && r == decoded(o));
            r
        },
        Err(e) => Err(e),
    }
}

} // verus!
