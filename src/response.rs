use vstd::prelude::*;

verus! {

/// Error codes surfaced to the client.
#[derive(Clone, Copy, Debug, PartialEq, Eq, Structural)]
pub enum ErrorCode {
    QuotaExceeded,
    InsufficientBalance,
    PaymentFailed,
    NotImplemented,
    Other,
}

/// The wire name of an error code.
pub open spec fn error_code_name(c: ErrorCode) -> Seq<char> {
    match c {
        ErrorCode::QuotaExceeded => "QUOTA_EXCEEDED"@,
        ErrorCode::InsufficientBalance => "INSUFFICIENT_BALANCE"@,
        ErrorCode::PaymentFailed => "PAYMENT_FAILED"@,
        ErrorCode::NotImplemented => "NOT_IMPLEMENTED"@,
        ErrorCode::Other => "OTHER"@,
    }
}

impl ErrorCode {
    /// The wire name of this code.
    pub fn name(&self) -> (r: &'static str)
        ensures
            r@ == error_code_name(*self),
    {
        match self {
            ErrorCode::QuotaExceeded => "QUOTA_EXCEEDED",
            ErrorCode::InsufficientBalance => "INSUFFICIENT_BALANCE",
            ErrorCode::PaymentFailed => "PAYMENT_FAILED",
            ErrorCode::NotImplemented => "NOT_IMPLEMENTED",
            ErrorCode::Other => "OTHER",
        }
    }
}

/// An error answer: a code and a human-readable message.
pub struct NwcError {
    pub code: ErrorCode,
    pub message: String,
}

/// What the node reports about itself.
pub struct NodeInfo {
    pub alias: String,
    pub color: String,
    pub pubkey: String,
    pub network: String,
    pub block_height: u32,
    pub block_hash: String,
}

/// The answer to an invoice lookup.
pub struct LookupResult {
    pub invoice: String,
    pub description: Option<String>,
    pub description_hash: Option<String>,
    pub preimage: Option<String>,
    pub payment_hash: String,
    pub amount: u64,
    pub fees_paid: u64,
    pub created_at: u64,
    pub expires_at: u64,
    pub settled_at: Option<u64>,
}

/// The success payload of each method.
pub enum ResponseResult {
    PayInvoice { preimage: String },
    PayKeysend { preimage: String },
    MakeInvoice { invoice: String, payment_hash: String },
    LookupInvoice(LookupResult),
    GetBalance { balance: u64 },
    GetInfo { node: NodeInfo, methods: Vec<String> },
}

/// The answer to one command: a payload or an error, never both.
pub struct Response {
    /// Wire name of the method answered.
    pub result_type: String,
    pub error: Option<NwcError>,
    pub result: Option<ResponseResult>,
}

impl Response {
    /// Exactly one of payload and error is present.
    pub open spec fn wf(&self) -> bool {
        self.error is Some != self.result is Some
    }

    /// The error code, when this is an error answer.
    pub open spec fn code(&self) -> Option<ErrorCode> {
        match self.error {
            Some(e) => Some(e.code),
            None => None,
        }
    }

    /// A success answer.
    pub fn success(result_type: &str, result: ResponseResult) -> (r: Response)
        ensures
            r.wf(),
            r.result_type@ == result_type@,
            r.error is None,
            r.result == Some(result),
    {
        Response { result_type: result_type.to_owned(), error: None, result: Some(result) }
    }

    /// An error answer.
    pub fn failure(result_type: &str, code: ErrorCode, message: String) -> (r: Response)
        ensures
            r.wf(),
            r.result_type@ == result_type@,
            r.result is None,
            r.error matches Some(e) && e.code == code && e.message == message,
    {
        Response {
            result_type: result_type.to_owned(),
            error: Some(NwcError { code, message }),
            result: None,
        }
    }
}

} // verus!
