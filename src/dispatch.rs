use vstd::prelude::*;

use crate::command::{
    expand, method_name, method_names, supported_methods, Command, LookupInvoiceParams,
    MakeInvoiceParams, Method, PayInvoiceParams, PayKeysendParams,
};
use crate::encoding::{decode_hex, encode_hex, hex_decoded, hex_encoded};
use crate::quota::{
    live, quota_error_message, quota_violation, remaining_of, reserve_step, total, Payment,
    QuotaError, QuotaLedger, SessionLimits,
};
use crate::response::{LookupResult, NodeInfo, ErrorCode, Response, ResponseResult};

verus! {

/// Expiry, in seconds, of an invoice created without one.
pub const DEFAULT_INVOICE_EXPIRY_SECS: u64 = 86400;

/// Relies on `bitcoin::secp256k1::PublicKey::from_str`: whether a string is
/// the hex encoding of a valid node public key.
pub uninterp spec fn node_pubkey_valid(s: Seq<char>) -> bool;

/// Relies on `bitcoin::secp256k1::PublicKey::from_str` (through bitcoin's
/// re-export): the answer depends on the string alone.
#[verifier::external_body]
fn parse_node_pubkey(s: &str) -> (r: bool)
    ensures
        r == node_pubkey_valid(s@),
{
    <bitcoin::secp256k1::PublicKey as core::str::FromStr>::from_str(s).is_ok()
}

/// The amount of an invoice payment in millisatoshis: the invoice's own
/// amount, else the one the request names, else zero.
pub open spec fn invoice_payment_msats(invoice_msats: Option<u64>, requested: Option<u64>) -> u64 {
    match invoice_msats {
        Some(a) => a,
        None => match requested {
            Some(a) => a,
            None => 0,
        },
    }
}

/// The amount, in millisatoshis, an invoice payment is checked and paid for.
pub fn pay_invoice_msats(invoice_msats: Option<u64>, requested: Option<u64>) -> (r: u64)
    ensures
        r == invoice_payment_msats(invoice_msats, requested),
{
    match invoice_msats {
        Some(a) => a,
        None => match requested {
            Some(a) => a,
            None => 0,
        },
    }
}

/// The answer to a payment the quota gate refused.
pub fn quota_rejection(method: Method, e: QuotaError) -> (r: Response)
    ensures
        r.wf(),
        r.result_type@ == method_name(method),
        r.code() == Some(ErrorCode::QuotaExceeded),
        r.error matches Some(err) && err.message@ == quota_error_message(e),
{
    Response::failure(method.name(), ErrorCode::QuotaExceeded, e.message().to_owned())
}

/// Runs the quota gate for a payment of `msats` at time `now`: on success
/// the amount is reserved and its record returned, otherwise the ledger only
/// drops stale entries and the quota-exceeded answer is returned.
pub fn start_payment(ledger: &mut QuotaLedger, method: Method, msats: u64, now: u64) -> (r: Result<
    Payment,
    Response,
>)
    requires
        old(ledger).wf(),
    ensures
        final(ledger).wf(),
        final(ledger).spec_limits() == old(ledger).spec_limits(),
        final(ledger)@ == reserve_step(old(ledger)@, old(ledger).spec_limits(), now, msats),
        match quota_violation(old(ledger).spec_limits(), total(live(old(ledger)@, now)), msats as int) {
            Some(e) => r matches Err(resp) && resp.wf() && resp.result_type@ == method_name(method)
                && resp.code() == Some(ErrorCode::QuotaExceeded) && resp.error.unwrap().message@
                == quota_error_message(e),
            None => r == Ok::<Payment, Response>(Payment { timestamp: now, msats }),
        },
{
    match ledger.try_reserve(msats, now) {
        Ok(p) => Ok(p),
        Err(e) => Err(quota_rejection(method, e)),
    }
}

/// The code a failed payment is reported with.
pub open spec fn failure_code(method: Method) -> ErrorCode {
    if method == Method::PayInvoice {
        ErrorCode::InsufficientBalance
    } else {
        ErrorCode::PaymentFailed
    }
}

/// The prefix of the message a failed payment is reported with.
pub open spec fn failure_prefix(method: Method) -> Seq<char> {
    if method == Method::PayInvoice {
        "Failed to pay invoice: "@
    } else {
        "Failed to pay keysend: "@
    }
}

/// Turns the backend's outcome of a reserved payment into the answer. A
/// payment made keeps its reservation and answers with the preimage; a
/// failed one gives its reservation back and answers with the backend's
/// message.
pub fn settle_payment(
    ledger: &mut QuotaLedger,
    method: Method,
    reservation: Payment,
    outcome: Result<String, String>,
) -> (r: Response)
    requires
        old(ledger).wf(),
        method == Method::PayInvoice || method == Method::PayKeysend,
    ensures
        final(ledger).wf(),
        final(ledger).spec_limits() == old(ledger).spec_limits(),
        r.wf(),
        r.result_type@ == method_name(method),
        match outcome {
            Ok(preimage) => final(ledger)@ == old(ledger)@ && r.result == Some(
                if method == Method::PayInvoice {
                    ResponseResult::PayInvoice { preimage }
                } else {
                    ResponseResult::PayKeysend { preimage }
                },
            ),
            Err(msg) => r.code() == Some(failure_code(method)) && r.error.unwrap().message@
                == failure_prefix(method) + msg@ && (old(ledger)@.contains(reservation) ==> total(
                final(ledger)@,
            ) == total(old(ledger)@) - reservation.msats) && (!old(ledger)@.contains(reservation)
                ==> final(ledger)@ == old(ledger)@),
        },
{
    match outcome {
        Ok(preimage) => {
            if method == Method::PayInvoice {
                Response::success(method.name(), ResponseResult::PayInvoice { preimage })
            } else {
                Response::success(method.name(), ResponseResult::PayKeysend { preimage })
            }
        },
        Err(msg) => {
            ledger.release(reservation);
            let mut message = if method == Method::PayInvoice {
                String::from_str("Failed to pay invoice: ")
            } else {
                String::from_str("Failed to pay keysend: ")
            };
            message.append(msg.as_str());
            if method == Method::PayInvoice {
                Response::failure(method.name(), ErrorCode::InsufficientBalance, message)
            } else {
                Response::failure(method.name(), ErrorCode::PaymentFailed, message)
            }
        },
    }
}

/// What the quota gate of a keysend does: an invalid destination is
/// answered before any quota is touched; a valid one goes through
/// `start_payment` for the keysend's amount.
pub open spec fn keysend_gate(
    before: Seq<Payment>,
    limits: SessionLimits,
    after: Seq<Payment>,
    pubkey_valid: bool,
    amount: u64,
    now: u64,
    r: Result<Payment, Response>,
) -> bool {
    if !pubkey_valid {
        after == before && (r matches Err(resp) && resp.wf() && resp.result_type@ == method_name(
            Method::PayKeysend,
        ) && resp.code() == Some(ErrorCode::Other) && resp.error.unwrap().message@
            == "Invalid destination pubkey"@)
    } else {
        after == reserve_step(before, limits, now, amount) && match quota_violation(
            limits,
            total(live(before, now)),
            amount as int,
        ) {
            Some(e) => r matches Err(resp) && resp.wf() && resp.result_type@ == method_name(
                Method::PayKeysend,
            ) && resp.code() == Some(ErrorCode::QuotaExceeded) && resp.error.unwrap().message@
                == quota_error_message(e),
            None => r == Ok::<Payment, Response>(Payment { timestamp: now, msats: amount }),
        }
    }
}

/// Quota gate of a keysend payment once its destination has been checked.
pub fn plan_keysend(
    ledger: &mut QuotaLedger,
    params: &PayKeysendParams,
    pubkey_valid: bool,
    now: u64,
) -> (r: Result<Payment, Response>)
    requires
        old(ledger).wf(),
    ensures
        final(ledger).wf(),
        final(ledger).spec_limits() == old(ledger).spec_limits(),
        keysend_gate(
            old(ledger)@,
            old(ledger).spec_limits(),
            final(ledger)@,
            pubkey_valid,
            params.amount,
            now,
            r,
        ),
{
    if !pubkey_valid {
        return Err(
            Response::failure(
                Method::PayKeysend.name(),
                ErrorCode::Other,
                String::from_str("Invalid destination pubkey"),
            ),
        );
    }
    start_payment(ledger, Method::PayKeysend, params.amount, now)
}

/// Checks a keysend request's destination and runs the quota gate on it.
pub fn begin_keysend(ledger: &mut QuotaLedger, params: &PayKeysendParams, now: u64) -> (r: Result<
    Payment,
    Response,
>)
    requires
        old(ledger).wf(),
    ensures
        final(ledger).wf(),
        final(ledger).spec_limits() == old(ledger).spec_limits(),
        keysend_gate(
            old(ledger)@,
            old(ledger).spec_limits(),
            final(ledger)@,
            node_pubkey_valid(params.pubkey@),
            params.amount,
            now,
            r,
        ),
{
    let valid = parse_node_pubkey(params.pubkey.as_str());
    plan_keysend(ledger, params, valid, now)
}

/// The answer to a command whose invoice does not parse: a malformed
/// request gets the not-supported code.
pub fn invoice_parse_failure(method: Method) -> (r: Response)
    ensures
        r.wf(),
        r.result_type@ == method_name(method),
        r.code() == Some(ErrorCode::NotImplemented),
        r.error.unwrap().message@ == "Failed to parse invoice"@,
{
    Response::failure(
        method.name(),
        ErrorCode::NotImplemented,
        String::from_str("Failed to parse invoice"),
    )
}

/// Quota gate of an invoice payment. `parsed` holds the amount read from
/// the bolt11 text, or `None` for unreadable text, which gets an error
/// answer and leaves the ledger alone. Readable text is checked against the
/// caps for its amount, else the requested one, else zero.
pub fn begin_pay_invoice(
    ledger: &mut QuotaLedger,
    params: &PayInvoiceParams,
    parsed: Option<Option<u64>>,
    now: u64,
) -> (r: Result<Payment, Response>)
    requires
        old(ledger).wf(),
    ensures
        final(ledger).wf(),
        final(ledger).spec_limits() == old(ledger).spec_limits(),
        match parsed {
            None => final(ledger)@ == old(ledger)@ && (r matches Err(resp) && resp.wf()
                && resp.result_type@ == method_name(Method::PayInvoice) && resp.code() == Some(
                ErrorCode::NotImplemented,
            ) && resp.error.unwrap().message@ == "Failed to parse invoice"@),
            Some(a) => {
                let msats = invoice_payment_msats(a, params.amount);
                final(ledger)@ == reserve_step(
                    old(ledger)@,
                    old(ledger).spec_limits(),
                    now,
                    msats,
                ) && match quota_violation(
                    old(ledger).spec_limits(),
                    total(live(old(ledger)@, now)),
                    msats as int,
                ) {
                    Some(e) => r matches Err(resp) && resp.wf() && resp.result_type@
                        == method_name(Method::PayInvoice) && resp.code() == Some(
                        ErrorCode::QuotaExceeded,
                    ) && resp.error.unwrap().message@ == quota_error_message(e),
                    None => r == Ok::<Payment, Response>(Payment { timestamp: now, msats }),
                }
            },
        },
{
    match parsed {
        None => Err(invoice_parse_failure(Method::PayInvoice)),
        Some(a) => {
            let msats = pay_invoice_msats(a, params.amount);
            start_payment(ledger, Method::PayInvoice, msats, now)
        },
    }
}

/// The answer to a backend failure of `make_invoice`, `lookup_invoice` or
/// `get_info`: the generic code with the backend's own message.
pub fn backend_failure(method: Method, message: String) -> (r: Response)
    ensures
        r.wf(),
        r.result_type@ == method_name(method),
        r.code() == Some(ErrorCode::Other),
        r.error.unwrap().message == message,
{
    Response::failure(method.name(), ErrorCode::Other, message)
}

/// Whether a command is answered by itself: the batch forms are not, each
/// of their entries is answered instead.
pub fn answered_alone(c: &Command) -> (r: bool)
    ensures
        r == !(c is MultiPayInvoice || c is MultiPayKeysend),
        r ==> expand(*c) == seq![*c],
{
    match c {
        Command::MultiPayInvoice(_) => false,
        Command::MultiPayKeysend(_) => false,
        _ => true,
    }
}

/// The answer to `get_balance`: what may still be spent today, in
/// millisatoshis.
pub fn handle_nwc_get_balance(ledger: &mut QuotaLedger, now: u64) -> (r: Response)
    requires
        old(ledger).wf(),
    ensures
        final(ledger).wf(),
        final(ledger).spec_limits() == old(ledger).spec_limits(),
        final(ledger)@ == live(old(ledger)@, now),
        r.wf(),
        r.result_type@ == method_name(Method::GetBalance),
        r.result matches Some(ResponseResult::GetBalance { balance }) && balance == remaining_of(
            old(ledger).spec_limits(),
            total(live(old(ledger)@, now)),
        ),
{
    let balance = ledger.remaining_msats(now);
    Response::success(Method::GetBalance.name(), ResponseResult::GetBalance { balance })
}

/// The answer to `get_info`: the node's own report and the supported methods.
pub fn handle_nwc_get_info(node: NodeInfo) -> (r: Response)
    ensures
        r.wf(),
        r.result_type@ == method_name(Method::GetInfo),
        r.result matches Some(ResponseResult::GetInfo { node: n, methods }) && n == node
            && methods@.len() == supported_methods().len() && forall|i: int|
            0 <= i < methods@.len() ==> #[trigger] methods@[i]@ == method_name(
                supported_methods()[i],
            ),
{
    let methods = method_names();
    Response::success(Method::GetInfo.name(), ResponseResult::GetInfo { node, methods })
}

/// The answer to a method outside the supported set.
pub fn unsupported_response(method: &str) -> (r: Response)
    ensures
        r.wf(),
        r.result_type@ == method@,
        r.code() == Some(ErrorCode::NotImplemented),
{
    Response::failure(method, ErrorCode::NotImplemented, String::from_str("Command not supported"))
}

/// What the backend is asked to create for `make_invoice`.
pub struct InvoiceRequest {
    pub memo: String,
    pub description_hash: Vec<u8>,
    pub value_msat: u64,
    pub expiry: u64,
}

/// Builds the backend request for `make_invoice`: an absent description is
/// empty, an absent description hash is no bytes, an absent expiry is one
/// day; a description hash that is not hex is answered with an error.
pub fn invoice_request(params: MakeInvoiceParams) -> (r: Result<InvoiceRequest, Response>)
    ensures
        match params.description_hash {
            Some(h) => hex_decoded(h@) is None ==> (r matches Err(resp) && resp.wf()
                && resp.result_type@ == method_name(Method::MakeInvoice) && resp.code() == Some(
                ErrorCode::Other,
            )),
            None => true,
        },
        r matches Ok(req) ==> req.value_msat == params.amount && req.expiry == (match params.expiry {
            Some(e) => e,
            None => DEFAULT_INVOICE_EXPIRY_SECS,
        }) && req.memo@ == (match params.description {
            Some(d) => d@,
            None => Seq::<char>::empty(),
        }) && req.description_hash@ == (match params.description_hash {
            Some(h) => hex_decoded(h@).unwrap(),
            None => Seq::<u8>::empty(),
        }),
        r is Ok <==> (match params.description_hash {
            Some(h) => hex_decoded(h@) is Some,
            None => true,
        }),
{
    let description_hash = match &params.description_hash {
        None => Vec::new(),
        Some(h) => match decode_hex(h.as_str()) {
            Some(b) => b,
            None => {
                return Err(
                    Response::failure(
                        Method::MakeInvoice.name(),
                        ErrorCode::Other,
                        String::from_str("Invalid description hash"),
                    ),
                );
            },
        },
    };
    let memo = match params.description {
        Some(d) => d,
        None => String::new(),
    };
    let expiry = match params.expiry {
        Some(e) => e,
        None => DEFAULT_INVOICE_EXPIRY_SECS,
    };
    proof {
        reveal_strlit("");
    }
    Ok(InvoiceRequest { memo, description_hash, value_msat: params.amount, expiry })
}

/// The answer to `make_invoice` from what the backend created.
pub fn make_invoice_response(payment_request: String, r_hash: &Vec<u8>) -> (r: Response)
    ensures
        r.wf(),
        r.result_type@ == method_name(Method::MakeInvoice),
        r.result matches Some(ResponseResult::MakeInvoice { invoice, payment_hash }) && invoice
            == payment_request && payment_hash@ == hex_encoded(r_hash@),
{
    let payment_hash = encode_hex(r_hash.as_slice());
    Response::success(
        Method::MakeInvoice.name(),
        ResponseResult::MakeInvoice { invoice: payment_request, payment_hash },
    )
}

/// What a bolt11 invoice says about itself, as the lookup needs it.
pub struct DecodedInvoice {
    pub payment_hash: Vec<u8>,
    pub description: Option<String>,
    pub description_hash: Option<String>,
}

/// Which payment hash a lookup asks for: the hex one given, else the one of
/// the invoice given (`decoded` is that invoice parsed, if it parsed); every
/// other case is answered with an error.
pub fn lookup_hash(params: &LookupInvoiceParams, decoded: &Option<DecodedInvoice>) -> (r: Result<
    Vec<u8>,
    Response,
>)
    ensures
        r matches Err(resp) ==> resp.wf() && resp.result_type@ == method_name(
            Method::LookupInvoice,
        ),
        match params.payment_hash {
            Some(h) => match hex_decoded(h@) {
                Some(b) => r matches Ok(v) && v@ == b,
                None => r matches Err(resp) && resp.code() == Some(ErrorCode::Other)
                    && resp.error.unwrap().message@ == "Invalid payment hash"@,
            },
            None => match params.invoice {
                None => r matches Err(resp) && resp.code() == Some(ErrorCode::Other)
                    && resp.error.unwrap().message@ == "Missing payment_hash or invoice"@,
                Some(_) => match decoded {
                    Some(d) => r matches Ok(v) && v@ == d.payment_hash@,
                    None => r matches Err(resp) && resp.code() == Some(ErrorCode::NotImplemented)
                        && resp.error.unwrap().message@ == "Failed to parse invoice"@,
                },
            },
        },
{
    match &params.payment_hash {
        Some(h) => match decode_hex(h.as_str()) {
            Some(b) => Ok(b),
            None => Err(
                Response::failure(
                    Method::LookupInvoice.name(),
                    ErrorCode::Other,
                    String::from_str("Invalid payment hash"),
                ),
            ),
        },
        None => match &params.invoice {
            None => Err(
                Response::failure(
                    Method::LookupInvoice.name(),
                    ErrorCode::Other,
                    String::from_str("Missing payment_hash or invoice"),
                ),
            ),
            Some(_) => match decoded {
                Some(d) => Ok(copy_bytes(&d.payment_hash)),
                None => Err(invoice_parse_failure(Method::LookupInvoice)),
            },
        },
    }
}

fn copy_bytes(b: &Vec<u8>) -> (r: Vec<u8>)
    ensures
        r@ == b@,
{
    let mut r: Vec<u8> = Vec::new();
    let mut i: usize = 0;
    while i < b.len()
        invariant
            i <= b@.len(),
            r@ == b@.take(i as int),
        decreases b@.len() - i,
    {
        r.push(b[i]);
        i = i + 1;
        assert(r@ =~= b@.take(i as int));
    }
    assert(b@.take(i as int) =~= b@);
    r
}

/// What the backend reports of an invoice it knows.
pub struct InvoiceRecord {
    pub payment_request: String,
    pub r_preimage: Vec<u8>,
    pub value_msat: u64,
    pub creation_date: u64,
    pub expiry: u64,
    pub settle_date: u64,
}

fn copy_opt_string(s: &Option<String>) -> (r: Option<String>)
    ensures
        r is Some == s is Some,
        r matches Some(v) ==> v@ == s.unwrap()@,
{
    match s {
        Some(v) => Some(v.as_str().to_owned()),
        None => None,
    }
}

/// The answer to `lookup_invoice`: an empty preimage and a zero settle date
/// mean "not yet", the expiry is counted from creation (saturating), and the
/// description comes from the invoice when it was given.
pub fn lookup_response(hash: &Vec<u8>, decoded: &Option<DecodedInvoice>, rec: InvoiceRecord) -> (r:
    Response)
    ensures
        r.wf(),
        r.result_type@ == method_name(Method::LookupInvoice),
        r.result matches Some(ResponseResult::LookupInvoice(l)) && l.invoice
            == rec.payment_request && l.payment_hash@ == hex_encoded(hash@) && l.amount
            == rec.value_msat && l.fees_paid == 0 && l.created_at == rec.creation_date
            && l.expires_at == (if rec.creation_date + rec.expiry <= u64::MAX {
            rec.creation_date + rec.expiry
        } else {
            u64::MAX as int
        }) && (rec.settle_date == 0 ==> l.settled_at is None) && (rec.settle_date != 0
            ==> l.settled_at == Some(rec.settle_date)) && (rec.r_preimage@.len() == 0
            ==> l.preimage is None) && (rec.r_preimage@.len() != 0 ==> (l.preimage matches Some(
            p,
        ) && p@ == hex_encoded(rec.r_preimage@))) && (decoded is None ==> l.description is None
            && l.description_hash is None) && (decoded matches Some(d) ==> l.description is Some
            == d.description is Some && l.description_hash is Some == d.description_hash is Some
            && (l.description matches Some(x) ==> x@ == d.description.unwrap()@) && (
        l.description_hash matches Some(x) ==> x@ == d.description_hash.unwrap()@)),
{
    let preimage = if rec.r_preimage.len() == 0 {
        None
    } else {
        Some(encode_hex(rec.r_preimage.as_slice()))
    };
    let settled_at = if rec.settle_date == 0 {
        None
    } else {
        Some(rec.settle_date)
    };
    let (description, description_hash) = match decoded {
        Some(d) => (copy_opt_string(&d.description), copy_opt_string(&d.description_hash)),
        None => (None, None),
    };
    let l = LookupResult {
        invoice: rec.payment_request,
        description,
        description_hash,
        preimage,
        payment_hash: encode_hex(hash.as_slice()),
        amount: rec.value_msat,
        fees_paid: 0,
        created_at: rec.creation_date,
        expires_at: rec.creation_date.saturating_add(rec.expiry),
        settled_at,
    };
    Response::success(Method::LookupInvoice.name(), ResponseResult::LookupInvoice(l))
}

} // verus!
