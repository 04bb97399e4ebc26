use vstd::prelude::*;

verus! {

/// The wallet-connect methods this bridge serves.
#[derive(Clone, Copy, Debug, PartialEq, Eq, Structural)]
pub enum Method {
    GetInfo,
    MakeInvoice,
    GetBalance,
    LookupInvoice,
    PayInvoice,
    MultiPayInvoice,
    PayKeysend,
    MultiPayKeysend,
}

/// The wire name of a method.
pub open spec fn method_name(m: Method) -> Seq<char> {
    match m {
        Method::GetInfo => "get_info"@,
        Method::MakeInvoice => "make_invoice"@,
        Method::GetBalance => "get_balance"@,
        Method::LookupInvoice => "lookup_invoice"@,
        Method::PayInvoice => "pay_invoice"@,
        Method::MultiPayInvoice => "multi_pay_invoice"@,
        Method::PayKeysend => "pay_keysend"@,
        Method::MultiPayKeysend => "multi_pay_keysend"@,
    }
}

/// Every supported method, in the order they are announced.
pub open spec fn supported_methods() -> Seq<Method> {
    seq![
        Method::GetInfo,
        Method::MakeInvoice,
        Method::GetBalance,
        Method::LookupInvoice,
        Method::PayInvoice,
        Method::MultiPayInvoice,
        Method::PayKeysend,
        Method::MultiPayKeysend,
    ]
}

/// The method names joined by single spaces.
pub open spec fn joined_names(ms: Seq<Method>) -> Seq<char>
    decreases ms.len(),
{
    if ms.len() == 0 {
        Seq::empty()
    } else if ms.len() == 1 {
        method_name(ms[0])
    } else {
        joined_names(ms.drop_last()) + " "@ + method_name(ms.last())
    }
}

impl Method {
    /// The wire name of this method.
    pub fn name(&self) -> (r: &'static str)
        ensures
            r@ == method_name(*self),
    {
        match self {
            Method::GetInfo => "get_info",
            Method::MakeInvoice => "make_invoice",
            Method::GetBalance => "get_balance",
            Method::LookupInvoice => "lookup_invoice",
            Method::PayInvoice => "pay_invoice",
            Method::MultiPayInvoice => "multi_pay_invoice",
            Method::PayKeysend => "pay_keysend",
            Method::MultiPayKeysend => "multi_pay_keysend",
        }
    }

    /// All supported methods, in announcement order.
    pub fn all() -> (r: Vec<Method>)
        ensures
            r@ == supported_methods(),
    {
        let r = vec![
            Method::GetInfo,
            Method::MakeInvoice,
            Method::GetBalance,
            Method::LookupInvoice,
            Method::PayInvoice,
            Method::MultiPayInvoice,
            Method::PayKeysend,
            Method::MultiPayKeysend,
        ];
        assert(r@ =~= supported_methods());
        r
    }
}

/// The names of the supported methods, one string each, in announcement order.
pub fn method_names() -> (r: Vec<String>)
    ensures
        r@.len() == supported_methods().len(),
        forall|i: int| 0 <= i < r@.len() ==> #[trigger] r@[i]@ == method_name(supported_methods()[i]),
{
    let all = Method::all();
    let mut r: Vec<String> = Vec::new();
    let mut i: usize = 0;
    while i < all.len()
        invariant
            all@ == supported_methods(),
            i <= all@.len(),
            r@.len() == i,
            forall|j: int| 0 <= j < i ==> #[trigger] r@[j]@ == method_name(supported_methods()[j]),
        decreases all@.len() - i,
    {
        r.push(all[i].name().to_owned());
        i = i + 1;
    }
    r
}

/// The content of the capability announcement: the supported method names
/// separated by single spaces.
pub fn announcement_content() -> (r: String)
    ensures
        r@ == joined_names(supported_methods()),
{
    let all = Method::all();
    let mut r = String::from_str("");
    let mut i: usize = 0;
    proof {
        reveal_strlit("");
        assert(all@.take(0) =~= Seq::<Method>::empty());
    }
    while i < all.len()
        invariant
            all@ == supported_methods(),
            i <= all@.len(),
            r@ == joined_names(all@.take(i as int)),
        decreases all@.len() - i,
    {
        proof {
            reveal_strlit("");
            assert(all@.take(i + 1).drop_last() =~= all@.take(i as int));
        }
        if i > 0 {
            r.append(" ");
        }
        r.append(all[i].name());
        i = i + 1;
    }
    proof {
        assert(all@.take(i as int) =~= all@);
    }
    r
}

/// One invoice to pay; `id` correlates the answer within a batch.
pub struct PayInvoiceParams {
    pub id: Option<String>,
    pub invoice: String,
    pub amount: Option<u64>,
}

/// One custom record carried by a keysend payment.
pub struct TlvRecord {
    pub tlv_type: u64,
    pub value: String,
}

/// One keysend payment; `id` correlates the answer within a batch.
pub struct PayKeysendParams {
    pub id: Option<String>,
    pub pubkey: String,
    pub amount: u64,
    pub preimage: Option<String>,
    pub tlv_records: Vec<TlvRecord>,
}

/// Parameters of an invoice to create.
pub struct MakeInvoiceParams {
    pub amount: u64,
    pub description: Option<String>,
    pub description_hash: Option<String>,
    pub expiry: Option<u64>,
}

/// Which invoice to look up: by payment hash, or by the invoice itself.
pub struct LookupInvoiceParams {
    pub payment_hash: Option<String>,
    pub invoice: Option<String>,
}

/// A decrypted, parsed client request.
pub enum Command {
    PayInvoice(PayInvoiceParams),
    MultiPayInvoice(Vec<PayInvoiceParams>),
    PayKeysend(PayKeysendParams),
    MultiPayKeysend(Vec<PayKeysendParams>),
    MakeInvoice(MakeInvoiceParams),
    LookupInvoice(LookupInvoiceParams),
    GetBalance,
    GetInfo,
    /// A method outside the supported set, by its wire name.
    Unsupported(String),
}

/// The commands a request runs as: one per entry of a batch, in order, and
/// the request itself otherwise.
pub open spec fn expand(c: Command) -> Seq<Command> {
    match c {
        Command::MultiPayInvoice(v) => v@.map_values(|p: PayInvoiceParams| Command::PayInvoice(p)),
        Command::MultiPayKeysend(v) => v@.map_values(|p: PayKeysendParams| Command::PayKeysend(p)),
        _ => seq![c],
    }
}

/// The correlation identifier a command's answer carries, if any.
pub open spec fn correlation_id(c: Command) -> Option<String> {
    match c {
        Command::PayInvoice(p) => p.id,
        Command::PayKeysend(p) => p.id,
        _ => None,
    }
}

impl Command {
    /// The correlation identifier this command's answer carries, if any.
    pub fn id(&self) -> (r: Option<&String>)
        ensures
            r matches Some(s) ==> correlation_id(*self) == Some(*s),
            r is None ==> correlation_id(*self) is None,
    {
        match self {
            Command::PayInvoice(p) => p.id.as_ref(),
            Command::PayKeysend(p) => p.id.as_ref(),
            _ => None,
        }
    }
}

/// Splits a request into the commands that run independently: a batch
/// becomes one single-payment command per entry, in order, each keeping its
/// own identifier; any other request stays whole.
pub fn split_batch(c: Command) -> (r: Vec<Command>)
    ensures
        r@ == expand(c),
{
    match c {
        Command::MultiPayInvoice(v) => {
            let ghost orig = v@;
            let mut v = v;
            let mut out: Vec<Command> = Vec::new();
            while v.len() > 0
                invariant
                    out@.len() + v@.len() == orig.len(),
                    v@ == orig.skip(out@.len() as int),
                    out@ =~= orig.take(out@.len() as int).map_values(
                        |p: PayInvoiceParams| Command::PayInvoice(p),
                    ),
                decreases v@.len(),
            {
                let ghost k = out@.len() as int;
                let p = v.remove(0);
                out.push(Command::PayInvoice(p));
                assert(v@ =~= orig.skip(k + 1));
                assert(out@ =~= orig.take(k + 1).map_values(
                    |p: PayInvoiceParams| Command::PayInvoice(p),
                ));
            }
            assert(orig.take(orig.len() as int) =~= orig);
            out
        },
        Command::MultiPayKeysend(v) => {
            let ghost orig = v@;
            let mut v = v;
            let mut out: Vec<Command> = Vec::new();
            while v.len() > 0
                invariant
                    out@.len() + v@.len() == orig.len(),
                    v@ == orig.skip(out@.len() as int),
                    out@ =~= orig.take(out@.len() as int).map_values(
                        |p: PayKeysendParams| Command::PayKeysend(p),
                    ),
                decreases v@.len(),
            {
                let ghost k = out@.len() as int;
                let p = v.remove(0);
                out.push(Command::PayKeysend(p));
                assert(v@ =~= orig.skip(k + 1));
                assert(out@ =~= orig.take(k + 1).map_values(
                    |p: PayKeysendParams| Command::PayKeysend(p),
                ));
            }
            assert(orig.take(orig.len() as int) =~= orig);
            out
        },
        other => {
            let out = vec![other];
            out
        },
    }
}

/// A batch of K entries runs as exactly K commands, the i-th one answering
/// under the i-th entry's own identifier.
pub proof fn lemma_batch_fans_out(c: Command)
    ensures
        c matches Command::MultiPayInvoice(v) ==> expand(c).len() == v@.len() && forall|i: int|
            0 <= i < v@.len() ==> #[trigger] correlation_id(expand(c)[i]) == v@[i].id,
        c matches Command::MultiPayKeysend(v) ==> expand(c).len() == v@.len() && forall|i: int|
            0 <= i < v@.len() ==> #[trigger] correlation_id(expand(c)[i]) == v@[i].id,
        !(c is MultiPayInvoice || c is MultiPayKeysend) ==> expand(c) == seq![c],
{
}

} // verus!
