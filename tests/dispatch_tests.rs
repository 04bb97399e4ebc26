use nwc_bridge::dispatch::begin_pay_invoice;
use nwc_bridge::command::Method;
use nwc_bridge::dispatch::{answered_alone, backend_failure};
use nwc_bridge::command::{
    announcement_content, method_names, split_batch, Command, LookupInvoiceParams,
    MakeInvoiceParams, PayInvoiceParams, PayKeysendParams,
};
use nwc_bridge::config::{strip_trailing_slash, Config};
use nwc_bridge::dispatch::{
    begin_keysend, handle_nwc_get_info, invoice_request, lookup_hash, lookup_response,
    make_invoice_response, pay_invoice_msats, unsupported_response, DecodedInvoice,
    InvoiceRecord,
};
use nwc_bridge::quota::{QuotaLedger, SessionLimits};
use nwc_bridge::response::{ErrorCode, NodeInfo, ResponseResult};

const NOW: u64 = 1_700_000_000;
const GENERATOR: &str = "0279be667ef9dcbbac55a06295ce870b07029bfcdb2dce28d959f2815b16f81798";

fn invoice(id: Option<&str>) -> PayInvoiceParams {
    PayInvoiceParams { id: id.map(|s| s.to_string()), invoice: "lnbc1".to_string(), amount: None }
}

fn keysend(pubkey: &str, amount: u64) -> PayKeysendParams {
    PayKeysendParams {
        id: None,
        pubkey: pubkey.to_string(),
        amount,
        preimage: None,
        tlv_records: Vec::new(),
    }
}

#[test]
fn batch_fans_out_one_command_per_entry() {
    let cmd = Command::MultiPayInvoice(vec![invoice(Some("a")), invoice(None), invoice(Some("c"))]);
    let parts = split_batch(cmd);
    assert_eq!(parts.len(), 3);
    let ids: Vec<Option<String>> = parts.iter().map(|c| c.id().cloned()).collect();
    assert_eq!(ids, vec![Some("a".to_string()), None, Some("c".to_string())]);
    assert!(parts.iter().all(|c| matches!(c, Command::PayInvoice(_))));
}

#[test]
fn keysend_batch_fans_out() {
    let cmd = Command::MultiPayKeysend(vec![keysend(GENERATOR, 1), keysend("zz", 2)]);
    let parts = split_batch(cmd);
    assert_eq!(parts.len(), 2);
    assert!(parts.iter().all(|c| matches!(c, Command::PayKeysend(_))));
}

#[test]
fn failing_batch_entry_does_not_stop_siblings() {
    let mut l = QuotaLedger::new(SessionLimits::new(100, 1_000).unwrap());
    let entries = vec![keysend(GENERATOR, 50_000), keysend("not a key", 1_000), keysend(GENERATOR, 200_000), keysend(GENERATOR, 60_000)];
    let outcomes: Vec<bool> = entries.iter().map(|k| begin_keysend(&mut l, k, NOW).is_ok()).collect();
    assert_eq!(outcomes, vec![true, false, false, true]);
    assert_eq!(l.sum_payments(NOW), 110_000);
}

#[test]
fn non_batch_command_stays_whole() {
    let parts = split_batch(Command::GetBalance);
    assert_eq!(parts.len(), 1);
    assert!(matches!(parts[0], Command::GetBalance));
}

#[test]
fn keysend_to_invalid_pubkey_is_refused_before_quota() {
    let mut l = QuotaLedger::new(SessionLimits::new(100, 100).unwrap());
    let r = begin_keysend(&mut l, &keysend("02abc", 1_000), NOW);
    let resp = r.err().unwrap();
    assert_eq!(resp.error.unwrap().code, ErrorCode::Other);
    assert_eq!(l.sum_payments(NOW), 0);
    assert!(begin_keysend(&mut l, &keysend(GENERATOR, 1_000), NOW).is_ok());
    assert_eq!(l.sum_payments(NOW), 1_000);
}

#[test]
fn invoice_amount_takes_precedence() {
    assert_eq!(pay_invoice_msats(Some(5), Some(7)), 5);
    assert_eq!(pay_invoice_msats(None, Some(7)), 7);
    assert_eq!(pay_invoice_msats(None, None), 0);
}

#[test]
fn announcement_lists_all_methods() {
    assert_eq!(
        announcement_content(),
        "get_info make_invoice get_balance lookup_invoice pay_invoice multi_pay_invoice pay_keysend multi_pay_keysend"
    );
    assert_eq!(method_names().len(), 8);
}

#[test]
fn info_reports_node_and_methods() {
    let node = NodeInfo {
        alias: "n".to_string(),
        color: "#fff".to_string(),
        pubkey: GENERATOR.to_string(),
        network: "bitcoin".to_string(),
        block_height: 7,
        block_hash: "00".to_string(),
    };
    let resp = handle_nwc_get_info(node);
    assert_eq!(resp.result_type, "get_info");
    match resp.result {
        Some(ResponseResult::GetInfo { node, methods }) => {
            assert_eq!(node.block_height, 7);
            assert_eq!(methods[0], "get_info");
            assert_eq!(methods[7], "multi_pay_keysend");
        }
        _ => panic!("expected node info"),
    }
}

#[test]
fn unsupported_method_gets_not_implemented() {
    let resp = unsupported_response("list_transactions");
    assert_eq!(resp.result_type, "list_transactions");
    assert_eq!(resp.error.unwrap().code, ErrorCode::NotImplemented);
    assert!(resp.result.is_none());
}

#[test]
fn make_invoice_defaults_and_hash() {
    let req = invoice_request(MakeInvoiceParams {
        amount: 21_000,
        description: None,
        description_hash: Some("0aFf".to_string()),
        expiry: None,
    })
    .ok()
    .unwrap();
    assert_eq!(req.memo, "");
    assert_eq!(req.description_hash, vec![0x0a, 0xff]);
    assert_eq!(req.value_msat, 21_000);
    assert_eq!(req.expiry, 86_400);
}

#[test]
fn make_invoice_rejects_bad_hash() {
    let r = invoice_request(MakeInvoiceParams {
        amount: 1,
        description: Some("d".to_string()),
        description_hash: Some("abc".to_string()),
        expiry: Some(5),
    });
    assert_eq!(r.err().unwrap().error.unwrap().code, ErrorCode::Other);
}

#[test]
fn make_invoice_response_hex_encodes_hash() {
    let resp = make_invoice_response("lnbc1x".to_string(), &vec![0xde, 0xad, 0x01]);
    match resp.result {
        Some(ResponseResult::MakeInvoice { invoice, payment_hash }) => {
            assert_eq!(invoice, "lnbc1x");
            assert_eq!(payment_hash, "dead01");
        }
        _ => panic!("expected an invoice"),
    }
}

#[test]
fn lookup_by_hash_or_invoice() {
    let by_hash = LookupInvoiceParams { payment_hash: Some("00ff".to_string()), invoice: None };
    assert_eq!(lookup_hash(&by_hash, &None).ok().unwrap(), vec![0, 255]);
    let missing = LookupInvoiceParams { payment_hash: None, invoice: None };
    let e = lookup_hash(&missing, &None).err().unwrap().error.unwrap();
    assert_eq!(e.message, "Missing payment_hash or invoice");
    let by_invoice = LookupInvoiceParams { payment_hash: None, invoice: Some("lnbc".to_string()) };
    assert!(lookup_hash(&by_invoice, &None).is_err());
    let decoded = Some(DecodedInvoice { payment_hash: vec![1, 2], description: None, description_hash: None });
    assert_eq!(lookup_hash(&by_invoice, &decoded).ok().unwrap(), vec![1, 2]);
}

#[test]
fn lookup_response_fields() {
    let rec = InvoiceRecord {
        payment_request: "lnbc9".to_string(),
        r_preimage: vec![],
        value_msat: 1_000,
        creation_date: 100,
        expiry: 3_600,
        settle_date: 0,
    };
    let resp = lookup_response(&vec![0xab], &None, rec);
    match resp.result {
        Some(ResponseResult::LookupInvoice(l)) => {
            assert_eq!(l.payment_hash, "ab");
            assert_eq!(l.preimage, None);
            assert_eq!(l.settled_at, None);
            assert_eq!(l.expires_at, 3_700);
            assert_eq!(l.amount, 1_000);
        }
        _ => panic!("expected a lookup"),
    }
    let settled = InvoiceRecord {
        payment_request: "lnbc9".to_string(),
        r_preimage: vec![0x10],
        value_msat: 1,
        creation_date: u64::MAX,
        expiry: 5,
        settle_date: 9,
    };
    match lookup_response(&vec![], &None, settled).result {
        Some(ResponseResult::LookupInvoice(l)) => {
            assert_eq!(l.preimage, Some("10".to_string()));
            assert_eq!(l.settled_at, Some(9));
            assert_eq!(l.expires_at, u64::MAX);
        }
        _ => panic!("expected a lookup"),
    }
}

#[test]
fn config_limits_and_paths() {
    let c = Config {
        keys_file: "keys.json".to_string(),
        relay: "wss://relay".to_string(),
        max_amount: 100_000,
        daily_limit: 100_000,
        data_dir: "/tmp/d".to_string(),
    };
    let l = c.limits().unwrap();
    assert_eq!(l.daily_limit, 100_000);
    assert_eq!(strip_trailing_slash("/home/u/"), "/home/u");
    assert_eq!(strip_trailing_slash("/home/u"), "/home/u");
    assert_eq!(strip_trailing_slash(""), "");
}

#[test]
fn unparsed_invoice_is_answered_as_not_supported() {
    let mut l = QuotaLedger::new(SessionLimits::new(100, 100).unwrap());
    let r = begin_pay_invoice(&mut l, &invoice(None), None, NOW);
    let resp = r.err().unwrap();
    assert_eq!(resp.result_type, "pay_invoice");
    let e = resp.error.unwrap();
    assert_eq!(e.code, ErrorCode::NotImplemented);
    assert_eq!(e.message, "Failed to parse invoice");
    assert_eq!(l.sum_payments(NOW), 0);
    let mut p = invoice(None);
    p.amount = Some(7_000);
    assert!(begin_pay_invoice(&mut l, &p, Some(None), NOW).is_ok());
    assert_eq!(l.sum_payments(NOW), 7_000);
    let over = begin_pay_invoice(&mut l, &p, Some(Some(100_001)), NOW).err().unwrap();
    assert_eq!(over.error.unwrap().message, "Invoice amount too high.");
}

#[test]
fn keysend_quota_refusal_names_its_method() {
    let mut l = QuotaLedger::new(SessionLimits::new(50_000, 100_000).unwrap());
    let resp = begin_keysend(&mut l, &keysend(GENERATOR, 75_000_000), NOW).err().unwrap();
    assert_eq!(resp.result_type, "pay_keysend");
    let e = resp.error.unwrap();
    assert_eq!(e.code, ErrorCode::QuotaExceeded);
    assert_eq!(e.message, "Invoice amount too high.");
    assert_eq!(l.sum_payments(NOW), 0);
}

#[test]
fn backend_failures_and_batches() {
    let resp = backend_failure(Method::LookupInvoice, "not found".to_string());
    assert_eq!(resp.result_type, "lookup_invoice");
    let e = resp.error.unwrap();
    assert_eq!(e.code, ErrorCode::Other);
    assert_eq!(e.message, "not found");
    assert!(!answered_alone(&Command::MultiPayInvoice(vec![invoice(None)])));
    assert!(!answered_alone(&Command::MultiPayKeysend(vec![])));
    assert!(answered_alone(&Command::GetInfo));
}

#[test]
fn lookup_of_unparsed_invoice_is_not_supported() {
    let by_invoice = LookupInvoiceParams { payment_hash: None, invoice: Some("lnbc".to_string()) };
    let e = lookup_hash(&by_invoice, &None).err().unwrap().error.unwrap();
    assert_eq!(e.code, ErrorCode::NotImplemented);
    let bad = LookupInvoiceParams { payment_hash: Some("zz".to_string()), invoice: None };
    assert_eq!(lookup_hash(&bad, &None).err().unwrap().error.unwrap().message, "Invalid payment hash");
}
