use dsm_exchange_node::error::AppError;
use dsm_exchange_node::history::{
    b32_or_hex_to_hex, extract_memo, transaction_body, Metadata, RecordIds, TransactionRecord,
};
use dsm_exchange_node::json::Json;
use dsm_exchange_node::routes::block::{get_block, get_block_page, incoming_deposits, PAGE_SIZE};
use dsm_exchange_node::routes::state::get_state;
use dsm_exchange_node::reply::OnlineTransferResponse;
use dsm_exchange_node::routes::transaction::{get_transaction, get_transaction_bytes};
use dsm_exchange_node::routes::transfer::{post_transfer, post_transfer_receipt};

fn text(s: &str) -> Json {
    Json::Text(s.to_string())
}

fn object(members: Vec<(&str, Json)>) -> Json {
    Json::Object(members.into_iter().map(|(k, v)| (k.to_string(), v)).collect())
}

fn record(id: &str, hash: &str, to: &str) -> TransactionRecord {
    TransactionRecord {
        tx_id: id.to_string(),
        tx_hash: hash.to_string(),
        from_device: "ZZFROM".to_string(),
        to_device: to.to_string(),
        amount: 7,
        tx_type: "online".to_string(),
        status: "confirmed".to_string(),
        chain_height: 12,
        metadata: Metadata::new(),
    }
}

fn no_ids() -> RecordIds {
    RecordIds { tx_hash: None, from_device: None, to_device: None }
}

#[test]
fn memo_is_read_as_utf8() {
    let mut m = Metadata::new();
    assert_eq!(extract_memo(&m), "");
    m.insert("other".to_string(), b"x".to_vec());
    assert_eq!(extract_memo(&m), "");
    m.insert("memo".to_string(), "für dich".as_bytes().to_vec());
    assert_eq!(extract_memo(&m), "für dich");
    m.insert("memo".to_string(), vec![0xff, 0xfe]);
    assert_eq!(extract_memo(&m), "");
}

#[test]
fn metadata_keeps_the_last_value() {
    let mut m = Metadata::new();
    m.insert("a".to_string(), vec![1]);
    m.insert("b".to_string(), vec![2]);
    m.insert("a".to_string(), vec![3]);
    assert_eq!(m.get(&"a".to_string()), Some(&vec![3]));
    assert_eq!(m.get(&"b".to_string()), Some(&vec![2]));
    assert_eq!(m.get(&"c".to_string()), None);
}

#[test]
fn ids_are_shown_in_hexadecimal() {
    assert_eq!(b32_or_hex_to_hex("Z0", &Some(vec![0xab, 0x0c, 0xff])), "ab0cff");
    assert_eq!(b32_or_hex_to_hex("not base32!", &None), "not base32!");
    assert_eq!(b32_or_hex_to_hex("ABC", &Some(vec![0x52])), "52");
}

#[test]
fn hexadecimal_ids_stay() {
    assert_eq!(b32_or_hex_to_hex("ab0cff", &Some(vec![1, 2])), "ab0cff");
    assert_eq!(b32_or_hex_to_hex("AB", &None), "AB");
    let shown = b32_or_hex_to_hex("Z0", &Some(vec![0xab]));
    assert_eq!(b32_or_hex_to_hex(&shown, &Some(vec![9])), shown);
}

#[test]
fn transaction_is_described() {
    let mut r = record("id-1", "HASHZ", "TOZ");
    r.metadata.insert("memo".to_string(), b"hi".to_vec());
    let ids =
        RecordIds { tx_hash: Some(vec![1]), from_device: None, to_device: Some(vec![0xff, 0x10]) };
    assert_eq!(
        transaction_body(&r, &ids),
        object(vec![
            ("tx_id", text("id-1")),
            ("tx_hash", text("01")),
            ("from_device", text("ZZFROM")),
            ("to_device", text("ff10")),
            ("amount", Json::Number(7)),
            ("tx_type", text("online")),
            ("status", text("confirmed")),
            ("chain_height", Json::Number(12)),
            ("memo", text("hi")),
        ])
    );
}

fn mixed_history(deposits: usize) -> Vec<TransactionRecord> {
    let mut v = Vec::new();
    for i in 0..deposits {
        v.push(record(&format!("in-{i}"), "H", "ME"));
        v.push(record(&format!("out-{i}"), "H", "OTHER"));
    }
    v
}

#[test]
fn only_deposits_count() {
    let kept = incoming_deposits(mixed_history(3), &"ME".to_string());
    let ids: Vec<&str> = kept.iter().map(|r| r.tx_id.as_str()).collect();
    assert_eq!(ids, vec!["in-0", "in-1", "in-2"]);
}

#[test]
fn blocks_are_pages_of_deposits() {
    let me = "ME".to_string();
    let first = get_block_page(0, &me, Ok(mixed_history(250))).unwrap();
    assert_eq!(first.len(), PAGE_SIZE);
    assert_eq!(first[0].tx_id, "in-0");
    assert_eq!(first[99].tx_id, "in-99");
    let last = get_block_page(2, &me, Ok(mixed_history(250))).unwrap();
    assert_eq!(last.len(), 50);
    assert_eq!(last[0].tx_id, "in-200");
    assert_eq!(get_block_page(3, &me, Ok(mixed_history(250))).unwrap().len(), 0);
}

#[test]
fn far_block_is_empty() {
    let me = "ME".to_string();
    for n in [1u64 << 62, u64::MAX / 100, u64::MAX / 100 + 1, u64::MAX] {
        let page = get_block_page(n, &me, Ok(mixed_history(1))).unwrap();
        assert_eq!(
            get_block(n, &page, &vec![]),
            object(vec![
                ("block", Json::Number(n)),
                ("transactions", Json::List(vec![])),
                ("count", Json::Number(0)),
            ])
        );
    }
    assert_eq!(
        get_block_page(u64::MAX, &me, Err("locked".to_string())).unwrap_err(),
        AppError::Sdk("get_transaction_history: locked".to_string())
    );
}

#[test]
fn blocks_up_to_the_tick_hold_every_deposit() {
    let me = "ME".to_string();
    for count in [0usize, 1, 99, 100, 101, 200] {
        let tick = match get_state(&me, Ok(mixed_history(count))).unwrap() {
            Json::Object(members) => match &members[0] {
                (key, Json::Number(n)) if key == "tick" => *n,
                other => panic!("{:?}", other),
            },
            other => panic!("{:?}", other),
        };
        assert_eq!(tick, count as u64 / 100);
        let mut seen = Vec::new();
        for n in 0..=tick {
            for r in get_block_page(n, &me, Ok(mixed_history(count))).unwrap() {
                seen.push(r.tx_id);
            }
        }
        let all: Vec<String> = (0..count).map(|i| format!("in-{i}")).collect();
        assert_eq!(seen, all);
    }
}

#[test]
fn unreadable_history_is_an_sdk_error_for_blocks() {
    let me = "ME".to_string();
    let expected = AppError::Sdk("get_transaction_history: locked".to_string());
    assert_eq!(get_block_page(0, &me, Err("locked".to_string())).unwrap_err(), expected);
    assert_eq!(get_state(&me, Err("locked".to_string())).unwrap_err(), expected);
}

#[test]
fn block_body_lists_its_transactions() {
    let records = vec![record("a", "H", "ME"), record("b", "H", "ME")];
    let ids = vec![no_ids(), no_ids()];
    let body = get_block(4, &records, &ids);
    assert_eq!(
        body,
        object(vec![
            ("block", Json::Number(4)),
            (
                "transactions",
                Json::List(vec![
                    transaction_body(&records[0], &ids[0]),
                    transaction_body(&records[1], &ids[1]),
                ])
            ),
            ("count", Json::Number(2)),
        ])
    );
}

#[test]
fn requested_hash_is_read_as_hexadecimal() {
    assert_eq!(get_transaction_bytes("0aFF"), Some(vec![0x0a, 0xff]));
    assert_eq!(get_transaction_bytes(""), Some(vec![]));
    assert_eq!(get_transaction_bytes("0af"), None);
    assert_eq!(get_transaction_bytes("0g"), None);
    assert_eq!(get_transaction_bytes("éé"), None);
}

#[test]
fn transaction_is_found_by_hash_id_or_base32() {
    let history = || Ok(vec![record("t1", "B32A", "ME"), record("t2", "B32B", "ME")]);
    let find = |hash: &str, b32: Option<&str>| {
        get_transaction(&hash.to_string(), &b32.map(|s| s.to_string()), history()).map(|r| r.tx_id)
    };
    assert_eq!(find("B32B", None).unwrap(), "t2");
    assert_eq!(find("t2", None).unwrap(), "t2");
    assert_eq!(find("00ff", Some("B32A")).unwrap(), "t1");
    assert_eq!(find("t2", Some("B32A")).unwrap(), "t1");
    assert_eq!(
        find("00ff", Some("B32X")).unwrap_err(),
        AppError::NotFound("transaction 00ff not found".to_string())
    );
}

#[test]
fn unreadable_history_is_internal_for_lookups() {
    assert_eq!(
        get_transaction(&"h".to_string(), &None, Err("locked".to_string())).unwrap_err(),
        AppError::Internal("get_transaction_history: locked".to_string())
    );
}

#[test]
fn shown_hash_leads_back_to_its_transaction() {
    let stored = record("t1", "ZB32", "ME");
    let decoded = Some(vec![0xde, 0xad]);
    let shown = b32_or_hex_to_hex(&stored.tx_hash, &decoded);
    assert_eq!(get_transaction_bytes(&shown), decoded);
    let found =
        get_transaction(&shown, &Some("ZB32".to_string()), Ok(vec![record("t0", "ZOTHER", "ME"), stored]))
            .unwrap();
    assert_eq!(found.tx_id, "t1");
}

fn base32(bytes: &[u8]) -> String {
    let digits: Vec<char> = "0123456789ABCDEFGHJKMNPQRSTVWXYZ".chars().collect();
    let mut bits: Vec<u8> = bytes.iter().flat_map(|b| (0..8).rev().map(move |i| b >> i & 1)).collect();
    while bits.len() % 5 != 0 {
        bits.push(0);
    }
    bits.chunks(5).map(|c| digits[c.iter().fold(0usize, |n, b| 2 * n + *b as usize)]).collect()
}

fn lookup(hash: &str, history: Vec<TransactionRecord>) -> Result<TransactionRecord, AppError> {
    let as_b32 = get_transaction_bytes(hash).map(|bytes| base32(&bytes));
    get_transaction(&hash.to_string(), &as_b32, Ok(history))
}

#[test]
fn either_notation_finds_the_same_transaction() {
    let wanted = [0xab; 32];
    let history = || {
        vec![record("t1", &base32(&[0xcd; 32]), "ME"), record("t2", &base32(&wanted), "ME")]
    };
    for spelling in ["ab".repeat(32), "AB".repeat(32), "aB".repeat(32), base32(&wanted)] {
        assert_eq!(lookup(&spelling, history()).unwrap().tx_id, "t2");
    }
    for spelling in ["ef".repeat(32), "EF".repeat(32), base32(&[0xef; 32])] {
        assert_eq!(
            lookup(&spelling, history()).unwrap_err(),
            AppError::NotFound(format!("transaction {spelling} not found"))
        );
    }
}

#[test]
fn transfer_is_looked_up_by_what_it_was_answered_with() {
    let history = || {
        let mut other = record("t1", &base32(&[1; 32]), "ME");
        other.tx_type = "faucet".to_string();
        let mut sent = record("t2", &base32(&[0xfe; 32]), "PEER");
        sent.tx_type = "online".to_string();
        vec![other, sent]
    };
    let receipt = post_transfer_receipt(Ok(history()));
    let response =
        OnlineTransferResponse { success: true, message: String::new(), new_balance: 0 };
    let members = match post_transfer(&response, &receipt, &Some(vec![0xfe; 32])) {
        Json::Object(members) => members,
        other => panic!("{:?}", other),
    };
    assert_eq!(members[3], ("tx_hash".to_string(), text(&"fe".repeat(32))));
    assert_eq!(members[4], ("tx_id".to_string(), text("t2")));
    for shown in ["fe".repeat(32), "t2".to_string()] {
        let found = lookup(&shown, history()).unwrap();
        assert_eq!(found.tx_id, "t2");
        assert_eq!(b32_or_hex_to_hex(&found.tx_hash, &Some(vec![0xfe; 32])), "fe".repeat(32));
    }
}

#[test]
fn deposits_are_shown_with_the_own_device_id() {
    let own = "fe".repeat(32);
    let device = base32(&get_transaction_bytes(&own).unwrap());
    let history = vec![record("t1", "H1", "OTHER"), record("t2", "H2", &device)];
    let page = get_block_page(0, &device, Ok(history)).unwrap();
    let ids = vec![RecordIds {
        tx_hash: None,
        from_device: None,
        to_device: get_transaction_bytes(&own),
    }];
    let listed = match get_block(0, &page, &ids) {
        Json::Object(mut members) => match members.remove(1).1 {
            Json::List(listed) => listed,
            other => panic!("{:?}", other),
        },
        other => panic!("{:?}", other),
    };
    assert_eq!(listed.len(), 1);
    match &listed[0] {
        Json::Object(members) => {
            assert_eq!(members[0], ("tx_id".to_string(), text("t2")));
            assert_eq!(members[3], ("to_device".to_string(), text(&own)));
        }
        other => panic!("{:?}", other),
    }
}
