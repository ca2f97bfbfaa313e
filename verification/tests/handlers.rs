use dsm_exchange_node::error::AppError;
use dsm_exchange_node::history::{Metadata, TransactionRecord};
use dsm_exchange_node::json::Json;
use dsm_exchange_node::node::genesis::{identity_state, Genesis};
use dsm_exchange_node::node::identity::{our_device_id, IdentityState};
use dsm_exchange_node::reply::{
    BalanceEntry, CallKind, Envelope, FaucetClaimResponse, InboxItem, Message,
    OnlineTransferResponse, Payload, SdkCall, StorageSyncResponse,
};
use dsm_exchange_node::routes::balance::{
    balances_call, fetch_balances_list, get_balance, get_balances, token_id_or_era, BalanceParams,
};
use dsm_exchange_node::routes::contacts::{
    add_contact, add_contact_call, patches_kyber_key, AddContactRequest, NewContact,
};
use dsm_exchange_node::routes::faucet::{faucet_call, faucet_reply, post_faucet};
use dsm_exchange_node::routes::health::get_health;
use dsm_exchange_node::routes::identity::get_identity;
use dsm_exchange_node::routes::inbox::{
    ack_device_id, ack_posts, batch_bytes, get_inbox, inbox_call, post_inbox_ack,
    post_inbox_ack_plan, AckPlan, AckPost, AckRequest, BatchEnvelope, InboxParams,
};
use dsm_exchange_node::routes::sync::{post_sync, sync_call};
use dsm_exchange_node::routes::transfer::{
    post_transfer, post_transfer_call, post_transfer_receipt, post_transfer_recipient,
    post_transfer_reply, TransferRequest,
};

fn text(s: &str) -> Json {
    Json::Text(s.to_string())
}

fn object(members: Vec<(&str, Json)>) -> Json {
    Json::Object(members.into_iter().map(|(k, v)| (k.to_string(), v)).collect())
}

fn bad(m: &str) -> AppError {
    AppError::BadRequest(m.to_string())
}

fn internal(m: &str) -> AppError {
    AppError::Internal(m.to_string())
}

fn envelope(payload: Payload) -> Result<Envelope, String> {
    Ok(Envelope { payload, payload_text: "Some(\"shown\")".to_string() })
}

fn balance(token: &str, available: u64) -> BalanceEntry {
    BalanceEntry {
        token_id: token.to_string(),
        available,
        locked: 1,
        symbol: "S".to_string(),
        decimals: 2,
        token_name: "Name".to_string(),
    }
}

fn balance_json(token: &str, available: u64) -> Json {
    object(vec![
        ("token_id", text(token)),
        ("available", Json::Number(available)),
        ("locked", Json::Number(1)),
        ("symbol", text("S")),
        ("decimals", Json::Number(2)),
        ("token_name", text("Name")),
    ])
}

fn identity(device: &str) -> Option<IdentityState> {
    Some(IdentityState {
        device_id_hex: device.to_string(),
        genesis_hash_hex: "bb".to_string(),
        kyber_public_key_hex: "cc".to_string(),
    })
}

#[test]
fn balances_are_asked_for_without_a_message() {
    assert_eq!(
        balances_call(),
        SdkCall {
            kind: CallKind::Query,
            path: "balance.list".to_string(),
            message: Message::Empty
        }
    );
}

#[test]
fn balances_are_taken_out_of_the_envelope() {
    let list = fetch_balances_list(envelope(Payload::BalancesList(vec![balance("ERA", 5)]))).unwrap();
    assert_eq!(list.len(), 1);
    assert_eq!(
        fetch_balances_list(Err("short".to_string())).unwrap_err(),
        internal("decode Envelope: short")
    );
    assert_eq!(
        fetch_balances_list(envelope(Payload::Other)).unwrap_err(),
        internal("unexpected envelope payload: Some(\"shown\")")
    );
}

#[test]
fn balance_of_a_token() {
    let list = vec![balance("ERA", 5), balance("X", 6), balance("X", 7)];
    let ask = |t: Option<&str>| get_balance(BalanceParams { token_id: t.map(|s| s.to_string()) }, &list);
    assert_eq!(ask(None).unwrap(), balance_json("ERA", 5));
    assert_eq!(ask(Some("X")).unwrap(), balance_json("X", 6));
    assert_eq!(ask(Some("Y")).unwrap_err(), AppError::NotFound("token Y not found".to_string()));
    assert_eq!(token_id_or_era(None), "ERA");
}

#[test]
fn all_balances() {
    let list = vec![balance("ERA", 5), balance("X", 6)];
    assert_eq!(
        get_balances(&list),
        object(vec![(
            "balances",
            Json::List(vec![balance_json("ERA", 5), balance_json("X", 6)])
        )])
    );
    assert_eq!(get_balances(&vec![]), object(vec![("balances", Json::List(vec![]))]));
}

fn contact_request() -> AddContactRequest {
    AddContactRequest {
        alias: "user1".to_string(),
        device_id_hex: "01".repeat(32),
        genesis_hash_hex: "02".repeat(32),
        signing_public_key_hex: "03".repeat(64),
        kyber_public_key_hex: None,
    }
}

#[test]
fn contact_is_prepared() {
    let mut request = contact_request();
    let expected = |kyber: Vec<u8>| NewContact {
        call: SdkCall {
            kind: CallKind::Invoke,
            path: "contacts.addManual".to_string(),
            message: Message::ContactManualAdd {
                alias: "user1".to_string(),
                device_id: vec![1; 32],
                genesis_hash: vec![2; 32],
                signing_public_key: vec![3; 64],
            },
        },
        device_id: vec![1; 32],
        kyber_public_key: kyber,
    };
    assert_eq!(add_contact_call(&request).unwrap(), expected(vec![]));
    request.kyber_public_key_hex = Some(String::new());
    assert_eq!(add_contact_call(&request).unwrap(), expected(vec![]));
    request.kyber_public_key_hex = Some("0aF0".to_string());
    assert_eq!(add_contact_call(&request).unwrap(), expected(vec![0x0a, 0xf0]));
}

#[test]
fn faulty_contacts_are_refused() {
    let refused = |change: fn(&mut AddContactRequest)| {
        let mut request = contact_request();
        change(&mut request);
        add_contact_call(&request).unwrap_err()
    };
    assert_eq!(
        refused(|r| r.device_id_hex = "0".to_string()),
        bad("device_id_hex is not valid hex")
    );
    assert_eq!(
        refused(|r| r.genesis_hash_hex = "zz".to_string()),
        bad("genesis_hash_hex is not valid hex")
    );
    assert_eq!(
        refused(|r| r.signing_public_key_hex = "0x".to_string()),
        bad("signing_public_key_hex is not valid hex")
    );
    assert_eq!(refused(|r| r.device_id_hex = "00".to_string()), bad("device_id must be 32 bytes"));
    assert_eq!(
        refused(|r| r.genesis_hash_hex = String::new()),
        bad("genesis_hash must be 32 bytes")
    );
    assert_eq!(
        refused(|r| r.signing_public_key_hex = "03".repeat(63)),
        bad("signing_public_key must be 64 bytes (SPHINCS+ SPX256s)")
    );
    assert_eq!(
        refused(|r| r.kyber_public_key_hex = Some("q".to_string())),
        bad("kyber_public_key_hex is not valid hex")
    );
    assert_eq!(
        refused(|r| {
            r.device_id_hex = "00".to_string();
            r.signing_public_key_hex = "x".to_string();
        }),
        bad("signing_public_key_hex is not valid hex")
    );
}

#[test]
fn kyber_key_is_patched_where_there_is_one() {
    assert!(patches_kyber_key(&vec![1]));
    assert!(!patches_kyber_key(&vec![]));
}

#[test]
fn added_contact_is_confirmed() {
    assert_eq!(
        add_contact("user1"),
        object(vec![("success", Json::Bool(true)), ("alias", text("user1"))])
    );
}

#[test]
fn faucet_claims_for_this_device() {
    assert_eq!(
        faucet_call(&identity("00ff")).unwrap(),
        SdkCall {
            kind: CallKind::Invoke,
            path: "faucet.claim".to_string(),
            message: Message::FaucetClaim { device_id: vec![0, 0xff] },
        }
    );
    assert_eq!(
        faucet_call(&None).unwrap_err(),
        AppError::SdkNotReady("identity not ready".to_string())
    );
    assert_eq!(
        faucet_call(&identity("abc")).unwrap_err(),
        internal("decode device_id: Odd number of digits")
    );
    assert_eq!(
        faucet_call(&identity("abxc")).unwrap_err(),
        internal("decode device_id: Invalid character 'x' at position 2")
    );
}

#[test]
fn faucet_claim_is_reported() {
    let claim = || FaucetClaimResponse {
        success: true,
        tokens_received: 100,
        message: "ok".to_string(),
    };
    let response = faucet_reply(envelope(Payload::FaucetClaim(claim()))).unwrap();
    let members = || {
        vec![
            ("success", Json::Bool(true)),
            ("tokens_received", Json::Number(100)),
            ("message", text("ok")),
        ]
    };
    assert_eq!(post_faucet(&response, &None), object(members()));
    let mut with_balance = members();
    with_balance.push(("new_balance", Json::Number(5)));
    assert_eq!(
        post_faucet(&response, &Some(vec![balance("X", 9), balance("ERA", 5)])),
        object(with_balance)
    );
    let mut with_none = members();
    with_none.push(("new_balance", Json::Number(0)));
    assert_eq!(post_faucet(&response, &Some(vec![])), object(with_none));
    assert_eq!(
        faucet_reply(envelope(Payload::Inbox(vec![]))).unwrap_err(),
        internal("unexpected envelope payload: Some(\"shown\")")
    );
    assert_eq!(faucet_reply(Err("e".to_string())).unwrap_err(), internal("decode Envelope: e"));
}

#[test]
fn health_follows_the_router() {
    assert_eq!(
        get_health(true),
        (200, object(vec![("status", text("ok")), ("sdk_ready", Json::Bool(true))]))
    );
    assert_eq!(
        get_health(false),
        (503, object(vec![("status", text("starting")), ("sdk_ready", Json::Bool(false))]))
    );
}

#[test]
fn identity_is_shown() {
    let shown = |key: &str| {
        object(vec![
            ("device_id", text("aa")),
            ("genesis_hash", text("bb")),
            ("signing_public_key", text(key)),
            ("kyber_public_key", text("cc")),
        ])
    };
    assert_eq!(get_identity(&identity("aa"), &Some(vec![0xde, 0x01])).unwrap(), shown("de01"));
    assert_eq!(get_identity(&identity("aa"), &None).unwrap(), shown(""));
    assert_eq!(
        get_identity(&None, &None).unwrap_err(),
        AppError::SdkNotReady("identity not yet created — POST /genesis first".to_string())
    );
}

#[test]
fn shown_identity_is_accepted_as_a_contact() {
    let genesis = Genesis {
        device_id: vec![0xd1; 32],
        hash: vec![0xa2; 32],
        public_key: vec![7; 64],
        smt_root: vec![],
        nonce: vec![],
    };
    let state = Some(identity_state(&genesis, &Some(vec![0xfe, 0x01])));
    let members = match get_identity(&state, &Some(vec![7; 64])).unwrap() {
        Json::Object(members) => members,
        other => panic!("{:?}", other),
    };
    let shown = |i: usize| match &members[i].1 {
        Json::Text(t) => t.clone(),
        other => panic!("{:?}", other),
    };
    let new = add_contact_call(&AddContactRequest {
        alias: "peer".to_string(),
        device_id_hex: shown(0),
        genesis_hash_hex: shown(1),
        signing_public_key_hex: shown(2),
        kyber_public_key_hex: Some(shown(3)),
    })
    .unwrap();
    assert_eq!(new.device_id, vec![0xd1; 32]);
    assert_eq!(new.kyber_public_key, vec![0xfe, 0x01]);
    assert_eq!(
        new.call.message,
        Message::ContactManualAdd {
            alias: "peer".to_string(),
            device_id: vec![0xd1; 32],
            genesis_hash: vec![0xa2; 32],
            signing_public_key: vec![7; 64],
        }
    );
}

#[test]
fn own_device_id_is_read() {
    assert_eq!(our_device_id(&identity("0A0b")).unwrap(), vec![10, 11]);
    assert_eq!(
        our_device_id(&None).unwrap_err(),
        AppError::SdkNotReady("identity not ready".to_string())
    );
    assert_eq!(
        our_device_id(&identity("a")).unwrap_err(),
        AppError::Sdk("device_id hex decode: Odd number of digits".to_string())
    );
}

#[test]
fn inbox_is_pulled() {
    let call = |limit: u32| SdkCall {
        kind: CallKind::Query,
        path: "inbox.pull".to_string(),
        message: Message::Inbox { limit, chain_tip: String::new() },
    };
    assert_eq!(inbox_call(&InboxParams { limit: None }), call(50));
    assert_eq!(inbox_call(&InboxParams { limit: Some(3) }), call(3));
    assert_eq!(inbox_call(&InboxParams { limit: Some(0) }), call(0));
}

#[test]
fn inbox_is_listed() {
    let item = InboxItem {
        id: "ID".to_string(),
        preview: "p".to_string(),
        tick: 4,
        sender_id: "s".to_string(),
        payload: vec![0xca, 0xfe],
        is_stale_route: true,
    };
    assert_eq!(
        get_inbox(envelope(Payload::Inbox(vec![item]))).unwrap(),
        object(vec![
            (
                "items",
                Json::List(vec![object(vec![
                    ("id", text("ID")),
                    ("preview", text("p")),
                    ("tick", Json::Number(4)),
                    ("sender_id", text("s")),
                    ("payload_hex", text("cafe")),
                    ("is_stale_route", Json::Bool(true)),
                ])])
            ),
            ("count", Json::Number(1)),
        ])
    );
    assert_eq!(get_inbox(Err("x".to_string())).unwrap_err(), internal("decode Envelope: x"));
    assert_eq!(
        get_inbox(envelope(Payload::Other)).unwrap_err(),
        internal("unexpected envelope payload: Some(\"shown\")")
    );
}

fn ack(ids: &[&str]) -> AckRequest {
    AckRequest { message_ids_b32: ids.iter().map(|s| s.to_string()).collect() }
}

#[test]
fn empty_acknowledgement_is_answered_at_once() {
    assert_eq!(
        post_inbox_ack_plan(&ack(&[]), vec![]).unwrap(),
        AckPlan::Nothing(object(vec![("acked", Json::Number(0))]))
    );
}

#[test]
fn acknowledgement_holds_the_decoded_ids() {
    assert_eq!(
        post_inbox_ack_plan(&ack(&["A", "B"]), vec![Some(vec![1]), Some(vec![2, 3])]).unwrap(),
        AckPlan::Batch(BatchEnvelope {
            message_ids: vec![vec![1], vec![2, 3]],
            batch_signature: vec![],
            atomic_execution: false,
        })
    );
}

#[test]
fn first_faulty_id_is_reported() {
    assert_eq!(
        post_inbox_ack_plan(&ack(&["A", "!", "?"]), vec![Some(vec![1]), None, None]).unwrap_err(),
        bad("message_id is not valid Crockford Base32: !")
    );
}

#[test]
fn batch_is_encoded() {
    assert_eq!(batch_bytes(Ok(vec![1])).unwrap(), vec![1]);
    assert_eq!(batch_bytes(Err("e".to_string())).unwrap_err(), internal("encode BatchEnvelope: e"));
}

#[test]
fn acknowledging_device_is_read() {
    assert_eq!(ack_device_id(&identity("0c")).unwrap(), vec![12]);
    assert_eq!(
        ack_device_id(&None).unwrap_err(),
        AppError::SdkNotReady("identity not ready".to_string())
    );
    assert_eq!(
        ack_device_id(&identity("0")).unwrap_err(),
        internal("decode device_id hex: Odd number of digits")
    );
}

#[test]
fn every_node_is_sent_the_acknowledgement() {
    let post = |url: &str| AckPost {
        url: url.to_string(),
        content_type: "application/octet-stream".to_string(),
        authorization: "DSM DEV:".to_string(),
    };
    assert_eq!(
        ack_posts(&vec!["http://a/".to_string(), "http://b".to_string()], "DEV"),
        vec![post("http://a/api/v2/b0x/ack"), post("http://b/api/v2/b0x/ack")]
    );
}

#[test]
fn failing_nodes_only_lower_the_count() {
    let answer = |statuses: Vec<Option<u16>>| post_inbox_ack(2, &statuses);
    let expected = |acked: u64, total: u64| {
        object(vec![
            ("acked", Json::Number(2)),
            ("acked_nodes", Json::Number(acked)),
            ("total_nodes", Json::Number(total)),
        ])
    };
    assert_eq!(
        answer(vec![Some(200), Some(204), None, Some(500), Some(300), Some(199), Some(299)]),
        expected(3, 7)
    );
    assert_eq!(answer(vec![None, None]), expected(0, 2));
    assert_eq!(answer(vec![]), expected(0, 0));
}

#[test]
fn synchronisation_is_asked_for() {
    assert_eq!(
        sync_call(),
        SdkCall {
            kind: CallKind::Query,
            path: "storage.sync".to_string(),
            message: Message::StorageSync { pull_inbox: true, push_pending: true, limit: 100 },
        }
    );
}

#[test]
fn synchronisation_is_reported() {
    let response = StorageSyncResponse {
        success: false,
        pulled: 1,
        processed: 2,
        pushed: 3,
        errors: vec!["e1".to_string(), "e2".to_string()],
    };
    assert_eq!(
        post_sync(envelope(Payload::StorageSync(response))).unwrap(),
        object(vec![
            ("success", Json::Bool(false)),
            ("pulled", Json::Number(1)),
            ("processed", Json::Number(2)),
            ("pushed", Json::Number(3)),
            ("errors", Json::List(vec![text("e1"), text("e2")])),
        ])
    );
    assert_eq!(post_sync(Err("x".to_string())).unwrap_err(), internal("decode Envelope: x"));
    assert_eq!(
        post_sync(envelope(Payload::Other)).unwrap_err(),
        internal("unexpected envelope payload: Some(\"shown\")")
    );
}

fn transfer(to: &str) -> TransferRequest {
    TransferRequest { to_device_id_hex: to.to_string(), amount: 1000, token_id: None, memo: None }
}

#[test]
fn recipient_is_a_device_id() {
    assert_eq!(post_transfer_recipient(&transfer(&"Ab".repeat(32))).unwrap(), vec![0xab; 32]);
    assert_eq!(
        post_transfer_recipient(&transfer("xyz")).unwrap_err(),
        bad("to_device_id_hex is not valid hex")
    );
    assert_eq!(
        post_transfer_recipient(&transfer(&"00".repeat(31))).unwrap_err(),
        bad("to_device_id_hex must decode to exactly 32 bytes")
    );
}

#[test]
fn transfer_is_prepared() {
    let call = |amount: &str, token_id: &str, memo: &str| SdkCall {
        kind: CallKind::Invoke,
        path: "wallet.sendSmart".to_string(),
        message: Message::OnlineTransferSmart {
            recipient: "REC".to_string(),
            amount: amount.to_string(),
            token_id: token_id.to_string(),
            memo: memo.to_string(),
        },
    };
    assert_eq!(post_transfer_call(transfer("00"), "REC".to_string()), call("1000", "ERA", ""));
    let mut request = transfer("00");
    request.amount = u64::MAX;
    request.token_id = Some("X".to_string());
    request.memo = Some("m".to_string());
    assert_eq!(
        post_transfer_call(request, "REC".to_string()),
        call("18446744073709551615", "X", "m")
    );
}

fn record(id: &str, hash: &str, tx_type: &str) -> TransactionRecord {
    TransactionRecord {
        tx_id: id.to_string(),
        tx_hash: hash.to_string(),
        from_device: String::new(),
        to_device: String::new(),
        amount: 0,
        tx_type: tx_type.to_string(),
        status: String::new(),
        chain_height: 0,
        metadata: Metadata::new(),
    }
}

#[test]
fn transfer_is_reported_with_its_receipt() {
    let response = post_transfer_reply(envelope(Payload::OnlineTransfer(OnlineTransferResponse {
        success: true,
        message: "sent".to_string(),
        new_balance: 42,
    })))
    .unwrap();
    let receipt = post_transfer_receipt(Ok(vec![
        record("f", "H0", "faucet"),
        record("o1", "HZ", "online"),
        record("o2", "H2", "online"),
    ]));
    let expected = |hash: &str, id: &str| {
        object(vec![
            ("success", Json::Bool(true)),
            ("message", text("sent")),
            ("new_balance", Json::Number(42)),
            ("tx_hash", text(hash)),
            ("tx_id", text(id)),
        ])
    };
    assert_eq!(post_transfer(&response, &receipt, &Some(vec![0xbe, 0xef])), expected("beef", "o1"));
    assert_eq!(post_transfer(&response, &receipt, &None), expected("HZ", "o1"));
    assert_eq!(post_transfer(&response, &None, &None), expected("", ""));
    assert!(post_transfer_receipt(Err("locked".to_string())).is_none());
    assert!(post_transfer_receipt(Ok(vec![record("f", "H0", "faucet")])).is_none());
    assert_eq!(post_transfer_reply(Err("x".to_string())).unwrap_err(), internal("decode Envelope: x"));
    assert_eq!(
        post_transfer_reply(envelope(Payload::Other)).unwrap_err(),
        internal("unexpected envelope payload: Some(\"shown\")")
    );
}
