//! `POST /transfer`: an online transfer.
use vstd::prelude::*;

use crate::error::{AppError, AppErrorModel};
use crate::hexcode::{decode, hex_bytes, hex_round_trip, hex_text, is_hex, optional_bytes};
use crate::history::{b32_or_hex_to_hex, shown_id, Notation, TransactionRecord};
use crate::json::{number, text, truth, Fields, Json, JsonModel};
use crate::node::identity::bytes_or_error;
use crate::reply::{
    undecodable, undecodable_error, unexpected, unexpected_error, CallKind, Envelope, Message,
    MessageModel, OnlineTransferResponse, Payload, SdkCall, SdkCallModel,
};
use crate::routes::balance::{named_token_is_meant, token_id_or_era, token_or_era};
use crate::routes::transaction::{
    hashes_are_base32, id_finds_its_transaction, in_base32, is_hash_text, shown_hash_is_found,
    transaction_answer,
};
use crate::search::{first, first_index_is_first, first_index_is_unique};
use crate::text::{decimal, decimal_text, numeral_reads_back, numeral_value};

verus! {

/// The length of a device id in bytes.
pub const DEVICE_ID_LEN: usize = 32;

/// The body of `POST /transfer`.
#[derive(Debug)]
pub struct TransferRequest {
    /// The recipient's device id, in hexadecimal.
    pub to_device_id_hex: String,
    /// The amount in whole tokens.
    pub amount: u64,
    /// The token, "ERA" where absent.
    pub token_id: Option<String>,
    /// A memo, empty where absent.
    pub memo: Option<String>,
}

/// The recipient's device id, or why the request names none.
pub open spec fn transfer_recipient(to_device_id_hex: Seq<char>) -> Result<Seq<u8>, AppErrorModel> {
    if !is_hex(to_device_id_hex) {
        Err(AppErrorModel::BadRequest("to_device_id_hex is not valid hex"@))
    } else if hex_bytes(to_device_id_hex).len() != DEVICE_ID_LEN {
        Err(AppErrorModel::BadRequest("to_device_id_hex must decode to exactly 32 bytes"@))
    } else {
        Ok(hex_bytes(to_device_id_hex))
    }
}

/// Reads the recipient's device id out of the request.
pub fn post_transfer_recipient(request: &TransferRequest) -> (r: Result<Vec<u8>, AppError>)
    ensures
        bytes_or_error(r) == transfer_recipient(request.to_device_id_hex@),
{
    match decode(request.to_device_id_hex.as_str()) {
        Err(_) => Err(AppError::BadRequest("to_device_id_hex is not valid hex".to_owned())),
        Ok(bytes) => {
            if bytes.len() != DEVICE_ID_LEN {
                return Err(
                    AppError::BadRequest(
                        "to_device_id_hex must decode to exactly 32 bytes".to_owned(),
                    ),
                );
            }
            Ok(bytes)
        },
    }
}

/// A transfer is refused for its recipient alone, and then as a bad request; one that is not goes
/// to a device id of the right length.
pub proof fn refused_recipient_is_a_bad_request(to_device_id_hex: Seq<char>)
    ensures
        match transfer_recipient(to_device_id_hex) {
            Ok(device_id) => device_id.len() == DEVICE_ID_LEN,
            Err(e) => e.status() == 400,
        },
{
}

/// Every device id can be sent to: its hexadecimal text names it as the recipient.
pub proof fn every_device_is_a_recipient(device_id: Seq<u8>)
    requires
        device_id.len() == DEVICE_ID_LEN,
    ensures
        transfer_recipient(hex_text(device_id)) == Ok::<Seq<u8>, AppErrorModel>(device_id),
{
    hex_round_trip(device_id);
}

/// The call that sends what `request` asks for to `recipient`.
pub open spec fn transfer_call(request: TransferRequest, recipient: Seq<char>) -> SdkCallModel {
    SdkCallModel {
        kind: CallKind::Invoke,
        path: "wallet.sendSmart"@,
        message: MessageModel::OnlineTransferSmart {
            recipient,
            amount: decimal(request.amount as nat),
            token_id: token_or_era(request.token_id),
            memo: match request.memo {
                Some(memo) => memo@,
                None => Seq::empty(),
            },
        },
    }
}

/// Prepares the transfer; `recipient` is the recipient's device id in Crockford Base32.
pub fn post_transfer_call(request: TransferRequest, recipient: String) -> (r: SdkCall)
    ensures
        r@ == transfer_call(request, recipient@),
        r.message matches Message::OnlineTransferSmart { recipient: to, amount, token_id, memo } && {
            &&& to@ == recipient@
            &&& numeral_value(amount@) == request.amount
            &&& request.token_id matches Some(token) ==> token_id@ == token@
            &&& request.token_id is None ==> token_id@ == "ERA"@
            &&& request.memo matches Some(text) ==> memo@ == text@
            &&& request.memo is None ==> memo@.len() == 0
        },
{
    proof {
        numeral_reads_back(request.amount as nat);
    }
    SdkCall {
        kind: CallKind::Invoke,
        path: "wallet.sendSmart".to_owned(),
        message: Message::OnlineTransferSmart {
            recipient,
            amount: decimal_text(request.amount),
            token_id: token_id_or_era(request.token_id),
            memo: match request.memo {
                Some(memo) => memo,
                None => String::new(),
            },
        },
    }
}

/// Takes the SDK's verdict out of the answer to the transfer; `decoded` is the envelope, or the
/// reason why it could not be decoded.
pub fn post_transfer_reply(decoded: Result<Envelope, String>) -> (r: Result<
    OnlineTransferResponse,
    AppError,
>)
    ensures
        match decoded {
            Err(why) => r matches Err(e) && e@ == undecodable(why@),
            Ok(envelope) => match envelope.payload {
                Payload::OnlineTransfer(response) => r == Ok::<OnlineTransferResponse, AppError>(
                    response,
                ),
                _ => r matches Err(e) && e@ == unexpected(envelope),
            },
        },
{
    match decoded {
        Err(why) => Err(undecodable_error(&why)),
        Ok(envelope) => match envelope.payload {
            Payload::OnlineTransfer(response) => Ok(response),
            _ => Err(unexpected_error(&envelope.payload_text)),
        },
    }
}

/// The first online transaction of the history, if it could be read and holds one.
pub open spec fn online_transaction(history: Result<Vec<TransactionRecord>, String>) -> Option<
    TransactionRecord,
> {
    match history {
        Ok(records) => first(records@, |record: TransactionRecord| record.tx_type@ == "online"@),
        Err(_) => None,
    }
}

/// Picks the transaction that is reported as the transfer's receipt.
pub fn post_transfer_receipt(history: Result<Vec<TransactionRecord>, String>) -> (r: Option<
    TransactionRecord,
>)
    ensures
        r == online_transaction(history),
{
    match history {
        Err(_) => None,
        Ok(records) => {
            let online = "online".to_owned();
            let ghost wanted = |record: TransactionRecord| record.tx_type@ == "online"@;
            let ghost all = records@;
            for record in it: records
                invariant
                    it.seq() == all,
                    online@ == "online"@,
                    wanted == (|record: TransactionRecord| record.tx_type@ == "online"@),
                    history == Ok::<Vec<TransactionRecord>, String>(records),
                    all == records@,
                    forall|j: int| 0 <= j < it.index() ==> !wanted(#[trigger] all[j]),
            {
                if record.tx_type == online {
                    proof {
                        first_index_is_unique(all, wanted, it.index() as int);
                    }
                    return Some(record);
                }
            }
            proof {
                first_index_is_first(all, wanted);
            }
            None
        },
    }
}

/// The answer to `POST /transfer`.
pub open spec fn transfer_object(
    response: OnlineTransferResponse,
    receipt: Option<TransactionRecord>,
    tx_hash: Option<Seq<u8>>,
) -> JsonModel {
    JsonModel::Object(
        seq![
            ("success"@, JsonModel::Bool(response.success)),
            ("message"@, JsonModel::Text(response.message@)),
            ("new_balance"@, JsonModel::Number(response.new_balance)),
            (
                "tx_hash"@,
                JsonModel::Text(
                    match receipt {
                        Some(record) => shown_id(record.tx_hash@, tx_hash),
                        None => Seq::empty(),
                    },
                ),
            ),
            (
                "tx_id"@,
                JsonModel::Text(
                    match receipt {
                        Some(record) => record.tx_id@,
                        None => Seq::empty(),
                    },
                ),
            ),
        ],
    )
}

/// Answers `POST /transfer`; `tx_hash` holds the bytes of the receipt's hash, where that is
/// Crockford Base32.
pub fn post_transfer(
    response: &OnlineTransferResponse,
    receipt: &Option<TransactionRecord>,
    tx_hash: &Option<Vec<u8>>,
) -> (r: Json)
    ensures
        r@ == transfer_object(*response, *receipt, optional_bytes(*tx_hash)),
{
    let (hash, id) = match receipt {
        Some(record) => (
            b32_or_hex_to_hex(record.tx_hash.as_str(), tx_hash),
            record.tx_id.clone(),
        ),
        None => (String::new(), String::new()),
    };
    let fields = Fields::new().with("success", truth(response.success)).with(
        "message",
        text(response.message.as_str()),
    ).with("new_balance", number(response.new_balance)).with("tx_hash", text(hash.as_str())).with(
        "tx_id",
        text(id.as_str()),
    );
    assert(fields@ =~= transfer_object(*response, *receipt, optional_bytes(*tx_hash))->Object_0);
    fields.object()
}

/// What `POST /transfer` answers with can be looked up: under its hash a transaction is found that
/// is shown with that hash, and under its id the transaction itself. The stored hashes up to it
/// are Base32, and no transaction before it answers to its id or has its shown hash for an id.
pub proof fn transfer_can_be_looked_up(
    base32: Notation,
    records: Vec<TransactionRecord>,
    response: OnlineTransferResponse,
    k: int,
)
    requires
        base32.is_base32(),
        0 <= k < records@.len(),
        records@[k].tx_type@ == "online"@,
        forall|j: int| 0 <= j < k ==> (#[trigger] records@[j]).tx_type@ != "online"@,
        hashes_are_base32(base32, records@.take(k + 1)),
        forall|j: int|
            0 <= j < k ==> {
                &&& (#[trigger] records@[j]).tx_id@ != base32.shown_hash(records@[k])
                &&& records@[j].tx_id@ != records@[k].tx_id@
                &&& records@[j].tx_hash@ != records@[k].tx_id@
                &&& in_base32(base32, records@[k].tx_id@) != Some(records@[j].tx_hash@)
            },
    ensures
        ({
            let history = Ok::<Vec<TransactionRecord>, String>(records);
            let receipt = online_transaction(history);
            let hash = base32.shown_hash(records@[k]);
            let id = records@[k].tx_id@;
            let shown = transfer_object(response, receipt, base32.bytes(records@[k].tx_hash@))
                ->Object_0;
            &&& receipt == Some(records@[k])
            &&& shown[3] == ("tx_hash"@, JsonModel::Text(hash))
            &&& shown[4] == ("tx_id"@, JsonModel::Text(id))
            &&& transaction_answer(base32, hash, history) matches Ok(JsonModel::Object(by_hash))
            &&& by_hash[1] == ("tx_hash"@, JsonModel::Text(hash))
            &&& transaction_answer(base32, id, history) matches Ok(JsonModel::Object(by_id))
            &&& by_id[0] == ("tx_id"@, JsonModel::Text(id))
            &&& by_id[1] == ("tx_hash"@, JsonModel::Text(hash))
        }),
{
    let wanted = |record: TransactionRecord| record.tx_type@ == "online"@;
    first_index_is_unique(records@, wanted, k);
    assert(records@.take(k + 1)[k] == records@[k]);
    assert(is_hash_text(base32, records@[k].tx_hash@));
    shown_hash_is_found(base32, records, k);
    id_finds_its_transaction(base32, records, k);
}

/// What is sent is what the request asks for: to the recipient, the amount in decimal, the token
/// that is named or ERA, and the memo, if any. Neither of these depends on the others.
pub proof fn transfer_sends_what_is_asked(request: TransferRequest, recipient: Seq<char>)
    ensures
        ({
            let call = transfer_call(request, recipient);
            &&& call.kind == CallKind::Invoke
            &&& call.path == "wallet.sendSmart"@
            &&& call.message matches MessageModel::OnlineTransferSmart {
                recipient: to,
                amount,
                token_id,
                memo,
            }
            &&& to == recipient
            &&& numeral_value(amount) == request.amount
            &&& amount == decimal(request.amount as nat)
            &&& request.token_id matches Some(token) ==> token_id == token@
            &&& request.token_id is None ==> token_id == seq!['E', 'R', 'A']
            &&& request.memo matches Some(text) ==> memo == text@
            &&& request.memo is None ==> memo.len() == 0
        }),
{
    numeral_reads_back(request.amount as nat);
    match request.token_id {
        Some(token) => {
            named_token_is_meant(token);
        },
        None => {
            reveal_strlit("ERA");
            assert("ERA"@ =~= seq!['E', 'R', 'A']);
        },
    }
}

/// Requests that differ only in their memo are sent alike but for the memo.
pub proof fn memo_changes_nothing_else(
    left: TransferRequest,
    right: TransferRequest,
    recipient: Seq<char>,
)
    requires
        left.amount == right.amount,
        left.token_id == right.token_id,
    ensures
        ({
            let call = transfer_call(left, recipient);
            let other = transfer_call(right, recipient);
            &&& call.kind == other.kind
            &&& call.path == other.path
            &&& call.message matches MessageModel::OnlineTransferSmart {
                recipient: to,
                amount,
                token_id,
                ..
            }
            &&& other.message matches MessageModel::OnlineTransferSmart {
                recipient: other_to,
                amount: other_amount,
                token_id: other_token,
                ..
            }
            &&& to == other_to
            &&& amount == other_amount
            &&& token_id == other_token
        }),
{
    transfer_sends_what_is_asked(left, recipient);
    transfer_sends_what_is_asked(right, recipient);
}

/// Different amounts, tokens or recipients are never sent alike.
pub proof fn different_transfers_are_sent_differently(
    left: TransferRequest,
    left_recipient: Seq<char>,
    right: TransferRequest,
    right_recipient: Seq<char>,
)
    requires
        transfer_call(left, left_recipient) == transfer_call(right, right_recipient),
    ensures
        left_recipient == right_recipient,
        left.amount == right.amount,
        token_or_era(left.token_id) == token_or_era(right.token_id),
{
    transfer_sends_what_is_asked(left, left_recipient);
    transfer_sends_what_is_asked(right, right_recipient);
}

/// The recipient is the device whose id is spelt in hexadecimal, in either case; a text that is no
/// hexadecimal or stands for another number of bytes is refused, and told why.
pub proof fn recipient_is_the_spelt_device(spelling: Seq<char>)
    ensures
        is_hex(spelling) && spelling.len() == 64 ==> transfer_recipient(spelling) == Ok::<
            Seq<u8>,
            AppErrorModel,
        >(hex_bytes(spelling)),
        !is_hex(spelling) ==> (transfer_recipient(spelling) matches Err(e) && e is BadRequest
            && e.message() == "to_device_id_hex is not valid hex"@),
        is_hex(spelling) && spelling.len() != 64 ==> (transfer_recipient(spelling) matches Err(e)
            && e is BadRequest && e.message()
            == "to_device_id_hex must decode to exactly 32 bytes"@),
{
}

/// The receipt is the first online transaction of the history; there is none exactly where the
/// history holds none or cannot be read.
pub proof fn receipt_is_the_first_online_transaction(history: Result<Vec<TransactionRecord>, String>)
    ensures
        match history {
            Err(_) => online_transaction(history) is None,
            Ok(records) => match online_transaction(history) {
                Some(record) => record.tx_type@ == "online"@ && exists|i: int|
                    0 <= i < records@.len() && #[trigger] records@[i] == record && forall|j: int|
                        0 <= j < i ==> (#[trigger] records@[j]).tx_type@ != "online"@,
                None => forall|i: int|
                    0 <= i < records@.len() ==> (#[trigger] records@[i]).tx_type@ != "online"@,
            },
        },
{
    if let Ok(records) = history {
        let wanted = |record: TransactionRecord| record.tx_type@ == "online"@;
        first_index_is_first(records@, wanted);
        assert forall|j: int| 0 <= j < records@.len() implies wanted(#[trigger] records@[j]) == (
        records@[j].tx_type@ == "online"@) by {}
        if let Some(record) = online_transaction(history) {
            let i = choose|i: int|
                0 <= i < records@.len() && #[trigger] records@[i] == record && forall|j: int|
                    0 <= j < i ==> !wanted(#[trigger] records@[j]);
            assert(records@[i] == record);
        }
    }
}

/// The answer to `POST /transfer` passes on the SDK's verdict and names the receipt, if there is
/// one, by its own hash and id.
pub proof fn transfer_is_answered_with_its_receipt(
    response: OnlineTransferResponse,
    receipt: Option<TransactionRecord>,
    tx_hash: Option<Seq<u8>>,
)
    ensures
        ({
            let body = transfer_object(response, receipt, tx_hash);
            &&& body.size() == 5
            &&& body.shows("success"@, JsonModel::Bool(response.success))
            &&& body.shows("message"@, JsonModel::Text(response.message@))
            &&& body.shows("new_balance"@, JsonModel::Number(response.new_balance))
            &&& receipt matches Some(record) ==> body.shows("tx_id"@, JsonModel::Text(record.tx_id@))
            &&& receipt matches Some(record) ==> body.shows(
                "tx_hash"@,
                JsonModel::Text(shown_id(record.tx_hash@, tx_hash)),
            )
            &&& receipt is None ==> body.shows("tx_id"@, JsonModel::Text(Seq::empty()))
            &&& receipt is None ==> body.shows("tx_hash"@, JsonModel::Text(Seq::empty()))
        }),
{
    reveal_strlit("success");
    reveal_strlit("message");
    reveal_strlit("new_balance");
    reveal_strlit("tx_hash");
    reveal_strlit("tx_id");
    assert("success"@[0] != "message"@[0]);
    assert("success"@[0] != "tx_hash"@[0]);
    assert("message"@[0] != "tx_hash"@[0]);
    let members = transfer_object(response, receipt, tx_hash)->Object_0;
    assert(members[0].0 == "success"@);
    assert(members[1].0 == "message"@);
    assert(members[2].0 == "new_balance"@);
    assert(members[3].0 == "tx_hash"@);
    assert(members[4].0 == "tx_id"@);
}

} // verus!
