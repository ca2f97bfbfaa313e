//! Calls into the SDK's router and the answers that come back.
use vstd::prelude::*;

use crate::error::{AppError, AppErrorModel};
use crate::text::joined;

verus! {

/// The framing byte in front of a version-three envelope.
pub const ENVELOPE_PREFIX: u8 = 3;

/// How a call enters the router.
#[derive(Debug, Clone, Copy, PartialEq, Eq, Structural)]
pub enum CallKind {
    /// As a query, which is routed by path.
    Query,
    /// As an invocation, which is routed by method.
    Invoke,
}

/// The message that a call carries.
#[derive(Debug, PartialEq, Eq)]
pub enum Message {
    /// No message at all: an empty body.
    Empty,
    ContactManualAdd {
        alias: String,
        device_id: Vec<u8>,
        genesis_hash: Vec<u8>,
        signing_public_key: Vec<u8>,
    },
    FaucetClaim { device_id: Vec<u8> },
    Inbox { limit: u32, chain_tip: String },
    StorageSync { pull_inbox: bool, push_pending: bool, limit: u32 },
    OnlineTransferSmart { recipient: String, amount: String, token_id: String, memo: String },
}

/// The mathematical counterpart of [`Message`].
pub enum MessageModel {
    Empty,
    ContactManualAdd {
        alias: Seq<char>,
        device_id: Seq<u8>,
        genesis_hash: Seq<u8>,
        signing_public_key: Seq<u8>,
    },
    FaucetClaim { device_id: Seq<u8> },
    Inbox { limit: u32, chain_tip: Seq<char> },
    StorageSync { pull_inbox: bool, push_pending: bool, limit: u32 },
    OnlineTransferSmart {
        recipient: Seq<char>,
        amount: Seq<char>,
        token_id: Seq<char>,
        memo: Seq<char>,
    },
}

impl View for Message {
    type V = MessageModel;

    open spec fn view(&self) -> MessageModel {
        match self {
            Message::Empty => MessageModel::Empty,
            Message::ContactManualAdd { alias, device_id, genesis_hash, signing_public_key } =>
                MessageModel::ContactManualAdd {
                alias: alias@,
                device_id: device_id@,
                genesis_hash: genesis_hash@,
                signing_public_key: signing_public_key@,
            },
            Message::FaucetClaim { device_id } => MessageModel::FaucetClaim {
                device_id: device_id@,
            },
            Message::Inbox { limit, chain_tip } => MessageModel::Inbox {
                limit: *limit,
                chain_tip: chain_tip@,
            },
            Message::StorageSync { pull_inbox, push_pending, limit } => MessageModel::StorageSync {
                pull_inbox: *pull_inbox,
                push_pending: *push_pending,
                limit: *limit,
            },
            Message::OnlineTransferSmart { recipient, amount, token_id, memo } =>
                MessageModel::OnlineTransferSmart {
                recipient: recipient@,
                amount: amount@,
                token_id: token_id@,
                memo: memo@,
            },
        }
    }
}

/// A call into the SDK's router.
#[derive(Debug, PartialEq, Eq)]
pub struct SdkCall {
    pub kind: CallKind,
    /// The path or the method that the router knows the operation by.
    pub path: String,
    pub message: Message,
}

/// The mathematical counterpart of [`SdkCall`].
pub struct SdkCallModel {
    pub kind: CallKind,
    pub path: Seq<char>,
    pub message: MessageModel,
}

impl View for SdkCall {
    type V = SdkCallModel;

    open spec fn view(&self) -> SdkCallModel {
        SdkCallModel { kind: self.kind, path: self.path@, message: self.message@ }
    }
}

/// How the body of an [`ArgPack`] is encoded.
#[derive(Debug, Clone, Copy, PartialEq, Eq, Structural)]
pub enum Codec {
    Proto,
}

/// The wrapping in which an encoded message reaches the router.
#[derive(Debug, PartialEq, Eq)]
pub struct ArgPack {
    pub schema_hash: Option<Vec<u8>>,
    pub codec: Codec,
    pub body: Vec<u8>,
}

/// Wraps an encoded message for the router; `encoded` is the message on the wire, or the reason
/// why it could not be encoded.
pub fn make_arg_pack(encoded: Result<Vec<u8>, String>) -> (r: Result<ArgPack, AppError>)
    ensures
        match encoded {
            Ok(body) => r == Ok::<ArgPack, AppError>(
                ArgPack { schema_hash: None, codec: Codec::Proto, body },
            ),
            Err(why) => r matches Err(e) && e@ == AppErrorModel::Internal("proto encode: "@ + why@),
        },
{
    match encoded {
        Ok(body) => Ok(ArgPack { schema_hash: None, codec: Codec::Proto, body }),
        Err(why) => Err(AppError::Internal(joined("proto encode: ", why.as_str()))),
    }
}

/// The bytes that go to the router; `encoded` is the [`ArgPack`] on the wire, or the reason why
/// it could not be encoded.
pub fn arg_pack_bytes(encoded: Result<Vec<u8>, String>) -> (r: Result<Vec<u8>, AppError>)
    ensures
        match encoded {
            Ok(bytes) => r == Ok::<Vec<u8>, AppError>(bytes),
            Err(why) => r matches Err(e) && e@ == AppErrorModel::Internal(
                "encode ArgPack: "@ + why@,
            ),
        },
{
    match encoded {
        Ok(bytes) => Ok(bytes),
        Err(why) => Err(AppError::Internal(joined("encode ArgPack: ", why.as_str()))),
    }
}

/// `data` without the envelope's framing byte, if it starts with one.
pub open spec fn unframed(data: Seq<u8>) -> Seq<u8> {
    if data.len() > 0 && data[0] == ENVELOPE_PREFIX {
        data.subrange(1, data.len() as int)
    } else {
        data
    }
}

/// Removes the envelope's framing byte from an SDK answer.
pub fn strip_envelope_prefix(data: &[u8]) -> (r: Result<Vec<u8>, AppError>)
    ensures
        r matches Ok(rest) && rest@ == unframed(data@),
{
    let skipped: usize = if data.len() > 0 && data[0] == ENVELOPE_PREFIX {
        1
    } else {
        0
    };
    let mut rest: Vec<u8> = Vec::new();
    let mut i: usize = skipped;
    while i < data.len()
        invariant
            skipped <= i <= data@.len(),
            rest@ == data@.subrange(skipped as int, i as int),
        decreases data@.len() - i,
    {
        rest.push(data[i]);
        i = i + 1;
        assert(rest@ =~= data@.subrange(skipped as int, i as int));
    }
    assert(rest@ =~= unframed(data@));
    Ok(rest)
}

/// Whatever follows the framing byte comes through unchanged, and so does an answer that
/// carries no framing byte.
pub proof fn framing_is_undone(body: Seq<u8>)
    ensures
        unframed(seq![ENVELOPE_PREFIX] + body) == body,
        body.len() == 0 || body[0] != ENVELOPE_PREFIX ==> unframed(body) == body,
{
    let framed = seq![ENVELOPE_PREFIX] + body;
    assert(framed.subrange(1, framed.len() as int) =~= body);
}

/// What the router answered.
#[derive(Debug)]
pub struct AppResult {
    pub success: bool,
    pub data: Vec<u8>,
    pub error_message: Option<String>,
}

/// What a call to `path` yields: the envelope's bytes, or the reason why there are none.
pub open spec fn reply(path: Seq<char>, outcome: Option<AppResult>) -> Result<
    Seq<u8>,
    AppErrorModel,
> {
    match outcome {
        None => Err(AppErrorModel::SdkNotReady("app router not installed"@)),
        Some(result) => if result.success {
            Ok(unframed(result.data@))
        } else {
            match result.error_message {
                Some(m) => Err(AppErrorModel::Sdk(m@)),
                None => Err(AppErrorModel::Sdk(path + " failed"@)),
            }
        },
    }
}

/// Takes the envelope's bytes out of the answer to a call to `path`; `outcome` is `None` where
/// no router is installed.
pub fn reply_data(path: &str, outcome: Option<AppResult>) -> (r: Result<Vec<u8>, AppError>)
    ensures
        match r {
            Ok(data) => reply(path@, outcome) == Ok::<Seq<u8>, AppErrorModel>(data@),
            Err(e) => reply(path@, outcome) == Err::<Seq<u8>, AppErrorModel>(e@),
        },
{
    match outcome {
        None => Err(AppError::SdkNotReady("app router not installed".to_owned())),
        Some(result) => {
            if !result.success {
                return Err(
                    AppError::Sdk(
                        match result.error_message {
                            Some(m) => m,
                            None => joined(path, " failed"),
                        },
                    ),
                );
            }
            strip_envelope_prefix(result.data.as_slice())
        },
    }
}

/// A call that yields nothing is answered as unavailable where no router is installed, and as
/// refused by the SDK otherwise.
pub proof fn fruitless_call_is_answered(path: Seq<char>, outcome: Option<AppResult>)
    ensures
        match reply(path, outcome) {
            Ok(_) => outcome matches Some(result) && result.success,
            Err(e) => e.status() == (if outcome is None {
                503u16
            } else {
                422u16
            }),
        },
{
}

/// One token's balance.
#[derive(Debug)]
pub struct BalanceEntry {
    pub token_id: String,
    pub available: u64,
    pub locked: u64,
    pub symbol: String,
    pub decimals: u32,
    pub token_name: String,
}

/// The answer to a faucet claim.
#[derive(Debug)]
pub struct FaucetClaimResponse {
    pub success: bool,
    pub tokens_received: u64,
    pub message: String,
}

/// One pending message.
#[derive(Debug)]
pub struct InboxItem {
    pub id: String,
    pub preview: String,
    pub tick: u64,
    pub sender_id: String,
    pub payload: Vec<u8>,
    pub is_stale_route: bool,
}

/// The answer to a storage synchronisation.
#[derive(Debug)]
pub struct StorageSyncResponse {
    pub success: bool,
    pub pulled: u32,
    pub processed: u32,
    pub pushed: u32,
    pub errors: Vec<String>,
}

/// The answer to a transfer.
#[derive(Debug)]
pub struct OnlineTransferResponse {
    pub success: bool,
    pub message: String,
    pub new_balance: u64,
}

/// What an envelope holds.
#[derive(Debug)]
pub enum Payload {
    BalancesList(Vec<BalanceEntry>),
    FaucetClaim(FaucetClaimResponse),
    Inbox(Vec<InboxItem>),
    StorageSync(StorageSyncResponse),
    OnlineTransfer(OnlineTransferResponse),
    /// Anything else, or nothing.
    Other,
}

/// A decoded envelope.
#[derive(Debug)]
pub struct Envelope {
    pub payload: Payload,
    /// The payload in words, for error messages.
    pub payload_text: String,
}

/// The error for an envelope that could not be decoded.
pub open spec fn undecodable(why: Seq<char>) -> AppErrorModel {
    AppErrorModel::Internal("decode Envelope: "@ + why)
}

/// The error for an envelope that holds something else than was asked for.
pub open spec fn unexpected(envelope: Envelope) -> AppErrorModel {
    AppErrorModel::Internal("unexpected envelope payload: "@ + envelope.payload_text@)
}

/// Reports an envelope that could not be decoded.
pub(crate) fn undecodable_error(why: &String) -> (r: AppError)
    ensures
        r@ == undecodable(why@),
{
    AppError::Internal(joined("decode Envelope: ", why.as_str()))
}

/// Reports an envelope by the text of its payload.
pub(crate) fn unexpected_error(payload_text: &String) -> (r: AppError)
    ensures
        r@ == AppErrorModel::Internal("unexpected envelope payload: "@ + payload_text@),
{
    AppError::Internal(joined("unexpected envelope payload: ", payload_text.as_str()))
}

/// An answer of the SDK yields its data without the framing byte if it succeeded; if it did not,
/// the SDK's own words are passed on, or else the operation is named.
pub proof fn answer_is_passed_on(path: Seq<char>, result: AppResult)
    ensures
        result.success ==> (reply(path, Some(result)) matches Ok(data) && (result.data@.len() > 0
            && result.data@[0] == 3 ==> seq![3u8] + data == result.data@) && (result.data@.len()
            == 0 || result.data@[0] != 3 ==> data == result.data@)),
        !result.success ==> (reply(path, Some(result)) matches Err(e) && e is Sdk && match
            result.error_message {
            Some(words) => e.message() == words@,
            None => path.is_prefix_of(e.message()),
        }),
{
    if result.success {
        let data = unframed(result.data@);
        if result.data@.len() > 0 && result.data@[0] == 3 {
            assert(seq![3u8] + data =~= result.data@);
        }
    } else {
        assert((path + " failed"@).subrange(0, path.len() as int) =~= path);
    }
}

/// What went wrong with an envelope is passed on.
pub proof fn envelope_fault_is_passed_on(why: Seq<char>, envelope: Envelope)
    ensures
        undecodable(why) is Internal,
        why.is_suffix_of(undecodable(why).message()),
        "decode Envelope"@.is_prefix_of(undecodable(why).message()),
        unexpected(envelope) is Internal,
        envelope.payload_text@.is_suffix_of(unexpected(envelope).message()),
        "unexpected envelope payload"@.is_prefix_of(unexpected(envelope).message()),
{
    reveal_strlit("decode Envelope");
    reveal_strlit("decode Envelope: ");
    reveal_strlit("unexpected envelope payload");
    reveal_strlit("unexpected envelope payload: ");
    let m = undecodable(why).message();
    assert(why =~= m.subrange(m.len() - why.len(), m.len() as int));
    assert("decode Envelope"@ =~= m.subrange(0, "decode Envelope"@.len() as int));
    let u = unexpected(envelope).message();
    let text = envelope.payload_text@;
    assert(text =~= u.subrange(u.len() - text.len(), u.len() as int));
    assert("unexpected envelope payload"@ =~= u.subrange(
        0,
        "unexpected envelope payload"@.len() as int,
    ));
}

} // verus!
