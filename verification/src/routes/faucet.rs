//! `POST /faucet`: claims test tokens for this device.
use vstd::prelude::*;

use crate::error::{AppError, AppErrorModel};
use crate::hexcode::{hex_bytes, is_hex};
use crate::json::{number, text, truth, Fields, Json, JsonModel};
use crate::node::identity::{device_id_of, known_device_id, IdentityState};
use crate::reply::{
    undecodable, undecodable_error, unexpected, unexpected_error, BalanceEntry, CallKind, Envelope,
    FaucetClaimResponse, Message, MessageModel, Payload, SdkCall, SdkCallModel,
};
use crate::routes::balance::{find_balance, of_token};
use crate::search::{first, first_index, first_index_is_first};
use crate::text::joined;

verus! {

/// The call that claims tokens for this device, or why there is none to claim for.
pub open spec fn faucet_call_answer(identity: Option<IdentityState>) -> Result<
    SdkCallModel,
    AppErrorModel,
> {
    match device_id_of(
        identity,
        |why: Seq<char>| AppErrorModel::Internal("decode device_id: "@ + why),
    ) {
        Ok(device_id) => Ok(
            SdkCallModel {
                kind: CallKind::Invoke,
                path: "faucet.claim"@,
                message: MessageModel::FaucetClaim { device_id },
            },
        ),
        Err(e) => Err(e),
    }
}

/// Prepares the claim for this device.
pub fn faucet_call(identity: &Option<IdentityState>) -> (r: Result<SdkCall, AppError>)
    ensures
        match r {
            Ok(call) => faucet_call_answer(*identity) == Ok::<SdkCallModel, AppErrorModel>(call@),
            Err(e) => faucet_call_answer(*identity) == Err::<SdkCallModel, AppErrorModel>(e@),
        },
        r matches Ok(call) ==> (identity matches Some(state) && call.message matches
            Message::FaucetClaim { device_id } && device_id@ == hex_bytes(state.device_id_hex@)),
{
    match known_device_id(identity) {
        Err(e) => Err(e),
        Ok(Err(why)) => Err(AppError::Internal(joined("decode device_id: ", why.as_str()))),
        Ok(Ok(device_id)) => Ok(
            SdkCall {
                kind: CallKind::Invoke,
                path: "faucet.claim".to_owned(),
                message: Message::FaucetClaim { device_id },
            },
        ),
    }
}

/// Takes the SDK's verdict out of the answer to the claim; `decoded` is the envelope, or the
/// reason why it could not be decoded.
pub fn faucet_reply(decoded: Result<Envelope, String>) -> (r: Result<FaucetClaimResponse, AppError>)
    ensures
        match decoded {
            Err(why) => r matches Err(e) && e@ == undecodable(why@),
            Ok(envelope) => match envelope.payload {
                Payload::FaucetClaim(response) => r == Ok::<FaucetClaimResponse, AppError>(response),
                _ => r matches Err(e) && e@ == unexpected(envelope),
            },
        },
{
    match decoded {
        Err(why) => Err(undecodable_error(&why)),
        Ok(envelope) => match envelope.payload {
            Payload::FaucetClaim(response) => Ok(response),
            _ => Err(unexpected_error(&envelope.payload_text)),
        },
    }
}

/// What `balances` say can be spent of the token that the faucet gives out.
pub open spec fn era_available(balances: Seq<BalanceEntry>) -> u64 {
    match first(balances, of_token("ERA"@)) {
        Some(entry) => entry.available,
        None => 0,
    }
}

fn available_era(balances: &Vec<BalanceEntry>) -> (r: u64)
    ensures
        r == era_available(balances@),
{
    match find_balance(balances, &"ERA".to_owned()) {
        Some(entry) => entry.available,
        None => 0,
    }
}

/// The answer to `POST /faucet`.
pub open spec fn faucet_object(
    response: FaucetClaimResponse,
    balances: Option<Vec<BalanceEntry>>,
) -> JsonModel {
    let claimed = seq![
        ("success"@, JsonModel::Bool(response.success)),
        ("tokens_received"@, JsonModel::Number(response.tokens_received)),
        ("message"@, JsonModel::Text(response.message@)),
    ];
    JsonModel::Object(
        match balances {
            Some(list) => claimed.push(("new_balance"@, JsonModel::Number(era_available(list@)))),
            None => claimed,
        },
    )
}

/// Answers `POST /faucet`; `balances` are those after the claim, where they could be had.
pub fn post_faucet(response: &FaucetClaimResponse, balances: &Option<Vec<BalanceEntry>>) -> (r: Json)
    ensures
        r@ == faucet_object(*response, *balances),
{
    let fields = Fields::new().with("success", truth(response.success)).with(
        "tokens_received",
        number(response.tokens_received),
    ).with("message", text(response.message.as_str()));
    match balances {
        Some(list) => {
            let fields = fields.with("new_balance", number(available_era(list)));
            assert(fields@ =~= faucet_object(*response, *balances)->Object_0);
            fields.object()
        },
        None => {
            assert(fields@ =~= faucet_object(*response, *balances)->Object_0);
            fields.object()
        },
    }
}

/// Tokens are claimed for this node's own device; without an identity there is nothing to claim for.
pub proof fn tokens_are_claimed_for_this_device(state: IdentityState)
    ensures
        is_hex(state.device_id_hex@) ==> (faucet_call_answer(Some(state)) matches Ok(call)
            && call.kind == CallKind::Invoke && call.path == "faucet.claim"@ && call.message == (
        MessageModel::FaucetClaim { device_id: hex_bytes(state.device_id_hex@) })),
        !is_hex(state.device_id_hex@) ==> (faucet_call_answer(Some(state)) matches Err(e)
            && e is Internal),
        faucet_call_answer(None) matches Err(e) && e is SdkNotReady,
{
}

/// The new balance is what can be spent of the first ERA balance in the list, and zero without one.
pub proof fn new_balance_is_that_of_era(balances: Seq<BalanceEntry>)
    ensures
        (exists|i: int|
            {
                &&& 0 <= i < balances.len()
                &&& (#[trigger] balances[i]).token_id@ == seq!['E', 'R', 'A']
                &&& balances[i].available == era_available(balances)
                &&& forall|j: int|
                    0 <= j < i ==> (#[trigger] balances[j]).token_id@ != seq!['E', 'R', 'A']
            }) || (era_available(balances) == 0 && forall|i: int|
            0 <= i < balances.len() ==> (#[trigger] balances[i]).token_id@ != seq!['E', 'R', 'A']),
{
    reveal_strlit("ERA");
    assert("ERA"@ =~= seq!['E', 'R', 'A']);
    let wanted = of_token("ERA"@);
    first_index_is_first(balances, wanted);
    assert forall|j: int| 0 <= j < balances.len() implies wanted(#[trigger] balances[j]) == (
    balances[j].token_id@ == seq!['E', 'R', 'A']) by {}
    if let Some(i) = first_index(balances, wanted) {
        assert(balances[i].available == era_available(balances));
    }
}

/// The answer to `POST /faucet` passes on what the SDK reports of the claim, and shows the new
/// balance exactly where the balances could be had.
pub proof fn claim_is_reported_in_full(
    response: FaucetClaimResponse,
    balances: Option<Vec<BalanceEntry>>,
)
    ensures
        ({
            let body = faucet_object(response, balances);
            &&& body.shows("success"@, JsonModel::Bool(response.success))
            &&& body.shows("tokens_received"@, JsonModel::Number(response.tokens_received))
            &&& body.shows("message"@, JsonModel::Text(response.message@))
            &&& balances matches Some(list) ==> body.size() == 4 && body.shows(
                "new_balance"@,
                JsonModel::Number(era_available(list@)),
            )
            &&& balances is None ==> body.size() == 3
        }),
{
    reveal_strlit("success");
    reveal_strlit("tokens_received");
    reveal_strlit("message");
    reveal_strlit("new_balance");
    assert("success"@[0] != "message"@[0]);
    let members = faucet_object(response, balances)->Object_0;
    assert(members[0].0 == "success"@);
    assert(members[1].0 == "tokens_received"@);
    assert(members[2].0 == "message"@);
    if balances is Some {
        assert(members[3].0 == "new_balance"@);
    }
}

} // verus!
