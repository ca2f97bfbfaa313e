//! `POST /sync`: pulls the inbox and pushes what is pending, which credits incoming transfers.
use vstd::prelude::*;

use crate::error::{answer, AppError, AppErrorModel};
use crate::json::{list, models, number, text, truth, Fields, Json, JsonModel};
use crate::reply::{
    undecodable, undecodable_error, unexpected, unexpected_error, CallKind, Envelope, Message,
    MessageModel, Payload, SdkCall, SdkCallModel, StorageSyncResponse,
};

verus! {

/// The largest number of items that one synchronisation handles.
pub const SYNC_LIMIT: u32 = 100;

/// The call that synchronises with the storage nodes.
pub fn sync_call() -> (r: SdkCall)
    ensures
        r@ == (SdkCallModel {
            kind: CallKind::Query,
            path: "storage.sync"@,
            message: MessageModel::StorageSync {
                pull_inbox: true,
                push_pending: true,
                limit: SYNC_LIMIT,
            },
        }),
{
    SdkCall {
        kind: CallKind::Query,
        path: "storage.sync".to_owned(),
        message: Message::StorageSync { pull_inbox: true, push_pending: true, limit: SYNC_LIMIT },
    }
}

/// The JSON object that reports a synchronisation.
pub open spec fn sync_object(response: StorageSyncResponse) -> JsonModel {
    JsonModel::Object(
        seq![
            ("success"@, JsonModel::Bool(response.success)),
            ("pulled"@, JsonModel::Number(response.pulled as u64)),
            ("processed"@, JsonModel::Number(response.processed as u64)),
            ("pushed"@, JsonModel::Number(response.pushed as u64)),
            (
                "errors"@,
                JsonModel::List(response.errors@.map_values(|e: String| JsonModel::Text(e@))),
            ),
        ],
    )
}

/// The answer to `POST /sync`.
pub open spec fn sync_answer(decoded: Result<Envelope, String>) -> Result<
    JsonModel,
    AppErrorModel,
> {
    match decoded {
        Err(why) => Err(undecodable(why@)),
        Ok(envelope) => match envelope.payload {
            Payload::StorageSync(response) => Ok(sync_object(response)),
            _ => Err(unexpected(envelope)),
        },
    }
}

/// Answers `POST /sync`; `decoded` is the envelope that [`sync_call`] was answered with, or the
/// reason why it could not be decoded.
pub fn post_sync(decoded: Result<Envelope, String>) -> (r: Result<Json, AppError>)
    ensures
        answer(r) == sync_answer(decoded),
{
    match decoded {
        Err(why) => Err(undecodable_error(&why)),
        Ok(envelope) => match envelope.payload {
            Payload::StorageSync(response) => Ok(sync_body(&response)),
            _ => Err(unexpected_error(&envelope.payload_text)),
        },
    }
}

fn sync_body(response: &StorageSyncResponse) -> (r: Json)
    ensures
        r@ == sync_object(*response),
{
    let mut errors: Vec<Json> = Vec::new();
    let mut i: usize = 0;
    while i < response.errors.len()
        invariant
            i <= response.errors@.len(),
            errors@.len() == i,
            forall|j: int|
                0 <= j < i ==> (#[trigger] errors@[j])@ == JsonModel::Text(response.errors@[j]@),
        decreases response.errors@.len() - i,
    {
        errors.push(text(response.errors[i].as_str()));
        i = i + 1;
    }
    assert(models(errors@) =~= response.errors@.map_values(|e: String| JsonModel::Text(e@)));
    let fields = Fields::new().with("success", truth(response.success)).with(
        "pulled",
        number(response.pulled as u64),
    ).with("processed", number(response.processed as u64)).with(
        "pushed",
        number(response.pushed as u64),
    ).with("errors", list(errors));
    assert(fields@ =~= sync_object(*response)->Object_0);
    fields.object()
}

/// The answer to `POST /sync` passes on what the SDK reports: its verdict, its three counts and
/// every error, in order.
pub proof fn synchronisation_is_reported_in_full(response: StorageSyncResponse, listed: Seq<JsonModel>)
    requires
        sync_object(response).shows("errors"@, JsonModel::List(listed)),
    ensures
        sync_object(response).size() == 5,
        sync_object(response).shows("success"@, JsonModel::Bool(response.success)),
        sync_object(response).shows("pulled"@, JsonModel::Number(response.pulled as u64)),
        sync_object(response).shows("processed"@, JsonModel::Number(response.processed as u64)),
        sync_object(response).shows("pushed"@, JsonModel::Number(response.pushed as u64)),
        listed.len() == response.errors@.len(),
        forall|i: int|
            0 <= i < listed.len() ==> #[trigger] listed[i] == JsonModel::Text(response.errors@[i]@),
{
    reveal_strlit("success");
    reveal_strlit("pulled");
    reveal_strlit("processed");
    reveal_strlit("pushed");
    reveal_strlit("errors");
    assert("pulled"@[2] != "pushed"@[2]);
    assert("pulled"@[0] != "errors"@[0]);
    assert("pushed"@[0] != "errors"@[0]);
    let members = sync_object(response)->Object_0;
    assert(members[0].0 == "success"@);
    assert(members[1].0 == "pulled"@);
    assert(members[2].0 == "processed"@);
    assert(members[3].0 == "pushed"@);
    assert(members[4].0 == "errors"@);
    assert(listed == members[4].1->List_0);
}

/// The answer to `POST /sync` lists errors.
pub proof fn synchronisation_lists_errors(response: StorageSyncResponse)
    ensures
        exists|listed: Seq<JsonModel>| #[trigger]
            sync_object(response).shows("errors"@, JsonModel::List(listed)),
{
    reveal_strlit("success");
    reveal_strlit("pulled");
    reveal_strlit("processed");
    reveal_strlit("pushed");
    reveal_strlit("errors");
    assert("pulled"@[2] != "pushed"@[2]);
    assert("pulled"@[0] != "errors"@[0]);
    assert("pushed"@[0] != "errors"@[0]);
    let members = sync_object(response)->Object_0;
    assert(members[4].0 == "errors"@);
    assert(sync_object(response).shows("errors"@, JsonModel::List(members[4].1->List_0)));
}

/// `POST /sync` is answered with a report exactly where the SDK answered with one.
pub proof fn synchronisation_is_answered(decoded: Result<Envelope, String>)
    ensures
        match sync_answer(decoded) {
            Ok(body) => decoded matches Ok(envelope) && envelope.payload matches Payload::StorageSync(
                response,
            ) && body == sync_object(response),
            Err(e) => e is Internal && (decoded matches Ok(envelope) ==> !(
            envelope.payload is StorageSync)),
        },
{
}

} // verus!
