//! `GET /identity`: who this node is.
use vstd::prelude::*;

use crate::error::{answer, AppError, AppErrorModel};
use crate::hexcode::{encode, hex_text};
use crate::json::{text, Fields, Json, JsonModel};
use crate::node::identity::IdentityState;

verus! {

/// The answer to `GET /identity`.
pub open spec fn identity_answer(
    identity: Option<IdentityState>,
    public_key: Option<Vec<u8>>,
) -> Result<JsonModel, AppErrorModel> {
    match identity {
        None => Err(
            AppErrorModel::SdkNotReady("identity not yet created — POST /genesis first"@),
        ),
        Some(state) => Ok(
            JsonModel::Object(
                seq![
                    ("device_id"@, JsonModel::Text(state.device_id_hex@)),
                    ("genesis_hash"@, JsonModel::Text(state.genesis_hash_hex@)),
                    (
                        "signing_public_key"@,
                        JsonModel::Text(
                            match public_key {
                                Some(key) => hex_text(key@),
                                None => Seq::empty(),
                            },
                        ),
                    ),
                    ("kyber_public_key"@, JsonModel::Text(state.kyber_public_key_hex@)),
                ],
            ),
        ),
    }
}

/// Answers `GET /identity`; `public_key` is the signing key that the SDK holds.
pub fn get_identity(identity: &Option<IdentityState>, public_key: &Option<Vec<u8>>) -> (r: Result<
    Json,
    AppError,
>)
    ensures
        answer(r) == identity_answer(*identity, *public_key),
{
    match identity {
        None => Err(
            AppError::SdkNotReady("identity not yet created — POST /genesis first".to_owned()),
        ),
        Some(state) => {
            let key = match public_key {
                Some(key) => encode(key.as_slice()),
                None => String::new(),
            };
            let fields = Fields::new().with("device_id", text(state.device_id_hex.as_str())).with(
                "genesis_hash",
                text(state.genesis_hash_hex.as_str()),
            ).with("signing_public_key", text(key.as_str())).with(
                "kyber_public_key",
                text(state.kyber_public_key_hex.as_str()),
            );
            assert(fields@ =~= identity_answer(*identity, *public_key)->Ok_0->Object_0);
            Ok(fields.object())
        },
    }
}

/// `GET /identity` shows the node's own ids and keys, the signing key in hexadecimal; before there
/// is an identity the answer is that the node is not ready.
pub proof fn identity_is_shown_as_it_is(state: IdentityState, public_key: Option<Vec<u8>>)
    ensures
        identity_answer(Some(state), public_key) matches Ok(body) && {
            &&& body.size() == 4
            &&& body.shows("device_id"@, JsonModel::Text(state.device_id_hex@))
            &&& body.shows("genesis_hash"@, JsonModel::Text(state.genesis_hash_hex@))
            &&& body.shows("kyber_public_key"@, JsonModel::Text(state.kyber_public_key_hex@))
            &&& public_key matches Some(key) ==> body.shows(
                "signing_public_key"@,
                JsonModel::Text(hex_text(key@)),
            )
            &&& public_key is None ==> body.shows(
                "signing_public_key"@,
                JsonModel::Text(Seq::empty()),
            )
        },
        identity_answer(None, public_key) matches Err(e) && e.status() == 503,
{
    reveal_strlit("device_id");
    reveal_strlit("genesis_hash");
    reveal_strlit("signing_public_key");
    reveal_strlit("kyber_public_key");
    let members = identity_answer(Some(state), public_key)->Ok_0->Object_0;
    assert(members[0].0 == "device_id"@);
    assert(members[1].0 == "genesis_hash"@);
    assert(members[2].0 == "signing_public_key"@);
    assert(members[3].0 == "kyber_public_key"@);
}

} // verus!
