//! `POST /contacts`: adds a counterparty, which must precede a transfer to it.
use vstd::prelude::*;

use crate::error::{AppError, AppErrorModel};
use crate::hexcode::{decode, hex_bytes, hex_round_trip, is_hex};
use crate::json::{text, truth, Fields, Json, JsonModel};
use crate::node::genesis::{reports, GenesisModel};
use crate::node::identity::IdentityState;
use crate::reply::{CallKind, Message, MessageModel, SdkCall, SdkCallModel};
use crate::routes::identity::identity_answer;
use crate::routes::transfer::DEVICE_ID_LEN;

verus! {

/// The length of a genesis hash in bytes.
pub const GENESIS_HASH_LEN: usize = 32;

/// The length of a SPHINCS+ SPX256s signing key in bytes.
pub const SIGNING_KEY_LEN: usize = 64;

/// The body of `POST /contacts`; all but the alias is in hexadecimal.
#[derive(Debug)]
pub struct AddContactRequest {
    pub alias: String,
    pub device_id_hex: String,
    pub genesis_hash_hex: String,
    pub signing_public_key_hex: String,
    /// The counterparty's Kyber key, from its own `GET /identity`; without it nothing can be
    /// sent to the counterparty.
    pub kyber_public_key_hex: Option<String>,
}

/// A contact that is ready to be added.
#[derive(Debug, PartialEq, Eq)]
pub struct NewContact {
    pub call: SdkCall,
    pub device_id: Vec<u8>,
    /// Empty where the request names none.
    pub kyber_public_key: Vec<u8>,
}

/// The mathematical counterpart of [`NewContact`].
pub struct NewContactModel {
    pub call: SdkCallModel,
    pub device_id: Seq<u8>,
    pub kyber_public_key: Seq<u8>,
}

impl View for NewContact {
    type V = NewContactModel;

    open spec fn view(&self) -> NewContactModel {
        NewContactModel {
            call: self.call@,
            device_id: self.device_id@,
            kyber_public_key: self.kyber_public_key@,
        }
    }
}

/// The text of the Kyber key that the request names, empty where it names none.
pub open spec fn kyber_text(kyber_public_key_hex: Option<String>) -> Seq<char> {
    match kyber_public_key_hex {
        Some(text) => text@,
        None => Seq::empty(),
    }
}

/// The contact that `request` describes, or the first thing that is wrong with it.
pub open spec fn contact(request: AddContactRequest) -> Result<NewContactModel, AppErrorModel> {
    let device_id = hex_bytes(request.device_id_hex@);
    let genesis_hash = hex_bytes(request.genesis_hash_hex@);
    let signing_public_key = hex_bytes(request.signing_public_key_hex@);
    if !is_hex(request.device_id_hex@) {
        Err(AppErrorModel::BadRequest("device_id_hex is not valid hex"@))
    } else if !is_hex(request.genesis_hash_hex@) {
        Err(AppErrorModel::BadRequest("genesis_hash_hex is not valid hex"@))
    } else if !is_hex(request.signing_public_key_hex@) {
        Err(AppErrorModel::BadRequest("signing_public_key_hex is not valid hex"@))
    } else if device_id.len() != DEVICE_ID_LEN {
        Err(AppErrorModel::BadRequest("device_id must be 32 bytes"@))
    } else if genesis_hash.len() != GENESIS_HASH_LEN {
        Err(AppErrorModel::BadRequest("genesis_hash must be 32 bytes"@))
    } else if signing_public_key.len() != SIGNING_KEY_LEN {
        Err(AppErrorModel::BadRequest("signing_public_key must be 64 bytes (SPHINCS+ SPX256s)"@))
    } else if !is_hex(kyber_text(request.kyber_public_key_hex)) {
        Err(AppErrorModel::BadRequest("kyber_public_key_hex is not valid hex"@))
    } else {
        Ok(
            NewContactModel {
                call: SdkCallModel {
                    kind: CallKind::Invoke,
                    path: "contacts.addManual"@,
                    message: MessageModel::ContactManualAdd {
                        alias: request.alias@,
                        device_id,
                        genesis_hash,
                        signing_public_key,
                    },
                },
                device_id,
                kyber_public_key: hex_bytes(kyber_text(request.kyber_public_key_hex)),
            },
        )
    }
}

/// Checks the request and prepares the contact.
pub fn add_contact_call(request: &AddContactRequest) -> (r: Result<NewContact, AppError>)
    ensures
        match r {
            Ok(new) => contact(*request) == Ok::<NewContactModel, AppErrorModel>(new@),
            Err(e) => contact(*request) == Err::<NewContactModel, AppErrorModel>(e@),
        },
        r matches Ok(new) ==> {
            &&& new.device_id@ == hex_bytes(request.device_id_hex@)
            &&& new.call.message matches Message::ContactManualAdd {
                alias,
                device_id,
                genesis_hash,
                signing_public_key,
            }
            &&& alias@ == request.alias@
            &&& device_id@ == hex_bytes(request.device_id_hex@)
            &&& genesis_hash@ == hex_bytes(request.genesis_hash_hex@)
            &&& signing_public_key@ == hex_bytes(request.signing_public_key_hex@)
        },
{
    let device_id = match decode(request.device_id_hex.as_str()) {
        Ok(bytes) => bytes,
        Err(_) => return Err(AppError::BadRequest("device_id_hex is not valid hex".to_owned())),
    };
    let genesis_hash = match decode(request.genesis_hash_hex.as_str()) {
        Ok(bytes) => bytes,
        Err(_) => return Err(AppError::BadRequest("genesis_hash_hex is not valid hex".to_owned())),
    };
    let signing_public_key = match decode(request.signing_public_key_hex.as_str()) {
        Ok(bytes) => bytes,
        Err(_) => return Err(
            AppError::BadRequest("signing_public_key_hex is not valid hex".to_owned()),
        ),
    };
    if device_id.len() != DEVICE_ID_LEN {
        return Err(AppError::BadRequest("device_id must be 32 bytes".to_owned()));
    }
    if genesis_hash.len() != GENESIS_HASH_LEN {
        return Err(AppError::BadRequest("genesis_hash must be 32 bytes".to_owned()));
    }
    if signing_public_key.len() != SIGNING_KEY_LEN {
        return Err(
            AppError::BadRequest(
                "signing_public_key must be 64 bytes (SPHINCS+ SPX256s)".to_owned(),
            ),
        );
    }
    let kyber_public_key = match &request.kyber_public_key_hex {
        Some(text) => match decode(text.as_str()) {
            Ok(bytes) => bytes,
            Err(_) => return Err(
                AppError::BadRequest("kyber_public_key_hex is not valid hex".to_owned()),
            ),
        },
        None => Vec::new(),
    };
    proof {
        if request.kyber_public_key_hex is None {
            assert(kyber_public_key@ =~= hex_bytes(kyber_text(request.kyber_public_key_hex)));
        }
    }
    let recorded: Vec<u8> = device_id.clone();
    assert(recorded@ =~= device_id@);
    Ok(
        NewContact {
            call: SdkCall {
                kind: CallKind::Invoke,
                path: "contacts.addManual".to_owned(),
                message: Message::ContactManualAdd {
                    alias: request.alias.clone(),
                    device_id,
                    genesis_hash,
                    signing_public_key,
                },
            },
            device_id: recorded,
            kyber_public_key,
        },
    )
}

/// Whether the Kyber key has to be written into the stored contact, which adding it by hand does
/// not do.
pub fn patches_kyber_key(kyber_public_key: &Vec<u8>) -> (r: bool)
    ensures
        r <==> kyber_public_key@.len() > 0,
{
    !kyber_public_key.is_empty()
}

/// Answers `POST /contacts` once the SDK has added the contact.
pub fn add_contact(alias: &str) -> (r: Json)
    ensures
        r@ == JsonModel::Object(
            seq![("success"@, JsonModel::Bool(true)), ("alias"@, JsonModel::Text(alias@))],
        ),
{
    let fields = Fields::new().with("success", truth(true)).with("alias", text(alias));
    assert(fields@ =~= seq![
        ("success"@, JsonModel::Bool(true)),
        ("alias"@, JsonModel::Text(alias@)),
    ]);
    fields.object()
}

/// A contact that is accepted has a device id, a genesis hash and a signing key of the right
/// lengths; one that is not is refused as a bad request.
pub proof fn accepted_contact_is_complete(request: AddContactRequest)
    ensures
        contact(request) matches Ok(new) ==> {
            &&& new.device_id.len() == DEVICE_ID_LEN
            &&& new.call.message matches MessageModel::ContactManualAdd {
                device_id,
                genesis_hash,
                signing_public_key,
                ..
            }
            &&& device_id == new.device_id
            &&& genesis_hash.len() == GENESIS_HASH_LEN
            &&& signing_public_key.len() == SIGNING_KEY_LEN
        },
        contact(request) matches Err(e) ==> e.status() == 400,
{
}

/// What a node shows of itself under `GET /identity` makes a contact: a request with those texts
/// is accepted, and the contact has the node's own device id, genesis hash and keys.
pub proof fn shown_identity_makes_a_contact(
    request: AddContactRequest,
    state: IdentityState,
    genesis: GenesisModel,
    kyber: Option<Seq<u8>>,
    public_key: Vec<u8>,
)
    requires
        reports(state, genesis, kyber),
        genesis.device_id.len() == DEVICE_ID_LEN,
        genesis.hash.len() == GENESIS_HASH_LEN,
        public_key@.len() == SIGNING_KEY_LEN,
        identity_answer(Some(state), Some(public_key)) matches Ok(JsonModel::Object(shown)) && {
            &&& shown[0] == ("device_id"@, JsonModel::Text(request.device_id_hex@))
            &&& shown[1] == ("genesis_hash"@, JsonModel::Text(request.genesis_hash_hex@))
            &&& shown[2] == (
                "signing_public_key"@,
                JsonModel::Text(request.signing_public_key_hex@),
            )
            &&& shown[3] == (
                "kyber_public_key"@,
                JsonModel::Text(kyber_text(request.kyber_public_key_hex)),
            )
        },
    ensures
        contact(request) == Ok::<NewContactModel, AppErrorModel>(
            NewContactModel {
                call: SdkCallModel {
                    kind: CallKind::Invoke,
                    path: "contacts.addManual"@,
                    message: MessageModel::ContactManualAdd {
                        alias: request.alias@,
                        device_id: genesis.device_id,
                        genesis_hash: genesis.hash,
                        signing_public_key: public_key@,
                    },
                },
                device_id: genesis.device_id,
                kyber_public_key: match kyber {
                    Some(key) => key,
                    None => Seq::empty(),
                },
            },
        ),
{
    hex_round_trip(genesis.device_id);
    hex_round_trip(genesis.hash);
    hex_round_trip(public_key@);
    match kyber {
        Some(key) => {
            hex_round_trip(key);
        },
        None => {
            assert(hex_bytes(Seq::<char>::empty()) =~= Seq::<u8>::empty());
        },
    }
}

/// A request is accepted exactly when every text in it is hexadecimal and the ids and the signing
/// key have their lengths; the contact then has the request's alias and the bytes of each text.
pub proof fn contact_is_what_was_asked(request: AddContactRequest)
    ensures
        ({
            let kyber = match request.kyber_public_key_hex {
                Some(text) => text@,
                None => Seq::empty(),
            };
            match contact(request) {
                Ok(new) => {
                    &&& is_hex(request.device_id_hex@) && request.device_id_hex@.len() == 64
                    &&& is_hex(request.genesis_hash_hex@) && request.genesis_hash_hex@.len() == 64
                    &&& is_hex(request.signing_public_key_hex@)
                    &&& request.signing_public_key_hex@.len() == 128
                    &&& is_hex(kyber)
                    &&& new.device_id == hex_bytes(request.device_id_hex@)
                    &&& new.kyber_public_key == hex_bytes(kyber)
                    &&& new.call.kind == CallKind::Invoke
                    &&& new.call.path == "contacts.addManual"@
                    &&& new.call.message == (MessageModel::ContactManualAdd {
                        alias: request.alias@,
                        device_id: hex_bytes(request.device_id_hex@),
                        genesis_hash: hex_bytes(request.genesis_hash_hex@),
                        signing_public_key: hex_bytes(request.signing_public_key_hex@),
                    })
                },
                Err(e) => {
                    &&& e is BadRequest
                    &&& !is_hex(request.device_id_hex@) || request.device_id_hex@.len() != 64
                        || !is_hex(request.genesis_hash_hex@) || request.genesis_hash_hex@.len()
                        != 64 || !is_hex(request.signing_public_key_hex@)
                        || request.signing_public_key_hex@.len() != 128 || !is_hex(kyber)
                },
            }
        }),
{
}

/// A refusal names the text that is at fault.
pub proof fn refused_contact_is_told_why(request: AddContactRequest)
    ensures
        contact(request) matches Err(e) ==> {
            ||| "device_id"@.is_prefix_of(e.message()) && (!is_hex(request.device_id_hex@)
                || request.device_id_hex@.len() != 64)
            ||| "genesis_hash"@.is_prefix_of(e.message()) && (!is_hex(request.genesis_hash_hex@)
                || request.genesis_hash_hex@.len() != 64)
            ||| "signing_public_key"@.is_prefix_of(e.message()) && (!is_hex(
                request.signing_public_key_hex@,
            ) || request.signing_public_key_hex@.len() != 128)
            ||| "kyber_public_key"@.is_prefix_of(e.message()) && !is_hex(
                kyber_text(request.kyber_public_key_hex),
            )
        },
{
    reveal_strlit("device_id");
    reveal_strlit("genesis_hash");
    reveal_strlit("signing_public_key");
    reveal_strlit("kyber_public_key");
    reveal_strlit("device_id_hex is not valid hex");
    reveal_strlit("genesis_hash_hex is not valid hex");
    reveal_strlit("signing_public_key_hex is not valid hex");
    reveal_strlit("device_id must be 32 bytes");
    reveal_strlit("genesis_hash must be 32 bytes");
    reveal_strlit("signing_public_key must be 64 bytes (SPHINCS+ SPX256s)");
    reveal_strlit("kyber_public_key_hex is not valid hex");
}

} // verus!
