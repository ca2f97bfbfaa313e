//! What the node derives its identity from, and what it records and publishes about it.
use vstd::prelude::*;
use vstd::utf8::{encode_utf8, encode_utf8_decode_utf8};

use crate::config::Config;
use crate::error::AppErrorModel;
use crate::hexcode::{encode, hex_bytes, hex_round_trip, hex_text, is_hex, optional_bytes};
use crate::node::identity::{device_id_of, IdentityState};
use crate::text::{both_ends_are_kept, joined};

verus! {

/// The version of the genesis derivation.
pub const GENESIS_VERSION: u32 = 3;

/// What a genesis is derived from, besides the wallet seed and the authority policy.
#[derive(Debug)]
pub struct GenesisInput {
    pub network: Vec<u8>,
    pub wallet_index: u32,
    pub device_slot: u32,
    pub genesis_version: u32,
}

/// Whether `input` is what the genesis of the primary device on the configured network is derived
/// from.
pub open spec fn derives(input: GenesisInput, config: Config) -> bool {
    &&& input.network@ == encode_utf8(config.node.network@)
    &&& input.wallet_index == 0
    &&& input.device_slot == 0
    &&& input.genesis_version == GENESIS_VERSION
}

/// Settles what the genesis of the primary device on the configured network is derived from.
pub fn genesis_input(config: &Config) -> (r: GenesisInput)
    ensures
        derives(r, *config),
{
    GenesisInput {
        network: config.node.network.as_str().as_bytes_vec(),
        wallet_index: 0,
        device_slot: 0,
        genesis_version: GENESIS_VERSION,
    }
}

/// What the derivation gave.
#[derive(Debug)]
pub struct GenesisOutcome {
    pub device_id: Option<Vec<u8>>,
    pub hash: Vec<u8>,
    pub public_key: Vec<u8>,
    pub merkle_root: Option<Vec<u8>>,
    pub nonce: Vec<u8>,
}

/// The genesis that the node goes by.
#[derive(Debug)]
pub struct Genesis {
    pub device_id: Vec<u8>,
    pub hash: Vec<u8>,
    pub public_key: Vec<u8>,
    pub smt_root: Vec<u8>,
    pub nonce: Vec<u8>,
}

/// The mathematical counterpart of [`Genesis`].
pub struct GenesisModel {
    pub device_id: Seq<u8>,
    pub hash: Seq<u8>,
    pub public_key: Seq<u8>,
    pub smt_root: Seq<u8>,
    pub nonce: Seq<u8>,
}

impl View for Genesis {
    type V = GenesisModel;

    open spec fn view(&self) -> GenesisModel {
        GenesisModel {
            device_id: self.device_id@,
            hash: self.hash@,
            public_key: self.public_key@,
            smt_root: self.smt_root@,
            nonce: self.nonce@,
        }
    }
}

/// The genesis that a derivation amounts to, or why there is none. Without a Merkle root of its
/// own a genesis has its hash for one.
pub open spec fn settled(outcome: Result<GenesisOutcome, String>) -> Result<
    GenesisModel,
    Seq<char>,
> {
    match outcome {
        Err(why) => Err("genesis v3 derivation failed: "@ + why@),
        Ok(genesis) => match genesis.device_id {
            None => Err("v3 genesis missing device_id"@),
            Some(device_id) => Ok(
                GenesisModel {
                    device_id: device_id@,
                    hash: genesis.hash@,
                    public_key: genesis.public_key@,
                    smt_root: match genesis.merkle_root {
                        Some(root) => root@,
                        None => genesis.hash@,
                    },
                    nonce: genesis.nonce@,
                },
            ),
        },
    }
}

/// Settles the genesis that the node goes by.
pub fn settle_genesis(outcome: Result<GenesisOutcome, String>) -> (r: Result<Genesis, String>)
    ensures
        match r {
            Ok(genesis) => settled(outcome) == Ok::<GenesisModel, Seq<char>>(genesis@),
            Err(why) => settled(outcome) == Err::<GenesisModel, Seq<char>>(why@),
        },
{
    match outcome {
        Err(why) => Err(joined("genesis v3 derivation failed: ", why.as_str())),
        Ok(genesis) => match genesis.device_id {
            None => Err("v3 genesis missing device_id".to_owned()),
            Some(device_id) => {
                let smt_root = match genesis.merkle_root {
                    Some(root) => root,
                    None => {
                        let root: Vec<u8> = genesis.hash.clone();
                        assert(root@ =~= genesis.hash@);
                        root
                    },
                };
                Ok(
                    Genesis {
                        device_id,
                        hash: genesis.hash,
                        public_key: genesis.public_key,
                        smt_root,
                        nonce: genesis.nonce,
                    },
                )
            },
        },
    }
}

/// Parts of a genesis in Crockford Base32.
#[derive(Debug)]
pub struct GenesisIds {
    pub device_id: String,
    pub hash: String,
    pub nonce: String,
    pub smt_root: String,
}

/// The mathematical counterpart of [`GenesisIds`].
pub struct GenesisIdsModel {
    pub device_id: Seq<char>,
    pub hash: Seq<char>,
    pub nonce: Seq<char>,
    pub smt_root: Seq<char>,
}

impl View for GenesisIds {
    type V = GenesisIdsModel;

    open spec fn view(&self) -> GenesisIdsModel {
        GenesisIdsModel {
            device_id: self.device_id@,
            hash: self.hash@,
            nonce: self.nonce@,
            smt_root: self.smt_root@,
        }
    }
}

/// The public record of a genesis in the local store.
#[derive(Debug)]
pub struct GenesisRecord {
    pub genesis_id: String,
    pub device_id: String,
    pub mpc_proof: String,
    pub device_birth_binding: String,
    pub merkle_root: String,
    pub participant_count: u32,
    pub progress_marker: String,
    pub publication_hash: String,
    pub storage_nodes: Vec<String>,
    pub entropy_hash: String,
    pub protocol_version: String,
    pub hash_chain_proof: Option<Vec<u8>>,
    pub smt_proof: Option<Vec<u8>>,
    pub verification_step: Option<u64>,
    pub genesis_nonce: String,
    pub genesis_profile: String,
    pub network_id: String,
}

/// Whether `record` is the public record of the genesis with these ids.
pub open spec fn records(record: GenesisRecord, config: Config, ids: GenesisIdsModel) -> bool {
    &&& record.genesis_id@ == ids.hash
    &&& record.device_id@ == ids.device_id
    &&& record.mpc_proof@ == Seq::<char>::empty()
    &&& record.device_birth_binding@ == Seq::<char>::empty()
    &&& record.merkle_root@ == ids.smt_root
    &&& record.participant_count == 0
    &&& record.progress_marker@ == "genesis"@
    &&& record.publication_hash@ == ids.hash
    &&& record.storage_nodes@ == config.storage.endpoints@
    &&& record.entropy_hash@ == ids.nonce
    &&& record.protocol_version@ == "genesis-v3"@
    &&& record.hash_chain_proof is None
    &&& record.smt_proof is None
    &&& record.verification_step is None
    &&& record.genesis_nonce@ == ids.nonce
    &&& record.genesis_profile@ == "MnemonicV3"@
    &&& record.network_id@ == config.node.network@
}

/// Fills in the public record of the node's genesis.
pub fn genesis_record(config: &Config, ids: &GenesisIds) -> (r: GenesisRecord)
    ensures
        records(r, *config, ids@),
{
    let storage_nodes: Vec<String> = config.storage.endpoints.clone();
    assert(storage_nodes@ =~= config.storage.endpoints@);
    GenesisRecord {
        genesis_id: ids.hash.clone(),
        device_id: ids.device_id.clone(),
        mpc_proof: String::new(),
        device_birth_binding: String::new(),
        merkle_root: ids.smt_root.clone(),
        participant_count: 0,
        progress_marker: "genesis".to_owned(),
        publication_hash: ids.hash.clone(),
        storage_nodes,
        entropy_hash: ids.nonce.clone(),
        protocol_version: "genesis-v3".to_owned(),
        hash_chain_proof: None,
        smt_proof: None,
        verification_step: None,
        genesis_nonce: ids.nonce.clone(),
        genesis_profile: "MnemonicV3".to_owned(),
        network_id: config.node.network.clone(),
    }
}

/// The announcement of a genesis to the storage nodes' registry.
#[derive(Debug)]
pub struct GenesisCreated {
    pub device_id: Vec<u8>,
    pub genesis_hash: Vec<u8>,
    pub public_key: Vec<u8>,
    pub smt_root: Vec<u8>,
    pub device_entropy: Vec<u8>,
    pub session_id: String,
    pub threshold: u32,
    pub storage_nodes: Vec<String>,
    pub network_id: String,
    pub locale: String,
}

/// Whether `created` announces `genesis`.
pub open spec fn announces(created: GenesisCreated, config: Config, genesis: GenesisModel) -> bool {
    &&& created.device_id@ == genesis.device_id
    &&& created.genesis_hash@ == genesis.hash
    &&& created.public_key@ == genesis.public_key
    &&& created.smt_root@ == genesis.smt_root
    &&& created.device_entropy@ == genesis.nonce
    &&& created.session_id@ == Seq::<char>::empty()
    &&& created.threshold == 0
    &&& created.storage_nodes@ == config.storage.endpoints@
    &&& created.network_id@ == config.node.network@
    &&& created.locale@ == "en"@
}

/// A copy of `bytes`.
pub(crate) fn copied(bytes: &Vec<u8>) -> (r: Vec<u8>)
    ensures
        r@ == bytes@,
{
    let r: Vec<u8> = bytes.clone();
    assert(r@ =~= bytes@);
    r
}

/// Announces the node's genesis, so that peers can verify it.
pub fn publish_genesis_to_registry(config: &Config, genesis: &Genesis) -> (r: GenesisCreated)
    ensures
        announces(r, *config, genesis@),
{
    let storage_nodes: Vec<String> = config.storage.endpoints.clone();
    assert(storage_nodes@ =~= config.storage.endpoints@);
    GenesisCreated {
        device_id: copied(&genesis.device_id),
        genesis_hash: copied(&genesis.hash),
        public_key: copied(&genesis.public_key),
        smt_root: copied(&genesis.smt_root),
        device_entropy: copied(&genesis.nonce),
        session_id: String::new(),
        threshold: 0,
        storage_nodes,
        network_id: config.node.network.clone(),
        locale: "en".to_owned(),
    }
}

/// Puts together what the SDK context's entropy is hashed from: the device id, the genesis hash
/// and the wallet seed, one after another.
pub fn entropy_input(device_id: &[u8], genesis_hash: &[u8], wallet_seed: &[u8]) -> (r: Vec<u8>)
    ensures
        r@ == device_id@ + genesis_hash@ + wallet_seed@,
{
    let mut r: Vec<u8> = Vec::new();
    r.extend_from_slice(device_id);
    r.extend_from_slice(genesis_hash);
    r.extend_from_slice(wallet_seed);
    assert(r@ =~= device_id@ + genesis_hash@ + wallet_seed@);
    r
}

/// Whether `state` is the identity that reports `genesis`, with `kyber` for its Kyber key.
pub open spec fn reports(
    state: IdentityState,
    genesis: GenesisModel,
    kyber: Option<Seq<u8>>,
) -> bool {
    &&& state.device_id_hex@ == hex_text(genesis.device_id)
    &&& state.genesis_hash_hex@ == hex_text(genesis.hash)
    &&& state.kyber_public_key_hex@ == (match kyber {
        Some(key) => hex_text(key),
        None => Seq::empty(),
    })
}

/// The identity that the node reports; the Kyber key may be missing.
pub fn identity_state(genesis: &Genesis, kyber: &Option<Vec<u8>>) -> (r: IdentityState)
    ensures
        reports(r, genesis@, optional_bytes(*kyber)),
{
    IdentityState {
        device_id_hex: encode(genesis.device_id.as_slice()),
        genesis_hash_hex: encode(genesis.hash.as_slice()),
        kyber_public_key_hex: match kyber {
            Some(key) => encode(key.as_slice()),
            None => String::new(),
        },
    }
}

/// The identity that the node reports can always be read back: both its ids are hexadecimal and
/// stand for those of the genesis, so no handler ever fails on them.
pub proof fn reported_identity_reads_back(
    state: IdentityState,
    genesis: GenesisModel,
    kyber: Option<Seq<u8>>,
    not_hex: spec_fn(Seq<char>) -> AppErrorModel,
)
    requires
        reports(state, genesis, kyber),
    ensures
        device_id_of(Some(state), not_hex) == Ok::<Seq<u8>, AppErrorModel>(genesis.device_id),
        is_hex(state.genesis_hash_hex@),
        hex_bytes(state.genesis_hash_hex@) == genesis.hash,
        is_hex(state.kyber_public_key_hex@),
{
    hex_round_trip(genesis.device_id);
    hex_round_trip(genesis.hash);
    match kyber {
        Some(key) => {
            hex_round_trip(key);
        },
        None => {},
    }
}

/// The same genesis is always reported with the same ids: across restarts the identity is stable
/// as long as the genesis is, whatever becomes of the Kyber key.
pub proof fn identity_is_stable(
    first: IdentityState,
    second: IdentityState,
    genesis: GenesisModel,
    other: GenesisModel,
    kyber: Option<Seq<u8>>,
    other_kyber: Option<Seq<u8>>,
)
    requires
        reports(first, genesis, kyber),
        reports(second, other, other_kyber),
    ensures
        genesis.device_id == other.device_id <==> first.device_id_hex@ == second.device_id_hex@,
        genesis.hash == other.hash <==> first.genesis_hash_hex@ == second.genesis_hash_hex@,
{
    hex_round_trip(genesis.device_id);
    hex_round_trip(other.device_id);
    hex_round_trip(genesis.hash);
    hex_round_trip(other.hash);
}

/// The genesis is derived for the primary device of the first wallet, by the third version of the
/// derivation, on the configured network; different networks are never derived from alike.
pub proof fn genesis_is_derived_for_the_network(
    input: GenesisInput,
    config: Config,
    other: GenesisInput,
    other_config: Config,
)
    requires
        derives(input, config),
        derives(other, other_config),
    ensures
        input.wallet_index == 0 && input.device_slot == 0 && input.genesis_version == 3,
        input.network@ == other.network@ <==> config.node.network@ == other_config.node.network@,
{
    encode_utf8_decode_utf8(config.node.network@);
    encode_utf8_decode_utf8(other_config.node.network@);
}

/// What was derived is what the node goes by: each part of the genesis is the derived one, and the
/// hash stands in for a missing Merkle root. Without a device id there is no genesis.
pub proof fn derived_genesis_is_kept(outcome: GenesisOutcome, why: String)
    ensures
        settled(Ok::<GenesisOutcome, String>(outcome)) matches Ok(genesis) ==> {
            &&& outcome.device_id matches Some(device_id)
            &&& genesis.device_id == device_id@
            &&& genesis.hash == outcome.hash@
            &&& genesis.public_key == outcome.public_key@
            &&& genesis.nonce == outcome.nonce@
            &&& outcome.merkle_root matches Some(root) ==> genesis.smt_root == root@
            &&& outcome.merkle_root is None ==> genesis.smt_root == outcome.hash@
        },
        settled(Ok::<GenesisOutcome, String>(outcome)) is Err <==> outcome.device_id is None,
        settled(Err::<GenesisOutcome, String>(why)) matches Err(text) && why@.is_suffix_of(text),
{
    both_ends_are_kept("genesis v3 derivation failed: "@, why@);
}

/// The public record has the device id, hash, root and nonce of the genesis, the configured
/// network, and every configured storage node in order.
pub proof fn record_is_that_of_the_genesis(
    record: GenesisRecord,
    config: Config,
    ids: GenesisIdsModel,
)
    requires
        records(record, config, ids),
    ensures
        record.device_id@ == ids.device_id,
        record.genesis_id@ == ids.hash && record.publication_hash@ == ids.hash,
        record.merkle_root@ == ids.smt_root,
        record.genesis_nonce@ == ids.nonce && record.entropy_hash@ == ids.nonce,
        record.network_id@ == config.node.network@,
        record.storage_nodes@.len() == config.storage.endpoints@.len(),
        forall|i: int|
            0 <= i < config.storage.endpoints@.len() ==> (#[trigger] record.storage_nodes@[i])@
                == config.storage.endpoints@[i]@,
        record.mpc_proof@.len() == 0 && record.device_birth_binding@.len() == 0,
        record.participant_count == 0,
        record.progress_marker@ == "genesis"@,
        record.protocol_version@ == "genesis-v3"@,
        record.genesis_profile@ == "MnemonicV3"@,
        record.hash_chain_proof is None && record.smt_proof is None,
        record.verification_step is None,
{
}

/// The announcement has every part of the genesis, the configured network, and every configured
/// storage node in order.
pub proof fn announcement_is_that_of_the_genesis(
    created: GenesisCreated,
    config: Config,
    genesis: GenesisModel,
)
    requires
        announces(created, config, genesis),
    ensures
        created.device_id@ == genesis.device_id,
        created.genesis_hash@ == genesis.hash,
        created.public_key@ == genesis.public_key,
        created.smt_root@ == genesis.smt_root,
        created.device_entropy@ == genesis.nonce,
        created.network_id@ == config.node.network@,
        created.storage_nodes@.len() == config.storage.endpoints@.len(),
        forall|i: int|
            0 <= i < config.storage.endpoints@.len() ==> (#[trigger] created.storage_nodes@[i])@
                == config.storage.endpoints@[i]@,
        created.session_id@.len() == 0 && created.threshold == 0,
        created.locale@ == "en"@,
{
}

/// The reported Kyber key reads back as the key, and is empty where there is none.
pub proof fn reported_kyber_key_reads_back(
    state: IdentityState,
    genesis: GenesisModel,
    kyber: Option<Seq<u8>>,
)
    requires
        reports(state, genesis, kyber),
    ensures
        is_hex(state.kyber_public_key_hex@),
        kyber matches Some(key) ==> hex_bytes(state.kyber_public_key_hex@) == key,
        kyber is None ==> state.kyber_public_key_hex@.len() == 0,
{
    if let Some(key) = kyber {
        hex_round_trip(key);
    }
}

} // verus!
