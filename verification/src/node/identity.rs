//! The identity that the node reports.
use vstd::prelude::*;

use crate::error::{AppError, AppErrorModel};
use crate::hexcode::{decode, hex_bytes, hex_error, is_hex};
use crate::text::joined;

verus! {

/// The identity that the node reports.
#[derive(Debug, Clone)]
pub struct IdentityState {
    /// The device id, in hexadecimal.
    pub device_id_hex: String,
    /// The genesis hash, in hexadecimal.
    pub genesis_hash_hex: String,
    /// The Kyber public key, in hexadecimal; empty where there is none.
    pub kyber_public_key_hex: String,
}

/// The bytes of the node's device id, or `not_hex` applied to what is wrong with its text, or an
/// error that says that there is no identity yet.
pub open spec fn device_id_of(
    identity: Option<IdentityState>,
    not_hex: spec_fn(Seq<char>) -> AppErrorModel,
) -> Result<Seq<u8>, AppErrorModel> {
    match identity {
        None => Err(AppErrorModel::SdkNotReady("identity not ready"@)),
        Some(state) => if is_hex(state.device_id_hex@) {
            Ok(hex_bytes(state.device_id_hex@))
        } else {
            Err(not_hex(hex_error(state.device_id_hex@)))
        },
    }
}

/// The model of a byte string or an error.
pub open spec fn bytes_or_error(r: Result<Vec<u8>, AppError>) -> Result<Seq<u8>, AppErrorModel> {
    match r {
        Ok(bytes) => Ok(bytes@),
        Err(e) => Err(e@),
    }
}

/// Reads the node's device id: the bytes that its text stands for, or what is wrong with the text.
/// Without an identity there is none to read.
pub(crate) fn known_device_id(identity: &Option<IdentityState>) -> (r: Result<
    Result<Vec<u8>, String>,
    AppError,
>)
    ensures
        match r {
            Err(e) => identity is None && e@ == AppErrorModel::SdkNotReady("identity not ready"@),
            Ok(Ok(bytes)) => identity matches Some(state) && is_hex(state.device_id_hex@)
                && bytes@ == hex_bytes(state.device_id_hex@),
            Ok(Err(why)) => identity matches Some(state) && !is_hex(state.device_id_hex@) && why@
                == hex_error(state.device_id_hex@),
        },
{
    match identity {
        None => Err(AppError::SdkNotReady("identity not ready".to_owned())),
        Some(state) => Ok(decode(state.device_id_hex.as_str())),
    }
}

/// Reads the node's device id, to compare it with the devices in the transaction history.
pub fn our_device_id(identity: &Option<IdentityState>) -> (r: Result<Vec<u8>, AppError>)
    ensures
        bytes_or_error(r) == device_id_of(
            *identity,
            |why: Seq<char>| AppErrorModel::Sdk("device_id hex decode: "@ + why),
        ),
{
    match known_device_id(identity) {
        Err(e) => Err(e),
        Ok(Ok(bytes)) => Ok(bytes),
        Ok(Err(why)) => Err(AppError::Sdk(joined("device_id hex decode: ", why.as_str()))),
    }
}

/// The device id stands for the bytes of its hexadecimal text, in either case; a text that is not
/// hexadecimal is reported with what is wrong with it, and without an identity the node is not
/// ready.
pub proof fn device_id_is_read_from_its_text(
    state: IdentityState,
    not_hex: spec_fn(Seq<char>) -> AppErrorModel,
)
    ensures
        is_hex(state.device_id_hex@) ==> device_id_of(Some(state), not_hex) == Ok::<
            Seq<u8>,
            AppErrorModel,
        >(hex_bytes(state.device_id_hex@)),
        !is_hex(state.device_id_hex@) ==> device_id_of(Some(state), not_hex) == Err::<
            Seq<u8>,
            AppErrorModel,
        >(not_hex(hex_error(state.device_id_hex@))),
        device_id_of(None, not_hex) matches Err(e) && e.status() == 503,
{
}

} // verus!
