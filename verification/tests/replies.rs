use dsm_exchange_node::error::AppError;
use dsm_exchange_node::reply::{
    arg_pack_bytes, make_arg_pack, reply_data, strip_envelope_prefix, AppResult, ArgPack, Codec,
};

fn result(success: bool, data: Vec<u8>, error_message: Option<&str>) -> AppResult {
    AppResult { success, data, error_message: error_message.map(|m| m.to_string()) }
}

#[test]
fn framing_byte_is_removed_once() {
    assert_eq!(strip_envelope_prefix(&[3, 3, 7]).unwrap(), vec![3, 7]);
    assert_eq!(strip_envelope_prefix(&[3]).unwrap(), Vec::<u8>::new());
}

#[test]
fn unframed_answer_comes_through() {
    assert_eq!(strip_envelope_prefix(&[]).unwrap(), Vec::<u8>::new());
    assert_eq!(strip_envelope_prefix(&[4, 3]).unwrap(), vec![4, 3]);
}

#[test]
fn message_is_wrapped() {
    assert_eq!(
        make_arg_pack(Ok(vec![1, 2])).unwrap(),
        ArgPack { schema_hash: None, codec: Codec::Proto, body: vec![1, 2] }
    );
    assert_eq!(
        make_arg_pack(Err("full".to_string())).unwrap_err(),
        AppError::Internal("proto encode: full".to_string())
    );
}

#[test]
fn wrapped_message_is_encoded() {
    assert_eq!(arg_pack_bytes(Ok(vec![9])).unwrap(), vec![9]);
    assert_eq!(
        arg_pack_bytes(Err("full".to_string())).unwrap_err(),
        AppError::Internal("encode ArgPack: full".to_string())
    );
}

#[test]
fn successful_answer_yields_its_data() {
    assert_eq!(reply_data("inbox.pull", Some(result(true, vec![3, 1], None))).unwrap(), vec![1]);
    assert_eq!(
        reply_data("inbox.pull", Some(result(true, vec![], Some("ignored")))).unwrap(),
        Vec::<u8>::new()
    );
}

#[test]
fn missing_router_is_not_ready() {
    assert_eq!(
        reply_data("inbox.pull", None).unwrap_err(),
        AppError::SdkNotReady("app router not installed".to_string())
    );
}

#[test]
fn refusal_is_passed_on() {
    assert_eq!(
        reply_data("faucet.claim", Some(result(false, vec![3], Some("rate limited")))).unwrap_err(),
        AppError::Sdk("rate limited".to_string())
    );
    assert_eq!(
        reply_data("faucet.claim", Some(result(false, vec![3], None))).unwrap_err(),
        AppError::Sdk("faucet.claim failed".to_string())
    );
}
