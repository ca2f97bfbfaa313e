use dsm_exchange_node::error::AppError;
use dsm_exchange_node::json::Json;

fn response(e: AppError) -> (u16, String) {
    let (status, body) = e.into_response();
    match body {
        Json::Object(mut members) => {
            assert_eq!(members.len(), 1);
            let (key, value) = members.pop().unwrap();
            assert_eq!(key, "error");
            match value {
                Json::Text(message) => (status, message),
                other => panic!("not a text: {:?}", other),
            }
        }
        other => panic!("not an object: {:?}", other),
    }
}

#[test]
fn each_kind_has_its_status() {
    let m = || "why".to_string();
    assert_eq!(response(AppError::BadRequest(m())), (400, m()));
    assert_eq!(response(AppError::NotFound(m())), (404, m()));
    assert_eq!(response(AppError::SdkNotReady(m())), (503, m()));
    assert_eq!(response(AppError::Sdk(m())), (422, m()));
    assert_eq!(response(AppError::Internal(m())), (500, m()));
}

#[test]
fn each_kind_has_its_words() {
    let m = || "why".to_string();
    assert_eq!(AppError::BadRequest(m()).display(), "bad request: why");
    assert_eq!(AppError::NotFound(m()).display(), "not found: why");
    assert_eq!(AppError::SdkNotReady(m()).display(), "SDK not ready: why");
    assert_eq!(AppError::Sdk(m()).display(), "SDK error: why");
    assert_eq!(AppError::Internal(m()).display(), "internal: why");
}
