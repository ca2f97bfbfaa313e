//! `GET /health`.
use vstd::prelude::*;

use crate::json::{text, truth, Fields, Json, JsonModel};

verus! {

/// Answers `GET /health` with a status and a body; the SDK is ready once a router is installed.
pub fn get_health(sdk_ready: bool) -> (r: (u16, Json))
    ensures
        r.0 == (if sdk_ready {
            200u16
        } else {
            503u16
        }),
        r.1@ == JsonModel::Object(
            seq![
                (
                    "status"@,
                    JsonModel::Text(
                        if sdk_ready {
                            "ok"@
                        } else {
                            "starting"@
                        },
                    ),
                ),
                ("sdk_ready"@, JsonModel::Bool(sdk_ready)),
            ],
        ),
{
    let status = if sdk_ready {
        "ok"
    } else {
        "starting"
    };
    let code: u16 = if sdk_ready {
        200
    } else {
        503
    };
    let fields = Fields::new().with("status", text(status)).with("sdk_ready", truth(sdk_ready));
    assert(fields@ =~= seq![
        ("status"@, JsonModel::Text(status@)),
        ("sdk_ready"@, JsonModel::Bool(sdk_ready)),
    ]);
    (code, fields.object())
}

} // verus!
