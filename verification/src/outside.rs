//! Declarations of outside types that library values carry through opaquely.

use vstd::prelude::*;

verus! {

/// Declares serde_json's error type so library errors can carry it.
/// Values of it are produced only by the JSON parser.
#[verifier::external_type_specification]
#[verifier::external_body]
pub struct ExSerdeJsonError(serde_json::Error);

/// Declares reqwest's error type so library errors can carry a transport
/// failure. Values of it are produced only by the application's transport
/// layer.
#[verifier::external_type_specification]
#[verifier::external_body]
pub struct ExReqwestError(reqwest::Error);

/// Declares serde_json's value type: the parsed form of a JSON document,
/// which the manifest reader walks through trusted accessors.
#[verifier::external_type_specification]
#[verifier::external_body]
pub struct ExJsonValue(serde_json::Value);

/// Declares chrono's naive date-time type, which a frame carries as its
/// timestamp. The library never looks inside it.
#[verifier::external_type_specification]
#[verifier::external_body]
pub struct ExNaiveDateTime(chrono::NaiveDateTime);

/// Relies on chrono's derived `Clone` for `NaiveDateTime`, a `Copy` type:
/// the clone is the same value.
pub assume_specification[ <chrono::NaiveDateTime as core::clone::Clone>::clone ](
    v: &chrono::NaiveDateTime,
) -> (r: chrono::NaiveDateTime)
    ensures
        r == *v,
;

} // verus!
