//! Messages for failures at the storage boundary.

use vstd::prelude::*;
use vstd::string::StringExecFns;

verus! {

#[verifier::external_type_specification]
#[verifier::external_body]
pub struct ExIoError(std::io::Error);

/// The message reported for a failed read or write whose cause reads `detail`.
pub open spec fn io_message(detail: Seq<char>) -> Seq<char> {
    "Error when reading/writing file: "@ + detail
}

/// Relies on `std::io::Error`'s `Display` impl (through `to_string`) for the
/// description of the cause; nothing is assumed of that text.
#[verifier::external_body]
fn io_error_text(e: &std::io::Error) -> (r: String) {
    e.to_string()
}

/// The message for a failed read or write whose cause reads `detail`.
pub fn io_error_message(detail: &str) -> (r: String)
    ensures
        r@ == io_message(detail@),
{
    let mut m = String::from_str("Error when reading/writing file: ");
    m.append(detail);
    m
}

/// The message for an I/O failure: a fixed prefix, then the cause.
pub fn convert_io_error(e: std::io::Error) -> (r: String)
    ensures
        exists|detail: Seq<char>| r@ == io_message(detail),
{
    let detail = io_error_text(&e);
    io_error_message(detail.as_str())
}

} // verus!
