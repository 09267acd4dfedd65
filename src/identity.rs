use vstd::prelude::*;
use cyclonedx_bom::external_models::date_time::{DateTime, DateTimeError};
use cyclonedx_bom::models::bom::UrnUuid;

verus! {

#[verifier::external_type_specification]
#[verifier::external_body]
pub struct ExDateTimeError(DateTimeError);

/// A lower-case hexadecimal digit.
pub open spec fn is_lower_hex(c: char) -> bool {
    ('0' <= c <= '9') || ('a' <= c <= 'f')
}

/// The text `urn:uuid:`.
pub open spec fn urn_uuid_prefix() -> Seq<char> {
    seq!['u', 'r', 'n', ':', 'u', 'u', 'i', 'd', ':']
}

/// A uuid in hyphenated lower-case form: groups of 8, 4, 4, 4 and 12 hex digits.
pub open spec fn is_hyphenated_uuid(s: Seq<char>) -> bool {
    &&& s.len() == 36
    &&& forall|i: int|
        0 <= i < 36 ==> if i == 8 || i == 13 || i == 18 || i == 23 {
            #[trigger] s[i] == '-'
        } else {
            is_lower_hex(s[i])
        }
}

/// A `urn:uuid:` identifier.
pub open spec fn is_urn_uuid(s: Seq<char>) -> bool {
    &&& s.len() == 45
    &&& s.subrange(0, 9) == urn_uuid_prefix()
    &&& is_hyphenated_uuid(s.subrange(9, 45))
}

/// Relies on cyclonedx_bom's `UrnUuid::generate`: a fresh random uuid written
/// as `urn:uuid:` followed by the uuid crate's hyphenated lower-case form.
#[verifier::external_body]
pub(crate) fn generate_serial_number() -> (r: String)
    ensures
        is_urn_uuid(r@),
{
    UrnUuid::generate().to_string()
}

/// Relies on cyclonedx_bom's `DateTime::now`: the current UTC time in ISO 8601
/// form, or an error when it cannot be formatted.
#[verifier::external_body]
pub(crate) fn current_timestamp() -> (r: Result<String, DateTimeError>) {
    DateTime::now().map(|t| t.to_string())
}

} // verus!
