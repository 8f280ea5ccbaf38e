use vstd::prelude::*;

verus! {

/// Relies on `chrono::Utc::now` and `DateTime::timestamp`: the current wall
/// clock as whole seconds since the Unix epoch. Nothing is promised of the
/// reading itself.
#[verifier::external_body]
pub(crate) fn current_timestamp() -> (r: i64) {
    chrono::Utc::now().timestamp()
}

/// Relies on `chrono::Utc::now` formatted with `%Y`: the current calendar
/// year as text. Nothing is promised of the reading itself.
#[verifier::external_body]
pub(crate) fn current_year_text() -> (r: String) {
    chrono::Utc::now().format("%Y").to_string()
}

/// Relies on `uuid::Uuid::new_v4`: a fresh random identifier in its
/// hyphenated text form. Nothing is promised of its value.
#[verifier::external_body]
pub(crate) fn new_record_id() -> (r: String) {
    uuid::Uuid::new_v4().to_string()
}

} // verus!
