//! The crate's trusted boundary: thin wrappers around outside-crate calls
//! whose contracts Verus believes without proof. Everything else in the
//! library is verified against these contracts.
use vstd::prelude::*;

verus! {

/// What urlencoding's `encode` returns for a given character sequence.
pub uninterp spec fn url_encoded_of(s: Seq<char>) -> Seq<char>;

/// What `str::trim` leaves of a given character sequence.
pub uninterp spec fn trimmed_of(s: Seq<char>) -> Seq<char>;

/// What `str::to_lowercase` makes of a given character sequence.
pub uninterp spec fn lower_of(s: Seq<char>) -> Seq<char>;

/// Relies on chrono's `Utc::now`: reads the system clock, so nothing is
/// promised of the returned epoch-seconds value.
#[verifier::external_body]
pub(crate) fn now_timestamp() -> i64 {
    chrono::Utc::now().timestamp()
}

/// Relies on uuid's `Uuid::new_v4`: a randomly generated identifier, so
/// nothing is promised of the returned text.
#[verifier::external_body]
pub(crate) fn fresh_uuid() -> String {
    uuid::Uuid::new_v4().to_string()
}

/// Relies on urlencoding's `encode`: percent-encodes every byte except ASCII
/// alphanumerics and `-`, `_`, `.`, `~`; the result depends on the input
/// alone.
#[verifier::external_body]
pub(crate) fn url_encode(s: &str) -> (r: String)
    ensures
        r@ == url_encoded_of(s@),
{
    urlencoding::encode(s).into_owned()
}

/// Relies on `str::trim`: removes leading and trailing whitespace; the result
/// depends on the input alone.
#[verifier::external_body]
pub(crate) fn trim(s: &str) -> (r: String)
    ensures
        r@ == trimmed_of(s@),
{
    s.trim().to_owned()
}

/// Relies on `str::to_lowercase`: the lowercase mapping of the input; the
/// result depends on the input alone.
#[verifier::external_body]
pub(crate) fn lowercase(s: &str) -> (r: String)
    ensures
        r@ == lower_of(s@),
{
    s.to_lowercase()
}

/// Relies on `str::replace` with a `char` pattern: replaces every space by an
/// underscore, character for character.
#[verifier::external_body]
pub(crate) fn replace_spaces(s: &str) -> (r: String)
    ensures
        r@ == s@.map_values(
            |c: char|
                if c == ' ' {
                    '_'
                } else {
                    c
                },
        ),
{
    s.replace(' ', "_")
}

} // verus!
