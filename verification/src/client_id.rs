//! The persisted client identifier: reuse the stored identifier when one is
//! present and non-blank, otherwise take the freshly minted one the host
//! supplies, for the host to persist. Minting stays with the host: a UUID
//! source can fail with the system clock or the random source, which no
//! verified function may do.
use vstd::prelude::*;

use crate::strutil::opt_str_view;

verus! {

/// What `str::trim` returns: the string without its leading and trailing
/// whitespace. Named rather than written out, since the whitespace set is
/// the full Unicode one.
pub uninterp spec fn trimmed_of(s: Seq<char>) -> Seq<char>;

/// Relies on str::trim: removes exactly the leading and trailing
/// whitespace, so the result depends on the characters alone, is never
/// longer than the input, an empty input stays empty, and trimming the
/// result again changes nothing.
#[verifier::external_body]
fn trim_to_owned(s: &str) -> (r: String)
    ensures
        r@ == trimmed_of(s@),
        r@.len() <= s@.len(),
        s@.len() == 0 ==> r@.len() == 0,
        trimmed_of(r@) == r@,
{
    s.trim().to_owned()
}

/// Whether a stored identifier can be reused: it exists and is not blank
/// once trimmed.
pub open spec fn stored_id_usable(stored: Option<Seq<char>>) -> bool {
    match stored {
        Some(c) => trimmed_of(c).len() > 0,
        None => false,
    }
}

/// The identifier resolution owed: the stored value, trimmed, when it is
/// non-blank; otherwise the freshly minted value, trimmed and marked fresh.
pub open spec fn resolved_client_id(stored: Option<Seq<char>>, fresh: Seq<char>) -> (
    Seq<char>,
    bool,
) {
    if stored_id_usable(stored) {
        (trimmed_of(stored->0), false)
    } else {
        (trimmed_of(fresh), true)
    }
}

/// Resolve the client identifier from whatever the host read from the
/// identifier file and from a freshly minted identifier: a usable stored
/// identifier is returned trimmed and marked not fresh; otherwise the
/// minted one is returned trimmed and marked fresh, for the host to
/// persist. The result never carries surrounding whitespace.
pub fn get_or_create_client_id(stored: Option<String>, fresh: String) -> (r: (String, bool))
    ensures
        (r.0@, r.1) == resolved_client_id(opt_str_view(stored), fresh@),
        trimmed_of(r.0@) == r.0@,
        stored_id_usable(opt_str_view(stored)) ==> r.0@.len() > 0,
{
    match stored {
        Some(content) => {
            let trimmed = trim_to_owned(content.as_str());
            if !trimmed.as_str().is_empty() {
                (trimmed, false)
            } else {
                (trim_to_owned(fresh.as_str()), true)
            }
        },
        None => (trim_to_owned(fresh.as_str()), true),
    }
}

/// Read-or-generate-and-persist round trip: once a non-blank identifier has
/// been returned — always trim-stable, by `get_or_create_client_id`'s
/// contract — and persisted, a later call that reads it back returns it
/// unchanged and mints nothing, so two successive calls agree.
pub proof fn lemma_persisted_id_round_trip(id: Seq<char>, fresh: Seq<char>)
    requires
        trimmed_of(id) == id,
        id.len() > 0,
    ensures
        resolved_client_id(Some(id), fresh) == (id, false),
{
}

} // verus!
