use vstd::prelude::*;

verus! {

/// Holds of the characters a canonical identifier is spelled with: the
/// Crockford base32 alphabet — the ten digits and the upper-case letters
/// other than `I`, `L`, `O` and `U`.
pub open spec fn crockford_char(c: char) -> bool {
    ||| '0' <= c && c <= '9'
    ||| ('A' <= c && c <= 'Z' && c != 'I' && c != 'L' && c != 'O' && c != 'U')
}

/// A fresh identifier is canonical: 26 characters, all from the Crockford
/// base32 alphabet.
pub open spec fn canonical_id(s: Seq<char>) -> bool {
    &&& s.len() == 26
    &&& forall|i: int| 0 <= i < s.len() ==> crockford_char(#[trigger] s[i])
}

/// Relies on `ulid::Ulid::new` and `ulid::Ulid::to_string`: a fresh
/// identifier (48 bits of wall-clock milliseconds followed by 80 random
/// bits, so identifiers sort by time of issuance and collide only with
/// negligible probability) rendered in its canonical 26-character Crockford
/// base32 form. The value depends on the clock and on randomness, so nothing
/// is claimed beyond its shape.
#[verifier::external_body]
fn fresh_ulid() -> (r: String)
    ensures
        canonical_id(r@),
{
    ulid::Ulid::new().to_string()
}

/// Mints one fresh, time-sortable request identifier per call. Generation
/// never fails and shares no mutable state between callers, so it is safe
/// under unbounded concurrency.
#[derive(Clone)]
pub struct MakeRequestUlid;

impl MakeRequestUlid {
    /// Generate a new identifier for a request that carries none.
    pub fn make_request_id(&mut self) -> (r: String)
        ensures
            canonical_id(r@),
    {
        fresh_ulid()
    }
}

/// The identifier a request ends up with: the one it already carried if any
/// (idempotent propagation for proxied or retried calls), else the freshly
/// generated one.
pub open spec fn chosen_id_spec(incoming: Option<Seq<char>>, generated: Seq<char>) -> Seq<char> {
    match incoming {
        Some(id) => id,
        None => generated,
    }
}

/// Pick the identifier for a request: reuse an inbound one unchanged,
/// otherwise take the generated one.
pub fn choose_request_id(incoming: Option<String>, generated: String) -> (r: String)
    ensures
        incoming matches Some(id) ==> r@ == id@,
        incoming is None ==> r@ == generated@,
{
    match incoming {
        Some(id) => id,
        None => generated,
    }
}

/// Law: identifier propagation is idempotent — a request that already
/// carries an identifier keeps exactly that value, and only a request
/// without one receives the generated value.
pub proof fn lemma_id_propagation(incoming: Option<Seq<char>>, generated: Seq<char>)
    ensures
        incoming matches Some(id) ==> chosen_id_spec(incoming, generated) == id,
        incoming is None ==> chosen_id_spec(incoming, generated) == generated,
{
}

} // verus!
