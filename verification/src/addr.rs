//! Record addresses and the identifier deriver.
//!
//! Every relationship record of the graph is stored at an address derived
//! deterministically from a namespace tag and the ordered identifiers of its
//! parents. Determinism is what makes each link unique: a second attempt to
//! create the same relationship derives the same address and is refused as a
//! duplicate.

use vstd::prelude::*;

verus! {

/// A fixed-width record address.
#[derive(Clone, Copy, Debug, PartialEq, Eq)]
pub struct Address {
    pub bytes: [u8; 32],
}

impl View for Address {
    type V = Seq<u8>;

    open spec fn view(&self) -> Seq<u8> {
        self.bytes@
    }
}

impl Address {
    pub fn new(bytes: [u8; 32]) -> (r: Address)
        ensures
            r@ == bytes@,
    {
        Address { bytes }
    }

    /// Byte-for-byte equality of two addresses.
    pub fn equals(&self, other: &Address) -> (r: bool)
        ensures
            r == (self@ == other@),
    {
        let mut i: usize = 0;
        while i < 32
            invariant
                0 <= i <= 32,
                forall|j: int| 0 <= j < i ==> self.bytes@[j] == other.bytes@[j],
            decreases 32 - i,
        {
            if self.bytes[i] != other.bytes[i] {
                assert(self@[i as int] != other@[i as int]);
                return false;
            }
            i += 1;
        }
        proof {
            assert(self@ =~= other@);
        }
        true
    }

    /// The address as an owned byte sequence, for use as a derivation seed.
    pub fn to_bytes(&self) -> (r: Vec<u8>)
        ensures
            r@ == self@,
    {
        let s: &[u8] = self.bytes.as_slice();
        vstd::slice::slice_to_vec(s)
    }
}

/// The views of a sequence of byte vectors.
pub open spec fn bytes_views(s: Seq<Vec<u8>>) -> Seq<Seq<u8>> {
    s.map_values(|v: Vec<u8>| v@)
}

/// A namespace tag followed by the parent identifiers, in order: the seed
/// tuple that an address is derived from.
pub open spec fn tagged_seeds(tag: Seq<u8>, parents: Seq<Seq<u8>>) -> Seq<Seq<u8>> {
    seq![tag] + parents
}

/// The address derived from a seed tuple, or `None` where derivation finds
/// no valid address (a seed over the length limits, or no usable bump).
/// The derivation is a fixed hash construction: its result depends on the
/// seed bytes alone.
pub uninterp spec fn derive_of(seeds: Seq<Seq<u8>>) -> Option<Seq<u8>>;

/// Relies on anchor_lang's `Pubkey::try_find_program_address` (under a fixed
/// program id): the outcome is a deterministic function of the seed bytes,
/// `None` exactly when the search finds no valid address.
#[verifier::external_body]
fn derive_raw(seeds: &Vec<Vec<u8>>) -> (r: Option<Address>)
    ensures
        (r is Some) == (derive_of(bytes_views(seeds@)) is Some),
        r matches Some(a) ==> derive_of(bytes_views(seeds@)) == Some(a@),
{
    let refs: std::vec::Vec<&[u8]> = seeds.iter().map(|s| s.as_slice()).collect();
    let program_id = anchor_lang::prelude::Pubkey::new_from_array([0u8; 32]);
    anchor_lang::prelude::Pubkey::try_find_program_address(&refs, &program_id)
        .map(|(pk, _bump)| Address { bytes: pk.to_bytes() })
}

/// Derive the address of a record from its namespace tag and the ordered
/// identifiers of its parents. Deterministic: the same inputs always derive
/// the same address.
pub fn derive_address(tag: Vec<u8>, parents: Vec<Vec<u8>>) -> (r: Option<Address>)
    ensures
        (r is Some) == (derive_of(tagged_seeds(tag@, bytes_views(parents@))) is Some),
        r matches Some(a) ==> derive_of(tagged_seeds(tag@, bytes_views(parents@))) == Some(a@),
{
    let ghost tag_view = tag@;
    let ghost parents_view = bytes_views(parents@);
    let mut seeds: Vec<Vec<u8>> = Vec::new();
    seeds.push(tag);
    let mut i: usize = 0;
    while i < parents.len()
        invariant
            0 <= i <= parents.len(),
            bytes_views(parents@) == parents_view,
            parents_view.len() == parents@.len(),
            seeds@.len() == i + 1,
            seeds@[0]@ == tag_view,
            forall|j: int| 0 <= j < i ==> #[trigger] seeds@[j + 1]@ == parents_view[j],
        decreases parents.len() - i,
    {
        let p: Vec<u8> = vstd::slice::slice_to_vec(parents[i].as_slice());
        seeds.push(p);
        i += 1;
    }
    proof {
        let s = bytes_views(seeds@);
        let t = tagged_seeds(tag_view, parents_view);
        assert forall|j: int| 0 <= j < s.len() implies s[j] == t[j] by {
            if j > 0 {
                assert(seeds@[(j - 1) + 1]@ == parents_view[j - 1]);
            }
        }
        assert(s =~= t);
    }
    derive_raw(&seeds)
}

/// Identifier derivation is deterministic: deriving from identical seed
/// tuples yields identical outcomes.
pub proof fn lemma_derive_deterministic(a: Seq<Seq<u8>>, b: Seq<Seq<u8>>)
    requires
        a == b,
    ensures
        derive_of(a) == derive_of(b),
{
}

} // verus!
