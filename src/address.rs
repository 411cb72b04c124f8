//! Account addresses and their deterministic derivation from seeds.

use vstd::prelude::*;

verus! {

/// The number of bytes of an account address.
pub const ADDRESS_LEN: usize = 32;

/// A 32-byte account address.
#[derive(Clone, Copy, Debug)]
pub struct Address {
    pub bytes: [u8; 32],
}

impl View for Address {
    type V = Seq<u8>;

    open spec fn view(&self) -> Seq<u8> {
        self.bytes@
    }
}

impl Address {
    /// The address with the given bytes.
    pub fn new(bytes: [u8; 32]) -> (r: Address)
        ensures
            r@ == bytes@,
    {
        Address { bytes }
    }

    /// Whether two addresses hold the same bytes.
    pub fn same_as(&self, other: &Address) -> (r: bool)
        ensures
            r == (self@ == other@),
    {
        let mut i: usize = 0;
        while i < ADDRESS_LEN
            invariant
                i <= ADDRESS_LEN,
                self@.len() == ADDRESS_LEN,
                other@.len() == ADDRESS_LEN,
                forall|j: int| 0 <= j < i ==> self@[j] == other@[j],
            decreases ADDRESS_LEN - i,
        {
            if self.bytes[i] != other.bytes[i] {
                return false;
            }
            i = i + 1;
        }
        assert(self@ =~= other@);
        true
    }
}


/// The bytes of an optional address.
pub open spec fn opt_view(a: Option<Address>) -> Option<Seq<u8>> {
    match a {
        Some(a) => Some(a@),
        None => None,
    }
}

/// The bytes of each seed.
pub open spec fn seeds_view(seeds: Seq<Vec<u8>>) -> Seq<Seq<u8>> {
    seeds.map_values(|s: Vec<u8>| s@)
}

/// The seeds followed by the one-byte bump seed.
pub open spec fn with_bump(seeds: Seq<Seq<u8>>, bump: u8) -> Seq<Seq<u8>> {
    seeds.push(seq![bump])
}

/// The address that the host derives for a program from a list of seeds, or
/// `None` where the seeds are refused or the digest is a point of the curve.
pub uninterp spec fn program_address(program: Seq<u8>, seeds: Seq<Seq<u8>>) -> Option<Seq<u8>>;

/// Whether `bump` is the largest bump for which the seeds give an address.
pub open spec fn is_canonical_bump(program: Seq<u8>, seeds: Seq<Seq<u8>>, bump: u8) -> bool {
    &&& program_address(program, with_bump(seeds, bump)) is Some
    &&& forall|b: u8| b > bump ==> (#[trigger] program_address(program, with_bump(seeds, b))) is None
}

/// Whether no bump at all gives an address for the seeds.
pub open spec fn no_bump_derives(program: Seq<u8>, seeds: Seq<Seq<u8>>) -> bool {
    forall|b: u8| (#[trigger] program_address(program, with_bump(seeds, b))) is None
}

/// The canonical derivation: the address and bump that the search finds.
pub open spec fn derivation(program: Seq<u8>, seeds: Seq<Seq<u8>>) -> Option<(Seq<u8>, u8)> {
    if exists|b: u8| is_canonical_bump(program, seeds, b) {
        let b = choose|b: u8| is_canonical_bump(program, seeds, b);
        Some((program_address(program, with_bump(seeds, b))->Some_0, b))
    } else {
        None
    }
}

/// What verifying `address` against the seeds gives: the canonical bump where
/// the canonical derivation yields exactly that address, else `None`.
pub open spec fn verification(address: Seq<u8>, program: Seq<u8>, seeds: Seq<Seq<u8>>) -> Option<u8> {
    match derivation(program, seeds) {
        Some((a, b)) => if a == address { Some(b) } else { None },
        None => None,
    }
}

/// Whether `r` is what the canonical search over the seeds returns.
pub open spec fn derives(program: Seq<u8>, seeds: Seq<Seq<u8>>, r: Option<(Address, u8)>) -> bool {
    match r {
        Some((a, b)) => derivation(program, seeds) == Some((a@, b)),
        None => derivation(program, seeds) is None,
    }
}

/// Relies on `Pubkey::create_program_address` of solana-program: the derived
/// address is a function of the program and the seeds alone.
#[verifier::external_body]
fn create_program_address(seeds: &Vec<Vec<u8>>, program: &Address) -> (r: Option<Address>)
    ensures
        match r {
            Some(a) => program_address(program@, seeds_view(seeds@)) == Some(a@),
            None => program_address(program@, seeds_view(seeds@)) is None,
        },
{
    let parts: Vec<&[u8]> = seeds.iter().map(|s| s.as_slice()).collect();
    let program_key = solana_program::pubkey::Pubkey::new_from_array(program.bytes);
    solana_program::pubkey::Pubkey::create_program_address(&parts, &program_key)
        .ok()
        .map(|key| Address { bytes: key.to_bytes() })
}

/// A copy of the seeds with the bump seed appended.
pub fn seeds_with_bump(seeds: &Vec<Vec<u8>>, bump: u8) -> (r: Vec<Vec<u8>>)
    ensures
        seeds_view(r@) == with_bump(seeds_view(seeds@), bump),
{
    let mut r: Vec<Vec<u8>> = Vec::new();
    let mut i: usize = 0;
    while i < seeds.len()
        invariant
            i <= seeds@.len(),
            r@.len() == i,
            forall|j: int| 0 <= j < i ==> r@[j]@ == seeds@[j]@,
        decreases seeds@.len() - i,
    {
        let s: Vec<u8> = seeds[i].clone();
        assert(s@ =~= seeds@[i as int]@);
        r.push(s);
        i = i + 1;
    }
    let mut b: Vec<u8> = Vec::new();
    b.push(bump);
    assert(b@ =~= seq![bump]);
    r.push(b);
    assert(seeds_view(r@) =~= with_bump(seeds_view(seeds@), bump));
    r
}

/// The canonical bump is unique.
pub proof fn lemma_canonical_bump_unique(program: Seq<u8>, seeds: Seq<Seq<u8>>, b1: u8, b2: u8)
    requires
        is_canonical_bump(program, seeds, b1),
        is_canonical_bump(program, seeds, b2),
    ensures
        b1 == b2,
{
    if b1 > b2 {
        assert(program_address(program, with_bump(seeds, b1)) is None);
    } else if b2 > b1 {
        assert(program_address(program, with_bump(seeds, b2)) is None);
    }
}

/// The canonical derivation of a seed list, searching the bumps from 255 down
/// to 0: the first bump whose seeds give an address, with that address; `None`
/// where no bump does.
pub fn find_program_address(seeds: &Vec<Vec<u8>>, program: &Address) -> (r: Option<(Address, u8)>)
    ensures
        derives(program@, seeds_view(seeds@), r),
        r is None <==> no_bump_derives(program@, seeds_view(seeds@)),
{
    let ghost sv = seeds_view(seeds@);
    let mut bump: u8 = 255;
    loop
        invariant
            sv == seeds_view(seeds@),
            forall|b: u8| b > bump ==> (#[trigger] program_address(program@, with_bump(sv, b))) is None,
        decreases bump,
    {
        let candidate = seeds_with_bump(seeds, bump);
        match create_program_address(&candidate, program) {
            Some(a) => {
                assert(is_canonical_bump(program@, sv, bump));
                proof {
                    let c = choose|c: u8| is_canonical_bump(program@, sv, c);
                    lemma_canonical_bump_unique(program@, sv, c, bump);
                }
                return Some((a, bump));
            },
            None => {},
        }
        if bump == 0 {
            assert forall|b: u8| #[trigger] program_address(program@, with_bump(sv, b)) is None by {
                if b > bump {
                } else {
                    assert(b == bump);
                }
            }
            assert(!exists|b: u8| is_canonical_bump(program@, sv, b));
            return None;
        }
        bump = bump - 1;
    }
}


/// Checks that `address` is the canonical derivation of the seeds for the
/// program, and returns its bump. Any other address, including one derived
/// with a non-canonical bump, is refused.
pub fn verify_derivation(address: &Address, program: &Address, seeds: &Vec<Vec<u8>>) -> (r: Option<u8>)
    ensures
        r == verification(address@, program@, seeds_view(seeds@)),
{
    match find_program_address(seeds, program) {
        Some((derived, bump)) => {
            if derived.same_as(address) {
                Some(bump)
            } else {
                None
            }
        },
        None => None,
    }
}

/// Derivation is deterministic: two searches over the same program and seeds
/// return the same address and bump.
pub proof fn lemma_derivation_deterministic(
    program: Seq<u8>,
    seeds: Seq<Seq<u8>>,
    r1: Option<(Address, u8)>,
    r2: Option<(Address, u8)>,
)
    requires
        derives(program, seeds, r1),
        derives(program, seeds, r2),
    ensures
        r1 is Some <==> r2 is Some,
        r1 is Some ==> r1->Some_0.0@ == r2->Some_0.0@ && r1->Some_0.1 == r2->Some_0.1,
{
}

/// Verification is sound: the derived address verifies with the derived
/// bump, and every other address is refused.
pub proof fn lemma_verification_sound(
    program: Seq<u8>,
    seeds: Seq<Seq<u8>>,
    derived: Seq<u8>,
    bump: u8,
    other: Seq<u8>,
)
    requires
        derivation(program, seeds) == Some((derived, bump)),
        other != derived,
    ensures
        verification(derived, program, seeds) == Some(bump),
        verification(other, program, seeds) is None,
{
}

/// An address derived with a bump below the canonical one is refused, even
/// though the host would derive it.
pub proof fn lemma_non_canonical_bump_refused(
    program: Seq<u8>,
    seeds: Seq<Seq<u8>>,
    bump: u8,
    lower: u8,
    address: Seq<u8>,
)
    requires
        is_canonical_bump(program, seeds, bump),
        lower < bump,
        program_address(program, with_bump(seeds, lower)) == Some(address),
        address != program_address(program, with_bump(seeds, bump))->Some_0,
    ensures
        verification(address, program, seeds) is None,
{
    let c = choose|c: u8| is_canonical_bump(program, seeds, c);
    lemma_canonical_bump_unique(program, seeds, c, bump);
}

} // verus!
