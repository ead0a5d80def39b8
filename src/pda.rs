//! Account addresses and program-derived address derivation.
use vstd::prelude::*;

use anchor_lang::prelude::Pubkey;
use vstd::slice::slice_to_vec;
use vstd::utf8::encode_utf8;

verus! {

/// Largest number of seeds a derivation accepts.
pub const MAX_SEEDS: usize = 16;

/// Largest length in bytes of one seed.
pub const MAX_SEED_LEN: usize = 32;

/// A 32-byte ledger address: a key, a mint, a token account or a program.
#[derive(Clone, Copy, Debug)]
pub struct Address {
    pub bytes: [u8; 32],
}

impl Address {
    pub open spec fn view(&self) -> Seq<u8> {
        self.bytes@
    }

    pub fn new(bytes: [u8; 32]) -> (r: Address)
        ensures
            r@ == bytes@,
    {
        Address { bytes }
    }

    /// The address's bytes as a vector.
    pub fn to_bytes_vec(&self) -> (r: Vec<u8>)
        ensures
            r@ == self@,
    {
        slice_to_vec(self.bytes.as_slice())
    }
}

/// Whether two addresses hold the same bytes.
pub fn same_address(a: &Address, b: &Address) -> (r: bool)
    ensures
        r == (a@ == b@),
{
    let mut i: usize = 0;
    while i < 32
        invariant
            0 <= i <= 32,
            a@.len() == 32,
            b@.len() == 32,
            forall|j: int| 0 <= j < i ==> a@[j] == b@[j],
        decreases 32 - i,
    {
        if a.bytes[i] != b.bytes[i] {
            return false;
        }
        i = i + 1;
    }
    assert(a@ =~= b@);
    true
}

/// The address that a program derives from a list of seeds, if the hash of
/// the seeds and the program id is off the ed25519 curve.
pub uninterp spec fn program_address(seeds: Seq<Seq<u8>>, program_id: Seq<u8>) -> Option<Seq<u8>>;

/// Whether a list of seeds is within the derivation's limits.
pub open spec fn seeds_within_limits(seeds: Seq<Seq<u8>>) -> bool {
    &&& seeds.len() <= MAX_SEEDS
    &&& forall|i: int| 0 <= i < seeds.len() ==> #[trigger] seeds[i].len() <= MAX_SEED_LEN
}

/// The view of a list of seeds.
pub open spec fn seeds_view(seeds: Seq<Vec<u8>>) -> Seq<Seq<u8>> {
    seeds.map_values(|s: Vec<u8>| s@)
}

/// `seeds` followed by the one-byte bump seed `bump`.
pub open spec fn with_bump(seeds: Seq<Seq<u8>>, bump: u8) -> Seq<Seq<u8>> {
    seeds.push(seq![bump])
}

/// Relies on `Pubkey::create_program_address`: the derivation is a function
/// of the seeds and the program id alone, and it fails when there are more
/// than `MAX_SEEDS` seeds or a seed is longer than `MAX_SEED_LEN` bytes.
#[verifier::external_body]
fn create_program_address(seeds: &Vec<Vec<u8>>, program_id: &Address) -> (r: Option<Address>)
    ensures
        r matches Some(a) ==> program_address(seeds_view(seeds@), program_id@) == Some(a@),
        r is None ==> program_address(seeds_view(seeds@), program_id@) is None,
        !seeds_within_limits(seeds_view(seeds@)) ==> r is None,
{
    let s: Vec<&[u8]> = seeds.iter().map(|v| v.as_slice()).collect();
    Pubkey::create_program_address(&s, &Pubkey::new_from_array(program_id.bytes)).ok().map(
        |k| Address { bytes: k.to_bytes() },
    )
}

/// Relies on `Pubkey::try_find_program_address`: it tries the bump seeds
/// from 255 down to 1 with `create_program_address` and returns the first
/// that derives an address.
#[verifier::external_body]
fn try_find_program_address(seeds: &Vec<Vec<u8>>, program_id: &Address) -> (r: Option<(Address, u8)>)
    ensures
        r matches Some((a, b)) ==> {
            &&& 1 <= b
            &&& program_address(with_bump(seeds_view(seeds@), b), program_id@) == Some(a@)
            &&& forall|c: u8| b < c ==> (#[trigger] program_address(with_bump(seeds_view(seeds@), c), program_id@)) is None
        },
        r is None ==> forall|c: u8| 1 <= c ==> (#[trigger] program_address(with_bump(seeds_view(seeds@), c), program_id@)) is None,
{
    let s: Vec<&[u8]> = seeds.iter().map(|v| v.as_slice()).collect();
    Pubkey::try_find_program_address(&s, &Pubkey::new_from_array(program_id.bytes)).map(
        |(k, b)| (Address { bytes: k.to_bytes() }, b),
    )
}

/// Whether `bump` is the bump seed that the search settles on: the largest
/// one from 255 down to 1 that derives an address.
pub open spec fn is_canonical_bump(seeds: Seq<Seq<u8>>, program_id: Seq<u8>, bump: u8) -> bool {
    &&& 1 <= bump
    &&& program_address(with_bump(seeds, bump), program_id) is Some
    &&& forall|c: u8| bump < c ==> (#[trigger] program_address(with_bump(seeds, c), program_id)) is None
}

/// The address found by the bump search over `seeds`, with its bump.
pub open spec fn canonical_address(seeds: Seq<Seq<u8>>, program_id: Seq<u8>) -> Option<(Seq<u8>, u8)> {
    if exists|b: u8| is_canonical_bump(seeds, program_id, b) {
        let b = choose|b: u8| is_canonical_bump(seeds, program_id, b);
        Some((program_address(with_bump(seeds, b), program_id).unwrap(), b))
    } else {
        None
    }
}

/// The seeds of an escrow record: the initializer's key and the id's bytes.
pub open spec fn escrow_seeds(initializer: Seq<u8>, id: Seq<u8>) -> Seq<Seq<u8>> {
    seq![initializer, id]
}

/// The seeds of a custody account: the address of its escrow record.
pub open spec fn custody_seeds(escrow: Seq<u8>) -> Seq<Seq<u8>> {
    seq![escrow]
}

/// At most one bump seed is canonical for a list of seeds.
pub proof fn lemma_canonical_bump_unique(seeds: Seq<Seq<u8>>, program_id: Seq<u8>, b1: u8, b2: u8)
    requires
        is_canonical_bump(seeds, program_id, b1),
        is_canonical_bump(seeds, program_id, b2),
    ensures
        b1 == b2,
{
    if b1 < b2 {
        assert(program_address(with_bump(seeds, b2), program_id) is None);
    } else if b2 < b1 {
        assert(program_address(with_bump(seeds, b1), program_id) is None);
    }
}

/// The search over `seeds` returns exactly `canonical_address`.
fn find_canonical(seeds: &Vec<Vec<u8>>, program_id: &Address) -> (r: Option<(Address, u8)>)
    ensures
        r matches Some((a, b)) ==> canonical_address(seeds_view(seeds@), program_id@) == Some((a@, b)),
        r is None ==> canonical_address(seeds_view(seeds@), program_id@) is None,
{
    let r = try_find_program_address(seeds, program_id);
    let ghost sv = seeds_view(seeds@);
    match r {
        Some((a, b)) => {
            proof {
                assert(is_canonical_bump(sv, program_id@, b));
                let c = choose|c: u8| is_canonical_bump(sv, program_id@, c);
                lemma_canonical_bump_unique(sv, program_id@, b, c);
            }
        },
        None => {
            assert(!exists|b: u8| is_canonical_bump(sv, program_id@, b));
        },
    }
    r
}

/// The escrow record address for `initializer` and `id`, with its bump seed.
pub fn derive_escrow_address(program_id: &Address, initializer: &Address, id: &String) -> (r: Option<(Address, u8)>)
    ensures
        r matches Some((a, b)) ==> canonical_address(escrow_seeds(initializer@, encode_utf8(id@)), program_id@) == Some((a@, b)),
        r is None ==> canonical_address(escrow_seeds(initializer@, encode_utf8(id@)), program_id@) is None,
{
    let seeds = vec![initializer.to_bytes_vec(), id.as_str().as_bytes_vec()];
    assert(seeds_view(seeds@) =~= escrow_seeds(initializer@, encode_utf8(id@)));
    find_canonical(&seeds, program_id)
}

/// The custody account address for the escrow record at `escrow`, with its
/// bump seed.
pub fn derive_custody_address(program_id: &Address, escrow: &Address) -> (r: Option<(Address, u8)>)
    ensures
        r matches Some((a, b)) ==> canonical_address(custody_seeds(escrow@), program_id@) == Some((a@, b)),
        r is None ==> canonical_address(custody_seeds(escrow@), program_id@) is None,
{
    let seeds = vec![escrow.to_bytes_vec()];
    assert(seeds_view(seeds@) =~= custody_seeds(escrow@));
    find_canonical(&seeds, program_id)
}

/// The escrow record address for `initializer` and `id` under a stored bump.
pub fn escrow_address_with_bump(program_id: &Address, initializer: &Address, id: &String, bump: u8) -> (r: Option<Address>)
    ensures
        r matches Some(a) ==> program_address(with_bump(escrow_seeds(initializer@, encode_utf8(id@)), bump), program_id@) == Some(a@),
        r is None ==> program_address(with_bump(escrow_seeds(initializer@, encode_utf8(id@)), bump), program_id@) is None,
{
    let bump_seed = vec![bump];
    assert(bump_seed@ =~= seq![bump]);
    let seeds = vec![initializer.to_bytes_vec(), id.as_str().as_bytes_vec(), bump_seed];
    assert(seeds_view(seeds@) =~= with_bump(escrow_seeds(initializer@, encode_utf8(id@)), bump));
    create_program_address(&seeds, program_id)
}

/// The custody account address for the escrow record at `escrow` under a
/// stored bump.
pub fn custody_address_with_bump(program_id: &Address, escrow: &Address, bump: u8) -> (r: Option<Address>)
    ensures
        r matches Some(a) ==> program_address(with_bump(custody_seeds(escrow@), bump), program_id@) == Some(a@),
        r is None ==> program_address(with_bump(custody_seeds(escrow@), bump), program_id@) is None,
{
    let bump_seed = vec![bump];
    assert(bump_seed@ =~= seq![bump]);
    let seeds = vec![escrow.to_bytes_vec(), bump_seed];
    assert(seeds_view(seeds@) =~= with_bump(custody_seeds(escrow@), bump));
    create_program_address(&seeds, program_id)
}

} // verus!
