//! Addresses: 32-byte public keys, and the deterministic derivation of
//! program addresses from seeds.

use vstd::prelude::*;

verus! {

/// Number of bytes in an address.
pub const ADDRESS_LEN: usize = 32;

/// A 32-byte public key.
#[derive(Debug, Clone, Copy, PartialEq, Eq, Hash)]
pub struct Address {
    pub bytes: [u8; 32],
}

impl View for Address {
    type V = Seq<u8>;

    open spec fn view(&self) -> Seq<u8> {
        self.bytes@
    }
}

/// The bytes of the all-zero address, which stands for "no address".
pub open spec fn zero_address() -> Seq<u8> {
    Seq::new(32, |i: int| 0u8)
}

impl Address {
    /// The address made of these bytes.
    pub fn new(bytes: [u8; 32]) -> (r: Address)
        ensures
            r.bytes == bytes,
            r@ == bytes@,
    {
        Address { bytes }
    }

    /// The all-zero address.
    pub fn zero() -> (r: Address)
        ensures
            r@ == zero_address(),
    {
        let r = Address { bytes: [0u8; 32] };
        assert(r@ =~= zero_address());
        r
    }

    /// The bytes of this address.
    pub fn to_bytes(&self) -> (r: [u8; 32])
        ensures
            r == self.bytes,
    {
        self.bytes
    }

    /// The bytes of this address, as a vector.
    pub fn to_vec(&self) -> (r: Vec<u8>)
        ensures
            r@ == self@,
    {
        let mut out: Vec<u8> = Vec::with_capacity(32);
        let mut i: usize = 0;
        while i < 32
            invariant
                i <= 32,
                out@ == self@.subrange(0, i as int),
            decreases 32 - i,
        {
            out.push(self.bytes[i]);
            assert(out@ =~= self@.subrange(0, (i + 1) as int));
            i += 1;
        }
        assert(self@.subrange(0, 32) =~= self@);
        out
    }

    /// Whether the two addresses hold the same bytes.
    pub fn same(&self, other: &Address) -> (r: bool)
        ensures
            r == (self@ == other@),
    {
        let mut i: usize = 0;
        while i < 32
            invariant
                i <= 32,
                forall|j: int| 0 <= j < i ==> self@[j] == other@[j],
            decreases 32 - i,
        {
            if self.bytes[i] != other.bytes[i] {
                return false;
            }
            i += 1;
        }
        assert(self@ =~= other@);
        true
    }

    /// Whether this is the all-zero address.
    pub fn is_zero(&self) -> (r: bool)
        ensures
            r == (self@ == zero_address()),
    {
        let mut i: usize = 0;
        while i < 32
            invariant
                i <= 32,
                forall|j: int| 0 <= j < i ==> self@[j] == 0,
            decreases 32 - i,
        {
            if self.bytes[i] != 0 {
                assert(zero_address()[i as int] == 0);
                return false;
            }
            i += 1;
        }
        assert(self@ =~= zero_address());
        true
    }
}

impl Default for Address {
    /// The all-zero address.
    fn default() -> (r: Address)
        ensures
            r@ == zero_address(),
    {
        Address::zero()
    }
}

/// Most seeds that a derivation takes, the bump seed included.
pub const MAX_SEEDS: usize = 16;

/// Most bytes that one seed holds.
pub const MAX_SEED_LEN: usize = 32;

/// The address and bump seed that the search for a program address finds
/// for these seeds under this program, if it finds any.
///
/// The search appends one bump byte to the seeds, from 255 downwards, hashes
/// seeds, bump, program identifier and a marker, and stops at the first hash
/// that is no point of the ed25519 curve. It is a function of the seeds and
/// the program identifier alone.
pub uninterp spec fn program_address(seeds: Seq<Seq<u8>>, program_id: Seq<u8>) -> Option<
    (Seq<u8>, u8),
>;

/// The address alone that the search finds, if it finds any.
pub open spec fn derived_address(seeds: Seq<Seq<u8>>, program_id: Seq<u8>) -> Option<Seq<u8>> {
    match program_address(seeds, program_id) {
        Some((address, _)) => Some(address),
        None => None,
    }
}

/// The byte strings that a list of seeds holds.
pub open spec fn seeds_view(seeds: Seq<Vec<u8>>) -> Seq<Seq<u8>> {
    Seq::new(seeds.len(), |i: int| seeds[i]@)
}

/// The bytes of an address that may be absent.
pub open spec fn address_view(address: Option<Address>) -> Option<Seq<u8>> {
    match address {
        Some(a) => Some(a@),
        None => None,
    }
}

/// Calls `solana_sdk::pubkey::Pubkey::try_find_program_address`.
///
/// Trusted: the result is the one that `program_address` names for the same
/// seeds and program, and there is none where the seeds, with the bump seed
/// that the search adds, are more than `MAX_SEEDS` or where one seed is
/// longer than `MAX_SEED_LEN`.
#[verifier::external_body]
fn try_find_program_address(seeds: &Vec<Vec<u8>>, program_id: &Address) -> (r: Option<
    (Address, u8),
>)
    ensures
        match r {
            Some((address, bump)) => program_address(seeds_view(seeds@), program_id@) == Some(
                (address@, bump),
            ),
            None => program_address(seeds_view(seeds@), program_id@) is None,
        },
        seeds.len() >= MAX_SEEDS ==> r is None,
        (exists|i: int| 0 <= i < seeds.len() && seeds[i].len() > MAX_SEED_LEN) ==> r is None,
{
    let slices: Vec<&[u8]> = seeds.iter().map(|seed| seed.as_slice()).collect();
    let program = solana_sdk::pubkey::Pubkey::new_from_array(program_id.bytes);
    match solana_sdk::pubkey::Pubkey::try_find_program_address(&slices, &program) {
        Some((key, bump)) => Some((Address { bytes: key.to_bytes() }, bump)),
        None => None,
    }
}

/// Derives the program address for `seeds` under `program_id`, with its bump
/// seed.
///
/// There is none where the search finds no bump seed, and in particular
/// where `seeds` holds `MAX_SEEDS` seeds or more, or a seed longer than
/// `MAX_SEED_LEN`.
pub fn derive(seeds: &Vec<Vec<u8>>, program_id: &Address) -> (r: Option<(Address, u8)>)
    ensures
        match r {
            Some((address, bump)) => program_address(seeds_view(seeds@), program_id@) == Some(
                (address@, bump),
            ),
            None => program_address(seeds_view(seeds@), program_id@) is None,
        },
        seeds.len() >= MAX_SEEDS ==> r is None,
        (exists|i: int| 0 <= i < seeds.len() && seeds[i].len() > MAX_SEED_LEN) ==> r is None,
{
    try_find_program_address(seeds, program_id)
}

/// Derives the program address for `seeds` under `program_id`.
pub fn derive_address(seeds: &Vec<Vec<u8>>, program_id: &Address) -> (r: Option<Address>)
    ensures
        address_view(r) == derived_address(seeds_view(seeds@), program_id@),
{
    match derive(seeds, program_id) {
        Some((address, _)) => Some(address),
        None => None,
    }
}

/// The seeds of the token account that belongs to `wallet` for `mint` under
/// `token_program`: the three addresses, wallet first, then token program,
/// then mint.
pub open spec fn associated_token_seeds(
    wallet: Seq<u8>,
    mint: Seq<u8>,
    token_program: Seq<u8>,
) -> Seq<Seq<u8>> {
    seq![wallet, token_program, mint]
}

/// The address of the token account that belongs to `wallet` for `mint`
/// under `token_program`, derived under the associated-token-account
/// program.
pub open spec fn associated_token_address_spec(
    wallet: Seq<u8>,
    mint: Seq<u8>,
    token_program: Seq<u8>,
) -> Option<Seq<u8>> {
    derived_address(
        associated_token_seeds(wallet, mint, token_program),
        crate::constants::ASSOCIATED_TOKEN_PROGRAM@,
    )
}

/// Derives the address of the token account that belongs to `wallet` for
/// `mint` under `token_program`.
pub fn get_associated_token_address_with_program_id(
    wallet: &Address,
    mint: &Address,
    token_program: &Address,
) -> (r: Option<Address>)
    ensures
        address_view(r) == associated_token_address_spec(wallet@, mint@, token_program@),
{
    let mut seeds: Vec<Vec<u8>> = Vec::with_capacity(3);
    seeds.push(wallet.to_vec());
    seeds.push(token_program.to_vec());
    seeds.push(mint.to_vec());
    assert(seeds_view(seeds@) =~= associated_token_seeds(wallet@, mint@, token_program@));
    derive_address(&seeds, &Address::new(crate::constants::ASSOCIATED_TOKEN_PROGRAM))
}

/// Derives the address of the token account that belongs to `wallet` for
/// `mint` under the token program.
pub fn get_associated_token_address(wallet: &Address, mint: &Address) -> (r: Option<Address>)
    ensures
        address_view(r) == associated_token_address_spec(
            wallet@,
            mint@,
            crate::constants::TOKEN_PROGRAM@,
        ),
{
    get_associated_token_address_with_program_id(
        wallet,
        mint,
        &Address::new(crate::constants::TOKEN_PROGRAM),
    )
}

/// Equal seeds under one program derive one address and one bump seed:
/// the derivation depends on nothing but the bytes of the seeds, their
/// order, and the program identifier.
pub proof fn lemma_derivation_is_deterministic(
    seeds1: Seq<Seq<u8>>,
    program_id1: Seq<u8>,
    seeds2: Seq<Seq<u8>>,
    program_id2: Seq<u8>,
)
    requires
        seeds1.len() == seeds2.len(),
        forall|i: int|
            0 <= i < seeds1.len() ==> (#[trigger] seeds1[i]).len() == seeds2[i].len(),
        forall|i: int, j: int|
            0 <= i < seeds1.len() && 0 <= j < seeds1[i].len() ==> #[trigger] seeds1[i][j]
                == seeds2[i][j],
        program_id1.len() == program_id2.len(),
        forall|j: int| 0 <= j < program_id1.len() ==> program_id1[j] == program_id2[j],
    ensures
        program_address(seeds1, program_id1) == program_address(seeds2, program_id2),
        derived_address(seeds1, program_id1) == derived_address(seeds2, program_id2),
{
    assert forall|i: int| 0 <= i < seeds1.len() implies seeds1[i] == seeds2[i] by {
        assert(seeds1[i].len() == seeds2[i].len());
        assert(seeds1[i] =~= seeds2[i]);
    }
    assert(seeds1 =~= seeds2);
    assert(program_id1 =~= program_id2);
}

} // verus!
