use anchor_lang::solana_program::pubkey::Pubkey;
use vstd::prelude::*;

verus! {

/// A 32-byte account identity (an owner, an asset's token account, a program).
#[derive(Clone, Copy, Debug)]
pub struct Address {
    pub bytes: [u8; 32],
}

impl View for Address {
    type V = Seq<u8>;

    open spec fn view(&self) -> Seq<u8> {
        self.bytes@
    }
}

impl Address {
    /// The all-zero identity, which a fresh record holds before its first stake.
    pub fn zero() -> (r: Address)
        ensures
            r@ == Seq::new(32, |i: int| 0u8),
    {
        let r = Address { bytes: [0u8; 32] };
        assert(r@ =~= Seq::new(32, |i: int| 0u8));
        r
    }

    pub fn new(bytes: [u8; 32]) -> (r: Address)
        ensures
            r@ == bytes@,
    {
        Address { bytes }
    }

    /// The identity's bytes, in order.
    pub fn to_vec(&self) -> (r: Vec<u8>)
        ensures
            r@ == self@,
    {
        let mut r: Vec<u8> = Vec::new();
        let mut i: usize = 0;
        while i < 32
            invariant
                0 <= i <= 32,
                self@.len() == 32,
                r@ == self@.subrange(0, i as int),
            decreases 32 - i,
        {
            r.push(self.bytes[i]);
            i = i + 1;
            assert(r@ =~= self@.subrange(0, i as int));
        }
        assert(r@ =~= self@);
        r
    }

    /// Byte-wise equality of two identities.
    pub fn same(&self, other: &Address) -> (r: bool)
        ensures
            r == (self@ == other@),
    {
        let mut i: usize = 0;
        while i < 32
            invariant
                0 <= i <= 32,
                self@.len() == 32,
                other@.len() == 32,
                forall|j: int| 0 <= j < i ==> self@[j] == other@[j],
            decreases 32 - i,
        {
            if self.bytes[i] != other.bytes[i] {
                return false;
            }
            i = i + 1;
        }
        assert(self@ =~= other@);
        true
    }
}

impl PartialEq for Address {
    fn eq(&self, other: &Address) -> (r: bool) {
        self.same(other)
    }
}

impl vstd::std_specs::cmp::PartialEqSpecImpl for Address {
    open spec fn obeys_eq_spec() -> bool {
        true
    }

    open spec fn eq_spec(&self, other: &Address) -> bool {
        self@ == other@
    }
}

impl Eq for Address {
}

/// The program-derived address that the runtime computes for `seeds` under
/// the program `program`, with its bump seed, or `None` where no bump gives
/// an address off the curve (or the seeds break the runtime's limits).
pub uninterp spec fn program_address_of(seeds: Seq<Seq<u8>>, program: Seq<u8>) -> Option<(Seq<u8>, u8)>;

/// Relies on `Pubkey::try_find_program_address`: a pure function of the seeds
/// and the program identity (a hash of both, searched over the bump seed).
#[verifier::external_body]
fn try_find_program_address(seeds: &Vec<Vec<u8>>, program: &Address) -> (r: Option<(Address, u8)>)
    ensures
        match program_address_of(seeds.deep_view(), program@) {
            Some((a, b)) => r matches Some((ra, rb)) && ra@ == a && rb == b,
            None => r is None,
        },
{
    let s: Vec<&[u8]> = seeds.iter().map(|x| x.as_slice()).collect();
    Pubkey::try_find_program_address(&s, &Pubkey::new_from_array(program.bytes))
        .map(|(k, b)| (Address { bytes: k.to_bytes() }, b))
}

/// Seed label `"authority"` of the custody delegate that freezes and thaws
/// staked assets.
pub open spec fn authority_seed() -> Seq<u8> {
    seq![97u8, 117u8, 116u8, 104u8, 111u8, 114u8, 105u8, 116u8, 121u8]
}

/// Seed label `"mint"` of the authority that signs reward mints.
pub open spec fn mint_seed() -> Seq<u8> {
    seq![109u8, 105u8, 110u8, 116u8]
}

/// `r` is the exec form of the derivation result `d`.
pub open spec fn same_derivation(r: Option<(Address, u8)>, d: Option<(Seq<u8>, u8)>) -> bool {
    match d {
        Some((a, b)) => r matches Some((ra, rb)) && ra@ == a && rb == b,
        None => r is None,
    }
}

/// Seeds under which the stake record of `(user, token_account)` lives.
pub open spec fn record_seeds(user: Seq<u8>, token_account: Seq<u8>) -> Seq<Seq<u8>> {
    seq![user, token_account]
}

/// The custody delegate of `program`: the identity derived from the label
/// `"authority"`, with its bump seed.
pub fn custody_authority(program: &Address) -> (r: Option<(Address, u8)>)
    ensures
        same_derivation(r, program_address_of(seq![authority_seed()], program@)),
{
    let seeds: Vec<Vec<u8>> = vec![vec![97u8, 117u8, 116u8, 104u8, 111u8, 114u8, 105u8, 116u8, 121u8]];
    proof {
        assert(seeds@[0].deep_view() =~= seeds@[0]@);
        assert(seeds@[0]@ =~= authority_seed());
        assert(seeds.deep_view() =~= seq![authority_seed()]);
    }
    try_find_program_address(&seeds, program)
}

/// The reward-mint authority of `program`: the identity derived from the
/// label `"mint"`, with its bump seed.
pub fn mint_authority(program: &Address) -> (r: Option<(Address, u8)>)
    ensures
        same_derivation(r, program_address_of(seq![mint_seed()], program@)),
{
    let seeds: Vec<Vec<u8>> = vec![vec![109u8, 105u8, 110u8, 116u8]];
    proof {
        assert(seeds@[0].deep_view() =~= seeds@[0]@);
        assert(seeds@[0]@ =~= mint_seed());
        assert(seeds.deep_view() =~= seq![mint_seed()]);
    }
    try_find_program_address(&seeds, program)
}

/// The address of the stake record of `(user, token_account)` under
/// `program`, with its bump seed.
pub fn stake_record_address(user: &Address, token_account: &Address, program: &Address) -> (r: Option<(Address, u8)>)
    ensures
        same_derivation(r, program_address_of(record_seeds(user@, token_account@), program@)),
{
    let seeds: Vec<Vec<u8>> = vec![user.to_vec(), token_account.to_vec()];
    proof {
        assert(seeds@[0].deep_view() =~= seeds@[0]@);
        assert(seeds@[1].deep_view() =~= seeds@[1]@);
        assert(seeds.deep_view() =~= record_seeds(user@, token_account@));
    }
    try_find_program_address(&seeds, program)
}

} // verus!
