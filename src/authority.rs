use vstd::prelude::*;

use anchor_lang::prelude::Pubkey;

use crate::address::Address;

verus! {

/// What `Pubkey::try_find_program_address` returns for these seeds and this program:
/// the first off-curve address found, with the bump seed that produced it.
pub uninterp spec fn found_program_address(seeds: Seq<Seq<u8>>, program_id: [u8; 32]) -> Option<([u8; 32], u8)>;

/// What `Pubkey::create_program_address` returns for these seeds and this program,
/// with its error dropped.
pub uninterp spec fn program_address(seeds: Seq<Seq<u8>>, program_id: [u8; 32]) -> Option<[u8; 32]>;

/// Relies on `Pubkey::try_find_program_address`: it searches the bump seeds from 255
/// down and returns the first address that `create_program_address` accepts for the
/// seeds followed by that bump, together with the bump.
#[verifier::external_body]
fn try_find_program_address(seeds: &Vec<Vec<u8>>, program_id: &Address) -> (r: Option<([u8; 32], u8)>)
    ensures
        r == found_program_address(seeds.deep_view(), program_id.bytes),
        r matches Some((k, b)) ==> program_address(seeds.deep_view().push(seq![b]), program_id.bytes)
            == Some(k),
{
    let refs: Vec<&[u8]> = seeds.iter().map(|s| s.as_slice()).collect();
    Pubkey::try_find_program_address(&refs, &Pubkey::new_from_array(program_id.bytes)).map(
        |(k, b)| (k.to_bytes(), b),
    )
}

/// Relies on `Pubkey::create_program_address`: the address for exactly these seeds,
/// or an error, which is dropped here.
#[verifier::external_body]
fn create_program_address(seeds: &Vec<Vec<u8>>, program_id: &Address) -> (r: Option<[u8; 32]>)
    ensures
        r == program_address(seeds.deep_view(), program_id.bytes),
{
    let refs: Vec<&[u8]> = seeds.iter().map(|s| s.as_slice()).collect();
    Pubkey::create_program_address(&refs, &Pubkey::new_from_array(program_id.bytes)).ok().map(
        |k| k.to_bytes(),
    )
}

proof fn lemma_bytes_deep_view(v: Vec<u8>)
    ensures
        v.deep_view() == v@,
{
    assert(v.deep_view() =~= v@);
}

/// The text "mint_authority".
pub open spec fn mint_authority_label() -> Seq<u8> {
    seq![109u8, 105, 110, 116, 95, 97, 117, 116, 104, 111, 114, 105, 116, 121]
}

/// The text "escrow".
pub open spec fn escrow_label() -> Seq<u8> {
    seq![101u8, 115, 99, 114, 111, 119]
}

/// What a program-owned address is derived for. The label comes first in the seeds
/// and keeps the two uses apart.
#[derive(Clone, Copy, Debug)]
pub enum Derivation {
    /// The single authority that signs mints.
    MintAuthority,
    /// The vault authority of the escrow between these two participants.
    Escrow { depositor: Address, beneficiary: Address },
}

impl Derivation {
    /// The seeds, without the bump.
    pub open spec fn spec_seeds(&self) -> Seq<Seq<u8>> {
        match self {
            Derivation::MintAuthority => seq![mint_authority_label()],
            Derivation::Escrow { depositor, beneficiary } => seq![
                escrow_label(),
                depositor.bytes@,
                beneficiary.bytes@,
            ],
        }
    }

    /// The seeds followed by the one-byte bump.
    pub open spec fn spec_seeds_with_bump(&self, bump: u8) -> Seq<Seq<u8>> {
        self.spec_seeds().push(seq![bump])
    }

    pub fn seeds(&self) -> (r: Vec<Vec<u8>>)
        ensures
            r.deep_view() == self.spec_seeds(),
    {
        let mut r: Vec<Vec<u8>> = Vec::new();
        match self {
            Derivation::MintAuthority => {
                r.push(vec![109u8, 105, 110, 116, 95, 97, 117, 116, 104, 111, 114, 105, 116, 121]);
            },
            Derivation::Escrow { depositor, beneficiary } => {
                r.push(vec![101u8, 115, 99, 114, 111, 119]);
                r.push(depositor.to_seed());
                r.push(beneficiary.to_seed());
            },
        }
        proof {
            assert forall|i: int| 0 <= i < r@.len() implies r@[i].deep_view() == r@[i]@ by {
                lemma_bytes_deep_view(r@[i]);
            }
            assert(r.deep_view() =~= self.spec_seeds());
        }
        r
    }

    pub fn seeds_with_bump(&self, bump: u8) -> (r: Vec<Vec<u8>>)
        ensures
            r.deep_view() == self.spec_seeds_with_bump(bump),
    {
        let mut r = self.seeds();
        let b: Vec<u8> = vec![bump];
        proof {
            lemma_bytes_deep_view(b);
        }
        let ghost before = r.deep_view();
        r.push(b);
        proof {
            assert(b@ =~= seq![bump]);
            assert forall|i: int| 0 <= i < r@.len() implies #[trigger] r.deep_view()[i]
                == self.spec_seeds_with_bump(bump)[i] by {
            }
            assert(r.deep_view() =~= self.spec_seeds_with_bump(bump));
        }
        r
    }
}

/// The parts of a derived authority.
pub struct AuthorityView {
    pub derivation: Derivation,
    pub address: Address,
    pub bump: u8,
}

/// The right to sign as a program-owned address. Only this library makes one, and only
/// from a derivation that produced the address.
#[derive(Clone, Copy, Debug)]
pub struct DerivedAuthority {
    derivation: Derivation,
    address: Address,
    bump: u8,
}

impl View for DerivedAuthority {
    type V = AuthorityView;

    closed spec fn view(&self) -> AuthorityView {
        AuthorityView { derivation: self.derivation, address: self.address, bump: self.bump }
    }
}

impl DerivedAuthority {
    pub fn derivation(&self) -> (r: Derivation)
        ensures
            r == self@.derivation,
    {
        self.derivation
    }

    pub fn address(&self) -> (r: Address)
        ensures
            r == self@.address,
    {
        self.address
    }

    pub fn bump(&self) -> (r: u8)
        ensures
            r == self@.bump,
    {
        self.bump
    }

    /// The seeds to sign with: the derivation's seeds and the bump.
    pub fn signer_seeds(&self) -> (r: Vec<Vec<u8>>)
        ensures
            r.deep_view() == self@.derivation.spec_seeds_with_bump(self@.bump),
    {
        self.derivation.seeds_with_bump(self.bump)
    }
}

/// `a` is the authority that the search finds for `derivation` under `program_id`.
pub open spec fn is_found_authority(a: DerivedAuthority, program_id: [u8; 32], derivation: Derivation) -> bool {
    found_program_address(derivation.spec_seeds(), program_id) matches Some((k, b)) && a@ == (AuthorityView {
        derivation,
        address: Address { bytes: k },
        bump: b,
    })
}

/// Searches for the program-owned address of `derivation` under `program_id`.
/// What is found is the authority; the stored bump derives its address again.
pub fn find_authority(program_id: &Address, derivation: Derivation) -> (r: Option<DerivedAuthority>)
    ensures
        match found_program_address(derivation.spec_seeds(), program_id.bytes) {
            None => r is None,
            Some((k, b)) => r matches Some(a) && a@ == (AuthorityView {
                derivation,
                address: Address { bytes: k },
                bump: b,
            }),
        },
        r matches Some(a) ==> program_address(derivation.spec_seeds_with_bump(a@.bump), program_id.bytes)
            == Some(a@.address.bytes),
{
    let seeds = derivation.seeds();
    match try_find_program_address(&seeds, program_id) {
        None => None,
        Some((k, b)) => Some(DerivedAuthority { derivation, address: Address { bytes: k }, bump: b }),
    }
}

/// Derives the program-owned address of `derivation` again from a stored bump.
pub fn rederive_authority(program_id: &Address, derivation: Derivation, bump: u8) -> (r: Option<
    DerivedAuthority,
>)
    ensures
        match program_address(derivation.spec_seeds_with_bump(bump), program_id.bytes) {
            None => r is None,
            Some(k) => r matches Some(a) && a@ == (AuthorityView {
                derivation,
                address: Address { bytes: k },
                bump,
            }),
        },
{
    let seeds = derivation.seeds_with_bump(bump);
    match create_program_address(&seeds, program_id) {
        None => None,
        Some(k) => Some(DerivedAuthority { derivation, address: Address { bytes: k }, bump }),
    }
}

/// Seeds tell derivations apart: two derivations with the same seeds are the same one.
/// The label keeps the mint authority apart from every escrow, and each ordered pair of
/// participants has an escrow address of its own. Deriving again from the same
/// derivation therefore gives the same address and bump.
pub proof fn lemma_seeds_separate_derivations(program_id: [u8; 32], d1: Derivation, d2: Derivation)
    requires
        d1.spec_seeds() == d2.spec_seeds(),
    ensures
        d1 == d2,
        found_program_address(d1.spec_seeds(), program_id) == found_program_address(
            d2.spec_seeds(),
            program_id,
        ),
{
    broadcast use vstd::array::group_array_axioms;

    match (d1, d2) {
        (Derivation::MintAuthority, Derivation::Escrow { .. }) => {
            assert(d1.spec_seeds().len() != d2.spec_seeds().len());
        },
        (Derivation::Escrow { .. }, Derivation::MintAuthority) => {
            assert(d1.spec_seeds().len() != d2.spec_seeds().len());
        },
        (
            Derivation::Escrow { depositor: p1, beneficiary: q1 },
            Derivation::Escrow { depositor: p2, beneficiary: q2 },
        ) => {
            assert(d1.spec_seeds()[1] == d2.spec_seeds()[1]);
            assert(d1.spec_seeds()[2] == d2.spec_seeds()[2]);
            assert(p1.bytes =~= p2.bytes);
            assert(q1.bytes =~= q2.bytes);
        },
        _ => {},
    }
}

} // verus!
