//! Addresses and the derived-authority resolver.

use anchor_lang::prelude::Pubkey;
use anchor_lang::solana_program::pubkey::PubkeyError;
use vstd::prelude::*;

verus! {

/// A 32-byte identity on the ledger: a wallet, a token type, an account or
/// a derived authority.
#[derive(Clone, Copy, Debug, PartialEq, Eq)]
pub struct Address {
    pub bytes: [u8; 32],
}

impl View for Address {
    type V = Seq<u8>;

    open spec fn view(&self) -> Seq<u8> {
        self.bytes@
    }
}

impl Address {
    pub fn new(bytes: [u8; 32]) -> (a: Address)
        ensures
            a.bytes == bytes,
    {
        Address { bytes }
    }

    /// The address as a seed: its 32 bytes in order.
    pub fn to_vec(&self) -> (v: Vec<u8>)
        ensures
            v@ == self@,
    {
        let mut v: Vec<u8> = Vec::new();
        let mut i: usize = 0;
        while i < 32
            invariant
                i <= 32,
                v@ == self@.subrange(0, i as int),
            decreases 32 - i,
        {
            v.push(self.bytes[i]);
            i += 1;
        }
        v
    }

    /// Two addresses are the same exactly when all 32 bytes agree.
    pub fn same(&self, other: &Address) -> (r: bool)
        ensures
            r == (*self == *other),
            r == (self@ == other@),
    {
        let mut i: usize = 0;
        while i < 32
            invariant
                i <= 32,
                forall|j: int| 0 <= j < i ==> self.bytes[j] == other.bytes[j],
            decreases 32 - i,
        {
            if self.bytes[i] != other.bytes[i] {
                return false;
            }
            i += 1;
        }
        assert(self.bytes =~= other.bytes);
        true
    }
}

/// The error of the ledger's derivation, carried through as it comes.
#[verifier::external_type_specification]
#[verifier::external_body]
pub struct ExPubkeyError(PubkeyError);

/// The seeds are within the limits of the ledger's addressing scheme: at
/// most 16 seeds of at most 32 bytes each.
pub open spec fn seeds_fit(seeds: Seq<Seq<u8>>) -> bool {
    &&& seeds.len() <= 16
    &&& forall|i: int| 0 <= i < seeds.len() ==> (#[trigger] seeds[i]).len() <= 32
}

/// The address that the ledger's addressing scheme derives from `seeds`
/// under the program `program_id`, or `None` where the derived bytes lie on
/// the curve. Meaningful for seeds within the limits.
pub uninterp spec fn program_address(seeds: Seq<Seq<u8>>, program_id: Seq<u8>) -> Option<Seq<u8>>;

/// Calls `Pubkey::create_program_address`. The contract claims what its
/// source shows: seeds beyond the limits are refused; within the limits the
/// outcome is a function of the seeds and the program alone, either the
/// derived address or, where the derived bytes lie on the curve, a refusal.
#[verifier::external_body]
fn create_program_address(seeds: &Vec<Vec<u8>>, program_id: &Address) -> (r: Result<Address, PubkeyError>)
    ensures
        !seeds_fit(seeds.deep_view()) ==> r is Err,
        seeds_fit(seeds.deep_view()) && r is Ok ==> program_address(seeds.deep_view(), program_id@)
            == Some(r->Ok_0@),
        seeds_fit(seeds.deep_view()) && r is Err ==> program_address(seeds.deep_view(), program_id@) is None,
{
    let parts: Vec<&[u8]> = seeds.iter().map(|s| s.as_slice()).collect();
    match Pubkey::create_program_address(&parts, &Pubkey::new_from_array(program_id.bytes)) {
        Ok(key) => Ok(Address { bytes: key.to_bytes() }),
        Err(e) => Err(e),
    }
}

/// A label: the ordered seeds from which an authority is derived.
#[derive(Debug, PartialEq, Eq)]
pub struct Label {
    pub segments: Vec<Vec<u8>>,
}

impl View for Label {
    type V = Seq<Seq<u8>>;

    open spec fn view(&self) -> Seq<Seq<u8>> {
        Seq::new(self.segments.len() as nat, |i: int| self.segments[i]@)
    }
}

impl Label {
    pub fn new() -> (l: Label)
        ensures
            l@ == Seq::<Seq<u8>>::empty(),
    {
        Label { segments: Vec::new() }
    }

    /// Appends one seed.
    pub fn push(&mut self, segment: Vec<u8>)
        ensures
            final(self)@ == old(self)@.push(segment@),
    {
        self.segments.push(segment);
        assert(self@ =~= old(self)@.push(segment@));
    }

    /// The label followed by the one-byte seed that holds `bump`.
    pub fn with_bump(&self, bump: u8) -> (l: Label)
        ensures
            l@ == self@.push(seq![bump]),
    {
        let mut l = Label::new();
        let mut i: usize = 0;
        while i < self.segments.len()
            invariant
                i <= self.segments.len(),
                l@ == self@.subrange(0, i as int),
            decreases self.segments.len() - i,
        {
            let segment = &self.segments[i];
            let mut copy: Vec<u8> = Vec::new();
            let mut j: usize = 0;
            while j < segment.len()
                invariant
                    j <= segment.len(),
                    copy@ == segment@.subrange(0, j as int),
                decreases segment.len() - j,
            {
                copy.push(segment[j]);
                j += 1;
            }
            assert(copy@ =~= segment@);
            l.push(copy);
            assert(l@ =~= self@.subrange(0, i + 1));
            i += 1;
        }
        assert(self@.subrange(0, self.segments.len() as int) =~= self@);
        let mut last: Vec<u8> = Vec::new();
        last.push(bump);
        assert(last@ =~= seq![bump]);
        l.push(last);
        l
    }
}

/// The tag `auth` of the signing authority
pub open spec fn auth_tag() -> Seq<u8> {
    seq![97u8, 117u8, 116u8, 104u8]
}

/// The tag `vault` of a custody account.
pub open spec fn vault_tag() -> Seq<u8> {
    seq![118u8, 97u8, 117u8, 108u8, 116u8]
}

/// The tag `escrow` of an escrow record.
pub open spec fn escrow_tag() -> Seq<u8> {
    seq![101u8, 115u8, 99u8, 114u8, 111u8, 119u8]
}

/// The label of the escrow program's one signing authority.
pub open spec fn auth_label_spec() -> Seq<Seq<u8>> {
    seq![auth_tag()]
}

/// The label of the signing authority scoped to one vault state.
pub open spec fn scoped_auth_label_spec(state: Address) -> Seq<Seq<u8>> {
    seq![auth_tag(), state@]
}

/// The label of the custody account scoped to `anchor`, an escrow record
/// or a vault's authority.
pub open spec fn vault_label_spec(anchor: Address) -> Seq<Seq<u8>> {
    seq![vault_tag(), anchor@]
}

/// The label of the record that `maker` opens under `seed`.
pub open spec fn escrow_label_spec(maker: Address, seed: u64) -> Seq<Seq<u8>> {
    seq![escrow_tag(), maker@, vstd::bytes::spec_u64_to_le_bytes(seed)]
}

fn auth_tag_bytes() -> (v: Vec<u8>)
    ensures
        v@ == auth_tag(),
{
    let mut v: Vec<u8> = Vec::new();
    v.push(97u8);
    v.push(117u8);
    v.push(116u8);
    v.push(104u8);
    assert(v@ =~= auth_tag());
    v
}

fn vault_tag_bytes() -> (v: Vec<u8>)
    ensures
        v@ == vault_tag(),
{
    let mut v: Vec<u8> = Vec::new();
    v.push(118u8);
    v.push(97u8);
    v.push(117u8);
    v.push(108u8);
    v.push(116u8);
    assert(v@ =~= vault_tag());
    v
}

fn escrow_tag_bytes() -> (v: Vec<u8>)
    ensures
        v@ == escrow_tag(),
{
    let mut v: Vec<u8> = Vec::new();
    v.push(101u8);
    v.push(115u8);
    v.push(99u8);
    v.push(114u8);
    v.push(111u8);
    v.push(119u8);
    assert(v@ =~= escrow_tag());
    v
}

pub fn auth_label() -> (l: Label)
    ensures
        l@ == auth_label_spec(),
{
    let mut l = Label::new();
    l.push(auth_tag_bytes());
    assert(l@ =~= auth_label_spec());
    l
}

pub fn scoped_auth_label(state: &Address) -> (l: Label)
    ensures
        l@ == scoped_auth_label_spec(*state),
{
    let mut l = Label::new();
    l.push(auth_tag_bytes());
    l.push(state.to_vec());
    assert(l@ =~= scoped_auth_label_spec(*state));
    l
}

pub fn vault_label(anchor: &Address) -> (l: Label)
    ensures
        l@ == vault_label_spec(*anchor),
{
    let mut l = Label::new();
    l.push(vault_tag_bytes());
    l.push(anchor.to_vec());
    assert(l@ =~= vault_label_spec(*anchor));
    l
}

pub fn escrow_label(maker: &Address, seed: u64) -> (l: Label)
    ensures
        l@ == escrow_label_spec(*maker, seed),
{
    let mut l = Label::new();
    l.push(escrow_tag_bytes());
    l.push(maker.to_vec());
    l.push(vstd::bytes::u64_to_le_bytes(seed));
    assert(l@ =~= escrow_label_spec(*maker, seed));
    l
}

/// The address derived from `label` and `bump` under `program_id`: the
/// outcome of the ledger's derivation on the label followed by the bump, and
/// `None` where that outcome is refused.
pub open spec fn address_at(program_id: Address, label: Seq<Seq<u8>>, bump: u8) -> Option<Seq<u8>> {
    let seeds = label.push(seq![bump]);
    if seeds_fit(seeds) {
        program_address(seeds, program_id@)
    } else {
        None
    }
}

/// `bump` is the lowest bump under which `label` derives an address.
pub open spec fn is_canonical(program_id: Address, label: Seq<Seq<u8>>, bump: u8) -> bool {
    &&& address_at(program_id, label, bump) is Some
    &&& forall|lower: u8| lower < bump ==> address_at(program_id, label, lower) is None
}

/// The canonical bump of `label`: the lowest one that derives an address,
/// if any does.
pub open spec fn canonical_bump(program_id: Address, label: Seq<Seq<u8>>) -> Option<u8> {
    if exists|b: u8| is_canonical(program_id, label, b) {
        Some(choose|b: u8| is_canonical(program_id, label, b))
    } else {
        None
    }
}

/// `address` is what `label` and `bump` derive under `program_id`.
pub open spec fn verifies(program_id: Address, address: Address, label: Seq<Seq<u8>>, bump: u8) -> bool {
    address_at(program_id, label, bump) == Some(address@)
}

/// The canonical bump of `label`, provided that `address` is the address
/// derived under it.
pub open spec fn canonical_bump_of(program_id: Address, label: Seq<Seq<u8>>, address: Address) -> Option<u8> {
    match canonical_bump(program_id, label) {
        Some(b) => if verifies(program_id, address, label, b) {
            Some(b)
        } else {
            None
        },
        None => None,
    }
}

/// At most one bump is canonical for a label.
pub proof fn lemma_canonical_unique(program_id: Address, label: Seq<Seq<u8>>, a: u8, b: u8)
    requires
        is_canonical(program_id, label, a),
        is_canonical(program_id, label, b),
    ensures
        a == b,
{
    if a < b {
        assert(address_at(program_id, label, a) is None);
    } else if b < a {
        assert(address_at(program_id, label, b) is None);
    }
}

/// One step of the derivation: the address under a given bump.
pub fn derive_with_bump(program_id: &Address, label: &Label, bump: u8) -> (r: Option<Address>)
    ensures
        r is Some <==> address_at(*program_id, label@, bump) is Some,
        r matches Some(a) ==> address_at(*program_id, label@, bump) == Some(a@),
{
    let seeds = label.with_bump(bump);
    assert(seeds.segments.deep_view() =~~= seeds@) by {
        assert forall|i: int| 0 <= i < seeds.segments.len() implies #[trigger] seeds.segments.deep_view()[i]
            =~= seeds@[i] by {}
    }
    match create_program_address(&seeds.segments, program_id) {
        Ok(a) => Some(a),
        Err(_) => None,
    }
}

/// Searches the bumps from 0 upwards for the first under which `label`
/// derives an address. The result is unique: the address and its canonical
/// bump, or `None` where no bump derives one.
pub fn derive(program_id: &Address, label: &Label) -> (r: Option<(Address, u8)>)
    ensures
        r is Some <==> canonical_bump(*program_id, label@) is Some,
        r matches Some(found) ==> canonical_bump(*program_id, label@) == Some(found.1) && address_at(
            *program_id,
            label@,
            found.1,
        ) == Some(found.0@),
{
    let mut bump: u8 = 0;
    loop
        invariant
            forall|lower: u8| lower < bump ==> address_at(*program_id, label@, lower) is None,
        decreases 255 - bump,
    {
        match derive_with_bump(program_id, label, bump) {
            Some(a) => {
                proof {
                    assert(is_canonical(*program_id, label@, bump));
                    let c = choose|b: u8| is_canonical(*program_id, label@, b);
                    lemma_canonical_unique(*program_id, label@, c, bump);
                }
                return Some((a, bump));
            },
            None => {},
        }
        if bump == 255 {
            proof {
                assert forall|b: u8| !is_canonical(*program_id, label@, b) by {
                    assert(b < 255 || b == 255);
                }
            }
            return None;
        }
        bump += 1;
    }
}

/// The canonical bump of `label`, provided that `presented` is the address
/// derived under it.
pub fn canonical_bump_for(program_id: &Address, label: &Label, presented: &Address) -> (r: Option<u8>)
    ensures
        r == canonical_bump_of(*program_id, label@, *presented),
{
    match derive(program_id, label) {
        Some((a, b)) => if a.same(presented) {
            Some(b)
        } else {
            None
        },
        None => None,
    }
}

/// Recomputes the derivation under `bump` and compares it with `address`.
pub fn verify(program_id: &Address, address: &Address, label: &Label, bump: u8) -> (ok: bool)
    ensures
        ok == verifies(*program_id, *address, label@, bump),
{
    match derive_with_bump(program_id, label, bump) {
        Some(a) => a.same(address),
        None => false,
    }
}

} // verus!
