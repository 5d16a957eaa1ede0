use vstd::prelude::*;
use vstd::string::StringSliceAdditionalSpecFns;

verus! {

/// A ledger address: the 32 bytes of a public key or of a program-derived address.
#[derive(Clone, Copy, Debug, PartialEq, Eq)]
pub struct Address {
    pub bytes: [u8; 32],
}

/// What `Pubkey::try_find_program_address` returns for these seeds under this
/// program: the first off-curve address, searching bump seeds downwards, and
/// its bump, or nothing when no bump gives one.
pub uninterp spec fn program_address_of(seeds: Seq<Seq<u8>>, program_id: Seq<u8>) -> Option<(Seq<u8>, u8)>;

/// The address and bump in a derivation result, as plain byte sequences.
pub open spec fn derived_view(r: Option<(Address, u8)>) -> Option<(Seq<u8>, u8)> {
    match r {
        Some((a, bump)) => Some((a.bytes@, bump)),
        None => None,
    }
}

/// The seeds as byte sequences.
pub open spec fn seeds_view(seeds: Seq<Vec<u8>>) -> Seq<Seq<u8>> {
    seeds.map_values(|s: Vec<u8>| s@)
}

/// The address in a derivation result, as a plain byte sequence.
pub open spec fn address_part(r: Option<Address>) -> Option<Seq<u8>> {
    match r {
        Some(a) => Some(a.bytes@),
        None => None,
    }
}

/// The address alone of a derivation result.
pub open spec fn without_bump(r: Option<(Seq<u8>, u8)>) -> Option<Seq<u8>> {
    match r {
        Some(p) => Some(p.0),
        None => None,
    }
}

/// The associated token account of `wallet` for `token_mint`, if one derives.
pub open spec fn associated_address_of(wallet: Address, token_mint: Address, token_program: Address, associated_token_program: Address) -> Option<Seq<u8>> {
    without_bump(program_address_of(
        associated_token_seeds(wallet.bytes@, token_program.bytes@, token_mint.bytes@),
        associated_token_program.bytes@,
    ))
}

/// The tag that namespaces vault record addresses.
pub open spec fn vault_tag() -> Seq<u8> {
    seq![118u8, 97u8, 117u8, 108u8, 116u8]
}

/// The tag that namespaces custody token-account addresses.
pub open spec fn custody_tag() -> Seq<u8> {
    vault_tag() + seq![95u8, 116u8, 111u8, 107u8, 101u8, 110u8, 95u8, 97u8, 99u8, 99u8, 111u8, 117u8, 110u8, 116u8]
}

/// The seeds of a vault record address.
pub open spec fn vault_seeds(authority: Seq<u8>, token_mint: Seq<u8>, name: Seq<u8>) -> Seq<Seq<u8>> {
    seq![vault_tag(), authority, token_mint, name]
}

/// The seeds of a vault's custody token account.
pub open spec fn custody_seeds(vault: Seq<u8>) -> Seq<Seq<u8>> {
    seq![custody_tag(), vault]
}

/// The seeds of the associated token account of `wallet` for `token_mint`.
pub open spec fn associated_token_seeds(wallet: Seq<u8>, token_program: Seq<u8>, token_mint: Seq<u8>) -> Seq<Seq<u8>> {
    seq![wallet, token_program, token_mint]
}

/// The derived vault record address for `(authority, token_mint, name)` under `program_id`.
pub open spec fn vault_address_of(program_id: Address, authority: Address, token_mint: Address, name: Seq<u8>) -> Option<(Seq<u8>, u8)> {
    program_address_of(vault_seeds(authority.bytes@, token_mint.bytes@, name), program_id.bytes@)
}

/// The derived custody token account of the vault at `vault` under `program_id`.
pub open spec fn custody_address_of(program_id: Address, vault: Seq<u8>) -> Option<(Seq<u8>, u8)> {
    program_address_of(custody_seeds(vault), program_id.bytes@)
}

/// Relies on `Pubkey::try_find_program_address` of solana-program: a pure
/// derivation from the seeds and the program id. It returns `None`, and does
/// not panic, when no bump seed yields an off-curve address, and always when a
/// seed is longer than 32 bytes.
#[verifier::external_body]
fn find_program_address(seeds: &Vec<Vec<u8>>, program_id: &Address) -> (r: Option<(Address, u8)>)
    ensures
        derived_view(r) == program_address_of(seeds_view(seeds@), program_id.bytes@),
        (exists|i: int| 0 <= i < seeds@.len() && #[trigger] seeds@[i]@.len() > 32) ==> r is None,
{
    let slices: Vec<&[u8]> = seeds.iter().map(|s| s.as_slice()).collect();
    let program = anchor_lang::prelude::Pubkey::new_from_array(program_id.bytes);
    anchor_lang::prelude::Pubkey::try_find_program_address(&slices, &program)
        .map(|(a, bump)| (Address { bytes: a.to_bytes() }, bump))
}

impl Address {
    /// The bytes of the address as a vector.
    pub fn to_vec(&self) -> (r: Vec<u8>)
        ensures
            r@ == self.bytes@,
    {
        let mut r: Vec<u8> = Vec::new();
        let mut i: usize = 0;
        while i < 32
            invariant
                0 <= i <= 32,
                r@ == self.bytes@.subrange(0, i as int),
            decreases 32 - i,
        {
            r.push(self.bytes[i]);
            i = i + 1;
        }
        assert(r@ =~= self.bytes@);
        r
    }

    /// Whether two addresses are byte for byte the same.
    pub fn same_as(&self, other: &Address) -> (r: bool)
        ensures
            r == (self.bytes@ == other.bytes@),
    {
        let mut i: usize = 0;
        while i < 32
            invariant
                0 <= i <= 32,
                forall|j: int| 0 <= j < i ==> self.bytes@[j] == other.bytes@[j],
            decreases 32 - i,
        {
            if self.bytes[i] != other.bytes[i] {
                return false;
            }
            i = i + 1;
        }
        assert(self.bytes@ =~= other.bytes@);
        true
    }
}

/// The bytes of a tag given as a spec sequence, built one by one.
fn tag_bytes(custody: bool) -> (r: Vec<u8>)
    ensures
        r@ == if custody { custody_tag() } else { vault_tag() },
{
    let mut r: Vec<u8> = vec![118u8, 97u8, 117u8, 108u8, 116u8];
    if custody {
        r.push(95u8);
        r.push(116u8);
        r.push(111u8);
        r.push(107u8);
        r.push(101u8);
        r.push(110u8);
        r.push(95u8);
        r.push(97u8);
        r.push(99u8);
        r.push(99u8);
        r.push(111u8);
        r.push(117u8);
        r.push(110u8);
        r.push(116u8);
        assert(r@ =~= custody_tag());
    } else {
        assert(r@ =~= vault_tag());
    }
    r
}

/// Derives the vault record address (and its bump) for `(authority, token_mint, name)`.
/// The name enters the seeds as its UTF-8 bytes.
pub fn vault_address(program_id: &Address, authority: &Address, token_mint: &Address, name: &str) -> (r: Option<(Address, u8)>)
    ensures
        derived_view(r) == vault_address_of(*program_id, *authority, *token_mint, name.spec_bytes()),
{
    let mut seeds: Vec<Vec<u8>> = Vec::new();
    seeds.push(tag_bytes(false));
    seeds.push(authority.to_vec());
    seeds.push(token_mint.to_vec());
    seeds.push(vstd::slice::slice_to_vec(name.as_bytes()));
    assert(seeds_view(seeds@) =~= vault_seeds(authority.bytes@, token_mint.bytes@, name.spec_bytes()));
    find_program_address(&seeds, program_id)
}

/// Derives the custody token account (and its bump) of the vault at `vault`.
pub fn custody_address(program_id: &Address, vault: &Address) -> (r: Option<(Address, u8)>)
    ensures
        derived_view(r) == custody_address_of(*program_id, vault.bytes@),
{
    let mut seeds: Vec<Vec<u8>> = Vec::new();
    seeds.push(tag_bytes(true));
    seeds.push(vault.to_vec());
    assert(seeds_view(seeds@) =~= custody_seeds(vault.bytes@));
    find_program_address(&seeds, program_id)
}

/// Derives the associated token account of `wallet` for `token_mint`: the
/// program address of `[wallet, token_program, token_mint]` under the
/// associated-token program.
pub fn associated_token_address(
    wallet: &Address,
    token_mint: &Address,
    token_program: &Address,
    associated_token_program: &Address,
) -> (r: Option<Address>)
    ensures
        address_part(r) == associated_address_of(*wallet, *token_mint, *token_program, *associated_token_program),
{
    let mut seeds: Vec<Vec<u8>> = Vec::new();
    seeds.push(wallet.to_vec());
    seeds.push(token_program.to_vec());
    seeds.push(token_mint.to_vec());
    assert(seeds_view(seeds@) =~= associated_token_seeds(wallet.bytes@, token_program.bytes@, token_mint.bytes@));
    match find_program_address(&seeds, associated_token_program) {
        Some((a, _bump)) => Some(a),
        None => None,
    }
}

/// Derivation is deterministic: the same program and the same
/// `(authority, token_mint, name)` always give the same vault address.
pub proof fn vault_address_deterministic(
    program_id: Address,
    authority: Address,
    token_mint: Address,
    name: Seq<u8>,
    program_id2: Address,
    authority2: Address,
    token_mint2: Address,
    name2: Seq<u8>,
)
    requires
        program_id.bytes@ == program_id2.bytes@,
        authority.bytes@ == authority2.bytes@,
        token_mint.bytes@ == token_mint2.bytes@,
        name == name2,
    ensures
        vault_address_of(program_id, authority, token_mint, name) == vault_address_of(
            program_id2,
            authority2,
            token_mint2,
            name2,
        ),
{
}

} // verus!
