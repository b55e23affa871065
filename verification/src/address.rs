use vstd::prelude::*;
use vstd::slice::slice_to_vec;
use solana_program::program_pack::Pack;
use crate::state::Address;
use crate::wire::le_u64;

verus! {

/// What a token-holding account declares of itself.
#[derive(Clone, Copy, Debug, PartialEq, Eq)]
pub struct TokenAccount {
    /// The token type it holds.
    pub mint: Address,
    /// The identity that may move its balance.
    pub owner: Address,
    /// Its balance.
    pub amount: u64,
}

/// The length of a token-holding account's data.
pub const TOKEN_ACCOUNT_LEN: usize = 165;

/// The domain tag under which escrow addresses are derived: the ASCII bytes
/// of the word "escrow".
pub open spec fn escrow_seed_bytes() -> Seq<u8> {
    seq![101u8, 115u8, 99u8, 114u8, 111u8, 119u8]
}

/// The identity of the token program, under which token-holding accounts
/// live.
pub open spec fn token_program_bytes() -> Seq<u8> {
    seq![
        6u8, 221u8, 246u8, 225u8, 215u8, 101u8, 161u8, 147u8, 217u8, 203u8, 225u8, 70u8, 206u8,
        235u8, 121u8, 172u8, 28u8, 180u8, 133u8, 237u8, 95u8, 91u8, 55u8, 145u8, 58u8, 140u8,
        245u8, 133u8, 126u8, 255u8, 0u8, 169u8,
    ]
}

/// The identity of the associated-token program, under which the standard
/// token-holding address of an owner is derived.
pub open spec fn associated_token_program_bytes() -> Seq<u8> {
    seq![
        140u8, 151u8, 37u8, 143u8, 78u8, 36u8, 137u8, 241u8, 187u8, 61u8, 16u8, 41u8, 20u8, 142u8,
        13u8, 131u8, 11u8, 90u8, 19u8, 153u8, 218u8, 255u8, 16u8, 132u8, 4u8, 142u8, 123u8, 216u8,
        219u8, 233u8, 248u8, 89u8,
    ]
}

/// The address and nonce that the runtime's derivation gives for a list of
/// seeds under a program identity, if it gives one.
pub uninterp spec fn program_address(seeds: Seq<Seq<u8>>, program_id: Seq<u8>) -> Option<([u8; 32], u8)>;

/// The SHA-256 digest of a byte string.
pub uninterp spec fn sha256_digest(data: Seq<u8>) -> [u8; 32];

/// The seeds as byte strings.
pub open spec fn seed_views(seeds: Seq<Vec<u8>>) -> Seq<Seq<u8>> {
    Seq::new(seeds.len(), |i: int| seeds[i]@)
}

/// The escrow's address and nonce for a commitment: the derivation from the
/// domain tag and the commitment under the program's identity.
pub open spec fn escrow_address(program_id: Address, payment_hash: [u8; 32]) -> Option<(Address, u8)> {
    program_address(seq![escrow_seed_bytes(), payment_hash@], program_id@)
}

/// The standard token-holding address for an owner and a token type: the
/// derivation from the owner, the token program's identity and the token
/// type, under the associated-token program's identity.
pub open spec fn vault_address(owner: Address, mint: Address) -> Option<Address> {
    match program_address(
        seq![owner@, token_program_bytes(), mint@],
        associated_token_program_bytes(),
    ) {
        Some(pair) => Some(pair.0),
        None => None,
    }
}

/// An optional field's four-byte marker at `at` is one of the two valid ones.
pub open spec fn option_tag_ok(s: Seq<u8>, at: int) -> bool {
    (s[at] == 0 || s[at] == 1) && s[at + 1] == 0 && s[at + 2] == 0 && s[at + 3] == 0
}

/// Whether `s` is the data of an initialized token-holding account: the
/// fixed length, valid markers for its three optional fields, and a state
/// byte that says initialized or frozen.
pub open spec fn is_token_account(s: Seq<u8>) -> bool {
    &&& s.len() == TOKEN_ACCOUNT_LEN
    &&& option_tag_ok(s, 72)
    &&& (s[108] == 1 || s[108] == 2)
    &&& option_tag_ok(s, 109)
    &&& option_tag_ok(s, 129)
}

/// `s` declares what `t` holds: token type, owner and balance are its first
/// three fields.
pub open spec fn token_account_at(s: Seq<u8>, t: TokenAccount) -> bool {
    &&& is_token_account(s)
    &&& s.subrange(0, 32) == t.mint@
    &&& s.subrange(32, 64) == t.owner@
    &&& le_u64(s.subrange(64, 72)) == t.amount
}

/// What the data of a token-holding account declares, if it is one.
pub open spec fn token_account_of(s: Seq<u8>) -> Option<TokenAccount> {
    if is_token_account(s) {
        Some(choose|t: TokenAccount| token_account_at(s, t))
    } else {
        None
    }
}

/// Account data declares at most one token account.
pub proof fn token_account_unique(s: Seq<u8>, a: TokenAccount, b: TokenAccount)
    requires
        token_account_at(s, a),
        token_account_at(s, b),
    ensures
        a == b,
{
    assert(a.mint =~= b.mint);
    assert(a.owner =~= b.owner);
}

/// Calls `Pubkey::try_find_program_address` of solana_program with the
/// seeds. Trusted: the result is the derivation named `program_address`, a
/// function of the seeds and the program identity alone; it is `None` where
/// no nonce gives an address off the curve, or a seed is too long or the
/// seeds too many.
#[verifier::external_body]
pub(crate) fn find_program_address(seeds: &Vec<Vec<u8>>, program_id: &Address) -> (r: Option<(Address, u8)>)
    ensures
        r == program_address(seed_views(seeds@), program_id@),
{
    let id = solana_program::pubkey::Pubkey::new_from_array(*program_id);
    let refs: Vec<&[u8]> = seeds.iter().map(|seed| seed.as_slice()).collect();
    match solana_program::pubkey::Pubkey::try_find_program_address(&refs, &id) {
        Some((address, bump)) => Some((address.to_bytes(), bump)),
        None => None,
    }
}

/// Calls `hash` of solana_program. Trusted: the result is the SHA-256 digest
/// of the bytes, named `sha256_digest`.
#[verifier::external_body]
pub(crate) fn sha256(data: &[u8]) -> (r: [u8; 32])
    ensures
        r == sha256_digest(data@),
{
    solana_program::hash::hash(data).to_bytes()
}

/// Calls `Account::unpack` of spl_token. Trusted: it succeeds exactly on the
/// data of an initialized token-holding account, and then hands out the token
/// type, the owner and the balance that the data declares.
#[verifier::external_body]
pub(crate) fn unpack_token_account(data: &[u8]) -> (r: Option<TokenAccount>)
    ensures
        r == token_account_of(data@),
        r matches Some(t) ==> token_account_at(data@, t),
{
    match spl_token::state::Account::unpack(data) {
        Ok(a) => Some(TokenAccount { mint: a.mint.to_bytes(), owner: a.owner.to_bytes(), amount: a.amount }),
        Err(_) => None,
    }
}

/// The domain tag under which escrow addresses are derived.
pub fn escrow_seed() -> (seed: [u8; 6])
    ensures
        seed@ == escrow_seed_bytes(),
{
    let seed: [u8; 6] = [101, 115, 99, 114, 111, 119];
    assert(seed@ =~= escrow_seed_bytes());
    seed
}

/// The identity of the token program.
pub fn token_program_id() -> (id: Address)
    ensures
        id@ == token_program_bytes(),
{
    let id: Address = [
        6, 221, 246, 225, 215, 101, 161, 147, 217, 203, 225, 70, 206, 235, 121, 172, 28, 180, 133,
        237, 95, 91, 55, 145, 58, 140, 245, 133, 126, 255, 0, 169,
    ];
    assert(id@ =~= token_program_bytes());
    id
}

/// The identity of the associated-token program.
pub fn associated_token_program_id() -> (id: Address)
    ensures
        id@ == associated_token_program_bytes(),
{
    let id: Address = [
        140, 151, 37, 143, 78, 36, 137, 241, 187, 61, 16, 41, 20, 142, 13, 131, 11, 90, 19, 153,
        218, 255, 16, 132, 4, 142, 123, 216, 219, 233, 248, 89,
    ];
    assert(id@ =~= associated_token_program_bytes());
    id
}

/// The escrow's address and nonce for a commitment. `None` in the improbable
/// case that the derivation finds no nonce.
pub fn pda_for_hash(program_id: &Address, payment_hash: &[u8; 32]) -> (r: Option<(Address, u8)>)
    ensures
        r == escrow_address(*program_id, *payment_hash),
{
    let tag = escrow_seed();
    let mut seeds: Vec<Vec<u8>> = Vec::new();
    seeds.push(slice_to_vec(tag.as_slice()));
    seeds.push(slice_to_vec(payment_hash.as_slice()));
    assert(seed_views(seeds@) =~= seq![escrow_seed_bytes(), payment_hash@]);
    find_program_address(&seeds, program_id)
}

/// The standard token-holding address for an owner and a token type. `None`
/// in the improbable case that the derivation finds no nonce.
pub fn associated_token_address(owner: &Address, mint: &Address) -> (r: Option<Address>)
    ensures
        r == vault_address(*owner, *mint),
{
    let token_program = token_program_id();
    let program = associated_token_program_id();
    let mut seeds: Vec<Vec<u8>> = Vec::new();
    seeds.push(slice_to_vec(owner.as_slice()));
    seeds.push(slice_to_vec(token_program.as_slice()));
    seeds.push(slice_to_vec(mint.as_slice()));
    assert(seed_views(seeds@) =~= seq![owner@, token_program_bytes(), mint@]);
    match find_program_address(&seeds, &program) {
        Some((address, _)) => Some(address),
        None => None,
    }
}

/// Whether two identities are the same.
pub fn same_address(a: &Address, b: &Address) -> (r: bool)
    ensures
        r == (*a == *b),
{
    let mut i: usize = 0;
    while i < 32
        invariant
            i <= 32,
            forall|j: int| 0 <= j < i ==> a[j] == b[j],
        decreases 32 - i,
    {
        if a[i] != b[i] {
            return false;
        }
        i = i + 1;
    }
    assert(*a =~= *b);
    true
}

} // verus!
