use vstd::prelude::*;
use anchor_lang::solana_program::pubkey::Pubkey;

verus! {

broadcast use vstd::array::group_array_axioms;

/// A ledger identity: a wallet, a mint, an account or a program.
pub type Address = [u8; 32];

/// Namespace of the offer record's derived address: the bytes of "offer".
pub open spec fn offer_namespace() -> Seq<u8> {
    seq![111u8, 102u8, 102u8, 101u8, 114u8]
}

/// The largest number of seeds a derived address may take.
pub const MAX_SEEDS: usize = 16;

/// The largest length of one seed.
pub const MAX_SEED_LEN: usize = 32;

/// The program address derived from `seeds` under `program_id`, or `None` where the
/// seeds are rejected or hash onto the curve.
pub uninterp spec fn program_address(seeds: Seq<Seq<u8>>, program_id: Seq<u8>) -> Option<Seq<u8>>;

/// The address and bump that the bump search finds for `seeds` under `program_id`.
pub uninterp spec fn found_program_address(seeds: Seq<Seq<u8>>, program_id: Seq<u8>) -> Option<(Seq<u8>, u8)>;

/// Whether the seeds are within the limits that the derivation accepts.
pub open spec fn seeds_in_limits(seeds: Seq<Seq<u8>>) -> bool {
    &&& seeds.len() <= MAX_SEEDS
    &&& forall|i: int| 0 <= i < seeds.len() ==> #[trigger] seeds[i].len() <= MAX_SEED_LEN
}

/// The eight little-endian bytes of `x`.
pub open spec fn le_bytes(x: u64) -> Seq<u8> {
    Seq::new(8, |i: int| ((x as int / pow256(i)) % 256) as u8)
}

pub open spec fn pow256(i: int) -> int
    decreases i,
{
    if i <= 0 {
        1
    } else {
        256 * pow256(i - 1)
    }
}

/// The seeds, bump excluded, of the offer record that `maker` opens under `id`.
pub open spec fn offer_seeds(maker: Address, id: u64) -> Seq<Seq<u8>> {
    seq![offer_namespace(), maker@, le_bytes(id)]
}

/// The same seeds followed by the one-byte bump.
pub open spec fn offer_seeds_with_bump(maker: Address, id: u64, bump: u8) -> Seq<Seq<u8>> {
    offer_seeds(maker, id).push(seq![bump])
}

/// Relies on `Pubkey::create_program_address`: the derivation is a function of the
/// seeds and the program id; it rejects more than `MAX_SEEDS` seeds or a seed longer
/// than `MAX_SEED_LEN`.
#[verifier::external_body]
fn create_program_address(seeds: &Vec<Vec<u8>>, program_id: &Address) -> (r: Option<Address>)
    ensures
        r matches Some(a) ==> program_address(seeds.deep_view(), program_id@) == Some(a@),
        r is None ==> program_address(seeds.deep_view(), program_id@) is None,
        !seeds_in_limits(seeds.deep_view()) ==> r is None,
{
    let refs: Vec<&[u8]> = seeds.iter().map(|s| s.as_slice()).collect();
    Pubkey::create_program_address(&refs, &Pubkey::new_from_array(*program_id)).ok().map(
        |p| p.to_bytes(),
    )
}

/// Relies on `Pubkey::try_find_program_address`: it tries the bumps from 255 down to 1
/// and returns the first for which `Pubkey::create_program_address` accepts the seeds
/// followed by that bump.
#[verifier::external_body]
fn try_find_program_address(seeds: &Vec<Vec<u8>>, program_id: &Address) -> (r: Option<(Address, u8)>)
    ensures
        r matches Some(f) ==> found_program_address(seeds.deep_view(), program_id@) == Some((f.0@, f.1)),
        r is None ==> found_program_address(seeds.deep_view(), program_id@) is None,
        r matches Some(f) ==> f.1 >= 1 && program_address(seeds.deep_view().push(seq![f.1]), program_id@)
            == Some(f.0@),
{
    let refs: Vec<&[u8]> = seeds.iter().map(|s| s.as_slice()).collect();
    Pubkey::try_find_program_address(&refs, &Pubkey::new_from_array(*program_id)).map(
        |(p, b)| (p.to_bytes(), b),
    )
}

/// The id of the associated-account program: the base58 text
/// ATokenGPvbdGVxr1b2hvZbsiqW5xWH25efTNsLJA8knL as bytes.
pub open spec fn associated_token_program() -> Seq<u8> {
    seq![
        140u8, 151u8, 37u8, 143u8, 78u8, 36u8, 137u8, 241u8, 187u8, 61u8, 16u8, 41u8, 20u8, 142u8,
        13u8, 131u8, 11u8, 90u8, 19u8, 153u8, 218u8, 255u8, 16u8, 132u8, 4u8, 142u8, 123u8, 216u8,
        219u8, 233u8, 248u8, 89u8,
    ]
}

/// Relies on `anchor_spl::associated_token::ID`, the associated-account program's id,
/// declared in its source as ATokenGPvbdGVxr1b2hvZbsiqW5xWH25efTNsLJA8knL.
#[verifier::external_body]
fn associated_token_program_id() -> (r: Address)
    ensures
        r@ == associated_token_program(),
{
    anchor_spl::associated_token::ID.to_bytes()
}

/// The seeds of the canonical account for `mint` held by `wallet` under the asset
/// program `token_program`.
pub open spec fn associated_account_seeds(wallet: Address, token_program: Address, mint: Address) -> Seq<Seq<u8>> {
    seq![wallet@, token_program@, mint@]
}

/// The address of the canonical account for `mint` held by `wallet`, if the bump
/// search finds one.
pub open spec fn associated_account_address(wallet: Address, token_program: Address, mint: Address) -> Option<
    Seq<u8>,
> {
    match found_program_address(associated_account_seeds(wallet, token_program, mint), associated_token_program()) {
        Some(f) => Some(f.0),
        None => None,
    }
}

/// Derives the address of the canonical account for `mint` held by `wallet`: a
/// program address of the associated-account program over the wallet, the asset
/// program and the mint.
pub fn find_associated_account_address(wallet: &Address, token_program: &Address, mint: &Address) -> (r: Option<
    Address,
>)
    ensures
        r matches Some(a) ==> associated_account_address(*wallet, *token_program, *mint) == Some(a@),
        r is None ==> associated_account_address(*wallet, *token_program, *mint) is None,
{
    let mut seeds: Vec<Vec<u8>> = Vec::new();
    let w = bytes_of(wallet);
    let t = bytes_of(token_program);
    let m = bytes_of(mint);
    seeds.push(w);
    seeds.push(t);
    seeds.push(m);
    assert(seeds.deep_view()[0] == wallet@);
    assert(seeds.deep_view()[1] == token_program@);
    assert(seeds.deep_view()[2] == mint@);
    assert(seeds.deep_view() =~= associated_account_seeds(*wallet, *token_program, *mint));
    let program = associated_token_program_id();
    match try_find_program_address(&seeds, &program) {
        Some(f) => Some(f.0),
        None => None,
    }
}

/// Two addresses are equal exactly when their bytes are.
pub proof fn lemma_address_view_eq(a: Address, b: Address)
    ensures
        (a@ == b@) == (a == b),
{
    if a@ == b@ {
        assert(a =~= b);
    }
}

/// Whether two addresses are the same.
pub fn same_address(a: &Address, b: &Address) -> (r: bool)
    ensures
        r == (*a == *b),
        r == (a@ == b@),
{
    let mut i: usize = 0;
    while i < 32
        invariant
            0 <= i <= 32,
            forall|j: int| 0 <= j < i ==> a[j] == b[j],
        decreases 32 - i,
    {
        if a[i] != b[i] {
            assert(a@[i as int] != b@[i as int]);
            return false;
        }
        i = i + 1;
    }
    assert(*a =~= *b);
    true
}

fn bytes_of(a: &Address) -> (r: Vec<u8>)
    ensures
        r@ == a@,
{
    let mut r: Vec<u8> = Vec::new();
    let mut i: usize = 0;
    while i < a.len()
        invariant
            0 <= i <= a@.len(),
            r@ == a@.subrange(0, i as int),
        decreases a@.len() - i,
    {
        r.push(a[i]);
        i = i + 1;
        assert(r@ =~= a@.subrange(0, i as int));
    }
    assert(r@ =~= a@);
    r
}

/// The eight little-endian bytes of `x`.
pub fn le_bytes_of(x: u64) -> (r: Vec<u8>)
    ensures
        r@ == le_bytes(x),
{
    let mut r: Vec<u8> = Vec::new();
    let mut rest: u64 = x;
    let mut i: usize = 0;
    while i < 8
        invariant
            0 <= i <= 8,
            r@.len() == i,
            rest as int == x as int / pow256(i as int),
            forall|j: int| 0 <= j < i ==> r@[j] == le_bytes(x)[j],
        decreases 8 - i,
    {
        proof {
            lemma_pow256_positive(i as int);
            lemma_div_step(x as int, pow256(i as int));
        }
        r.push((rest % 256) as u8);
        rest = rest / 256;
        i = i + 1;
    }
    assert(r@ =~= le_bytes(x));
    r
}

proof fn lemma_pow256_positive(i: int)
    ensures
        pow256(i) > 0,
    decreases i,
{
    if i > 0 {
        lemma_pow256_positive(i - 1);
    }
}

proof fn lemma_div_step(x: int, p: int)
    requires
        x >= 0,
        p > 0,
    ensures
        x / p / 256 == x / (256 * p),
{
    vstd::arithmetic::div_mod::lemma_div_denominator(x, p, 256);
    assert(p * 256 == 256 * p) by (nonlinear_arith);
}

/// The offer seeds, bump excluded, as bytes.
fn offer_seed_bytes(maker: &Address, id: u64) -> (r: Vec<Vec<u8>>)
    ensures
        r.deep_view() == offer_seeds(*maker, id),
{
    let mut r: Vec<Vec<u8>> = Vec::new();
    let mut namespace: Vec<u8> = Vec::new();
    namespace.push(111u8);
    namespace.push(102u8);
    namespace.push(102u8);
    namespace.push(101u8);
    namespace.push(114u8);
    assert(namespace@ =~= offer_namespace());
    let m = bytes_of(maker);
    let n = le_bytes_of(id);
    r.push(namespace);
    r.push(m);
    r.push(n);
    assert(r.deep_view()[0] == offer_namespace());
    assert(r.deep_view()[1] == maker@);
    assert(r.deep_view()[2] == le_bytes(id));
    assert(r.deep_view() =~= offer_seeds(*maker, id));
    r
}

/// Derives the offer record's address and its bump from the maker and the id: the
/// first bump, counting down, that gives a program address.
pub fn find_offer_address(program_id: &Address, maker: &Address, id: u64) -> (r: Option<(Address, u8)>)
    ensures
        r matches Some(f) ==> found_program_address(offer_seeds(*maker, id), program_id@) == Some(
            (f.0@, f.1),
        ),
        r is None ==> found_program_address(offer_seeds(*maker, id), program_id@) is None,
        r matches Some(f) ==> program_address(offer_seeds_with_bump(*maker, id, f.1), program_id@)
            == Some(f.0@),
{
    let seeds = offer_seed_bytes(maker, id);
    let r = try_find_program_address(&seeds, program_id);
    proof {
        if let Some(f) = r {
            assert(seeds.deep_view().push(seq![f.1]) == offer_seeds_with_bump(*maker, id, f.1));
        }
    }
    r
}

/// Recomputes the offer record's address from the maker, the id and the stored bump.
pub fn offer_address(program_id: &Address, maker: &Address, id: u64, bump: u8) -> (r: Option<Address>)
    ensures
        r matches Some(a) ==> program_address(offer_seeds_with_bump(*maker, id, bump), program_id@)
            == Some(a@),
        r is None ==> program_address(offer_seeds_with_bump(*maker, id, bump), program_id@) is None,
{
    let mut seeds = offer_seed_bytes(maker, id);
    let mut b: Vec<u8> = Vec::new();
    b.push(bump);
    assert(b.deep_view() =~= seq![bump]);
    let ghost before = seeds.deep_view();
    assert(before.len() == 3);
    seeds.push(b);
    assert(seeds.deep_view()[3] == seq![bump]);
    assert forall|k: int| 0 <= k < 3 implies seeds.deep_view()[k] == before[k] by {}
    assert(seeds.deep_view() =~= offer_seeds_with_bump(*maker, id, bump));
    create_program_address(&seeds, program_id)
}

} // verus!
