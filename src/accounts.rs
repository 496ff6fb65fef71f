//! Keys, derived addresses, token accounts and the administrators' check.
use vstd::prelude::*;
use crate::error::RaffleProgramError;
use crate::interop::{
    find_program_address, le_u64, program_address, token_account_layout_valid,
    unpack_token_account, TokenAccount, TOKEN_ACCOUNT_LEN,
};
use crate::processor::Processor;
use crate::state::Config;

verus! {

/// Little-endian bytes of a number, as address seeds carry numbers.
pub open spec fn le_bytes(x: u64) -> Seq<u8> {
    seq![
        (x % 0x100) as u8,
        (x / 0x100 % 0x100) as u8,
        (x / 0x10000 % 0x100) as u8,
        (x / 0x1000000 % 0x100) as u8,
        (x / 0x100000000 % 0x100) as u8,
        (x / 0x10000000000 % 0x100) as u8,
        (x / 0x1000000000000 % 0x100) as u8,
        (x / 0x100000000000000 % 0x100) as u8,
    ]
}

/// Seed tag of raffle records: "raffle".
pub open spec fn raffle_tag() -> Seq<u8> {
    seq![114, 97, 102, 102, 108, 101]
}

/// Seed tag of reward currency records: "rewtype".
pub open spec fn reward_type_tag() -> Seq<u8> {
    seq![114, 101, 119, 116, 121, 112, 101]
}

/// Seed tag of fee currency records: "feetype".
pub open spec fn fee_type_tag() -> Seq<u8> {
    seq![102, 101, 101, 116, 121, 112, 101]
}

/// Seeds of the record of raffle `raffle_no`.
pub open spec fn raffle_seeds(raffle_no: u64) -> Seq<Seq<u8>> {
    seq![raffle_tag(), le_bytes(raffle_no)]
}

/// Seeds of the participant record: keyed by the participant's address, or
/// by the participant number where one address may join several times.
/// The tags are "raf" and "par".
pub open spec fn participant_seeds(
    raffle_no: u64,
    multiple_participation_allowed: u8,
    participant: Seq<u8>,
    participant_no: u64,
) -> Seq<Seq<u8>> {
    seq![
        seq![114, 97, 102],
        le_bytes(raffle_no),
        seq![112, 97, 114],
        if multiple_participation_allowed != 1 {
            participant
        } else {
            le_bytes(participant_no)
        },
    ]
}

/// `r` is what the address derivation gives for these seeds.
pub open spec fn derived_from(r: Option<([u8; 32], u8)>, seeds: Seq<Seq<u8>>, program_id: Seq<u8>) -> bool {
    match r {
        Some(found) => program_address(seeds, program_id) == Some((found.0@, found.1)),
        None => program_address(seeds, program_id) is None,
    }
}

/// Whether two keys are equal.
pub fn same_key(a: &[u8; 32], b: &[u8; 32]) -> (r: bool)
    ensures
        r == (a@ == b@),
{
    let mut i: usize = 0;
    while i < 32
        invariant
            i <= 32,
            a@.len() == 32,
            b@.len() == 32,
            forall|j: int| 0 <= j < i ==> a@[j] == b@[j],
        decreases 32 - i,
    {
        if a[i] != b[i] {
            return false;
        }
        i = i + 1;
    }
    assert(a@ =~= b@);
    true
}

/// Little-endian bytes of `x`.
pub fn u64_le_bytes(x: u64) -> (r: Vec<u8>)
    ensures
        r@ == le_bytes(x),
{
    let mut v: Vec<u8> = Vec::new();
    v.push((x % 0x100) as u8);
    v.push((x / 0x100 % 0x100) as u8);
    v.push((x / 0x10000 % 0x100) as u8);
    v.push((x / 0x1000000 % 0x100) as u8);
    v.push((x / 0x100000000 % 0x100) as u8);
    v.push((x / 0x10000000000 % 0x100) as u8);
    v.push((x / 0x1000000000000 % 0x100) as u8);
    v.push((x / 0x100000000000000 % 0x100) as u8);
    assert(v@ =~= le_bytes(x));
    v
}

/// Bytes are their own deep view.
proof fn lemma_bytes_deep_view(v: Vec<u8>)
    ensures
        v.deep_view() == v@,
{
    assert(v.deep_view() =~= v@);
}

/// Derives the address of a currency record from its tag and number.
fn type_record_address(tag: Vec<u8>, no: u64, program_id: &[u8; 32]) -> (r: Option<([u8; 32], u8)>)
    ensures
        derived_from(r, seq![tag@, le_bytes(no)], program_id@),
{
    let mut seeds: Vec<Vec<u8>> = Vec::new();
    let ghost t = tag@;
    seeds.push(tag);
    seeds.push(u64_le_bytes(no));
    proof {
        lemma_bytes_deep_view(seeds@[0]);
        lemma_bytes_deep_view(seeds@[1]);
    }
    assert(seeds.deep_view() =~= seq![t, le_bytes(no)]);
    find_program_address(&seeds, program_id)
}

impl Processor {
    /// The administrators' check: `authority` is one of the four.
    pub fn check_authority(authority: &[u8; 32], config: Config) -> (r: Result<(), RaffleProgramError>)
        ensures
            r is Ok <==> config.has_authority(authority@),
            r is Err ==> r == Err::<(), _>(RaffleProgramError::InvalidAuth),
    {
        if same_key(authority, &config.authority_1) || same_key(authority, &config.authority_2)
            || same_key(authority, &config.authority_3) || same_key(authority, &config.authority_4) {
            Ok(())
        } else {
            Err(RaffleProgramError::InvalidAuth)
        }
    }

    /// Where the record of reward currency `no` is kept.
    pub fn reward_type_address(no: u64, program_id: &[u8; 32]) -> (r: Option<([u8; 32], u8)>)
        ensures
            derived_from(r, seq![reward_type_tag(), le_bytes(no)], program_id@),
    {
        let tag: Vec<u8> = vec![114, 101, 119, 116, 121, 112, 101];
        assert(tag@ =~= reward_type_tag());
        type_record_address(tag, no, program_id)
    }

    /// Where the record of fee currency `no` is kept.
    pub fn fee_type_address(no: u64, program_id: &[u8; 32]) -> (r: Option<([u8; 32], u8)>)
        ensures
            derived_from(r, seq![fee_type_tag(), le_bytes(no)], program_id@),
    {
        let tag: Vec<u8> = vec![102, 101, 101, 116, 121, 112, 101];
        assert(tag@ =~= fee_type_tag());
        type_record_address(tag, no, program_id)
    }

    /// Where the record of raffle `raffle_no` is kept, with its bump.
    pub fn raffle_address(raffle_no: u64, program_id: &[u8; 32]) -> (r: Option<([u8; 32], u8)>)
        ensures
            derived_from(r, raffle_seeds(raffle_no), program_id@),
    {
        let tag: Vec<u8> = vec![114, 97, 102, 102, 108, 101];
        assert(tag@ =~= raffle_tag());
        type_record_address(tag, raffle_no, program_id)
    }

    /// Where a participant record is kept.
    pub fn participant_address(
        raffle_no: u64,
        multiple_participation_allowed: u8,
        participant: &[u8; 32],
        participant_no: u64,
        program_id: &[u8; 32],
    ) -> (r: Option<([u8; 32], u8)>)
        ensures
            derived_from(
                r,
                participant_seeds(raffle_no, multiple_participation_allowed, participant@, participant_no),
                program_id@,
            ),
    {
        let mut seeds: Vec<Vec<u8>> = Vec::new();
        let raf: Vec<u8> = vec![114, 97, 102];
        let par: Vec<u8> = vec![112, 97, 114];
        let ghost (raf_v, par_v) = (raf@, par@);
        seeds.push(raf);
        seeds.push(u64_le_bytes(raffle_no));
        seeds.push(par);
        if multiple_participation_allowed != 1 {
            let mut key: Vec<u8> = Vec::new();
            let mut i: usize = 0;
            while i < 32
                invariant
                    i <= 32,
                    participant@.len() == 32,
                    key@ =~= participant@.take(i as int),
                decreases 32 - i,
            {
                key.push(participant[i]);
                i = i + 1;
            }
            assert(key@ =~= participant@);
            seeds.push(key);
        } else {
            seeds.push(u64_le_bytes(participant_no));
        }
        assert(raf_v =~= seq![114, 97, 102]);
        assert(par_v =~= seq![112, 97, 114]);
        proof {
            lemma_bytes_deep_view(seeds@[0]);
            lemma_bytes_deep_view(seeds@[1]);
            lemma_bytes_deep_view(seeds@[2]);
            lemma_bytes_deep_view(seeds@[3]);
        }
        assert(seeds.deep_view() =~= participant_seeds(
            raffle_no,
            multiple_participation_allowed,
            participant@,
            participant_no,
        ));
        find_program_address(&seeds, program_id)
    }
}

/// The outcome of reading a token account and checking its mint, its owner
/// and, where `min_amount` is given, its balance.
pub open spec fn token_account_error(
    data: Seq<u8>,
    mint: Seq<u8>,
    owner: Seq<u8>,
    min_amount: Option<u64>,
) -> Option<RaffleProgramError> {
    if data.len() < TOKEN_ACCOUNT_LEN || !token_account_layout_valid(data) {
        Some(RaffleProgramError::MalformedData)
    } else if data.subrange(0, 32) != mint || data.subrange(32, 64) != owner {
        Some(RaffleProgramError::InvalidTokenAccount)
    } else if min_amount is Some && le_u64(data.subrange(64, 72)) < min_amount.unwrap() {
        Some(RaffleProgramError::InsufficientRequirement)
    } else {
        None
    }
}

/// Reads a token account: its mint, its owner and its balance.
pub fn read_token_account(data: &[u8]) -> (r: Result<TokenAccount, RaffleProgramError>)
    ensures
        r is Ok <==> data@.len() >= TOKEN_ACCOUNT_LEN && token_account_layout_valid(data@),
        r is Err ==> r == Err::<TokenAccount, _>(RaffleProgramError::MalformedData),
        r is Ok ==> r.unwrap().mint@ == data@.subrange(0, 32),
        r is Ok ==> r.unwrap().owner@ == data@.subrange(32, 64),
        r is Ok ==> r.unwrap().amount == le_u64(data@.subrange(64, 72)),
{
    if data.len() < TOKEN_ACCOUNT_LEN {
        return Err(RaffleProgramError::MalformedData);
    }
    match unpack_token_account(data) {
        Some(account) => Ok(account),
        None => Err(RaffleProgramError::MalformedData),
    }
}

impl Processor {
    /// Checks that a token account holds `mint` and belongs to `owner`.
    pub fn check_mint_and_owner(mint: &[u8; 32], owner: &[u8; 32], data: &[u8]) -> (r: Result<
        TokenAccount,
        RaffleProgramError,
    >)
        ensures
            r is Err <==> token_account_error(data@, mint@, owner@, None) is Some,
            r is Err ==> r->Err_0 == token_account_error(data@, mint@, owner@, None).unwrap(),
            r is Ok ==> r.unwrap().amount == le_u64(data@.subrange(64, 72)),
    {
        let account = read_token_account(data)?;
        if !same_key(mint, &account.mint) || !same_key(owner, &account.owner) {
            return Err(RaffleProgramError::InvalidTokenAccount);
        }
        Ok(account)
    }

    /// Checks that a token account holds `mint`, belongs to `owner`, and
    /// has a balance of at least `amount`.
    pub fn check_mint_and_owner_and_amount(
        mint: &[u8; 32],
        owner: &[u8; 32],
        data: &[u8],
        amount: u64,
    ) -> (r: Result<(), RaffleProgramError>)
        ensures
            r is Err <==> token_account_error(data@, mint@, owner@, Some(amount)) is Some,
            r is Err ==> r->Err_0 == token_account_error(data@, mint@, owner@, Some(amount)).unwrap(),
    {
        let account = Self::check_mint_and_owner(mint, owner, data)?;
        if account.amount < amount {
            return Err(RaffleProgramError::InsufficientRequirement);
        }
        Ok(())
    }
}

} // verus!
