//! The calls that this program makes into borsh, solana-program and the SPL
//! token programs. Each function here only converts its arguments and result;
//! its contract states what the called code does.
use vstd::prelude::*;
use borsh::BorshDeserialize;
use solana_program::program_pack::Pack;
use solana_program::pubkey::Pubkey;

verus! {

/// Largest data length that an account on the ledger may have.
pub const MAX_ACCOUNT_DATA_LEN: usize = 10485760;

/// Length of a packed SPL token account.
pub const TOKEN_ACCOUNT_LEN: usize = 165;

/// Little-endian value of four bytes.
pub open spec fn le_u32(b: Seq<u8>) -> int {
    b[0] as int + b[1] as int * 0x100 + b[2] as int * 0x10000 + b[3] as int * 0x1000000
}

/// Little-endian value of eight bytes.
pub open spec fn le_u64(b: Seq<u8>) -> int {
    le_u32(b) + le_u32(b.subrange(4, 8)) * 0x100000000
}

/// A packed optional value starts with the tag `[0,0,0,0]` or `[1,0,0,0]`.
pub open spec fn option_tag_valid(b: Seq<u8>, at: int) -> bool {
    &&& (b[at] == 0 || b[at] == 1)
    &&& b[at + 1] == 0
    &&& b[at + 2] == 0
    &&& b[at + 3] == 0
}

/// The bytes of a packed token account that decode: valid tags for the
/// delegate, native-amount and close-authority options, and a known state.
pub open spec fn token_account_layout_valid(b: Seq<u8>) -> bool {
    &&& option_tag_valid(b, 72)
    &&& b[108] <= 2
    &&& option_tag_valid(b, 109)
    &&& option_tag_valid(b, 129)
}

/// What the raffle logic reads of an SPL token account.
#[derive(Debug, Clone, Copy)]
pub struct TokenAccount {
    pub mint: [u8; 32],
    pub owner: [u8; 32],
    pub amount: u64,
}

/// The address and bump that `Pubkey::try_find_program_address` derives from
/// seeds and a program id, if any.
pub uninterp spec fn program_address(seeds: Seq<Seq<u8>>, program_id: Seq<u8>) -> Option<(Seq<u8>, u8)>;

/// The rent-exempt minimum balance of an account with this much data.
pub uninterp spec fn rent_exempt_minimum(data_len: usize) -> u64;

/// Whether a key is the id of the system program.
pub uninterp spec fn is_system_program(key: Seq<u8>) -> bool;

/// Whether a key is the id of the SPL token program.
pub uninterp spec fn is_spl_token_program(key: Seq<u8>) -> bool;

/// Whether a key is the id of the SPL token-2022 program.
pub uninterp spec fn is_token_2022_program(key: Seq<u8>) -> bool;

/// Relies on borsh's `u64::try_from_slice`: it succeeds on exactly eight
/// bytes and reads them little-endian.
#[verifier::external_body]
pub(crate) fn borsh_u64(bytes: &[u8]) -> (r: Option<u64>)
    ensures
        r is Some <==> bytes@.len() == 8,
        r is Some ==> r.unwrap() as int == le_u64(bytes@),
{
    <u64 as BorshDeserialize>::try_from_slice(bytes).ok()
}

/// Relies on borsh's `u32::try_from_slice`: it succeeds on exactly four
/// bytes and reads them little-endian.
#[verifier::external_body]
pub(crate) fn borsh_u32(bytes: &[u8]) -> (r: Option<u32>)
    ensures
        r is Some <==> bytes@.len() == 4,
        r is Some ==> r.unwrap() as int == le_u32(bytes@),
{
    <u32 as BorshDeserialize>::try_from_slice(bytes).ok()
}

/// Relies on spl-token's `Account::unpack_from_slice`: it reads the first 165
/// bytes (it panics on fewer), the mint at 0, the owner at 32 and the amount,
/// little-endian, at 64, and fails on an unknown state or option tag.
#[verifier::external_body]
pub(crate) fn unpack_token_account(data: &[u8]) -> (r: Option<TokenAccount>)
    requires
        data@.len() >= TOKEN_ACCOUNT_LEN,
    ensures
        r is Some <==> token_account_layout_valid(data@),
        r is Some ==> r.unwrap().mint@ == data@.subrange(0, 32),
        r is Some ==> r.unwrap().owner@ == data@.subrange(32, 64),
        r is Some ==> r.unwrap().amount as int == le_u64(data@.subrange(64, 72)),
{
    match spl_token::state::Account::unpack_from_slice(data) {
        Ok(a) => Some(TokenAccount { mint: a.mint.to_bytes(), owner: a.owner.to_bytes(), amount: a.amount }),
        Err(_) => None,
    }
}

/// Relies on solana-program's `Pubkey::try_find_program_address`: the result
/// depends on the seeds and the program id alone.
#[verifier::external_body]
pub(crate) fn find_program_address(seeds: &Vec<Vec<u8>>, program_id: &[u8; 32]) -> (r: Option<([u8; 32], u8)>)
    ensures
        r is Some <==> program_address(seeds.deep_view(), program_id@) is Some,
        r is Some ==> program_address(seeds.deep_view(), program_id@) == Some((r.unwrap().0@, r.unwrap().1)),
{
    let refs: Vec<&[u8]> = seeds.iter().map(|s| s.as_slice()).collect();
    Pubkey::try_find_program_address(&refs, &Pubkey::new_from_array(*program_id))
        .map(|(address, bump)| (address.to_bytes(), bump))
}

/// Relies on solana-program's `Rent::default().minimum_balance`: the result
/// depends on the data length alone; its arithmetic stays in range for
/// every length an account may have.
#[verifier::external_body]
pub(crate) fn minimum_balance(data_len: usize) -> (r: u64)
    requires
        data_len <= MAX_ACCOUNT_DATA_LEN,
    ensures
        r == rent_exempt_minimum(data_len),
{
    solana_program::rent::Rent::default().minimum_balance(data_len)
}

/// Relies on solana-program's `system_program::check_id`.
#[verifier::external_body]
pub(crate) fn check_system_program(key: &[u8; 32]) -> (r: bool)
    ensures
        r == is_system_program(key@),
{
    solana_program::system_program::check_id(&Pubkey::new_from_array(*key))
}

/// Relies on spl-token's `check_id`.
#[verifier::external_body]
pub(crate) fn check_spl_token_program(key: &[u8; 32]) -> (r: bool)
    ensures
        r == is_spl_token_program(key@),
{
    spl_token::check_id(&Pubkey::new_from_array(*key))
}

/// Relies on spl-token-2022's `check_id`.
#[verifier::external_body]
pub(crate) fn check_token_2022_program(key: &[u8; 32]) -> (r: bool)
    ensures
        r == is_token_2022_program(key@),
{
    spl_token_2022::check_id(&Pubkey::new_from_array(*key))
}

} // verus!
