//! The instructions of the raffle program and their binary form: a tag
//! byte, then the payload of the instructions that carry one, its integers
//! little-endian and each sequence of amounts behind a four-byte count.
use vstd::prelude::*;
use crate::error::RaffleProgramError;
use crate::interop::{borsh_u32, borsh_u64, le_u32, le_u64};
use crate::state::{InitRaffle, RandomNumber, RewardFeeType, Term};

verus! {

/// One request to the raffle program.
#[derive(Debug, PartialEq)]
#[allow(inconsistent_fields)]
pub enum RaffleProgramInstruction {
    InitRaffle { init_raffle: InitRaffle },
    JoinRaffle,
    ChooseWinner { rng_call_limit: RandomNumber },
    PublishWinner,
    ClaimPrize,
    InitCounter,
    ClosePDA,
    InitTerm,
    InitConfig,
    SetConfig,
    UpdateTerm { data: Term },
    CollectFee,
    CollectFeeInitializer,
    InitFeeCollector,
    InitFeeType { data: RewardFeeType },
    InitRewType { data: RewardFeeType },
    CollectFeeToken,
}

/// The number stored in the eight bytes at `at`.
pub open spec fn u64_at(s: Seq<u8>, at: int) -> int {
    le_u64(s.subrange(at, at + 8))
}

/// The count stored in the four bytes at `at`.
pub open spec fn u32_at(s: Seq<u8>, at: int) -> int {
    le_u32(s.subrange(at, at + 4))
}

/// `v` is stored from `at` on, eight bytes per amount.
pub open spec fn amounts_at(v: Seq<u64>, s: Seq<u8>, at: int) -> bool {
    forall|i: int| 0 <= i < v.len() ==> #[trigger] v[i] == u64_at(s, at + 8 * i)
}

/// Where the fields after the prizes start in an encoded `InitRaffle`.
pub open spec fn init_raffle_mid(s: Seq<u8>) -> int {
    78 + 8 * u32_at(s, 74)
}

/// The lengths of an encoded `InitRaffle` add up: a fixed part of 74
/// bytes, the prizes, 51 bytes, the pool increments, and nothing more.
pub open spec fn init_raffle_layout(s: Seq<u8>) -> bool {
    &&& s.len() >= 78
    &&& s.len() >= init_raffle_mid(s) + 55
    &&& s.len() == init_raffle_mid(s) + 55 + 8 * u32_at(s, init_raffle_mid(s) + 51)
}

/// `v` is what the bytes `s` encode.
pub open spec fn init_raffle_decodes(v: InitRaffle, s: Seq<u8>) -> bool {
    let m = init_raffle_mid(s);
    &&& init_raffle_layout(s)
    &&& v.is_unlimited_participant_allowed == s[0]
    &&& v.raffle_name@ == s.subrange(1, 33)
    &&& v.participation_fee == u64_at(s, 33)
    &&& v.participants_required == u64_at(s, 41)
    &&& v.raffle_time == u64_at(s, 49)
    &&& v.multiple_participation_allowed == s[57]
    &&& v.participation_fee_type == u64_at(s, 58)
    &&& v.reward_type == u64_at(s, 66)
    &&& v.rewards@.len() == u32_at(s, 74)
    &&& amounts_at(v.rewards@, s, 78)
    &&& v.requirement_to_participate == s[m]
    &&& v.requirement_amount_token == u64_at(s, m + 1)
    &&& v.requirement_mint@ == s.subrange(m + 9, m + 41)
    &&& v.required_token_decimals == s[m + 41]
    &&& v.winner_count == u64_at(s, m + 42)
    &&& v.is_increasing_pool == s[m + 50]
    &&& v.transfer_fee_to_pool@.len() == u32_at(s, m + 51)
    &&& amounts_at(v.transfer_fee_to_pool@, s, m + 55)
}

pub open spec fn term_decodes(v: Term, s: Seq<u8>) -> bool {
    &&& s.len() == 25
    &&& v.initialized == s[0]
    &&& v.fee_percent == u64_at(s, 1)
    &&& v.expiration_time == u64_at(s, 9)
    &&& v.maximum_winner_count == u64_at(s, 17)
}

pub open spec fn reward_fee_type_decodes(v: RewardFeeType, s: Seq<u8>) -> bool {
    &&& s.len() == 42
    &&& v.initialized == s[0]
    &&& v.mint@ == s.subrange(1, 33)
    &&& v.decimals == s[33]
    &&& v.no == u64_at(s, 34)
}

pub open spec fn random_number_decodes(v: RandomNumber, s: Seq<u8>) -> bool {
    s.len() == 8 && v.random_number == u64_at(s, 0)
}

/// The tags of the instructions.
pub open spec fn is_known_tag(tag: u8) -> bool {
    tag <= 10 || tag == 20 || tag == 35 || tag == 36 || tag == 40 || tag == 100 || tag == 200
}

/// Whether the payload after `tag` decodes.
pub open spec fn payload_valid(tag: u8, rest: Seq<u8>) -> bool {
    if tag == 0 {
        init_raffle_layout(rest)
    } else if tag == 2 {
        rest.len() == 8
    } else if tag == 9 {
        rest.len() == 25
    } else if tag == 35 || tag == 36 {
        rest.len() == 42
    } else {
        true
    }
}

/// `ix` is the instruction of tag `tag` with payload `rest`.
pub open spec fn decodes_as(ix: RaffleProgramInstruction, tag: u8, rest: Seq<u8>) -> bool {
    match ix {
        RaffleProgramInstruction::InitRaffle { init_raffle } => tag == 0 && init_raffle_decodes(
            init_raffle,
            rest,
        ),
        RaffleProgramInstruction::JoinRaffle => tag == 1,
        RaffleProgramInstruction::ChooseWinner { rng_call_limit } => tag == 2
            && random_number_decodes(rng_call_limit, rest),
        RaffleProgramInstruction::PublishWinner => tag == 3,
        RaffleProgramInstruction::InitCounter => tag == 4,
        RaffleProgramInstruction::ClosePDA => tag == 5,
        RaffleProgramInstruction::InitTerm => tag == 6,
        RaffleProgramInstruction::InitConfig => tag == 7,
        RaffleProgramInstruction::SetConfig => tag == 8,
        RaffleProgramInstruction::UpdateTerm { data } => tag == 9 && term_decodes(data, rest),
        RaffleProgramInstruction::CollectFee => tag == 10,
        RaffleProgramInstruction::CollectFeeToken => tag == 20,
        RaffleProgramInstruction::InitFeeType { data } => tag == 35 && reward_fee_type_decodes(
            data,
            rest,
        ),
        RaffleProgramInstruction::InitRewType { data } => tag == 36 && reward_fee_type_decodes(
            data,
            rest,
        ),
        RaffleProgramInstruction::InitFeeCollector => tag == 40,
        RaffleProgramInstruction::ClaimPrize => tag == 100,
        RaffleProgramInstruction::CollectFeeInitializer => tag == 200,
    }
}

fn read_u64(s: &[u8], at: usize) -> (r: u64)
    requires
        at + 8 <= s@.len(),
    ensures
        r == u64_at(s@, at as int),
{
    let len = s.len();
    assert(at + 8 <= len);
    borsh_u64(&s[at..at + 8]).unwrap()
}

fn read_u32(s: &[u8], at: usize) -> (r: u32)
    requires
        at + 4 <= s@.len(),
    ensures
        r == u32_at(s@, at as int),
{
    let len = s.len();
    assert(at + 4 <= len);
    borsh_u32(&s[at..at + 4]).unwrap()
}

fn read_key(s: &[u8], at: usize) -> (r: [u8; 32])
    requires
        at + 32 <= s@.len(),
    ensures
        r@ == s@.subrange(at as int, at + 32),
{
    let len = s.len();
    let mut k: [u8; 32] = [0u8; 32];
    let mut i: usize = 0;
    while i < 32
        invariant
            i <= 32,
            len == s@.len(),
            at + 32 <= s@.len(),
            k@.len() == 32,
            forall|j: int| 0 <= j < i ==> k@[j] == s@[at + j],
        decreases 32 - i,
    {
        k[i] = s[at + i];
        i = i + 1;
    }
    assert(k@ =~= s@.subrange(at as int, at + 32));
    k
}

fn read_amounts(s: &[u8], at: usize, n: usize) -> (r: Vec<u64>)
    requires
        at + 8 * n <= s@.len(),
    ensures
        r@.len() == n,
        amounts_at(r@, s@, at as int),
{
    let len = s.len();
    let mut v: Vec<u64> = Vec::new();
    let mut i: usize = 0;
    let mut pos: usize = at;
    while i < n
        invariant
            i <= n,
            len == s@.len(),
            pos == at + 8 * i,
            at + 8 * n <= s@.len(),
            v@.len() == i,
            amounts_at(v@, s@, at as int),
        decreases n - i,
    {
        v.push(read_u64(s, pos));
        pos = pos + 8;
        i = i + 1;
    }
    v
}

fn decode_init_raffle(s: &[u8]) -> (r: Option<InitRaffle>)
    ensures
        r is Some <==> init_raffle_layout(s@),
        r is Some ==> init_raffle_decodes(r.unwrap(), s@),
{
    let len = s.len();
    if len < 78 {
        return None;
    }
    let n1 = read_u32(s, 74) as usize;
    let room = len - 78;
    if n1 > room / 8 {
        assert(8 * n1 > room) by (nonlinear_arith)
            requires
                n1 > room / 8,
                room >= 0,
        ;
        return None;
    }
    assert(8 * n1 <= room) by (nonlinear_arith)
        requires
            n1 <= room / 8,
            room >= 0,
    ;
    let mid = 78 + 8 * n1;
    if len - mid < 55 {
        return None;
    }
    let n2 = read_u32(s, mid + 51) as usize;
    let tail = len - mid - 55;
    if tail % 8 != 0 || tail / 8 != n2 {
        assert(tail != 8 * n2) by (nonlinear_arith)
            requires
                tail % 8 != 0 || tail / 8 != n2,
                tail >= 0,
        ;
        return None;
    }
    assert(tail == 8 * n2) by (nonlinear_arith)
        requires
            tail % 8 == 0,
            tail / 8 == n2,
            tail >= 0,
    ;
    let v = InitRaffle {
        is_unlimited_participant_allowed: s[0],
        raffle_name: read_key(s, 1),
        participation_fee: read_u64(s, 33),
        participants_required: read_u64(s, 41),
        raffle_time: read_u64(s, 49),
        multiple_participation_allowed: s[57],
        participation_fee_type: read_u64(s, 58),
        reward_type: read_u64(s, 66),
        rewards: read_amounts(s, 78, n1),
        requirement_to_participate: s[mid],
        requirement_amount_token: read_u64(s, mid + 1),
        requirement_mint: read_key(s, mid + 9),
        required_token_decimals: s[mid + 41],
        winner_count: read_u64(s, mid + 42),
        is_increasing_pool: s[mid + 50],
        transfer_fee_to_pool: read_amounts(s, mid + 55, n2),
    };
    Some(v)
}

impl RaffleProgramInstruction {
    /// Decodes an instruction: an unknown or missing tag is an invalid
    /// instruction, a payload that does not decode is malformed data.
    pub fn unpack(input: &[u8]) -> (r: Result<Self, RaffleProgramError>)
        ensures
            input@.len() == 0 ==> r == Err::<Self, _>(RaffleProgramError::InvalidInstruction),
            input@.len() > 0 && !is_known_tag(input@[0]) ==> r == Err::<Self, _>(
                RaffleProgramError::InvalidInstruction,
            ),
            input@.len() > 0 && is_known_tag(input@[0]) && !payload_valid(input@[0], input@.drop_first())
                ==> r == Err::<Self, _>(RaffleProgramError::MalformedData),
            input@.len() > 0 && is_known_tag(input@[0]) && payload_valid(input@[0], input@.drop_first())
                ==> r is Ok && decodes_as(r->Ok_0, input@[0], input@.drop_first()),
    {
        if input.len() == 0 {
            return Err(RaffleProgramError::InvalidInstruction);
        }
        let tag = input[0];
        let rest = &input[1..input.len()];
        assert(rest@ == input@.drop_first());
        match tag {
            0 => match decode_init_raffle(rest) {
                Some(init_raffle) => Ok(Self::InitRaffle { init_raffle }),
                None => Err(RaffleProgramError::MalformedData),
            },
            1 => Ok(Self::JoinRaffle),
            2 => {
                if rest.len() != 8 {
                    return Err(RaffleProgramError::MalformedData);
                }
                Ok(Self::ChooseWinner { rng_call_limit: RandomNumber { random_number: read_u64(rest, 0) } })
            },
            3 => Ok(Self::PublishWinner),
            4 => Ok(Self::InitCounter),
            5 => Ok(Self::ClosePDA),
            6 => Ok(Self::InitTerm),
            7 => Ok(Self::InitConfig),
            8 => Ok(Self::SetConfig),
            9 => {
                if rest.len() != 25 {
                    return Err(RaffleProgramError::MalformedData);
                }
                Ok(
                    Self::UpdateTerm {
                        data: Term {
                            initialized: rest[0],
                            fee_percent: read_u64(rest, 1),
                            expiration_time: read_u64(rest, 9),
                            maximum_winner_count: read_u64(rest, 17),
                        },
                    },
                )
            },
            10 => Ok(Self::CollectFee),
            20 => Ok(Self::CollectFeeToken),
            35 | 36 => {
                if rest.len() != 42 {
                    return Err(RaffleProgramError::MalformedData);
                }
                let data = RewardFeeType {
                    initialized: rest[0],
                    mint: read_key(rest, 1),
                    decimals: rest[33],
                    no: read_u64(rest, 34),
                };
                if tag == 35 {
                    Ok(Self::InitFeeType { data })
                } else {
                    Ok(Self::InitRewType { data })
                }
            },
            40 => Ok(Self::InitFeeCollector),
            100 => Ok(Self::ClaimPrize),
            200 => Ok(Self::CollectFeeInitializer),
            _ => Err(RaffleProgramError::InvalidInstruction),
        }
    }
}

} // verus!
