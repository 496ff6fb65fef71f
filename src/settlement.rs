//! Escrow arithmetic: prize totals, the amount a raffle has collected, and
//! its split between the fee collector and the initializer.
use vstd::prelude::*;
use crate::error::RaffleProgramError;

verus! {

/// The sum of a sequence of amounts.
pub open spec fn total(s: Seq<u64>) -> int
    decreases s.len(),
{
    if s.len() == 0 {
        0
    } else {
        total(s.drop_last()) + s.last()
    }
}

/// The fee kept from `collected`: whole hundredths times the percentage.
pub open spec fn fee_of(collected: int, fee_percent: int) -> int {
    (collected / 100) * fee_percent
}

/// What a raffle has collected: the escrow balance less the reserve that
/// stays with the account and, where `exclude_rewards` holds, less the prizes.
pub open spec fn collected_of(escrow: u64, reserved: u64, rewards: Seq<u64>, exclude_rewards: bool) -> int {
    escrow - reserved - (if exclude_rewards {
        total(rewards)
    } else {
        0
    })
}

/// The split of a raffle's collected amount.
#[derive(Debug, Clone, Copy, PartialEq, Eq, Structural)]
pub struct Settlement {
    /// What the fee collector receives.
    pub fee: u64,
    /// What the initializer receives.
    pub payout: u64,
}

/// Totals of prefixes grow with the prefix.
pub proof fn lemma_total_prefix_monotone(s: Seq<u64>, i: int, j: int)
    requires
        0 <= i <= j <= s.len(),
    ensures
        total(s.take(i)) <= total(s.take(j)),
    decreases j - i,
{
    if i < j {
        lemma_total_prefix_monotone(s, i, j - 1);
        assert(s.take(j).drop_last() =~= s.take(j - 1));
    }
}

/// The sum of `v`, or `None` where it does not fit in a `u64`.
pub fn checked_total(v: &Vec<u64>) -> (r: Option<u64>)
    ensures
        r is Some <==> total(v@) <= u64::MAX,
        r is Some ==> r.unwrap() == total(v@),
{
    let mut sum: u64 = 0;
    let mut i: usize = 0;
    while i < v.len()
        invariant
            i <= v@.len(),
            sum == total(v@.take(i as int)),
        decreases v@.len() - i,
    {
        assert(v@.take(i + 1).drop_last() =~= v@.take(i as int));
        match sum.checked_add(v[i]) {
            Some(s) => {
                sum = s;
            },
            None => {
                proof {
                    lemma_total_prefix_monotone(v@, i + 1, v@.len() as int);
                    assert(v@.take(v@.len() as int) =~= v@);
                }
                return None;
            },
        }
        i = i + 1;
    }
    assert(v@.take(i as int) =~= v@);
    Some(sum)
}

/// Splits `collected` into the fee, whole hundredths times `fee_percent`,
/// and the initializer's payout, the rest; fails where the fee exceeds what
/// was collected.
pub fn split_fee(collected: u64, fee_percent: u64) -> (r: Result<Settlement, RaffleProgramError>)
    ensures
        r is Ok <==> fee_of(collected as int, fee_percent as int) <= collected,
        r is Ok ==> r.unwrap().fee == fee_of(collected as int, fee_percent as int),
        r is Ok ==> r.unwrap().payout == collected - fee_of(collected as int, fee_percent as int),
        r is Err ==> r == Err::<Settlement, _>(RaffleProgramError::ArithmeticError),
{
    let hundredths = collected / 100;
    let fee = match hundredths.checked_mul(fee_percent) {
        Some(f) => f,
        None => {
            return Err(RaffleProgramError::ArithmeticError);
        },
    };
    match collected.checked_sub(fee) {
        Some(payout) => Ok(Settlement { fee, payout }),
        None => Err(RaffleProgramError::ArithmeticError),
    }
}

/// Settles a raffle's escrow: subtracts the reserve and, where
/// `exclude_rewards` holds, the prizes, then splits what remains. Fails
/// with an arithmetic error where a subtraction would go below zero.
pub fn settle(
    escrow: u64,
    reserved: u64,
    rewards: &Vec<u64>,
    exclude_rewards: bool,
    fee_percent: u64,
) -> (r: Result<Settlement, RaffleProgramError>)
    ensures
        r is Ok <==> (collected_of(escrow, reserved, rewards@, exclude_rewards) >= 0 && fee_of(
            collected_of(escrow, reserved, rewards@, exclude_rewards),
            fee_percent as int,
        ) <= collected_of(escrow, reserved, rewards@, exclude_rewards)),
        r is Ok ==> r.unwrap().fee == fee_of(
            collected_of(escrow, reserved, rewards@, exclude_rewards),
            fee_percent as int,
        ),
        r is Ok ==> r.unwrap().fee + r.unwrap().payout == collected_of(
            escrow,
            reserved,
            rewards@,
            exclude_rewards,
        ),
        r is Err ==> r == Err::<Settlement, _>(RaffleProgramError::ArithmeticError),
{
    proof {
        lemma_total_prefix_monotone(rewards@, 0, rewards@.len() as int);
        assert(rewards@.take(rewards@.len() as int) =~= rewards@);
        assert(rewards@.take(0).len() == 0);
    }
    let mut collected = match escrow.checked_sub(reserved) {
        Some(c) => c,
        None => {
            return Err(RaffleProgramError::ArithmeticError);
        },
    };
    if exclude_rewards {
        let sum = match checked_total(rewards) {
            Some(s) => s,
            None => {
                return Err(RaffleProgramError::ArithmeticError);
            },
        };
        collected = match collected.checked_sub(sum) {
            Some(c) => c,
            None => {
                return Err(RaffleProgramError::ArithmeticError);
            },
        };
    }
    split_fee(collected, fee_percent)
}

/// With a percentage of at most 100 the fee never exceeds what was
/// collected, so a settlement of any escrow balance that covers its reserve
/// (and prizes) succeeds; fee and payout add up to the collected amount
/// exactly, the rounding remainder going to the payout; and the fee is the
/// whole hundredths collected times the percentage.
pub proof fn lemma_fee_split_exact(collected: int, fee_percent: u64)
    requires
        0 <= collected,
        fee_percent <= 100,
    ensures
        0 <= fee_of(collected, fee_percent as int) <= collected,
        fee_of(collected, fee_percent as int) + (collected - fee_of(collected, fee_percent as int))
            == collected,
        fee_of(collected, fee_percent as int) == (collected / 100) * fee_percent,
{
    let h = collected / 100;
    assert(0 <= h * (fee_percent as int) <= h * 100) by (nonlinear_arith)
        requires
            0 <= h,
            0 <= fee_percent <= 100,
    ;
    assert(h * 100 <= collected) by (nonlinear_arith)
        requires
            h == collected / 100,
            collected >= 0,
    ;
}

} // verus!
