//! The records that the raffle program keeps on the ledger.
use vstd::prelude::*;

verus! {

/// Raffle states.
pub const STATE_OPEN: u8 = 1;
pub const STATE_DRAWN: u8 = 2;
/// Winners confirmed, or raffle aborted for want of participants: prizes and
/// fees may now be settled.
pub const STATE_SETTLED: u8 = 3;

/// One raffle: its configuration, taken when it was created, its reward pool
/// and the progress of its draw.
#[derive(Debug, Clone, PartialEq)]
pub struct Raffle {
    pub raffle_state: u8,
    pub is_unlimited_participant_allowed: u8,
    pub multiple_participation_allowed: u8,
    pub initializer: [u8; 32],
    pub reward_mint: [u8; 32],
    pub raffle_name: [u8; 32],
    pub raffle_no: u64,
    pub current_number_of_participants: u64,
    pub participants_required: u64,
    pub participation_fee: u64,
    pub participation_fee_mint: [u8; 32],
    pub participation_fee_type: u64,
    /// Prize of each winner slot, in the order of `winners`.
    pub rewards: Vec<u64>,
    /// Drawn participant numbers, then zeros for the slots not yet drawn.
    pub winners: Vec<u64>,
    /// 1 when holding `requirement_amount_token` of `requirement_mint` is required.
    pub requirement_to_participate: u8,
    pub requirement_amount_token: u64,
    pub requirement_mint: [u8; 32],
    pub required_token_decimals: u8,
    pub reward_decimals: u8,
    pub participation_fee_decimals: u8,
    /// 1 when each join adds `transfer_fee_to_pool` to `rewards`.
    pub is_increasing_pool: u8,
    pub transfer_fee_to_pool: Vec<u64>,
    pub raffle_time: u64,
    pub winner_count: u64,
    pub current_winner_count: u64,
    pub number_of_entitled_winners: u64,
    pub fee_collected: u8,
    pub bump: u8,
}

impl Raffle {
    /// The winners drawn so far.
    pub open spec fn drawn(&self) -> Seq<u64> {
        self.winners@.take(self.current_winner_count as int)
    }

    /// How many winners a complete draw yields: one per slot, but no more
    /// than there are participants.
    pub open spec fn draw_target(&self) -> u64 {
        if self.current_number_of_participants < self.winner_count {
            self.current_number_of_participants
        } else {
            self.winner_count
        }
    }

    /// The fields fixed when the raffle was created.
    pub open spec fn same_setup(&self, o: &Raffle) -> bool {
        &&& self.is_unlimited_participant_allowed == o.is_unlimited_participant_allowed
        &&& self.multiple_participation_allowed == o.multiple_participation_allowed
        &&& self.initializer == o.initializer
        &&& self.reward_mint == o.reward_mint
        &&& self.raffle_name == o.raffle_name
        &&& self.raffle_no == o.raffle_no
        &&& self.participants_required == o.participants_required
        &&& self.participation_fee == o.participation_fee
        &&& self.participation_fee_mint == o.participation_fee_mint
        &&& self.participation_fee_type == o.participation_fee_type
        &&& self.requirement_to_participate == o.requirement_to_participate
        &&& self.requirement_amount_token == o.requirement_amount_token
        &&& self.requirement_mint == o.requirement_mint
        &&& self.required_token_decimals == o.required_token_decimals
        &&& self.reward_decimals == o.reward_decimals
        &&& self.participation_fee_decimals == o.participation_fee_decimals
        &&& self.is_increasing_pool == o.is_increasing_pool
        &&& self.transfer_fee_to_pool@ == o.transfer_fee_to_pool@
        &&& self.raffle_time == o.raffle_time
        &&& self.winner_count == o.winner_count
        &&& self.bump == o.bump
    }

    /// The invariant of a raffle record: one prize and one winner entry per
    /// slot, the drawn winners first, each a distinct participant number.
    pub open spec fn wf(&self) -> bool {
        &&& self.rewards@.len() == self.winner_count
        &&& self.winners@.len() == self.winner_count
        &&& self.current_winner_count <= self.winner_count
        &&& forall|i: int|
            0 <= i < self.current_winner_count ==> 1 <= #[trigger] self.winners@[i]
                <= self.current_number_of_participants
        &&& forall|i: int|
            self.current_winner_count <= i < self.winners@.len() ==> #[trigger] self.winners@[i]
                == 0
        &&& forall|i: int, j: int|
            0 <= i < j < self.current_winner_count ==> #[trigger] self.winners@[i]
                != #[trigger] self.winners@[j]
    }
}

impl Raffle {
    /// Whether the record keeps the invariant of raffle records.
    pub fn is_well_formed(&self) -> (r: bool)
        ensures
            r == self.wf(),
    {
        let n = self.winners.len();
        if self.rewards.len() as u64 != self.winner_count || n as u64 != self.winner_count
            || self.current_winner_count > self.winner_count {
            return false;
        }
        let c = self.current_winner_count as usize;
        let mut i: usize = 0;
        while i < n
            invariant
                i <= n,
                n == self.winners@.len(),
                c == self.current_winner_count,
                c <= n,
                forall|k: int| 0 <= k < i && k < c ==> 1 <= #[trigger] self.winners@[k]
                    <= self.current_number_of_participants,
                forall|k: int| c <= k < i ==> #[trigger] self.winners@[k] == 0,
                forall|a: int, b: int|
                    0 <= a < b < i && b < c ==> #[trigger] self.winners@[a]
                        != #[trigger] self.winners@[b],
            decreases n - i,
        {
            let w = self.winners[i];
            if i < c {
                if w < 1 || w > self.current_number_of_participants {
                    return false;
                }
                let mut j: usize = 0;
                while j < i
                    invariant
                        j <= i,
                        i < n,
                        i < c,
                        c == self.current_winner_count,
                        n == self.winners@.len(),
                        w == self.winners@[i as int],
                        forall|a: int| 0 <= a < j ==> #[trigger] self.winners@[a] != w,
                    decreases i - j,
                {
                    if self.winners[j] == w {
                        assert(self.winners@[j as int] == self.winners@[i as int]);
                        return false;
                    }
                    j = j + 1;
                }
            } else if w != 0 {
                return false;
            }
            i = i + 1;
        }
        true
    }
}

/// The parameters of a new raffle, as its initializer submits them.
#[derive(Debug, Clone, PartialEq)]
pub struct InitRaffle {
    pub is_unlimited_participant_allowed: u8,
    pub raffle_name: [u8; 32],
    pub participation_fee: u64,
    pub participants_required: u64,
    pub raffle_time: u64,
    pub multiple_participation_allowed: u8,
    pub participation_fee_type: u64,
    pub reward_type: u64,
    pub rewards: Vec<u64>,
    pub requirement_to_participate: u8,
    pub requirement_amount_token: u64,
    pub requirement_mint: [u8; 32],
    pub required_token_decimals: u8,
    pub winner_count: u64,
    pub is_increasing_pool: u8,
    pub transfer_fee_to_pool: Vec<u64>,
}

/// One entry in a raffle, under its 1-based participant number.
#[derive(Debug, Clone, Copy)]
pub struct Participant {
    pub particpant_address: [u8; 32],
    pub particpant_no: u64,
    pub raffle_no: u64,
    pub entitled: u8,
    pub prize_claimed: u8,
    pub index_in_winners: u64,
}

/// The program-wide count of raffles created.
#[derive(Debug, Clone, Copy)]
pub struct RaffleCounter {
    pub initialized: u8,
    pub number_of_raffles: u64,
}

/// One value of the randomness oracle; as an instruction payload, the bound
/// on oracle calls.
#[derive(Debug, Clone, Copy, PartialEq, Eq, Structural)]
pub struct RandomNumber {
    pub random_number: u64,
}

/// Program-wide terms.
#[derive(Debug, Clone, Copy, PartialEq, Eq, Structural)]
pub struct Term {
    pub initialized: u8,
    /// Percentage of the collected fees kept by the fee collector.
    pub fee_percent: u64,
    /// Longest time from now to a raffle's deadline.
    pub expiration_time: u64,
    pub maximum_winner_count: u64,
}

/// The four administrators.
#[derive(Debug, Clone, Copy)]
pub struct Config {
    pub authority_1: [u8; 32],
    pub authority_2: [u8; 32],
    pub authority_3: [u8; 32],
    pub authority_4: [u8; 32],
}

impl Config {
    /// Whether a key is one of the administrators.
    pub open spec fn has_authority(&self, key: Seq<u8>) -> bool {
        key == self.authority_1@ || key == self.authority_2@ || key == self.authority_3@
            || key == self.authority_4@
    }
}

/// A registered reward or fee currency: its mint and precision, under a number.
#[derive(Debug, Clone, Copy, PartialEq)]
pub struct RewardFeeType {
    pub initialized: u8,
    pub mint: [u8; 32],
    pub decimals: u8,
    pub no: u64,
}

/// Marks the fee collector account as set up.
#[derive(Debug, Clone, Copy)]
pub struct FeeCollector {
    pub initialized: u8,
}

/// Amounts to add to a raffle's prizes, one per slot.
#[derive(Debug, Clone, PartialEq)]
pub struct Rewards {
    pub rewards: Vec<u64>,
}

} // verus!
