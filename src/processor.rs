//! The operations of the raffle program. Each one checks a request against
//! the records it reads and the facts that the host gives about the accounts
//! involved, and returns the new records with the transfers to perform.
use vstd::prelude::*;
use crate::accounts::{
    fee_type_tag, le_bytes, raffle_seeds, read_token_account, reward_type_tag, same_key,
    token_account_error,
};
use crate::error::RaffleProgramError;
use crate::interop::{
    borsh_u64, check_spl_token_program, check_system_program, check_token_2022_program,
    is_spl_token_program, is_system_program, is_token_2022_program, le_u64, minimum_balance,
    program_address, rent_exempt_minimum, token_account_layout_valid, MAX_ACCOUNT_DATA_LEN,
    TOKEN_ACCOUNT_LEN,
};
use crate::draw::{draw_attempts, draw_from_values, draw_seq, draw_target};
use crate::settlement::{checked_total, collected_of, fee_of, settle, total, Settlement};
use crate::state::{
    Config, FeeCollector, InitRaffle, Participant, Raffle, RaffleCounter, RewardFeeType, Rewards, Term,
    STATE_DRAWN, STATE_OPEN, STATE_SETTLED,
};

verus! {

/// The raffle program's operations.
pub struct Processor;

/// What the host tells about a request to join a raffle.
#[derive(Debug, Clone, Copy)]
pub struct JoinRequest {
    pub program_id: [u8; 32],
    /// The raffle record's address and owner.
    pub raffle_key: [u8; 32],
    pub raffle_owner: [u8; 32],
    pub participant: [u8; 32],
    pub participant_is_signer: bool,
    /// The fee currency that the participant pays in.
    pub fee_mint: [u8; 32],
    pub current_time: u64,
}

/// The accounts of a fee paid in tokens.
#[derive(Debug, Clone)]
pub struct TokenFeeAccounts {
    /// Owner of the fee currency's mint account.
    pub fee_mint_owner: [u8; 32],
    /// Data of the participant's and of the raffle's token accounts.
    pub participant_account: Vec<u8>,
    pub raffle_account: Vec<u8>,
}

/// The accounts of the token that participants must hold.
#[derive(Debug, Clone)]
pub struct RequirementAccounts {
    pub requirement_mint: [u8; 32],
    /// Data of the participant's token account.
    pub participant_account: Vec<u8>,
}

/// What a successful join records and moves.
#[derive(Debug, Clone, Copy)]
pub struct JoinOutcome {
    pub participant: Participant,
    /// The fee to move into escrow, and whether it is native currency.
    pub fee: u64,
    pub fee_is_native: bool,
    /// Required tokens to move into escrow, 0 where none are required.
    pub requirement_stake: u64,
}

/// Whether two sequences of amounts have one length and add up element by
/// element without overflow.
pub open spec fn sums_fit(a: Seq<u64>, b: Seq<u64>) -> bool {
    &&& a.len() == b.len()
    &&& forall|i: int| 0 <= i < a.len() ==> #[trigger] a[i] + b[i] <= u64::MAX
}

/// The element-wise sum of two sequences of amounts.
pub open spec fn elementwise_sum(a: Seq<u64>, b: Seq<u64>) -> Seq<u64> {
    Seq::new(a.len(), |i: int| (a[i] + b[i]) as u64)
}

/// Whether the prizes can grow by the pool increments without overflow.
pub open spec fn pool_increase_fits(raffle: Raffle) -> bool {
    sums_fit(raffle.rewards@, raffle.transfer_fee_to_pool@)
}

/// The prizes after one join.
pub open spec fn rewards_after_join(raffle: Raffle) -> Seq<u64> {
    if raffle.is_increasing_pool == 1 {
        elementwise_sum(raffle.rewards@, raffle.transfer_fee_to_pool@)
    } else {
        raffle.rewards@
    }
}

/// Why a join fails, in the order the checks are made; `None` where it succeeds.
pub open spec fn join_error(
    raffle: Raffle,
    req: JoinRequest,
    fee_accounts: Option<TokenFeeAccounts>,
    requirement: Option<RequirementAccounts>,
) -> Option<RaffleProgramError> {
    if req.raffle_owner@ != req.program_id@ {
        Some(RaffleProgramError::InvalidRaffle)
    } else if !req.participant_is_signer {
        Some(RaffleProgramError::ParticipantNotSigner)
    } else if req.fee_mint@ != raffle.participation_fee_mint@ {
        Some(RaffleProgramError::InvalidFeeType)
    } else if raffle.raffle_state != STATE_OPEN {
        Some(RaffleProgramError::InvalidRaffleState)
    } else if raffle.is_unlimited_participant_allowed != 1 && raffle.participants_required
        <= raffle.current_number_of_participants {
        Some(RaffleProgramError::MaxNumberReached)
    } else if req.current_time > raffle.raffle_time {
        Some(RaffleProgramError::InvalidRaffleTime)
    } else if raffle.current_number_of_participants == u64::MAX {
        Some(RaffleProgramError::ArithmeticError)
    } else if raffle.participation_fee_type != 1 && fee_accounts is None {
        Some(RaffleProgramError::NotEnoughAccountKeys)
    } else if raffle.participation_fee_type != 1 && !(is_spl_token_program(
        fee_accounts.unwrap().fee_mint_owner@,
    ) || is_token_2022_program(fee_accounts.unwrap().fee_mint_owner@)) {
        Some(RaffleProgramError::InvalidMint)
    } else if raffle.participation_fee_type != 1 && token_account_error(
        fee_accounts.unwrap().participant_account@,
        req.fee_mint@,
        req.participant@,
        None,
    ) is Some {
        token_account_error(
            fee_accounts.unwrap().participant_account@,
            req.fee_mint@,
            req.participant@,
            None,
        )
    } else if raffle.participation_fee_type != 1 && token_account_error(
        fee_accounts.unwrap().raffle_account@,
        req.fee_mint@,
        req.raffle_key@,
        None,
    ) is Some {
        token_account_error(fee_accounts.unwrap().raffle_account@, req.fee_mint@, req.raffle_key@, None)
    } else if raffle.requirement_to_participate == 1 && requirement is None {
        Some(RaffleProgramError::NotEnoughAccountKeys)
    } else if raffle.requirement_to_participate == 1 && requirement.unwrap().requirement_mint@
        != raffle.requirement_mint@ {
        Some(RaffleProgramError::InvalidMint)
    } else if raffle.requirement_to_participate == 1 && token_account_error(
        requirement.unwrap().participant_account@,
        raffle.requirement_mint@,
        req.participant@,
        Some(raffle.requirement_amount_token),
    ) is Some {
        token_account_error(
            requirement.unwrap().participant_account@,
            raffle.requirement_mint@,
            req.participant@,
            Some(raffle.requirement_amount_token),
        )
    } else if raffle.is_increasing_pool == 1 && !pool_increase_fits(raffle) {
        Some(RaffleProgramError::ArithmeticError)
    } else {
        None
    }
}

/// One successful join: the next participant number goes to the new
/// participant, and the prizes grow where the pool increases.
pub open spec fn join_step(before: Raffle, after: Raffle, participant: Participant, address: Seq<u8>) -> bool {
    &&& after.same_setup(&before)
    &&& after.raffle_state == before.raffle_state
    &&& after.current_number_of_participants == before.current_number_of_participants + 1
    &&& after.rewards@ == rewards_after_join(before)
    &&& after.winners@ == before.winners@
    &&& after.current_winner_count == before.current_winner_count
    &&& after.number_of_entitled_winners == before.number_of_entitled_winners
    &&& after.fee_collected == before.fee_collected
    &&& participant.particpant_address@ == address
    &&& participant.particpant_no == after.current_number_of_participants
    &&& participant.raffle_no == before.raffle_no
    &&& participant.entitled == 0
    &&& participant.prize_claimed == 0
    &&& participant.index_in_winners == 0
}

/// The element-wise sum of `a` and `b`, where it fits.
fn add_elementwise(a: &Vec<u64>, b: &Vec<u64>) -> (r: Option<Vec<u64>>)
    ensures
        r is Some <==> sums_fit(a@, b@),
        r is Some ==> r.unwrap()@ == elementwise_sum(a@, b@),
{
    if a.len() != b.len() {
        return None;
    }
    let mut out: Vec<u64> = Vec::new();
    let mut i: usize = 0;
    while i < a.len()
        invariant
            i <= a@.len(),
            b@.len() == a@.len(),
            out@.len() == i,
            forall|j: int| 0 <= j < i ==> #[trigger] out@[j] == a@[j] + b@[j],
        decreases a@.len() - i,
    {
        match a[i].checked_add(b[i]) {
            Some(v) => out.push(v),
            None => {
                return None;
            },
        }
        i = i + 1;
    }
    assert forall|j: int| 0 <= j < a@.len() implies #[trigger] a@[j] + b@[j] <= u64::MAX by {
        assert(out@[j] == a@[j] + b@[j]);
    }
    assert(out@ =~= elementwise_sum(a@, b@));
    Some(out)
}

impl Processor {
    /// Admits a participant: allocates the next participant number, checks
    /// the fee and requirement accounts, and grows the prizes where the pool
    /// increases. On failure the raffle is left as it was.
    pub fn join_raffle(
        raffle: &mut Raffle,
        req: &JoinRequest,
        fee_accounts: &Option<TokenFeeAccounts>,
        requirement: &Option<RequirementAccounts>,
    ) -> (r: Result<JoinOutcome, RaffleProgramError>)
        requires
            old(raffle).wf(),
        ensures
            final(raffle).wf(),
            r is Err <==> join_error(*old(raffle), *req, *fee_accounts, *requirement) is Some,
            r is Err ==> r->Err_0 == join_error(*old(raffle), *req, *fee_accounts, *requirement).unwrap(),
            r is Err ==> *final(raffle) == *old(raffle),
            r is Ok ==> join_step(*old(raffle), *final(raffle), r->Ok_0.participant, req.participant@),
            r is Ok ==> r->Ok_0.fee == old(raffle).participation_fee,
            r is Ok ==> r->Ok_0.fee_is_native == (old(raffle).participation_fee_type == 1),
            r is Ok ==> r->Ok_0.requirement_stake == if old(raffle).requirement_to_participate == 1 {
                old(raffle).requirement_amount_token
            } else {
                0
            },
    {
        if !same_key(&req.raffle_owner, &req.program_id) {
            return Err(RaffleProgramError::InvalidRaffle);
        }
        if !req.participant_is_signer {
            return Err(RaffleProgramError::ParticipantNotSigner);
        }
        if !same_key(&req.fee_mint, &raffle.participation_fee_mint) {
            return Err(RaffleProgramError::InvalidFeeType);
        }
        if raffle.raffle_state != STATE_OPEN {
            return Err(RaffleProgramError::InvalidRaffleState);
        }
        if raffle.is_unlimited_participant_allowed != 1 {
            if raffle.participants_required <= raffle.current_number_of_participants {
                return Err(RaffleProgramError::MaxNumberReached);
            }
        }
        if req.current_time > raffle.raffle_time {
            return Err(RaffleProgramError::InvalidRaffleTime);
        }
        let number = match raffle.current_number_of_participants.checked_add(1) {
            Some(n) => n,
            None => {
                return Err(RaffleProgramError::ArithmeticError);
            },
        };
        if raffle.participation_fee_type != 1 {
            match fee_accounts {
                None => {
                    return Err(RaffleProgramError::NotEnoughAccountKeys);
                },
                Some(accounts) => {
                    if !check_spl_token_program(&accounts.fee_mint_owner)
                        && !check_token_2022_program(&accounts.fee_mint_owner) {
                        return Err(RaffleProgramError::InvalidMint);
                    }
                    Self::check_mint_and_owner(
                        &req.fee_mint,
                        &req.participant,
                        accounts.participant_account.as_slice(),
                    )?;
                    Self::check_mint_and_owner(
                        &req.fee_mint,
                        &req.raffle_key,
                        accounts.raffle_account.as_slice(),
                    )?;
                },
            }
        }
        let mut requirement_stake: u64 = 0;
        if raffle.requirement_to_participate == 1 {
            match requirement {
                None => {
                    return Err(RaffleProgramError::NotEnoughAccountKeys);
                },
                Some(accounts) => {
                    if !same_key(&raffle.requirement_mint, &accounts.requirement_mint) {
                        return Err(RaffleProgramError::InvalidMint);
                    }
                    Self::check_mint_and_owner_and_amount(
                        &raffle.requirement_mint,
                        &req.participant,
                        accounts.participant_account.as_slice(),
                        raffle.requirement_amount_token,
                    )?;
                    requirement_stake = raffle.requirement_amount_token;
                },
            }
        }
        if raffle.is_increasing_pool == 1 {
            match add_elementwise(&raffle.rewards, &raffle.transfer_fee_to_pool) {
                Some(v) => {
                    raffle.rewards = v;
                },
                None => {
                    return Err(RaffleProgramError::ArithmeticError);
                },
            }
        }
        raffle.current_number_of_participants = number;
        let participant = Participant {
            particpant_address: req.participant,
            particpant_no: number,
            raffle_no: raffle.raffle_no,
            entitled: 0,
            prize_claimed: 0,
            index_in_winners: 0,
        };
        assert(raffle.rewards@ == rewards_after_join(*old(raffle)));
        Ok(
            JoinOutcome {
                participant,
                fee: raffle.participation_fee,
                fee_is_native: raffle.participation_fee_type == 1,
                requirement_stake,
            },
        )
    }
}

/// What the host tells about an administrator's request to draw winners.
#[derive(Debug, Clone, Copy)]
pub struct DrawRequest {
    pub program_id: [u8; 32],
    pub raffle_owner: [u8; 32],
    pub authority: [u8; 32],
    pub authority_is_signer: bool,
    pub config: Config,
    pub current_time: u64,
}

/// How a draw goes on after its checks.
#[derive(Debug, Clone, Copy, PartialEq, Eq, Structural)]
pub enum DrawStart {
    /// Nobody joined: the raffle is aborted and its prize pool, `refund`,
    /// goes back to the initializer.
    Aborted { refund: u64 },
    /// The draw is settled without the oracle.
    Done,
    /// Winners are to be drawn from oracle values.
    NeedsOracle,
}

/// Why a draw is refused, in the order the checks are made.
pub open spec fn choose_winner_error(raffle: Raffle, req: DrawRequest) -> Option<RaffleProgramError> {
    if req.raffle_owner@ != req.program_id@ {
        Some(RaffleProgramError::InvalidRaffle)
    } else if !req.authority_is_signer {
        Some(RaffleProgramError::NotSignerAuth)
    } else if !req.config.has_authority(req.authority@) {
        Some(RaffleProgramError::InvalidAuth)
    } else if raffle.raffle_state != STATE_OPEN {
        Some(RaffleProgramError::InvalidRaffleState)
    } else if raffle.is_unlimited_participant_allowed != 1 && raffle.current_number_of_participants
        != raffle.participants_required && req.current_time < raffle.raffle_time {
        Some(RaffleProgramError::InvalidRaffleState)
    } else if raffle.current_number_of_participants == 0 && total(raffle.rewards@) > u64::MAX {
        Some(RaffleProgramError::ArithmeticError)
    } else {
        None
    }
}

impl Processor {
    /// Starts a draw. With no participants the raffle is aborted; with one,
    /// that participant wins the first slot; otherwise winners are to be
    /// drawn from oracle values (`record_draw`, then `finish_draw`).
    pub fn choose_winner(raffle: &mut Raffle, req: &DrawRequest) -> (r: Result<DrawStart, RaffleProgramError>)
        requires
            old(raffle).wf(),
        ensures
            final(raffle).wf(),
            r is Err <==> choose_winner_error(*old(raffle), *req) is Some,
            r is Err ==> r->Err_0 == choose_winner_error(*old(raffle), *req).unwrap(),
            r is Err ==> *final(raffle) == *old(raffle),
            r is Ok ==> final(raffle).same_setup(old(raffle)),
            r is Ok ==> final(raffle).current_number_of_participants
                == old(raffle).current_number_of_participants,
            r is Ok ==> final(raffle).rewards@ == old(raffle).rewards@,
            r is Ok ==> final(raffle).number_of_entitled_winners
                == old(raffle).number_of_entitled_winners,
            r is Ok ==> final(raffle).fee_collected == old(raffle).fee_collected,
            r is Ok && old(raffle).current_number_of_participants == 0 ==> {
                &&& r->Ok_0 == DrawStart::Aborted { refund: total(old(raffle).rewards@) as u64 }
                &&& final(raffle).raffle_state == STATE_SETTLED
                &&& final(raffle).drawn() == Seq::<u64>::empty()
            },
            r is Ok && old(raffle).current_number_of_participants == 1 ==> {
                &&& r->Ok_0 == DrawStart::Done
                &&& final(raffle).raffle_state == STATE_DRAWN
                &&& final(raffle).drawn() == if old(raffle).winner_count >= 1 {
                    seq![1u64]
                } else {
                    Seq::<u64>::empty()
                }
            },
            r is Ok && old(raffle).current_number_of_participants >= 2 ==> {
                &&& r->Ok_0 == DrawStart::NeedsOracle
                &&& *final(raffle) == *old(raffle)
            },
    {
        if !same_key(&req.raffle_owner, &req.program_id) {
            return Err(RaffleProgramError::InvalidRaffle);
        }
        if !req.authority_is_signer {
            return Err(RaffleProgramError::NotSignerAuth);
        }
        Self::check_authority(&req.authority, req.config)?;
        if raffle.raffle_state != STATE_OPEN {
            return Err(RaffleProgramError::InvalidRaffleState);
        }
        if raffle.is_unlimited_participant_allowed != 1 {
            if raffle.current_number_of_participants != raffle.participants_required
                && req.current_time < raffle.raffle_time {
                return Err(RaffleProgramError::InvalidRaffleState);
            }
        }
        if raffle.current_number_of_participants == 0 {
            let refund = match checked_total(&raffle.rewards) {
                Some(t) => t,
                None => {
                    return Err(RaffleProgramError::ArithmeticError);
                },
            };
            raffle.raffle_state = STATE_SETTLED;
            if raffle.current_winner_count > 0 {
                assert(raffle.winners@[0] >= 1);
            }
            assert(raffle.drawn() =~= Seq::<u64>::empty());
            Ok(DrawStart::Aborted { refund })
        } else if raffle.current_number_of_participants == 1 {
            proof {
                if raffle.current_winner_count >= 1 {
                    assert(raffle.winners@[0] == 1);
                }
                if raffle.current_winner_count >= 2 {
                    assert(raffle.winners@[0] != raffle.winners@[1]);
                }
            }
            if raffle.winner_count >= 1 && raffle.current_winner_count == 0 {
                raffle.winners.set(0, 1);
                raffle.current_winner_count = 1;
            }
            assert(raffle.winner_count >= 1 ==> raffle.drawn() =~= seq![1u64]);
            assert(raffle.winner_count == 0 ==> raffle.drawn() =~= Seq::<u64>::empty());
            raffle.raffle_state = STATE_DRAWN;
            Ok(DrawStart::Done)
        } else {
            Ok(DrawStart::NeedsOracle)
        }
    }

    /// Whether a draw in progress asks the oracle once more: winners are
    /// missing and the attempts of this call are not spent.
    pub fn draw_wanted(raffle: &Raffle, attempts: u64, limit: u64) -> (r: bool)
        ensures
            r == (raffle.current_winner_count < raffle.draw_target() && attempts < limit),
    {
        raffle.current_winner_count < draw_target(raffle) && attempts < limit
    }

    /// Ends a call of the draw: once every winner that can be drawn is
    /// drawn, the raffle moves on to the publication of its winners.
    pub fn finish_draw(raffle: &mut Raffle)
        requires
            old(raffle).wf(),
        ensures
            final(raffle).wf(),
            final(raffle).raffle_state == if old(raffle).current_winner_count
                == old(raffle).draw_target() {
                STATE_DRAWN
            } else {
                old(raffle).raffle_state
            },
            (Raffle { raffle_state: old(raffle).raffle_state, ..*final(raffle) }) == *old(raffle),
    {
        if raffle.current_winner_count == draw_target(raffle) {
            raffle.raffle_state = STATE_DRAWN;
        }
    }

    /// The draw of one call, given the values that the oracle returns in
    /// turn: at most `limit` of them are spent. Returns how many were.
    pub fn draw_with_values(raffle: &mut Raffle, values: &Vec<u64>, limit: u64) -> (attempts: u64)
        requires
            old(raffle).wf(),
        ensures
            final(raffle).wf(),
            final(raffle).same_setup(old(raffle)),
            final(raffle).current_number_of_participants == old(raffle).current_number_of_participants,
            final(raffle).rewards@ == old(raffle).rewards@,
            final(raffle).drawn() == draw_seq(
                old(raffle).drawn(),
                old(raffle).current_number_of_participants,
                old(raffle).draw_target() as nat,
                values@.take(if limit < values@.len() { limit as int } else { values@.len() as int }),
            ),
            attempts == draw_attempts(
                old(raffle).drawn(),
                old(raffle).current_number_of_participants,
                old(raffle).draw_target() as nat,
                values@.take(if limit < values@.len() { limit as int } else { values@.len() as int }),
            ),
            final(raffle).raffle_state == if final(raffle).current_winner_count
                == old(raffle).draw_target() {
                STATE_DRAWN
            } else {
                old(raffle).raffle_state
            },
    {
        let attempts = draw_from_values(raffle, values, limit);
        Self::finish_draw(raffle);
        attempts
    }

    /// The value that the oracle returned, after checking that it comes
    /// from the oracle program: eight bytes, little-endian.
    pub fn read_oracle_value(returned_by: &[u8; 32], oracle_program: &[u8; 32], data: &[u8]) -> (r: Result<
        u64,
        RaffleProgramError,
    >)
        ensures
            returned_by@ != oracle_program@ ==> r == Err::<u64, _>(RaffleProgramError::RNGProgramError),
            returned_by@ == oracle_program@ && data@.len() != 8 ==> r == Err::<u64, _>(
                RaffleProgramError::MalformedData,
            ),
            returned_by@ == oracle_program@ && data@.len() == 8 ==> r is Ok && r->Ok_0 == le_u64(data@),
    {
        if !same_key(returned_by, oracle_program) {
            return Err(RaffleProgramError::RNGProgramError);
        }
        match borsh_u64(data) {
            Some(v) => Ok(v),
            None => Err(RaffleProgramError::MalformedData),
        }
    }
}

/// Where `x` stands among the first `count` entries of `winners`.
fn position_in_drawn(winners: &Vec<u64>, count: u64, x: u64) -> (r: Option<usize>)
    requires
        count <= winners@.len(),
    ensures
        r is Some ==> r.unwrap() < count && winners@[r.unwrap() as int] == x,
        r is None ==> !winners@.take(count as int).contains(x),
{
    let mut i: usize = 0;
    while i < winners.len() && (i as u64) < count
        invariant
            count <= winners@.len(),
            i <= count,
            forall|j: int| 0 <= j < i ==> winners@[j] != x,
        decreases count - i,
    {
        if winners[i] == x {
            return Some(i);
        }
        i = i + 1;
    }
    assert(!winners@.take(count as int).contains(x)) by {
        if winners@.take(count as int).contains(x) {
            let k = choose|k: int| 0 <= k < count && winners@.take(count as int)[k] == x;
            assert(winners@[k] == x);
        }
    }
    None
}

/// Why a participant record is refused as a winner, in check order.
pub open spec fn publish_error(raffle: Raffle, participant: Participant, participant_owner: Seq<u8>, program_id: Seq<u8>) -> Option<RaffleProgramError> {
    if participant_owner != program_id {
        Some(RaffleProgramError::InvalidWinnerPDA)
    } else if raffle.raffle_no != participant.raffle_no {
        Some(RaffleProgramError::InvalidRaffleNo)
    } else if participant.entitled != 0 {
        Some(RaffleProgramError::InvalidParticipantPDA)
    } else if !raffle.drawn().contains(participant.particpant_no) {
        Some(RaffleProgramError::InvalidParticipantPDA)
    } else if raffle.number_of_entitled_winners == u64::MAX {
        Some(RaffleProgramError::ArithmeticError)
    } else {
        None
    }
}

impl Processor {
    /// The checks that open the publication of winners: the raffle record
    /// belongs to this program and its winners are drawn.
    pub fn check_publish(raffle: &Raffle, program_id: &[u8; 32], raffle_owner: &[u8; 32]) -> (r: Result<
        (),
        RaffleProgramError,
    >)
        ensures
            r == if raffle_owner@ != program_id@ {
                Err(RaffleProgramError::InvalidRaffle)
            } else if raffle.raffle_state != STATE_DRAWN {
                Err(RaffleProgramError::InvalidRaffleState)
            } else {
                Ok::<(), RaffleProgramError>(())
            },
    {
        if !same_key(raffle_owner, program_id) {
            return Err(RaffleProgramError::InvalidRaffle);
        }
        if raffle.raffle_state != STATE_DRAWN {
            return Err(RaffleProgramError::InvalidRaffleState);
        }
        Ok(())
    }

    /// Confirms one drawn winner: the participant record is marked entitled
    /// with its position among the winners, which fixes its prize.
    pub fn publish_winner(
        raffle: &mut Raffle,
        participant: &mut Participant,
        participant_owner: &[u8; 32],
        program_id: &[u8; 32],
    ) -> (r: Result<(), RaffleProgramError>)
        requires
            old(raffle).wf(),
        ensures
            final(raffle).wf(),
            r is Err <==> publish_error(*old(raffle), *old(participant), participant_owner@, program_id@) is Some,
            r is Err ==> r->Err_0 == publish_error(
                *old(raffle),
                *old(participant),
                participant_owner@,
                program_id@,
            ).unwrap(),
            r is Err ==> *final(raffle) == *old(raffle) && *final(participant) == *old(participant),
            r is Ok ==> (Raffle {
                number_of_entitled_winners: old(raffle).number_of_entitled_winners,
                ..*final(raffle)
            }) == *old(raffle),
            r is Ok ==> final(raffle).number_of_entitled_winners == old(raffle).number_of_entitled_winners + 1,
            r is Ok ==> (Participant {
                entitled: 0,
                index_in_winners: old(participant).index_in_winners,
                ..*final(participant)
            }) == *old(participant),
            r is Ok ==> final(participant).entitled == 1,
            r is Ok ==> final(participant).index_in_winners < old(raffle).current_winner_count,
            r is Ok ==> old(raffle).winners@[final(participant).index_in_winners as int]
                == old(participant).particpant_no,
    {
        if !same_key(participant_owner, program_id) {
            return Err(RaffleProgramError::InvalidWinnerPDA);
        }
        if raffle.raffle_no != participant.raffle_no {
            return Err(RaffleProgramError::InvalidRaffleNo);
        }
        if participant.entitled != 0 {
            return Err(RaffleProgramError::InvalidParticipantPDA);
        }
        let index = match position_in_drawn(&raffle.winners, raffle.current_winner_count, participant.particpant_no) {
            Some(i) => i,
            None => {
                return Err(RaffleProgramError::InvalidParticipantPDA);
            },
        };
        proof {
            assert(raffle.drawn()[index as int] == participant.particpant_no);
        }
        let entitled = match raffle.number_of_entitled_winners.checked_add(1) {
            Some(n) => n,
            None => {
                return Err(RaffleProgramError::ArithmeticError);
            },
        };
        raffle.number_of_entitled_winners = entitled;
        participant.entitled = 1;
        participant.index_in_winners = index as u64;
        Ok(())
    }

    /// Ends a publication: once every drawn winner is confirmed, prizes and
    /// fees may be settled.
    pub fn finish_publish(raffle: &mut Raffle)
        ensures
            final(raffle).raffle_state == if old(raffle).number_of_entitled_winners
                == old(raffle).draw_target() {
                STATE_SETTLED
            } else {
                old(raffle).raffle_state
            },
            (Raffle { raffle_state: old(raffle).raffle_state, ..*final(raffle) }) == *old(raffle),
    {
        if raffle.number_of_entitled_winners == draw_target(raffle) {
            raffle.raffle_state = STATE_SETTLED;
        }
    }
}

/// What the host tells about a claim.
#[derive(Debug, Clone, Copy)]
pub struct ClaimRequest {
    pub program_id: [u8; 32],
    pub raffle_owner: [u8; 32],
    /// Owner of the participant record's account.
    pub participant_owner: [u8; 32],
    /// The address that claims.
    pub claimant: [u8; 32],
    /// The reward currency supplied with the claim.
    pub reward_mint: [u8; 32],
    /// Owner of the claimant's account for the reward currency.
    pub prize_account_owner: [u8; 32],
}

/// What a successful claim moves out of escrow.
#[derive(Debug, Clone, Copy, PartialEq, Eq, Structural)]
pub struct ClaimOutcome {
    /// Required tokens returned to the participant, 0 where none were staked.
    pub requirement_refund: u64,
    /// The prize, 0 for a participant that did not win.
    pub prize: u64,
    pub prize_is_native: bool,
    /// Whether the claimant's token account for the prize must be created.
    pub create_prize_account: bool,
}

/// Whether a key is the id of one of the two token programs.
pub open spec fn is_token_program(key: Seq<u8>) -> bool {
    is_spl_token_program(key) || is_token_2022_program(key)
}

/// Why a claim fails, in check order.
pub open spec fn claim_error(
    raffle: Raffle,
    participant: Participant,
    req: ClaimRequest,
    requirement_mint: Option<[u8; 32]>,
    prize_account: Seq<u8>,
) -> Option<RaffleProgramError> {
    if req.raffle_owner@ != req.program_id@ {
        Some(RaffleProgramError::InvalidRaffle)
    } else if req.participant_owner@ != req.program_id@ {
        Some(RaffleProgramError::InvalidWinnerPDA)
    } else if raffle.raffle_no != participant.raffle_no {
        Some(RaffleProgramError::InvalidRaffleNo)
    } else if req.claimant@ != participant.particpant_address@ {
        Some(RaffleProgramError::InvalidWinner)
    } else if raffle.raffle_state != STATE_SETTLED {
        Some(RaffleProgramError::InvalidRaffleState)
    } else if participant.prize_claimed != 0 {
        Some(RaffleProgramError::InvalidParticipantPDA)
    } else if raffle.requirement_to_participate == 1 && requirement_mint is None {
        Some(RaffleProgramError::NotEnoughAccountKeys)
    } else if raffle.requirement_to_participate == 1 && requirement_mint.unwrap()@
        != raffle.requirement_mint@ {
        Some(RaffleProgramError::InvalidMint)
    } else if participant.entitled == 1 && req.reward_mint@ != raffle.reward_mint@ {
        Some(RaffleProgramError::InvalidWinner)
    } else if participant.entitled == 1 && !raffle.drawn().contains(participant.particpant_no) {
        Some(RaffleProgramError::InvalidParticipantPDA)
    } else if participant.entitled == 1 && !is_system_program(raffle.reward_mint@)
        && is_token_program(req.prize_account_owner@) {
        token_account_error(prize_account, req.reward_mint@, req.claimant@, None)
    } else {
        None
    }
}

impl Processor {
    /// Settles one participant's claim: returns the staked required tokens
    /// and, to a confirmed winner, the prize of its slot. A participant
    /// claims once: the record is marked, and a second claim fails.
    pub fn claim_prize(
        raffle: &Raffle,
        participant: &mut Participant,
        req: &ClaimRequest,
        requirement_mint: Option<[u8; 32]>,
        prize_account: &[u8],
    ) -> (r: Result<ClaimOutcome, RaffleProgramError>)
        requires
            raffle.wf(),
        ensures
            r is Err <==> claim_error(*raffle, *old(participant), *req, requirement_mint, prize_account@) is Some,
            r is Err ==> r->Err_0 == claim_error(
                *raffle,
                *old(participant),
                *req,
                requirement_mint,
                prize_account@,
            ).unwrap(),
            r is Err ==> *final(participant) == *old(participant),
            r is Ok ==> *final(participant) == (Participant { prize_claimed: 1, ..*old(participant) }),
            r is Ok ==> r->Ok_0.requirement_refund == if raffle.requirement_to_participate == 1 {
                raffle.requirement_amount_token
            } else {
                0
            },
            r is Ok && old(participant).entitled != 1 ==> r->Ok_0.prize == 0
                && !r->Ok_0.create_prize_account,
            r is Ok && old(participant).entitled == 1 ==> exists|i: int|
                0 <= i < raffle.current_winner_count && raffle.winners@[i] == old(participant).particpant_no
                    && r->Ok_0.prize == raffle.rewards@[i],
            r is Ok && old(participant).entitled == 1 ==> r->Ok_0.prize_is_native == is_system_program(raffle.reward_mint@),
            r is Ok && old(participant).entitled == 1 ==> r->Ok_0.create_prize_account == (
                !is_system_program(raffle.reward_mint@) && !is_token_program(req.prize_account_owner@)),
    {
        if !same_key(&req.raffle_owner, &req.program_id) {
            return Err(RaffleProgramError::InvalidRaffle);
        }
        if !same_key(&req.participant_owner, &req.program_id) {
            return Err(RaffleProgramError::InvalidWinnerPDA);
        }
        if raffle.raffle_no != participant.raffle_no {
            return Err(RaffleProgramError::InvalidRaffleNo);
        }
        if !same_key(&req.claimant, &participant.particpant_address) {
            return Err(RaffleProgramError::InvalidWinner);
        }
        if raffle.raffle_state != STATE_SETTLED {
            return Err(RaffleProgramError::InvalidRaffleState);
        }
        if participant.prize_claimed != 0 {
            return Err(RaffleProgramError::InvalidParticipantPDA);
        }
        let mut requirement_refund: u64 = 0;
        if raffle.requirement_to_participate == 1 {
            match requirement_mint {
                None => {
                    return Err(RaffleProgramError::NotEnoughAccountKeys);
                },
                Some(mint) => {
                    if !same_key(&raffle.requirement_mint, &mint) {
                        return Err(RaffleProgramError::InvalidMint);
                    }
                },
            }
            requirement_refund = raffle.requirement_amount_token;
        }
        let mut prize: u64 = 0;
        let mut prize_is_native = false;
        let mut create_prize_account = false;
        if participant.entitled == 1 {
            if !same_key(&req.reward_mint, &raffle.reward_mint) {
                return Err(RaffleProgramError::InvalidWinner);
            }
            let index = match position_in_drawn(&raffle.winners, raffle.current_winner_count, participant.particpant_no) {
                Some(i) => i,
                None => {
                    return Err(RaffleProgramError::InvalidParticipantPDA);
                },
            };
            proof {
                assert(raffle.drawn()[index as int] == participant.particpant_no);
            }
            prize = raffle.rewards[index];
            prize_is_native = check_system_program(&raffle.reward_mint);
            if !prize_is_native {
                if !check_spl_token_program(&req.prize_account_owner) && !check_token_2022_program(
                    &req.prize_account_owner,
                ) {
                    create_prize_account = true;
                } else {
                    Self::check_mint_and_owner(&req.reward_mint, &req.claimant, prize_account)?;
                }
            }
        }
        participant.prize_claimed = 1;
        Ok(ClaimOutcome { requirement_refund, prize, prize_is_native, create_prize_account })
    }
}

/// What the host tells about an initializer's request to settle fees.
#[derive(Debug, Clone, Copy)]
pub struct FeeCollectionRequest {
    pub program_id: [u8; 32],
    /// The caller.
    pub initializer: [u8; 32],
    pub raffle_owner: [u8; 32],
    pub term_owner: [u8; 32],
    pub fee_collector_owner: [u8; 32],
    /// Native balance and data length of the raffle record's account.
    pub raffle_balance: u64,
    pub raffle_data_len: usize,
}

/// The fees of a raffle as settled: the split, and whether it is paid in
/// native currency.
#[derive(Debug, Clone, Copy, PartialEq, Eq, Structural)]
pub struct FeeCollection {
    pub settlement: Settlement,
    pub fee_is_native: bool,
}

/// Whether the prizes are held back from the fee computation: where the
/// pool grows from the fees, or fees and prizes share one currency.
pub open spec fn excludes_rewards(raffle: Raffle) -> bool {
    raffle.is_increasing_pool == 1 || raffle.participation_fee_mint@ == raffle.reward_mint@
}

/// What the raffle's escrow holds, and the reserve that stays with it: the
/// native balance above the rent-exempt minimum, or the balance of its fee
/// token account.
pub open spec fn fee_escrow(raffle: Raffle, req: FeeCollectionRequest, fee_account: Seq<u8>) -> (u64, u64) {
    if raffle.participation_fee_type == 1 {
        (req.raffle_balance, rent_exempt_minimum(req.raffle_data_len))
    } else {
        (le_u64(fee_account.subrange(64, 72)) as u64, 0)
    }
}

/// Why fee collection fails before any arithmetic, in check order.
pub open spec fn fee_collection_error(
    raffle: Raffle,
    terms: Term,
    fee_collector: FeeCollector,
    req: FeeCollectionRequest,
    fee_account: Option<Vec<u8>>,
) -> Option<RaffleProgramError> {
    if terms.initialized != 2 {
        Some(RaffleProgramError::InvalidTerms)
    } else if fee_collector.initialized != 3 {
        Some(RaffleProgramError::InvalidFee)
    } else if req.raffle_owner@ != req.program_id@ || req.term_owner@ != req.program_id@
        || req.fee_collector_owner@ != req.program_id@ {
        Some(RaffleProgramError::InvalidRaffle)
    } else if raffle.raffle_state < STATE_DRAWN || raffle.fee_collected != 0 {
        Some(RaffleProgramError::InvalidRaffleState)
    } else if raffle.initializer@ != req.initializer@ {
        Some(RaffleProgramError::InvalidInitializer)
    } else if raffle.participation_fee_type == 1 && req.raffle_data_len > MAX_ACCOUNT_DATA_LEN {
        Some(RaffleProgramError::MalformedData)
    } else if raffle.participation_fee_type != 1 && fee_account is None {
        Some(RaffleProgramError::NotEnoughAccountKeys)
    } else if raffle.participation_fee_type != 1 && !(fee_account.unwrap()@.len()
        >= TOKEN_ACCOUNT_LEN && token_account_layout_valid(fee_account.unwrap()@)) {
        Some(RaffleProgramError::MalformedData)
    } else {
        None
    }
}

impl Processor {
    /// Settles a drawn raffle's fees, once, at its initializer's request:
    /// what the escrow collected, less its reserve and, where they share the
    /// escrow, the prizes, is split into the fee collector's percentage and
    /// the initializer's payout.
    pub fn collect_fee_initializer(
        raffle: &mut Raffle,
        terms: &Term,
        fee_collector: &FeeCollector,
        req: &FeeCollectionRequest,
        fee_account: &Option<Vec<u8>>,
    ) -> (r: Result<FeeCollection, RaffleProgramError>)
        ensures
            fee_collection_error(*old(raffle), *terms, *fee_collector, *req, *fee_account) is Some ==> r
                == Err::<FeeCollection, _>(
                fee_collection_error(*old(raffle), *terms, *fee_collector, *req, *fee_account).unwrap(),
            ),
            fee_collection_error(*old(raffle), *terms, *fee_collector, *req, *fee_account) is None ==> ({
                let (escrow, reserved) = fee_escrow(*old(raffle), *req, fee_account.unwrap()@);
                let collected = collected_of(escrow, reserved, old(raffle).rewards@, excludes_rewards(*old(raffle)));
                &&& r is Ok <==> (collected >= 0 && fee_of(collected, terms.fee_percent as int) <= collected)
                &&& r is Err ==> r == Err::<FeeCollection, _>(RaffleProgramError::ArithmeticError)
                &&& r is Ok ==> r->Ok_0.settlement.fee == fee_of(collected, terms.fee_percent as int)
                &&& r is Ok ==> r->Ok_0.settlement.fee + r->Ok_0.settlement.payout == collected
                &&& r is Ok ==> r->Ok_0.fee_is_native == (old(raffle).participation_fee_type == 1)
            }),
            r is Err ==> *final(raffle) == *old(raffle),
            r is Ok ==> *final(raffle) == (Raffle { fee_collected: 1, ..*old(raffle) }),
    {
        if terms.initialized != 2 {
            return Err(RaffleProgramError::InvalidTerms);
        }
        if fee_collector.initialized != 3 {
            return Err(RaffleProgramError::InvalidFee);
        }
        if !same_key(&req.raffle_owner, &req.program_id) || !same_key(&req.term_owner, &req.program_id)
            || !same_key(&req.fee_collector_owner, &req.program_id) {
            return Err(RaffleProgramError::InvalidRaffle);
        }
        if raffle.raffle_state < STATE_DRAWN || raffle.fee_collected != 0 {
            return Err(RaffleProgramError::InvalidRaffleState);
        }
        if !same_key(&raffle.initializer, &req.initializer) {
            return Err(RaffleProgramError::InvalidInitializer);
        }
        let exclude = raffle.is_increasing_pool == 1 || same_key(
            &raffle.participation_fee_mint,
            &raffle.reward_mint,
        );
        let fee_is_native = raffle.participation_fee_type == 1;
        let settlement = if fee_is_native {
            if req.raffle_data_len > MAX_ACCOUNT_DATA_LEN {
                return Err(RaffleProgramError::MalformedData);
            }
            let reserved = minimum_balance(req.raffle_data_len);
            settle(req.raffle_balance, reserved, &raffle.rewards, exclude, terms.fee_percent)?
        } else {
            let account = match fee_account {
                None => {
                    return Err(RaffleProgramError::NotEnoughAccountKeys);
                },
                Some(data) => read_token_account(data.as_slice())?,
            };
            settle(account.amount, 0, &raffle.rewards, exclude, terms.fee_percent)?
        };
        raffle.fee_collected = 1;
        Ok(FeeCollection { settlement, fee_is_native })
    }
}

/// What the host tells about a request to create a raffle.
#[derive(Debug, Clone, Copy)]
pub struct InitRaffleRequest {
    pub program_id: [u8; 32],
    pub initializer: [u8; 32],
    pub initializer_is_signer: bool,
    pub counter_owner: [u8; 32],
    pub term_owner: [u8; 32],
    pub term_is_writable: bool,
    pub reward_type_key: [u8; 32],
    pub reward_type_owner: [u8; 32],
    pub reward_type_is_writable: bool,
    pub fee_type_key: [u8; 32],
    pub fee_type_owner: [u8; 32],
    pub fee_type_is_writable: bool,
    pub current_time: u64,
    /// The mint supplied for the token that participants must hold.
    pub requirement_mint: Option<[u8; 32]>,
}

/// A new raffle, with the accounts to create and the prize pool to escrow.
#[derive(Debug, Clone)]
pub struct InitRaffleOutcome {
    pub raffle: Raffle,
    pub raffle_address: [u8; 32],
    pub total_rewards: u64,
    /// Whether the prize pool is native currency.
    pub rewards_are_native: bool,
    /// Token accounts that the raffle needs, for prizes, fees and the
    /// required token.
    pub create_reward_account: bool,
    pub create_fee_account: bool,
    pub create_requirement_account: bool,
}

/// Whether `a` is the address derived from `seeds`.
pub open spec fn is_derived(a: Seq<u8>, seeds: Seq<Seq<u8>>, program_id: Seq<u8>) -> bool {
    program_address(seeds, program_id) is Some && program_address(seeds, program_id).unwrap().0 == a
}

/// Why a raffle cannot be created, in check order.
pub open spec fn init_raffle_error(
    counter: RaffleCounter,
    terms: Term,
    reward_type: RewardFeeType,
    fee_type: RewardFeeType,
    init: InitRaffle,
    req: InitRaffleRequest,
) -> Option<RaffleProgramError> {
    let pid = req.program_id@;
    if reward_type.initialized != 2 || fee_type.initialized != 3 {
        Some(RaffleProgramError::InvalidTerms)
    } else if counter.number_of_raffles == u64::MAX {
        Some(RaffleProgramError::ArithmeticError)
    } else if counter.initialized != 1 {
        Some(RaffleProgramError::InvalidCounter)
    } else if terms.initialized != 2 {
        Some(RaffleProgramError::InvalidTerms)
    } else if req.counter_owner@ != pid {
        Some(RaffleProgramError::InvalidCounter)
    } else if req.term_owner@ != pid {
        Some(RaffleProgramError::InvalidTerms)
    } else if req.reward_type_owner@ != pid {
        Some(RaffleProgramError::InvalidRewardType)
    } else if req.fee_type_owner@ != pid {
        Some(RaffleProgramError::InvalidFeeType)
    } else if req.fee_type_is_writable || req.reward_type_is_writable || req.term_is_writable {
        Some(RaffleProgramError::WritableAccount)
    } else if !req.initializer_is_signer {
        Some(RaffleProgramError::InitializerNotSigner)
    } else if !is_derived(req.reward_type_key@, seq![reward_type_tag(), le_bytes(reward_type.no)], pid) {
        Some(RaffleProgramError::InvalidRewardType)
    } else if total(init.rewards@) > u64::MAX || total(init.transfer_fee_to_pool@)
        + init.participation_fee > u64::MAX {
        Some(RaffleProgramError::ArithmeticError)
    } else if !is_derived(req.fee_type_key@, seq![fee_type_tag(), le_bytes(fee_type.no)], pid) {
        Some(RaffleProgramError::InvalidRewardType)
    } else if req.current_time + terms.expiration_time > u64::MAX {
        Some(RaffleProgramError::ArithmeticError)
    } else if init.raffle_time < req.current_time || init.raffle_time > req.current_time
        + terms.expiration_time {
        Some(RaffleProgramError::InvalidRaffleTime)
    } else if init.winner_count > terms.maximum_winner_count || init.rewards@.len()
        != init.winner_count {
        Some(RaffleProgramError::InvalidWinnerNumber)
    } else if program_address(raffle_seeds((counter.number_of_raffles + 1) as u64), pid) is None {
        Some(RaffleProgramError::InvalidRaffle)
    } else if init.is_increasing_pool == 1 && reward_type.mint@ != fee_type.mint@ {
        Some(RaffleProgramError::InvalidMint)
    } else if init.requirement_to_participate == 1 && (init.requirement_mint@ == reward_type.mint@
        || init.requirement_mint@ == fee_type.mint@) {
        Some(RaffleProgramError::InvalidMint)
    } else if init.requirement_to_participate == 1 && req.requirement_mint is None {
        Some(RaffleProgramError::NotEnoughAccountKeys)
    } else if init.requirement_to_participate == 1 && req.requirement_mint.unwrap()@
        != init.requirement_mint@ {
        Some(RaffleProgramError::InvalidMint)
    } else {
        None
    }
}

/// The record of a new raffle: its configuration as submitted, currencies
/// as registered, no participants and no winners yet.
pub open spec fn is_new_raffle(
    r: Raffle,
    init: InitRaffle,
    reward_type: RewardFeeType,
    fee_type: RewardFeeType,
    raffle_no: u64,
    initializer: Seq<u8>,
) -> bool {
    &&& r.raffle_state == STATE_OPEN
    &&& r.is_unlimited_participant_allowed == init.is_unlimited_participant_allowed
    &&& r.multiple_participation_allowed == init.multiple_participation_allowed
    &&& r.initializer@ == initializer
    &&& r.reward_mint == reward_type.mint
    &&& r.raffle_name == init.raffle_name
    &&& r.raffle_no == raffle_no
    &&& r.current_number_of_participants == 0
    &&& r.participants_required == init.participants_required
    &&& r.participation_fee == init.participation_fee
    &&& r.participation_fee_mint == fee_type.mint
    &&& r.participation_fee_type == init.participation_fee_type
    &&& r.rewards@ == init.rewards@
    &&& r.winners@ == Seq::new(init.winner_count as nat, |i: int| 0u64)
    &&& r.requirement_to_participate == init.requirement_to_participate
    &&& r.requirement_amount_token == init.requirement_amount_token
    &&& r.requirement_mint == init.requirement_mint
    &&& r.required_token_decimals == init.required_token_decimals
    &&& r.reward_decimals == reward_type.decimals
    &&& r.participation_fee_decimals == fee_type.decimals
    &&& r.is_increasing_pool == init.is_increasing_pool
    &&& r.transfer_fee_to_pool@ == init.transfer_fee_to_pool@
    &&& r.raffle_time == init.raffle_time
    &&& r.winner_count == init.winner_count
    &&& r.current_winner_count == 0
    &&& r.number_of_entitled_winners == 0
    &&& r.fee_collected == 0
}

/// `n` zeros.
fn zeros(n: u64) -> (r: Vec<u64>)
    ensures
        r@ == Seq::new(n as nat, |i: int| 0u64),
{
    let mut v: Vec<u64> = Vec::new();
    let mut i: u64 = 0;
    while i < n
        invariant
            i <= n,
            v@ =~= Seq::new(i as nat, |j: int| 0u64),
        decreases n - i,
    {
        v.push(0);
        i = i + 1;
    }
    v
}

/// A copy of a sequence of amounts.
fn copy_amounts(v: &Vec<u64>) -> (r: Vec<u64>)
    ensures
        r@ == v@,
{
    let mut out: Vec<u64> = Vec::new();
    let mut i: usize = 0;
    while i < v.len()
        invariant
            i <= v@.len(),
            out@ =~= v@.take(i as int),
        decreases v@.len() - i,
    {
        out.push(v[i]);
        i = i + 1;
    }
    assert(v@.take(v@.len() as int) =~= v@);
    out
}

impl Processor {
    /// Creates a raffle: checks the program's records and the submitted
    /// configuration, takes the next raffle number from the counter, and
    /// returns the new raffle with its address and the prize pool to escrow.
    /// On failure the counter is left as it was.
    pub fn init_raffle(
        counter: &mut RaffleCounter,
        terms: &Term,
        reward_type: &RewardFeeType,
        fee_type: &RewardFeeType,
        init: &InitRaffle,
        req: &InitRaffleRequest,
    ) -> (r: Result<InitRaffleOutcome, RaffleProgramError>)
        ensures
            r is Err <==> init_raffle_error(*old(counter), *terms, *reward_type, *fee_type, *init, *req) is Some,
            r is Err ==> r->Err_0 == init_raffle_error(
                *old(counter),
                *terms,
                *reward_type,
                *fee_type,
                *init,
                *req,
            ).unwrap(),
            r is Err ==> *final(counter) == *old(counter),
            r is Ok ==> final(counter).number_of_raffles == old(counter).number_of_raffles + 1,
            r is Ok ==> final(counter).initialized == old(counter).initialized,
            r is Ok ==> is_new_raffle(
                r->Ok_0.raffle,
                *init,
                *reward_type,
                *fee_type,
                final(counter).number_of_raffles,
                req.initializer@,
            ),
            r is Ok ==> r->Ok_0.raffle.wf(),
            r is Ok ==> program_address(raffle_seeds(final(counter).number_of_raffles), req.program_id@)
                == Some((r->Ok_0.raffle_address@, r->Ok_0.raffle.bump)),
            r is Ok ==> r->Ok_0.total_rewards == total(init.rewards@),
            r is Ok ==> r->Ok_0.rewards_are_native == (reward_type.no == 1),
            r is Ok ==> r->Ok_0.create_reward_account == (init.reward_type != 1),
            r is Ok ==> r->Ok_0.create_fee_account == (init.participation_fee_type != 1
                && reward_type.mint@ != fee_type.mint@),
            r is Ok ==> r->Ok_0.create_requirement_account == (init.requirement_to_participate == 1),
    {
        if reward_type.initialized != 2 || fee_type.initialized != 3 {
            return Err(RaffleProgramError::InvalidTerms);
        }
        let raffle_no = match counter.number_of_raffles.checked_add(1) {
            Some(n) => n,
            None => {
                return Err(RaffleProgramError::ArithmeticError);
            },
        };
        let pid = &req.program_id;
        if counter.initialized != 1 {
            return Err(RaffleProgramError::InvalidCounter);
        }
        if terms.initialized != 2 {
            return Err(RaffleProgramError::InvalidTerms);
        }
        if !same_key(&req.counter_owner, pid) {
            return Err(RaffleProgramError::InvalidCounter);
        }
        if !same_key(&req.term_owner, pid) {
            return Err(RaffleProgramError::InvalidTerms);
        }
        if !same_key(&req.reward_type_owner, pid) {
            return Err(RaffleProgramError::InvalidRewardType);
        }
        if !same_key(&req.fee_type_owner, pid) {
            return Err(RaffleProgramError::InvalidFeeType);
        }
        if req.fee_type_is_writable || req.reward_type_is_writable || req.term_is_writable {
            return Err(RaffleProgramError::WritableAccount);
        }
        if !req.initializer_is_signer {
            return Err(RaffleProgramError::InitializerNotSigner);
        }
        match Self::reward_type_address(reward_type.no, pid) {
            Some((address, _)) => {
                if !same_key(&address, &req.reward_type_key) {
                    return Err(RaffleProgramError::InvalidRewardType);
                }
            },
            None => {
                return Err(RaffleProgramError::InvalidRewardType);
            },
        }
        let total_rewards = match checked_total(&init.rewards) {
            Some(t) => t,
            None => {
                return Err(RaffleProgramError::ArithmeticError);
            },
        };
        match checked_total(&init.transfer_fee_to_pool) {
            Some(t) => {
                if t.checked_add(init.participation_fee).is_none() {
                    return Err(RaffleProgramError::ArithmeticError);
                }
            },
            None => {
                return Err(RaffleProgramError::ArithmeticError);
            },
        }
        match Self::fee_type_address(fee_type.no, pid) {
            Some((address, _)) => {
                if !same_key(&address, &req.fee_type_key) {
                    return Err(RaffleProgramError::InvalidRewardType);
                }
            },
            None => {
                return Err(RaffleProgramError::InvalidRewardType);
            },
        }
        let latest = match req.current_time.checked_add(terms.expiration_time) {
            Some(t) => t,
            None => {
                return Err(RaffleProgramError::ArithmeticError);
            },
        };
        if init.raffle_time < req.current_time || init.raffle_time > latest {
            return Err(RaffleProgramError::InvalidRaffleTime);
        }
        if init.winner_count > terms.maximum_winner_count || init.rewards.len() as u64
            != init.winner_count {
            return Err(RaffleProgramError::InvalidWinnerNumber);
        }
        let (raffle_address, bump) = match Self::raffle_address(raffle_no, pid) {
            Some(found) => found,
            None => {
                return Err(RaffleProgramError::InvalidRaffle);
            },
        };
        let same_currency = same_key(&reward_type.mint, &fee_type.mint);
        if init.is_increasing_pool == 1 && !same_currency {
            return Err(RaffleProgramError::InvalidMint);
        }
        if init.requirement_to_participate == 1 {
            if same_key(&init.requirement_mint, &reward_type.mint) || same_key(
                &init.requirement_mint,
                &fee_type.mint,
            ) {
                return Err(RaffleProgramError::InvalidMint);
            }
            match req.requirement_mint {
                None => {
                    return Err(RaffleProgramError::NotEnoughAccountKeys);
                },
                Some(mint) => {
                    if !same_key(&init.requirement_mint, &mint) {
                        return Err(RaffleProgramError::InvalidMint);
                    }
                },
            }
        }
        let raffle = Raffle {
            raffle_state: STATE_OPEN,
            is_unlimited_participant_allowed: init.is_unlimited_participant_allowed,
            multiple_participation_allowed: init.multiple_participation_allowed,
            initializer: req.initializer,
            reward_mint: reward_type.mint,
            raffle_name: init.raffle_name,
            raffle_no,
            current_number_of_participants: 0,
            participants_required: init.participants_required,
            participation_fee: init.participation_fee,
            participation_fee_mint: fee_type.mint,
            participation_fee_type: init.participation_fee_type,
            rewards: copy_amounts(&init.rewards),
            winners: zeros(init.winner_count),
            requirement_to_participate: init.requirement_to_participate,
            requirement_amount_token: init.requirement_amount_token,
            requirement_mint: init.requirement_mint,
            required_token_decimals: init.required_token_decimals,
            reward_decimals: reward_type.decimals,
            participation_fee_decimals: fee_type.decimals,
            is_increasing_pool: init.is_increasing_pool,
            transfer_fee_to_pool: copy_amounts(&init.transfer_fee_to_pool),
            raffle_time: init.raffle_time,
            winner_count: init.winner_count,
            current_winner_count: 0,
            number_of_entitled_winners: 0,
            fee_collected: 0,
            bump,
        };
        counter.number_of_raffles = raffle_no;
        Ok(
            InitRaffleOutcome {
                raffle,
                raffle_address,
                total_rewards,
                rewards_are_native: reward_type.no == 1,
                create_reward_account: init.reward_type != 1,
                create_fee_account: init.participation_fee_type != 1 && !same_currency,
                create_requirement_account: init.requirement_to_participate == 1,
            },
        )
    }
}

/// Why prizes cannot be added to a raffle's pool, in check order.
pub open spec fn add_pool_error(raffle: Raffle, program_id: Seq<u8>, raffle_owner: Seq<u8>, amounts: Seq<u64>) -> Option<RaffleProgramError> {
    if raffle_owner != program_id {
        Some(RaffleProgramError::InvalidRaffle)
    } else if raffle.raffle_state != STATE_OPEN {
        Some(RaffleProgramError::InvalidRaffleState)
    } else if total(amounts) > u64::MAX || !sums_fit(raffle.rewards@, amounts) {
        Some(RaffleProgramError::ArithmeticError)
    } else {
        None
    }
}

impl Processor {
    /// Adds to the prizes of an open raffle, slot by slot; returns the total
    /// to move into escrow.
    pub fn add_to_reward_pool(
        raffle: &mut Raffle,
        program_id: &[u8; 32],
        raffle_owner: &[u8; 32],
        amounts: &Rewards,
    ) -> (r: Result<u64, RaffleProgramError>)
        requires
            old(raffle).wf(),
        ensures
            final(raffle).wf(),
            r is Err <==> add_pool_error(*old(raffle), program_id@, raffle_owner@, amounts.rewards@) is Some,
            r is Err ==> r->Err_0 == add_pool_error(
                *old(raffle),
                program_id@,
                raffle_owner@,
                amounts.rewards@,
            ).unwrap(),
            r is Err ==> *final(raffle) == *old(raffle),
            r is Ok ==> r->Ok_0 == total(amounts.rewards@),
            r is Ok ==> final(raffle).rewards@ == elementwise_sum(old(raffle).rewards@, amounts.rewards@),
            r is Ok ==> final(raffle).same_setup(old(raffle)),
            r is Ok ==> final(raffle).raffle_state == old(raffle).raffle_state,
            r is Ok ==> final(raffle).current_number_of_participants
                == old(raffle).current_number_of_participants,
            r is Ok ==> final(raffle).winners@ == old(raffle).winners@,
            r is Ok ==> final(raffle).current_winner_count == old(raffle).current_winner_count,
            r is Ok ==> final(raffle).number_of_entitled_winners
                == old(raffle).number_of_entitled_winners,
            r is Ok ==> final(raffle).fee_collected == old(raffle).fee_collected,
    {
        if !same_key(raffle_owner, program_id) {
            return Err(RaffleProgramError::InvalidRaffle);
        }
        if raffle.raffle_state != STATE_OPEN {
            return Err(RaffleProgramError::InvalidRaffleState);
        }
        let sum = match checked_total(&amounts.rewards) {
            Some(t) => t,
            None => {
                return Err(RaffleProgramError::ArithmeticError);
            },
        };
        match add_elementwise(&raffle.rewards, &amounts.rewards) {
            Some(v) => {
                raffle.rewards = v;
            },
            None => {
                return Err(RaffleProgramError::ArithmeticError);
            },
        }
        Ok(sum)
    }
}

/// Joins number their participants in order: after any run of successful
/// joins on a raffle that had none, the participant count is the number of
/// participant records created, the k-th record has number k, so the
/// numbers are distinct and fill `[1, count]`, and every record names the
/// raffle.
pub proof fn lemma_join_numbering(raffles: Seq<Raffle>, participants: Seq<Participant>, addresses: Seq<Seq<u8>>)
    requires
        raffles.len() == participants.len() + 1,
        addresses.len() == participants.len(),
        raffles[0].current_number_of_participants == 0,
        forall|k: int|
            0 <= k < participants.len() ==> join_step(
                #[trigger] raffles[k],
                raffles[k + 1],
                participants[k],
                addresses[k],
            ),
    ensures
        raffles.last().current_number_of_participants == participants.len(),
        forall|k: int| 0 <= k < participants.len() ==> #[trigger] participants[k].particpant_no == k + 1,
        forall|j: int, k: int|
            0 <= j < k < participants.len() ==> #[trigger] participants[j].particpant_no
                != #[trigger] participants[k].particpant_no,
        forall|k: int| 0 <= k < participants.len() ==> #[trigger] participants[k].raffle_no == raffles[0].raffle_no,
{
    assert forall|k: int| 0 <= k < participants.len() implies #[trigger] participants[k].particpant_no
        == k + 1 by {
        lemma_join_prefix(raffles, participants, addresses, k + 1);
    }
    assert forall|k: int| 0 <= k < participants.len() implies #[trigger] participants[k].raffle_no
        == raffles[0].raffle_no by {
        lemma_join_prefix(raffles, participants, addresses, k + 1);
    }
    lemma_join_prefix(raffles, participants, addresses, participants.len() as int);
}

proof fn lemma_join_prefix(raffles: Seq<Raffle>, participants: Seq<Participant>, addresses: Seq<Seq<u8>>, k: int)
    requires
        raffles.len() == participants.len() + 1,
        addresses.len() == participants.len(),
        raffles[0].current_number_of_participants == 0,
        forall|k: int|
            0 <= k < participants.len() ==> join_step(
                #[trigger] raffles[k],
                raffles[k + 1],
                participants[k],
                addresses[k],
            ),
        0 <= k <= participants.len(),
    ensures
        raffles[k].current_number_of_participants == k,
        raffles[k].raffle_no == raffles[0].raffle_no,
        k > 0 ==> participants[k - 1].particpant_no == k,
        k > 0 ==> participants[k - 1].raffle_no == raffles[0].raffle_no,
    decreases k,
{
    if k > 0 {
        lemma_join_prefix(raffles, participants, addresses, k - 1);
        assert(join_step(raffles[k - 1], raffles[k], participants[k - 1], addresses[k - 1]));
    }
}

/// A participant claims once: after a successful claim, a second claim on
/// the updated record fails as already claimed, and so moves nothing.
pub proof fn lemma_claim_once(
    raffle: Raffle,
    participant: Participant,
    req: ClaimRequest,
    requirement_mint: Option<[u8; 32]>,
    prize_account: Seq<u8>,
    second_requirement_mint: Option<[u8; 32]>,
    second_prize_account: Seq<u8>,
)
    requires
        claim_error(raffle, participant, req, requirement_mint, prize_account) is None,
    ensures
        claim_error(
            raffle,
            Participant { prize_claimed: 1, ..participant },
            req,
            second_requirement_mint,
            second_prize_account,
        ) == Some(RaffleProgramError::InvalidParticipantPDA),
{
}

/// Once a raffle has left the open state its configuration and prizes are
/// fixed: no join, pool addition or new draw succeeds on it.
pub proof fn lemma_closed_after_draw(
    raffle: Raffle,
    join: JoinRequest,
    fee_accounts: Option<TokenFeeAccounts>,
    requirement: Option<RequirementAccounts>,
    program_id: Seq<u8>,
    raffle_owner: Seq<u8>,
    amounts: Seq<u64>,
    draw: DrawRequest,
)
    requires
        raffle.raffle_state != STATE_OPEN,
    ensures
        join_error(raffle, join, fee_accounts, requirement) is Some,
        add_pool_error(raffle, program_id, raffle_owner, amounts) is Some,
        choose_winner_error(raffle, draw) is Some,
{
}

} // verus!
