use raffle_program::error::RaffleProgramError;
use raffle_program::admin::AdminAccess;
use raffle_program::processor::{
    ClaimRequest, FeeCollectionRequest, InitRaffleRequest, JoinRequest, Processor,
    RequirementAccounts, TokenFeeAccounts,
};
use raffle_program::state::{
    Config, FeeCollector, InitRaffle, Participant, Raffle, RaffleCounter, RewardFeeType, Rewards, Term,
};
use solana_program::program_pack::Pack;
use solana_program::pubkey::Pubkey;

const PROGRAM: [u8; 32] = [7u8; 32];
const ADMIN: [u8; 32] = [9u8; 32];
const INITIALIZER: [u8; 32] = [1u8; 32];
const REWARD_MINT: [u8; 32] = [2u8; 32];
const FEE_MINT: [u8; 32] = [3u8; 32];
const RAFFLE_KEY: [u8; 32] = [8u8; 32];

fn raffle(participants: u64, rewards: Vec<u64>) -> Raffle {
    let n = rewards.len();
    Raffle {
        raffle_state: 1,
        is_unlimited_participant_allowed: 0,
        multiple_participation_allowed: 0,
        initializer: INITIALIZER,
        reward_mint: REWARD_MINT,
        raffle_name: [0u8; 32],
        raffle_no: 4,
        current_number_of_participants: participants,
        participants_required: 10,
        participation_fee: 10,
        participation_fee_mint: FEE_MINT,
        participation_fee_type: 1,
        rewards,
        winners: vec![0; n],
        requirement_to_participate: 0,
        requirement_amount_token: 0,
        requirement_mint: [0u8; 32],
        required_token_decimals: 0,
        reward_decimals: 6,
        participation_fee_decimals: 9,
        is_increasing_pool: 0,
        transfer_fee_to_pool: vec![0; n],
        raffle_time: 1000,
        winner_count: n as u64,
        current_winner_count: 0,
        number_of_entitled_winners: 0,
        fee_collected: 0,
        bump: 254,
    }
}

fn join_request(participant: [u8; 32]) -> JoinRequest {
    JoinRequest {
        program_id: PROGRAM,
        raffle_key: RAFFLE_KEY,
        raffle_owner: PROGRAM,
        participant,
        participant_is_signer: true,
        fee_mint: FEE_MINT,
        current_time: 900,
    }
}

fn token_account(mint: [u8; 32], owner: [u8; 32], amount: u64) -> Vec<u8> {
    let account = spl_token::state::Account {
        mint: Pubkey::new_from_array(mint),
        owner: Pubkey::new_from_array(owner),
        amount,
        state: spl_token::state::AccountState::Initialized,
        ..spl_token::state::Account::default()
    };
    let mut data = vec![0u8; spl_token::state::Account::LEN];
    account.pack_into_slice(&mut data);
    data
}

fn admin(config_owner: [u8; 32]) -> AdminAccess {
    AdminAccess {
        program_id: PROGRAM,
        config_owner,
        authority: ADMIN,
        authority_is_signer: true,
        config: Config { authority_1: ADMIN, authority_2: [0u8; 32], authority_3: [0u8; 32], authority_4: [0u8; 32] },
    }
}

#[test]
fn scenario_increasing_pool_grows_prizes_per_join() {
    let mut r = raffle(0, vec![100, 50]);
    r.is_increasing_pool = 1;
    r.transfer_fee_to_pool = vec![10, 5];
    for k in 1..=3u64 {
        let out = Processor::join_raffle(&mut r, &join_request([20 + k as u8; 32]), &None, &None).unwrap();
        assert_eq!(out.participant.particpant_no, k);
        assert_eq!(out.participant.raffle_no, 4);
        assert_eq!(out.fee, 10);
        assert!(out.fee_is_native);
    }
    assert_eq!(r.rewards, vec![130, 65]);
    assert_eq!(r.current_number_of_participants, 3);
}

#[test]
fn joins_number_participants_in_order() {
    let mut r = raffle(0, vec![100]);
    let mut numbers = Vec::new();
    for k in 0..5u8 {
        let out = Processor::join_raffle(&mut r, &join_request([30 + k; 32]), &None, &None).unwrap();
        numbers.push(out.participant.particpant_no);
    }
    assert_eq!(numbers, vec![1, 2, 3, 4, 5]);
    assert_eq!(r.current_number_of_participants, 5);
    assert_eq!(r.rewards, vec![100]);
}

#[test]
fn join_refusals_leave_raffle_unchanged() {
    let base = raffle(0, vec![100]);
    let mut r = base.clone();
    let mut req = join_request([5u8; 32]);
    req.raffle_owner = [0u8; 32];
    assert_eq!(Processor::join_raffle(&mut r, &req, &None, &None).unwrap_err(), RaffleProgramError::InvalidRaffle);
    let mut req = join_request([5u8; 32]);
    req.participant_is_signer = false;
    assert_eq!(Processor::join_raffle(&mut r, &req, &None, &None).unwrap_err(), RaffleProgramError::ParticipantNotSigner);
    let mut req = join_request([5u8; 32]);
    req.fee_mint = [6u8; 32];
    assert_eq!(Processor::join_raffle(&mut r, &req, &None, &None).unwrap_err(), RaffleProgramError::InvalidFeeType);
    let mut req = join_request([5u8; 32]);
    req.current_time = 1001;
    assert_eq!(Processor::join_raffle(&mut r, &req, &None, &None).unwrap_err(), RaffleProgramError::InvalidRaffleTime);
    assert!(r == base);
    let mut full = raffle(10, vec![100]);
    assert_eq!(
        Processor::join_raffle(&mut full, &join_request([5u8; 32]), &None, &None).unwrap_err(),
        RaffleProgramError::MaxNumberReached
    );
    let mut closed = raffle(1, vec![100]);
    closed.raffle_state = 2;
    assert_eq!(
        Processor::join_raffle(&mut closed, &join_request([5u8; 32]), &None, &None).unwrap_err(),
        RaffleProgramError::InvalidRaffleState
    );
    let mut overflow = raffle(0, vec![u64::MAX]);
    overflow.is_increasing_pool = 1;
    overflow.transfer_fee_to_pool = vec![1];
    assert_eq!(
        Processor::join_raffle(&mut overflow, &join_request([5u8; 32]), &None, &None).unwrap_err(),
        RaffleProgramError::ArithmeticError
    );
    assert_eq!(overflow.current_number_of_participants, 0);
    assert_eq!(overflow.rewards, vec![u64::MAX]);
}

#[test]
fn join_with_token_fee_checks_accounts() {
    let participant = [5u8; 32];
    let mut r = raffle(0, vec![100]);
    r.participation_fee_type = 2;
    assert_eq!(
        Processor::join_raffle(&mut r, &join_request(participant), &None, &None).unwrap_err(),
        RaffleProgramError::NotEnoughAccountKeys
    );
    let good = TokenFeeAccounts {
        fee_mint_owner: spl_token::id().to_bytes(),
        participant_account: token_account(FEE_MINT, participant, 50),
        raffle_account: token_account(FEE_MINT, RAFFLE_KEY, 0),
    };
    let mut wrong_program = good.clone();
    wrong_program.fee_mint_owner = [1u8; 32];
    assert_eq!(
        Processor::join_raffle(&mut r, &join_request(participant), &Some(wrong_program), &None).unwrap_err(),
        RaffleProgramError::InvalidMint
    );
    let mut wrong_owner = good.clone();
    wrong_owner.raffle_account = token_account(FEE_MINT, participant, 0);
    assert_eq!(
        Processor::join_raffle(&mut r, &join_request(participant), &Some(wrong_owner), &None).unwrap_err(),
        RaffleProgramError::InvalidTokenAccount
    );
    let mut short = good.clone();
    short.participant_account.truncate(100);
    assert_eq!(
        Processor::join_raffle(&mut r, &join_request(participant), &Some(short), &None).unwrap_err(),
        RaffleProgramError::MalformedData
    );
    let mut token_2022 = good.clone();
    token_2022.fee_mint_owner = spl_token_2022::id().to_bytes();
    let out = Processor::join_raffle(&mut r, &join_request(participant), &Some(token_2022), &None).unwrap();
    assert!(!out.fee_is_native);
    assert_eq!(out.requirement_stake, 0);
}

#[test]
fn join_with_requirement_checks_balance() {
    let participant = [5u8; 32];
    let required = [11u8; 32];
    let mut r = raffle(0, vec![100]);
    r.requirement_to_participate = 1;
    r.requirement_mint = required;
    r.requirement_amount_token = 40;
    let poor = RequirementAccounts { requirement_mint: required, participant_account: token_account(required, participant, 39) };
    assert_eq!(
        Processor::join_raffle(&mut r, &join_request(participant), &None, &Some(poor)).unwrap_err(),
        RaffleProgramError::InsufficientRequirement
    );
    let wrong = RequirementAccounts { requirement_mint: [12u8; 32], participant_account: token_account(required, participant, 40) };
    assert_eq!(
        Processor::join_raffle(&mut r, &join_request(participant), &None, &Some(wrong)).unwrap_err(),
        RaffleProgramError::InvalidMint
    );
    let enough = RequirementAccounts { requirement_mint: required, participant_account: token_account(required, participant, 40) };
    let out = Processor::join_raffle(&mut r, &join_request(participant), &None, &Some(enough)).unwrap();
    assert_eq!(out.requirement_stake, 40);
}

fn drawn_raffle() -> Raffle {
    let mut r = raffle(5, vec![300, 200, 100]);
    r.winners = vec![4, 2, 5];
    r.current_winner_count = 3;
    r.raffle_state = 2;
    r
}

fn participant(no: u64) -> Participant {
    Participant { particpant_address: [40 + no as u8; 32], particpant_no: no, raffle_no: 4, entitled: 0, prize_claimed: 0, index_in_winners: 0 }
}

#[test]
fn publish_confirms_winners_and_settles() {
    let mut r = drawn_raffle();
    assert_eq!(Processor::check_publish(&r, &PROGRAM, &PROGRAM), Ok(()));
    let mut slot_two = participant(2);
    Processor::publish_winner(&mut r, &mut slot_two, &PROGRAM, &PROGRAM).unwrap();
    assert_eq!(slot_two.entitled, 1);
    assert_eq!(slot_two.index_in_winners, 1);
    let mut slot_three = participant(3);
    assert_eq!(
        Processor::publish_winner(&mut r, &mut slot_three, &PROGRAM, &PROGRAM),
        Err(RaffleProgramError::InvalidParticipantPDA)
    );
    assert_eq!(
        Processor::publish_winner(&mut r, &mut slot_two, &PROGRAM, &PROGRAM),
        Err(RaffleProgramError::InvalidParticipantPDA)
    );
    let mut other = participant(4);
    other.raffle_no = 9;
    assert_eq!(Processor::publish_winner(&mut r, &mut other, &PROGRAM, &PROGRAM), Err(RaffleProgramError::InvalidRaffleNo));
    assert_eq!(
        Processor::publish_winner(&mut r, &mut participant(4), &[0u8; 32], &PROGRAM),
        Err(RaffleProgramError::InvalidWinnerPDA)
    );
    Processor::finish_publish(&mut r);
    assert_eq!(r.raffle_state, 2);
    let mut slot_four = participant(4);
    let mut slot_five = participant(5);
    Processor::publish_winner(&mut r, &mut slot_four, &PROGRAM, &PROGRAM).unwrap();
    Processor::publish_winner(&mut r, &mut slot_five, &PROGRAM, &PROGRAM).unwrap();
    assert_eq!(slot_four.index_in_winners, 0);
    assert_eq!(slot_five.index_in_winners, 2);
    assert_eq!(r.number_of_entitled_winners, 3);
    Processor::finish_publish(&mut r);
    assert_eq!(r.raffle_state, 3);
    assert_eq!(Processor::check_publish(&r, &PROGRAM, &PROGRAM), Err(RaffleProgramError::InvalidRaffleState));
}

fn claim_request(claimant: [u8; 32]) -> ClaimRequest {
    ClaimRequest {
        program_id: PROGRAM,
        raffle_owner: PROGRAM,
        participant_owner: PROGRAM,
        claimant,
        reward_mint: REWARD_MINT,
        prize_account_owner: [0u8; 32],
    }
}

#[test]
fn claim_pays_once() {
    let mut r = drawn_raffle();
    r.raffle_state = 3;
    let mut p = participant(2);
    p.entitled = 1;
    p.index_in_winners = 1;
    let claimant = p.particpant_address;
    let out = Processor::claim_prize(&r, &mut p, &claim_request(claimant), None, &[]).unwrap();
    assert_eq!(out.prize, 200);
    assert!(!out.prize_is_native);
    assert!(out.create_prize_account);
    assert_eq!(out.requirement_refund, 0);
    assert_eq!(p.prize_claimed, 1);
    assert_eq!(
        Processor::claim_prize(&r, &mut p, &claim_request(claimant), None, &[]),
        Err(RaffleProgramError::InvalidParticipantPDA)
    );
    assert_eq!(p.prize_claimed, 1);
}

#[test]
fn claim_of_native_prize_and_of_non_winner() {
    let mut r = drawn_raffle();
    r.raffle_state = 3;
    r.reward_mint = solana_program::system_program::id().to_bytes();
    let mut p = participant(5);
    p.entitled = 1;
    let mut req = claim_request(p.particpant_address);
    req.reward_mint = r.reward_mint;
    let out = Processor::claim_prize(&r, &mut p, &req, None, &[]).unwrap();
    assert_eq!(out.prize, 100);
    assert!(out.prize_is_native);
    assert!(!out.create_prize_account);
    let mut loser = participant(1);
    let loser_req = claim_request(loser.particpant_address);
    let out = Processor::claim_prize(&r, &mut loser, &loser_req, None, &[]).unwrap();
    assert_eq!(out.prize, 0);
    assert_eq!(loser.prize_claimed, 1);
}

#[test]
fn claim_into_existing_token_account_and_refusals() {
    let mut r = drawn_raffle();
    r.raffle_state = 3;
    r.requirement_to_participate = 1;
    r.requirement_mint = [11u8; 32];
    r.requirement_amount_token = 7;
    let mut p = participant(4);
    p.entitled = 1;
    let claimant = p.particpant_address;
    let mut req = claim_request(claimant);
    req.prize_account_owner = spl_token::id().to_bytes();
    assert_eq!(
        Processor::claim_prize(&r, &mut p, &req, None, &token_account(REWARD_MINT, claimant, 0)),
        Err(RaffleProgramError::NotEnoughAccountKeys)
    );
    assert_eq!(
        Processor::claim_prize(&r, &mut p, &req, Some([11u8; 32]), &token_account(REWARD_MINT, [0u8; 32], 0)),
        Err(RaffleProgramError::InvalidTokenAccount)
    );
    assert_eq!(
        Processor::claim_prize(&r, &mut p, &claim_request([0u8; 32]), Some([11u8; 32]), &[]),
        Err(RaffleProgramError::InvalidWinner)
    );
    let out = Processor::claim_prize(&r, &mut p, &req, Some([11u8; 32]), &token_account(REWARD_MINT, claimant, 0)).unwrap();
    assert_eq!(out.prize, 300);
    assert_eq!(out.requirement_refund, 7);
    assert!(!out.create_prize_account);
    let mut open = drawn_raffle();
    open.raffle_state = 2;
    let mut q = participant(4);
    let q_req = claim_request(q.particpant_address);
    assert_eq!(
        Processor::claim_prize(&open, &mut q, &q_req, None, &[]),
        Err(RaffleProgramError::InvalidRaffleState)
    );
}

fn fee_request(balance: u64) -> FeeCollectionRequest {
    FeeCollectionRequest {
        program_id: PROGRAM,
        initializer: INITIALIZER,
        raffle_owner: PROGRAM,
        term_owner: PROGRAM,
        fee_collector_owner: PROGRAM,
        raffle_balance: balance,
        raffle_data_len: 400,
    }
}

fn terms(fee_percent: u64) -> Term {
    Term { initialized: 2, fee_percent, expiration_time: 10_000, maximum_winner_count: 10 }
}

#[test]
fn initializer_fee_split_native() {
    let rent = solana_program::rent::Rent::default().minimum_balance(400);
    let mut r = drawn_raffle();
    let out = Processor::collect_fee_initializer(&mut r, &terms(5), &FeeCollector { initialized: 3 }, &fee_request(rent + 1_299), &None).unwrap();
    assert_eq!(out.settlement.fee, 60);
    assert_eq!(out.settlement.payout, 1_239);
    assert!(out.fee_is_native);
    assert_eq!(r.fee_collected, 1);
    assert_eq!(
        Processor::collect_fee_initializer(&mut r, &terms(5), &FeeCollector { initialized: 3 }, &fee_request(rent + 1_299), &None),
        Err(RaffleProgramError::InvalidRaffleState)
    );
}

#[test]
fn initializer_fee_split_excludes_prizes_in_same_currency() {
    let mut r = drawn_raffle();
    r.participation_fee_type = 2;
    r.participation_fee_mint = REWARD_MINT;
    let account = Some(token_account(REWARD_MINT, RAFFLE_KEY, 1_000));
    let out = Processor::collect_fee_initializer(&mut r, &terms(10), &FeeCollector { initialized: 3 }, &fee_request(0), &account).unwrap();
    assert_eq!(out.settlement.fee, 40);
    assert_eq!(out.settlement.payout, 360);
    assert!(!out.fee_is_native);
    let mut short = drawn_raffle();
    short.participation_fee_type = 2;
    short.participation_fee_mint = REWARD_MINT;
    let poor = Some(token_account(REWARD_MINT, RAFFLE_KEY, 599));
    assert_eq!(
        Processor::collect_fee_initializer(&mut short, &terms(10), &FeeCollector { initialized: 3 }, &fee_request(0), &poor),
        Err(RaffleProgramError::ArithmeticError)
    );
    assert_eq!(short.fee_collected, 0);
}

#[test]
fn initializer_fee_refusals() {
    let mut r = drawn_raffle();
    let fc = FeeCollector { initialized: 3 };
    let mut bad_terms = terms(5);
    bad_terms.initialized = 1;
    assert_eq!(Processor::collect_fee_initializer(&mut r, &bad_terms, &fc, &fee_request(10_000_000), &None), Err(RaffleProgramError::InvalidTerms));
    assert_eq!(
        Processor::collect_fee_initializer(&mut r, &terms(5), &FeeCollector { initialized: 1 }, &fee_request(10_000_000), &None),
        Err(RaffleProgramError::InvalidFee)
    );
    let mut req = fee_request(10_000_000);
    req.initializer = [0u8; 32];
    assert_eq!(Processor::collect_fee_initializer(&mut r, &terms(5), &fc, &req, &None), Err(RaffleProgramError::InvalidInitializer));
    let mut open = raffle(3, vec![1]);
    assert_eq!(
        Processor::collect_fee_initializer(&mut open, &terms(5), &fc, &fee_request(10_000_000), &None),
        Err(RaffleProgramError::InvalidRaffleState)
    );
    assert_eq!(
        Processor::collect_fee_initializer(&mut r, &terms(5), &fc, &fee_request(5), &None),
        Err(RaffleProgramError::ArithmeticError)
    );
}

fn reward_type(no: u64, mint: [u8; 32]) -> RewardFeeType {
    RewardFeeType { initialized: 2, mint, decimals: 6, no }
}

fn init_data() -> InitRaffle {
    InitRaffle {
        is_unlimited_participant_allowed: 0,
        raffle_name: [65u8; 32],
        participation_fee: 10,
        participants_required: 50,
        raffle_time: 5_000,
        multiple_participation_allowed: 1,
        participation_fee_type: 1,
        reward_type: 2,
        rewards: vec![500, 300],
        requirement_to_participate: 0,
        requirement_amount_token: 0,
        requirement_mint: [0u8; 32],
        required_token_decimals: 0,
        winner_count: 2,
        is_increasing_pool: 0,
        transfer_fee_to_pool: vec![0, 0],
    }
}

fn init_request(reward_no: u64, fee_no: u64) -> InitRaffleRequest {
    InitRaffleRequest {
        program_id: PROGRAM,
        initializer: INITIALIZER,
        initializer_is_signer: true,
        counter_owner: PROGRAM,
        term_owner: PROGRAM,
        term_is_writable: false,
        reward_type_key: Processor::reward_type_address(reward_no, &PROGRAM).unwrap().0,
        reward_type_owner: PROGRAM,
        reward_type_is_writable: false,
        fee_type_key: Processor::fee_type_address(fee_no, &PROGRAM).unwrap().0,
        fee_type_owner: PROGRAM,
        fee_type_is_writable: false,
        current_time: 1_000,
        requirement_mint: None,
    }
}

#[test]
fn init_raffle_creates_open_raffle() {
    let mut counter = RaffleCounter { initialized: 1, number_of_raffles: 6 };
    let mut fee_type = reward_type(1, FEE_MINT);
    fee_type.initialized = 3;
    let out = Processor::init_raffle(&mut counter, &terms(5), &reward_type(2, REWARD_MINT), &fee_type, &init_data(), &init_request(2, 1)).unwrap();
    assert_eq!(counter.number_of_raffles, 7);
    assert_eq!(out.raffle.raffle_no, 7);
    assert_eq!(out.raffle.raffle_state, 1);
    assert_eq!(out.raffle.winners, vec![0, 0]);
    assert_eq!(out.raffle.rewards, vec![500, 300]);
    assert_eq!(out.raffle.reward_mint, REWARD_MINT);
    assert_eq!(out.raffle.participation_fee_mint, FEE_MINT);
    assert_eq!(out.total_rewards, 800);
    assert!(!out.rewards_are_native);
    assert!(out.create_reward_account);
    assert!(!out.create_fee_account);
    let (address, bump) = Pubkey::find_program_address(&[b"raffle", &7u64.to_le_bytes()], &Pubkey::new_from_array(PROGRAM));
    assert_eq!(out.raffle_address, address.to_bytes());
    assert_eq!(out.raffle.bump, bump);
}

#[test]
fn init_raffle_refusals_keep_counter() {
    let mut counter = RaffleCounter { initialized: 1, number_of_raffles: 6 };
    let mut fee_type = reward_type(1, FEE_MINT);
    fee_type.initialized = 3;
    let rt = reward_type(2, REWARD_MINT);
    let mut late = init_data();
    late.raffle_time = 20_000;
    assert_eq!(
        Processor::init_raffle(&mut counter, &terms(5), &rt, &fee_type, &late, &init_request(2, 1)).unwrap_err(),
        RaffleProgramError::InvalidRaffleTime
    );
    let mut past = init_data();
    past.raffle_time = 999;
    assert_eq!(
        Processor::init_raffle(&mut counter, &terms(5), &rt, &fee_type, &past, &init_request(2, 1)).unwrap_err(),
        RaffleProgramError::InvalidRaffleTime
    );
    let mut mismatched = init_data();
    mismatched.winner_count = 3;
    assert_eq!(
        Processor::init_raffle(&mut counter, &terms(5), &rt, &fee_type, &mismatched, &init_request(2, 1)).unwrap_err(),
        RaffleProgramError::InvalidWinnerNumber
    );
    let mut increasing = init_data();
    increasing.is_increasing_pool = 1;
    assert_eq!(
        Processor::init_raffle(&mut counter, &terms(5), &rt, &fee_type, &increasing, &init_request(2, 1)).unwrap_err(),
        RaffleProgramError::InvalidMint
    );
    assert_eq!(
        Processor::init_raffle(&mut counter, &terms(5), &rt, &fee_type, &init_data(), &init_request(3, 1)).unwrap_err(),
        RaffleProgramError::InvalidRewardType
    );
    let mut signer = init_request(2, 1);
    signer.initializer_is_signer = false;
    assert_eq!(
        Processor::init_raffle(&mut counter, &terms(5), &rt, &fee_type, &init_data(), &signer).unwrap_err(),
        RaffleProgramError::InitializerNotSigner
    );
    let mut writable = init_request(2, 1);
    writable.term_is_writable = true;
    assert_eq!(
        Processor::init_raffle(&mut counter, &terms(5), &rt, &fee_type, &init_data(), &writable).unwrap_err(),
        RaffleProgramError::WritableAccount
    );
    assert_eq!(
        Processor::init_raffle(&mut counter, &terms(5), &rt, &reward_type(1, FEE_MINT), &init_data(), &init_request(2, 1)).unwrap_err(),
        RaffleProgramError::InvalidTerms
    );
    let mut full = RaffleCounter { initialized: 1, number_of_raffles: u64::MAX };
    assert_eq!(
        Processor::init_raffle(&mut full, &terms(5), &rt, &fee_type, &init_data(), &init_request(2, 1)).unwrap_err(),
        RaffleProgramError::ArithmeticError
    );
    assert_eq!(counter.number_of_raffles, 6);
}

#[test]
fn derived_addresses_match_solana() {
    let program = Pubkey::new_from_array(PROGRAM);
    let (expected, bump) = Pubkey::find_program_address(&[b"feetype", &3u64.to_le_bytes()], &program);
    assert_eq!(Processor::fee_type_address(3, &PROGRAM), Some((expected.to_bytes(), bump)));
    let (expected, _) = Pubkey::find_program_address(&[b"rewtype", &3u64.to_le_bytes()], &program);
    assert_eq!(Processor::reward_type_address(3, &PROGRAM).unwrap().0, expected.to_bytes());
    let key = [42u8; 32];
    let (by_key, _) = Pubkey::find_program_address(&[b"raf", &4u64.to_le_bytes(), b"par", &key], &program);
    assert_eq!(Processor::participant_address(4, 0, &key, 9, &PROGRAM).unwrap().0, by_key.to_bytes());
    let (by_no, _) = Pubkey::find_program_address(&[b"raf", &4u64.to_le_bytes(), b"par", &9u64.to_le_bytes()], &program);
    assert_eq!(Processor::participant_address(4, 1, &key, 9, &PROGRAM).unwrap().0, by_no.to_bytes());
}

#[test]
fn admin_operations() {
    assert_eq!(Processor::check_authority(&ADMIN, admin(PROGRAM).config), Ok(()));
    assert_eq!(Processor::check_authority(&[3u8; 32], admin(PROGRAM).config), Err(RaffleProgramError::InvalidAuth));
    assert_eq!(Processor::check_admin(&admin([0u8; 32])), Err(RaffleProgramError::InvalidConfig));
    let mut unsigned = admin(PROGRAM);
    unsigned.authority_is_signer = false;
    assert_eq!(Processor::check_admin(&unsigned), Err(RaffleProgramError::NotSignerAuth));
    let t = Processor::init_term_account(&admin(PROGRAM)).unwrap();
    assert_eq!(t, Term { initialized: 2, fee_percent: 0, expiration_time: 0, maximum_winner_count: 10 });
    let updated = Processor::update_terms(&admin(PROGRAM), Term { initialized: 0, fee_percent: 3, expiration_time: 60, maximum_winner_count: 4 }).unwrap();
    assert_eq!(updated, Term { initialized: 2, fee_percent: 3, expiration_time: 60, maximum_winner_count: 4 });
    let c = Processor::set_config(&admin(PROGRAM), [[1u8; 32], [2u8; 32], [3u8; 32], [4u8; 32]]).unwrap();
    assert_eq!(c.authority_3, [3u8; 32]);
    let rent = solana_program::rent::Rent::default().minimum_balance(1);
    assert_eq!(Processor::collect_fee(&admin(PROGRAM), rent + 77), Ok(77));
    assert_eq!(Processor::collect_fee(&admin(PROGRAM), rent - 1), Err(RaffleProgramError::ArithmeticError));
}

#[test]
fn reward_pool_additions() {
    let mut r = raffle(2, vec![100, 50]);
    assert_eq!(Processor::add_to_reward_pool(&mut r, &PROGRAM, &PROGRAM, &Rewards { rewards: vec![5, 6] }), Ok(11));
    assert_eq!(r.rewards, vec![105, 56]);
    assert_eq!(
        Processor::add_to_reward_pool(&mut r, &PROGRAM, &PROGRAM, &Rewards { rewards: vec![5] }),
        Err(RaffleProgramError::ArithmeticError)
    );
    assert_eq!(r.rewards, vec![105, 56]);
    r.raffle_state = 2;
    assert_eq!(
        Processor::add_to_reward_pool(&mut r, &PROGRAM, &PROGRAM, &Rewards { rewards: vec![5, 6] }),
        Err(RaffleProgramError::InvalidRaffleState)
    );
}

#[test]
fn token_account_reading_matches_spl_layout() {
    let data = token_account(REWARD_MINT, INITIALIZER, 123_456_789);
    let account = Processor::check_mint_and_owner(&REWARD_MINT, &INITIALIZER, &data).unwrap();
    assert_eq!(account.amount, 123_456_789);
    assert_eq!(Processor::check_mint_and_owner_and_amount(&REWARD_MINT, &INITIALIZER, &data, 123_456_790), Err(RaffleProgramError::InsufficientRequirement));
    assert_eq!(Processor::check_mint_and_owner_and_amount(&REWARD_MINT, &INITIALIZER, &data, 5), Ok(()));
    let mut bad_state = data.clone();
    bad_state[108] = 3;
    assert_eq!(Processor::check_mint_and_owner(&REWARD_MINT, &INITIALIZER, &bad_state).unwrap_err(), RaffleProgramError::MalformedData);
    assert_eq!(Processor::check_mint_and_owner(&FEE_MINT, &INITIALIZER, &data).unwrap_err(), RaffleProgramError::InvalidTokenAccount);
}

#[test]
fn init_raffle_record_checks() {
    let mut fee_type = reward_type(1, FEE_MINT);
    fee_type.initialized = 3;
    let rt = reward_type(2, REWARD_MINT);
    let mut uninitialized = RaffleCounter { initialized: 0, number_of_raffles: 6 };
    assert_eq!(
        Processor::init_raffle(&mut uninitialized, &terms(5), &rt, &fee_type, &init_data(), &init_request(2, 1)).unwrap_err(),
        RaffleProgramError::InvalidCounter
    );
    let mut counter = RaffleCounter { initialized: 1, number_of_raffles: 6 };
    let mut foreign = init_request(2, 1);
    foreign.counter_owner = [0u8; 32];
    assert_eq!(
        Processor::init_raffle(&mut counter, &terms(5), &rt, &fee_type, &init_data(), &foreign).unwrap_err(),
        RaffleProgramError::InvalidCounter
    );
    let mut foreign_fee = init_request(2, 1);
    foreign_fee.fee_type_owner = [0u8; 32];
    assert_eq!(
        Processor::init_raffle(&mut counter, &terms(5), &rt, &fee_type, &init_data(), &foreign_fee).unwrap_err(),
        RaffleProgramError::InvalidFeeType
    );
    let mut required = init_data();
    required.requirement_to_participate = 1;
    required.requirement_mint = FEE_MINT;
    assert_eq!(
        Processor::init_raffle(&mut counter, &terms(5), &rt, &fee_type, &required, &init_request(2, 1)).unwrap_err(),
        RaffleProgramError::InvalidMint
    );
    required.requirement_mint = [44u8; 32];
    assert_eq!(
        Processor::init_raffle(&mut counter, &terms(5), &rt, &fee_type, &required, &init_request(2, 1)).unwrap_err(),
        RaffleProgramError::NotEnoughAccountKeys
    );
    let mut with_mint = init_request(2, 1);
    with_mint.requirement_mint = Some([44u8; 32]);
    let out = Processor::init_raffle(&mut counter, &terms(5), &rt, &fee_type, &required, &with_mint).unwrap();
    assert!(out.create_requirement_account);
    assert_eq!(counter.number_of_raffles, 7);
}

#[test]
fn error_codes_follow_declaration_order() {
    assert_eq!(RaffleProgramError::InvalidInstruction.code(), 0);
    assert_eq!(RaffleProgramError::ArithmeticError.code(), 2);
    assert_eq!(RaffleProgramError::InvalidWinnerNumber.code(), 24);
    assert_eq!(RaffleProgramError::NotEnoughAccountKeys.code(), 28);
}
