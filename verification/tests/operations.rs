use anchor_lang::prelude::Pubkey;
use avellum::{
    initialize, rate_agent, rate_agent_at, register_agent, stake_add, stake_init, Agent,
    AvellumError, Initialize, ProtocolState, RateAgent, Rating, RegisterAgent, StakeAdd,
    StakeInit, Verifier,
};

fn key(tag: u8) -> Pubkey {
    Pubkey::new_from_array([tag; 32])
}

fn counters(total_agents: u32, total_ratings: u64) -> ProtocolState {
    ProtocolState { authority: key(1), total_agents, total_ratings }
}

fn agent(trust_score: u64, total_weight: u64, rating_count: u32, confidence: u8) -> Agent {
    Agent { address: key(10), trust_score, total_weight, rating_count, confidence }
}

fn rating_of(agent: Agent, stake: u64) -> RateAgent {
    RateAgent {
        rating: None,
        agent,
        verifier: Verifier { owner: key(20), staked_amount: stake },
        protocol_state: counters(1, 0),
        authority: key(20),
    }
}

#[test]
fn initialize_creates_zeroed_counters() {
    let mut ctx = Initialize { protocol_state: None, authority: key(1) };
    assert_eq!(initialize(&mut ctx), Ok(()));
    assert_eq!(
        ctx.protocol_state,
        Some(ProtocolState { authority: key(1), total_agents: 0, total_ratings: 0 })
    );
    assert_eq!(ctx.authority, key(1));
    assert_eq!(ProtocolState::new(key(1)), ctx.protocol_state.unwrap());
}

#[test]
fn initialize_twice_is_rejected() {
    let mut ctx = Initialize { protocol_state: None, authority: key(1) };
    assert_eq!(initialize(&mut ctx), Ok(()));
    ctx.protocol_state.as_mut().unwrap().total_agents = 3;
    let before = ctx;
    assert_eq!(initialize(&mut ctx), Err(AvellumError::AlreadyInitialized));
    assert_eq!(ctx, before);
}

#[test]
fn register_agent_creates_zeroed_record() {
    let mut ctx = RegisterAgent { agent: None, protocol_state: counters(0, 0) };
    assert_eq!(register_agent(&mut ctx, key(10)), Ok(()));
    assert_eq!(
        ctx.agent,
        Some(Agent {
            address: key(10),
            trust_score: 0,
            total_weight: 0,
            rating_count: 0,
            confidence: 0
        })
    );
    assert_eq!(ctx.protocol_state, counters(1, 0));
    assert_eq!(Agent::new(key(10)), ctx.agent.unwrap());
    assert!(ctx.agent.unwrap().is_well_formed());
}

#[test]
fn register_agent_counts_every_agent() {
    let mut state = counters(0, 7);
    for tag in 0..5u8 {
        let mut ctx = RegisterAgent { agent: None, protocol_state: state };
        assert_eq!(register_agent(&mut ctx, key(tag)), Ok(()));
        assert_eq!(ctx.agent.unwrap().address, key(tag));
        state = ctx.protocol_state;
        assert_eq!(state.total_agents, tag as u32 + 1);
        assert_eq!(state.total_ratings, 7);
        assert_eq!(state.authority, key(1));
    }
}

#[test]
fn register_agent_twice_is_rejected_and_keeps_the_record() {
    let rated = agent(70, 300, 6, 1);
    let mut ctx = RegisterAgent { agent: Some(rated), protocol_state: counters(4, 9) };
    assert_eq!(register_agent(&mut ctx, key(10)), Err(AvellumError::DuplicateRegistration));
    assert_eq!(ctx.agent, Some(rated));
    assert_eq!(ctx.protocol_state, counters(4, 9));
}

#[test]
fn register_agent_fails_on_counter_overflow() {
    let mut ctx = RegisterAgent { agent: None, protocol_state: counters(u32::MAX, 3) };
    assert_eq!(register_agent(&mut ctx, key(10)), Err(AvellumError::ArithmeticOverflow));
    assert_eq!(ctx.agent, None);
    assert_eq!(ctx.protocol_state, counters(u32::MAX, 3));

    let mut last = RegisterAgent { agent: None, protocol_state: counters(u32::MAX - 1, 3) };
    assert_eq!(register_agent(&mut last, key(10)), Ok(()));
    assert_eq!(last.protocol_state.total_agents, u32::MAX);
}

#[test]
fn register_agent_reports_duplicate_before_overflow() {
    let existing = agent(0, 0, 0, 0);
    let mut ctx = RegisterAgent { agent: Some(existing), protocol_state: counters(u32::MAX, 0) };
    assert_eq!(register_agent(&mut ctx, key(10)), Err(AvellumError::DuplicateRegistration));
}

#[test]
fn stake_init_creates_stake_record() {
    let mut ctx = StakeInit { verifier: None, authority: key(20) };
    assert_eq!(stake_init(&mut ctx, 100), Ok(()));
    assert_eq!(ctx.verifier, Some(Verifier { owner: key(20), staked_amount: 100 }));
    assert_eq!(ctx.authority, key(20));
    assert!(ctx.verifier.unwrap().is_well_formed());
}

#[test]
fn stake_init_accepts_the_extremes() {
    let mut least = StakeInit { verifier: None, authority: key(20) };
    assert_eq!(stake_init(&mut least, 1), Ok(()));
    assert_eq!(least.verifier.unwrap().staked_amount, 1);
    let mut most = StakeInit { verifier: None, authority: key(20) };
    assert_eq!(stake_init(&mut most, u64::MAX), Ok(()));
    assert_eq!(most.verifier.unwrap().staked_amount, u64::MAX);
}

#[test]
fn stake_init_rejects_zero() {
    let mut ctx = StakeInit { verifier: None, authority: key(20) };
    assert_eq!(stake_init(&mut ctx, 0), Err(AvellumError::InvalidStakeAmount));
    assert_eq!(ctx, StakeInit { verifier: None, authority: key(20) });
}

#[test]
fn stake_init_twice_is_rejected() {
    let held = Verifier { owner: key(20), staked_amount: 100 };
    let mut ctx = StakeInit { verifier: Some(held), authority: key(20) };
    assert_eq!(stake_init(&mut ctx, 50), Err(AvellumError::DuplicateStakeAccount));
    assert_eq!(ctx.verifier, Some(held));
    assert_eq!(stake_init(&mut ctx, 0), Err(AvellumError::DuplicateStakeAccount));
    assert_eq!(ctx.verifier, Some(held));
}

#[test]
fn stake_add_increments_stake() {
    let mut ctx = StakeAdd { verifier: Verifier { owner: key(20), staked_amount: 100 } };
    assert_eq!(stake_add(&mut ctx, 100), Ok(()));
    assert_eq!(ctx.verifier, Verifier { owner: key(20), staked_amount: 200 });
    assert_eq!(stake_add(&mut ctx, 1), Ok(()));
    assert_eq!(ctx.verifier.staked_amount, 201);
    assert!(ctx.verifier.is_well_formed());
}

#[test]
fn stake_add_rejects_zero() {
    let mut ctx = StakeAdd { verifier: Verifier { owner: key(20), staked_amount: 100 } };
    assert_eq!(stake_add(&mut ctx, 0), Err(AvellumError::InvalidStakeAmount));
    assert_eq!(ctx.verifier, Verifier { owner: key(20), staked_amount: 100 });
}

#[test]
fn stake_add_fails_on_overflow() {
    let mut ctx = StakeAdd { verifier: Verifier { owner: key(20), staked_amount: u64::MAX - 5 } };
    assert_eq!(stake_add(&mut ctx, 6), Err(AvellumError::ArithmeticOverflow));
    assert_eq!(ctx.verifier.staked_amount, u64::MAX - 5);
    assert_eq!(stake_add(&mut ctx, u64::MAX), Err(AvellumError::ArithmeticOverflow));
    assert_eq!(ctx.verifier.staked_amount, u64::MAX - 5);
    assert_eq!(stake_add(&mut ctx, 5), Ok(()));
    assert_eq!(ctx.verifier.staked_amount, u64::MAX);
    assert_eq!(stake_add(&mut ctx, 1), Err(AvellumError::ArithmeticOverflow));
    assert_eq!(ctx.verifier.staked_amount, u64::MAX);
}

#[test]
fn first_rating_sets_score_and_weight_exactly() {
    for &(score, stake) in &[(0u8, 1u64), (80, 100), (100, 1), (37, 123_456_789), (100, u64::MAX)] {
        let mut ctx = rating_of(agent(0, 0, 0, 0), stake);
        assert_eq!(rate_agent_at(&mut ctx, score, 1_700_000_000), Ok(()));
        assert_eq!(ctx.agent.trust_score, score as u64);
        assert_eq!(ctx.agent.total_weight, stake);
        assert_eq!(ctx.agent.rating_count, 1);
        assert_eq!(ctx.agent.confidence, 0);
        assert_eq!(ctx.agent.address, key(10));
    }
}

#[test]
fn rating_writes_the_receipt() {
    let mut ctx = rating_of(agent(80, 100, 1, 0), 250);
    assert_eq!(rate_agent_at(&mut ctx, 40, 1_700_000_123), Ok(()));
    assert_eq!(
        ctx.rating,
        Some(Rating {
            rater: key(20),
            agent: key(10),
            score: 40,
            weight: 250,
            timestamp: 1_700_000_123
        })
    );
    assert!(ctx.rating.unwrap().is_well_formed());
    assert_eq!(ctx.verifier, Verifier { owner: key(20), staked_amount: 250 });
    assert_eq!(ctx.authority, key(20));
}

#[test]
fn rating_keeps_negative_timestamps() {
    let mut ctx = rating_of(agent(0, 0, 0, 0), 5);
    assert_eq!(rate_agent_at(&mut ctx, 9, -1), Ok(()));
    assert_eq!(ctx.rating.unwrap().timestamp, -1);
    let mut early = rating_of(agent(0, 0, 0, 0), 5);
    assert_eq!(rate_agent_at(&mut early, 9, i64::MIN), Ok(()));
    assert_eq!(early.rating.unwrap().timestamp, i64::MIN);
}

#[test]
fn rating_updates_every_field_together() {
    let mut ctx = rating_of(agent(80, 100, 1, 0), 100);
    ctx.protocol_state = counters(3, 41);
    assert_eq!(rate_agent_at(&mut ctx, 40, 5), Ok(()));
    assert_eq!(ctx.agent, agent(60, 200, 2, 0));
    assert_eq!(ctx.protocol_state, counters(3, 42));
    assert!(ctx.rating.is_some());
}

#[test]
fn rating_rejects_score_above_hundred() {
    let mut ctx = rating_of(agent(80, 100, 1, 0), 100);
    let before = ctx;
    assert_eq!(rate_agent_at(&mut ctx, 101, 5), Err(AvellumError::InvalidScore));
    assert_eq!(ctx, before);
    assert_eq!(rate_agent_at(&mut ctx, 255, 5), Err(AvellumError::InvalidScore));
    assert_eq!(ctx, before);
    assert_eq!(rate_agent_at(&mut ctx, 100, 5), Ok(()));
    assert_eq!(ctx.agent.trust_score, 90);
}

#[test]
fn zero_stake_rating_is_rejected_and_changes_nothing() {
    let mut ctx = rating_of(agent(80, 100, 1, 0), 0);
    ctx.protocol_state = counters(1, 1);
    assert_eq!(rate_agent_at(&mut ctx, 40, 5), Err(AvellumError::NoStake));
    assert_eq!(ctx.rating, None);
    assert_eq!(ctx.agent, agent(80, 100, 1, 0));
    assert_eq!(ctx.protocol_state, counters(1, 1));
    assert!(!ctx.verifier.is_well_formed());
}

#[test]
fn zero_stake_rating_of_fresh_agent_is_rejected() {
    let mut ctx = rating_of(agent(0, 0, 0, 0), 0);
    assert_eq!(rate_agent_at(&mut ctx, 0, 5), Err(AvellumError::NoStake));
    assert_eq!(ctx, rating_of(agent(0, 0, 0, 0), 0));
}

#[test]
fn overflowing_weight_is_rejected_and_changes_nothing() {
    let mut ctx = rating_of(agent(50, u64::MAX - 10, 3, 0), 11);
    ctx.protocol_state = counters(1, 3);
    let before = ctx;
    assert_eq!(rate_agent_at(&mut ctx, 60, 5), Err(AvellumError::ArithmeticOverflow));
    assert_eq!(ctx, before);
    assert_eq!(ctx.agent.trust_score, 50);
    assert_eq!(ctx.agent.total_weight, u64::MAX - 10);
    assert_eq!(ctx.agent.rating_count, 3);
    assert_eq!(ctx.agent.confidence, 0);
    assert_eq!(ctx.rating, None);
    assert_eq!(ctx.protocol_state.total_ratings, 3);
}

#[test]
fn weight_may_reach_the_limit_but_not_pass_it() {
    let mut ctx = rating_of(agent(50, u64::MAX - 10, 3, 0), 10);
    assert_eq!(rate_agent_at(&mut ctx, 60, 5), Ok(()));
    assert_eq!(ctx.agent.total_weight, u64::MAX);
    assert_eq!(ctx.agent.trust_score, 50);
    let mut full = rating_of(ctx.agent, 1);
    let before = full;
    assert_eq!(rate_agent_at(&mut full, 60, 6), Err(AvellumError::ArithmeticOverflow));
    assert_eq!(full, before);
}

#[test]
fn rating_count_overflow_is_rejected() {
    let mut ctx = rating_of(agent(50, 1 << 40, u32::MAX, 2), 10);
    let before = ctx;
    assert_eq!(rate_agent_at(&mut ctx, 60, 5), Err(AvellumError::ArithmeticOverflow));
    assert_eq!(ctx, before);
    let mut last = rating_of(agent(50, 1 << 40, u32::MAX - 1, 2), 10);
    assert_eq!(rate_agent_at(&mut last, 60, 5), Ok(()));
    assert_eq!(last.agent.rating_count, u32::MAX);
    assert_eq!(last.agent.confidence, 2);
}

#[test]
fn total_ratings_overflow_is_rejected() {
    let mut ctx = rating_of(agent(80, 100, 1, 0), 100);
    ctx.protocol_state = counters(1, u64::MAX);
    let before = ctx;
    assert_eq!(rate_agent_at(&mut ctx, 40, 5), Err(AvellumError::ArithmeticOverflow));
    assert_eq!(ctx, before);
    ctx.protocol_state = counters(1, u64::MAX - 1);
    assert_eq!(rate_agent_at(&mut ctx, 40, 5), Ok(()));
    assert_eq!(ctx.protocol_state.total_ratings, u64::MAX);
}

#[test]
fn second_rating_by_same_rater_is_rejected() {
    let mut ctx = rating_of(agent(0, 0, 0, 0), 100);
    assert_eq!(rate_agent_at(&mut ctx, 80, 5), Ok(()));
    let before = ctx;
    assert_eq!(rate_agent_at(&mut ctx, 40, 6), Err(AvellumError::DuplicateRating));
    assert_eq!(ctx, before);
    assert_eq!(ctx.rating.unwrap().score, 80);
    assert_eq!(ctx.rating.unwrap().timestamp, 5);
}

#[test]
fn rating_errors_come_in_a_fixed_order() {
    let receipt = Rating { rater: key(20), agent: key(10), score: 1, weight: 1, timestamp: 0 };

    let mut ctx = rating_of(agent(50, u64::MAX, u32::MAX, 2), 0);
    ctx.protocol_state = counters(1, u64::MAX);
    ctx.rating = Some(receipt);
    assert_eq!(rate_agent_at(&mut ctx, 101, 5), Err(AvellumError::DuplicateRating));

    ctx.rating = None;
    assert_eq!(rate_agent_at(&mut ctx, 101, 5), Err(AvellumError::InvalidScore));
    assert_eq!(rate_agent_at(&mut ctx, 100, 5), Err(AvellumError::NoStake));

    ctx.verifier.staked_amount = 1;
    assert_eq!(rate_agent_at(&mut ctx, 100, 5), Err(AvellumError::ArithmeticOverflow));
}

#[test]
fn assess_decides_without_changing_anything() {
    let ctx = rating_of(agent(80, 100, 1, 0), 100);
    assert_eq!(ctx.assess(40), Ok(agent(60, 200, 2, 0)));
    assert_eq!(ctx.assess(101), Err(AvellumError::InvalidScore));
    assert_eq!(ctx, rating_of(agent(80, 100, 1, 0), 100));
    let broke = rating_of(agent(80, 100, 1, 0), 0);
    assert_eq!(broke.assess(40), Err(AvellumError::NoStake));
}

#[test]
fn rate_agent_reports_rejections_before_asking_the_clock() {
    let mut ctx = rating_of(agent(80, 100, 1, 0), 100);
    let before = ctx;
    assert_eq!(rate_agent(&mut ctx, 101), Err(AvellumError::InvalidScore));
    assert_eq!(ctx, before);

    let mut broke = rating_of(agent(80, 100, 1, 0), 0);
    assert_eq!(rate_agent(&mut broke, 40), Err(AvellumError::NoStake));
    assert_eq!(broke, rating_of(agent(80, 100, 1, 0), 0));

    let mut full = rating_of(agent(80, u64::MAX, 1, 0), 1);
    assert_eq!(rate_agent(&mut full, 40), Err(AvellumError::ArithmeticOverflow));
    assert_eq!(full, rating_of(agent(80, u64::MAX, 1, 0), 1));
}

#[test]
fn rate_agent_takes_the_rating_or_reports_the_clock() {
    let mut ctx = rating_of(agent(80, 100, 1, 0), 100);
    let before = ctx;
    match rate_agent(&mut ctx, 40) {
        Ok(()) => {
            let receipt = ctx.rating.unwrap();
            assert_eq!(ctx.agent, agent(60, 200, 2, 0));
            assert_eq!(receipt.score, 40);
            assert_eq!(receipt.weight, 100);
            assert_eq!(ctx.protocol_state.total_ratings, before.protocol_state.total_ratings + 1);
        }
        Err(reason) => {
            assert_eq!(reason, AvellumError::ClockUnavailable);
            assert_eq!(ctx, before);
        }
    }
}

#[test]
fn rate_agent_without_a_cluster_clock_changes_nothing() {
    // Outside a cluster no clock answers, so a valid rating is turned down.
    let mut ctx = rating_of(agent(0, 0, 0, 0), 100);
    assert_eq!(rate_agent(&mut ctx, 80), Err(AvellumError::ClockUnavailable));
    assert_eq!(ctx, rating_of(agent(0, 0, 0, 0), 100));
}
