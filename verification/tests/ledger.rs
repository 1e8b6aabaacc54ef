use dgenerate::constants::{game_authority_seed, GAME_STATE_SPACE, HALVING_THRESHOLD, INITIAL_REWARD};
use dgenerate::engine::reward_with_authority;
use dgenerate::{initialize, ErrorCode, GameState, Initialize, Pubkey, RewardUser, UpdateReward};

fn key(byte: u8) -> Pubkey {
    Pubkey::new_from_array([byte; 32])
}

fn accounts(total_minted: u64, current_reward: u64, halving_threshold: u64) -> RewardUser {
    RewardUser {
        game_state: GameState {
            token_mint: key(1),
            total_minted,
            current_reward,
            halving_threshold,
            authority: key(2),
        },
        game_authority: key(3),
        recipient_token_account: key(4),
    }
}

fn derived() -> Option<(Pubkey, u8)> {
    Some((key(3), 254))
}

#[test]
fn constants_have_their_values() {
    assert_eq!(INITIAL_REWARD, 10_000);
    assert_eq!(HALVING_THRESHOLD, 10_000_000_000);
    assert_eq!(GAME_STATE_SPACE, 8 + 32 + 8 + 8 + 8 + 32);
    assert_eq!(game_authority_seed(), b"game_authority".to_vec());
}

#[test]
fn new_ledger_starts_the_schedule() {
    let state = GameState::new(key(1), key(2));
    assert_eq!(state.token_mint, key(1));
    assert_eq!(state.total_minted, 0);
    assert_eq!(state.current_reward, 10_000);
    assert_eq!(state.halving_threshold, 10_000_000_000);
    assert_eq!(state.authority, key(2));
}

#[test]
fn with_schedule_takes_the_parameters() {
    let state = GameState::with_schedule(key(1), key(2), 64, 1_000);
    assert_eq!(state.total_minted, 0);
    assert_eq!(state.current_reward, 64);
    assert_eq!(state.halving_threshold, 1_000);
}

#[test]
fn initialize_fills_an_empty_slot() {
    let mut ctx = Initialize { game_state: None, token_mint: key(7), authority: key(8) };
    assert_eq!(initialize(&mut ctx), Ok(()));
    assert_eq!(
        ctx.game_state,
        Some(GameState {
            token_mint: key(7),
            total_minted: 0,
            current_reward: 10_000,
            halving_threshold: 10_000_000_000,
            authority: key(8),
        })
    );
    assert_eq!(ctx.token_mint, key(7));
    assert_eq!(ctx.authority, key(8));
}

#[test]
fn initialize_twice_fails_and_keeps_the_ledger() {
    let mut ctx = Initialize { game_state: None, token_mint: key(7), authority: key(8) };
    assert_eq!(initialize(&mut ctx), Ok(()));
    let first = ctx;
    ctx.token_mint = key(9);
    ctx.authority = key(10);
    let before = ctx;
    assert_eq!(initialize(&mut ctx), Err(ErrorCode::AlreadyInitialized));
    assert_eq!(ctx, before);
    assert_eq!(ctx.game_state, first.game_state);
}

#[test]
fn single_application_halving() {
    let mut ctx = accounts(9_999_999_999, 10_000, 10_000_000_000);
    let request = reward_with_authority(&mut ctx, derived()).unwrap();
    assert_eq!(ctx.game_state.total_minted, 9_999);
    assert_eq!(ctx.game_state.current_reward, 5_000);
    assert_eq!(ctx.game_state.halving_threshold, 10_000_000_000);
    assert_eq!(request.amount, 10_000);
}

#[test]
fn no_halve_path() {
    let mut ctx = accounts(0, 10_000, 10_000_000_000);
    let request = reward_with_authority(&mut ctx, derived()).unwrap();
    assert_eq!(ctx.game_state.total_minted, 10_000);
    assert_eq!(ctx.game_state.current_reward, 10_000);
    assert_eq!(request.amount, 10_000);
}

#[test]
fn reaching_the_threshold_exactly_halves() {
    let mut ctx = accounts(90, 10, 100);
    reward_with_authority(&mut ctx, derived()).unwrap();
    assert_eq!(ctx.game_state.total_minted, 0);
    assert_eq!(ctx.game_state.current_reward, 5);
}

#[test]
fn odd_reward_halves_downwards() {
    let mut ctx = accounts(99, 7, 100);
    reward_with_authority(&mut ctx, derived()).unwrap();
    assert_eq!(ctx.game_state.total_minted, 6);
    assert_eq!(ctx.game_state.current_reward, 3);
}

#[test]
fn reward_above_threshold_is_halved_once() {
    let mut ctx = accounts(0, 25, 10);
    let request = reward_with_authority(&mut ctx, derived()).unwrap();
    assert_eq!(request.amount, 25);
    assert_eq!(ctx.game_state.total_minted, 15);
    assert_eq!(ctx.game_state.current_reward, 12);
}

#[test]
fn overflow_fails_and_changes_nothing() {
    let mut ctx = accounts(u64::MAX - 5, 10, u64::MAX);
    let before = ctx;
    assert_eq!(reward_with_authority(&mut ctx, derived()), Err(ErrorCode::CalculationOverflow));
    assert_eq!(ctx, before);
}

#[test]
fn largest_sum_that_fits_succeeds() {
    let mut ctx = accounts(u64::MAX - 10, 10, u64::MAX);
    reward_with_authority(&mut ctx, derived()).unwrap();
    assert_eq!(ctx.game_state.total_minted, 0);
    assert_eq!(ctx.game_state.current_reward, 5);
}

#[test]
fn advance_counts_without_accounts() {
    let mut state = GameState::with_schedule(key(1), key(2), 6, 10);
    assert_eq!(state.advance(), Ok(6));
    assert_eq!((state.total_minted, state.current_reward), (6, 6));
    assert_eq!(state.advance(), Ok(6));
    assert_eq!((state.total_minted, state.current_reward), (2, 3));
    assert_eq!(state.advance(), Ok(3));
    assert_eq!((state.total_minted, state.current_reward), (5, 3));
    let mut full = GameState::with_schedule(key(1), key(2), 1, 10);
    full.total_minted = u64::MAX;
    let before = full;
    assert_eq!(full.advance(), Err(ErrorCode::CalculationOverflow));
    assert_eq!(full, before);
}

#[test]
fn counter_stays_below_threshold_plus_reward() {
    let mut ctx = accounts(150, 40, 100);
    reward_with_authority(&mut ctx, derived()).unwrap();
    assert_eq!(ctx.game_state.total_minted, 90);
    assert!(ctx.game_state.total_minted < 100 + 40);
}

#[test]
fn reward_never_rises_over_many_calls() {
    let mut ctx = accounts(0, 1_000, 4_500);
    let mut last: u64 = ctx.game_state.current_reward;
    let mut halvings: u32 = 0;
    for _ in 0..200 {
        let before = ctx.game_state;
        let request = reward_with_authority(&mut ctx, derived()).unwrap();
        assert_eq!(request.amount, before.current_reward);
        let crossed = before.total_minted + before.current_reward >= before.halving_threshold;
        if crossed {
            assert_eq!(ctx.game_state.current_reward, before.current_reward / 2);
            halvings += 1;
        } else {
            assert_eq!(ctx.game_state.current_reward, before.current_reward);
        }
        assert!(ctx.game_state.current_reward <= last);
        assert!(ctx.game_state.total_minted < ctx.game_state.halving_threshold);
        last = ctx.game_state.current_reward;
    }
    assert!(halvings >= 1);
    assert!(last < 1_000);
}

#[test]
fn mint_request_carries_the_reward_before_the_call() {
    let mut ctx = accounts(9_999, 8, 10_000);
    let request = reward_with_authority(&mut ctx, Some((key(3), 17))).unwrap();
    assert_eq!(request.amount, 8);
    assert_eq!(request.mint, key(1));
    assert_eq!(request.to, key(4));
    assert_eq!(request.authority, key(3));
    assert_eq!(request.bump, 17);
    assert_eq!(ctx.game_state.current_reward, 4);
    assert_eq!(request.signer_seeds(), vec![b"game_authority".to_vec(), vec![17u8]]);
}

#[test]
fn another_authority_is_refused_without_change() {
    let mut ctx = accounts(0, 10_000, 10_000_000_000);
    let before = ctx;
    assert_eq!(
        reward_with_authority(&mut ctx, Some((key(5), 254))),
        Err(ErrorCode::MintAuthorityInvalid)
    );
    assert_eq!(ctx, before);
    assert_eq!(reward_with_authority(&mut ctx, None), Err(ErrorCode::MintAuthorityInvalid));
    assert_eq!(ctx, before);
}

#[test]
fn authority_is_checked_before_the_counters() {
    let mut ctx = accounts(u64::MAX, 1, u64::MAX);
    assert_eq!(
        reward_with_authority(&mut ctx, Some((key(5), 1))),
        Err(ErrorCode::MintAuthorityInvalid)
    );
}

#[test]
fn update_reward_wants_the_recorded_authority() {
    let state = GameState::new(key(1), key(2));
    let by_authority = UpdateReward { game_state: state, authority: key(2) };
    assert_eq!(by_authority.validate(), Ok(()));
    let by_stranger = UpdateReward { game_state: state, authority: key(3) };
    assert_eq!(by_stranger.validate(), Err(ErrorCode::Unauthorized));
}

#[test]
fn keys_compare_by_their_bytes() {
    let mut bytes = [9u8; 32];
    assert!(Pubkey::new_from_array(bytes).same(&key(9)));
    bytes[31] = 8;
    assert!(!Pubkey::new_from_array(bytes).same(&key(9)));
    assert_eq!(Pubkey::new_from_array(bytes).to_bytes(), bytes);
}

#[test]
fn errors_have_their_messages() {
    assert_eq!(ErrorCode::CalculationOverflow.message(), "Calculation overflow occurred");
    assert_eq!(ErrorCode::InvalidApiResponse.message(), "Invalid API response");
    assert_eq!(ErrorCode::Unauthorized.message(), "Unauthorized access");
    assert_eq!(ErrorCode::AlreadyInitialized.message(), "Ledger already initialized");
    assert_eq!(ErrorCode::MintAuthorityInvalid.message(), "Mint authority invalid");
}

#[test]
fn initialize_with_schedule_takes_the_parameters() {
    let mut ctx = Initialize { game_state: None, token_mint: key(7), authority: key(8) };
    assert_eq!(dgenerate::initialize_with_schedule(&mut ctx, 64, 1_000), Ok(()));
    assert_eq!(
        ctx.game_state,
        Some(GameState {
            token_mint: key(7),
            total_minted: 0,
            current_reward: 64,
            halving_threshold: 1_000,
            authority: key(8),
        })
    );
    let before = ctx;
    assert_eq!(
        dgenerate::initialize_with_schedule(&mut ctx, 1, 2),
        Err(ErrorCode::AlreadyInitialized)
    );
    assert_eq!(ctx, before);
}
