use payroll::admin::{
    check_admin_rate_limit, initialize_security_config, process_add_to_blacklist,
    process_cancel_admin_transfer, process_complete_admin_transfer, process_initiate_admin_transfer,
    process_pause_platform, process_pause_raffle, process_remove_from_blacklist,
    process_unpause_platform, process_unpause_raffle, process_update_platform_fee,
    process_update_security_config,
};
use payroll::lifecycle::{create_raffle, initialize, initialize_security};
use payroll::security::{require_not_rate_limited, require_ticket_limit};
use payroll::state::{BlacklistEntry, SecurityConfig, UserStats};
use payroll::{PayrollError, Pubkey};

const T0: i64 = 1_000;

fn key(n: u64) -> Pubkey {
    Pubkey { w0: n, w1: n, w2: 0, w3: 0 }
}

fn zero_config() -> SecurityConfig {
    SecurityConfig {
        rate_limit_seconds: 0,
        rate_limiting_enabled: false,
        blacklist_enabled: false,
        vrf_required: false,
        min_block_confirmations: 0,
        max_tickets_per_wallet: 0,
        last_updated: 0,
        updated_by: key(0),
        bump: 0,
    }
}

#[test]
fn transfer_completes_exactly_at_the_timelock() {
    let mut p = initialize(&key(1), T0, 0);
    process_initiate_admin_transfer(&mut p, &key(1), key(2), T0).unwrap();
    assert!(p.has_pending_transfer());
    assert_eq!(p.admin_transfer_initiated_at, T0);
    assert_eq!(process_complete_admin_transfer(&mut p, &key(2), T0 + 86_399), Err(PayrollError::TimelockNotExpired));
    assert_eq!(p.admin, key(1));
    assert!(!p.can_complete_transfer(T0 + 86_399, 86_400));
    assert!(p.can_complete_transfer(T0 + 86_400, 86_400));
    assert_eq!(process_complete_admin_transfer(&mut p, &key(2), T0 + 86_400), Ok(()));
    assert_eq!(p.admin, key(2));
    assert_eq!(p.pending_admin, None);
    assert_eq!(p.admin_transfer_initiated_at, 0);
}

#[test]
fn transfer_after_the_timelock_succeeds() {
    let mut p = initialize(&key(1), T0, 0);
    process_initiate_admin_transfer(&mut p, &key(1), key(2), T0).unwrap();
    assert_eq!(process_complete_admin_transfer(&mut p, &key(2), T0 + 200_000), Ok(()));
    assert_eq!(p.admin, key(2));
}

#[test]
fn transfer_errors() {
    let mut p = initialize(&key(1), T0, 0);
    assert_eq!(process_initiate_admin_transfer(&mut p, &key(3), key(2), T0), Err(PayrollError::Unauthorized));
    assert_eq!(process_initiate_admin_transfer(&mut p, &key(1), key(1), T0), Err(PayrollError::InvalidPendingAdmin));
    assert_eq!(process_initiate_admin_transfer(&mut p, &key(1), key(2), 0), Err(PayrollError::InvalidTimestamp));
    assert_eq!(process_cancel_admin_transfer(&mut p, &key(1), T0), Err(PayrollError::AdminTransferNotInitiated));
    assert_eq!(process_complete_admin_transfer(&mut p, &key(2), T0 + 100_000), Err(PayrollError::InvalidPendingAdmin));
    process_initiate_admin_transfer(&mut p, &key(1), key(2), T0).unwrap();
    assert_eq!(process_complete_admin_transfer(&mut p, &key(3), T0 + 100_000), Err(PayrollError::InvalidPendingAdmin));
    assert_eq!(process_cancel_admin_transfer(&mut p, &key(2), T0), Err(PayrollError::Unauthorized));
    assert_eq!(process_cancel_admin_transfer(&mut p, &key(1), T0), Ok(()));
    assert!(!p.has_pending_transfer());
    assert_eq!(p.admin_transfer_initiated_at, 0);
}

#[test]
fn pause_and_unpause_platform() {
    let mut p = initialize(&key(1), T0, 0);
    assert_eq!(process_pause_platform(&mut p, &key(2), T0), Err(PayrollError::Unauthorized));
    assert_eq!(process_unpause_platform(&mut p, &key(1), T0), Err(PayrollError::RaffleNotPaused));
    assert_eq!(process_pause_platform(&mut p, &key(1), T0 + 5), Ok(()));
    assert!(p.is_paused);
    assert_eq!(p.last_paused_at, T0 + 5);
    assert_eq!(p.paused_by, Some(key(1)));
    assert_eq!(process_pause_platform(&mut p, &key(1), T0 + 6), Err(PayrollError::RaffleAlreadyPaused));
    assert_eq!(process_unpause_platform(&mut p, &key(1), T0 + 7), Ok(()));
    assert!(!p.is_paused);
    assert_eq!(p.paused_by, None);
    assert_eq!(p.last_paused_at, T0 + 5);
}

#[test]
fn pause_and_unpause_raffle() {
    let mut p = initialize(&key(1), T0, 0);
    let mut r = create_raffle(&mut p, &key(1), 4, 100_000_000, 1_000_000, 10, 0, T0 + 3600, false, T0, 0, 0).unwrap();
    assert_eq!(process_unpause_raffle(&p, &mut r, &key(1), T0), Err(PayrollError::RaffleNotPaused));
    assert_eq!(process_pause_raffle(&p, &mut r, &key(2), T0), Err(PayrollError::Unauthorized));
    assert_eq!(process_pause_raffle(&p, &mut r, &key(1), T0), Ok(()));
    assert!(r.is_paused);
    assert_eq!(process_pause_raffle(&p, &mut r, &key(1), T0), Err(PayrollError::RaffleAlreadyPaused));
    assert_eq!(process_unpause_raffle(&p, &mut r, &key(1), T0), Ok(()));
    r.is_drawn = true;
    assert_eq!(process_pause_raffle(&p, &mut r, &key(1), T0), Err(PayrollError::RaffleAlreadyDrawn));
}

#[test]
fn blacklist_add_and_remove() {
    let mut p = initialize(&key(1), T0, 0);
    let mut e = BlacklistEntry {
        wallet: key(0),
        blacklisted_at: 0,
        blacklisted_by: key(0),
        reason: 0,
        is_active: false,
        bump: 0,
    };
    assert_eq!(process_remove_from_blacklist(&mut p, &mut e, &key(1), T0), Err(PayrollError::WalletBlacklisted));
    assert_eq!(process_add_to_blacklist(&mut p, &mut e, &key(2), key(9), 1, T0, 4), Err(PayrollError::Unauthorized));
    process_add_to_blacklist(&mut p, &mut e, &key(1), key(9), 3, T0 + 1, 4).unwrap();
    assert_eq!(e, BlacklistEntry { wallet: key(9), blacklisted_at: T0 + 1, blacklisted_by: key(1), reason: 3, is_active: true, bump: 4 });
    assert_eq!(p.blacklist_count, 1);
    process_remove_from_blacklist(&mut p, &mut e, &key(1), T0 + 2).unwrap();
    assert!(!e.is_active);
    assert_eq!(e.wallet, key(9));
    assert_eq!(p.blacklist_count, 0);
    process_add_to_blacklist(&mut p, &mut e, &key(1), key(9), 1, T0 + 3, 4).unwrap();
    p.blacklist_count = 0;
    process_remove_from_blacklist(&mut p, &mut e, &key(1), T0 + 4).unwrap();
    assert_eq!(p.blacklist_count, 0);
    p.blacklist_count = u32::MAX;
    assert_eq!(process_add_to_blacklist(&mut p, &mut e, &key(1), key(9), 1, T0, 4), Err(PayrollError::MathOverflow));
}

#[test]
fn fee_update_is_capped() {
    let mut p = initialize(&key(1), T0, 0);
    assert_eq!(p.fee_bps, 300);
    assert_eq!(process_update_platform_fee(&mut p, &key(1), 1001), Err(PayrollError::PrizeAmountExceedsMax));
    assert_eq!(process_update_platform_fee(&mut p, &key(2), 10), Err(PayrollError::Unauthorized));
    assert_eq!(process_update_platform_fee(&mut p, &key(1), 1000), Ok(()));
    assert_eq!(p.fee_bps, 1000);
}

#[test]
fn security_config_defaults_and_patch() {
    let p = initialize(&key(1), T0, 0);
    let mut c = zero_config();
    assert_eq!(initialize_security(&p, &mut c, &key(2), T0, 5), Err(PayrollError::Unauthorized));
    assert_eq!(c, zero_config());
    assert_eq!(initialize_security(&p, &mut c, &key(1), T0, 5), Ok(()));
    assert_eq!(c.rate_limit_seconds, 30);
    assert!(c.rate_limiting_enabled && c.blacklist_enabled && !c.vrf_required);
    assert_eq!(c.min_block_confirmations, 32);
    assert_eq!(c.max_tickets_per_wallet, 100);
    assert_eq!(c.bump, 5);
    let before = c;
    assert_eq!(
        process_update_security_config(&p, &mut c, &key(2), Some(1), None, None, None, None, None, T0),
        Err(PayrollError::Unauthorized)
    );
    assert_eq!(c, before);
    process_update_security_config(&p, &mut c, &key(1), Some(60), None, Some(false), Some(true), None, Some(7), T0 + 9).unwrap();
    assert_eq!(c.rate_limit_seconds, 60);
    assert!(c.rate_limiting_enabled);
    assert!(!c.blacklist_enabled);
    assert!(c.vrf_required);
    assert_eq!(c.min_block_confirmations, 32);
    assert_eq!(c.max_tickets_per_wallet, 7);
    assert_eq!(c.last_updated, T0 + 9);
    let mut d = zero_config();
    initialize_security_config(&mut d, &key(4), T0, 1).unwrap();
    assert_eq!(d.updated_by, key(4));
}

#[test]
fn admin_actions_are_throttled() {
    let mut p = initialize(&key(1), T0, 0);
    assert_eq!(check_admin_rate_limit(&mut p, T0 + 59), Err(PayrollError::RateLimitExceeded));
    assert_eq!(check_admin_rate_limit(&mut p, T0 + 60), Ok(()));
    assert_eq!(p.last_admin_action_at, T0 + 60);
    assert_eq!(check_admin_rate_limit(&mut p, T0 + 100), Err(PayrollError::RateLimitExceeded));
}

#[test]
fn rate_limit_window() {
    let mut s = UserStats {
        wallet: key(3),
        last_purchase_time: T0,
        total_tickets_bought: 0,
        total_spent: 0,
        total_wins: 0,
        total_winnings: 0,
        raffles_participated: 0,
        is_flagged: false,
        flagged_at: 0,
        flag_reason: 0,
        bump: 0,
    };
    let mut c = zero_config();
    c.rate_limit_seconds = 30;
    assert_eq!(require_not_rate_limited(&s, T0 + 1, &c), Ok(()));
    c.rate_limiting_enabled = true;
    assert_eq!(require_not_rate_limited(&s, T0 + 29, &c), Err(PayrollError::RateLimitExceeded));
    assert_eq!(require_not_rate_limited(&s, T0 + 30, &c), Ok(()));
    assert!(s.is_rate_limited(T0 + 10, 30));
    assert_eq!(s.rate_limit_remaining(T0 + 10, 30), 20);
    assert_eq!(s.rate_limit_remaining(T0 + 40, 30), 0);
    s.last_purchase_time = i64::MIN;
    assert!(!s.is_rate_limited(i64::MAX, 30));
}

#[test]
fn ticket_limit_rules() {
    assert_eq!(require_ticket_limit(u32::MAX, 5, 0), Ok(()));
    assert_eq!(require_ticket_limit(u32::MAX, 5, 10), Err(PayrollError::MathOverflow));
    assert_eq!(require_ticket_limit(8, 2, 10), Ok(()));
    assert_eq!(require_ticket_limit(8, 3, 10), Err(PayrollError::MaxTicketsPerWalletExceeded));
}

#[test]
fn transfer_may_start_at_a_negative_time() {
    let mut p = initialize(&key(1), T0, 0);
    assert_eq!(process_initiate_admin_transfer(&mut p, &key(1), key(2), -10), Ok(()));
    assert_eq!(p.admin_transfer_initiated_at, -10);
    assert_eq!(process_complete_admin_transfer(&mut p, &key(2), 86_389), Err(PayrollError::TimelockNotExpired));
    assert_eq!(process_complete_admin_transfer(&mut p, &key(2), 86_390), Ok(()));
}
