use vstd::prelude::*;

use crate::constants::{
    ADMIN_RATE_LIMIT_SECONDS, ADMIN_TIMELOCK_SECONDS, MAX_PLATFORM_FEE_BPS, MAX_TICKETS_PER_WALLET,
    MIN_BLOCK_CONFIRMATIONS, RATE_LIMIT_SECONDS,
};
use crate::errors::PayrollError;
use crate::identity::Pubkey;
use crate::security::require_admin;
use crate::state::{BlacklistEntry, Platform, Raffle, SecurityConfig};

verus! {

/// New platform state and result of `process_initiate_admin_transfer`.
pub open spec fn initiate_transfer_outcome(
    p: Platform,
    current_admin: Pubkey,
    new_admin: Pubkey,
    current_time: i64,
) -> (Platform, Result<(), PayrollError>) {
    if p.admin != current_admin {
        (p, Err(PayrollError::Unauthorized))
    } else if current_admin == new_admin {
        (p, Err(PayrollError::InvalidPendingAdmin))
    } else if current_time == 0 {
        (p, Err(PayrollError::InvalidTimestamp))
    } else {
        (
            Platform {
                pending_admin: Some(new_admin),
                admin_transfer_initiated_at: current_time,
                ..p
            },
            Ok(()),
        )
    }
}

/// First step of handing the admin role over: the admin names a successor,
/// and the time is recorded to start the timelock. A transfer to oneself
/// fails InvalidPendingAdmin; a time of 0, which would read as "no
/// transfer", fails InvalidTimestamp.
pub fn process_initiate_admin_transfer(
    platform: &mut Platform,
    current_admin: &Pubkey,
    new_admin: Pubkey,
    current_time: i64,
) -> (r: Result<(), PayrollError>)
    ensures
        (*final(platform), r) == initiate_transfer_outcome(
            *old(platform),
            *current_admin,
            new_admin,
            current_time,
        ),
        old(platform).wf() ==> final(platform).wf(),
{
    require_admin(platform, current_admin)?;
    if *current_admin == new_admin {
        return Err(PayrollError::InvalidPendingAdmin);
    }
    if current_time == 0 {
        return Err(PayrollError::InvalidTimestamp);
    }
    platform.pending_admin = Some(new_admin);
    platform.admin_transfer_initiated_at = current_time;
    Ok(())
}

/// New platform state and result of `process_complete_admin_transfer`.
pub open spec fn complete_transfer_outcome(p: Platform, new_admin: Pubkey, current_time: i64) -> (
    Platform,
    Result<(), PayrollError>,
) {
    if p.pending_admin != Some(new_admin) {
        (p, Err(PayrollError::InvalidPendingAdmin))
    } else if !p.transfer_unlocked(current_time, ADMIN_TIMELOCK_SECONDS) {
        (p, Err(PayrollError::TimelockNotExpired))
    } else {
        (
            Platform {
                admin: new_admin,
                pending_admin: None,
                admin_transfer_initiated_at: 0,
                ..p
            },
            Ok(()),
        )
    }
}

/// Second step: the named successor takes the admin role once the
/// timelock has run out.
pub fn process_complete_admin_transfer(
    platform: &mut Platform,
    new_admin: &Pubkey,
    current_time: i64,
) -> (r: Result<(), PayrollError>)
    ensures
        (*final(platform), r) == complete_transfer_outcome(*old(platform), *new_admin, current_time),
        old(platform).wf() ==> final(platform).wf(),
{
    if platform.pending_admin != Some(*new_admin) {
        return Err(PayrollError::InvalidPendingAdmin);
    }
    if !platform.can_complete_transfer(current_time, ADMIN_TIMELOCK_SECONDS) {
        return Err(PayrollError::TimelockNotExpired);
    }
    platform.admin = *new_admin;
    platform.pending_admin = None;
    platform.admin_transfer_initiated_at = 0;
    Ok(())
}

/// New platform state and result of `process_cancel_admin_transfer`.
pub open spec fn cancel_transfer_outcome(p: Platform, current_admin: Pubkey) -> (
    Platform,
    Result<(), PayrollError>,
) {
    if p.admin != current_admin {
        (p, Err(PayrollError::Unauthorized))
    } else if p.pending_admin.is_none() {
        (p, Err(PayrollError::AdminTransferNotInitiated))
    } else {
        (Platform { pending_admin: None, admin_transfer_initiated_at: 0, ..p }, Ok(()))
    }
}

/// The admin withdraws a transfer in progress.
pub fn process_cancel_admin_transfer(
    platform: &mut Platform,
    current_admin: &Pubkey,
    current_time: i64,
) -> (r: Result<(), PayrollError>)
    ensures
        (*final(platform), r) == cancel_transfer_outcome(*old(platform), *current_admin),
        old(platform).wf() ==> final(platform).wf(),
{
    require_admin(platform, current_admin)?;
    if platform.pending_admin.is_none() {
        return Err(PayrollError::AdminTransferNotInitiated);
    }
    platform.pending_admin = None;
    platform.admin_transfer_initiated_at = 0;
    Ok(())
}

/// Once started at a nonzero time, a transfer completes exactly when the
/// timelock has run out: a completion by the named successor before
/// `ADMIN_TIMELOCK_SECONDS` have passed fails TimelockNotExpired, and one
/// at or after that moment succeeds and hands over the admin role.
pub proof fn lemma_admin_transfer_timelock(
    p: Platform,
    admin: Pubkey,
    new_admin: Pubkey,
    started_at: i64,
    completed_at: i64,
)
    requires
        p.admin == admin,
        admin != new_admin,
        started_at != 0,
    ensures
        initiate_transfer_outcome(p, admin, new_admin, started_at).1 is Ok,
        ({
            let pending = initiate_transfer_outcome(p, admin, new_admin, started_at).0;
            let done = complete_transfer_outcome(pending, new_admin, completed_at);
            &&& completed_at - started_at < ADMIN_TIMELOCK_SECONDS ==> done.1 == Err::<
                (),
                PayrollError,
            >(PayrollError::TimelockNotExpired) && done.0 == pending
            &&& completed_at - started_at >= ADMIN_TIMELOCK_SECONDS ==> done.1 == Ok::<
                (),
                PayrollError,
            >(()) && done.0.admin == new_admin && done.0.pending_admin.is_none()
        }),
{
}

/// New platform state and result of `process_pause_platform`.
pub open spec fn pause_platform_outcome(p: Platform, admin: Pubkey, current_time: i64) -> (
    Platform,
    Result<(), PayrollError>,
) {
    if p.admin != admin {
        (p, Err(PayrollError::Unauthorized))
    } else if p.is_paused {
        (p, Err(PayrollError::RaffleAlreadyPaused))
    } else {
        (
            Platform { is_paused: true, last_paused_at: current_time, paused_by: Some(admin), ..p },
            Ok(()),
        )
    }
}

/// Emergency stop of ticket sales and raffle creation; fails
/// RaffleAlreadyPaused if already stopped.
pub fn process_pause_platform(platform: &mut Platform, admin: &Pubkey, current_time: i64) -> (r:
    Result<(), PayrollError>)
    ensures
        (*final(platform), r) == pause_platform_outcome(*old(platform), *admin, current_time),
        old(platform).wf() ==> final(platform).wf(),
{
    require_admin(platform, admin)?;
    if platform.is_paused {
        return Err(PayrollError::RaffleAlreadyPaused);
    }
    platform.is_paused = true;
    platform.last_paused_at = current_time;
    platform.paused_by = Some(*admin);
    Ok(())
}

/// New platform state and result of `process_unpause_platform`.
pub open spec fn unpause_platform_outcome(p: Platform, admin: Pubkey) -> (
    Platform,
    Result<(), PayrollError>,
) {
    if p.admin != admin {
        (p, Err(PayrollError::Unauthorized))
    } else if !p.is_paused {
        (p, Err(PayrollError::RaffleNotPaused))
    } else {
        (Platform { is_paused: false, paused_by: None, ..p }, Ok(()))
    }
}

/// Lifts the emergency stop; fails RaffleNotPaused if not stopped.
pub fn process_unpause_platform(platform: &mut Platform, admin: &Pubkey, current_time: i64) -> (r:
    Result<(), PayrollError>)
    ensures
        (*final(platform), r) == unpause_platform_outcome(*old(platform), *admin),
        old(platform).wf() ==> final(platform).wf(),
{
    require_admin(platform, admin)?;
    if !platform.is_paused {
        return Err(PayrollError::RaffleNotPaused);
    }
    platform.is_paused = false;
    platform.paused_by = None;
    Ok(())
}

/// New raffle state and result of `process_pause_raffle`.
pub open spec fn pause_raffle_outcome(p: Platform, raffle: Raffle, admin: Pubkey) -> (
    Raffle,
    Result<(), PayrollError>,
) {
    if p.admin != admin {
        (raffle, Err(PayrollError::Unauthorized))
    } else if raffle.is_paused {
        (raffle, Err(PayrollError::RaffleAlreadyPaused))
    } else if raffle.is_drawn {
        (raffle, Err(PayrollError::RaffleAlreadyDrawn))
    } else {
        (Raffle { is_paused: true, ..raffle }, Ok(()))
    }
}

/// Halts sales of one undrawn raffle.
pub fn process_pause_raffle(
    platform: &Platform,
    raffle: &mut Raffle,
    admin: &Pubkey,
    current_time: i64,
) -> (r: Result<(), PayrollError>)
    ensures
        (*final(raffle), r) == pause_raffle_outcome(*platform, *old(raffle), *admin),
        old(raffle).wf() ==> final(raffle).wf(),
{
    require_admin(platform, admin)?;
    if raffle.is_paused {
        return Err(PayrollError::RaffleAlreadyPaused);
    }
    if raffle.is_drawn {
        return Err(PayrollError::RaffleAlreadyDrawn);
    }
    raffle.is_paused = true;
    Ok(())
}

/// New raffle state and result of `process_unpause_raffle`.
pub open spec fn unpause_raffle_outcome(p: Platform, raffle: Raffle, admin: Pubkey) -> (
    Raffle,
    Result<(), PayrollError>,
) {
    if p.admin != admin {
        (raffle, Err(PayrollError::Unauthorized))
    } else if !raffle.is_paused {
        (raffle, Err(PayrollError::RaffleNotPaused))
    } else {
        (Raffle { is_paused: false, ..raffle }, Ok(()))
    }
}

/// Resumes sales of a paused raffle.
pub fn process_unpause_raffle(
    platform: &Platform,
    raffle: &mut Raffle,
    admin: &Pubkey,
    current_time: i64,
) -> (r: Result<(), PayrollError>)
    ensures
        (*final(raffle), r) == unpause_raffle_outcome(*platform, *old(raffle), *admin),
        old(raffle).wf() ==> final(raffle).wf(),
{
    require_admin(platform, admin)?;
    if !raffle.is_paused {
        return Err(PayrollError::RaffleNotPaused);
    }
    raffle.is_paused = false;
    Ok(())
}

/// New platform state, blacklist entry and result of
/// `process_add_to_blacklist`.
pub open spec fn add_to_blacklist_outcome(
    p: Platform,
    entry: BlacklistEntry,
    admin: Pubkey,
    wallet: Pubkey,
    reason: u8,
    current_time: i64,
    bump: u8,
) -> (Platform, BlacklistEntry, Result<(), PayrollError>) {
    if p.admin != admin {
        (p, entry, Err(PayrollError::Unauthorized))
    } else if p.blacklist_count == u32::MAX {
        (p, entry, Err(PayrollError::MathOverflow))
    } else {
        (
            Platform { blacklist_count: (p.blacklist_count + 1) as u32, ..p },
            BlacklistEntry {
                wallet,
                blacklisted_at: current_time,
                blacklisted_by: admin,
                reason,
                is_active: true,
                bump,
            },
            Ok(()),
        )
    }
}

/// Blacklists a wallet: (re)writes its entry as active and counts it.
pub fn process_add_to_blacklist(
    platform: &mut Platform,
    blacklist_entry: &mut BlacklistEntry,
    admin: &Pubkey,
    wallet_to_blacklist: Pubkey,
    reason: u8,
    current_time: i64,
    bump: u8,
) -> (r: Result<(), PayrollError>)
    ensures
        (*final(platform), *final(blacklist_entry), r) == add_to_blacklist_outcome(
            *old(platform),
            *old(blacklist_entry),
            *admin,
            wallet_to_blacklist,
            reason,
            current_time,
            bump,
        ),
        old(platform).wf() ==> final(platform).wf(),
{
    require_admin(platform, admin)?;
    let count = match platform.blacklist_count.checked_add(1) {
        Some(c) => c,
        None => return Err(PayrollError::MathOverflow),
    };
    blacklist_entry.wallet = wallet_to_blacklist;
    blacklist_entry.blacklisted_at = current_time;
    blacklist_entry.blacklisted_by = *admin;
    blacklist_entry.reason = reason;
    blacklist_entry.is_active = true;
    blacklist_entry.bump = bump;
    platform.blacklist_count = count;
    Ok(())
}

/// The admin can always blacklist a wallet while the count has room: the
/// entry comes out active with the given wallet, reason, admin and time,
/// and only the count changes on the platform. No raffle or ticket record
/// is involved, so tickets the wallet already holds stay as they were.
pub proof fn lemma_blacklist_add_succeeds(
    p: Platform,
    entry: BlacklistEntry,
    wallet: Pubkey,
    reason: u8,
    current_time: i64,
    bump: u8,
)
    requires
        p.blacklist_count < u32::MAX,
    ensures
        ({
            let (after, e, r) = add_to_blacklist_outcome(
                p,
                entry,
                p.admin,
                wallet,
                reason,
                current_time,
                bump,
            );
            &&& r == Ok::<(), PayrollError>(())
            &&& e.wallet == wallet && e.is_active && e.reason == reason
            &&& e.blacklisted_by == p.admin && e.blacklisted_at == current_time
            &&& after == Platform { blacklist_count: (p.blacklist_count + 1) as u32, ..p }
        }),
{
}

/// New platform state, blacklist entry and result of
/// `process_remove_from_blacklist`.
pub open spec fn remove_from_blacklist_outcome(
    p: Platform,
    entry: BlacklistEntry,
    admin: Pubkey,
) -> (Platform, BlacklistEntry, Result<(), PayrollError>) {
    if p.admin != admin {
        (p, entry, Err(PayrollError::Unauthorized))
    } else if !entry.is_active {
        (p, entry, Err(PayrollError::WalletBlacklisted))
    } else {
        (
            Platform {
                blacklist_count: if p.blacklist_count > 0 {
                    (p.blacklist_count - 1) as u32
                } else {
                    0
                },
                ..p
            },
            BlacklistEntry { is_active: false, ..entry },
            Ok(()),
        )
    }
}

/// Lifts a wallet's blacklisting; the entry stays, inactive, for the record.
/// An entry that is not active fails WalletBlacklisted.
pub fn process_remove_from_blacklist(
    platform: &mut Platform,
    blacklist_entry: &mut BlacklistEntry,
    admin: &Pubkey,
    current_time: i64,
) -> (r: Result<(), PayrollError>)
    ensures
        (*final(platform), *final(blacklist_entry), r) == remove_from_blacklist_outcome(
            *old(platform),
            *old(blacklist_entry),
            *admin,
        ),
        old(platform).wf() ==> final(platform).wf(),
{
    require_admin(platform, admin)?;
    if !blacklist_entry.is_active {
        return Err(PayrollError::WalletBlacklisted);
    }
    blacklist_entry.is_active = false;
    if platform.blacklist_count > 0 {
        platform.blacklist_count = platform.blacklist_count - 1;
    }
    Ok(())
}

/// `v` when given, else `current`.
pub open spec fn patched<T>(current: T, v: Option<T>) -> T {
    match v {
        Some(x) => x,
        None => current,
    }
}

/// New config and result of `process_update_security_config`.
pub open spec fn update_security_config_outcome(
    p: Platform,
    config: SecurityConfig,
    admin: Pubkey,
    rate_limit_seconds: Option<i64>,
    rate_limiting_enabled: Option<bool>,
    blacklist_enabled: Option<bool>,
    vrf_required: Option<bool>,
    min_block_confirmations: Option<u64>,
    max_tickets_per_wallet: Option<u32>,
    current_time: i64,
) -> (SecurityConfig, Result<(), PayrollError>) {
    if p.admin != admin {
        (config, Err(PayrollError::Unauthorized))
    } else {
        (
            SecurityConfig {
                rate_limit_seconds: patched(config.rate_limit_seconds, rate_limit_seconds),
                rate_limiting_enabled: patched(config.rate_limiting_enabled, rate_limiting_enabled),
                blacklist_enabled: patched(config.blacklist_enabled, blacklist_enabled),
                vrf_required: patched(config.vrf_required, vrf_required),
                min_block_confirmations: patched(
                    config.min_block_confirmations,
                    min_block_confirmations,
                ),
                max_tickets_per_wallet: patched(
                    config.max_tickets_per_wallet,
                    max_tickets_per_wallet,
                ),
                last_updated: current_time,
                updated_by: admin,
                ..config
            },
            Ok(()),
        )
    }
}

/// Partial update of the security settings: each given value replaces its
/// field, the others stay.
pub fn process_update_security_config(
    platform: &Platform,
    config: &mut SecurityConfig,
    admin: &Pubkey,
    rate_limit_seconds: Option<i64>,
    rate_limiting_enabled: Option<bool>,
    blacklist_enabled: Option<bool>,
    vrf_required: Option<bool>,
    min_block_confirmations: Option<u64>,
    max_tickets_per_wallet: Option<u32>,
    current_time: i64,
) -> (r: Result<(), PayrollError>)
    ensures
        (*final(config), r) == update_security_config_outcome(
            *platform,
            *old(config),
            *admin,
            rate_limit_seconds,
            rate_limiting_enabled,
            blacklist_enabled,
            vrf_required,
            min_block_confirmations,
            max_tickets_per_wallet,
            current_time,
        ),
{
    require_admin(platform, admin)?;
    if let Some(v) = rate_limit_seconds {
        config.rate_limit_seconds = v;
    }
    if let Some(v) = rate_limiting_enabled {
        config.rate_limiting_enabled = v;
    }
    if let Some(v) = blacklist_enabled {
        config.blacklist_enabled = v;
    }
    if let Some(v) = vrf_required {
        config.vrf_required = v;
    }
    if let Some(v) = min_block_confirmations {
        config.min_block_confirmations = v;
    }
    if let Some(v) = max_tickets_per_wallet {
        config.max_tickets_per_wallet = v;
    }
    config.last_updated = current_time;
    config.updated_by = *admin;
    Ok(())
}

/// The settings a new security config starts with.
pub open spec fn default_security_config(admin: Pubkey, current_time: i64, bump: u8) -> SecurityConfig {
    SecurityConfig {
        rate_limit_seconds: RATE_LIMIT_SECONDS,
        rate_limiting_enabled: true,
        blacklist_enabled: true,
        vrf_required: false,
        min_block_confirmations: MIN_BLOCK_CONFIRMATIONS,
        max_tickets_per_wallet: MAX_TICKETS_PER_WALLET,
        last_updated: current_time,
        updated_by: admin,
        bump,
    }
}

/// Writes the default settings: 30-second purchase spacing, blacklist and
/// rate limiting on, no VRF requirement, 32 confirmations, 100 tickets per
/// wallet.
pub fn initialize_security_config(
    config: &mut SecurityConfig,
    admin: &Pubkey,
    current_time: i64,
    bump: u8,
) -> (r: Result<(), PayrollError>)
    ensures
        r == Ok::<(), PayrollError>(()),
        *final(config) == default_security_config(*admin, current_time, bump),
{
    config.rate_limit_seconds = RATE_LIMIT_SECONDS;
    config.rate_limiting_enabled = true;
    config.blacklist_enabled = true;
    config.vrf_required = false;
    config.min_block_confirmations = MIN_BLOCK_CONFIRMATIONS;
    config.max_tickets_per_wallet = MAX_TICKETS_PER_WALLET;
    config.last_updated = current_time;
    config.updated_by = *admin;
    config.bump = bump;
    Ok(())
}

/// New platform state and result of `process_update_platform_fee`.
pub open spec fn update_fee_outcome(p: Platform, admin: Pubkey, new_fee_bps: u16) -> (
    Platform,
    Result<(), PayrollError>,
) {
    if p.admin != admin {
        (p, Err(PayrollError::Unauthorized))
    } else if new_fee_bps > MAX_PLATFORM_FEE_BPS {
        (p, Err(PayrollError::PrizeAmountExceedsMax))
    } else {
        (Platform { fee_bps: new_fee_bps, ..p }, Ok(()))
    }
}

/// Sets the fee rate; a rate above `MAX_PLATFORM_FEE_BPS` is refused.
pub fn process_update_platform_fee(platform: &mut Platform, admin: &Pubkey, new_fee_bps: u16) -> (r:
    Result<(), PayrollError>)
    ensures
        (*final(platform), r) == update_fee_outcome(*old(platform), *admin, new_fee_bps),
        old(platform).wf() ==> final(platform).wf(),
{
    require_admin(platform, admin)?;
    if new_fee_bps > MAX_PLATFORM_FEE_BPS {
        return Err(PayrollError::PrizeAmountExceedsMax);
    }
    platform.fee_bps = new_fee_bps;
    Ok(())
}

/// New platform state and result of `check_admin_rate_limit`.
pub open spec fn admin_rate_limit_outcome(p: Platform, current_time: i64) -> (
    Platform,
    Result<(), PayrollError>,
) {
    if current_time - p.last_admin_action_at < ADMIN_RATE_LIMIT_SECONDS {
        (p, Err(PayrollError::RateLimitExceeded))
    } else {
        (Platform { last_admin_action_at: current_time, ..p }, Ok(()))
    }
}

/// Throttles privileged actions: fails RateLimitExceeded within
/// `ADMIN_RATE_LIMIT_SECONDS` of the last one, else records this one.
pub fn check_admin_rate_limit(platform: &mut Platform, current_time: i64) -> (r: Result<
    (),
    PayrollError,
>)
    ensures
        (*final(platform), r) == admin_rate_limit_outcome(*old(platform), current_time),
        old(platform).wf() ==> final(platform).wf(),
{
    let elapsed: i128 = (current_time as i128) - (platform.last_admin_action_at as i128);
    if elapsed < ADMIN_RATE_LIMIT_SECONDS as i128 {
        return Err(PayrollError::RateLimitExceeded);
    }
    platform.last_admin_action_at = current_time;
    Ok(())
}

} // verus!
