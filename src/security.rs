use vstd::prelude::*;

use crate::constants::{
    MAX_PRIZE_AMOUNT, MAX_RAFFLE_DURATION, MAX_TICKETS_PER_RAFFLE, MAX_TICKET_PRICE,
    MIN_PRIZE_AMOUNT, MIN_RAFFLE_DURATION, MIN_TICKET_PRICE,
};
use crate::errors::PayrollError;
use crate::identity::Pubkey;
use crate::state::{BlacklistEntry, Platform, Raffle, SecurityConfig, UserStats};

verus! {

/// Outcome of a check that passes or reports one error.
pub open spec fn check(ok: bool, e: PayrollError) -> Result<(), PayrollError> {
    if ok {
        Ok(())
    } else {
        Err(e)
    }
}

/// Fails with PlatformPaused while the platform is stopped.
pub fn require_platform_active(platform: &Platform) -> (r: Result<(), PayrollError>)
    ensures
        r == check(!platform.is_paused, PayrollError::PlatformPaused),
{
    if platform.is_paused {
        return Err(PayrollError::PlatformPaused);
    }
    Ok(())
}

/// What `require_raffle_active` returns.
pub open spec fn raffle_active_check(raffle: Raffle, current_time: i64) -> Result<(), PayrollError> {
    if raffle.is_paused {
        Err(PayrollError::RaffleAlreadyPaused)
    } else if !raffle.active_at(current_time) {
        Err(PayrollError::RaffleEnded)
    } else {
        Ok(())
    }
}

/// Sales must be open: a paused raffle fails RaffleAlreadyPaused, an ended
/// or drawn one RaffleEnded.
pub fn require_raffle_active(raffle: &Raffle, current_time: i64) -> (r: Result<(), PayrollError>)
    ensures
        r == raffle_active_check(*raffle, current_time),
{
    if raffle.is_paused {
        return Err(PayrollError::RaffleAlreadyPaused);
    }
    if !raffle.is_active(current_time) {
        return Err(PayrollError::RaffleEnded);
    }
    Ok(())
}

/// The wallet has an active blacklist entry.
pub open spec fn blacklisted(blacklist: Option<&BlacklistEntry>) -> bool {
    match blacklist {
        Some(e) => e.is_active,
        None => false,
    }
}

/// Fails WalletBlacklisted when the wallet's entry is present and active.
pub fn require_not_blacklisted(blacklist: Option<&BlacklistEntry>) -> (r: Result<(), PayrollError>)
    ensures
        r == check(!blacklisted(blacklist), PayrollError::WalletBlacklisted),
{
    if let Some(entry) = blacklist {
        if entry.is_active {
            return Err(PayrollError::WalletBlacklisted);
        }
    }
    Ok(())
}

/// What `require_not_rate_limited` returns.
pub open spec fn rate_limit_check(
    user_stats: UserStats,
    current_time: i64,
    config: SecurityConfig,
) -> Result<(), PayrollError> {
    check(
        !config.rate_limiting_enabled || !user_stats.rate_limited_at(
            current_time,
            config.rate_limit_seconds,
        ),
        PayrollError::RateLimitExceeded,
    )
}

/// With rate limiting on, fails RateLimitExceeded when the wallet bought
/// less than the configured number of seconds ago.
pub fn require_not_rate_limited(
    user_stats: &UserStats,
    current_time: i64,
    config: &SecurityConfig,
) -> (r: Result<(), PayrollError>)
    ensures
        r == rate_limit_check(*user_stats, current_time, *config),
{
    if !config.rate_limiting_enabled {
        return Ok(());
    }
    if user_stats.is_rate_limited(current_time, config.rate_limit_seconds) {
        return Err(PayrollError::RateLimitExceeded);
    }
    Ok(())
}

/// Fails Unauthorized unless `signer` is the platform's admin.
pub fn require_admin(platform: &Platform, signer: &Pubkey) -> (r: Result<(), PayrollError>)
    ensures
        r == check(platform.admin == *signer, PayrollError::Unauthorized),
{
    if platform.admin != *signer {
        return Err(PayrollError::Unauthorized);
    }
    Ok(())
}

/// What `require_ticket_limit` returns.
pub open spec fn ticket_limit_check(current_tickets: u32, requested: u32, max_per_wallet: u32) -> Result<
    (),
    PayrollError,
> {
    if max_per_wallet == 0 {
        Ok(())
    } else if current_tickets + requested > u32::MAX {
        Err(PayrollError::MathOverflow)
    } else {
        check(current_tickets + requested <= max_per_wallet, PayrollError::MaxTicketsPerWalletExceeded)
    }
}

/// A wallet holding `current_tickets` may add `requested` more unless that
/// passes `max_per_wallet`; a cap of 0 means no cap.
pub fn require_ticket_limit(current_tickets: u32, requested: u32, max_per_wallet: u32) -> (r: Result<
    (),
    PayrollError,
>)
    ensures
        r == ticket_limit_check(current_tickets, requested, max_per_wallet),
{
    if max_per_wallet == 0 {
        return Ok(());
    }
    let total = match current_tickets.checked_add(requested) {
        Some(t) => t,
        None => return Err(PayrollError::MathOverflow),
    };
    if total > max_per_wallet {
        return Err(PayrollError::MaxTicketsPerWalletExceeded);
    }
    Ok(())
}

/// What `validate_raffle_params` returns: each bound in turn, the first
/// one broken giving the error.
pub open spec fn raffle_params_check(
    prize_amount: u64,
    ticket_price: u64,
    max_tickets: u32,
    end_time: i64,
    current_time: i64,
    is_free: bool,
) -> Result<(), PayrollError> {
    if prize_amount < MIN_PRIZE_AMOUNT {
        Err(PayrollError::PrizeAmountBelowMin)
    } else if prize_amount > MAX_PRIZE_AMOUNT {
        Err(PayrollError::PrizeAmountExceedsMax)
    } else if !is_free && ticket_price < MIN_TICKET_PRICE {
        Err(PayrollError::TicketPriceBelowMin)
    } else if !is_free && ticket_price > MAX_TICKET_PRICE {
        Err(PayrollError::TicketPriceExceedsMax)
    } else if !(0 < max_tickets <= MAX_TICKETS_PER_RAFFLE) {
        Err(PayrollError::InvalidTicketQuantity)
    } else if end_time - current_time < MIN_RAFFLE_DURATION {
        Err(PayrollError::DurationTooShort)
    } else if end_time - current_time > MAX_RAFFLE_DURATION {
        Err(PayrollError::DurationTooLong)
    } else {
        Ok(())
    }
}

/// Checks the prize, the ticket price (paid raffles only), the supply and
/// the length of the sale window of a new raffle.
pub fn validate_raffle_params(
    prize_amount: u64,
    ticket_price: u64,
    max_tickets: u32,
    end_time: i64,
    current_time: i64,
    is_free: bool,
) -> (r: Result<(), PayrollError>)
    ensures
        r == raffle_params_check(
            prize_amount,
            ticket_price,
            max_tickets,
            end_time,
            current_time,
            is_free,
        ),
{
    if prize_amount < MIN_PRIZE_AMOUNT {
        return Err(PayrollError::PrizeAmountBelowMin);
    }
    if prize_amount > MAX_PRIZE_AMOUNT {
        return Err(PayrollError::PrizeAmountExceedsMax);
    }
    if !is_free {
        if ticket_price < MIN_TICKET_PRICE {
            return Err(PayrollError::TicketPriceBelowMin);
        }
        if ticket_price > MAX_TICKET_PRICE {
            return Err(PayrollError::TicketPriceExceedsMax);
        }
    }
    if !(max_tickets > 0 && max_tickets <= MAX_TICKETS_PER_RAFFLE) {
        return Err(PayrollError::InvalidTicketQuantity);
    }
    let duration: i128 = (end_time as i128) - (current_time as i128);
    if duration < MIN_RAFFLE_DURATION as i128 {
        return Err(PayrollError::DurationTooShort);
    }
    if duration > MAX_RAFFLE_DURATION as i128 {
        return Err(PayrollError::DurationTooLong);
    }
    Ok(())
}

/// What `validate_ticket_purchase` returns.
pub open spec fn ticket_purchase_check(raffle: Raffle, quantity: u32, current_time: i64) -> Result<
    (),
    PayrollError,
> {
    if quantity == 0 {
        Err(PayrollError::InvalidTicketQuantity)
    } else if raffle.is_drawn {
        Err(PayrollError::RaffleAlreadyDrawn)
    } else if current_time >= raffle.end_time {
        Err(PayrollError::RaffleEnded)
    } else {
        check(raffle.remaining() >= quantity, PayrollError::NotEnoughTickets)
    }
}

/// A purchase asks for at least one ticket, before the draw and the end of
/// sales, and for no more than remain.
pub fn validate_ticket_purchase(raffle: &Raffle, quantity: u32, current_time: i64) -> (r: Result<
    (),
    PayrollError,
>)
    ensures
        r == ticket_purchase_check(*raffle, quantity, current_time),
{
    if quantity == 0 {
        return Err(PayrollError::InvalidTicketQuantity);
    }
    if raffle.is_drawn {
        return Err(PayrollError::RaffleAlreadyDrawn);
    }
    if current_time >= raffle.end_time {
        return Err(PayrollError::RaffleEnded);
    }
    if raffle.remaining_tickets() < quantity {
        return Err(PayrollError::NotEnoughTickets);
    }
    Ok(())
}

/// What `validate_draw_conditions` returns.
pub open spec fn draw_check(
    raffle: Raffle,
    current_time: i64,
    current_slot: u64,
    config: SecurityConfig,
) -> Result<(), PayrollError> {
    if raffle.is_drawn {
        Err(PayrollError::RaffleAlreadyDrawn)
    } else if current_time < raffle.end_time {
        Err(PayrollError::RaffleNotEnded)
    } else if raffle.tickets_sold == 0 {
        Err(PayrollError::NoTicketsSold)
    } else if raffle.draw_requested_slot > 0 && (if current_slot >= raffle.draw_requested_slot {
        current_slot - raffle.draw_requested_slot
    } else {
        0
    }) < config.min_block_confirmations {
        Err(PayrollError::InsufficientConfirmations)
    } else {
        Ok(())
    }
}

/// A draw needs an undrawn raffle whose sale has ended with tickets sold,
/// and, once a draw was requested at some slot, enough slots since then.
pub fn validate_draw_conditions(
    raffle: &Raffle,
    current_time: i64,
    current_slot: u64,
    config: &SecurityConfig,
) -> (r: Result<(), PayrollError>)
    ensures
        r == draw_check(*raffle, current_time, current_slot, *config),
{
    if raffle.is_drawn {
        return Err(PayrollError::RaffleAlreadyDrawn);
    }
    if current_time < raffle.end_time {
        return Err(PayrollError::RaffleNotEnded);
    }
    if raffle.tickets_sold == 0 {
        return Err(PayrollError::NoTicketsSold);
    }
    if raffle.draw_requested_slot > 0 {
        let confirmations = current_slot.saturating_sub(raffle.draw_requested_slot);
        if confirmations < config.min_block_confirmations {
            return Err(PayrollError::InsufficientConfirmations);
        }
    }
    Ok(())
}

/// What `validate_claim_conditions` returns.
pub open spec fn claim_check(raffle: Raffle, claimer: Pubkey) -> Result<(), PayrollError> {
    if !raffle.is_drawn {
        Err(PayrollError::RaffleNotDrawn)
    } else if raffle.is_claimed {
        Err(PayrollError::PrizeAlreadyClaimed)
    } else {
        check(raffle.winner == Some(claimer), PayrollError::NotTheWinner)
    }
}

/// Only the recorded winner of a drawn raffle may claim, and only once.
pub fn validate_claim_conditions(raffle: &Raffle, claimer: &Pubkey) -> (r: Result<
    (),
    PayrollError,
>)
    ensures
        r == claim_check(*raffle, *claimer),
{
    if !raffle.is_drawn {
        return Err(PayrollError::RaffleNotDrawn);
    }
    if raffle.is_claimed {
        return Err(PayrollError::PrizeAlreadyClaimed);
    }
    if raffle.winner != Some(*claimer) {
        return Err(PayrollError::NotTheWinner);
    }
    Ok(())
}

/// Takes the raffle's payout guard: fails ReentrancyDetected, changing
/// nothing, while it is already held.
pub fn enter_payout_guard(raffle: &mut Raffle) -> (r: Result<(), PayrollError>)
    ensures
        r == check(!old(raffle).is_claiming, PayrollError::ReentrancyDetected),
        r is Ok ==> *final(raffle) == (Raffle { is_claiming: true, ..*old(raffle) }),
        r is Err ==> *final(raffle) == *old(raffle),
{
    if raffle.is_claiming {
        return Err(PayrollError::ReentrancyDetected);
    }
    raffle.is_claiming = true;
    Ok(())
}

/// Gives the raffle's payout guard back.
pub fn release_payout_guard(raffle: &mut Raffle)
    ensures
        *final(raffle) == (Raffle { is_claiming: false, ..*old(raffle) }),
{
    raffle.is_claiming = false;
}

} // verus!
