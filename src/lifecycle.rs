use vstd::prelude::*;

use crate::admin::{default_security_config, initialize_security_config};
use crate::bytes::{le_bytes, push_le_bytes};
use crate::constants::PLATFORM_FEE_BPS;
use crate::errors::PayrollError;
use crate::identity::Pubkey;
use crate::math::{add_result, calculate_fee, fee_result, mul_result, safe_add, safe_mul};
use crate::randomness::{fallback_draw, generate_secure_random, verify_vrf_and_get_random, vrf_draw};
use crate::security::{
    blacklisted, check, claim_check, enter_payout_guard, release_payout_guard, draw_check, raffle_active_check, raffle_params_check,
    rate_limit_check, require_admin, require_not_blacklisted, require_not_rate_limited,
    require_platform_active, require_raffle_active, require_ticket_limit, ticket_limit_check,
    ticket_purchase_check, validate_claim_conditions, validate_draw_conditions,
    validate_raffle_params, validate_ticket_purchase,
};
use crate::state::{BlacklistEntry, Platform, Raffle, SecurityConfig, Ticket, TicketBlock, UserStats};

verus! {

/// The platform as it stands right after bootstrap.
pub open spec fn fresh_platform(admin: Pubkey, current_time: i64, bump: u8) -> Platform {
    Platform {
        admin,
        pending_admin: None,
        admin_transfer_initiated_at: 0,
        total_raffles: 0,
        total_fees_collected: 0,
        total_prizes_paid: 0,
        is_paused: false,
        last_paused_at: 0,
        paused_by: None,
        fee_bps: PLATFORM_FEE_BPS,
        blacklist_count: 0,
        last_admin_action_at: current_time,
        bump,
    }
}

/// Bootstraps the platform with its first admin and the default fee rate.
pub fn initialize(admin: &Pubkey, current_time: i64, bump: u8) -> (r: Platform)
    ensures
        r == fresh_platform(*admin, current_time, bump),
        r.wf(),
{
    Platform {
        admin: *admin,
        pending_admin: None,
        admin_transfer_initiated_at: 0,
        total_raffles: 0,
        total_fees_collected: 0,
        total_prizes_paid: 0,
        is_paused: false,
        last_paused_at: 0,
        paused_by: None,
        fee_bps: PLATFORM_FEE_BPS,
        blacklist_count: 0,
        last_admin_action_at: current_time,
        bump,
    }
}

/// The admin writes the default security settings.
pub fn initialize_security(
    platform: &Platform,
    config: &mut SecurityConfig,
    admin: &Pubkey,
    current_time: i64,
    bump: u8,
) -> (r: Result<(), PayrollError>)
    ensures
        r == check(platform.admin == *admin, PayrollError::Unauthorized),
        r is Ok ==> *final(config) == default_security_config(*admin, current_time, bump),
        r is Err ==> *final(config) == *old(config),
{
    require_admin(platform, admin)?;
    initialize_security_config(config, admin, current_time, bump)
}

/// What `create_raffle` checks, in order.
pub open spec fn create_raffle_check(
    p: Platform,
    admin: Pubkey,
    prize_amount: u64,
    ticket_price: u64,
    max_tickets: u32,
    end_time: i64,
    is_free: bool,
    current_time: i64,
) -> Result<(), PayrollError> {
    if p.admin != admin {
        Err(PayrollError::Unauthorized)
    } else if p.is_paused {
        Err(PayrollError::PlatformPaused)
    } else if raffle_params_check(
        prize_amount,
        ticket_price,
        max_tickets,
        end_time,
        current_time,
        is_free,
    ) is Err {
        raffle_params_check(prize_amount, ticket_price, max_tickets, end_time, current_time, is_free)
    } else {
        check(p.total_raffles < u64::MAX, PayrollError::MathOverflow)
    }
}

/// `r` is a raffle just opened for sale with these parameters.
pub open spec fn is_new_raffle(
    r: Raffle,
    raffle_id: u64,
    admin: Pubkey,
    prize_amount: u64,
    ticket_price: u64,
    max_tickets: u32,
    max_tickets_per_wallet: u32,
    end_time: i64,
    is_free: bool,
    current_time: i64,
    bump: u8,
    vault_bump: u8,
) -> bool {
    &&& r.id == raffle_id
    &&& r.admin == admin
    &&& r.prize_amount == prize_amount
    &&& r.ticket_price == if is_free {
        0
    } else {
        ticket_price
    }
    &&& r.max_tickets == max_tickets
    &&& r.tickets_sold == 0
    &&& r.max_tickets_per_wallet == max_tickets_per_wallet
    &&& r.end_time == end_time
    &&& r.is_free == is_free
    &&& !r.is_drawn && !r.is_claiming && !r.is_paused && !r.is_claimed
    &&& r.winning_ticket == 0
    &&& r.winner.is_none()
    &&& r.vrf_request.is_none()
    &&& r.vrf_result@.len() == 0
    &&& r.draw_requested_slot == 0
    &&& r.created_at == current_time
    &&& r.fees_collected == 0
    &&& r.bump == bump
    &&& r.vault_bump == vault_bump
}

/// Opens a raffle. On success the platform counts one more raffle and the
/// caller moves `prize_amount` from the admin into the raffle's escrow;
/// a free raffle sells at price 0, and a per-wallet cap of 0 defers to the
/// security config at purchase time.
pub fn create_raffle(
    platform: &mut Platform,
    admin: &Pubkey,
    raffle_id: u64,
    prize_amount: u64,
    ticket_price: u64,
    max_tickets: u32,
    max_tickets_per_wallet: u32,
    end_time: i64,
    is_free: bool,
    current_time: i64,
    bump: u8,
    vault_bump: u8,
) -> (r: Result<Raffle, PayrollError>)
    ensures
        r is Ok <==> create_raffle_check(
            *old(platform),
            *admin,
            prize_amount,
            ticket_price,
            max_tickets,
            end_time,
            is_free,
            current_time,
        ) is Ok,
        r is Err ==> Err::<(), PayrollError>(r->Err_0) == create_raffle_check(
            *old(platform),
            *admin,
            prize_amount,
            ticket_price,
            max_tickets,
            end_time,
            is_free,
            current_time,
        ) && *final(platform) == *old(platform),
        r is Ok ==> *final(platform) == (Platform {
            total_raffles: (old(platform).total_raffles + 1) as u64,
            ..*old(platform)
        }) && r->Ok_0.wf() && is_new_raffle(
            r->Ok_0,
            raffle_id,
            *admin,
            prize_amount,
            ticket_price,
            max_tickets,
            max_tickets_per_wallet,
            end_time,
            is_free,
            current_time,
            bump,
            vault_bump,
        ),
{
    require_admin(platform, admin)?;
    require_platform_active(platform)?;
    validate_raffle_params(prize_amount, ticket_price, max_tickets, end_time, current_time, is_free)?;
    let total = match platform.total_raffles.checked_add(1) {
        Some(t) => t,
        None => return Err(PayrollError::MathOverflow),
    };
    let raffle = Raffle {
        id: raffle_id,
        admin: *admin,
        prize_amount,
        ticket_price: if is_free {
            0
        } else {
            ticket_price
        },
        max_tickets,
        tickets_sold: 0,
        max_tickets_per_wallet,
        end_time,
        is_free,
        is_drawn: false,
        is_claiming: false,
        is_paused: false,
        winning_ticket: 0,
        winner: None,
        is_claimed: false,
        vrf_request: None,
        vrf_result: Vec::new(),
        draw_requested_slot: 0,
        created_at: current_time,
        fees_collected: 0,
        bump,
        vault_bump,
    };
    platform.total_raffles = total;
    Ok(raffle)
}

/// The per-wallet cap a purchase obeys: the raffle's own when set, else the
/// security config's default; 0 means no cap.
pub open spec fn wallet_cap(raffle: Raffle, config: SecurityConfig) -> u32 {
    if raffle.max_tickets_per_wallet != 0 {
        raffle.max_tickets_per_wallet
    } else {
        config.max_tickets_per_wallet
    }
}

/// The raffle's accrued fees after a sale of `cost`: the platform's fee on
/// the cost is added, when the cost is positive.
pub open spec fn fees_after_sale(p: Platform, raffle: Raffle, cost: u64) -> Result<u64, PayrollError> {
    if cost == 0 {
        Ok(raffle.fees_collected)
    } else if fee_result(cost, p.fee_bps) is Err {
        Err(PayrollError::MathOverflow)
    } else {
        add_result(raffle.fees_collected, fee_result(cost, p.fee_bps)->Ok_0)
    }
}

/// The block of ticket numbers a purchase of `quantity` receives: the next
/// `quantity` numbers after those already sold.
pub open spec fn purchase_block(raffle: Raffle, quantity: u32) -> TicketBlock {
    TicketBlock { start_number: raffle.tickets_sold, quantity }
}

/// The record already holds tickets, and of another raffle or another
/// wallet than `buyer`'s.
pub open spec fn foreign_record(ticket: Ticket, raffle: Raffle, buyer: Pubkey) -> bool {
    (ticket.quantity > 0 || ticket.blocks@.len() > 0) && (ticket.raffle != raffle.id
        || ticket.owner != buyer)
}

/// What `buy_ticket` returns: the first check that fails, else the cost of
/// the tickets, which the buyer pays into escrow.
pub open spec fn buy_ticket_outcome(
    p: Platform,
    config: SecurityConfig,
    raffle: Raffle,
    ticket: Ticket,
    stats: UserStats,
    blacklist: Option<&BlacklistEntry>,
    buyer: Pubkey,
    quantity: u32,
    current_time: i64,
) -> Result<u64, PayrollError> {
    let cost = raffle.ticket_price * quantity;
    if foreign_record(ticket, raffle, buyer) {
        Err(PayrollError::InvalidAccountData)
    } else if p.is_paused {
        Err(PayrollError::PlatformPaused)
    } else if config.blacklist_enabled && blacklisted(blacklist) {
        Err(PayrollError::WalletBlacklisted)
    } else if raffle_active_check(raffle, current_time) is Err {
        Err(raffle_active_check(raffle, current_time)->Err_0)
    } else if rate_limit_check(stats, current_time, config) is Err {
        Err(rate_limit_check(stats, current_time, config)->Err_0)
    } else if ticket_purchase_check(raffle, quantity, current_time) is Err {
        Err(ticket_purchase_check(raffle, quantity, current_time)->Err_0)
    } else if ticket_limit_check(ticket.quantity, quantity, wallet_cap(raffle, config)) is Err {
        Err(ticket_limit_check(ticket.quantity, quantity, wallet_cap(raffle, config))->Err_0)
    } else if mul_result(raffle.ticket_price, quantity as u64) is Err
        || fees_after_sale(p, raffle, cost as u64) is Err
        || ticket.quantity + quantity > u32::MAX
        || stats.total_tickets_bought + quantity > u64::MAX
        || stats.total_spent + cost > u64::MAX
        || stats.raffles_participated + 1 > u32::MAX {
        Err(PayrollError::MathOverflow)
    } else {
        Ok(cost as u64)
    }
}

/// Sells `quantity` tickets to `buyer`. Fails, changing nothing, when the
/// ticket record already holds tickets of another raffle or wallet
/// (InvalidAccountData), the platform is paused, the wallet is blacklisted (with the blacklist on),
/// sales are closed, the wallet bought too recently, the quantity is 0 or
/// more than remain, the wallet's cap would be passed, or a counter would
/// overflow. On success the buyer's record gets the next block of numbers,
/// the raffle counts the sale and the fee on it, the wallet's stats record
/// the purchase, and the cost is returned for the caller to move from the
/// buyer into escrow.
pub fn buy_ticket(
    platform: &Platform,
    config: &SecurityConfig,
    raffle: &mut Raffle,
    ticket: &mut Ticket,
    user_stats: &mut UserStats,
    blacklist: Option<&BlacklistEntry>,
    buyer: &Pubkey,
    quantity: u32,
    current_time: i64,
) -> (r: Result<u64, PayrollError>)
    ensures
        r == buy_ticket_outcome(
            *platform,
            *config,
            *old(raffle),
            *old(ticket),
            *old(user_stats),
            blacklist,
            *buyer,
            quantity,
            current_time,
        ),
        r is Err ==> *final(raffle) == *old(raffle) && *final(ticket) == *old(ticket)
            && *final(user_stats) == *old(user_stats),
        r is Ok ==> *final(raffle) == (Raffle {
            tickets_sold: (old(raffle).tickets_sold + quantity) as u32,
            fees_collected: fees_after_sale(*platform, *old(raffle), r->Ok_0)->Ok_0,
            ..*old(raffle)
        }),
        r is Ok ==> final(raffle).tickets_sold <= final(raffle).max_tickets,
        r is Ok ==> final(ticket).raffle == old(raffle).id && final(ticket).owner == *buyer
            && final(ticket).quantity == old(ticket).quantity + quantity
            && final(ticket).blocks@ == old(ticket).blocks@.push(
            purchase_block(*old(raffle), quantity),
        ) && final(ticket).purchased_at == current_time && final(ticket).bump == old(ticket).bump,
        r is Ok ==> *final(user_stats) == (UserStats {
            wallet: *buyer,
            last_purchase_time: current_time,
            total_tickets_bought: (old(user_stats).total_tickets_bought + quantity) as u64,
            total_spent: (old(user_stats).total_spent + r->Ok_0) as u64,
            raffles_participated: (old(user_stats).raffles_participated + 1) as u32,
            ..*old(user_stats)
        }),
        old(raffle).wf() ==> final(raffle).wf(),
{
    if (ticket.quantity > 0 || ticket.blocks.len() > 0) && (ticket.raffle != raffle.id
        || ticket.owner != *buyer) {
        return Err(PayrollError::InvalidAccountData);
    }
    require_platform_active(platform)?;
    if config.blacklist_enabled {
        require_not_blacklisted(blacklist)?;
    }
    require_raffle_active(raffle, current_time)?;
    require_not_rate_limited(user_stats, current_time, config)?;
    validate_ticket_purchase(raffle, quantity, current_time)?;
    let cap = if raffle.max_tickets_per_wallet != 0 {
        raffle.max_tickets_per_wallet
    } else {
        config.max_tickets_per_wallet
    };
    require_ticket_limit(ticket.quantity, quantity, cap)?;
    let total_cost = safe_mul(raffle.ticket_price, quantity as u64)?;
    let fees = if total_cost > 0 {
        let fee = calculate_fee(total_cost, platform.fee_bps)?;
        safe_add(raffle.fees_collected, fee)?
    } else {
        raffle.fees_collected
    };
    let held = match ticket.quantity.checked_add(quantity) {
        Some(h) => h,
        None => return Err(PayrollError::MathOverflow),
    };
    let bought = safe_add(user_stats.total_tickets_bought, quantity as u64)?;
    let spent = safe_add(user_stats.total_spent, total_cost)?;
    let joined = match user_stats.raffles_participated.checked_add(1) {
        Some(j) => j,
        None => return Err(PayrollError::MathOverflow),
    };
    let start = raffle.tickets_sold;
    raffle.fees_collected = fees;
    raffle.tickets_sold = start + quantity;
    ticket.raffle = raffle.id;
    ticket.owner = *buyer;
    ticket.quantity = held;
    ticket.blocks.push(TicketBlock { start_number: start, quantity });
    ticket.purchased_at = current_time;
    user_stats.wallet = *buyer;
    user_stats.last_purchase_time = current_time;
    user_stats.total_tickets_bought = bought;
    user_stats.total_spent = spent;
    user_stats.raffles_participated = joined;
    Ok(total_cost)
}

/// The winning index a draw picks once its checks pass: from the raffle's
/// VRF output when the config requires one, else from mixed entropy whose
/// block entropy is the slot's bytes.
pub open spec fn draw_pick(
    raffle: Raffle,
    config: SecurityConfig,
    current_time: i64,
    current_slot: u64,
    raffle_key: Pubkey,
) -> Result<u32, PayrollError> {
    if config.vrf_required {
        vrf_draw(raffle.vrf_result@, raffle.tickets_sold)
    } else {
        fallback_draw(
            current_slot,
            current_time,
            raffle_key,
            le_bytes(current_slot as nat, 8),
            raffle.tickets_sold,
        )
    }
}

/// New raffle state and result of `draw_winner`.
pub open spec fn draw_outcome(
    raffle: Raffle,
    config: SecurityConfig,
    current_time: i64,
    current_slot: u64,
    raffle_key: Pubkey,
) -> (Raffle, Result<(), PayrollError>) {
    if draw_check(raffle, current_time, current_slot, config) is Err {
        (raffle, draw_check(raffle, current_time, current_slot, config))
    } else {
        match draw_pick(raffle, config, current_time, current_slot, raffle_key) {
            Ok(w) => (
                Raffle {
                    winning_ticket: w,
                    is_drawn: true,
                    draw_requested_slot: current_slot,
                    ..raffle
                },
                Ok(()),
            ),
            Err(e) => (raffle, Err(e)),
        }
    }
}

/// Draws the winning ticket of a raffle whose sale has ended. The index
/// drawn is always one of the tickets sold.
pub fn draw_winner(
    raffle: &mut Raffle,
    config: &SecurityConfig,
    current_time: i64,
    current_slot: u64,
    raffle_key: &Pubkey,
) -> (r: Result<(), PayrollError>)
    ensures
        (*final(raffle), r) == draw_outcome(
            *old(raffle),
            *config,
            current_time,
            current_slot,
            *raffle_key,
        ),
        r is Ok ==> final(raffle).is_drawn
            && final(raffle).winning_ticket < final(raffle).tickets_sold,
        old(raffle).wf() ==> final(raffle).wf(),
{
    validate_draw_conditions(raffle, current_time, current_slot, config)?;
    let winning_ticket = if config.vrf_required {
        verify_vrf_and_get_random(raffle.vrf_result.as_slice(), raffle.tickets_sold)?
    } else {
        let mut entropy: Vec<u8> = Vec::new();
        push_le_bytes(&mut entropy, current_slot, 8);
        assert(entropy@ =~= Seq::<u8>::empty() + le_bytes(current_slot as nat, 8));
        generate_secure_random(
            current_slot,
            current_time,
            raffle_key,
            entropy.as_slice(),
            raffle.tickets_sold,
        )?
    };
    raffle.winning_ticket = winning_ticket;
    raffle.is_drawn = true;
    raffle.draw_requested_slot = current_slot;
    Ok(())
}

/// New raffle state and result of `set_winner`.
pub open spec fn set_winner_outcome(raffle: Raffle, ticket: Ticket) -> (
    Raffle,
    Result<(), PayrollError>,
) {
    if ticket.raffle != raffle.id {
        (raffle, Err(PayrollError::InvalidAccountData))
    } else if !raffle.is_drawn {
        (raffle, Err(PayrollError::RaffleNotDrawn))
    } else if raffle.winner.is_some() {
        (raffle, Err(PayrollError::WinnerAlreadySet))
    } else if !ticket.holds(raffle.winning_ticket as int) {
        (raffle, Err(PayrollError::NotWinningTicket))
    } else {
        (Raffle { winner: Some(ticket.owner), ..raffle }, Ok(()))
    }
}

/// Records as winner the owner of the ticket record that holds the drawn
/// number. The record must belong to this raffle.
pub fn set_winner(raffle: &mut Raffle, ticket: &Ticket) -> (r: Result<(), PayrollError>)
    ensures
        (*final(raffle), r) == set_winner_outcome(*old(raffle), *ticket),
        old(raffle).wf() ==> final(raffle).wf(),
{
    if ticket.raffle != raffle.id {
        return Err(PayrollError::InvalidAccountData);
    }
    if !raffle.is_drawn {
        return Err(PayrollError::RaffleNotDrawn);
    }
    if raffle.winner.is_some() {
        return Err(PayrollError::WinnerAlreadySet);
    }
    if !ticket.owns_number(raffle.winning_ticket) {
        return Err(PayrollError::NotWinningTicket);
    }
    raffle.winner = Some(ticket.owner);
    Ok(())
}

/// New raffle state and result of `claim_prize`.
pub open spec fn claim_outcome(p: Platform, raffle: Raffle, claimer: Pubkey) -> (
    Raffle,
    Result<u64, PayrollError>,
) {
    if claim_check(raffle, claimer) is Err {
        (raffle, Err(claim_check(raffle, claimer)->Err_0))
    } else if raffle.is_claiming {
        (raffle, Err(PayrollError::ReentrancyDetected))
    } else if p.total_prizes_paid + raffle.prize_amount > u64::MAX {
        (raffle, Err(PayrollError::MathOverflow))
    } else {
        (Raffle { is_claiming: true, ..raffle }, Ok(raffle.prize_amount))
    }
}

/// First half of a payout: checks that `claimer` is the unpaid winner,
/// takes the raffle's payout guard, and returns the prize for the caller to
/// move from escrow to the winner. The caller then calls `finish_claim`
/// once the transfer went through, or `abort_claim` if it did not; while
/// the guard is held every other claim fails ReentrancyDetected.
pub fn claim_prize(platform: &Platform, raffle: &mut Raffle, claimer: &Pubkey) -> (r: Result<
    u64,
    PayrollError,
>)
    ensures
        (*final(raffle), r) == claim_outcome(*platform, *old(raffle), *claimer),
        old(raffle).wf() ==> final(raffle).wf(),
{
    validate_claim_conditions(raffle, claimer)?;
    if raffle.is_claiming {
        return Err(PayrollError::ReentrancyDetected);
    }
    if platform.total_prizes_paid > u64::MAX - raffle.prize_amount {
        return Err(PayrollError::MathOverflow);
    }
    enter_payout_guard(raffle)?;
    Ok(raffle.prize_amount)
}

/// New platform state, raffle state and result of `finish_claim`.
pub open spec fn finish_claim_outcome(p: Platform, raffle: Raffle) -> (
    Platform,
    Raffle,
    Result<(), PayrollError>,
) {
    if p.total_prizes_paid + raffle.prize_amount > u64::MAX {
        (p, Raffle { is_claiming: false, ..raffle }, Err(PayrollError::MathOverflow))
    } else {
        (
            Platform {
                total_prizes_paid: (p.total_prizes_paid + raffle.prize_amount) as u64,
                ..p
            },
            Raffle { is_claimed: true, is_claiming: false, ..raffle },
            Ok(()),
        )
    }
}

/// Second half of a payout whose transfer went through: marks the prize
/// claimed, counts it as paid, and gives the guard back.
pub fn finish_claim(platform: &mut Platform, raffle: &mut Raffle) -> (r: Result<(), PayrollError>)
    requires
        old(raffle).is_claiming,
    ensures
        (*final(platform), *final(raffle), r) == finish_claim_outcome(*old(platform), *old(raffle)),
        old(raffle).wf() ==> final(raffle).wf(),
        old(platform).wf() ==> final(platform).wf(),
{
    let paid = safe_add(platform.total_prizes_paid, raffle.prize_amount);
    match paid {
        Ok(total) => {
            raffle.is_claimed = true;
            platform.total_prizes_paid = total;
            release_payout_guard(raffle);
            Ok(())
        },
        Err(e) => {
            release_payout_guard(raffle);
            Err(e)
        },
    }
}

/// Ends a payout whose transfer failed: gives the guard back and leaves the
/// prize unclaimed.
pub fn abort_claim(raffle: &mut Raffle)
    requires
        old(raffle).is_claiming,
    ensures
        *final(raffle) == (Raffle { is_claiming: false, ..*old(raffle) }),
        old(raffle).wf() ==> final(raffle).wf(),
{
    release_payout_guard(raffle);
}

/// A prize is paid at most once. Once a claim has taken the guard, every
/// other claim fails ReentrancyDetected; once the payout is finished, every
/// later claim fails PrizeAlreadyClaimed.
pub proof fn lemma_claim_exactly_once(p: Platform, raffle: Raffle, winner: Pubkey, other: Pubkey)
    requires
        raffle.wf(),
        claim_outcome(p, raffle, winner).1 is Ok,
    ensures
        ({
            let held = claim_outcome(p, raffle, winner).0;
            let second = claim_outcome(p, held, other);
            &&& held.is_claiming
            &&& second.1 is Err
            &&& other == winner ==> second.1 == Err::<u64, PayrollError>(
                PayrollError::ReentrancyDetected,
            )
            &&& finish_claim_outcome(p, held).2 is Ok ==> {
                let (paid, done, _) = finish_claim_outcome(p, held);
                &&& done.is_claimed && !done.is_claiming
                &&& claim_outcome(paid, done, other).1 == Err::<u64, PayrollError>(
                    PayrollError::PrizeAlreadyClaimed,
                )
            }
        }),
{
}

/// The recorded winner of a drawn, unpaid raffle is paid: while the
/// lifetime prize total has room for the prize, the claim takes the guard
/// and returns the prize, and finishing it marks the prize claimed, gives
/// the guard back and adds the prize to the total. Neither the platform's
/// pause flag nor the winner's blacklisting bears on it: the claim's outcome
/// is the same on a paused or running platform, and it reads no blacklist
/// entry, so tickets bought before a blacklisting stay payable.
pub proof fn lemma_winner_claim_succeeds(p: Platform, raffle: Raffle, winner: Pubkey, paused: bool)
    requires
        raffle.is_drawn,
        !raffle.is_claimed,
        !raffle.is_claiming,
        raffle.winner == Some(winner),
        p.total_prizes_paid + raffle.prize_amount <= u64::MAX,
    ensures
        claim_outcome(Platform { is_paused: paused, ..p }, raffle, winner) == claim_outcome(
            p,
            raffle,
            winner,
        ),
        claim_outcome(p, raffle, winner).1 == Ok::<u64, PayrollError>(raffle.prize_amount),
        ({
            let held = claim_outcome(p, raffle, winner).0;
            let (after, done, r) = finish_claim_outcome(p, held);
            &&& held.is_claiming
            &&& r == Ok::<(), PayrollError>(())
            &&& done.is_claimed && !done.is_claiming
            &&& after.total_prizes_paid == p.total_prizes_paid + raffle.prize_amount
        }),
{
}

/// The part of the escrow the admin may take: all of it once the prize is
/// paid, else what exceeds the reserved prize.
pub open spec fn withdrawable(raffle: Raffle, vault_balance: u64) -> u64 {
    let reserved = if raffle.is_claimed {
        0
    } else {
        raffle.prize_amount
    };
    if vault_balance >= reserved {
        (vault_balance - reserved) as u64
    } else {
        0
    }
}

/// New platform state and result of `withdraw_proceeds`.
pub open spec fn withdraw_outcome(p: Platform, raffle: Raffle, admin: Pubkey, vault_balance: u64) -> (
    Platform,
    Result<u64, PayrollError>,
) {
    if raffle.admin != admin {
        (p, Err(PayrollError::Unauthorized))
    } else if !raffle.is_drawn {
        (p, Err(PayrollError::RaffleNotDrawn))
    } else if !(raffle.is_claimed || raffle.tickets_sold == 0) {
        (p, Err(PayrollError::PrizeNotClaimed))
    } else if withdrawable(raffle, vault_balance) == 0 {
        (p, Ok(0))
    } else if p.total_fees_collected + raffle.fees_collected > u64::MAX {
        (p, Err(PayrollError::MathOverflow))
    } else {
        (
            Platform {
                total_fees_collected: (p.total_fees_collected + raffle.fees_collected) as u64,
                ..p
            },
            Ok(withdrawable(raffle, vault_balance)),
        )
    }
}

/// The raffle's admin takes the ticket-sale proceeds out of a finished
/// raffle's escrow, never the unpaid prize. Returns the amount for the caller to
/// move; a positive amount also rolls the raffle's fees into the
/// platform's lifetime total.
pub fn withdraw_proceeds(
    platform: &mut Platform,
    raffle: &Raffle,
    admin: &Pubkey,
    vault_balance: u64,
) -> (r: Result<u64, PayrollError>)
    ensures
        (*final(platform), r) == withdraw_outcome(*old(platform), *raffle, *admin, vault_balance),
        old(platform).wf() ==> final(platform).wf(),
{
    if raffle.admin != *admin {
        return Err(PayrollError::Unauthorized);
    }
    if !raffle.is_drawn {
        return Err(PayrollError::RaffleNotDrawn);
    }
    if !(raffle.is_claimed || raffle.tickets_sold == 0) {
        return Err(PayrollError::PrizeNotClaimed);
    }
    let reserved = if raffle.is_claimed {
        0
    } else {
        raffle.prize_amount
    };
    let amount = vault_balance.saturating_sub(reserved);
    if amount > 0 {
        let total = safe_add(platform.total_fees_collected, raffle.fees_collected)?;
        platform.total_fees_collected = total;
    }
    Ok(amount)
}

/// The blocks lie end to end from ticket 0 in purchase order, none empty,
/// and the last ends at `sold`.
pub open spec fn blocks_tile(blocks: Seq<TicketBlock>, sold: int) -> bool
    decreases blocks.len(),
{
    if blocks.len() == 0 {
        sold == 0
    } else {
        let last = blocks.last();
        &&& last.quantity > 0
        &&& last.start_number + last.quantity == sold
        &&& blocks_tile(blocks.drop_last(), last.start_number as int)
    }
}

/// Each purchase keeps the tiling: when the blocks sold so far tile the
/// tickets sold, adding the block a purchase receives tiles the new total.
pub proof fn lemma_purchase_extends_tiling(blocks: Seq<TicketBlock>, raffle: Raffle, quantity: u32)
    requires
        blocks_tile(blocks, raffle.tickets_sold as int),
        quantity > 0,
    ensures
        blocks_tile(
            blocks.push(purchase_block(raffle, quantity)),
            raffle.tickets_sold + quantity,
        ),
{
    assert(blocks.push(purchase_block(raffle, quantity)).drop_last() =~= blocks);
}

/// Ticket number `n` lies in one of the blocks.
pub open spec fn in_some_block(blocks: Seq<TicketBlock>, n: int) -> bool {
    exists|i: int| 0 <= i < blocks.len() && (#[trigger] blocks[i]).holds(n)
}

/// Tiled blocks partition the tickets sold: every number below `sold` lies
/// in exactly one block, and no block holds a number outside that range.
pub proof fn lemma_tiling_partitions(blocks: Seq<TicketBlock>, sold: int)
    requires
        blocks_tile(blocks, sold),
    ensures
        forall|n: int| 0 <= n < sold ==> #[trigger] in_some_block(blocks, n),
        forall|i: int, n: int| 0 <= i < blocks.len() && #[trigger] blocks[i].holds(n) ==> 0 <= n < sold,
        forall|i: int, j: int, n: int|
            0 <= i < blocks.len() && 0 <= j < blocks.len() && #[trigger] blocks[i].holds(n)
                && #[trigger] blocks[j].holds(n) ==> i == j,
    decreases blocks.len(),
{
    if blocks.len() > 0 {
        let last = blocks.last();
        let prefix = blocks.drop_last();
        let k = blocks.len() - 1;
        lemma_tiling_partitions(prefix, last.start_number as int);
        assert forall|i: int| 0 <= i < k implies blocks[i] == prefix[i] by {}
        assert forall|n: int| 0 <= n < sold implies #[trigger] in_some_block(blocks, n) by {
            if n < last.start_number {
                assert(in_some_block(prefix, n));
                let i = choose|i: int| 0 <= i < prefix.len() && (#[trigger] prefix[i]).holds(n);
                assert(blocks[i].holds(n));
            } else {
                assert(blocks[k].holds(n));
            }
        }
        assert forall|i: int, n: int| 0 <= i < blocks.len() && #[trigger] blocks[i].holds(n) implies 0 <= n < sold by {
            if i < k {
                assert(prefix[i].holds(n));
            }
        }
        assert forall|i: int, j: int, n: int|
            0 <= i < blocks.len() && 0 <= j < blocks.len() && #[trigger] blocks[i].holds(n)
                && #[trigger] blocks[j].holds(n) implies i == j by {
            if i < k {
                assert(prefix[i].holds(n));
            }
            if j < k {
                assert(prefix[j].holds(n));
            }
        }
    }
}

} // verus!
