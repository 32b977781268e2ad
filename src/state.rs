use vstd::prelude::*;

use crate::constants::MAX_PLATFORM_FEE_BPS;
use crate::identity::Pubkey;

verus! {

/// Process-wide governance state.
#[derive(Clone, Copy, Debug, PartialEq, Eq, Structural)]
pub struct Platform {
    /// Admin with full control.
    pub admin: Pubkey,
    /// Admin named by a transfer in progress.
    pub pending_admin: Option<Pubkey>,
    /// When the transfer in progress was started; 0 when there is none.
    pub admin_transfer_initiated_at: i64,
    pub total_raffles: u64,
    /// Lifetime fees rolled in from withdrawn raffles, in lamports.
    pub total_fees_collected: u64,
    /// Lifetime prizes paid out, in lamports.
    pub total_prizes_paid: u64,
    /// Emergency stop: blocks ticket sales and raffle creation.
    pub is_paused: bool,
    pub last_paused_at: i64,
    pub paused_by: Option<Pubkey>,
    /// Fee rate charged on ticket sales, in basis points.
    pub fee_bps: u16,
    pub blacklist_count: u32,
    /// Time of the last throttled admin action.
    pub last_admin_action_at: i64,
    pub bump: u8,
}

impl Platform {
    /// A pending admin exists exactly when a transfer start time is
    /// recorded, and the fee rate stays within its cap.
    pub open spec fn wf(&self) -> bool {
        &&& self.pending_admin.is_some() == (self.admin_transfer_initiated_at != 0)
        &&& self.fee_bps <= MAX_PLATFORM_FEE_BPS
    }

    /// A transfer of the admin role is in progress.
    pub fn has_pending_transfer(&self) -> (r: bool)
        ensures
            r == self.pending_admin.is_some(),
    {
        self.pending_admin.is_some()
    }

    /// A transfer is in progress and at least `timelock_seconds` have
    /// passed since it started.
    pub open spec fn transfer_unlocked(&self, current_time: i64, timelock_seconds: i64) -> bool {
        self.pending_admin.is_some() && current_time - self.admin_transfer_initiated_at
            >= timelock_seconds
    }

    /// Whether the transfer in progress may be completed now.
    pub fn can_complete_transfer(&self, current_time: i64, timelock_seconds: i64) -> (r: bool)
        ensures
            r == self.transfer_unlocked(current_time, timelock_seconds),
    {
        if self.pending_admin.is_none() {
            return false;
        }
        (current_time as i128) - (self.admin_transfer_initiated_at as i128)
            >= timelock_seconds as i128
    }
}

/// One block of consecutive ticket numbers: `start_number` and the
/// `quantity - 1` numbers after it.
#[derive(Clone, Copy, Debug, PartialEq, Eq, Structural)]
pub struct TicketBlock {
    pub start_number: u32,
    pub quantity: u32,
}

impl TicketBlock {
    /// Ticket number `n` lies in this block.
    pub open spec fn holds(&self, n: int) -> bool {
        self.start_number <= n < self.start_number + self.quantity
    }

    /// Whether ticket number `n` lies in this block.
    pub fn contains(&self, n: u32) -> (r: bool)
        ensures
            r == self.holds(n as int),
    {
        n >= self.start_number && (n as u64) < (self.start_number as u64) + (self.quantity as u64)
    }
}

/// One raffle.
#[derive(Clone, Debug)]
pub struct Raffle {
    pub id: u64,
    /// Admin who created the raffle.
    pub admin: Pubkey,
    /// Prize held in escrow, in lamports.
    pub prize_amount: u64,
    /// Price of one ticket in lamports; 0 for a free raffle.
    pub ticket_price: u64,
    pub max_tickets: u32,
    pub tickets_sold: u32,
    /// Cap on one wallet's tickets; 0 defers to the security config.
    pub max_tickets_per_wallet: u32,
    /// Sales close at this time.
    pub end_time: i64,
    pub is_free: bool,
    pub is_drawn: bool,
    /// Reentrancy guard, held while a prize payout is in flight.
    pub is_claiming: bool,
    pub is_paused: bool,
    /// Index of the winning ticket, meaningful once drawn.
    pub winning_ticket: u32,
    pub winner: Option<Pubkey>,
    pub is_claimed: bool,
    pub vrf_request: Option<Pubkey>,
    /// Output of a verifiable random function, when one was supplied.
    pub vrf_result: Vec<u8>,
    /// Slot of the draw request; 0 when none was made.
    pub draw_requested_slot: u64,
    pub created_at: i64,
    /// Platform fees accrued on this raffle's sales, in lamports.
    pub fees_collected: u64,
    pub bump: u8,
    pub vault_bump: u8,
}

impl Raffle {
    /// Sales never exceed the supply; a drawn ticket is one that was sold;
    /// a winner exists only once drawn, a claim only once a winner exists,
    /// and the payout guard is held only for an unclaimed winner.
    pub open spec fn wf(&self) -> bool {
        &&& self.tickets_sold <= self.max_tickets
        &&& self.is_drawn ==> self.winning_ticket < self.tickets_sold
        &&& self.winner.is_some() ==> self.is_drawn
        &&& self.is_claimed ==> self.winner.is_some()
        &&& self.is_claiming ==> self.winner.is_some() && !self.is_claimed
    }

    /// Sales are open at `current_time`: not paused, not drawn, not ended.
    pub open spec fn active_at(&self, current_time: i64) -> bool {
        current_time < self.end_time && !self.is_drawn && !self.is_paused
    }

    /// Whether the sale window has closed at `current_time`.
    pub fn has_ended(&self, current_time: i64) -> (r: bool)
        ensures
            r == (current_time >= self.end_time),
    {
        current_time >= self.end_time
    }

    /// Whether sales are open at `current_time`.
    pub fn is_active(&self, current_time: i64) -> (r: bool)
        ensures
            r == self.active_at(current_time),
    {
        !self.has_ended(current_time) && !self.is_drawn && !self.is_paused
    }

    /// Tickets still for sale (0 if more were sold than offered).
    pub open spec fn remaining(&self) -> int {
        if self.tickets_sold <= self.max_tickets {
            self.max_tickets - self.tickets_sold
        } else {
            0
        }
    }

    /// Number of tickets still for sale.
    pub fn remaining_tickets(&self) -> (r: u32)
        ensures
            r == self.remaining(),
    {
        self.max_tickets.saturating_sub(self.tickets_sold)
    }

    /// Whether `quantity` tickets could be sold at `current_time`.
    pub fn can_buy_tickets(&self, quantity: u32, current_time: i64) -> (r: bool)
        ensures
            r == (self.active_at(current_time) && self.remaining() >= quantity),
    {
        self.is_active(current_time) && self.remaining_tickets() >= quantity
    }
}

/// The tickets one wallet holds in one raffle.
#[derive(Clone, Debug)]
pub struct Ticket {
    /// Id of the raffle the tickets belong to.
    pub raffle: u64,
    pub owner: Pubkey,
    /// Number of tickets held, over all blocks.
    pub quantity: u32,
    /// The blocks bought, in purchase order.
    pub blocks: Vec<TicketBlock>,
    /// Time of the latest purchase.
    pub purchased_at: i64,
    pub bump: u8,
}

impl Ticket {
    /// A record that holds no tickets yet.
    pub fn empty(raffle: u64, owner: Pubkey) -> (r: Ticket)
        ensures
            r.raffle == raffle,
            r.owner == owner,
            r.quantity == 0,
            r.blocks@.len() == 0,
            r.purchased_at == 0,
            r.bump == 0,
    {
        Ticket { raffle, owner, quantity: 0, blocks: Vec::new(), purchased_at: 0, bump: 0 }
    }

    /// Ticket number `n` lies in one of the record's blocks.
    pub open spec fn holds(&self, n: int) -> bool {
        exists|i: int| 0 <= i < self.blocks@.len() && (#[trigger] self.blocks@[i]).holds(n)
    }

    /// Whether ticket number `n` belongs to this record.
    pub fn owns_number(&self, n: u32) -> (r: bool)
        ensures
            r == self.holds(n as int),
    {
        let mut i: usize = 0;
        while i < self.blocks.len()
            invariant
                0 <= i <= self.blocks@.len(),
                forall|j: int| 0 <= j < i ==> !(#[trigger] self.blocks@[j]).holds(n as int),
            decreases self.blocks@.len() - i,
        {
            if self.blocks[i].contains(n) {
                return true;
            }
            i += 1;
        }
        false
    }
}

/// Per-wallet purchase history, read for rate limiting.
#[derive(Clone, Copy, Debug, PartialEq, Eq, Structural)]
pub struct UserStats {
    pub wallet: Pubkey,
    pub last_purchase_time: i64,
    pub total_tickets_bought: u64,
    pub total_spent: u64,
    pub total_wins: u32,
    pub total_winnings: u64,
    pub raffles_participated: u32,
    pub is_flagged: bool,
    pub flagged_at: i64,
    pub flag_reason: u8,
    pub bump: u8,
}

impl UserStats {
    /// Fewer than `rate_limit_seconds` have passed since the last purchase.
    pub open spec fn rate_limited_at(&self, current_time: i64, rate_limit_seconds: i64) -> bool {
        current_time - self.last_purchase_time < rate_limit_seconds
    }

    /// Whether another purchase must wait at `current_time`.
    pub fn is_rate_limited(&self, current_time: i64, rate_limit_seconds: i64) -> (r: bool)
        ensures
            r == self.rate_limited_at(current_time, rate_limit_seconds),
    {
        (current_time as i128) - (self.last_purchase_time as i128) < rate_limit_seconds as i128
    }

    /// Seconds left until the next purchase is allowed.
    pub fn rate_limit_remaining(&self, current_time: i64, rate_limit_seconds: i64) -> (r: i64)
        requires
            self.rate_limited_at(current_time, rate_limit_seconds) ==> rate_limit_seconds - (
            current_time - self.last_purchase_time) <= i64::MAX,
        ensures
            r == if self.rate_limited_at(current_time, rate_limit_seconds) {
                rate_limit_seconds - (current_time - self.last_purchase_time)
            } else {
                0
            },
    {
        let elapsed: i128 = (current_time as i128) - (self.last_purchase_time as i128);
        if elapsed >= rate_limit_seconds as i128 {
            0
        } else {
            ((rate_limit_seconds as i128) - elapsed) as i64
        }
    }
}

/// A wallet's blacklist record; deactivated rather than deleted.
#[derive(Clone, Copy, Debug, PartialEq, Eq, Structural)]
pub struct BlacklistEntry {
    pub wallet: Pubkey,
    pub blacklisted_at: i64,
    pub blacklisted_by: Pubkey,
    /// 1 bot behaviour, 2 fraud, 3 terms violation, 4 admin discretion.
    pub reason: u8,
    pub is_active: bool,
    pub bump: u8,
}

/// Security settings read by ticket sales and draws.
#[derive(Clone, Copy, Debug, PartialEq, Eq, Structural)]
pub struct SecurityConfig {
    /// Minimum seconds between one wallet's purchases.
    pub rate_limit_seconds: i64,
    pub rate_limiting_enabled: bool,
    pub blacklist_enabled: bool,
    /// Draws take their randomness from a VRF result.
    pub vrf_required: bool,
    /// Slots that must pass after a draw request.
    pub min_block_confirmations: u64,
    /// Default cap on one wallet's tickets per raffle; 0 for none.
    pub max_tickets_per_wallet: u32,
    pub last_updated: i64,
    pub updated_by: Pubkey,
    pub bump: u8,
}

} // verus!
