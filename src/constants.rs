use vstd::prelude::*;

verus! {

/// Default cap on the tickets one wallet may hold in one raffle.
pub const MAX_TICKETS_PER_WALLET: u32 = 100;

/// Largest number of tickets a raffle may offer.
pub const MAX_TICKETS_PER_RAFFLE: u32 = 10_000;

/// Shortest sale window of a raffle, in seconds (one hour).
pub const MIN_RAFFLE_DURATION: i64 = 3600;

/// Longest sale window of a raffle, in seconds (thirty days).
pub const MAX_RAFFLE_DURATION: i64 = 2_592_000;

/// Largest prize, in lamports (1000 SOL).
pub const MAX_PRIZE_AMOUNT: u64 = 1_000_000_000_000;

/// Smallest prize, in lamports (0.1 SOL).
pub const MIN_PRIZE_AMOUNT: u64 = 100_000_000;

/// Lowest price of a ticket in a paid raffle, in lamports.
pub const MIN_TICKET_PRICE: u64 = 1_000_000;

/// Highest price of a ticket, in lamports (10 SOL).
pub const MAX_TICKET_PRICE: u64 = 10_000_000_000;

/// Fee rate a new platform starts with, in basis points (3%).
pub const PLATFORM_FEE_BPS: u16 = 300;

/// Highest fee rate the admin may set, in basis points (10%).
pub const MAX_PLATFORM_FEE_BPS: u16 = 1000;

/// Basis points in a whole.
pub const BPS_DENOMINATOR: u16 = 10_000;

/// Default minimum spacing of one wallet's purchases, in seconds.
pub const RATE_LIMIT_SECONDS: i64 = 30;

/// Minimum spacing of throttled admin actions, in seconds.
pub const ADMIN_RATE_LIMIT_SECONDS: i64 = 60;

/// Time that must pass between starting and completing an admin transfer
/// (24 hours).
pub const ADMIN_TIMELOCK_SECONDS: i64 = 86_400;

/// Timelock for emergency actions (one hour).
pub const EMERGENCY_TIMELOCK_SECONDS: i64 = 3_600;

/// Default number of slots that must pass after a draw request.
pub const MIN_BLOCK_CONFIRMATIONS: u64 = 32;

/// Time after which a pending VRF request counts as expired, in seconds.
pub const VRF_TIMEOUT_SECONDS: i64 = 300;

/// Compute budget granted to a VRF callback.
pub const VRF_CALLBACK_GAS: u64 = 100_000;

} // verus!
