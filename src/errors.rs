use vstd::prelude::*;

verus! {

/// Every failure an operation of the engine can report.
#[derive(Clone, Copy, Debug, PartialEq, Eq, Structural)]
pub enum PayrollError {
    Unauthorized,
    InvalidAdminSignature,
    InvalidPendingAdmin,
    AdminTransferNotInitiated,
    RaffleAlreadyDrawn,
    RaffleNotEnded,
    RaffleEnded,
    RaffleNotDrawn,
    RaffleAlreadyPaused,
    RaffleNotPaused,
    InvalidRaffleId,
    NotEnoughTickets,
    NoTicketsSold,
    NotWinningTicket,
    MaxTicketsPerWalletExceeded,
    InvalidTicketQuantity,
    TicketAlreadyExists,
    PrizeAlreadyClaimed,
    NotTheWinner,
    PrizeNotClaimed,
    WinnerAlreadySet,
    PrizeAmountExceedsMax,
    PrizeAmountBelowMin,
    TicketPriceBelowMin,
    TicketPriceExceedsMax,
    InsufficientVaultFunds,
    PlatformPaused,
    WalletBlacklisted,
    RateLimitExceeded,
    ReentrancyDetected,
    TimelockNotExpired,
    TimelockRequired,
    InsufficientConfirmations,
    VrfRequestPending,
    VrfRequestExpired,
    InvalidVrfProof,
    VrfCallbackMismatch,
    VrfResultNotAvailable,
    MathOverflow,
    MathUnderflow,
    DivisionByZero,
    InvalidTimestamp,
    DurationTooShort,
    DurationTooLong,
    InvalidAccountData,
    InvalidPDA,
    AccountNotInitialized,
    AccountAlreadyInitialized,
    InvalidAccountOwner,
    AccountDataMismatch,
    InvalidVault,
}

/// Numeric code of each error: the hundreds group the category
/// (authorization, raffle state, tickets, prize, security, randomness,
/// arithmetic, accounts) above a base of 6000.
pub open spec fn error_code(e: PayrollError) -> u32 {
    match e {
        PayrollError::Unauthorized => 6000,
        PayrollError::InvalidAdminSignature => 6001,
        PayrollError::InvalidPendingAdmin => 6002,
        PayrollError::AdminTransferNotInitiated => 6003,
        PayrollError::RaffleAlreadyDrawn => 6100,
        PayrollError::RaffleNotEnded => 6101,
        PayrollError::RaffleEnded => 6102,
        PayrollError::RaffleNotDrawn => 6103,
        PayrollError::RaffleAlreadyPaused => 6104,
        PayrollError::RaffleNotPaused => 6105,
        PayrollError::InvalidRaffleId => 6106,
        PayrollError::NotEnoughTickets => 6200,
        PayrollError::NoTicketsSold => 6201,
        PayrollError::NotWinningTicket => 6202,
        PayrollError::MaxTicketsPerWalletExceeded => 6203,
        PayrollError::InvalidTicketQuantity => 6204,
        PayrollError::TicketAlreadyExists => 6205,
        PayrollError::PrizeAlreadyClaimed => 6300,
        PayrollError::NotTheWinner => 6301,
        PayrollError::PrizeNotClaimed => 6302,
        PayrollError::WinnerAlreadySet => 6303,
        PayrollError::PrizeAmountExceedsMax => 6304,
        PayrollError::PrizeAmountBelowMin => 6305,
        PayrollError::TicketPriceBelowMin => 6306,
        PayrollError::TicketPriceExceedsMax => 6307,
        PayrollError::InsufficientVaultFunds => 6308,
        PayrollError::PlatformPaused => 6400,
        PayrollError::WalletBlacklisted => 6401,
        PayrollError::RateLimitExceeded => 6402,
        PayrollError::ReentrancyDetected => 6403,
        PayrollError::TimelockNotExpired => 6404,
        PayrollError::TimelockRequired => 6405,
        PayrollError::InsufficientConfirmations => 6406,
        PayrollError::VrfRequestPending => 6500,
        PayrollError::VrfRequestExpired => 6501,
        PayrollError::InvalidVrfProof => 6502,
        PayrollError::VrfCallbackMismatch => 6503,
        PayrollError::VrfResultNotAvailable => 6504,
        PayrollError::MathOverflow => 6600,
        PayrollError::MathUnderflow => 6601,
        PayrollError::DivisionByZero => 6602,
        PayrollError::InvalidTimestamp => 6603,
        PayrollError::DurationTooShort => 6604,
        PayrollError::DurationTooLong => 6605,
        PayrollError::InvalidAccountData => 6606,
        PayrollError::InvalidPDA => 6607,
        PayrollError::AccountNotInitialized => 6700,
        PayrollError::AccountAlreadyInitialized => 6701,
        PayrollError::InvalidAccountOwner => 6702,
        PayrollError::AccountDataMismatch => 6703,
        PayrollError::InvalidVault => 6704,
    }
}

impl PayrollError {
    /// The error's numeric code.
    pub fn code(&self) -> (r: u32)
        ensures
            r == error_code(*self),
    {
        match self {
            PayrollError::Unauthorized => 6000,
            PayrollError::InvalidAdminSignature => 6001,
            PayrollError::InvalidPendingAdmin => 6002,
            PayrollError::AdminTransferNotInitiated => 6003,
            PayrollError::RaffleAlreadyDrawn => 6100,
            PayrollError::RaffleNotEnded => 6101,
            PayrollError::RaffleEnded => 6102,
            PayrollError::RaffleNotDrawn => 6103,
            PayrollError::RaffleAlreadyPaused => 6104,
            PayrollError::RaffleNotPaused => 6105,
            PayrollError::InvalidRaffleId => 6106,
            PayrollError::NotEnoughTickets => 6200,
            PayrollError::NoTicketsSold => 6201,
            PayrollError::NotWinningTicket => 6202,
            PayrollError::MaxTicketsPerWalletExceeded => 6203,
            PayrollError::InvalidTicketQuantity => 6204,
            PayrollError::TicketAlreadyExists => 6205,
            PayrollError::PrizeAlreadyClaimed => 6300,
            PayrollError::NotTheWinner => 6301,
            PayrollError::PrizeNotClaimed => 6302,
            PayrollError::WinnerAlreadySet => 6303,
            PayrollError::PrizeAmountExceedsMax => 6304,
            PayrollError::PrizeAmountBelowMin => 6305,
            PayrollError::TicketPriceBelowMin => 6306,
            PayrollError::TicketPriceExceedsMax => 6307,
            PayrollError::InsufficientVaultFunds => 6308,
            PayrollError::PlatformPaused => 6400,
            PayrollError::WalletBlacklisted => 6401,
            PayrollError::RateLimitExceeded => 6402,
            PayrollError::ReentrancyDetected => 6403,
            PayrollError::TimelockNotExpired => 6404,
            PayrollError::TimelockRequired => 6405,
            PayrollError::InsufficientConfirmations => 6406,
            PayrollError::VrfRequestPending => 6500,
            PayrollError::VrfRequestExpired => 6501,
            PayrollError::InvalidVrfProof => 6502,
            PayrollError::VrfCallbackMismatch => 6503,
            PayrollError::VrfResultNotAvailable => 6504,
            PayrollError::MathOverflow => 6600,
            PayrollError::MathUnderflow => 6601,
            PayrollError::DivisionByZero => 6602,
            PayrollError::InvalidTimestamp => 6603,
            PayrollError::DurationTooShort => 6604,
            PayrollError::DurationTooLong => 6605,
            PayrollError::InvalidAccountData => 6606,
            PayrollError::InvalidPDA => 6607,
            PayrollError::AccountNotInitialized => 6700,
            PayrollError::AccountAlreadyInitialized => 6701,
            PayrollError::InvalidAccountOwner => 6702,
            PayrollError::AccountDataMismatch => 6703,
            PayrollError::InvalidVault => 6704,
        }
    }
}

} // verus!
