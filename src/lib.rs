//! A ticket-sale lottery engine with an escrowed prize: raffle lifecycle,
//! platform governance, security guards, winner selection and checked
//! arithmetic, each operation a pure transition over plain state values.
pub mod admin;
pub mod bytes;
pub mod constants;
pub mod errors;
pub mod identity;
pub mod lifecycle;
pub mod math;
pub mod randomness;
pub mod security;
pub mod state;

pub use errors::PayrollError;
pub use identity::Pubkey;
pub use state::{BlacklistEntry, Platform, Raffle, SecurityConfig, Ticket, TicketBlock, UserStats};
