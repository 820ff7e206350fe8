//! Runtime arithmetic and policy of the CHIVE parachain: time and currency
//! units, storage deposits, the weight-to-fee polynomial, proxy filtering and
//! the mapping from a block author's key to its account.

pub mod currency;

pub use currency::{
    deposit, Balance, BlockNumber, Nonce, CENTS, DAYS, DOLLARS, EXISTENTIAL_DEPOSIT, HOURS,
    MILLICENTS, MILLISECS_PER_BLOCK, MINUTES, SLOT_DURATION,
};
pub mod fee;
pub mod proxy;
pub mod authorship;
pub mod version;
