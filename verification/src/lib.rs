//! A closed-loop production-backed token economy: production declarations
//! raise a target supply, an equalizer mints the gap into a distribution
//! pool, spoiled value is burned, and transfers pay a tax to a treasury.

pub mod contract;
pub mod error;
pub mod events;
pub mod host;
pub mod laws;
pub mod ledger;

pub use contract::{RealFlowContract, HOT_THRESHOLD};
pub use error::Error;
pub use events::{
    BurnedEvent, HotTokenMintedEvent, MintedEvent, ProductionAddedEvent, TransactionVelocityEvent,
};
pub use ledger::{ActorId, BalanceLedger};
