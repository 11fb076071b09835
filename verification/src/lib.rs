//! Opening, sharing, typing, measuring and closing LMDB environments.
//!
//! Every decision of an environment's life is taken here, on plain values: which LMDB calls
//! to make and in which order, what each reply means, which environments are open, which types
//! a database has. The calls into LMDB itself are made by the caller, who
//! hands their return codes back.

mod bytes;
pub mod canonical;
pub mod closing;
pub mod database;
pub mod env;
pub mod error;
pub mod event;
pub mod flags;
pub mod laws;
pub mod message;
pub mod opening;
pub mod options;
pub mod path;
pub mod registry;
pub mod share;
pub mod size;
pub mod terms;
pub mod txn;
pub mod upkeep;
pub mod walks;

pub use crate::closing::EnvClosingEvent;
pub use crate::database::{Database, DatabaseType, PolyDatabase};
pub use crate::env::Env;
pub use crate::error::{Error, MdbError};
pub use crate::flags::Flag;
pub use crate::options::EnvOpenOptions;
pub use crate::registry::env_closing_event;
pub use crate::txn::{RoTxn, RwTxn};
pub use crate::upkeep::{CompactionOption, EnvInfo};
