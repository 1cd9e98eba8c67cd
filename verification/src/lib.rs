//! Sans-I/O core of a ledger client: it decides how a transaction is built,
//! signed, completed with outside signatures and revealed, and leaves every
//! call into the ledger to the host that drives it.
//!
//! Each operation of a session is a flow. A flow begins with a first
//! effect for the host to perform, and is stepped with the host's reply to
//! each effect until it completes or fails. What a flow asks for, and in
//! what order, is stated and proved in the module of the flow.

#![allow(unused_imports)]

pub mod append;
pub mod dispatch;
pub mod error;
pub mod flow;
pub mod kinds;
pub mod masp;
pub mod process;
pub mod reveal_pk;
pub mod sdk;
pub mod signature;
pub mod signing;
pub mod tx;
pub mod wire;

pub use error::SdkError;
pub use flow::{Effect, Next, Reply};
pub use kinds::TxType;
pub use sdk::Sdk;
pub use tx::BuiltTx;
