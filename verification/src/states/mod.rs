//! The durable state of a sale.

pub mod pool;

pub use pool::PoolAccount;
