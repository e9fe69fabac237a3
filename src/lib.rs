//! Resolution of accepted transactions and of the UTXO entries they spent.
//!
//! Given a consistent snapshot of the node's stores (the selected chain,
//! header DAA scores, acceptance data, block transactions, UTXO diffs and the
//! virtual UTXO set), the library finds the chain block that accepted a
//! transaction, by a bisection over chain positions keyed by DAA score, and
//! rebuilds each accepted transaction with the entry spent by each input:
//! from the accepting block's removed entries, from the outputs of the same
//! batch, or from the transaction that created the output within the same
//! acceptance window.

pub mod hash;
pub mod tx;
pub mod error;
pub mod stores;
pub mod acceptance;
pub mod collect;
pub mod inquirer;
pub mod populate;
pub mod block_population;
pub mod laws;
pub mod dirs;
pub mod node_dirs;
