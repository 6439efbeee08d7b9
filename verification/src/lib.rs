//! Building blocks of an arbitrage-checked implied-volatility smile: the
//! records, the same-expiry aggregate and the controllers of the numerical
//! searches, each with a machine-checked contract.

pub mod deribit;
pub mod errors;
pub mod fitting;
pub mod grid_search;
pub mod option_instrument;
pub mod pricing;
pub mod quantity;
pub mod smile_graph;
pub mod solver;
pub mod surface;
pub mod svi;
pub mod text;
pub mod validation;
