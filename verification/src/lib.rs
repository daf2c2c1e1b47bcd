//! Verified building blocks for two benchmark drivers: one that deploys a
//! contract into an in-memory EVM and times calls to it, and one that times
//! field, curve and pairing arithmetic on BN254.
//!
//! The drivers themselves read the command line and the clock and print
//! their measurements. What they decide on the way is decided here:
//!
//! - [`args`] reads the EVM runner's command line;
//! - [`hexdata`] turns hexadecimal text into bytes;
//! - [`bytecode`] builds the init code that installs a contract's runtime
//!   code;
//! - [`deploy`] sends that init code to the EVM and reports the new
//!   contract's address;
//! - [`operation`] knows the arithmetic operations by name and how often
//!   each is repeated inside one timed run;
//! - [`decimal`] and [`text`] read numbers and compare strings.

pub mod args;
pub mod bytecode;
pub mod decimal;
pub mod deploy;
pub mod hexdata;
pub mod operation;
pub mod text;
