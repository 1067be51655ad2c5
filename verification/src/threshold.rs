//! Threshold constants from the specification, in millionths of their unit.
//!
//! Every threshold and floor lives here as a named constant; evaluation
//! logic uses no other numbers.

pub mod autonomous_agency;
pub mod consistency;
pub mod economic_substitutability;
pub mod environmental_transfer;
pub mod generality;
