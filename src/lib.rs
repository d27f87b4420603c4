//! The verified core of a small inference service: converting numeric
//! payloads to device arrays and back, and running one inference request
//! against a shared context.
//!
//! Values travel as the IEEE 754 bit patterns of single-precision numbers,
//! so that every step is exact and can be stated over plain integers.
pub mod device;
pub mod convert;
pub mod context;
