//! Custody and lifecycle rules of a buyer / vault / seller settlement flow,
//! with order fulfilment tracking.

pub mod error;
pub mod ident;
pub mod states;
pub mod settlement;
pub mod fulfilment;
