//! Verified core of a rule-based proxy: the domain rules of the router and the
//! decisions of the TUIC outbound.
pub mod rules;
pub mod session;
pub mod text;
pub mod tuic;
