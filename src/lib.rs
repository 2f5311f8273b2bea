//! A statement-safety guard: refuses UPDATE and DELETE statements that
//! carry no filter predicate, looking into the nested queries of modifying
//! common table expressions, and hands every statement it lets through on
//! to the interposer that was installed before it.

pub mod policy;
pub mod query;
pub mod registry;
