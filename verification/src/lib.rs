//! Runtime support for a compiled lazy functional language: the uniform
//! closure shape of every runtime value, the algebraic values built on it,
//! the terms of allocation, and the decisions behind the fatal
//! match-failure report.

pub mod algebraic;
pub mod allocation;
pub mod closure;
pub mod failure;
pub mod terminal;
