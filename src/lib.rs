//! Small, fully specified building blocks behind a tour of core language
//! features: shadowing, arithmetic, control flow, ownership, structs and
//! enums. Every demonstration computes the lines it would print, and its
//! contract states exactly what those lines are.
pub mod text;
pub mod variables_and_mutability;
pub mod control_flow;
pub mod data_types;
pub mod functions_in_rust;
pub mod ownership;
pub mod structs;
pub mod enums;
