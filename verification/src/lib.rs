//! Diagnostics of the semantic checker: every error the checker can report,
//! the stable code and short description it carries, and the IDE diagnostic
//! (message, severity, notes, related locations, quick fixes) rendered from
//! it. The values an error refers to (names, type names, source spans) are
//! held resolved, so rendering is a pure function of the error.
pub mod text;
pub mod diag;
pub mod hir;
pub mod e03_type;
pub mod e3_type;
pub mod literals;
pub mod coerce;
pub mod var_error;
pub mod utils;
pub mod e14_config;
pub mod e15_pragma;
pub mod std_text;
pub mod source;
pub mod order;
pub mod seqs;
pub mod e8_subrange;
pub mod e2_resolve;
pub mod e02_resolve;
pub mod e5_inheritance;
pub mod e08_call;
pub mod e01_duplicates;
pub mod e1_duplicates;
pub mod path_error;
pub mod stmt;
pub mod body_inference;
pub mod inheritance;
pub mod e10_control_flow;
pub mod e10_visibility;
pub mod e12_control_flow;
pub mod e09_reference;
pub mod e06_enum;
pub mod e04_init;
pub mod e05_array;
pub mod e6_array;
pub mod e4_visibility;
pub mod e7_enum;
pub mod e9_recursion;
pub mod duplicates;
pub mod visibility;
pub mod ty;
pub mod init_inference;
pub mod init_expr;
pub mod array;
pub mod enum_;
pub mod subrange;
pub mod scope;
pub mod recursion;
pub mod syntax;
pub mod path_expr;
pub mod e11_oop;
pub mod e00_syntax;
pub mod e0_syntax;
pub mod catalogue;
pub mod analysis_error;
