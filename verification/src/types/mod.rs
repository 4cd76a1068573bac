//! Rust types that stand for kinds of Lisp values.
pub mod vector;
