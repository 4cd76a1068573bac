//! The verified core of a binding to Emacs's dynamic-module interface.
//!
//! Emacs is reached through its C module interface only by whoever holds a
//! live Emacs environment. This crate decides what to ask of Emacs and what
//! to make of the replies: the `Request`s and `Call`s it hands out are
//! performed by that code, which hands the results back.
pub mod call;
pub mod codegen;
pub mod env;
pub mod error;
pub mod func;
pub mod global;
pub mod subr;
pub mod text;
pub mod types;
pub mod value;

pub use crate::env::Env;
pub use crate::error::{Error, ErrorKind, Result};
pub use crate::func::{CallEnv, Lambda, LispFn};
pub use crate::global::{Fn, GlobalRef, LazyGlobalRef, Symbol};
pub use crate::types::vector::Vector;
pub use crate::value::Value;
