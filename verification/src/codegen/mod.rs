//! What the `defun` and `module` attribute macros decide: the Lisp names of
//! things, the checks on an exported function's signature, the plan of the
//! wrapper code, and the parsing of the macros' options.
pub mod func;
pub mod module;
pub mod util;
