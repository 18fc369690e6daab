//! Tagged-word representation of Lisp values and a typed, non-owning handle
//! for objects that live in the Lisp runtime's heap.
//!
//! `remacs_sys` holds the parameters of the runtime's encoding; `lisp` holds
//! the value type, the handle type and the laws that relate their operations.

pub mod laws;
pub mod lisp;
pub mod remacs_sys;
