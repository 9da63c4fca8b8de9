//! A type checker for a small lambda calculus with products and functions,
//! and the decoding of a console font header.
pub mod context;
pub mod psf;
pub mod term;
pub mod types;

pub use context::{Context, judgment_ctx, not_in, var_has_type};
pub use psf::{from_le, psf2_header};
pub use term::{Term, judgment_check};
pub use types::{Type, judgment, type_equality};
