//! A reduction engine for a minimal combinator machine whose programs and
//! data are both nouns: finite binary trees with natural numbers at the
//! leaves.
//!
//! A caller builds the pair `(subject . formula)`, hands it to
//! [`engine::nock`] once, and receives the noun it reduces to, or the reason
//! why it reduces to none.

pub mod decrement;
pub mod engine;
pub mod equality;
pub mod error;
pub mod laws;
pub mod noun;
pub mod path;
pub mod render;
pub mod semantics;

pub use crate::engine::nock;
pub use crate::equality::noun_eq;
pub use crate::error::NockError;
pub use crate::noun::{Atom, Cell, Noun, NounInner};
pub use crate::path::{read_at, rplc_at};
pub use crate::semantics::{NAH, YES};
