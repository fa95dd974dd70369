//! A channel that may or may not be async, together with the effect-rewriting
//! logic behind the `maybe` attribute: one function or trait body is written
//! once and split into a variant per effect (`async`, `try`) plus a plain one.

pub mod channel;
pub mod effects;
pub mod expand;
pub mod iter;
pub mod keyword;
pub mod rewrite;
pub mod sleep;
pub mod syntax;

pub use channel::{bounded, unbounded, NextResult, Receiver, SendError, SendResult, Sender};
pub use effects::{mk_box, AllocError, Effects};
pub use iter::Iterator;
