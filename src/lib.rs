//! Generators written in direct style: a syntax rewriter that turns a function
//! using emit, early-exit and await constructs into one that returns a lazily
//! driven sequence, and the runtime adapters that drive the resulting
//! suspendable computation as a pull iterator or a poll-driven stream.
pub mod state;
pub mod adapter;
pub mod body;
pub mod syntax;
pub mod rewrite;

pub use state::{AsyncGenerator, Generator, GeneratorState, Poll};
pub use adapter::{GenIter, GenStream};
pub use body::{AsyncBody, AsyncStep, Body, Step};
pub use rewrite::{async_gen, async_gen_move, gen, gen_move, generator};
