use vstd::prelude::*;

verus! {

/// A lifetime name: one written in the source, or one introduced for an
/// elided borrow (numbered by the position of the parameter it belongs to).
#[derive(PartialEq, Eq, Debug)]
pub enum Lifetime {
    Named(String),
    Fresh(usize),
}

/// The types that the rewriter reads or synthesizes.
#[derive(PartialEq, Eq, Debug)]
pub enum Type {
    /// The unit type `()`.
    Unit,
    /// A type written as a path, such as `i32` or `Result<i32, ()>`.
    Path(String),
    /// A borrow of a path type; `None` when the lifetime is elided.
    Ref { lifetime: Option<Lifetime>, mutable: bool, target: String },
    /// `impl Iterator<Item = item> + 'a + ...` (or a stream of `item` when
    /// `stream` holds), bounded by every lifetime in `bounds`.
    Sequence { stream: bool, item: Box<Type>, bounds: Vec<Lifetime> },
}

/// One parameter; a receiver `&self` is the parameter `self` of type `&Self`.
#[derive(PartialEq, Eq, Debug)]
pub struct Param {
    pub name: String,
    pub ty: Type,
}

/// An attribute on a function.
#[derive(PartialEq, Eq, Debug)]
pub enum Attr {
    /// Any attribute the rewriter does not look at.
    Other(String),
    /// The directive that delegates to the error-wrapping convention, with the
    /// tokens the user supplied.
    Throws(String),
}

/// Expressions, reduced to what the rewriter distinguishes.
#[derive(PartialEq, Eq, Debug)]
pub enum Expr {
    /// `()`.
    Unit,
    /// A leaf: a path, a literal or other tokens without sub-expressions.
    Atom(String),
    /// `a; b`.
    Then(Box<Expr>, Box<Expr>),
    /// `f(arg)`.
    Call(Box<Expr>, Box<Expr>),
    /// `for pat in iter { body }`.
    For(String, Box<Expr>, Box<Expr>),
    /// A closure with the given body.
    Closure(Box<Expr>),
    /// A nested function item, in statement position.
    Item(Box<ItemFn>),
    /// The early-exit-on-error operator `e?`.
    Try(Box<Expr>),
    /// The emit operation `yield e`, or `yield` with no payload.
    Yield(Option<Box<Expr>>),
    /// The suspend-until-ready operation `e.await`.
    Await(Box<Expr>),
    /// Rewritten `e?` of a synchronous generator: extract the success value,
    /// or emit the failure once and end the computation.
    GenTry(Box<Expr>),
    /// Rewritten `e?` of an asynchronous generator: as `GenTry`, with the
    /// failure emitted as `Ready(failure)`.
    AsyncGenTry(Box<Expr>),
    /// Rewritten `yield e` of an asynchronous generator: emit `Ready(e)`.
    AsyncGenYield(Box<Expr>),
    /// Rewritten `e.await` of an asynchronous generator: poll `e` with the
    /// current poll context, emitting `Pending` while it is not ready.
    AsyncGenAwait(Box<Expr>),
    /// The finished body: a suspendable computation whose body is `body`
    /// followed by an unreachable terminal suspension, capturing locals by
    /// move when `by_move` holds, wrapped in the pull iterator adapter, or in
    /// the stream adapter when `stream` holds.
    Adapter { stream: bool, by_move: bool, body: Box<Expr> },
}

/// A function's signature.
#[derive(PartialEq, Eq, Debug)]
pub struct Signature {
    pub name: String,
    pub is_async: bool,
    /// The lifetime parameters, in declaration order.
    pub lifetimes: Vec<Lifetime>,
    pub inputs: Vec<Param>,
    /// The declared return type; `None` for an implicit `()`.
    pub output: Option<Type>,
}

/// A free function or a method of an impl block.
#[derive(PartialEq, Eq, Debug)]
pub struct ItemFn {
    pub attrs: Vec<Attr>,
    pub sig: Signature,
    pub body: Box<Expr>,
    pub is_method: bool,
}

/// The configuration option given to the function attribute.
#[derive(PartialEq, Eq, Debug)]
pub enum Args {
    /// `throws ...`, with the tokens after the option name.
    Throws(String),
    /// Any other option.
    Unrecognized(String),
}

impl Args {
    /// Reads the option given to the function attribute: its name, then the
    /// tokens after it.
    pub fn parse(option: String, rest: String) -> (r: Args)
        ensures
            option@ == "throws"@ ==> r == Args::Throws(rest),
            option@ != "throws"@ ==> r == Args::Unrecognized(option),
    {
        let throws = "throws".to_owned();
        if option == throws {
            Args::Throws(rest)
        } else {
            Args::Unrecognized(option)
        }
    }
}

/// Why a transformation was refused.
#[derive(PartialEq, Eq, Debug, Clone, Copy)]
pub enum TransformError {
    /// `e.await` in a synchronous generator.
    AwaitOutsideAsync,
    /// An option other than `throws`.
    UnknownOption,
    /// `throws` without the error-wrapping integration.
    ThrowsUnavailable,
}

} // verus!
