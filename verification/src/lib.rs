//! A checked object model for the declaration layer of an SMT engine.
//!
//! Contexts, symbols, sorts, function declarations and algebraic datatypes
//! are held as plain values, each tied to the context it was made under.
//! Every object but a context borrows its context, so none can be kept
//! beyond it, and objects of two contexts are never equal.
//!
//! The library makes no call into the engine. It says what is to be asked of
//! it and reads what it answered: a driver opens the session and hands the
//! handle to [`Context::new`], declares what the descriptions say, runs the
//! checks and hands the answers to [`Solver::check`]. What the library
//! states of its values is proved for every input; the module `laws` holds
//! what follows for the library as a whole.

pub mod config;
pub mod context;
pub mod datatype_builder;
pub mod func_decl;
pub mod laws;
pub mod solver;
pub mod sort;
pub mod symbol;
pub mod text;

pub use config::Config;
pub use context::{Activity, Context, ContextError};
pub use datatype_builder::{DatatypeBuilder, DatatypeSort, DatatypeVariant, FieldSort};
pub use func_decl::{DeclKind, FuncDecl};
pub use solver::{Model, Optimize, SatResult, Solver};
pub use sort::{Sort, SortKind};
pub use symbol::Symbol;
