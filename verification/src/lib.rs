//! A programmatic writer for ninja build files.
//!
//! A [`Ninja`](ninja::Ninja) document collects statements (rules, build
//! edges, pools, variables, comments, defaults, subninja and include
//! lines) in insertion order and renders them to the exact textual syntax
//! the ninja build tool expects.  Every rendering function is specified
//! against a mathematical model of the document, and the escaping rules
//! for the three escaping policies are fully verified.

pub mod arg;
pub mod build_edge;
pub mod ninja;
pub mod pool;
pub mod rule;
pub mod stmt;
pub mod util;
pub mod variable;

pub use arg::ToArg;
pub use build_edge::{Build, BuildRef};
pub use ninja::Ninja;
pub use pool::{Pool, PoolRef};
pub use rule::{Rule, RuleRef, RuleVariables};
pub use stmt::{Stmt, StmtRef};
pub use util::{escape, escape_build, escape_impl, escape_path, AddOnlyVec, Indented};
pub use variable::{Variable, Variables};
