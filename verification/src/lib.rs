pub mod laws;
pub mod node;
pub mod rast;

pub use node::{Argument, ExtractionError, Kind, ParseNode};
pub use rast::{recognize, reinterpret_call, sexp_to_ast, BuildError, Expr, Form, Keyword, Value};
