//! A printer that turns a syntax tree of JavaScript, TypeScript or JSX back into source text,
//! together with the byte-level scanner and tokenizer that sit beside it.

pub mod ast;
pub mod codegen;
pub mod comment;
pub mod context;
pub mod emit;
pub mod fast_buffer;
pub mod fixtures;
pub mod gen;
pub mod hash;
pub mod hot;
pub mod identifier;
pub mod jsx;
pub mod number;
pub mod number_value;
pub mod operator;
pub mod options;
pub mod scoping;
pub mod sourcemap;
pub mod spine;
pub mod stack;
pub mod state;
pub mod string;
pub mod text;
pub mod token;
pub mod traits;
pub mod typescript;
pub mod utf8;

pub use codegen::{Codegen, CodegenReturn};
pub use context::Context;
pub use fast_buffer::IndentChar;
pub use options::{CodegenOptions, CommentOptions, LegalComment};
pub use traits::{Gen, GenExpr};
