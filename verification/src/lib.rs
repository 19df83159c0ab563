//! Token input for a backtracking parser: sources of tokens addressed by
//! offsets, wrappers that reshape their spans, and the cursor that a parser
//! threads through a parse.

pub mod cursor;
pub mod error;
pub mod extra;
pub mod input;
pub mod memo;
pub mod model;
pub mod slice;
pub mod span;
pub mod spanned;
pub mod text;
pub mod with_context;
