//! A verified core for a template-scaffolding tool: composable substring
//! filters, template-directory metadata loading, file classification,
//! catalog building around an external template compiler, and a renderer
//! that turns a catalog entry plus variable bindings into a plan of
//! output-file actions.

pub mod classify;
pub mod compiler;
pub mod errors;
pub mod filter;
pub mod metadata;
pub mod paths;
pub mod picker;
pub mod render;
pub mod templating;
pub mod text;
