//! A qualified-name tree rewriter that injects timing instrumentation.
//!
//! Given a syntax tree for a module, trait, or implementation block, the
//! rewriter walks it while keeping a stack of name components that tracks
//! lexical nesting.  Every free function and implementation method not
//! opted out by a marker attribute gets one guard statement, carrying the
//! `::`-joined qualified name built from the stack, prepended to its body;
//! everything else in the tree is preserved as it was.
//!
//! The tree types live in [`ast`], marker recognition and name composition
//! in [`naming`], the model-level definition of the rewrite in [`rewrite`],
//! the traversal itself in [`rewriter`], and the properties it keeps in
//! [`laws`].

pub mod ast;
pub mod laws;
pub mod naming;
pub mod rewrite;
pub mod rewriter;

pub use rewriter::{notiming, timing, Timing};
