//! Host-side bookkeeping for embedding a managed-memory script engine: the
//! engine's process-wide lifecycle, realm entry and exit, rooted values, and the
//! decisions of one evaluate-and-print session.
pub mod engine;
pub mod error;
pub mod eval;
pub mod realm;
pub mod roots;
pub mod session;
