//! Structural checking of computation arguments against the parameter schema
//! of a confidential computation, plus the small pure pieces around it: the
//! offset that names a computation definition, the tallying rules of the
//! voting circuits, and the shapes of encrypted outputs.
pub mod laws;
pub mod matching;
pub mod offset;
pub mod outputs;
pub mod types;
pub mod voting;
