//! What the hook does with a save request.
pub mod scores;
