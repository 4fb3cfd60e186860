pub mod forward;
pub mod rewrite;
