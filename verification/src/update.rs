//! The self-update engine, one module per component.
pub mod asset;
pub mod feed;
pub mod gate;
pub mod plan;
pub mod version;
pub mod launch;
pub mod extract;
pub mod swap;
pub mod dispatch;
pub mod indicator;
