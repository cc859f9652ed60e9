//! Parts of the mobile link entity.

pub mod mle_router;
