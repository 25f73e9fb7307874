//! Request construction and response normalization for a conversational
//! search service: a chosen mode becomes a wire request, and the service's
//! reply becomes a text body with a list of sources.

pub mod format;
pub mod intent;
pub mod json;
pub mod laws;
pub mod normalize;
pub mod request;
pub mod resolve;
pub mod response;
pub mod text;
pub mod transport;
