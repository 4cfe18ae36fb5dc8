//! Link previews: the title, description, canonical URL, site name and image
//! of a web page, each chosen from a fixed, ordered list of candidate tags.

pub mod page;
pub mod resolve;
pub mod preview;
pub mod laws;

pub use preview::{Preview, PreviewResponse};
