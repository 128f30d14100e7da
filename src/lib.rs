//! Chat-bot command helpers: a hierarchical help-text renderer and the
//! decision logic around the image, joke and quote commands.
pub mod help;
pub mod fetch;
pub mod quote;
pub mod image;
pub mod joke;
