//! Data model and rules of a help-card renderer: colours, the options that describe
//! a help page, the flex layout settings, and the conversions between the binding-side
//! and renderer-side option types.

pub mod color;
pub mod error;
pub mod layout;
pub mod node;
pub mod options;

pub use color::Color;
pub use error::Error;
pub use layout::{FlexDirection, FlexWrap};
