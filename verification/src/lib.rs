//! A small drawing library with textual vector-markup output.
//!
//! A figure is built as a tree of [`Fig`] values, optionally wrapped in
//! style ([`Attr`]) and transform ([`Trans`]) groups, gathered under an
//! [`Svg`] root, and rendered to markup text by pure, verified recursive
//! descent.

pub mod attr;
pub mod color;
pub mod fig;
pub mod num;
pub mod svg;
pub mod text;
pub mod trans;

pub use attr::Attr;
pub use color::Color;
pub use fig::Fig;
pub use num::Num;
pub use svg::Svg;
pub use trans::Trans;
pub use trans::Transform;
