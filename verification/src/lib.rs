//! A CMSIS-SVD style hardware description library: it turns a markup tree
//! describing a device (peripherals, registers, fields, interrupts) into a
//! fully resolved, strongly typed model, and encodes that model back into a
//! markup tree.
//!
//! The markup tree itself is the plain [`tree::Element`] type of this crate;
//! reading real documents from text and writing them back is left to thin
//! adapters around the library.

pub mod encode;
pub mod errors;
pub mod parse;
pub mod resolve;
pub mod svd;
pub mod tree;
