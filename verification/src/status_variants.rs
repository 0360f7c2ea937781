//! The companion namespace of the [`Status`](crate::status::Status)
//! example: the payload structs synthesized for its unit and struct
//! variants, exactly as the transformation names and shapes them.

use vstd::prelude::*;

verus! {

/// The payload synthesized for the unit variant `Ready`: no fields.
#[derive(Debug, Clone, Copy, PartialEq, Eq, Structural)]
pub struct Ready;

/// The payload synthesized for the struct variant
/// `Window { width, height }`: the same named fields, in order.
#[derive(Debug, Clone, Copy, PartialEq, Eq, Structural)]
pub struct Window {
    pub width: u16,
    pub height: u16,
}

} // verus!
