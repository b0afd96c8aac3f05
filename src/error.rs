use vstd::prelude::*;

verus! {

/// Everything that can go wrong while decoding or parsing a frame.
#[derive(Clone, Copy, Debug, PartialEq, Eq, Structural)]
pub enum Error {
    /// A byte that is not an ASCII hex digit, or a value that has no hex digit.
    Hex(u8),
    /// The input ended before the frame was complete.
    Length,
    /// The frame is empty, has no checksum byte, or its checksum is wrong.
    Checksum,
    /// The frame's type code is not a known response code.
    Response(u8),
    /// The error code of an error response is not a known one.
    Error(u16),
    /// The payload is too short for a fixed-width field.
    Slice,
    /// The flags byte has bits that no flag uses.
    Flags(u8),
    /// The item id is not a known one.
    Item(u16),
}

} // verus!
