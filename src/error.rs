use vstd::prelude::*;

verus! {

/// The ways decoding or encoding a table can fail.
#[derive(Clone, Copy, Debug, PartialEq, Eq, Structural)]
pub enum DbfError {
    /// The codepage marker is not in the codepage table, or its label names
    /// no known text encoding.
    UnknownCodepage,
    /// A field descriptor carries a type tag that is not a field kind.
    UnsupportedFieldType,
    /// Bytes could not be turned into a value: wrong width or bad content.
    DecodeError,
    /// A value could not be turned into bytes of the expected width.
    EncodeError,
    /// A field's byte range falls outside the record buffer.
    BoundsError,
    /// The file header is truncated or holds an impossible value.
    MalformedHeader,
    /// The field descriptor area is truncated or lacks its terminator.
    MalformedDescriptor,
}

} // verus!
