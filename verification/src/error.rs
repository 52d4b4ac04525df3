use vstd::prelude::*;

verus! {

/// The closed set of decode-failure kinds shared by the message decoder and
/// the frame assembler.
///
/// `LogicError` marks a value outside the representable domain (a defect in
/// the decoder itself rather than bad input), so it is distinguishable from
/// the input-caused kinds.
#[derive(Clone, Copy, Debug, PartialEq, Eq, Structural)]
pub enum Gdl90Error {
    UnknownMessageType,
    ReservedContent,
    InvalidMessage,
    LogicError,
}

} // verus!
