use vstd::prelude::*;

verus! {

/// Every way in which an operation can fail.
#[derive(Debug)]
pub enum EsError {
    /// The transport could not complete the exchange; carries its message.
    Transport(String),
    /// The server answered with a status that the operation does not expect.
    UnexpectedStatus(u16),
    /// The response lacks the named field, or holds it with the wrong JSON type.
    Decode(String),
    /// A hit's document was asked for, but the hit carries no `_source`.
    NoSourceField,
}

} // verus!
