//! The ways in which a field of outside data can fail its reader.

use vstd::prelude::*;

verus! {

/// What is wrong with a field of a stored row or of a callback.
#[derive(Clone, Copy, Debug, PartialEq, Eq, Structural)]
pub enum FieldFault {
    /// There is no field of that name.
    Absent,
    /// The field is not of the type that it should have.
    WrongType,
    /// The field is a number that cannot be read.
    Unparsable,
    /// The number is not a month of the year, or not a day of a month.
    OutOfRange,
}

} // verus!
