//! Parameter-set identifiers, shared by SPS and PPS syntax.

use vstd::prelude::*;

verus! {

/// A parameter-set id outside the legal range `[0, 31]`.
#[derive(Debug, Clone, Copy, PartialEq, Eq)]
pub enum ParamSetIdError {
    IdTooLarge(u32),
}

/// Identifies an SPS or PPS; legal values lie in `[0, 31]`.  Out-of-range values
/// are a reported error (`ParamSetIdError`), never silently clamped.
#[derive(Debug, Clone, Copy, PartialEq, Eq, Structural)]
pub struct ParamSetId(pub u8);

impl ParamSetId {
    /// Validates a decoded id against the legal range `[0, 31]`.
    pub fn from_u32(id: u32) -> (r: Result<ParamSetId, ParamSetIdError>)
        ensures
            match r {
                Ok(p) => id <= 31 && p == ParamSetId(id as u8),
                Err(e) => id > 31 && e == ParamSetIdError::IdTooLarge(id),
            },
    {
        if id > 31 {
            Err(ParamSetIdError::IdTooLarge(id))
        } else {
            Ok(ParamSetId(id as u8))
        }
    }

    pub fn id(self) -> (r: u8)
        ensures
            r == self.0,
    {
        self.0
    }
}

} // verus!
