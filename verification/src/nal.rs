//! NAL unit headers and unit-type discriminants, as far as the parameter-set
//! and SEI layers need them.

use vstd::prelude::*;

verus! {

/// The kind of payload a NAL unit carries, from the five-bit type code of its
/// header.  Only the codes this crate dispatches on are named; every other code
/// is preserved in `Other`.
#[derive(Debug, Clone, Copy, PartialEq, Eq, Structural)]
pub enum UnitType {
    SupplementalEnhancementInformation,
    SeqParameterSet,
    Other(u8),
}

/// The unit type denoted by a five-bit NAL type code.
pub open spec fn spec_unit_type(code: u8) -> UnitType {
    if code == 6 {
        UnitType::SupplementalEnhancementInformation
    } else if code == 7 {
        UnitType::SeqParameterSet
    } else {
        UnitType::Other(code)
    }
}

/// The first byte of a NAL unit: a forbidden-zero bit, two bits of
/// `nal_ref_idc`, and the five-bit unit-type code.
#[derive(Debug, Clone, Copy, PartialEq, Eq, Structural)]
pub struct NalHeader(pub u8);

impl NalHeader {
    pub fn nal_unit_type(self) -> (t: UnitType)
        ensures
            t == spec_unit_type((self.0 % 32) as u8),
    {
        let code = self.0 % 32;
        if code == 6 {
            UnitType::SupplementalEnhancementInformation
        } else if code == 7 {
            UnitType::SeqParameterSet
        } else {
            UnitType::Other(code)
        }
    }
}

} // verus!
