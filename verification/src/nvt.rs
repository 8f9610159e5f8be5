//! The layout of a cached record of a vulnerability test.

use vstd::prelude::*;

verus! {

/// The fields of a cached record, in the order in which the record holds
/// them.
#[derive(Clone, Copy, Debug, PartialEq, Eq, Structural)]
pub enum KbNvtPos {
    NvtFilenamePos,
    NvtRequiredKeysPos,
    NvtMandatoryKeysPos,
    NvtExcludedKeysPos,
    NvtRequiredUDPPortsPos,
    NvtRequiredPortsPos,
    NvtDependenciesPos,
    NvtTagsPos,
    NvtCvesPos,
    NvtBidsPos,
    NvtXrefsPos,
    NvtCategoryPos,
    NvtFamilyPos,
    NvtNamePos,
    NvtTimestampPos,
    NvtOIDPos,
}

impl KbNvtPos {
    /// The place of the field in a record, counted from 0.
    pub open spec fn position_spec(self) -> nat {
        match self {
            KbNvtPos::NvtFilenamePos => 0,
            KbNvtPos::NvtRequiredKeysPos => 1,
            KbNvtPos::NvtMandatoryKeysPos => 2,
            KbNvtPos::NvtExcludedKeysPos => 3,
            KbNvtPos::NvtRequiredUDPPortsPos => 4,
            KbNvtPos::NvtRequiredPortsPos => 5,
            KbNvtPos::NvtDependenciesPos => 6,
            KbNvtPos::NvtTagsPos => 7,
            KbNvtPos::NvtCvesPos => 8,
            KbNvtPos::NvtBidsPos => 9,
            KbNvtPos::NvtXrefsPos => 10,
            KbNvtPos::NvtCategoryPos => 11,
            KbNvtPos::NvtFamilyPos => 12,
            KbNvtPos::NvtNamePos => 13,
            KbNvtPos::NvtTimestampPos => 14,
            KbNvtPos::NvtOIDPos => 15,
        }
    }

    /// The place of the field in a record, counted from 0.
    pub fn position(self) -> (r: usize)
        ensures
            r == self.position_spec(),
            r < 16,
    {
        match self {
            KbNvtPos::NvtFilenamePos => 0,
            KbNvtPos::NvtRequiredKeysPos => 1,
            KbNvtPos::NvtMandatoryKeysPos => 2,
            KbNvtPos::NvtExcludedKeysPos => 3,
            KbNvtPos::NvtRequiredUDPPortsPos => 4,
            KbNvtPos::NvtRequiredPortsPos => 5,
            KbNvtPos::NvtDependenciesPos => 6,
            KbNvtPos::NvtTagsPos => 7,
            KbNvtPos::NvtCvesPos => 8,
            KbNvtPos::NvtBidsPos => 9,
            KbNvtPos::NvtXrefsPos => 10,
            KbNvtPos::NvtCategoryPos => 11,
            KbNvtPos::NvtFamilyPos => 12,
            KbNvtPos::NvtNamePos => 13,
            KbNvtPos::NvtTimestampPos => 14,
            KbNvtPos::NvtOIDPos => 15,
        }
    }
}

} // verus!
