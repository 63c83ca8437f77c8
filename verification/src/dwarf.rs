//! Debug-information offsets.
//!
//! Consumers of the debug sections work with offsets relative to one
//! compile unit; crossing unit boundaries takes translating them to
//! section-absolute offsets against the unit's own position.

use vstd::prelude::*;

verus! {

/// Where a compile unit sits: in the info section or in the types section.
#[derive(Copy, Clone, PartialEq, Eq, Structural, Debug)]
pub enum UnitSectionOffset {
    DebugInfoOffset(usize),
    DebugTypesOffset(usize),
}

/// Translates a unit-relative offset to a section-absolute offset: the
/// unit's own position plus the relative offset, whichever section the
/// unit sits in.
pub fn unit_ref_offset_to_absolute_offset(offset: usize, unit_offset: UnitSectionOffset) -> (r:
    usize)
    requires
        (match unit_offset {
            UnitSectionOffset::DebugInfoOffset(v) => v,
            UnitSectionOffset::DebugTypesOffset(v) => v,
        }) + offset <= usize::MAX,
    ensures
        r == (match unit_offset {
            UnitSectionOffset::DebugInfoOffset(v) => v,
            UnitSectionOffset::DebugTypesOffset(v) => v,
        }) + offset,
{
    match unit_offset {
        UnitSectionOffset::DebugInfoOffset(v) => v + offset,
        UnitSectionOffset::DebugTypesOffset(v) => v + offset,
    }
}

} // verus!
