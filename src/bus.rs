//! The address map that the core's memory bus serves, and the bus capability.

use vstd::prelude::*;

verus! {

/// An inclusive range of addresses `[start, end]`.
#[derive(Clone, Copy, PartialEq, Eq, Structural, Debug)]
pub struct MemoryRange {
    start: u32,
    end: u32,
}

impl View for MemoryRange {
    type V = (u32, u32);

    closed spec fn view(&self) -> (u32, u32) {
        (self.start, self.end)
    }
}

impl MemoryRange {
    pub fn new(start: u32, end: u32) -> (r: MemoryRange)
        ensures
            r@ == (start, end),
    {
        MemoryRange { start, end }
    }

    /// True when `index` lies in the range, both ends included.
    pub fn contains(&self, index: u32) -> (r: bool)
        ensures
            r == (self@.0 <= index && index <= self@.1),
    {
        self.start <= index && index <= self.end
    }

    /// Number of bytes in the range, both ends included.
    pub fn length(&self) -> (r: u32)
        requires
            self@.0 <= self@.1,
            self@.1 - self@.0 < u32::MAX,
        ensures
            r == self@.1 - self@.0 + 1,
    {
        self.end - self.start + 1
    }
}

/// The named areas of the address map.
#[derive(Clone, Copy, PartialEq, Eq, Structural, Debug)]
pub enum Region {
    BiosRom,
    NotUsed1,
    BoardWram,
    NotUsed2,
    ChipWram,
    /// The top of chip work RAM, which holds the stacks.
    ChipWramStack,
    NotUsed3,
    IoRegisters,
    NotUsed4,
}

/// First and last address of each area.
pub open spec fn region_bounds(region: Region) -> (u32, u32) {
    match region {
        Region::BiosRom => (0x0000_0000, 0x0000_3FFF),
        Region::NotUsed1 => (0x0000_4000, 0x01FF_FFFF),
        Region::BoardWram => (0x0200_0000, 0x0203_FFFF),
        Region::NotUsed2 => (0x0204_0000, 0x02FF_FFFF),
        Region::ChipWram => (0x0300_0000, 0x0300_7FFF),
        Region::ChipWramStack => (0x0300_7F00, 0x0300_7FFF),
        Region::NotUsed3 => (0x0300_8000, 0x03FF_FFFF),
        Region::IoRegisters => (0x0400_0000, 0x0400_03FE),
        Region::NotUsed4 => (0x0400_0400, 0x04FF_FFFF),
    }
}

impl Region {
    /// The area's address range.
    pub fn range(self) -> (r: MemoryRange)
        ensures
            r@ == region_bounds(self),
    {
        match self {
            Region::BiosRom => MemoryRange::new(0x0000_0000, 0x0000_3FFF),
            Region::NotUsed1 => MemoryRange::new(0x0000_4000, 0x01FF_FFFF),
            Region::BoardWram => MemoryRange::new(0x0200_0000, 0x0203_FFFF),
            Region::NotUsed2 => MemoryRange::new(0x0204_0000, 0x02FF_FFFF),
            Region::ChipWram => MemoryRange::new(0x0300_0000, 0x0300_7FFF),
            Region::ChipWramStack => MemoryRange::new(0x0300_7F00, 0x0300_7FFF),
            Region::NotUsed3 => MemoryRange::new(0x0300_8000, 0x03FF_FFFF),
            Region::IoRegisters => MemoryRange::new(0x0400_0000, 0x0400_03FE),
            Region::NotUsed4 => MemoryRange::new(0x0400_0400, 0x04FF_FFFF),
        }
    }
}

/// Every area but the stack area is a top-level area of the map.
pub open spec fn is_top_level(region: Region) -> bool {
    region != Region::ChipWramStack
}

/// No address lies in two top-level areas, and the stack area lies inside
/// chip work RAM.
pub proof fn lemma_address_map_layout(a: Region, b: Region, address: u32)
    ensures
        is_top_level(a) && is_top_level(b) && a != b ==> !(region_bounds(a).0 <= address
            <= region_bounds(a).1 && region_bounds(b).0 <= address <= region_bounds(b).1),
        region_bounds(Region::ChipWram).0 <= region_bounds(Region::ChipWramStack).0,
        region_bounds(Region::ChipWramStack).1 <= region_bounds(Region::ChipWram).1,
{
}

/// Reads a 32-bit word from the bus.
pub trait ReadU32 {
    fn read_u32(&mut self, address: u32) -> u32;
}

/// Writes a 32-bit word to the bus.
pub trait WriteU32 {
    fn write_u32(&mut self, address: u32, value: u32);
}

/// A memory location that can be both read and written by word.
pub trait AccessibleMemoryLocation: ReadU32 + WriteU32 {

}

} // verus!
