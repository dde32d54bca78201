//! The cartridge header layout.

use vstd::prelude::*;

verus! {

pub const NINTENDO_LOGO_LENGTH: usize = 156;

/// The fixed header at the start of a cartridge image.
#[allow(dead_code)]
pub struct Header {
    rom_entry_point: u32,
    nintendo_logo: [u8; NINTENDO_LOGO_LENGTH],
    game_title: [u8; 12],
}

} // verus!
