use vstd::prelude::*;

use crate::emulator::{filled, Emulator, Variant};
use crate::semantics;

verus! {

/// The built-in glyph table: 16 glyphs of 5 bytes each, one per hexadecimal
/// character, occupying the lowest memory addresses.
pub const GLYPHS: [u8; 80] = [
    0xF0, 0x90, 0x90, 0x90, 0xF0,  // 0
    0x20, 0x60, 0x20, 0x20, 0x70,  // 1
    0xF0, 0x10, 0xF0, 0x80, 0xF0,  // 2
    0xF0, 0x10, 0xF0, 0x10, 0xF0,  // 3
    0x90, 0x90, 0xF0, 0x10, 0x10,  // 4
    0xF0, 0x80, 0xF0, 0x10, 0xF0,  // 5
    0xF0, 0x80, 0xF0, 0x90, 0xF0,  // 6
    0xF0, 0x10, 0x20, 0x40, 0x40,  // 7
    0xF0, 0x90, 0xF0, 0x90, 0xF0,  // 8
    0xF0, 0x90, 0xF0, 0x10, 0xF0,  // 9
    0xF0, 0x90, 0xF0, 0x90, 0x90,  // A
    0xE0, 0x90, 0xE0, 0x90, 0xE0,  // B
    0xF0, 0x80, 0x80, 0x80, 0xF0,  // C
    0xE0, 0x90, 0x90, 0x90, 0xE0,  // D
    0xF0, 0x80, 0xF0, 0x80, 0xF0,  // E
    0xF0, 0x80, 0xF0, 0x80, 0x80,  // F
];

/// A program image the machine refuses before it ever runs.
#[derive(Clone, Copy, PartialEq, Eq, Structural, Debug)]
pub enum ConfigError {
    /// The image does not fit between the load offset and the end of
    /// memory.
    ImageTooLarge,
}

impl Emulator {
    /// Populate memory for a program image: the glyph table at the lowest
    /// addresses, the image at the load offset, zero everywhere else. An
    /// oversized image is rejected before the machine reaches Running, and
    /// the machine is left unchanged.
    pub fn load_program(&mut self, image: &Vec<u8>) -> (r: Result<(), ConfigError>)
        requires
            old(self).wf(),
        ensures
            final(self).wf(),
            semantics::frame_memory(*old(self), *final(self)),
            final(self).registers@ == old(self).registers@,
            final(self).i_register == old(self).i_register,
            final(self).program_counter == old(self).program_counter,
            r is Ok <==> image@.len() <= 3584,
            r is Err ==> final(self).memory@ == old(self).memory@,
            r is Ok ==> {
                &&& forall|a: int| 0 <= a < 80 ==> final(self).memory@[a] == GLYPHS@[a]
                &&& forall|a: int| 80 <= a < 0x200 ==> final(self).memory@[a] == 0
                &&& forall|j: int|
                    0 <= j < image@.len() ==> final(self).memory@[0x200 + j] == image@[j]
                &&& forall|a: int|
                    0x200 + image@.len() <= a < 4096 ==> final(self).memory@[a] == 0
            },
    {
        if image.len() > 3584 {
            return Err(ConfigError::ImageTooLarge);
        }
        let mut mem = filled(4096, 0u8);
        let mut a: usize = 0;
        while a < 80
            invariant
                a <= 80,
                mem@.len() == 4096,
                forall|t: int| 0 <= t < a ==> mem@[t] == GLYPHS@[t],
                forall|t: int| a <= t < 4096 ==> mem@[t] == 0,
            decreases 80 - a,
        {
            mem[a] = GLYPHS[a];
            a = a + 1;
        }
        let mut j: usize = 0;
        while j < image.len()
            invariant
                j <= image@.len(),
                image@.len() <= 3584,
                mem@.len() == 4096,
                forall|t: int| 0 <= t < 80 ==> mem@[t] == GLYPHS@[t],
                forall|t: int| 80 <= t < 0x200 ==> mem@[t] == 0,
                forall|t: int| 0 <= t < j ==> mem@[0x200 + t] == image@[t],
                forall|t: int| 0x200 + j <= t < 4096 ==> mem@[t] == 0,
            decreases image@.len() - j,
        {
            mem[0x200 + j] = image[j];
            j = j + 1;
        }
        self.memory = mem;
        Ok(())
    }
}

/// One word of the image digest: the first `k` of 8 bytes of block `j`,
/// each OR-shifted into place by its position modulo 4.
pub open spec fn hash_word(mem: Seq<u8>, j: int, k: int) -> u64
    decreases k,
{
    if k <= 0 {
        0u64
    } else {
        hash_word(mem, j, k - 1) | ((mem[0x200 + 8 * j + (k - 1)] as u64) << ((8 * ((k - 1)
            % 4)) as u64))
    }
}

/// The running XOR of the first `j` digest words.
pub open spec fn hash_upto(mem: Seq<u8>, j: int) -> u64
    decreases j,
{
    if j <= 0 {
        0u64
    } else {
        hash_upto(mem, j - 1) ^ hash_word(mem, j - 1, 8)
    }
}

/// The digest of the first 32 bytes of the program image: four words of 8
/// bytes each, XORed together.
pub open spec fn spec_hash(mem: Seq<u8>) -> u64 {
    hash_upto(mem, 4)
}

/// Digest the start of the loaded program image. The digest is only a
/// heuristic handle on the image's identity; nothing about its distribution
/// is claimed.
pub fn calculate_hash(memory: &Vec<u8>) -> (r: u64)
    requires
        memory@.len() == 4096,
    ensures
        r == spec_hash(memory@),
{
    let mut result: u64 = 0;
    let mut j: usize = 0;
    while j < 4
        invariant
            memory@.len() == 4096,
            j <= 4,
            result == hash_upto(memory@, j as int),
        decreases 4 - j,
    {
        let mut word: u64 = 0;
        let mut k: usize = 0;
        while k < 8
            invariant
                memory@.len() == 4096,
                j < 4,
                k <= 8,
                word == hash_word(memory@, j as int, k as int),
            decreases 8 - k,
        {
            let byte = memory[0x200 + 8 * j + k];
            word = word | ((byte as u64) << ((8 * (k % 4)) as u64));
            k = k + 1;
        }
        result = result ^ word;
        j = j + 1;
    }
    result
}

/// Which architecture dialect a digest selects: a fixed table of known
/// images that expect the extended dialect; everything else gets the base
/// architecture.
pub open spec fn spec_variant_for(h: u64) -> Variant {
    if h == 0x2d0e7c46 || h == 0x721983d5 || h == 0xecc2538b || h == 0xb59f8fa9 || h
        == 0x80661d05 || h == 0x4acbee72 || h == 0x28132140 {
        Variant::SuperChip
    } else {
        Variant::CosmacVip
    }
}

/// Guess the architecture dialect a loaded image expects from its digest.
/// The guess's accuracy is a property of the table, not of this machine.
pub fn map_hash_to_variant(memory: &Vec<u8>) -> (r: Variant)
    requires
        memory@.len() == 4096,
    ensures
        r == spec_variant_for(spec_hash(memory@)),
{
    let h = calculate_hash(memory);
    if h == 0x2d0e7c46 || h == 0x721983d5 || h == 0xecc2538b || h == 0xb59f8fa9 || h == 0x80661d05
        || h == 0x4acbee72 || h == 0x28132140 {
        Variant::SuperChip
    } else {
        Variant::CosmacVip
    }
}

} // verus!
