//! The coverage bitmap: one bit for each block of the destination, eight to
//! a byte, the lowest bit of a byte first. A write flips the bit of the
//! block it starts in, so a block that is written twice shows as clear again.

use crate::config::RandomDd;
use vstd::prelude::*;
use vstd::string::*;

verus! {

/// The number of characters in one line of the drawn bitmap.
pub const LINE_WIDTH: usize = 64;

/// The largest number of bits that are drawn.
pub const MAX_SHOWN_BITS: u64 = 512;

/// The byte with the given bit, and no other, set.
pub open spec fn bit_mask(bit: nat) -> u8
    recommends
        bit < 8,
{
    1u8 << (bit as u8)
}

/// Whether bit `index` of the bitmap is set.
pub open spec fn bit_at(bytes: Seq<u8>, index: int) -> bool
    recommends
        0 <= index < 8 * bytes.len(),
{
    bytes[index / 8] & bit_mask((index % 8) as nat) != 0
}

/// The bitmap after bit `index` was flipped; a bit beyond its end leaves it
/// as it is.
pub open spec fn flipped(bytes: Seq<u8>, index: nat) -> Seq<u8> {
    if index / 8 < bytes.len() {
        bytes.update(index as int / 8, bytes[index as int / 8] ^ bit_mask(index % 8))
    } else {
        bytes
    }
}

/// The number of bits that are drawn of a bitmap of `bits` bits.
pub open spec fn shown_bits(bits: u64) -> nat {
    if bits <= MAX_SHOWN_BITS {
        bits as nat
    } else {
        MAX_SHOWN_BITS as nat
    }
}

/// The character that stands for a bit: `#` where it is set, `.` where not.
pub open spec fn cell(set: bool) -> char {
    if set {
        '#'
    } else {
        '.'
    }
}

/// The first `count` bits of the bitmap as text: one character a bit, and a
/// line break after every 64th.
pub open spec fn grid(bytes: Seq<u8>, count: nat) -> Seq<char>
    recommends
        count <= 8 * bytes.len(),
    decreases count,
{
    if count == 0 {
        Seq::empty()
    } else {
        let before = grid(bytes, (count - 1) as nat).push(cell(bit_at(bytes, count - 1)));
        if count % (LINE_WIDTH as nat) == 0 {
            before.push('\n')
        } else {
            before
        }
    }
}

/// The number of bits that a drawing of `width` bits shows of the bitmap:
/// all that it has, up to `width` and never more than 512.
pub open spec fn drawn_bits(bytes: Seq<u8>, width: nat) -> nat {
    let limit = if width <= MAX_SHOWN_BITS {
        width
    } else {
        MAX_SHOWN_BITS as nat
    };
    if limit <= 8 * bytes.len() {
        limit
    } else {
        8 * bytes.len()
    }
}

/// A drawing never shows more than 512 bits, and so never has more than
/// 520 characters.
pub proof fn lemma_drawing_is_bounded(bytes: Seq<u8>, width: nat)
    ensures
        drawn_bits(bytes, width) <= MAX_SHOWN_BITS,
        drawn_bits(bytes, width) <= width,
        drawn_bits(bytes, width) <= 8 * bytes.len(),
        grid(bytes, drawn_bits(bytes, width)).len() <= 520,
{
    lemma_grid_len(bytes, drawn_bits(bytes, width));
}

/// Flipping a bit changes that bit and no other.
pub proof fn lemma_flipped_bits(bytes: Seq<u8>, index: nat, other: int)
    requires
        index < 8 * bytes.len(),
        0 <= other < 8 * bytes.len(),
    ensures
        flipped(bytes, index).len() == bytes.len(),
        bit_at(flipped(bytes, index), other) == if other == index {
            !bit_at(bytes, other)
        } else {
            bit_at(bytes, other)
        },
{
    let byte = bytes[index as int / 8];
    let bit = (index % 8) as u8;
    let probe = (other % 8) as u8;
    assert(bit < 8 && probe < 8);
    if other / 8 == index as int / 8 {
        if probe == bit {
            assert(((byte ^ (1u8 << bit)) & (1u8 << bit) != 0) == !(byte & (1u8 << bit) != 0))
                by (bit_vector)
                requires
                    bit < 8,
            ;
        } else {
            assert(((byte ^ (1u8 << bit)) & (1u8 << probe) != 0) == (byte & (1u8 << probe) != 0))
                by (bit_vector)
                requires
                    bit < 8,
                    probe < 8,
                    bit != probe,
            ;
        }
    }
}

/// Flipping the same bit twice gives the bitmap back as it was.
pub proof fn lemma_flip_twice(bytes: Seq<u8>, index: nat)
    ensures
        flipped(flipped(bytes, index), index) == bytes,
{
    if index / 8 < bytes.len() {
        let byte = bytes[index as int / 8];
        let mask = bit_mask(index % 8);
        assert((byte ^ mask) ^ mask == byte) by (bit_vector);
        assert(flipped(flipped(bytes, index), index) =~= bytes);
    }
}

/// A drawing of `count` bits has one character for each bit and one line
/// break for each full line.
pub proof fn lemma_grid_len(bytes: Seq<u8>, count: nat)
    ensures
        grid(bytes, count).len() == count + count / (LINE_WIDTH as nat),
    decreases count,
{
    if count > 0 {
        lemma_grid_len(bytes, (count - 1) as nat);
    }
}

fn mask_of(bit: u8) -> (mask: u8)
    requires
        bit < 8,
    ensures
        mask == bit_mask(bit as nat),
    no_unwind
{
    1u8 << bit
}

impl RandomDd {
    /// Flips bit `index` of the bitmap. An index beyond the bitmap's end
    /// changes nothing.
    pub fn flip_bit(bitarray: &mut Vec<u8>, index: u64)
        ensures
            final(bitarray)@ == flipped(old(bitarray)@, index as nat),
        no_unwind
    {
        let byte_idx = index / 8;
        if byte_idx < bitarray.len() as u64 {
            let at = byte_idx as usize;
            let mask = mask_of((index % 8) as u8);
            let byte = bitarray[at];
            bitarray[at] = byte ^ mask;
        }
    }

    /// Draws the first `width` bits of the bitmap, or all of them where it
    /// has fewer, and in no case more than 512: `#` for a set bit, `.` for a
    /// clear one, and a line break after every 64th.
    pub fn visualize_bitarray(bitarray: &Vec<u8>, width: usize) -> (text: String)
        ensures
            text@ == grid(bitarray@, drawn_bits(bitarray@, width as nat)),
    {
        let limit = RandomDd::display_width(width as u64);
        let mut text = String::new();
        let mut count: usize = 0;
        while count < limit && count / 8 < bitarray.len()
            invariant
                count <= limit,
                count <= 8 * bitarray@.len(),
                text@ == grid(bitarray@, count as nat),
            decreases limit - count,
        {
            let byte = bitarray[count / 8];
            let mask = mask_of((count % 8) as u8);
            if byte & mask != 0 {
                text.append("#");
            } else {
                text.append(".");
            }
            count += 1;
            if count % LINE_WIDTH == 0 {
                text.append("\n");
            }
            proof {
                reveal_strlit("#");
                reveal_strlit(".");
                reveal_strlit("\n");
                assert(text@ =~= grid(bitarray@, count as nat));
            }
        }
        text
    }

    /// The number of bits to draw of `bits` bits: all of them, but no more
    /// than 512.
    pub fn display_width(bits: u64) -> (width: usize)
        ensures
            width == shown_bits(bits),
    {
        if bits <= MAX_SHOWN_BITS {
            bits as usize
        } else {
            MAX_SHOWN_BITS as usize
        }
    }
}

} // verus!
