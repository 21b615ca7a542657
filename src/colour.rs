//! Packed 32-bit colours.
//!
//! A colour is four 8-bit channels, red, green, blue and alpha, packed
//! little-endian: red is the lowest byte and alpha the highest. Every part of
//! the library unpacks and repacks in this one order.

use vstd::prelude::*;

verus! {

/// The four channels of `c`, lowest byte first.
pub open spec fn channels_of(c: u32) -> Seq<u8> {
    seq![
        (c % 256) as u8,
        ((c / 256) % 256) as u8,
        ((c / 65536) % 256) as u8,
        (c / 16777216) as u8,
    ]
}

/// The colour whose channels, lowest byte first, are `b`.
pub open spec fn packed_of(b: Seq<u8>) -> u32
    recommends
        b.len() == 4,
{
    (b[0] + 256 * b[1] + 65536 * b[2] + 16777216 * b[3]) as u32
}

/// Splits a packed colour into its channels `[red, green, blue, alpha]`.
pub fn unpack_colour(c: u32) -> (r: [u8; 4])
    ensures
        r@ == channels_of(c),
{
    let red = (c & 0xff) as u8;
    let green = ((c >> 8u32) & 0xff) as u8;
    let blue = ((c >> 16u32) & 0xff) as u8;
    let alpha = (c >> 24u32) as u8;
    proof {
        assert((c & 0xff) == c % 256) by (bit_vector);
        assert(((c >> 8u32) & 0xff) == (c / 256) % 256) by (bit_vector);
        assert(((c >> 16u32) & 0xff) == (c / 65536) % 256) by (bit_vector);
        assert((c >> 24u32) == c / 16777216) by (bit_vector);
    }
    let r = [red, green, blue, alpha];
    assert(r@ =~= channels_of(c));
    r
}

/// Packs channels `[red, green, blue, alpha]` into one colour.
pub fn pack_colour(b: [u8; 4]) -> (r: u32)
    ensures
        r == packed_of(b@),
{
    let b0 = b[0] as u32;
    let b1 = b[1] as u32;
    let b2 = b[2] as u32;
    let b3 = b[3] as u32;
    proof {
        assert(b0 < 256 && b1 < 256 && b2 < 256 && b3 < 256);
        assert(b0 < 256 && b1 < 256 && b2 < 256 && b3 < 256 ==> (b0 | (b1 << 8u32) | (b2
            << 16u32) | (b3 << 24u32)) == b0 + 256 * b1 + 65536 * b2 + 16777216 * b3)
            by (bit_vector);
    }
    b0 | (b1 << 8u32) | (b2 << 16u32) | (b3 << 24u32)
}

/// Repacking the channels of a colour gives back that colour exactly: a
/// colour that passes through an editor untouched comes out unchanged.
pub proof fn lemma_colour_round_trip(c: u32)
    ensures
        packed_of(channels_of(c)) == c,
{
    assert(c == (c % 256) + 256 * ((c / 256) % 256) + 65536 * ((c / 65536) % 256) + 16777216 * (c
        / 16777216)) by (bit_vector);
}

/// The colour an editor leaves behind, given the colour it was seeded with,
/// the channels it holds after this frame, and whether the user touched it. An untouched colour is returned exactly as it came in,
/// whatever rounding the editor's own representation went through.
pub fn colour_after_edit(colour: u32, changed: bool, edited: [u8; 4]) -> (r: u32)
    ensures
        changed ==> r == packed_of(edited@),
        !changed ==> r == colour,
{
    if changed {
        pack_colour(edited)
    } else {
        colour
    }
}

/// A colour that can be told apart from `wall`: `colour` itself when it
/// differs, otherwise the neighbouring value (one up, or one down when `wall`
/// is the largest colour).
pub fn distinct_from_wall(colour: u32, wall: u32) -> (r: u32)
    ensures
        r != wall,
        colour != wall ==> r == colour,
        colour == wall && wall != u32::MAX ==> r == wall + 1,
        colour == wall && wall == u32::MAX ==> r == wall - 1,
{
    if colour != wall {
        colour
    } else if wall != u32::MAX {
        wall + 1
    } else {
        wall - 1
    }
}

} // verus!
