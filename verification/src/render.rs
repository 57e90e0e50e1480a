//! The "Now playing" status line, as UTF-8 bytes. The caller owns the
//! terminal and rewrites the line in place.

use vstd::prelude::*;

verus! {

/// The UTF-8 bytes of the music-note glyph followed by " Now playing: ".
pub open spec fn now_playing_prefix() -> Seq<u8> {
    seq![
        0xf0u8, 0x9fu8, 0x8eu8, 0xb6u8,  // the music-note glyph
        0x20u8,  // ' '
        0x4eu8, 0x6fu8, 0x77u8,  // "Now"
        0x20u8,  // ' '
        0x70u8, 0x6cu8, 0x61u8, 0x79u8, 0x69u8, 0x6eu8, 0x67u8,  // "playing"
        0x3au8,  // ':'
        0x20u8,  // ' '
    ]
}

/// The status line for one track: the fixed prefix followed by the track's
/// path, byte for byte.
pub fn now_playing_line(path: &Vec<u8>) -> (line: Vec<u8>)
    ensures
        line@ == now_playing_prefix() + path@,
{
    let mut line: Vec<u8> = Vec::new();
    line.push(0xf0u8);
    line.push(0x9fu8);
    line.push(0x8eu8);
    line.push(0xb6u8);
    line.push(0x20u8);
    line.push(0x4eu8);
    line.push(0x6fu8);
    line.push(0x77u8);
    line.push(0x20u8);
    line.push(0x70u8);
    line.push(0x6cu8);
    line.push(0x61u8);
    line.push(0x79u8);
    line.push(0x69u8);
    line.push(0x6eu8);
    line.push(0x67u8);
    line.push(0x3au8);
    line.push(0x20u8);
    assert(line@ =~= now_playing_prefix());
    let mut j: usize = 0;
    while j < path.len()
        invariant
            j <= path.len(),
            line@ == now_playing_prefix() + path@.take(j as int),
        decreases path.len() - j,
    {
        line.push(path[j]);
        j = j + 1;
        assert(line@ =~= now_playing_prefix() + path@.take(j as int));
    }
    assert(path@.take(path@.len() as int) =~= path@);
    line
}

} // verus!
