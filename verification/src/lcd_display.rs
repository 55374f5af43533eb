//! Byte encoding of the two-row character display.
//!
//! The display takes words of two bytes. The functions here say which
//! words put a text on a row; sending them is left to the caller.

use vstd::prelude::*;

verus! {

/// Characters in a row of the display.
pub const ROW_WIDTH: usize = 16;

/// First byte of the word that selects the upper row.
pub const ROW_0: u8 = 0b0010_0000;

/// First byte of the word that selects the lower row.
pub const ROW_1: u8 = 0b0011_0000;

/// The character that fills a row behind its text.
pub const BLANK: u8 = 0x20;

/// The word that writes the character `c`: a marker bit with the upper
/// six bits of the character, then its lower two bits at the top of the
/// second byte.
pub open spec fn char_word(c: u8) -> Seq<u8> {
    seq![0b1000_0000u8 | (c >> 2), c << 6]
}

/// The text `msg` filled up with blanks to the width of a row.
pub open spec fn padded(msg: Seq<u8>) -> Seq<u8>
    recommends
        msg.len() <= ROW_WIDTH,
{
    Seq::new(
        ROW_WIDTH as nat,
        |i: int|
            if i < msg.len() {
                msg[i]
            } else {
                BLANK
            },
    )
}

/// The words that write every character of `chars`, one after the other.
pub open spec fn char_words(chars: Seq<u8>) -> Seq<u8>
    decreases chars.len(),
{
    if chars.len() == 0 {
        Seq::empty()
    } else {
        char_words(chars.drop_last()) + char_word(chars.last())
    }
}

/// The bytes that put `msg` on the row selected by `row`: the word that
/// selects the row, then one word for each of the sixteen characters of
/// the row, blanks behind the text.
pub open spec fn row_bytes(row: u8, msg: Seq<u8>) -> Seq<u8>
    recommends
        msg.len() <= ROW_WIDTH,
{
    seq![row, 0u8] + char_words(padded(msg))
}

/// The words that bring the display up, in the order in which they are
/// sent: 8-bit mode, display off, clear, entry mode, cursor home, display
/// on, read status.
pub open spec fn init_bytes() -> Seq<u8> {
    seq![
        0b1110u8, 0u8,
        0b10u8, 0u8,
        0u8, 0b0100_0000u8,
        1u8, 0b1000_0000u8,
        0u8, 0b1000_0000u8,
        0b11u8, 0b0100_0000u8,
        0b0100_0000u8, 0u8,
    ]
}

/// Milliseconds to wait after each word that brings the display up.
pub const INIT_PAUSE_MS: u8 = 10;

/// Builds the words that bring the display up.
pub fn init_sequence() -> (out: Vec<u8>)
    ensures
        out@ == init_bytes(),
{
    let out: Vec<u8> = vec![
        0b1110u8, 0u8,
        0b10u8, 0u8,
        0u8, 0b0100_0000u8,
        1u8, 0b1000_0000u8,
        0u8, 0b1000_0000u8,
        0b11u8, 0b0100_0000u8,
        0b0100_0000u8, 0u8,
    ];
    assert(out@ =~= init_bytes());
    out
}

/// Builds the bytes that put `msg` on the row selected by `row`, or
/// nothing where `msg` is longer than a row.
pub fn encode_row(row: u8, msg: &[u8]) -> (out: Option<Vec<u8>>)
    ensures
        out.is_some() <==> msg.len() <= ROW_WIDTH,
        out.is_some() ==> out.unwrap()@ == row_bytes(row, msg@),
        out.is_some() ==> out.unwrap().len() == 2 + 2 * ROW_WIDTH,
{
    if msg.len() > ROW_WIDTH {
        return None;
    }
    let mut out: Vec<u8> = Vec::new();
    out.push(row);
    out.push(0);
    let ghost text = padded(msg@);
    let mut i: usize = 0;
    while i < ROW_WIDTH
        invariant
            i <= ROW_WIDTH,
            msg.len() <= ROW_WIDTH,
            text == padded(msg@),
            out.len() == 2 + 2 * i,
            out@ == seq![row, 0u8] + char_words(text.subrange(0, i as int)),
        decreases ROW_WIDTH - i,
    {
        let c: u8 = if i < msg.len() {
            msg[i]
        } else {
            BLANK
        };
        proof {
            let next = text.subrange(0, i + 1);
            assert(next.drop_last() =~= text.subrange(0, i as int));
            assert(next.last() == c);
        }
        let ghost before = out@;
        out.push(0b1000_0000u8 | (c >> 2));
        out.push(c << 6);
        assert(out@ =~= before + char_word(c));
        assert(out@ =~= seq![row, 0u8] + char_words(text.subrange(0, i + 1)));
        i += 1;
    }
    assert(text.subrange(0, ROW_WIDTH as int) =~= text);
    Some(out)
}

} // verus!
