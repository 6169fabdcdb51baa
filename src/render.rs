use vstd::prelude::*;

use crate::byte::{
    colour_of, glyph, hex_char, hex_digit, hex_pair, push_char, type_of, Colour, Styled,
};
use crate::hex_file::HexFile;

verus! {

/// The model of a run of styled text: text, colour, highlight.
pub type StyledView = (Seq<char>, Option<Colour>, bool);

/// The models of a sequence of runs.
pub open spec fn pieces(v: Seq<Styled>) -> Seq<StyledView> {
    v.map_values(|s: Styled| s@)
}

/// Plain text in the terminal's default colour.
pub open spec fn plain(t: Seq<char>) -> StyledView {
    (t, None, false)
}

/// A byte's two hexadecimal digits, in its category's colour.
pub open spec fn hex_piece(b: u8) -> StyledView {
    (hex_pair(b), Some(colour_of(type_of(b))), false)
}

/// A byte's glyph, in its category's colour.
pub open spec fn glyph_piece(b: u8) -> StyledView {
    (seq![glyph(b)], Some(colour_of(type_of(b))), false)
}

/// A byte's glyph, in its category's colour, highlighted: the cursor.
pub open spec fn highlighted_piece(b: u8) -> StyledView {
    (seq![glyph(b)], Some(colour_of(type_of(b))), true)
}

/// The hex pane's cell for the byte at `q`: its digits and a separator,
/// or blanks past the end of the file.
pub open spec fn hex_cell(d: Seq<u8>, q: int) -> Seq<StyledView> {
    if q < d.len() {
        seq![hex_piece(d[q]), plain(seq![' '])]
    } else {
        seq![plain(seq![' ', ' '])]
    }
}

/// The char pane's cell for the byte at `q`, or a blank past the end of the file.
pub open spec fn char_cell(d: Seq<u8>, q: int) -> Seq<StyledView> {
    if q < d.len() {
        seq![glyph_piece(d[q])]
    } else {
        seq![plain(seq![' '])]
    }
}

/// The first `k` hex cells of the row that starts at byte `p`.
pub open spec fn hex_line(d: Seq<u8>, p: int, k: nat) -> Seq<StyledView>
    decreases k,
{
    if k == 0 {
        Seq::empty()
    } else {
        hex_line(d, p, (k - 1) as nat) + hex_cell(d, p + k - 1)
    }
}

/// The first `k` char cells of the row that starts at byte `p`.
pub open spec fn char_line(d: Seq<u8>, p: int, k: nat) -> Seq<StyledView>
    decreases k,
{
    if k == 0 {
        Seq::empty()
    } else {
        char_line(d, p, (k - 1) as nat) + char_cell(d, p + k - 1)
    }
}

/// The last `k` hexadecimal digits of `v`, most significant first.
pub open spec fn fixed_hex(v: nat, k: nat) -> Seq<char>
    decreases k,
{
    if k == 0 {
        Seq::empty()
    } else {
        fixed_hex(v / 16, (k - 1) as nat).push(hex_digit((v % 16) as int))
    }
}

/// `v` in upper-case hexadecimal, zero-padded to at least eight digits.
pub open spec fn offset_digits(v: nat) -> Seq<char>
    decreases v,
{
    if v < 0x1_0000_0000 {
        fixed_hex(v, 8)
    } else {
        offset_digits(v / 16).push(hex_digit((v % 16) as int))
    }
}

/// The offset pane's label for a row that starts at byte `v`.
pub open spec fn offset_piece(v: nat) -> StyledView {
    (offset_digits(v), Some(Colour::Black), false)
}

fn push_fixed_hex(s: &mut String, v: u64, k: u32)
    ensures
        final(s)@ == old(s)@ + fixed_hex(v as nat, k as nat),
    decreases k,
{
    if k > 0 {
        push_fixed_hex(s, v / 16, k - 1);
        let digit = hex_char((v % 16) as u8);
        push_char(s, digit);
        assert(s@ =~= old(s)@ + fixed_hex(v as nat, k as nat));
    } else {
        assert(s@ =~= old(s)@ + fixed_hex(v as nat, k as nat));
    }
}

fn push_offset_digits(s: &mut String, v: u64)
    ensures
        final(s)@ == old(s)@ + offset_digits(v as nat),
    decreases v,
{
    if v < 0x1_0000_0000 {
        push_fixed_hex(s, v, 8);
    } else {
        push_offset_digits(s, v / 16);
        let digit = hex_char((v % 16) as u8);
        push_char(s, digit);
        assert(s@ =~= old(s)@ + offset_digits(v as nat));
    }
}

/// The label of the row that starts at byte `index`.
pub fn offset_label(index: u64) -> (r: Styled)
    ensures
        r@ == offset_piece(index as nat),
{
    let mut s = String::new();
    push_offset_digits(&mut s, index);
    assert(s@ =~= offset_digits(index as nat));
    Styled { text: s, colour: Some(Colour::Black), highlighted: false }
}

/// Plain text of `n` blanks, `n` being 1 or 2.
fn blanks(n: usize) -> (r: Styled)
    requires
        n == 1 || n == 2,
    ensures
        r@ == plain(if n == 1 { seq![' '] } else { seq![' ', ' '] }),
{
    let text = if n == 1 {
        proof {
            reveal_strlit(" ");
        }
        String::from_str(" ")
    } else {
        proof {
            reveal_strlit("  ");
        }
        String::from_str("  ")
    };
    assert(text@ =~= if n == 1 { seq![' '] } else { seq![' ', ' '] });
    Styled { text, colour: None, highlighted: false }
}

/// The hex pane's text for the row of `columns` cells that starts at byte `start`.
pub fn hex_row(file: &HexFile, start: usize, columns: u16) -> (r: Vec<Styled>)
    requires
        start <= file.contents().len(),
    ensures
        pieces(r@) == hex_line(file.contents(), start as int, columns as nat),
{
    let data = file.get_data();
    let n = data.len();
    let mut line: Vec<Styled> = Vec::new();
    let mut x: usize = 0;
    while x < columns as usize
        invariant
            x <= columns,
            start <= n,
            n == file.contents().len(),
            data@.len() == n,
            forall|i: int| 0 <= i < n ==> #[trigger] data@[i]@ == file.contents()[i],
            pieces(line@) == hex_line(file.contents(), start as int, x as nat),
        decreases columns - x,
    {
        let ghost before = pieces(line@);
        if x < n - start {
            line.push(data[start + x].hex());
            line.push(blanks(1));
        } else {
            line.push(blanks(2));
        }
        assert(pieces(line@) =~= before + hex_cell(file.contents(), start + x));
        x += 1;
    }
    line
}

/// The char pane's text for the row of `columns` cells that starts at byte `start`.
pub fn char_row(file: &HexFile, start: usize, columns: u16) -> (r: Vec<Styled>)
    requires
        start <= file.contents().len(),
    ensures
        pieces(r@) == char_line(file.contents(), start as int, columns as nat),
{
    let data = file.get_data();
    let n = data.len();
    let mut line: Vec<Styled> = Vec::new();
    let mut x: usize = 0;
    while x < columns as usize
        invariant
            x <= columns,
            start <= n,
            n == file.contents().len(),
            data@.len() == n,
            forall|i: int| 0 <= i < n ==> #[trigger] data@[i]@ == file.contents()[i],
            pieces(line@) == char_line(file.contents(), start as int, x as nat),
        decreases columns - x,
    {
        let ghost before = pieces(line@);
        if x < n - start {
            line.push(data[start + x].char());
        } else {
            line.push(blanks(1));
        }
        assert(pieces(line@) =~= before + char_cell(file.contents(), start + x));
        x += 1;
    }
    line
}

} // verus!
