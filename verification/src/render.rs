//! Formatting of color swatch lines.
//!
//! Each color is rendered as a block: the escape sequence that sets the
//! terminal background to that color, followed by three spaces. A line is the
//! blocks of its colors concatenated in order; a padded line adds three
//! leading spaces and a trailing style reset, so that no background color
//! leaks into output printed after it.

use vstd::prelude::*;
use crate::color::Color;

verus! {

/// The block characters: three spaces, one fixed-width unit of colored
/// terminal real estate.
pub open spec fn block_chars_spec() -> Seq<char> {
    seq![' ', ' ', ' ']
}

/// The decimal digit character for a value below ten.
pub open spec fn digit_char(d: u8) -> char
    recommends
        d < 10,
{
    if d == 0 {
        '0'
    } else if d == 1 {
        '1'
    } else if d == 2 {
        '2'
    } else if d == 3 {
        '3'
    } else if d == 4 {
        '4'
    } else if d == 5 {
        '5'
    } else if d == 6 {
        '6'
    } else if d == 7 {
        '7'
    } else if d == 8 {
        '8'
    } else {
        '9'
    }
}

/// The decimal digits of a byte, most significant first, with no leading
/// zeros (zero itself is the single digit `0`).
pub open spec fn decimal_digits(n: u8) -> Seq<char> {
    if n < 10 {
        seq![digit_char(n)]
    } else if n < 100 {
        seq![digit_char(n / 10), digit_char(n % 10)]
    } else {
        seq![digit_char(n / 100), digit_char((n / 10) % 10), digit_char(n % 10)]
    }
}

/// The escape sequence that sets the terminal background to the color with
/// the given ANSI palette index: `ESC [ 48 ; 5 ;` the index in decimal, `m`.
pub open spec fn bg_escape_spec(code: u8) -> Seq<char> {
    seq!['\u{1b}', '[', '4', '8', ';', '5', ';'] + decimal_digits(code) + seq!['m']
}

/// The escape sequence that resets all terminal styling: `ESC [ m`.
pub open spec fn reset_escape_spec() -> Seq<char> {
    seq!['\u{1b}', '[', 'm']
}

/// One rendered block: the background escape for the color, then the block
/// characters.
pub open spec fn block_spec(c: Color) -> Seq<char> {
    bg_escape_spec(c.code_spec()) + block_chars_spec()
}

/// A rendered line: the blocks of the colors, concatenated in order with no
/// separators. The empty sequence renders as the empty string.
pub open spec fn line_spec(cs: Seq<Color>) -> Seq<char>
    decreases cs.len(),
{
    if cs.len() == 0 {
        Seq::empty()
    } else {
        block_spec(cs[0]) + line_spec(cs.drop_first())
    }
}

/// A padded line: three leading spaces of unstyled padding, the rendered
/// line, and the style reset.
pub open spec fn padded_line_spec(cs: Seq<Color>) -> Seq<char> {
    block_chars_spec() + line_spec(cs) + reset_escape_spec()
}

/// Relies on `termion::color::AnsiValue::bg_string`: it returns
/// `"\x1B[48;5;"`, then the decimal digits of the palette index, then `"m"`,
/// depending on nothing but the index.
#[verifier::external_body]
fn bg_string(code: u8) -> (r: String)
    ensures
        r@ == bg_escape_spec(code),
{
    termion::color::AnsiValue(code).bg_string()
}

/// Relies on `termion::style::Reset`'s `AsRef<str>` impl: it returns the
/// literal reset sequence `"\x1B[m"`.
#[verifier::external_body]
fn reset_string() -> (r: String)
    ensures
        r@ == reset_escape_spec(),
{
    let s: &str = termion::style::Reset.as_ref();
    s.to_owned()
}

/// The block characters as a string slice.
pub fn block_chars() -> (r: &'static str)
    ensures
        r@ == block_chars_spec(),
{
    let r = "   ";
    proof {
        reveal_strlit("   ");
        assert(r@ =~= block_chars_spec());
    }
    r
}

/// Renders a single colored block: the background escape for the color,
/// followed by three spaces.
pub fn get_color(c: Color) -> (r: String)
    ensures
        r@ == block_spec(c),
{
    let mut s = bg_string(c.code());
    s.append(block_chars());
    s
}

/// A line renders piecewise: the line of a concatenation is the
/// concatenation of the lines.
pub proof fn lemma_line_spec_concat(a: Seq<Color>, b: Seq<Color>)
    ensures
        line_spec(a + b) == line_spec(a) + line_spec(b),
    decreases a.len(),
{
    if a.len() == 0 {
        assert(a + b =~= b);
        assert(line_spec(a) + line_spec(b) =~= line_spec(b));
    } else {
        lemma_line_spec_concat(a.drop_first(), b);
        assert((a + b).drop_first() =~= a.drop_first() + b);
        assert(line_spec(a + b) =~= line_spec(a) + line_spec(b));
    }
}

/// A rendered line is exactly the concatenation, in order, of the rendered
/// blocks of its colors; the empty sequence renders as the empty string.
pub proof fn lemma_line_is_block_concat(cs: Seq<Color>)
    ensures
        line_spec(cs) == cs.map_values(|c: Color| block_spec(c)).flatten(),
        line_spec(Seq::<Color>::empty()) == Seq::<char>::empty(),
    decreases cs.len(),
{
    let blocks = cs.map_values(|c: Color| block_spec(c));
    if cs.len() == 0 {
        assert(blocks.len() == 0);
        assert(blocks.flatten() == Seq::<char>::empty());
    } else {
        lemma_line_is_block_concat(cs.drop_first());
        assert(cs.drop_first().map_values(|c: Color| block_spec(c)) =~= blocks.drop_first());
        assert(blocks.flatten() == blocks.first() + blocks.drop_first().flatten());
        assert(blocks.first() == block_spec(cs[0]));
    }
}

/// Every padded line ends with the style reset, whatever colors it holds,
/// including none: no background color leaks into output printed after it.
pub proof fn lemma_padded_line_ends_with_reset(cs: Seq<Color>)
    ensures
        padded_line_spec(cs).len() >= reset_escape_spec().len(),
        padded_line_spec(cs).subrange(
            padded_line_spec(cs).len() - reset_escape_spec().len(),
            padded_line_spec(cs).len() as int,
        ) == reset_escape_spec(),
{
    assert(padded_line_spec(cs).subrange(
        padded_line_spec(cs).len() - reset_escape_spec().len(),
        padded_line_spec(cs).len() as int,
    ) =~= reset_escape_spec());
}

/// Rendering has no hidden state: the contracts pin each result as a
/// function of the input sequence alone, so two renderings of the same
/// sequence are identical.
pub proof fn lemma_render_deterministic(cs: Seq<Color>, r1: Seq<char>, r2: Seq<char>)
    requires
        r1 == padded_line_spec(cs),
        r2 == padded_line_spec(cs),
    ensures
        r1 == r2,
{
}

/// Renders a line of colored blocks: the block of each color in the sequence,
/// concatenated in order with no separators. An empty sequence yields the
/// empty string.
pub fn get_line(cvec: &Vec<Color>) -> (r: String)
    ensures
        r@ == line_spec(cvec@),
{
    let mut s = String::new();
    let mut i: usize = 0;
    while i < cvec.len()
        invariant
            i <= cvec.len(),
            s@ == line_spec(cvec@.take(i as int)),
        decreases cvec.len() - i,
    {
        let block = get_color(cvec[i]);
        s.append(block.as_str());
        proof {
            lemma_line_spec_concat(cvec@.take(i as int), seq![cvec@[i as int]]);
            assert(cvec@.take(i + 1) =~= cvec@.take(i as int) + seq![cvec@[i as int]]);
            assert(seq![cvec@[i as int]].drop_first() =~= Seq::<Color>::empty());
            assert(line_spec(Seq::<Color>::empty()) == Seq::<char>::empty());
            assert(line_spec(seq![cvec@[i as int]]) =~= block_spec(cvec@[i as int]));
        }
        i = i + 1;
    }
    proof {
        assert(cvec@.take(cvec@.len() as int) =~= cvec@);
    }
    s
}

/// Renders the full padded line for a sequence of colors: three leading
/// spaces of unstyled padding, the rendered line, and finally the style
/// reset, so the line never leaks its background color into later output.
pub fn final_format(colors: Vec<Color>) -> (r: String)
    ensures
        r@ == padded_line_spec(colors@),
{
    let mut s = String::new();
    s.append(block_chars());
    let line = get_line(&colors);
    s.append(line.as_str());
    let reset = reset_string();
    s.append(reset.as_str());
    proof {
        assert(s@ =~= padded_line_spec(colors@));
    }
    s
}

} // verus!

