//! Presentation logic: decimal formatting of numbers, ANSI SGR coloring of
//! text runs, the exact shape of the candidate and detail lines, and the
//! aspect-preserving thumbnail size for the terminal bounding box.

use vstd::prelude::*;

verus! {

/// The decimal digit run of a non-negative number, most significant first.
pub open spec fn spec_decimal(n: int) -> Seq<u8>
    decreases n,
{
    if n <= 9 {
        seq![(48 + n) as u8]
    } else {
        spec_decimal(n / 10).push((48 + n % 10) as u8)
    }
}

/// The decimal rendering of a signed number: a '-' before the digit run of
/// its magnitude when negative.
pub open spec fn spec_signed_decimal(n: int) -> Seq<u8> {
    if n < 0 {
        seq![45u8] + spec_decimal(-n)
    } else {
        spec_decimal(n)
    }
}

/// Decimal digits of `n`, as console bytes.
pub fn format_u64(n: u64) -> (r: Vec<u8>)
    ensures
        r@ == spec_decimal(n as int),
    decreases n,
{
    if n <= 9 {
        let mut v: Vec<u8> = Vec::new();
        let d: u8 = n as u8;
        v.push(48 + d);
        proof {
            assert(v@ =~= seq![(48 + n as int) as u8]);
        }
        v
    } else {
        let mut v = format_u64(n / 10);
        let d: u8 = (n % 10) as u8;
        v.push(48 + d);
        v
    }
}

/// Decimal rendering of a signed attribute value, minus sign included.
pub fn format_i32(n: i32) -> (r: Vec<u8>)
    ensures
        r@ == spec_signed_decimal(n as int),
{
    if n >= 0 {
        format_u64(n as u64)
    } else {
        let m: u64 = (-(n as i64)) as u64;
        let mut v: Vec<u8> = Vec::new();
        v.push(45);
        let mut w = format_u64(m);
        v.append(&mut w);
        proof {
            assert(v@ =~= seq![45u8] + spec_decimal(-(n as int)));
        }
        v
    }
}

/// One ANSI SGR escape sequence with the given parameter bytes.
pub open spec fn sgr(params: Seq<u8>) -> Seq<u8> {
    seq![27u8, 91u8] + params + seq![109u8]
}

/// A text run wrapped in an SGR color sequence and closed by the SGR reset,
/// so that no color state leaks past the run.
pub open spec fn spec_colored(params: Seq<u8>, text: Seq<u8>) -> Seq<u8> {
    sgr(params) + text + sgr(seq![48u8])
}

/// The palette of the console dialogue.
#[derive(Clone, Copy, PartialEq, Eq, Structural, Debug)]
pub enum Color {
    Red,
    Green,
    Blue,
    BrightBlue,
}

/// The SGR parameter bytes that select each palette color.
pub open spec fn color_params(c: Color) -> Seq<u8> {
    match c {
        Color::Red => seq![51u8, 49u8],
        Color::Green => seq![51u8, 50u8],
        Color::Blue => seq![51u8, 52u8],
        Color::BrightBlue => seq![57u8, 52u8],
    }
}

/// Append a byte string to an output buffer.
#[verifier::loop_isolation(false)]
pub fn append_bytes(out: &mut Vec<u8>, s: &[u8])
    ensures
        final(out)@ == old(out)@ + s@,
{
    let n: usize = s.len();
    let mut i: usize = 0;
    proof {
        assert(out@ =~= old(out)@ + s@.subrange(0, 0));
    }
    while i < n
        invariant
            i <= n,
            out@ == old(out)@ + s@.subrange(0, i as int),
        decreases n - i,
    {
        out.push(s[i]);
        proof {
            assert(out@ =~= old(out)@ + s@.subrange(0, i + 1));
        }
        i = i + 1;
    }
    proof {
        assert(s@.subrange(0, n as int) =~= s@);
    }
}

fn push_color_params(out: &mut Vec<u8>, c: &Color)
    ensures
        final(out)@ == old(out)@ + color_params(*c),
{
    match c {
        Color::Red => {
            out.push(51);
            out.push(49);
        },
        Color::Green => {
            out.push(51);
            out.push(50);
        },
        Color::Blue => {
            out.push(51);
            out.push(52);
        },
        Color::BrightBlue => {
            out.push(57);
            out.push(52);
        },
    }
    proof {
        assert(out@ =~= old(out)@ + color_params(*c));
    }
}

/// A text run in one palette color, reset at the end.
pub fn colored(c: &Color, text: &[u8]) -> (r: Vec<u8>)
    ensures
        r@ == spec_colored(color_params(*c), text@),
{
    let mut v: Vec<u8> = Vec::new();
    v.push(27);
    v.push(91);
    push_color_params(&mut v, c);
    v.push(109);
    append_bytes(&mut v, text);
    v.push(27);
    v.push(91);
    v.push(48);
    v.push(109);
    proof {
        assert(v@ =~= spec_colored(color_params(*c), text@));
    }
    v
}

/// One line of the candidate list: the zero-based index in brackets, in
/// red, then a space and the card's name in blue.
pub open spec fn spec_candidate_line(index: int, name: Seq<u8>) -> Seq<u8> {
    spec_colored(color_params(Color::Red), seq![91u8] + spec_decimal(index) + seq![93u8])
        + seq![32u8] + spec_colored(color_params(Color::Blue), name)
}

/// The displayed line for the candidate at `index`.
pub fn candidate_line(index: usize, name: &[u8]) -> (r: Vec<u8>)
    ensures
        r@ == spec_candidate_line(index as int, name@),
{
    let mut bracketed: Vec<u8> = Vec::new();
    bracketed.push(91);
    let mut digits = format_u64(index as u64);
    bracketed.append(&mut digits);
    bracketed.push(93);
    proof {
        assert(bracketed@ =~= seq![91u8] + spec_decimal(index as int) + seq![93u8]);
    }
    let mut r = colored(&Color::Red, bracketed.as_slice());
    r.push(32);
    let mut tail = colored(&Color::Blue, name);
    r.append(&mut tail);
    proof {
        assert(r@ =~= spec_candidate_line(index as int, name@));
    }
    r
}

/// A detail line: a red label, a space, and the value in bright blue.
pub open spec fn spec_labeled_line(label: Seq<u8>, value: Seq<u8>) -> Seq<u8> {
    spec_colored(color_params(Color::Red), label) + seq![32u8]
        + spec_colored(color_params(Color::BrightBlue), value)
}

/// The displayed line for one labeled attribute of the chosen card.
pub fn labeled_line(label: &[u8], value: &[u8]) -> (r: Vec<u8>)
    ensures
        r@ == spec_labeled_line(label@, value@),
{
    let mut r = colored(&Color::Red, label);
    r.push(32);
    let mut tail = colored(&Color::BrightBlue, value);
    r.append(&mut tail);
    proof {
        assert(r@ =~= spec_labeled_line(label@, value@));
    }
    r
}

/// The terminal-cell box a thumbnail must fit into, and whether the aspect
/// ratio of the source is kept while fitting.
#[derive(Clone, Copy, PartialEq, Eq, Structural, Debug)]
pub struct BoundingBox {
    pub max_width: u32,
    pub max_height: u32,
    pub preserve_aspect: bool,
}

impl Default for BoundingBox {
    /// The fixed footprint of the card artwork: 20 cells wide, 15 tall,
    /// aspect ratio kept.
    fn default() -> (r: Self)
        ensures
            r.max_width == 20 && r.max_height == 15 && r.preserve_aspect,
    {
        BoundingBox { max_width: 20, max_height: 15, preserve_aspect: true }
    }
}

/// The thumbnail size for a source of `w` by `h` pixels in a box of `bw` by
/// `bh` cells: the smaller of the two scale factors `bw / w` and `bh / h`
/// is applied to both dimensions, so the constrained dimension fills its
/// bound exactly and the other is rounded down.
pub open spec fn spec_resized(w: int, h: int, bw: int, bh: int, preserve: bool) -> (int, int) {
    if !preserve {
        (bw, bh)
    } else if bw * h <= bh * w {
        (bw, h * bw / w)
    } else {
        (w * bh / h, bh)
    }
}

/// The size the source image is resampled to before it is written to the
/// terminal.  With aspect preservation the result never leaves the box.
pub fn resized_size(width: u32, height: u32, bounds: &BoundingBox) -> (r: (u32, u32))
    requires
        width > 0,
        height > 0,
    ensures
        (r.0 as int, r.1 as int) == spec_resized(
            width as int,
            height as int,
            bounds.max_width as int,
            bounds.max_height as int,
            bounds.preserve_aspect,
        ),
        bounds.preserve_aspect ==> r.0 <= bounds.max_width && r.1 <= bounds.max_height,
{
    if !bounds.preserve_aspect {
        return (bounds.max_width, bounds.max_height);
    }
    let w = width as u64;
    let h = height as u64;
    let bw = bounds.max_width as u64;
    let bh = bounds.max_height as u64;
    proof {
        assert(bw * h < 0x10000000000000000 && bh * w < 0x10000000000000000 && h * bw
            < 0x10000000000000000 && w * bh < 0x10000000000000000) by (nonlinear_arith)
            requires
                bw < 0x100000000,
                bh < 0x100000000,
                w < 0x100000000,
                h < 0x100000000,
        ;
    }
    if bw * h <= bh * w {
        let nh = h * bw / w;
        proof {
            vstd::arithmetic::div_mod::lemma_div_is_ordered(
                h as int * bw as int,
                bh as int * w as int,
                w as int,
            );
            vstd::arithmetic::div_mod::lemma_div_multiples_vanish(bh as int, w as int);
        }
        (bounds.max_width, nh as u32)
    } else {
        let nw = w * bh / h;
        proof {
            vstd::arithmetic::div_mod::lemma_div_is_ordered(
                w as int * bh as int,
                bw as int * h as int,
                h as int,
            );
            vstd::arithmetic::div_mod::lemma_div_multiples_vanish(bw as int, h as int);
        }
        (nw as u32, bounds.max_height)
    }
}

} // verus!
