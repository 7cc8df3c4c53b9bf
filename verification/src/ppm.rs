//! Plain-text PPM ("P3") serialization of a canvas.
//!
//! The output is the header `P3\n<width> <height>\n255\n`, then one line of
//! space-separated decimal byte values per scanline, wrapped so that no line
//! exceeds 70 characters, with a final trailing newline.

use vstd::prelude::*;
use crate::canvas::Canvas;

verus! {

/// The character for one decimal digit.
pub open spec fn digit_char(d: int) -> char {
    if d == 0 {
        '0'
    } else if d == 1 {
        '1'
    } else if d == 2 {
        '2'
    } else if d == 3 {
        '3'
    } else if d == 4 {
        '4'
    } else if d == 5 {
        '5'
    } else if d == 6 {
        '6'
    } else if d == 7 {
        '7'
    } else if d == 8 {
        '8'
    } else {
        '9'
    }
}

/// The decimal digits of a whole value, most significant first.
pub open spec fn dec_nat(n: nat) -> Seq<char>
    decreases n,
{
    if n < 10 {
        seq![digit_char(n as int)]
    } else {
        dec_nat(n / 10).push(digit_char((n % 10) as int))
    }
}

/// The PPM header for the given dimensions.
pub open spec fn spec_ppm_header(w: nat, h: nat) -> Seq<char> {
    seq!['P', '3', '\n'] + dec_nat(w) + seq![' '] + dec_nat(h) + seq!['\n', '2', '5', '5', '\n']
}

/// The characters one scanline emits from byte `i` on, given how many
/// characters the current output line already holds: each value takes a
/// separating space (or a wrapping newline once a line would pass 70
/// characters) and its decimal digits; the scanline ends with a newline.
pub open spec fn row_emit(data: Seq<u8>, i: int, end: int, written: int) -> Seq<char>
    decreases end - i,
{
    if i >= end {
        seq!['\n']
    } else {
        let c = dec_nat(data[i] as nat);
        let len = 1 + c.len() as int;
        if len + written > 70 {
            seq!['\n'] + c + row_emit(data, i + 1, end, c.len() as int)
        } else if written == 0 {
            c + row_emit(data, i + 1, end, len - 1)
        } else {
            seq![' '] + c + row_emit(data, i + 1, end, written + len)
        }
    }
}

/// The header and the first `y` scanlines of the canvas.
pub open spec fn spec_ppm_upto(c: Canvas, y: int) -> Seq<char>
    decreases y,
{
    if y <= 0 {
        spec_ppm_header(c.width as nat, c.height as nat)
    } else {
        spec_ppm_upto(c, y - 1) + row_emit(
            c.data@,
            3 * ((y - 1) * c.width as int),
            3 * (y * c.width as int),
            0,
        )
    }
}

/// The whole PPM text of a canvas.
pub open spec fn spec_canvas_ppm(c: Canvas) -> Seq<char> {
    spec_ppm_upto(c, c.height as int)
}

/// Serializes the canvas into PPM text.
pub fn canvas_to_ppm(canvas: Canvas) -> (result: String)
    requires
        canvas.wf(),
    ensures
        result@ == spec_canvas_ppm(canvas),
{
    let mut result = String::from_str("P3\n");
    proof {
        reveal_strlit("P3\n");
        assert(result@ =~= seq!['P', '3', '\n']);
    }
    push_decimal(&mut result, canvas.width as u64);
    result.append(" ");
    push_decimal(&mut result, canvas.height as u64);
    result.append("\n255\n");
    proof {
        reveal_strlit(" ");
        reveal_strlit("\n255\n");
        assert(result@ =~= spec_ppm_header(canvas.width as nat, canvas.height as nat));
    }

    let w = canvas.width;
    let h = canvas.height;
    let mut y: usize = 0;
    while y < h
        invariant
            y <= h,
            w == canvas.width,
            h == canvas.height,
            canvas.wf(),
            result@ == spec_ppm_upto(canvas, y as int),
        decreases h - y,
    {
        // Bind the buffer length so the scanline range arithmetic is known
        // to stay within the machine range.
        let _buffer_len = canvas.data.len();
        proof {
            lemma_row_bounds(w as int, h as int, y as int);
        }
        let start: usize = 3 * (y * w);
        let end: usize = 3 * ((y + 1) * w);
        let mut i: usize = start;
        let mut written: u64 = 0;
        while i < end
            invariant
                start <= i <= end,
                end <= canvas.data@.len(),
                written <= 74,
                result@ + row_emit(canvas.data@, i as int, end as int, written as int)
                    == spec_ppm_upto(canvas, y as int)
                        + row_emit(canvas.data@, start as int, end as int, 0),
            decreases end - i,
        {
            let v = canvas.data[i];
            let len: u64 = 1 + declen(v);
            if len + written > 70 {
                result.append("\n");
                written = 0;
            }
            if written == 0 {
                push_decimal(&mut result, v as u64);
                written += len - 1;
            } else {
                result.append(" ");
                push_decimal(&mut result, v as u64);
                written += len;
            }
            i += 1;
            proof {
                reveal_strlit("\n");
                reveal_strlit(" ");
                assert(result@ + row_emit(canvas.data@, i as int, end as int, written as int)
                    =~= spec_ppm_upto(canvas, y as int)
                        + row_emit(canvas.data@, start as int, end as int, 0));
            }
        }
        result.append("\n");
        y += 1;
        proof {
            reveal_strlit("\n");
            assert(result@ =~= spec_ppm_upto(canvas, y as int));
        }
    }
    result
}

/// The count of decimal digits of a byte value.
fn declen(v: u8) -> (r: u64)
    ensures
        r == dec_nat(v as nat).len(),
        1 <= r <= 3,
{
    proof {
        lemma_dec_nat_len(v as nat);
    }
    if v >= 100 {
        3
    } else if v >= 10 {
        2
    } else {
        1
    }
}

/// Byte values have one, two or three decimal digits.
proof fn lemma_dec_nat_len(n: nat)
    requires
        n < 256,
    ensures
        n < 10 ==> dec_nat(n).len() == 1,
        10 <= n < 100 ==> dec_nat(n).len() == 2,
        100 <= n ==> dec_nat(n).len() == 3,
{
    if n >= 10 {
        lemma_dec_nat_len_small(n / 10);
        assert(dec_nat(n) == dec_nat(n / 10).push(digit_char((n % 10) as int)));
    }
}

proof fn lemma_dec_nat_len_small(n: nat)
    requires
        n < 26,
    ensures
        n < 10 ==> dec_nat(n).len() == 1,
        10 <= n ==> dec_nat(n).len() == 2,
{
    if n >= 10 {
        assert(n / 10 < 10);
        assert(dec_nat(n / 10).len() == 1);
    }
}

/// The scanline byte ranges lie inside the buffer.
proof fn lemma_row_bounds(w: int, h: int, y: int)
    requires
        0 <= y < h,
        0 <= w,
    ensures
        0 <= 3 * (y * w) <= 3 * ((y + 1) * w) <= 3 * w * h,
{
    assert(0 <= y * w && y * w <= (y + 1) * w && (y + 1) * w <= h * w) by (nonlinear_arith)
        requires
            0 <= y < h,
            0 <= w,
    ;
    assert(3 * ((y + 1) * w) <= 3 * (h * w));
    assert(3 * (h * w) == 3 * w * h) by (nonlinear_arith);
}

/// Appends the decimal digits of `v`, most significant first.
fn push_decimal(s: &mut String, v: u64)
    ensures
        final(s)@ == old(s)@ + dec_nat(v as nat),
    decreases v,
{
    if v >= 10 {
        push_decimal(s, v / 10);
        push_digit(s, (v % 10) as u8);
        proof {
            assert(s@ =~= old(s)@ + dec_nat(v as nat));
        }
    } else {
        push_digit(s, v as u8);
    }
}

/// Appends one decimal digit character.
fn push_digit(s: &mut String, d: u8)
    requires
        d < 10,
    ensures
        final(s)@ == old(s)@ + seq![digit_char(d as int)],
{
    if d == 0 {
        s.append("0");
        proof {
            reveal_strlit("0");
            assert(s@ =~= old(s)@ + seq![digit_char(d as int)]);
        }
    } else if d == 1 {
        s.append("1");
        proof {
            reveal_strlit("1");
            assert(s@ =~= old(s)@ + seq![digit_char(d as int)]);
        }
    } else if d == 2 {
        s.append("2");
        proof {
            reveal_strlit("2");
            assert(s@ =~= old(s)@ + seq![digit_char(d as int)]);
        }
    } else if d == 3 {
        s.append("3");
        proof {
            reveal_strlit("3");
            assert(s@ =~= old(s)@ + seq![digit_char(d as int)]);
        }
    } else if d == 4 {
        s.append("4");
        proof {
            reveal_strlit("4");
            assert(s@ =~= old(s)@ + seq![digit_char(d as int)]);
        }
    } else if d == 5 {
        s.append("5");
        proof {
            reveal_strlit("5");
            assert(s@ =~= old(s)@ + seq![digit_char(d as int)]);
        }
    } else if d == 6 {
        s.append("6");
        proof {
            reveal_strlit("6");
            assert(s@ =~= old(s)@ + seq![digit_char(d as int)]);
        }
    } else if d == 7 {
        s.append("7");
        proof {
            reveal_strlit("7");
            assert(s@ =~= old(s)@ + seq![digit_char(d as int)]);
        }
    } else if d == 8 {
        s.append("8");
        proof {
            reveal_strlit("8");
            assert(s@ =~= old(s)@ + seq![digit_char(d as int)]);
        }
    } else {
        s.append("9");
        proof {
            reveal_strlit("9");
            assert(s@ =~= old(s)@ + seq![digit_char(d as int)]);
        }
    }
}

} // verus!
