//! The display formatter. A quantity renders as its magnitude with two
//! decimal digits (for a scalar or a one-by-one matrix), or as nested
//! bracketed, comma-separated rows in row-major order, followed by a single
//! space and a unit name when the dimension vector exactly matches one of the
//! four base units — any other vector renders with no unit suffix.
//!
//! The numeric portion is the magnitude times one hundred rounded to the
//! nearest integer (the cent count), printed as a decimal integer with the
//! last two digits behind the point; the rounding itself is a binary64
//! operation of the trusted magnitude layer, and everything after it is
//! verified digit arithmetic.

use vstd::prelude::*;
use vstd::string::StringExecFns;

use crate::dim::kelvin_dim;
use crate::dim::length_dim;
use crate::dim::mass_dim;
use crate::dim::time_dim;
use crate::dim::Dim;
use crate::magnitude::ascii_to_string;
use crate::magnitude::mag_to_nearest_int;
use crate::magnitude::mul_mag;
use crate::magnitude::nearest_int;
use crate::magnitude::prod_bits;
use crate::magnitude::HUNDRED_BITS;
use crate::matrix::Matrix;
use crate::value::UnitValue;

verus! {

/// Every byte is seven-bit ASCII.
pub open spec fn ascii_ok(s: Seq<u8>) -> bool {
    forall|i: int| 0 <= i < s.len() ==> s[i] < 128
}

/// The bytes read as the characters with the same values.
pub open spec fn chars_of(s: Seq<u8>) -> Seq<char> {
    s.map_values(|b: u8| b as char)
}

/// The decimal digit bytes of `n`, most significant first, with no leading
/// zero except for `n == 0` itself.
pub open spec fn dec_digits(n: nat) -> Seq<u8>
    decreases n,
{
    if n < 10 {
        seq![(48 + n) as u8]
    } else {
        dec_digits(n / 10).push((48 + n % 10) as u8)
    }
}

/// A cent count printed with the last two digits behind the point: an
/// optional minus sign, the whole part, a point, and exactly two fractional
/// digits.
pub open spec fn cents_bytes(c: int) -> Seq<u8> {
    let m = if c < 0 {
        -c
    } else {
        c
    };
    let sign: Seq<u8> = if c < 0 {
        seq![45u8]
    } else {
        Seq::empty()
    };
    sign + dec_digits((m / 100) as nat) + seq![46u8] + seq![
        (48 + (m % 100) / 10) as u8,
        (48 + m % 10) as u8,
    ]
}

/// The two-decimal rendering of a magnitude bit pattern: its value times one
/// hundred, rounded to the nearest integer, printed as a cent count.
pub open spec fn mag_bytes(b: u64) -> Seq<u8> {
    cents_bytes(nearest_int(prod_bits(b, HUNDRED_BITS)) as int)
}

/// The unit suffix of a dimension vector: a single space and the unit name
/// for exactly the four base vectors, nothing for every other vector.
pub open spec fn suffix_chars(d: Dim) -> Seq<char> {
    if d == length_dim() {
        " meters"@
    } else if d == mass_dim() {
        " kilograms"@
    } else if d == time_dim() {
        " seconds"@
    } else if d == kelvin_dim() {
        " kelvin"@
    } else {
        Seq::empty()
    }
}

/// One row's cells, comma-separated.
pub open spec fn row_bytes(s: Seq<u64>) -> Seq<u8>
    decreases s.len(),
{
    if s.len() == 0 {
        Seq::empty()
    } else if s.len() == 1 {
        mag_bytes(s[0])
    } else {
        row_bytes(s.drop_last()) + seq![44u8, 32u8] + mag_bytes(s.last())
    }
}

/// The first `nrows` rows, each bracketed, comma-separated.
pub open spec fn grid_bytes(vals: Seq<u64>, cols: int, nrows: nat) -> Seq<u8>
    decreases nrows,
{
    if nrows == 0 {
        Seq::empty()
    } else {
        let row = seq![91u8] + row_bytes(vals.subrange((nrows - 1) * cols, nrows * cols)) + seq![
            93u8,
        ];
        if nrows == 1 {
            row
        } else {
            grid_bytes(vals, cols, (nrows - 1) as nat) + seq![44u8, 32u8] + row
        }
    }
}

/// The full rendering of a scalar quantity.
pub open spec fn value_chars(q: UnitValue) -> Seq<char> {
    chars_of(mag_bytes(q.bits)) + suffix_chars(q.dim)
}

/// The full rendering of a matrix quantity: a one-by-one matrix renders as
/// its single magnitude with no brackets, every other shape as a bracketed
/// grid.
pub open spec fn matrix_chars(m: Matrix) -> Seq<char> {
    let body = if m.rows == 1 && m.cols == 1 {
        mag_bytes(m.vals@[0])
    } else {
        seq![91u8] + grid_bytes(m.vals@, m.cols as int, m.rows as nat) + seq![93u8]
    };
    chars_of(body) + suffix_chars(m.dim)
}

/// The decimal digit bytes of `n`, most significant first.
fn dec_digit_bytes(n: u128) -> (r: Vec<u8>)
    ensures
        r@ == dec_digits(n as nat),
        forall|i: int| 0 <= i < r@.len() ==> 48 <= #[trigger] r@[i] < 58,
{
    let mut rev: Vec<u8> = Vec::new();
    let mut x: u128 = n;
    let d0: u8 = (x % 10) as u8 + 48;
    rev.push(d0);
    x = x / 10;
    proof {
        assert(rev@.reverse() =~= seq![d0]);
        if n >= 10 {
            assert(dec_digits(n as nat) == dec_digits(n as nat / 10).push(d0));
            assert(dec_digits(x as nat) + rev@.reverse() =~= dec_digits(n as nat));
        } else {
            assert(dec_digits(n as nat) =~= rev@.reverse());
        }
    }
    while x > 0
        invariant
            x == 0 ==> dec_digits(n as nat) == rev@.reverse(),
            x > 0 ==> dec_digits(n as nat) == dec_digits(x as nat) + rev@.reverse(),
            rev@.len() >= 1,
            forall|i: int| 0 <= i < rev@.len() ==> 48 <= #[trigger] rev@[i] < 58,
        decreases x,
    {
        let ghost prev_x = x as nat;
        let ghost prev_rev = rev@;
        let d: u8 = (x % 10) as u8 + 48;
        rev.push(d);
        x = x / 10;
        proof {
            assert(rev@.reverse() =~= seq![d] + prev_rev.reverse());
            if x > 0 {
                assert(dec_digits(prev_x) == dec_digits(prev_x / 10).push(d));
                assert(dec_digits(x as nat) + rev@.reverse() =~= dec_digits(prev_x)
                    + prev_rev.reverse());
            } else {
                assert(dec_digits(prev_x) =~= seq![d]);
                assert(dec_digits(n as nat) =~= rev@.reverse());
            }
        }
    }
    let mut out: Vec<u8> = Vec::new();
    let mut t: usize = rev.len();
    while t > 0
        invariant
            t <= rev@.len(),
            dec_digits(n as nat) == rev@.reverse(),
            forall|i: int| 0 <= i < rev@.len() ==> 48 <= #[trigger] rev@[i] < 58,
            out@ == rev@.reverse().take(rev@.len() - t),
        decreases t,
    {
        t -= 1;
        out.push(rev[t]);
        proof {
            assert(out@ =~= rev@.reverse().take(rev@.len() - t));
        }
    }
    proof {
        assert(rev@.reverse().take(rev@.len() as int) =~= rev@.reverse());
        assert(forall|i: int| 0 <= i < out@.len() ==> out@[i] == rev@.reverse()[i]);
        assert(forall|i: int| 0 <= i < rev@.reverse().len() ==> 48 <= #[trigger] rev@.reverse()[i]
            < 58) by {
            assert(forall|i: int|
                0 <= i < rev@.reverse().len() ==> #[trigger] rev@.reverse()[i] == rev@[rev@.len()
                    - 1 - i]);
        }
    }
    out
}

/// A cent count as its printed bytes.
fn cents_bytes_exec(c: i128) -> (r: Vec<u8>)
    ensures
        r@ == cents_bytes(c as int),
        ascii_ok(r@),
{
    let m: u128 = if c >= 0 {
        c as u128
    } else {
        ((-(c + 1)) as u128) + 1
    };
    proof {
        assert(m as int == if c < 0 {
            -(c as int)
        } else {
            c as int
        });
    }
    let mut out: Vec<u8> = Vec::new();
    if c < 0 {
        out.push(45);
    }
    let mut digits = dec_digit_bytes(m / 100);
    out.append(&mut digits);
    out.push(46);
    out.push((((m % 100) / 10) as u8) + 48);
    out.push(((m % 10) as u8) + 48);
    proof {
        assert(out@ =~= cents_bytes(c as int));
    }
    out
}

/// The two-decimal bytes of a magnitude bit pattern.
fn mag_bytes_exec(b: u64) -> (r: Vec<u8>)
    ensures
        r@ == mag_bytes(b),
        ascii_ok(r@),
{
    let h = mul_mag(b, HUNDRED_BITS);
    let c = mag_to_nearest_int(h);
    cents_bytes_exec(c)
}

/// Appends the unit suffix of `d`.
fn append_suffix(s: &mut String, d: Dim)
    ensures
        final(s)@ == old(s)@ + suffix_chars(d),
{
    if d == Dim::length() {
        s.append(" meters");
    } else if d == Dim::mass() {
        s.append(" kilograms");
    } else if d == Dim::time() {
        s.append(" seconds");
    } else if d == Dim::kelvin() {
        s.append(" kelvin");
    } else {
        proof {
            assert(s@ + suffix_chars(d) =~= s@);
        }
    }
}

impl UnitValue {
    /// Renders the quantity per the display rules: the magnitude with two
    /// decimal digits, then a space and the unit name when the dimension
    /// vector is exactly one of the four base units.
    pub fn render(&self) -> (r: String)
        ensures
            r@ == value_chars(*self),
    {
        let bytes = mag_bytes_exec(self.bits);
        proof {
            assert(chars_of(bytes@).len() == bytes@.len());
        }
        let mut s = ascii_to_string(bytes);
        proof {
            assert(s@ =~= chars_of(mag_bytes(self.bits)));
        }
        append_suffix(&mut s, self.dim);
        s
    }
}

impl Matrix {
    /// Renders the matrix per the display rules: a one-by-one matrix as its
    /// single magnitude with two decimal digits, every other shape as nested
    /// bracketed, comma-separated rows in row-major order, then a space and
    /// the unit name when the shared dimension vector is exactly one of the
    /// four base units.
    pub fn render(&self) -> (r: String)
        requires
            self.wf(),
        ensures
            r@ == matrix_chars(*self),
    {
        let rows = self.rows;
        let cols = self.cols;
        let n = self.vals.len();
        let mut out: Vec<u8> = Vec::new();
        if rows == 1 && cols == 1 {
            let mut cell = mag_bytes_exec(self.vals[0]);
            out.append(&mut cell);
        } else {
            out.push(91);
            let mut p: usize = 0;
            proof {
                assert(out@ =~= seq![91u8] + grid_bytes(self.vals@, cols as int, 0nat));
            }
            while p < rows
                invariant
                    p <= rows,
                    rows == self.rows,
                    cols == self.cols,
                    self.wf(),
                    n == self.vals@.len(),
                    out@ == seq![91u8] + grid_bytes(self.vals@, cols as int, p as nat),
                    ascii_ok(out@),
                decreases rows - p,
            {
                proof {
                    assert(0 <= p as int * cols && p as int * cols + cols <= n)
                        by (nonlinear_arith)
                        requires
                            0 <= p as int,
                            (p as int) < rows as int,
                            0 <= cols as int,
                            n == (rows as int) * (cols as int),
                    ;
                }
                if p > 0 {
                    out.push(44);
                    out.push(32);
                }
                out.push(91);
                let ghost row_start = out@;
                let mut q: usize = 0;
                proof {
                    assert(self.vals@.subrange(p as int * cols, p as int * cols + 0) =~= Seq::<
                        u64,
                    >::empty());
                    assert(out@ =~= row_start + row_bytes(
                        self.vals@.subrange(p as int * cols, p as int * cols + 0),
                    ));
                }
                while q < cols
                    invariant
                        q <= cols,
                        p < rows,
                        rows == self.rows,
                        cols == self.cols,
                        self.wf(),
                        n == self.vals@.len(),
                        0 <= p as int * cols && p as int * cols + cols <= n,
                        row_start == seq![91u8] + grid_bytes(self.vals@, cols as int, p as nat) + (
                        if p > 0 {
                            seq![44u8, 32u8]
                        } else {
                            Seq::<u8>::empty()
                        }) + seq![91u8],
                        out@ == row_start + row_bytes(
                            self.vals@.subrange(p as int * cols, p as int * cols + q),
                        ),
                        ascii_ok(out@),
                    decreases cols - q,
                {
                    if q > 0 {
                        out.push(44);
                        out.push(32);
                    }
                    proof {
                        crate::matrix::lemma_row_major_bound(
                            p as int,
                            q as int,
                            rows as int,
                            cols as int,
                        );
                        assert(p as int * cols + q < n);
                    }
                    let ghost before_cell = out@;
                    let mut cell = mag_bytes_exec(self.vals[p * cols + q]);
                    out.append(&mut cell);
                    q += 1;
                    proof {
                        let s_new = self.vals@.subrange(p as int * cols, p as int * cols + q);
                        assert(s_new.len() == q);
                        assert(s_new[q - 1] == self.vals@[p as int * cols + (q - 1)]);
                        if q == 1 {
                            assert(row_bytes(s_new) == mag_bytes(s_new[0]));
                            assert(out@ =~= row_start + row_bytes(s_new));
                        } else {
                            assert(s_new.drop_last() =~= self.vals@.subrange(
                                p as int * cols,
                                p as int * cols + (q - 1),
                            ));
                            assert(row_bytes(s_new) == row_bytes(s_new.drop_last()) + seq![
                                44u8,
                                32u8,
                            ] + mag_bytes(s_new.last()));
                            assert(out@ =~= row_start + row_bytes(s_new));
                        }
                    }
                }
                out.push(93);
                p += 1;
                proof {
                    assert((p as int) * cols == (p - 1) as int * cols + cols) by (nonlinear_arith);
                    let row_cells = self.vals@.subrange(
                        (p - 1) as int * cols,
                        (p - 1) as int * cols + cols,
                    );
                    assert(grid_bytes(self.vals@, cols as int, p as nat) == if p == 1 {
                        seq![91u8] + row_bytes(row_cells) + seq![93u8]
                    } else {
                        grid_bytes(self.vals@, cols as int, (p - 1) as nat) + seq![44u8, 32u8]
                            + (seq![91u8] + row_bytes(row_cells) + seq![93u8])
                    });
                    assert(out@ =~= seq![91u8] + grid_bytes(self.vals@, cols as int, p as nat));
                }
            }
            out.push(93);
        }
        proof {
            if rows == 1 && cols == 1 {
                assert(out@ =~= mag_bytes(self.vals@[0]));
            } else {
                assert(out@ =~= seq![91u8] + grid_bytes(self.vals@, cols as int, rows as nat)
                    + seq![93u8]);
            }
        }
        let mut s = ascii_to_string(out);
        proof {
            assert(s@ =~= chars_of(if self.rows == 1 && self.cols == 1 {
                mag_bytes(self.vals@[0])
            } else {
                seq![91u8] + grid_bytes(self.vals@, self.cols as int, self.rows as nat) + seq![93u8]
            }));
        }
        append_suffix(&mut s, self.dim);
        s
    }
}

} // verus!
