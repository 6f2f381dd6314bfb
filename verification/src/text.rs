//! Text utilities: UTF-8 decoding at the library's edge, line splitting for
//! the batch signer, and decimal rendering for archive entry names.

use vstd::prelude::*;
use vstd::utf8::{decode_utf8, valid_utf8};
use crate::fingerprint::hex_char;

verus! {

/// Relies on `core::str::from_utf8`: succeeds exactly on valid UTF-8 and
/// returns the text those bytes encode.
#[verifier::external_body]
pub fn utf8_to_string(bytes: &Vec<u8>) -> (r: Option<String>)
    ensures
        r is Some <==> valid_utf8(bytes@),
        r matches Some(s) ==> s@ == decode_utf8(bytes@),
{
    match core::str::from_utf8(bytes.as_slice()) {
        Ok(s) => Some(s.to_owned()),
        Err(_) => None,
    }
}

/// The decimal digits of a number, most significant first.
pub open spec fn dec_spec(n: nat) -> Seq<char>
    decreases n,
{
    if n < 10 {
        seq![hex_char(n as u8)]
    } else {
        dec_spec(n / 10) + seq![hex_char((n % 10) as u8)]
    }
}

/// Render a number in decimal.
pub fn dec_string(n: usize) -> (r: String)
    ensures
        r@ == dec_spec(n as nat),
    decreases n,
{
    if n < 10 {
        crate::fingerprint::hex_digit_str(n as u8).to_owned()
    } else {
        proof {
            assert(n / 10 < n) by (nonlinear_arith)
                requires
                    n >= 10,
            ;
        }
        let rest = dec_string(n / 10);
        rest.concat(crate::fingerprint::hex_digit_str((n % 10) as u8))
    }
}

/// Index of the first line-feed byte, or the length when there is none.
pub open spec fn first_newline(b: Seq<u8>) -> int
    decreases b.len(),
{
    if b.len() == 0 {
        0
    } else if b[0] == 10u8 {
        0
    } else {
        1 + first_newline(b.drop_first())
    }
}

pub proof fn lemma_first_newline_bounds(b: Seq<u8>)
    ensures
        0 <= first_newline(b) <= b.len(),
        first_newline(b) < b.len() ==> b[first_newline(b)] == 10u8,
        forall|j: int| 0 <= j < first_newline(b) ==> b[j] != 10u8,
    decreases b.len(),
{
    if b.len() == 0 {
    } else if b[0] == 10u8 {
    } else {
        lemma_first_newline_bounds(b.drop_first());
        assert forall|j: int| 0 <= j < first_newline(b) implies b[j] != 10u8 by {
            if j > 0 {
                assert(b.drop_first()[j - 1] == b[j]);
            }
        }
    }
}

/// The first line-feed is exactly where a scan that saw no earlier
/// line-feed stops.
pub proof fn lemma_first_newline_at(b: Seq<u8>, m: int)
    requires
        0 <= m <= b.len(),
        forall|j: int| 0 <= j < m ==> b[j] != 10u8,
        m < b.len() ==> b[m] == 10u8,
    ensures
        first_newline(b) == m,
    decreases b.len(),
{
    if b.len() == 0 {
    } else if m == 0 {
    } else {
        assert(b[0] != 10u8);
        assert forall|j: int| 0 <= j < m - 1 implies b.drop_first()[j] != 10u8 by {
            assert(b.drop_first()[j] == b[j + 1]);
        }
        lemma_first_newline_at(b.drop_first(), m - 1);
    }
}

/// One trailing carriage return removed, as a line ending of `\r\n` leaves
/// one behind after splitting at the line feed.
pub open spec fn strip_cr(line: Seq<u8>) -> Seq<u8> {
    if line.len() > 0 && line[line.len() - 1] == 13u8 {
        line.drop_last()
    } else {
        line
    }
}

/// The lines of a byte string, split at `\n` or `\r\n`; a final line
/// ending is optional and adds no empty line.
pub open spec fn lines_spec(b: Seq<u8>) -> Seq<Seq<u8>>
    decreases b.len(),
    via lines_spec_dec
{
    if b.len() == 0 {
        Seq::empty()
    } else {
        let i = first_newline(b);
        if i == b.len() {
            seq![b]
        } else {
            seq![strip_cr(b.take(i))] + lines_spec(b.skip(i + 1))
        }
    }
}

#[via_fn]
proof fn lines_spec_dec(b: Seq<u8>) {
    lemma_first_newline_bounds(b);
}

/// Split a document into its lines, exactly as `lines_spec` says.
pub fn split_lines(data: &Vec<u8>) -> (r: Vec<Vec<u8>>)
    ensures
        r.deep_view() == lines_spec(data@),
{
    let mut out: Vec<Vec<u8>> = Vec::new();
    let mut start: usize = 0;
    proof {
        assert(data@.skip(0) =~= data@);
        assert(lines_spec(data@) =~~= out.deep_view() + lines_spec(data@.skip(0)));
    }
    while start < data.len()
        invariant
            start <= data@.len(),
            lines_spec(data@) == out.deep_view() + lines_spec(data@.skip(start as int)),
        decreases data@.len() - start,
    {
        let ghost rest = data@.skip(start as int);
        let mut i: usize = start;
        while i < data.len() && data[i] != 10u8
            invariant
                start <= i <= data@.len(),
                forall|j: int| start <= j < i ==> data@[j] != 10u8,
            decreases data@.len() - i,
        {
            i += 1;
        }
        proof {
            assert forall|j: int| 0 <= j < i - start implies rest[j] != 10u8 by {
                assert(rest[j] == data@[start + j]);
            }
            if i < data@.len() {
                assert(rest[i - start] == data@[i as int]);
            }
            lemma_first_newline_at(rest, i - start);
        }
        if i < data.len() {
            let mut line = vstd::slice::slice_to_vec(
                vstd::slice::slice_subrange(data.as_slice(), start, i),
            );
            if line.len() > 0 && line[line.len() - 1] == 13u8 {
                line.truncate(line.len() - 1);
                proof {
                    assert(line@ =~= strip_cr(data@.subrange(start as int, i as int)));
                }
            }
            let ghost prev = out.deep_view();
            out.push(line);
            proof {
                assert(rest.take(i - start) =~= data@.subrange(start as int, i as int));
                assert(rest.skip(i - start + 1) =~= data@.skip(i + 1));
                assert(lines_spec(rest) == seq![strip_cr(rest.take(i - start))] + lines_spec(
                    data@.skip(i + 1),
                ));
                assert(out.deep_view() =~~= prev.push(line@));
                assert(prev + lines_spec(rest) =~~= out.deep_view() + lines_spec(data@.skip(i + 1)));
            }
            start = i + 1;
        } else {
            let line = vstd::slice::slice_to_vec(
                vstd::slice::slice_subrange(data.as_slice(), start, data.len()),
            );
            let ghost prev = out.deep_view();
            out.push(line);
            proof {
                assert(rest.len() > 0);
                assert(data@.subrange(start as int, data@.len() as int) =~= rest);
                assert(lines_spec(rest) == seq![rest]);
                assert(out.deep_view() =~~= prev.push(line@));
                assert(lines_spec(data@.skip(data@.len() as int)) =~= Seq::<Seq<u8>>::empty());
                assert(prev + lines_spec(rest) =~~= out.deep_view() + lines_spec(
                    data@.skip(data@.len() as int),
                ));
            }
            start = data.len();
        }
        proof {
            assert(lines_spec(data@) =~~= out.deep_view() + lines_spec(data@.skip(start as int)));
        }
    }
    proof {
        assert(data@.skip(start as int) =~= Seq::<u8>::empty());
        assert(lines_spec(data@) =~~= out.deep_view());
    }
    out
}

} // verus!
