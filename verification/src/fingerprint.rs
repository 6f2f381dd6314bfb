//! Fingerprint engine: hashes raw public-key bytes into a human-verifiable
//! identifier.
//!
//! The fingerprint is the SHA-256 digest of the raw public-key bytes alone —
//! never of a transport-framed payload — so it is stable whether the key
//! arrived by generation, import or scan. Its display form is uppercase hex
//! octets joined by `:`, left-to-right byte order.

use vstd::prelude::*;

verus! {

/// The SHA-256 digest of a byte string. Left uninterpreted: the digest is
/// computed by an outside crate and is a pure function of the input bytes.
pub uninterp spec fn sha256_of(data: Seq<u8>) -> Seq<u8>;

/// Relies on `hmac_sha256::Hash::hash`: the SHA-256 digest of the input,
/// 32 bytes, a function of the input bytes alone.
#[verifier::external_body]
fn sha256(data: &Vec<u8>) -> (r: Vec<u8>)
    ensures
        r@ == sha256_of(data@),
        r@.len() == 32,
{
    hmac_sha256::Hash::hash(data.as_slice()).to_vec()
}

/// The uppercase hex character for one value below 16.
pub open spec fn hex_char(n: u8) -> char {
    if n == 0 {
        '0'
    } else if n == 1 {
        '1'
    } else if n == 2 {
        '2'
    } else if n == 3 {
        '3'
    } else if n == 4 {
        '4'
    } else if n == 5 {
        '5'
    } else if n == 6 {
        '6'
    } else if n == 7 {
        '7'
    } else if n == 8 {
        '8'
    } else if n == 9 {
        '9'
    } else if n == 10 {
        'A'
    } else if n == 11 {
        'B'
    } else if n == 12 {
        'C'
    } else if n == 13 {
        'D'
    } else if n == 14 {
        'E'
    } else {
        'F'
    }
}

/// One byte as two uppercase hex characters.
pub open spec fn byte_hex(b: u8) -> Seq<char> {
    seq![hex_char(b / 16), hex_char(b % 16)]
}

/// A byte string as uppercase hex octets joined by `:`.
pub open spec fn hex_colon_spec(d: Seq<u8>) -> Seq<char>
    decreases d.len(),
{
    if d.len() == 0 {
        Seq::empty()
    } else if d.len() == 1 {
        byte_hex(d[0])
    } else {
        byte_hex(d[0]) + seq![':'] + hex_colon_spec(d.drop_first())
    }
}

/// The display form of the fingerprint of a raw public key.
pub open spec fn fingerprint_spec(raw_public_key: Seq<u8>) -> Seq<char> {
    hex_colon_spec(sha256_of(raw_public_key))
}

proof fn lemma_hex_colon_snoc(d: Seq<u8>, x: u8)
    ensures
        hex_colon_spec(d.push(x)) == (if d.len() == 0 {
            byte_hex(x)
        } else {
            hex_colon_spec(d) + seq![':'] + byte_hex(x)
        }),
    decreases d.len(),
{
    let e = d.push(x);
    if d.len() == 0 {
        assert(e.len() == 1);
        assert(e[0] == x);
    } else {
        assert(e.len() >= 2);
        assert(e[0] == d[0]);
        assert(e.drop_first() =~= d.drop_first().push(x));
        lemma_hex_colon_snoc(d.drop_first(), x);
        if d.len() == 1 {
            assert(hex_colon_spec(e) == byte_hex(d[0]) + seq![':'] + byte_hex(x));
            assert(hex_colon_spec(d) == byte_hex(d[0]));
        } else {
            assert(hex_colon_spec(e) == byte_hex(d[0]) + seq![':'] + (hex_colon_spec(
                d.drop_first(),
            ) + seq![':'] + byte_hex(x)));
            assert(byte_hex(d[0]) + seq![':'] + (hex_colon_spec(d.drop_first()) + seq![':']
                + byte_hex(x)) =~= (byte_hex(d[0]) + seq![':'] + hex_colon_spec(d.drop_first()))
                + seq![':'] + byte_hex(x));
        }
    }
}

/// The uppercase hex character for one value below 16, as a string piece.
pub fn hex_digit_str(n: u8) -> (r: &'static str)
    requires
        n < 16,
    ensures
        r@ == seq![hex_char(n)],
{
    if n == 0 {
        proof {
            reveal_strlit("0");
            assert("0"@ =~= seq![hex_char(0u8)]);
        }
        "0"
    } else if n == 1 {
        proof {
            reveal_strlit("1");
            assert("1"@ =~= seq![hex_char(1u8)]);
        }
        "1"
    } else if n == 2 {
        proof {
            reveal_strlit("2");
            assert("2"@ =~= seq![hex_char(2u8)]);
        }
        "2"
    } else if n == 3 {
        proof {
            reveal_strlit("3");
            assert("3"@ =~= seq![hex_char(3u8)]);
        }
        "3"
    } else if n == 4 {
        proof {
            reveal_strlit("4");
            assert("4"@ =~= seq![hex_char(4u8)]);
        }
        "4"
    } else if n == 5 {
        proof {
            reveal_strlit("5");
            assert("5"@ =~= seq![hex_char(5u8)]);
        }
        "5"
    } else if n == 6 {
        proof {
            reveal_strlit("6");
            assert("6"@ =~= seq![hex_char(6u8)]);
        }
        "6"
    } else if n == 7 {
        proof {
            reveal_strlit("7");
            assert("7"@ =~= seq![hex_char(7u8)]);
        }
        "7"
    } else if n == 8 {
        proof {
            reveal_strlit("8");
            assert("8"@ =~= seq![hex_char(8u8)]);
        }
        "8"
    } else if n == 9 {
        proof {
            reveal_strlit("9");
            assert("9"@ =~= seq![hex_char(9u8)]);
        }
        "9"
    } else if n == 10 {
        proof {
            reveal_strlit("A");
            assert("A"@ =~= seq![hex_char(10u8)]);
        }
        "A"
    } else if n == 11 {
        proof {
            reveal_strlit("B");
            assert("B"@ =~= seq![hex_char(11u8)]);
        }
        "B"
    } else if n == 12 {
        proof {
            reveal_strlit("C");
            assert("C"@ =~= seq![hex_char(12u8)]);
        }
        "C"
    } else if n == 13 {
        proof {
            reveal_strlit("D");
            assert("D"@ =~= seq![hex_char(13u8)]);
        }
        "D"
    } else if n == 14 {
        proof {
            reveal_strlit("E");
            assert("E"@ =~= seq![hex_char(14u8)]);
        }
        "E"
    } else {
        proof {
            reveal_strlit("F");
            assert("F"@ =~= seq![hex_char(15u8)]);
        }
        "F"
    }
}

/// Render a byte string as uppercase hex octets joined by `:`.
pub fn hex_colon_display(d: &Vec<u8>) -> (r: String)
    ensures
        r@ == hex_colon_spec(d@),
{
    let mut out = String::new();
    let mut i: usize = 0;
    while i < d.len()
        invariant
            i <= d@.len(),
            out@ == hex_colon_spec(d@.take(i as int)),
        decreases d@.len() - i,
    {
        if i > 0 {
            proof {
                reveal_strlit(":");
            }
            out.append(":");
        }
        let b = d[i];
        let hi = b / 16;
        let lo = b % 16;
        out.append(hex_digit_str(hi));
        out.append(hex_digit_str(lo));
        proof {
            reveal_strlit(":");
            lemma_hex_colon_snoc(d@.take(i as int), b);
            assert(d@.take(i as int).push(d@[i as int]) =~= d@.take(i as int + 1));
            assert(out@ =~= hex_colon_spec(d@.take(i as int + 1)));
        }
        i += 1;
    }
    proof {
        assert(d@.take(d@.len() as int) =~= d@);
    }
    out
}

/// The fingerprint display form of a raw public key: the SHA-256 digest of
/// the key bytes as uppercase hex octets joined by `:`.
pub fn fingerprint(raw_public_key: &Vec<u8>) -> (r: String)
    ensures
        r@ == fingerprint_spec(raw_public_key@),
{
    let digest = sha256(raw_public_key);
    hex_colon_display(&digest)
}

/// Law: the fingerprint is deterministic — the same raw key bytes always
/// give the same fingerprint, however often it is recomputed.
pub proof fn lemma_fingerprint_deterministic(a: Seq<u8>, b: Seq<u8>)
    requires
        a == b,
    ensures
        fingerprint_spec(a) == fingerprint_spec(b),
{
}

} // verus!
