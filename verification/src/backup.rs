//! Key-pair backup codec: the JSON file form of a key pair,
//! `{"type":"qr_key_pair","public":<JWK>,"private":<JWK>}`.
//!
//! Export composes that object around the two JWK texts. Import scans a
//! JSON object structurally: fields in any order, unknown fields ignored,
//! later duplicates winning, whitespace tolerated between tokens. String
//! tokens are read without escape processing and values are delimited by
//! structural characters, so string values holding braces, brackets or
//! escapes are out of scope — the backup writer never produces them. Any
//! text this scanner refuses, a wrong `type` value, and a missing or empty
//! half are all format errors that leave the key state untouched.

use vstd::prelude::*;
use crate::crypto::structural_char;

verus! {

/// JSON insignificant whitespace.
pub open spec fn is_ws(c: char) -> bool {
    c == ' ' || c == '\t' || c == '\n' || c == '\r'
}

/// The first position at or after `i` that holds no whitespace.
pub open spec fn skip_ws_spec(s: Seq<char>, i: int) -> int
    decreases s.len() - i,
{
    if 0 <= i < s.len() && is_ws(s[i]) {
        skip_ws_spec(s, i + 1)
    } else {
        i
    }
}

pub proof fn lemma_skip_ws_bounds(s: Seq<char>, i: int)
    requires
        0 <= i <= s.len(),
    ensures
        i <= skip_ws_spec(s, i) <= s.len(),
        skip_ws_spec(s, i) < s.len() ==> !is_ws(s[skip_ws_spec(s, i)]),
    decreases s.len() - i,
{
    if i < s.len() && is_ws(s[i]) {
        lemma_skip_ws_bounds(s, i + 1);
    }
}

/// The first double quote at or after `i`, if any.
pub open spec fn scan_to_quote(s: Seq<char>, i: int) -> Option<int>
    decreases s.len() - i,
{
    if i < 0 || i >= s.len() {
        None
    } else if s[i] == '"' {
        Some(i)
    } else {
        scan_to_quote(s, i + 1)
    }
}

pub proof fn lemma_scan_to_quote_bounds(s: Seq<char>, i: int)
    requires
        0 <= i <= s.len(),
    ensures
        scan_to_quote(s, i) matches Some(j) ==> i <= j < s.len() && s[j] == '"',
    decreases s.len() - i,
{
    if 0 <= i < s.len() && s[i] != '"' {
        lemma_scan_to_quote_bounds(s, i + 1);
    }
}

/// The position after the value that closes the object or array opened
/// `depth` levels up, counting structural characters only.
pub open spec fn skip_nested(s: Seq<char>, i: int, depth: int) -> Option<int>
    decreases s.len() - i,
{
    if i < 0 || i >= s.len() || depth <= 0 {
        None
    } else if s[i] == '{' || s[i] == '[' {
        skip_nested(s, i + 1, depth + 1)
    } else if s[i] == '}' || s[i] == ']' {
        if depth == 1 {
            Some(i + 1)
        } else {
            skip_nested(s, i + 1, depth - 1)
        }
    } else {
        skip_nested(s, i + 1, depth)
    }
}

pub proof fn lemma_skip_nested_bounds(s: Seq<char>, i: int, depth: int)
    requires
        0 <= i <= s.len(),
    ensures
        skip_nested(s, i, depth) matches Some(j) ==> i < j <= s.len(),
    decreases s.len() - i,
{
    if 0 <= i < s.len() && depth > 0 {
        lemma_skip_nested_bounds(s, i + 1, depth + 1);
        lemma_skip_nested_bounds(s, i + 1, depth - 1);
        lemma_skip_nested_bounds(s, i + 1, depth);
    }
}

/// Skipping a flat interior — no structural characters until the closing
/// brace or bracket — stops right after that close.
pub proof fn lemma_skip_nested_flat(s: Seq<char>, i: int, j: int)
    requires
        0 <= i <= j < s.len(),
        forall|k: int| i <= k < j ==> !structural_char(s[k]),
        s[j] == '}' || s[j] == ']',
    ensures
        skip_nested(s, i, 1) == Some(j + 1),
    decreases j - i,
{
    if i < j {
        lemma_skip_nested_flat(s, i + 1, j);
    }
}

/// Whether a character ends an unquoted primitive token.
pub open spec fn prim_delim(c: char) -> bool {
    c == ',' || c == '}' || c == ']' || is_ws(c)
}

/// The first position at or after `i` that ends a primitive token.
pub open spec fn prim_end(s: Seq<char>, i: int) -> int
    decreases s.len() - i,
{
    if 0 <= i < s.len() && !prim_delim(s[i]) {
        prim_end(s, i + 1)
    } else {
        i
    }
}

pub proof fn lemma_prim_end_bounds(s: Seq<char>, i: int)
    requires
        0 <= i <= s.len(),
    ensures
        i <= prim_end(s, i) <= s.len(),
    decreases s.len() - i,
{
    if i < s.len() && !prim_delim(s[i]) {
        lemma_prim_end_bounds(s, i + 1);
    }
}

/// The characters of a text, for random access while scanning.
pub fn str_chars(s: &str) -> (r: Vec<char>)
    ensures
        r@ == s@,
{
    let mut out: Vec<char> = Vec::new();
    let n = s.unicode_len();
    let mut i: usize = 0;
    while i < n
        invariant
            i <= n,
            n == s@.len(),
            out@ == s@.take(i as int),
        decreases n - i,
    {
        out.push(s.get_char(i));
        proof {
            assert(out@ =~= s@.take(i as int + 1));
        }
        i += 1;
    }
    proof {
        assert(s@.take(s@.len() as int) =~= s@);
    }
    out
}

fn skip_ws_exec(s: &Vec<char>, i: usize) -> (r: usize)
    requires
        i <= s@.len(),
    ensures
        r == skip_ws_spec(s@, i as int),
        i <= r <= s@.len(),
{
    let mut j = i;
    while j < s.len() && (s[j] == ' ' || s[j] == '\t' || s[j] == '\n' || s[j] == '\r')
        invariant
            i <= j <= s@.len(),
            skip_ws_spec(s@, i as int) == skip_ws_spec(s@, j as int),
        decreases s@.len() - j,
    {
        j += 1;
    }
    j
}

fn scan_to_quote_exec(s: &Vec<char>, i: usize) -> (r: Option<usize>)
    requires
        i <= s@.len(),
    ensures
        r matches Some(j) ==> Some(j as int) == scan_to_quote(s@, i as int) && i <= j < s@.len(),
        r is None ==> scan_to_quote(s@, i as int) is None,
{
    let mut j = i;
    while j < s.len() && s[j] != '"'
        invariant
            i <= j <= s@.len(),
            scan_to_quote(s@, i as int) == scan_to_quote(s@, j as int),
        decreases s@.len() - j,
    {
        j += 1;
    }
    if j < s.len() {
        Some(j)
    } else {
        None
    }
}

fn skip_nested_exec(s: &Vec<char>, i: usize) -> (r: Option<usize>)
    requires
        1 <= i <= s@.len(),
    ensures
        r matches Some(j) ==> Some(j as int) == skip_nested(s@, i as int, 1) && i < j <= s@.len(),
        r is None ==> skip_nested(s@, i as int, 1) is None,
{
    let mut j = i;
    let mut depth: usize = 1;
    while j < s.len()
        invariant
            i <= j <= s@.len(),
            depth >= 1,
            depth <= j,
            skip_nested(s@, i as int, 1) == skip_nested(s@, j as int, depth as int),
        decreases s@.len() - j,
    {
        let c = s[j];
        if c == '{' || c == '[' {
            depth += 1;
        } else if c == '}' || c == ']' {
            if depth == 1 {
                return Some(j + 1);
            }
            depth -= 1;
        }
        j += 1;
    }
    None
}

fn prim_end_exec(s: &Vec<char>, i: usize) -> (r: usize)
    requires
        i <= s@.len(),
    ensures
        r == prim_end(s@, i as int),
        i <= r <= s@.len(),
{
    let mut j = i;
    while j < s.len() && !(s[j] == ',' || s[j] == '}' || s[j] == ']' || s[j] == ' ' || s[j] == '\t'
        || s[j] == '\n' || s[j] == '\r')
        invariant
            i <= j <= s@.len(),
            prim_end(s@, i as int) == prim_end(s@, j as int),
        decreases s@.len() - j,
    {
        j += 1;
    }
    j
}


/// The spans of the three recognized backup fields, as scanning finds them.
/// A string value's span is its contents between the quotes; any other
/// value's span is its whole text.
pub struct FieldsAcc {
    pub type_span: Option<(int, int)>,
    pub public_span: Option<(int, int)>,
    pub private_span: Option<(int, int)>,
}

/// No field seen yet.
pub open spec fn empty_acc() -> FieldsAcc {
    FieldsAcc { type_span: None, public_span: None, private_span: None }
}

/// Record one field; later duplicates win, unknown keys are ignored.
pub open spec fn acc_update(acc: FieldsAcc, key: Seq<char>, span: (int, int)) -> FieldsAcc {
    if key == "type"@ {
        FieldsAcc { type_span: Some(span), public_span: acc.public_span, private_span: acc.private_span }
    } else if key == "public"@ {
        FieldsAcc { type_span: acc.type_span, public_span: Some(span), private_span: acc.private_span }
    } else if key == "private"@ {
        FieldsAcc { type_span: acc.type_span, public_span: acc.public_span, private_span: Some(span) }
    } else {
        acc
    }
}

/// Scan the fields of a JSON object from position `i` (just inside the
/// opening brace). Yields the recognized spans and the position after the
/// closing brace, or nothing if the text is not an object of this shape.
pub open spec fn parse_fields(s: Seq<char>, i: int, acc: FieldsAcc) -> Option<(FieldsAcc, int)>
    decreases s.len() - i,
    via parse_fields_dec
{
    if i < 0 {
        None
    } else {
        let k0 = skip_ws_spec(s, i);
        if k0 >= s.len() {
            None
        } else if s[k0] == '}' {
            Some((acc, k0 + 1))
        } else if s[k0] != '"' {
            None
        } else {
            match scan_to_quote(s, k0 + 1) {
                None => None,
                Some(key_end) => {
                    let key = s.subrange(k0 + 1, key_end);
                    let c0 = skip_ws_spec(s, key_end + 1);
                    if c0 >= s.len() || s[c0] != ':' {
                        None
                    } else {
                        let v0 = skip_ws_spec(s, c0 + 1);
                        if v0 >= s.len() {
                            None
                        } else {
                            let sv = if s[v0] == '"' {
                                match scan_to_quote(s, v0 + 1) {
                                    None => None,
                                    Some(ve) => Some(((v0 + 1, ve), ve + 1)),
                                }
                            } else if s[v0] == '{' || s[v0] == '[' {
                                match skip_nested(s, v0 + 1, 1) {
                                    None => None,
                                    Some(ve) => Some(((v0, ve), ve)),
                                }
                            } else {
                                let ve = prim_end(s, v0);
                                if ve == v0 {
                                    None
                                } else {
                                    Some(((v0, ve), ve))
                                }
                            };
                            match sv {
                                None => None,
                                Some((span, next)) => {
                                    let acc2 = acc_update(acc, key, span);
                                    let t0 = skip_ws_spec(s, next);
                                    if t0 >= s.len() {
                                        None
                                    } else if s[t0] == ',' {
                                        parse_fields(s, t0 + 1, acc2)
                                    } else if s[t0] == '}' {
                                        Some((acc2, t0 + 1))
                                    } else {
                                        None
                                    }
                                },
                            }
                        }
                    }
                }
            }
        }
    }
}

#[via_fn]
proof fn parse_fields_dec(s: Seq<char>, i: int, acc: FieldsAcc) {
    if 0 <= i <= s.len() {
        lemma_skip_ws_bounds(s, i);
        let k0 = skip_ws_spec(s, i);
        if k0 < s.len() && s[k0] == '"' {
            lemma_scan_to_quote_bounds(s, k0 + 1);
            match scan_to_quote(s, k0 + 1) {
                None => {},
                Some(key_end) => {
                    lemma_skip_ws_bounds(s, key_end + 1);
                    let c0 = skip_ws_spec(s, key_end + 1);
                    if c0 < s.len() && s[c0] == ':' {
                        lemma_skip_ws_bounds(s, c0 + 1);
                        let v0 = skip_ws_spec(s, c0 + 1);
                        if v0 < s.len() {
                            lemma_scan_to_quote_bounds(s, v0 + 1);
                            lemma_skip_nested_bounds(s, v0 + 1, 1);
                            lemma_prim_end_bounds(s, v0);
                            let sv = if s[v0] == '"' {
                                match scan_to_quote(s, v0 + 1) {
                                    None => None,
                                    Some(ve) => Some(((v0 + 1, ve), ve + 1)),
                                }
                            } else if s[v0] == '{' || s[v0] == '[' {
                                match skip_nested(s, v0 + 1, 1) {
                                    None => None,
                                    Some(ve) => Some(((v0, ve), ve)),
                                }
                            } else {
                                let ve = prim_end(s, v0);
                                if ve == v0 {
                                    None
                                } else {
                                    Some(((v0, ve), ve))
                                }
                            };
                            match sv {
                                None => {},
                                Some((span, next)) => {
                                    lemma_skip_ws_bounds(s, next);
                                },
                            }
                        }
                    }
                },
            }
        }
    }
}

/// The recognized fields of a backup text: one JSON object covering the
/// whole text, up to surrounding whitespace.
pub open spec fn backup_fields_spec(s: Seq<char>) -> Option<FieldsAcc> {
    let i0 = skip_ws_spec(s, 0);
    if i0 >= s.len() || s[i0] != '{' {
        None
    } else {
        match parse_fields(s, i0 + 1, empty_acc()) {
            None => None,
            Some((acc, e)) => if skip_ws_spec(s, e) == s.len() {
                Some(acc)
            } else {
                None
            },
        }
    }
}

/// The two JWK texts of a well-formed backup: the object must carry
/// `"type":"qr_key_pair"` and non-empty `public` and `private` values.
pub open spec fn backup_jwks_spec(s: Seq<char>) -> Option<(Seq<char>, Seq<char>)> {
    match backup_fields_spec(s) {
        None => None,
        Some(acc) => match (acc.type_span, acc.public_span, acc.private_span) {
            (Some(t), Some(p), Some(q)) => {
                if s.subrange(t.0, t.1) == "qr_key_pair"@ && p.1 > p.0 && q.1 > q.0 {
                    Some((s.subrange(p.0, p.1), s.subrange(q.0, q.1)))
                } else {
                    None
                }
            },
            _ => None,
        },
    }
}


/// The ghost record for the three exec-side spans.
pub open spec fn acc_of(
    t: Option<(usize, usize)>,
    p: Option<(usize, usize)>,
    q: Option<(usize, usize)>,
) -> FieldsAcc {
    FieldsAcc {
        type_span: match t {
            Some(sp) => Some((sp.0 as int, sp.1 as int)),
            None => None,
        },
        public_span: match p {
            Some(sp) => Some((sp.0 as int, sp.1 as int)),
            None => None,
        },
        private_span: match q {
            Some(sp) => Some((sp.0 as int, sp.1 as int)),
            None => None,
        },
    }
}

fn key_is(s: &str, chars: &Vec<char>, a: usize, b: usize, word: &str) -> (r: bool)
    requires
        chars@ == s@,
        a <= b <= s@.len(),
    ensures
        r == (chars@.subrange(a as int, b as int) == word@),
{
    let piece = s.substring_char(a, b);
    let r = piece.to_owned() == word.to_owned();
    proof {
        assert(piece@ == chars@.subrange(a as int, b as int));
    }
    r
}

/// Extract the two JWK texts from a backup, exactly as `backup_jwks_spec`
/// says; everything it refuses is a format error.
pub fn parse_backup(s: &str) -> (r: Result<(String, String), crate::CoreError>)
    ensures
        match backup_jwks_spec(s@) {
            Some(jwks) => (r matches Ok(pair) && pair.0@ == jwks.0 && pair.1@ == jwks.1),
            None => (r matches Err(e) && e == crate::CoreError::BackupFormat),
        },
{
    let chars = str_chars(s);
    let i0 = skip_ws_exec(&chars, 0);
    if i0 >= chars.len() || chars[i0] != '{' {
        return Err(crate::CoreError::BackupFormat);
    }
    let ghost start: int = i0 as int + 1;
    let mut cur: usize = i0 + 1;
    let mut t_span: Option<(usize, usize)> = None;
    let mut p_span: Option<(usize, usize)> = None;
    let mut q_span: Option<(usize, usize)> = None;
    let mut done: Option<usize> = None;
    loop
        invariant_except_break
            done is None,
            parse_fields(chars@, start, empty_acc()) == parse_fields(
                chars@,
                cur as int,
                acc_of(t_span, p_span, q_span),
            ),
        invariant
            chars@ == s@,
            cur <= chars@.len(),
            i0 < chars@.len(),
            chars@[i0 as int] == '{',
            i0 == skip_ws_spec(chars@, 0),
            start == i0 + 1,
            t_span matches Some(sp) ==> sp.0 <= sp.1 <= chars@.len(),
            p_span matches Some(sp) ==> sp.0 <= sp.1 <= chars@.len(),
            q_span matches Some(sp) ==> sp.0 <= sp.1 <= chars@.len(),
        ensures
            done matches Some(e) && e <= chars@.len() && parse_fields(chars@, start, empty_acc())
                == Some((acc_of(t_span, p_span, q_span), e as int)),
        decreases chars@.len() - cur,
    {
        let k0 = skip_ws_exec(&chars, cur);
        if k0 >= chars.len() {
            proof {
                assert(parse_fields(chars@, cur as int, acc_of(t_span, p_span, q_span)) is None);
            }
            return Err(crate::CoreError::BackupFormat);
        }
        if chars[k0] == '}' {
            done = Some(k0 + 1);
            proof {
                assert(parse_fields(chars@, cur as int, acc_of(t_span, p_span, q_span))
                    == Some((acc_of(t_span, p_span, q_span), k0 + 1)));
            }
            break;
        }
        if chars[k0] != '"' {
            proof {
                assert(parse_fields(chars@, cur as int, acc_of(t_span, p_span, q_span)) is None);
            }
            return Err(crate::CoreError::BackupFormat);
        }
        let key_end = match scan_to_quote_exec(&chars, k0 + 1) {
            Some(j) => j,
            None => {
                proof {
                    assert(parse_fields(chars@, cur as int, acc_of(t_span, p_span, q_span))
                        is None);
                }
                return Err(crate::CoreError::BackupFormat);
            },
        };
        let c0 = skip_ws_exec(&chars, key_end + 1);
        if c0 >= chars.len() || chars[c0] != ':' {
            proof {
                assert(parse_fields(chars@, cur as int, acc_of(t_span, p_span, q_span)) is None);
            }
            return Err(crate::CoreError::BackupFormat);
        }
        let v0 = skip_ws_exec(&chars, c0 + 1);
        if v0 >= chars.len() {
            proof {
                assert(parse_fields(chars@, cur as int, acc_of(t_span, p_span, q_span)) is None);
            }
            return Err(crate::CoreError::BackupFormat);
        }
        let span: (usize, usize);
        let next: usize;
        if chars[v0] == '"' {
            match scan_to_quote_exec(&chars, v0 + 1) {
                Some(ve) => {
                    span = (v0 + 1, ve);
                    next = ve + 1;
                },
                None => {
                    proof {
                        assert(parse_fields(chars@, cur as int, acc_of(t_span, p_span, q_span))
                            is None);
                    }
                    return Err(crate::CoreError::BackupFormat);
                },
            }
        } else if chars[v0] == '{' || chars[v0] == '[' {
            match skip_nested_exec(&chars, v0 + 1) {
                Some(ve) => {
                    span = (v0, ve);
                    next = ve;
                },
                None => {
                    proof {
                        assert(parse_fields(chars@, cur as int, acc_of(t_span, p_span, q_span))
                            is None);
                    }
                    return Err(crate::CoreError::BackupFormat);
                },
            }
        } else {
            let ve = prim_end_exec(&chars, v0);
            if ve == v0 {
                proof {
                    assert(parse_fields(chars@, cur as int, acc_of(t_span, p_span, q_span))
                        is None);
                }
                return Err(crate::CoreError::BackupFormat);
            }
            span = (v0, ve);
            next = ve;
        }
        let ghost acc_before = acc_of(t_span, p_span, q_span);
        let ghost key_seq = chars@.subrange(k0 + 1, key_end as int);
        if key_is(s, &chars, k0 + 1, key_end, "type") {
            t_span = Some(span);
        } else if key_is(s, &chars, k0 + 1, key_end, "public") {
            p_span = Some(span);
        } else if key_is(s, &chars, k0 + 1, key_end, "private") {
            q_span = Some(span);
        }
        proof {
            assert(acc_of(t_span, p_span, q_span) == acc_update(
                acc_before,
                key_seq,
                (span.0 as int, span.1 as int),
            ));
        }
        let t0 = skip_ws_exec(&chars, next);
        if t0 >= chars.len() {
            proof {
                assert(parse_fields(chars@, cur as int, acc_before) is None);
            }
            return Err(crate::CoreError::BackupFormat);
        }
        if chars[t0] == ',' {
            proof {
                assert(parse_fields(chars@, cur as int, acc_before) == parse_fields(
                    chars@,
                    t0 + 1,
                    acc_of(t_span, p_span, q_span),
                ));
            }
            cur = t0 + 1;
        } else if chars[t0] == '}' {
            done = Some(t0 + 1);
            proof {
                assert(parse_fields(chars@, cur as int, acc_before) == Some((
                    acc_of(t_span, p_span, q_span),
                    t0 + 1,
                )));
            }
            break;
        } else {
            proof {
                assert(parse_fields(chars@, cur as int, acc_before) is None);
            }
            return Err(crate::CoreError::BackupFormat);
        }
    }
    let e = match done {
        Some(e) => e,
        None => {
            return Err(crate::CoreError::BackupFormat);
        },
    };
    if skip_ws_exec(&chars, e) != chars.len() {
        return Err(crate::CoreError::BackupFormat);
    }
    let (ta, tb) = match t_span {
        Some(sp) => sp,
        None => {
            return Err(crate::CoreError::BackupFormat);
        },
    };
    let (pa, pb) = match p_span {
        Some(sp) => sp,
        None => {
            return Err(crate::CoreError::BackupFormat);
        },
    };
    let (qa, qb) = match q_span {
        Some(sp) => sp,
        None => {
            return Err(crate::CoreError::BackupFormat);
        },
    };
    if !key_is(s, &chars, ta, tb, "qr_key_pair") {
        return Err(crate::CoreError::BackupFormat);
    }
    if pb <= pa || qb <= qa {
        return Err(crate::CoreError::BackupFormat);
    }
    let public_jwk = s.substring_char(pa, pb).to_owned();
    let private_jwk = s.substring_char(qa, qb).to_owned();
    Ok((public_jwk, private_jwk))
}


/// The JSON text of a backup composed around the two JWK texts.
pub open spec fn backup_wire(public_jwk: Seq<char>, private_jwk: Seq<char>) -> Seq<char> {
    "{\"type\":\"qr_key_pair\",\"public\":"@ + public_jwk + ",\"private\":"@ + private_jwk + "}"@
}

/// Compose the backup file text for a key pair's two JWK halves.
pub fn compose_backup(public_jwk: &str, private_jwk: &str) -> (r: String)
    ensures
        r@ == backup_wire(public_jwk@, private_jwk@),
{
    let mut out = "{\"type\":\"qr_key_pair\",\"public\":".to_owned();
    out.append(public_jwk);
    out.append(",\"private\":");
    out.append(private_jwk);
    out.append("}");
    proof {
        assert(out@ =~= backup_wire(public_jwk@, private_jwk@));
    }
    out
}

/// Law: a composed backup parses back to exactly the two JWK texts it was
/// composed from, whenever both have the flat-object shape the engine
/// always emits.
pub proof fn lemma_backup_round_trip(pj: Seq<char>, qj: Seq<char>)
    requires
        crate::crypto::flat_object_shape(pj),
        crate::crypto::flat_object_shape(qj),
    ensures
        backup_jwks_spec(backup_wire(pj, qj)) == Some((pj, qj)),
{
    reveal_strlit("{\"type\":\"qr_key_pair\",\"public\":");
    reveal_strlit(",\"private\":");
    reveal_strlit("}");
    reveal_strlit("type");
    reveal_strlit("public");
    reveal_strlit("private");
    reveal_strlit("qr_key_pair");
    let s = backup_wire(pj, qj);
    let pl = pj.len() as int;
    let ql = qj.len() as int;
    let p = 31 + pl;
    let n = s.len() as int;
    assert(n == 43 + pl + ql);
    assert forall|k: int| 0 <= k < 31 implies s[k] == ("{\"type\":\"qr_key_pair\",\"public\":"@)[k] by {}
    assert forall|k: int| 0 <= k < pl implies s[31 + k] == pj[k] by {}
    assert forall|k: int| 0 <= k < 11 implies s[p + k] == (",\"private\":"@)[k] by {}
    assert forall|k: int| 0 <= k < ql implies s[p + 11 + k] == qj[k] by {}
    assert(s[n - 1] == '}');

    // the object opens at position 0
    assert(skip_ws_spec(s, 0) == 0);
    // first field: "type":"qr_key_pair"
    assert(skip_ws_spec(s, 1) == 1);
    assert(scan_to_quote(s, 2) == scan_to_quote(s, 3));
    assert(scan_to_quote(s, 3) == scan_to_quote(s, 4));
    assert(scan_to_quote(s, 4) == scan_to_quote(s, 5));
    assert(scan_to_quote(s, 5) == scan_to_quote(s, 6));
    assert(scan_to_quote(s, 6) == Some(6int));
    assert(s.subrange(2, 6) =~= "type"@);
    assert(skip_ws_spec(s, 7) == 7);
    assert(skip_ws_spec(s, 8) == 8);
    assert(scan_to_quote(s, 9) == scan_to_quote(s, 10));
    assert(scan_to_quote(s, 10) == scan_to_quote(s, 11));
    assert(scan_to_quote(s, 11) == scan_to_quote(s, 12));
    assert(scan_to_quote(s, 12) == scan_to_quote(s, 13));
    assert(scan_to_quote(s, 13) == scan_to_quote(s, 14));
    assert(scan_to_quote(s, 14) == scan_to_quote(s, 15));
    assert(scan_to_quote(s, 15) == scan_to_quote(s, 16));
    assert(scan_to_quote(s, 16) == scan_to_quote(s, 17));
    assert(scan_to_quote(s, 17) == scan_to_quote(s, 18));
    assert(scan_to_quote(s, 18) == scan_to_quote(s, 19));
    assert(scan_to_quote(s, 19) == scan_to_quote(s, 20));
    assert(scan_to_quote(s, 20) == Some(20int));
    assert(skip_ws_spec(s, 21) == 21);
    let acc1 = acc_update(empty_acc(), s.subrange(2, 6), (9, 20));
    assert(acc1 == (FieldsAcc {
        type_span: Some((9int, 20int)),
        public_span: None,
        private_span: None,
    }));
    assert(parse_fields(s, 1, empty_acc()) == parse_fields(s, 22, acc1));

    // second field: "public":<JWK>
    assert(skip_ws_spec(s, 22) == 22);
    assert(s[22] == '"');
    assert(scan_to_quote(s, 23) == scan_to_quote(s, 24));
    assert(scan_to_quote(s, 24) == scan_to_quote(s, 25));
    assert(scan_to_quote(s, 25) == scan_to_quote(s, 26));
    assert(scan_to_quote(s, 26) == scan_to_quote(s, 27));
    assert(scan_to_quote(s, 27) == scan_to_quote(s, 28));
    assert(scan_to_quote(s, 28) == scan_to_quote(s, 29));
    assert(scan_to_quote(s, 29) == Some(29int));
    assert(s.subrange(23, 29) =~= "public"@);
    assert(skip_ws_spec(s, 30) == 30);
    assert(skip_ws_spec(s, 31) == 31);
    assert(s[31] == pj[0] && pj[0] == '{');
    assert forall|k: int| 32 <= k < 30 + pl implies !crate::crypto::structural_char(s[k]) by {
        assert(s[k] == pj[k - 31]);
    }
    assert(s[30 + pl] == pj[pl - 1] && pj[pl - 1] == '}');
    lemma_skip_nested_flat(s, 32, 30 + pl);
    assert(skip_nested(s, 32, 1) == Some(p));
    assert(skip_ws_spec(s, p) == p) by {
        assert(s[p] == ',');
    }
    let acc2 = acc_update(acc1, s.subrange(23, 29), (31, p));
    assert(acc2 == (FieldsAcc {
        type_span: Some((9int, 20int)),
        public_span: Some((31int, p)),
        private_span: None,
    }));
    assert(s[p] == ',');
    assert(parse_fields(s, 22, acc1) == parse_fields(s, p + 1, acc2));

    // third field: "private":<JWK>
    assert(skip_ws_spec(s, p + 1) == p + 1) by {
        assert(s[p + 1] == '"');
    }
    assert(s[p + 1] == '"');
    assert(scan_to_quote(s, p + 2) == scan_to_quote(s, p + 3));
    assert(scan_to_quote(s, p + 3) == scan_to_quote(s, p + 4));
    assert(scan_to_quote(s, p + 4) == scan_to_quote(s, p + 5));
    assert(scan_to_quote(s, p + 5) == scan_to_quote(s, p + 6));
    assert(scan_to_quote(s, p + 6) == scan_to_quote(s, p + 7));
    assert(scan_to_quote(s, p + 7) == scan_to_quote(s, p + 8));
    assert(scan_to_quote(s, p + 8) == scan_to_quote(s, p + 9));
    assert(scan_to_quote(s, p + 9) == Some(p + 9));
    assert(s.subrange(p + 2, p + 9) =~= "private"@);
    assert(skip_ws_spec(s, p + 10) == p + 10) by {
        assert(s[p + 10] == ':');
    }
    assert(s[p + 10] == ':');
    assert(skip_ws_spec(s, p + 11) == p + 11) by {
        assert(s[p + 11] == qj[0] && qj[0] == '{');
    }
    assert(s[p + 11] == qj[0] && qj[0] == '{');
    assert forall|k: int| p + 12 <= k < p + 10 + ql implies !crate::crypto::structural_char(
        s[k],
    ) by {
        assert(s[k] == qj[k - (p + 11)]);
    }
    assert(s[p + 10 + ql] == qj[ql - 1] && qj[ql - 1] == '}');
    lemma_skip_nested_flat(s, p + 12, p + 10 + ql);
    assert(skip_nested(s, p + 12, 1) == Some(n - 1));
    assert(skip_ws_spec(s, n - 1) == n - 1) by {
        assert(s[n - 1] == '}');
    }
    let acc3 = acc_update(acc2, s.subrange(p + 2, p + 9), (p + 11, n - 1));
    assert(acc3 == (FieldsAcc {
        type_span: Some((9int, 20int)),
        public_span: Some((31int, p)),
        private_span: Some((p + 11, n - 1)),
    }));
    assert(parse_fields(s, p + 1, acc2) == Some((acc3, n)));

    // the object covers the whole text
    assert(skip_ws_spec(s, n) == n);
    assert(backup_fields_spec(s) == Some(acc3));
    assert(s.subrange(9, 20) =~= "qr_key_pair"@);
    assert(s.subrange(31, p) =~= pj);
    assert(s.subrange(p + 11, n - 1) =~= qj);
}

} // verus!
