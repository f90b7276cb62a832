//! The JSON string grammar that the control-plane bodies are built from
//! and read back with: escaping and quoting on the writer side, literal
//! and string-token parsing on the reader side, and the proof that
//! parsing inverts quoting.
//!
//! Writers emit the compact canonical form: no whitespace, object fields
//! in declaration order, `"`, `\` and control characters escaped (the
//! five short escapes where JSON has them, `\u00XX` otherwise). Readers
//! accept that canonical form; escape sequences `\uXXXX` are accepted for
//! any non-surrogate code point.

use crate::text::push_char;
use vstd::prelude::*;
use vstd::string::*;

verus! {

/// A character that may stand for itself inside a JSON string.
pub open spec fn plain_char(c: char) -> bool {
    c != '"' && c != '\\' && (c as u32) >= 0x20
}

/// The character for one hexadecimal digit, lowercase.
pub open spec fn hex_digit(d: nat) -> char {
    if d % 16 < 10 {
        (48 + (d % 16)) as char
    } else {
        (87 + (d % 16)) as char
    }
}

/// What one character is written as inside a JSON string.
pub open spec fn esc_char(c: char) -> Seq<char> {
    if c == '"' {
        seq!['\\', '"']
    } else if c == '\\' {
        seq!['\\', '\\']
    } else if c == '\u{8}' {
        seq!['\\', 'b']
    } else if c == '\u{c}' {
        seq!['\\', 'f']
    } else if c == '\n' {
        seq!['\\', 'n']
    } else if c == '\r' {
        seq!['\\', 'r']
    } else if c == '\t' {
        seq!['\\', 't']
    } else if (c as u32) < 0x20 {
        seq!['\\', 'u', '0', '0', hex_digit(((c as u32) / 16) as nat), hex_digit(
            ((c as u32) % 16) as nat,
        )]
    } else {
        seq![c]
    }
}

/// A whole string, escaped character for character.
pub open spec fn spec_escape(s: Seq<char>) -> Seq<char>
    decreases s.len(),
{
    if s.len() == 0 {
        Seq::empty()
    } else {
        esc_char(s[0]) + spec_escape(s.skip(1))
    }
}

/// A JSON string token: the escaped text between quotes.
pub open spec fn spec_quote(s: Seq<char>) -> Seq<char> {
    seq!['"'] + spec_escape(s) + seq!['"']
}

/// Escaping distributes over appending one character at the end.
pub proof fn lemma_escape_push(a: Seq<char>, x: char)
    ensures
        spec_escape(a.push(x)) == spec_escape(a) + esc_char(x),
    decreases a.len(),
{
    let b = a.push(x);
    if a.len() == 0 {
        assert(b.skip(1) =~= Seq::<char>::empty());
        assert(b[0] == x);
        assert(esc_char(x) + spec_escape(Seq::<char>::empty()) =~= esc_char(x));
        assert(spec_escape(a) + esc_char(x) =~= esc_char(x));
    } else {
        assert(b[0] == a[0]);
        assert(b.skip(1) =~= a.skip(1).push(x));
        lemma_escape_push(a.skip(1), x);
        assert(esc_char(a[0]) + (spec_escape(a.skip(1)) + esc_char(x)) =~= (esc_char(a[0])
            + spec_escape(a.skip(1))) + esc_char(x));
    }
}

/// The character for one hexadecimal digit, as executable code.
fn hex_digit_char(d: u32) -> (c: char)
    requires
        d < 16,
    ensures
        c == hex_digit(d as nat),
{
    if d < 10 {
        (48 + d as u8) as char
    } else {
        (87 + d as u8) as char
    }
}

/// Appends the escape sequence of one character.
fn push_escaped_char(out: &mut String, c: char)
    ensures
        final(out)@ == old(out)@ + esc_char(c),
{
    if c == '"' {
        push_char(out, '\\');
        push_char(out, '"');
        proof {
            assert(out@ =~= old(out)@ + esc_char(c));
        }
    } else if c == '\\' {
        push_char(out, '\\');
        push_char(out, '\\');
        proof {
            assert(out@ =~= old(out)@ + esc_char(c));
        }
    } else if c == '\u{8}' {
        push_char(out, '\\');
        push_char(out, 'b');
        proof {
            assert(out@ =~= old(out)@ + esc_char(c));
        }
    } else if c == '\u{c}' {
        push_char(out, '\\');
        push_char(out, 'f');
        proof {
            assert(out@ =~= old(out)@ + esc_char(c));
        }
    } else if c == '\n' {
        push_char(out, '\\');
        push_char(out, 'n');
        proof {
            assert(out@ =~= old(out)@ + esc_char(c));
        }
    } else if c == '\r' {
        push_char(out, '\\');
        push_char(out, 'r');
        proof {
            assert(out@ =~= old(out)@ + esc_char(c));
        }
    } else if c == '\t' {
        push_char(out, '\\');
        push_char(out, 't');
        proof {
            assert(out@ =~= old(out)@ + esc_char(c));
        }
    } else {
        let code = c as u32;
        if code < 0x20 {
            push_char(out, '\\');
            push_char(out, 'u');
            push_char(out, '0');
            push_char(out, '0');
            let hi = hex_digit_char(code / 16);
            push_char(out, hi);
            let lo = hex_digit_char(code % 16);
            push_char(out, lo);
            proof {
                assert(out@ =~= old(out)@ + esc_char(c));
            }
        } else {
            push_char(out, c);
            proof {
                assert(out@ =~= old(out)@ + esc_char(c));
            }
        }
    }
}

/// Appends the JSON string token for `s`: quoted and escaped.
pub fn push_json_string(out: &mut String, s: &str)
    ensures
        final(out)@ == old(out)@ + spec_quote(s@),
{
    push_char(out, '"');
    let n = s.unicode_len();
    let mut i: usize = 0;
    while i < n
        invariant
            i <= n,
            n == s@.len(),
            out@ == old(out)@ + seq!['"'] + spec_escape(s@.take(i as int)),
        decreases n - i,
    {
        let c = s.get_char(i);
        push_escaped_char(out, c);
        proof {
            assert(s@.take(i + 1int) =~= s@.take(i as int).push(s@[i as int]));
            lemma_escape_push(s@.take(i as int), s@[i as int]);
            assert(out@ =~= old(out)@ + seq!['"'] + spec_escape(s@.take(i + 1int)));
        }
        i = i + 1;
    }
    push_char(out, '"');
    proof {
        assert(s@.take(n as int) =~= s@);
        assert(out@ =~= old(out)@ + spec_quote(s@));
    }
}

/// The characters of `s`, one vector element per character.
pub fn str_chars(s: &str) -> (r: Vec<char>)
    ensures
        r@ == s@,
{
    let n = s.unicode_len();
    let mut v: Vec<char> = Vec::new();
    let mut i: usize = 0;
    while i < n
        invariant
            i <= n,
            n == s@.len(),
            v@ == s@.take(i as int),
        decreases n - i,
    {
        v.push(s.get_char(i));
        proof {
            assert(v@ =~= s@.take(i + 1int));
        }
        i = i + 1;
    }
    proof {
        assert(s@.take(n as int) =~= s@);
    }
    v
}

/// The numeric value of one hexadecimal digit character, if it is one;
/// both cases are accepted.
pub open spec fn spec_hex_val(c: char) -> Option<u32> {
    let v = c as u32;
    if 48 <= v && v <= 57 {
        Some((v - 48) as u32)
    } else if 97 <= v && v <= 102 {
        Some((v - 87) as u32)
    } else if 65 <= v && v <= 70 {
        Some((v - 55) as u32)
    } else {
        None
    }
}

/// The character that `\uXXXX` with these four digits stands for: the
/// code point, unless the digits name a surrogate.
pub open spec fn spec_unescape_u(c1: char, c2: char, c3: char, c4: char) -> Option<char> {
    match (spec_hex_val(c1), spec_hex_val(c2), spec_hex_val(c3), spec_hex_val(c4)) {
        (Some(v1), Some(v2), Some(v3), Some(v4)) => {
            let code = v1 * 4096 + v2 * 256 + v3 * 16 + v4;
            if 0xD800 <= code && code <= 0xDFFF {
                None
            } else {
                Some(code as char)
            }
        },
        _ => None,
    }
}

/// The character that a one-letter escape stands for.
pub open spec fn spec_unescape_simple(e: char) -> Option<char> {
    if e == '"' {
        Some('"')
    } else if e == '\\' {
        Some('\\')
    } else if e == '/' {
        Some('/')
    } else if e == 'b' {
        Some('\u{8}')
    } else if e == 'f' {
        Some('\u{c}')
    } else if e == 'n' {
        Some('\n')
    } else if e == 'r' {
        Some('\r')
    } else if e == 't' {
        Some('\t')
    } else {
        None
    }
}

/// Parses the inside of a JSON string starting at `pos`, up to and over
/// the closing quote; yields the unescaped text and the position after
/// the quote. Unescaped control characters are refused, as JSON demands.
pub open spec fn spec_parse_string_body(s: Seq<char>, pos: int) -> Option<(Seq<char>, int)>
    decreases s.len() - pos,
{
    if pos < 0 || pos >= s.len() {
        None
    } else if s[pos] == '"' {
        Some((Seq::empty(), pos + 1))
    } else if s[pos] == '\\' {
        if pos + 1 >= s.len() {
            None
        } else if s[pos + 1] == 'u' {
            if pos + 6 > s.len() {
                None
            } else {
                match spec_unescape_u(s[pos + 2], s[pos + 3], s[pos + 4], s[pos + 5]) {
                    Some(c) => match spec_parse_string_body(s, pos + 6) {
                        Some(t) => Some((seq![c] + t.0, t.1)),
                        None => None,
                    },
                    None => None,
                }
            }
        } else {
            match spec_unescape_simple(s[pos + 1]) {
                Some(c) => match spec_parse_string_body(s, pos + 2) {
                    Some(t) => Some((seq![c] + t.0, t.1)),
                    None => None,
                },
                None => None,
            }
        }
    } else if (s[pos] as u32) < 0x20 {
        None
    } else {
        match spec_parse_string_body(s, pos + 1) {
            Some(t) => Some((seq![s[pos]] + t.0, t.1)),
            None => None,
        }
    }
}

/// Parses a JSON string token (opening quote, content, closing quote)
/// starting at `pos`.
pub open spec fn spec_parse_string(s: Seq<char>, pos: int) -> Option<(Seq<char>, int)> {
    if 0 <= pos && pos < s.len() && s[pos] == '"' {
        spec_parse_string_body(s, pos + 1)
    } else {
        None
    }
}

/// The position after `lit`, when `lit` stands at `pos` in `s`.
pub open spec fn spec_expect(s: Seq<char>, pos: int, lit: Seq<char>) -> Option<int> {
    if 0 <= pos && pos + lit.len() <= s.len() && s.subrange(pos, pos + lit.len() as int) == lit {
        Some(pos + lit.len() as int)
    } else {
        None
    }
}

/// `t` stands at `pos` in `s`: every character of `t` is found in `s`
/// from `pos` on.
pub open spec fn stands_at(s: Seq<char>, pos: int, t: Seq<char>) -> bool {
    &&& 0 <= pos
    &&& pos + t.len() <= s.len()
    &&& forall|j: int| 0 <= j < t.len() ==> #[trigger] s[pos + j] == t[j]
}

/// A sequence standing somewhere splits there: its left part stands at
/// the same place and its right part right after.
pub proof fn lemma_stands_at_split(s: Seq<char>, pos: int, a: Seq<char>, b: Seq<char>)
    requires
        stands_at(s, pos, a + b),
    ensures
        stands_at(s, pos, a),
        stands_at(s, pos + a.len(), b),
{
    assert forall|j: int| 0 <= j < a.len() implies #[trigger] s[pos + j] == a[j] by {
        assert(s[pos + j] == (a + b)[j]);
    }
    assert forall|j: int| 0 <= j < b.len() implies #[trigger] s[(pos + a.len() as int) + j]
        == b[j] by {
        assert((pos + a.len() as int) + j == pos + (a.len() + j));
        assert(s[pos + (a.len() + j)] == (a + b)[a.len() + j]);
    }
}

/// Every sequence stands at its own start.
pub proof fn lemma_stands_at_self(s: Seq<char>)
    ensures
        stands_at(s, 0, s),
{
    assert forall|j: int| 0 <= j < s.len() implies #[trigger] s[0 + j] == s[j] by {
        assert(0 + j == j);
    }
}

/// A literal that stands at `pos` is found there.
pub proof fn lemma_expect_stands(s: Seq<char>, pos: int, lit: Seq<char>)
    requires
        stands_at(s, pos, lit),
    ensures
        spec_expect(s, pos, lit) == Some(pos + lit.len() as int),
{
    assert forall|j: int| 0 <= j < lit.len() implies s.subrange(pos, pos + lit.len() as int)[j]
        == lit[j] by {
        assert(s.subrange(pos, pos + lit.len() as int)[j] == s[pos + j]);
    }
    assert(s.subrange(pos, pos + lit.len() as int) =~= lit);
}

/// A literal that differs at one position, or does not fit, is not found.
pub proof fn lemma_expect_mismatch(s: Seq<char>, pos: int, lit: Seq<char>, j: int)
    requires
        0 <= pos,
        0 <= j < lit.len(),
        pos + lit.len() > s.len() || (pos + j < s.len() && s[pos + j] != lit[j]),
    ensures
        spec_expect(s, pos, lit) is None,
{
    if pos + lit.len() <= s.len() {
        if s.subrange(pos, pos + lit.len() as int) == lit {
            assert(s.subrange(pos, pos + lit.len() as int)[j] == s[pos + j]);
        }
    }
}

/// A hexadecimal digit character names its value again.
proof fn lemma_hex_val_of_hex_digit(d: nat)
    requires
        d < 16,
    ensures
        spec_hex_val(hex_digit(d)) == Some(d as u32),
{
}

/// Parsing inverts escaping: where the escaped text of `v` followed by a
/// closing quote stands at `pos`, the string-body parser yields `v` and
/// stops right after the quote.
pub proof fn lemma_parse_body_of_escape(v: Seq<char>, s: Seq<char>, pos: int)
    requires
        0 <= pos,
        pos + spec_escape(v).len() + 1 <= s.len(),
        forall|j: int| 0 <= j <= spec_escape(v).len() ==> #[trigger] s[pos + j] == (spec_escape(v)
            + seq!['"'])[j],
    ensures
        spec_parse_string_body(s, pos) == Some((v, pos + spec_escape(v).len() + 1)),
    decreases v.len(),
{
    let e = spec_escape(v);
    if v.len() == 0 {
        assert(s[pos + 0] == (e + seq!['"'])[0]);
        assert(s[pos] == '"');
        assert(v =~= Seq::<char>::empty());
    } else {
        let c = v[0];
        let v2 = v.skip(1);
        let ec = esc_char(c);
        let e2 = spec_escape(v2);
        assert(e == ec + e2);
        let k = ec.len() as int;
        let pos2 = pos + k;
        assert(e.len() == k + e2.len());
        assert forall|j: int| 0 <= j < k implies s[pos + j] == ec[j] by {
            assert(s[pos + j] == (e + seq!['"'])[j]);
            assert((e + seq!['"'])[j] == e[j]);
            assert(e[j] == ec[j]);
        }
        assert forall|j: int| 0 <= j <= e2.len() implies #[trigger] s[pos2 + j] == (e2 + seq![
            '"',
        ])[j] by {
            assert(pos2 + j == pos + (k + j));
            assert(s[pos + (k + j)] == (e + seq!['"'])[k + j]);
            if j < e2.len() {
                assert((e + seq!['"'])[k + j] == e[k + j]);
                assert(e[k + j] == e2[j]);
            } else {
                assert((e + seq!['"'])[k + j] == '"');
            }
        }
        lemma_parse_body_of_escape(v2, s, pos2);
        let tail = spec_parse_string_body(s, pos2);
        assert(tail == Some((v2, pos2 + e2.len() + 1)));
        assert(seq![c] + v2 =~= v);
        if c == '"' || c == '\\' {
            assert(s[pos + 0] == ec[0] && s[pos + 1] == ec[1]);
            assert(s[pos] == '\\' && s[pos + 1] == c);
            assert(spec_unescape_simple(c) == Some(c));
        } else if c == '\u{8}' {
            assert(s[pos + 0] == ec[0] && s[pos + 1] == ec[1]);
            assert(s[pos] == '\\' && s[pos + 1] == 'b');
        } else if c == '\u{c}' {
            assert(s[pos + 0] == ec[0] && s[pos + 1] == ec[1]);
            assert(s[pos] == '\\' && s[pos + 1] == 'f');
        } else if c == '\n' {
            assert(s[pos + 0] == ec[0] && s[pos + 1] == ec[1]);
            assert(s[pos] == '\\' && s[pos + 1] == 'n');
        } else if c == '\r' {
            assert(s[pos + 0] == ec[0] && s[pos + 1] == ec[1]);
            assert(s[pos] == '\\' && s[pos + 1] == 'r');
        } else if c == '\t' {
            assert(s[pos + 0] == ec[0] && s[pos + 1] == ec[1]);
            assert(s[pos] == '\\' && s[pos + 1] == 't');
        } else if (c as u32) < 0x20 {
            let code = c as u32;
            assert(s[pos + 0] == ec[0] && s[pos + 1] == ec[1] && s[pos + 2] == ec[2] && s[pos + 3]
                == ec[3] && s[pos + 4] == ec[4] && s[pos + 5] == ec[5]);
            assert(s[pos] == '\\' && s[pos + 1] == 'u' && s[pos + 2] == '0' && s[pos + 3] == '0'
                && s[pos + 4] == hex_digit((code / 16) as nat) && s[pos + 5] == hex_digit(
                (code % 16) as nat,
            ));
            lemma_hex_val_of_hex_digit((code / 16) as nat);
            lemma_hex_val_of_hex_digit((code % 16) as nat);
            assert(spec_hex_val('0') == Some(0u32));
            assert(spec_unescape_u(s[pos + 2], s[pos + 3], s[pos + 4], s[pos + 5]) == Some(c)) by {
                assert((code / 16) * 16 + code % 16 == code) by (nonlinear_arith);
                assert(0 * 4096 + 0 * 256 + (code / 16) * 16 + code % 16 == code);
                vstd::utf8::char_u32_cast(c, code);
            }
        } else {
            assert(s[pos + 0] == ec[0]);
            assert(s[pos] == c);
            assert(plain_char(c));
        }
    }
}

/// Parsing inverts quoting: where the string token of `v` stands at
/// `pos`, the token parser yields `v` and the position after the token.
pub proof fn lemma_parse_string_of_quote(v: Seq<char>, s: Seq<char>, pos: int)
    requires
        stands_at(s, pos, spec_quote(v)),
    ensures
        spec_parse_string(s, pos) == Some((v, pos + spec_quote(v).len() as int)),
{
    let q = spec_quote(v);
    let e = spec_escape(v);
    assert(q.len() == 2 + e.len());
    assert(s[pos + 0] == q[0]);
    assert(q[0] == '"');
    assert(s[pos] == '"');
    assert forall|j: int| 0 <= j <= e.len() implies #[trigger] s[(pos + 1) + j] == (e + seq![
        '"',
    ])[j] by {
        assert((pos + 1) + j == pos + (1 + j));
        assert(s[pos + (1 + j)] == q[1 + j]);
        assert(q[1 + j] == (e + seq!['"'])[j]);
    }
    lemma_parse_body_of_escape(v, s, pos + 1);
}

/// The numeric value of one hexadecimal digit, as executable code.
fn hex_val(c: char) -> (r: Option<u32>)
    ensures
        r == spec_hex_val(c),
        r matches Some(v) ==> v < 16,
{
    let v = c as u32;
    if 48 <= v && v <= 57 {
        Some(v - 48)
    } else if 97 <= v && v <= 102 {
        Some(v - 87)
    } else if 65 <= v && v <= 70 {
        Some(v - 55)
    } else {
        None
    }
}

/// The character of a one-letter escape, as executable code.
fn unescape_simple(e: char) -> (r: Option<char>)
    ensures
        r == spec_unescape_simple(e),
{
    if e == '"' {
        Some('"')
    } else if e == '\\' {
        Some('\\')
    } else if e == '/' {
        Some('/')
    } else if e == 'b' {
        Some('\u{8}')
    } else if e == 'f' {
        Some('\u{c}')
    } else if e == 'n' {
        Some('\n')
    } else if e == 'r' {
        Some('\r')
    } else if e == 't' {
        Some('\t')
    } else {
        None
    }
}

/// Relies on char::from_u32 from std: yields the character for every
/// Unicode scalar value (anything in range that is not a surrogate), and
/// nothing otherwise.
#[verifier::external_body]
fn char_from_u32(v: u32) -> (r: Option<char>)
    ensures
        r == (if v < 0xD800 || (0xE000 <= v && v <= 0x10FFFF) {
            Some(v as char)
        } else {
            None::<char>
        }),
{
    char::from_u32(v)
}

/// Parses a JSON string token at `pos`, as executable code; agrees with
/// [`spec_parse_string`] on outcome, text and end position.
pub fn parse_string_at(buf: &Vec<char>, pos: usize) -> (r: Option<(String, usize)>)
    ensures
        ({
            let sr = spec_parse_string(buf@, pos as int);
            match r {
                Some(p) => sr matches Some(sp) && p.0@ == sp.0 && p.1 as int == sp.1 && p.1
                    <= buf@.len(),
                None => sr is None,
            }
        }),
{
    let n = buf.len();
    if pos >= n {
        return None;
    }
    if buf[pos] != '"' {
        return None;
    }
    let mut acc = String::new();
    let mut cur: usize = pos + 1;
    proof {
        match spec_parse_string_body(buf@, pos + 1int) {
            Some(t) => {
                assert(acc@ + t.0 =~= t.0);
            },
            None => {},
        }
    }
    while cur < n
        invariant
            pos < cur <= n,
            n == buf@.len(),
            buf@[pos as int] == '"',
            spec_parse_string_body(buf@, pos + 1int) == (
            match spec_parse_string_body(buf@, cur as int) {
                None => None::<(Seq<char>, int)>,
                Some(t) => Some((acc@ + t.0, t.1)),
            }),
        decreases n - cur,
    {
        let c = buf[cur];
        if c == '"' {
            proof {
                assert(spec_parse_string_body(buf@, cur as int) == Some(
                    (Seq::<char>::empty(), cur + 1int),
                ));
                assert(acc@ + Seq::<char>::empty() =~= acc@);
                assert(spec_parse_string_body(buf@, pos + 1int) == Some((acc@, cur + 1int)));
            }
            return Some((acc, cur + 1));
        } else if c == '\\' {
            if cur + 1 >= n {
                return None;
            }
            let e = buf[cur + 1];
            if e == 'u' {
                if n - cur < 6 {
                    return None;
                }
                let v1 = match hex_val(buf[cur + 2]) {
                    Some(v) => v,
                    None => { return None },
                };
                let v2 = match hex_val(buf[cur + 3]) {
                    Some(v) => v,
                    None => { return None },
                };
                let v3 = match hex_val(buf[cur + 4]) {
                    Some(v) => v,
                    None => { return None },
                };
                let v4 = match hex_val(buf[cur + 5]) {
                    Some(v) => v,
                    None => { return None },
                };
                let code = v1 * 4096 + v2 * 256 + v3 * 16 + v4;
                if 0xD800 <= code && code <= 0xDFFF {
                    return None;
                }
                let c2 = match char_from_u32(code) {
                    Some(c2) => c2,
                    None => {
                        proof {
                            assert(false);
                        }
                        return None;
                    },
                };
                let ghost acc0 = acc@;
                push_char(&mut acc, c2);
                proof {
                    let tail = spec_parse_string_body(buf@, cur + 6int);
                    assert(spec_unescape_u(buf@[cur + 2int], buf@[cur + 3int], buf@[cur + 4int],
                        buf@[cur + 5int]) == Some(c2));
                    assert(spec_parse_string_body(buf@, cur as int) == (match tail {
                        None => None::<(Seq<char>, int)>,
                        Some(t) => Some((seq![c2] + t.0, t.1)),
                    }));
                    match tail {
                        Some(t) => {
                            assert((acc0 + (seq![c2] + t.0)) =~= (acc@ + t.0));
                        },
                        None => {},
                    }
                    assert(spec_parse_string_body(buf@, pos + 1int) == (match tail {
                        None => None::<(Seq<char>, int)>,
                        Some(t) => Some((acc@ + t.0, t.1)),
                    }));
                }
                cur = cur + 6;
            } else {
                let c2 = match unescape_simple(e) {
                    Some(c2) => c2,
                    None => { return None },
                };
                let ghost acc0 = acc@;
                push_char(&mut acc, c2);
                proof {
                    let tail = spec_parse_string_body(buf@, cur + 2int);
                    assert(spec_parse_string_body(buf@, cur as int) == (match tail {
                        None => None::<(Seq<char>, int)>,
                        Some(t) => Some((seq![c2] + t.0, t.1)),
                    }));
                    match tail {
                        Some(t) => {
                            assert((acc0 + (seq![c2] + t.0)) =~= (acc@ + t.0));
                        },
                        None => {},
                    }
                    assert(spec_parse_string_body(buf@, pos + 1int) == (match tail {
                        None => None::<(Seq<char>, int)>,
                        Some(t) => Some((acc@ + t.0, t.1)),
                    }));
                }
                cur = cur + 2;
            }
        } else if (c as u32) < 0x20 {
            return None;
        } else {
            let ghost acc0 = acc@;
            push_char(&mut acc, c);
            proof {
                let tail = spec_parse_string_body(buf@, cur + 1int);
                assert(spec_parse_string_body(buf@, cur as int) == (match tail {
                    None => None::<(Seq<char>, int)>,
                    Some(t) => Some((seq![c] + t.0, t.1)),
                }));
                match tail {
                    Some(t) => {
                        assert((acc0 + (seq![c] + t.0)) =~= (acc@ + t.0));
                    },
                    None => {},
                }
                assert(spec_parse_string_body(buf@, pos + 1int) == (match tail {
                    None => None::<(Seq<char>, int)>,
                    Some(t) => Some((acc@ + t.0, t.1)),
                }));
            }
            cur = cur + 1;
        }
    }
    None
}

/// Checks that `lit` stands at `pos`, as executable code; agrees with
/// [`spec_expect`].
pub fn expect_literal(buf: &Vec<char>, pos: usize, lit: &str) -> (r: Option<usize>)
    requires
        pos <= buf@.len(),
    ensures
        ({
            let sr = spec_expect(buf@, pos as int, lit@);
            match r {
                Some(p) => sr == Some(p as int) && p <= buf@.len(),
                None => sr is None,
            }
        }),
{
    let n = buf.len();
    let m = lit.unicode_len();
    if n - pos < m {
        return None;
    }
    let mut i: usize = 0;
    while i < m
        invariant
            pos + m <= n,
            i <= m,
            m == lit@.len(),
            n == buf@.len(),
            forall|j: int| 0 <= j < i ==> buf@[pos + j] == lit@[j],
        decreases m - i,
    {
        if buf[pos + i] != lit.get_char(i) {
            proof {
                if buf@.subrange(pos as int, pos + m as int) == lit@ {
                    assert(buf@.subrange(pos as int, pos + m as int)[i as int] == buf@[pos + i]);
                }
            }
            return None;
        }
        i = i + 1;
    }
    proof {
        assert(buf@.subrange(pos as int, pos + m as int) =~= lit@);
    }
    Some(pos + m)
}

} // verus!
