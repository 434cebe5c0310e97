//! The persisted preferences text: one flat JSON object holding domain,
//! extension, key and the auto-answer flag.
//!
//! The library owns this format end to end: [`encode_settings`] renders the
//! record, [`decode_settings`] reads it back, and
//! [`lemma_save_load_round_trip`] proves that a saved record always loads
//! back unchanged. Reading and writing the file itself happens outside the
//! library; an absent or unreadable file simply yields the empty record
//! through [`settings_from_text`].

use vstd::prelude::*;
use crate::settings::{Settings, SettingsView, empty_settings};
use crate::text::{has_prefix_spec, push_char};

verus! {

/// The lowercase hexadecimal digit character for a value below sixteen.
pub open spec fn hex_digit(d: nat) -> char {
    if d == 0 {
        '0'
    } else if d == 1 {
        '1'
    } else if d == 2 {
        '2'
    } else if d == 3 {
        '3'
    } else if d == 4 {
        '4'
    } else if d == 5 {
        '5'
    } else if d == 6 {
        '6'
    } else if d == 7 {
        '7'
    } else if d == 8 {
        '8'
    } else if d == 9 {
        '9'
    } else if d == 10 {
        'a'
    } else if d == 11 {
        'b'
    } else if d == 12 {
        'c'
    } else if d == 13 {
        'd'
    } else if d == 14 {
        'e'
    } else {
        'f'
    }
}

fn hex_digit_exec(d: u32) -> (c: char)
    requires
        d < 16,
    ensures
        c == hex_digit(d as nat),
{
    if d == 0 {
        '0'
    } else if d == 1 {
        '1'
    } else if d == 2 {
        '2'
    } else if d == 3 {
        '3'
    } else if d == 4 {
        '4'
    } else if d == 5 {
        '5'
    } else if d == 6 {
        '6'
    } else if d == 7 {
        '7'
    } else if d == 8 {
        '8'
    } else if d == 9 {
        '9'
    } else if d == 10 {
        'a'
    } else if d == 11 {
        'b'
    } else if d == 12 {
        'c'
    } else if d == 13 {
        'd'
    } else if d == 14 {
        'e'
    } else {
        'f'
    }
}

/// How one character is written inside a JSON string: quote and backslash are
/// escaped, control characters become `\u00..`, everything else stands as it
/// is.
pub open spec fn esc_char(c: char) -> Seq<char> {
    if c == '"' {
        seq!['\\', '"']
    } else if c == '\\' {
        seq!['\\', '\\']
    } else if (c as u32) < 32 {
        seq!['\\', 'u', '0', '0', hex_digit(((c as u32) / 16) as nat), hex_digit(
            ((c as u32) % 16) as nat,
        )]
    } else {
        seq![c]
    }
}

/// A character sequence written as the body of a JSON string.
pub open spec fn escaped(s: Seq<char>) -> Seq<char>
    decreases s.len(),
{
    if s.len() == 0 {
        Seq::empty()
    } else {
        esc_char(s[0]) + escaped(s.skip(1))
    }
}

proof fn lemma_escaped_push(s: Seq<char>, c: char)
    ensures
        escaped(s.push(c)) == escaped(s) + esc_char(c),
    decreases s.len(),
{
    if s.len() == 0 {
        let t = s.push(c);
        assert(t[0] == c);
        assert(t.skip(1) =~= Seq::<char>::empty());
        assert(escaped(Seq::<char>::empty()) == Seq::<char>::empty());
        assert(escaped(t) == esc_char(c) + escaped(t.skip(1)));
        assert(escaped(t) =~= escaped(s) + esc_char(c));
    } else {
        assert(s.push(c)[0] == s[0]);
        assert(s.push(c).skip(1) =~= s.skip(1).push(c));
        lemma_escaped_push(s.skip(1), c);
        assert(esc_char(s[0]) + (escaped(s.skip(1)) + esc_char(c)) =~= (esc_char(s[0]) + escaped(
            s.skip(1),
        )) + esc_char(c));
    }
}

/// The persisted text of a settings record: a flat JSON object with the four
/// fields in a fixed order, string values escaped by [`esc_char`].
pub open spec fn encoded(v: SettingsView) -> Seq<char> {
    "{\"domain\":\""@ + escaped(v.domain) + "\""@ + ",\"extension\":\""@ + escaped(v.extension)
        + "\""@ + ",\"key\":\""@ + escaped(v.key) + "\""@ + ",\"auto_answer\":"@ + (
    if v.auto_answer {
        "true"@
    } else {
        "false"@
    }) + "}"@
}

/// Appends the JSON-escaped body of `field` to `out`.
fn append_escaped(out: &mut String, field: &str)
    ensures
        final(out)@ == old(out)@ + escaped(field@),
{
    let n = field.unicode_len();
    let mut i: usize = 0;
    proof {
        assert(field@.subrange(0, 0) =~= Seq::<char>::empty());
        assert(old(out)@ + escaped(field@.subrange(0, 0)) =~= old(out)@);
    }
    while i < n
        invariant
            i <= n,
            n == field@.len(),
            out@ == old(out)@ + escaped(field@.subrange(0, i as int)),
        decreases n - i,
    {
        let c = field.get_char(i);
        proof {
            assert(field@.subrange(0, i + 1) =~= field@.subrange(0, i as int).push(c));
            lemma_escaped_push(field@.subrange(0, i as int), c);
        }
        if c == '"' {
            out.append("\\\"");
            proof {
                reveal_strlit("\\\"");
                assert("\\\""@ =~= esc_char(c));
            }
        } else if c == '\\' {
            out.append("\\\\");
            proof {
                reveal_strlit("\\\\");
                assert("\\\\"@ =~= esc_char(c));
            }
        } else if (c as u32) < 32 {
            let v = c as u32;
            out.append("\\u00");
            push_char(out, hex_digit_exec(v / 16));
            push_char(out, hex_digit_exec(v % 16));
            proof {
                reveal_strlit("\\u00");
                assert("\\u00"@.push(hex_digit((v / 16) as nat)).push(hex_digit((v % 16) as nat))
                    =~= esc_char(c));
            }
        } else {
            push_char(out, c);
            proof {
                assert(seq![c] =~= esc_char(c));
            }
        }
        proof {
            assert(out@ =~= old(out)@ + escaped(field@.subrange(0, i + 1)));
        }
        i += 1;
    }
    proof {
        assert(field@.subrange(0, n as int) =~= field@);
    }
}

/// Renders the settings record as its persisted text.
pub fn encode_settings(s: &Settings) -> (r: String)
    ensures
        r@ == encoded(s@),
{
    let mut out = String::new();
    out.append("{\"domain\":\"");
    append_escaped(&mut out, s.domain.as_str());
    out.append("\"");
    out.append(",\"extension\":\"");
    append_escaped(&mut out, s.extension.as_str());
    out.append("\"");
    out.append(",\"key\":\"");
    append_escaped(&mut out, s.key.as_str());
    out.append("\"");
    out.append(",\"auto_answer\":");
    if s.auto_answer {
        out.append("true");
    } else {
        out.append("false");
    }
    out.append("}");
    proof {
        assert(out@ =~= encoded(s@));
    }
    out
}

/// The value of a hexadecimal digit character, either case.
pub open spec fn hex_val(c: char) -> Option<nat> {
    if c == '0' {
        Some(0 as nat)
    } else if c == '1' {
        Some(1 as nat)
    } else if c == '2' {
        Some(2 as nat)
    } else if c == '3' {
        Some(3 as nat)
    } else if c == '4' {
        Some(4 as nat)
    } else if c == '5' {
        Some(5 as nat)
    } else if c == '6' {
        Some(6 as nat)
    } else if c == '7' {
        Some(7 as nat)
    } else if c == '8' {
        Some(8 as nat)
    } else if c == '9' {
        Some(9 as nat)
    } else if c == 'a' || c == 'A' {
        Some(10 as nat)
    } else if c == 'b' || c == 'B' {
        Some(11 as nat)
    } else if c == 'c' || c == 'C' {
        Some(12 as nat)
    } else if c == 'd' || c == 'D' {
        Some(13 as nat)
    } else if c == 'e' || c == 'E' {
        Some(14 as nat)
    } else if c == 'f' || c == 'F' {
        Some(15 as nat)
    } else {
        None
    }
}

fn hex_val_exec(c: char) -> (r: Option<u32>)
    ensures
        match r {
            Some(v) => v < 16 && hex_val(c) == Some(v as nat),
            None => hex_val(c) is None,
        },
{
    if c == '0' {
        Some(0)
    } else if c == '1' {
        Some(1)
    } else if c == '2' {
        Some(2)
    } else if c == '3' {
        Some(3)
    } else if c == '4' {
        Some(4)
    } else if c == '5' {
        Some(5)
    } else if c == '6' {
        Some(6)
    } else if c == '7' {
        Some(7)
    } else if c == '8' {
        Some(8)
    } else if c == '9' {
        Some(9)
    } else if c == 'a' || c == 'A' {
        Some(10)
    } else if c == 'b' || c == 'B' {
        Some(11)
    } else if c == 'c' || c == 'C' {
        Some(12)
    } else if c == 'd' || c == 'D' {
        Some(13)
    } else if c == 'e' || c == 'E' {
        Some(14)
    } else if c == 'f' || c == 'F' {
        Some(15)
    } else {
        None
    }
}

/// The character a single-letter JSON escape stands for.
pub open spec fn unescaped_char(c: char) -> Option<char> {
    if c == '"' {
        Some('"')
    } else if c == '\\' {
        Some('\\')
    } else if c == '/' {
        Some('/')
    } else if c == 'n' {
        Some('\n')
    } else if c == 't' {
        Some('\t')
    } else if c == 'r' {
        Some('\r')
    } else if c == 'b' {
        Some('\u{0008}')
    } else if c == 'f' {
        Some('\u{000c}')
    } else {
        None
    }
}

fn unescape_exec(c: char) -> (r: Option<char>)
    ensures
        r == unescaped_char(c),
{
    if c == '"' {
        Some('"')
    } else if c == '\\' {
        Some('\\')
    } else if c == '/' {
        Some('/')
    } else if c == 'n' {
        Some('\n')
    } else if c == 't' {
        Some('\t')
    } else if c == 'r' {
        Some('\r')
    } else if c == 'b' {
        Some('\u{0008}')
    } else if c == 'f' {
        Some('\u{000c}')
    } else {
        None
    }
}

/// Reads a JSON string body up to and including its closing quote: the
/// decoded content and the remainder after the quote, or nothing when the
/// text is not a well-formed string body.
pub open spec fn parse_jstring(s: Seq<char>) -> Option<(Seq<char>, Seq<char>)>
    decreases s.len(),
{
    if s.len() == 0 {
        None
    } else if s[0] == '"' {
        Some((Seq::empty(), s.skip(1)))
    } else if s[0] == '\\' {
        if s.len() < 2 {
            None
        } else if s[1] == 'u' {
            if s.len() < 6 {
                None
            } else {
                match (hex_val(s[2]), hex_val(s[3]), hex_val(s[4]), hex_val(s[5])) {
                    (Some(a), Some(b), Some(c), Some(d)) => {
                        let v = a * 4096 + b * 256 + c * 16 + d;
                        if v < 128 {
                            match parse_jstring(s.skip(6)) {
                                Some(p) => Some((seq![(v as u8) as char] + p.0, p.1)),
                                None => None,
                            }
                        } else {
                            None
                        }
                    },
                    _ => None,
                }
            }
        } else {
            match unescaped_char(s[1]) {
                Some(c) => match parse_jstring(s.skip(2)) {
                    Some(p) => Some((seq![c] + p.0, p.1)),
                    None => None,
                },
                None => None,
            }
        }
    } else if (s[0] as u32) < 32 {
        None
    } else {
        match parse_jstring(s.skip(1)) {
            Some(p) => Some((seq![s[0]] + p.0, p.1)),
            None => None,
        }
    }
}

/// The remainder of `s` after the literal `p`, when `s` starts with it.
pub open spec fn strip_lit(s: Seq<char>, p: Seq<char>) -> Option<Seq<char>> {
    if has_prefix_spec(s, p) {
        Some(s.skip(p.len() as int))
    } else {
        None
    }
}

/// Reads the literal `true` or `false` and the remainder after it.
pub open spec fn parse_bool(s: Seq<char>) -> Option<(bool, Seq<char>)> {
    if has_prefix_spec(s, "true"@) {
        Some((true, s.skip(4)))
    } else if has_prefix_spec(s, "false"@) {
        Some((false, s.skip(5)))
    } else {
        None
    }
}

/// Reads a whole persisted settings record: the object brace, the four
/// fields in their fixed order, and nothing after the closing brace.
pub open spec fn parse_settings(s: Seq<char>) -> Option<SettingsView> {
    match strip_lit(s, "{\"domain\":\""@) {
        None => None,
        Some(s1) => match parse_jstring(s1) {
            None => None,
            Some(d) => match strip_lit(d.1, ",\"extension\":\""@) {
                None => None,
                Some(s2) => match parse_jstring(s2) {
                    None => None,
                    Some(e) => match strip_lit(e.1, ",\"key\":\""@) {
                        None => None,
                        Some(s3) => match parse_jstring(s3) {
                            None => None,
                            Some(k) => match strip_lit(k.1, ",\"auto_answer\":"@) {
                                None => None,
                                Some(s4) => match parse_bool(s4) {
                                    None => None,
                                    Some(b) => if b.1 == "}"@ {
                                        Some(
                                            SettingsView {
                                                domain: d.0,
                                                extension: e.0,
                                                key: k.0,
                                                auto_answer: b.0,
                                            },
                                        )
                                    } else {
                                        None
                                    },
                                },
                            },
                        },
                    },
                },
            },
        },
    }
}

spec fn prepend_parse(acc: Seq<char>, p: Option<(Seq<char>, Seq<char>)>) -> Option<
    (Seq<char>, Seq<char>),
> {
    match p {
        Some(q) => Some((acc + q.0, q.1)),
        None => None,
    }
}

/// Advances over the literal `lit` at position `i` of `s`.
fn expect_lit(s: &str, i: usize, lit: &str) -> (r: Option<usize>)
    requires
        i <= s@.len(),
    ensures
        match r {
            Some(j) => i <= j <= s@.len() && strip_lit(s@.skip(i as int), lit@) == Some(
                s@.skip(j as int),
            ),
            None => strip_lit(s@.skip(i as int), lit@) is None,
        },
{
    let n = s.unicode_len();
    let m = lit.unicode_len();
    if n - i < m {
        proof {
            assert(s@.skip(i as int).len() < lit@.len());
        }
        return None;
    }
    let mut k: usize = 0;
    while k < m
        invariant
            k <= m,
            m == lit@.len(),
            n == s@.len(),
            i + m <= n,
            forall|t: int| 0 <= t < k ==> s@.skip(i as int)[t] == lit@[t],
        decreases m - k,
    {
        let cs = s.get_char(i + k);
        let cl = lit.get_char(k);
        proof {
            assert(s@.skip(i as int)[k as int] == s@[i + k]);
        }
        if cs != cl {
            proof {
                if has_prefix_spec(s@.skip(i as int), lit@) {
                    assert(s@.skip(i as int).subrange(0, lit@.len() as int)[k as int]
                        == lit@[k as int]);
                }
            }
            return None;
        }
        k += 1;
    }
    proof {
        assert(s@.skip(i as int).subrange(0, lit@.len() as int) =~= lit@);
        assert(s@.skip(i as int).skip(m as int) =~= s@.skip(i + m));
    }
    Some(i + m)
}

/// Reads a JSON string body starting at position `i` of `s`: the decoded
/// content and the position after the closing quote.
fn parse_jstring_exec(s: &str, start: usize) -> (r: Option<(String, usize)>)
    requires
        start <= s@.len(),
    ensures
        match r {
            Some(p) => p.1 <= s@.len() && parse_jstring(s@.skip(start as int)) == Some(
                (p.0@, s@.skip(p.1 as int)),
            ),
            None => parse_jstring(s@.skip(start as int)) is None,
        },
{
    let n = s.unicode_len();
    let mut acc = String::new();
    let mut i = start;
    proof {
        assert(prepend_parse(acc@, parse_jstring(s@.skip(start as int))) == parse_jstring(
            s@.skip(start as int),
        )) by {
            let p = parse_jstring(s@.skip(start as int));
            if p is Some {
                assert(acc@ + (p->0).0 =~= (p->0).0);
            }
        }
    }
    while i < n
        invariant
            start <= i <= n,
            n == s@.len(),
            parse_jstring(s@.skip(start as int)) == prepend_parse(
                acc@,
                parse_jstring(s@.skip(i as int)),
            ),
        decreases n - i,
    {
        let ghost su = s@.skip(i as int);
        proof {
            assert(su.len() == n - i);
            assert(su[0] == s@[i as int]);
        }
        let c = s.get_char(i);
        if c == '"' {
            proof {
                assert(su.skip(1) =~= s@.skip(i + 1));
                assert(acc@ + Seq::<char>::empty() =~= acc@);
            }
            return Some((acc, i + 1));
        } else if c == '\\' {
            if n - i < 2 {
                proof {
                    assert(su.len() < 2);
                }
                return None;
            }
            let c2 = s.get_char(i + 1);
            proof {
                assert(su[1] == s@[i + 1]);
            }
            if c2 == 'u' {
                if n - i < 6 {
                    proof {
                        assert(su.len() < 6);
                    }
                    return None;
                }
                proof {
                    assert(su[2] == s@[i + 2]);
                    assert(su[3] == s@[i + 3]);
                    assert(su[4] == s@[i + 4]);
                    assert(su[5] == s@[i + 5]);
                }
                let h0 = hex_val_exec(s.get_char(i + 2));
                let h1 = hex_val_exec(s.get_char(i + 3));
                let h2 = hex_val_exec(s.get_char(i + 4));
                let h3 = hex_val_exec(s.get_char(i + 5));
                let (a, b, cc, d) = match (h0, h1, h2, h3) {
                    (Some(a), Some(b), Some(cc), Some(d)) => (a, b, cc, d),
                    _ => {
                        return None;
                    },
                };
                let v = a * 4096 + b * 256 + cc * 16 + d;
                if v >= 128 {
                    return None;
                }
                let ch = (v as u8) as char;
                let ghost acc0 = acc@;
                push_char(&mut acc, ch);
                proof {
                    assert(su.skip(6) =~= s@.skip(i + 6));
                    let inner = parse_jstring(s@.skip(i + 6));
                    assert(parse_jstring(su) == prepend_parse(seq![ch], inner));
                    if inner is Some {
                        assert(acc0 + (seq![ch] + (inner->0).0) =~= acc0.push(ch) + (inner->0).0);
                    }
                }
                i = i + 6;
            } else {
                let ch = match unescape_exec(c2) {
                    Some(ch) => ch,
                    None => {
                        return None;
                    },
                };
                let ghost acc0 = acc@;
                push_char(&mut acc, ch);
                proof {
                    assert(su.skip(2) =~= s@.skip(i + 2));
                    let inner = parse_jstring(s@.skip(i + 2));
                    assert(parse_jstring(su) == prepend_parse(seq![ch], inner));
                    if inner is Some {
                        assert(acc0 + (seq![ch] + (inner->0).0) =~= acc0.push(ch) + (inner->0).0);
                    }
                }
                i = i + 2;
            }
        } else {
            let code = c as u32;
            if code < 32 {
                return None;
            }
            let ghost acc0 = acc@;
            push_char(&mut acc, c);
            proof {
                assert(su.skip(1) =~= s@.skip(i + 1));
                let inner = parse_jstring(s@.skip(i + 1));
                assert(parse_jstring(su) == prepend_parse(seq![c], inner));
                if inner is Some {
                    assert(acc0 + (seq![c] + (inner->0).0) =~= acc0.push(c) + (inner->0).0);
                }
            }
            i = i + 1;
        }
    }
    proof {
        assert(s@.skip(i as int).len() == 0);
    }
    None
}

/// Reads a settings record back from its persisted text. Returns nothing
/// when the text is not a record this library writes.
pub fn decode_settings(s: &str) -> (r: Option<Settings>)
    ensures
        match parse_settings(s@) {
            Some(v) => r matches Some(st) && st@ == v,
            None => r is None,
        },
{
    proof {
        assert(s@.skip(0) =~= s@);
    }
    let i1 = match expect_lit(s, 0, "{\"domain\":\"") {
        Some(j) => j,
        None => {
            return None;
        },
    };
    let (domain, i2) = match parse_jstring_exec(s, i1) {
        Some(p) => p,
        None => {
            return None;
        },
    };
    let i3 = match expect_lit(s, i2, ",\"extension\":\"") {
        Some(j) => j,
        None => {
            return None;
        },
    };
    let (extension, i4) = match parse_jstring_exec(s, i3) {
        Some(p) => p,
        None => {
            return None;
        },
    };
    let i5 = match expect_lit(s, i4, ",\"key\":\"") {
        Some(j) => j,
        None => {
            return None;
        },
    };
    let (key, i6) = match parse_jstring_exec(s, i5) {
        Some(p) => p,
        None => {
            return None;
        },
    };
    let i7 = match expect_lit(s, i6, ",\"auto_answer\":") {
        Some(j) => j,
        None => {
            return None;
        },
    };
    let (auto_answer, i8) = match expect_lit(s, i7, "true") {
        Some(j) => (true, j),
        None => match expect_lit(s, i7, "false") {
            Some(j) => (false, j),
            None => {
                proof {
                    assert(parse_bool(s@.skip(i7 as int)) is None);
                }
                return None;
            },
        },
    };
    proof {
        if auto_answer {
            assert(parse_bool(s@.skip(i7 as int)) == Some((true, s@.skip(i8 as int)))) by {
                reveal_strlit("true");
                reveal_strlit("false");
                let t = s@.skip(i7 as int);
                if has_prefix_spec(t, "false"@) {
                    assert(t.subrange(0, 5)[0] == 'f');
                    assert(t.subrange(0, 4)[0] == 't');
                }
                assert(t.skip(4) =~= s@.skip(i8 as int));
            }
        } else {
            assert(parse_bool(s@.skip(i7 as int)) == Some((false, s@.skip(i8 as int)))) by {
                reveal_strlit("true");
                reveal_strlit("false");
            }
        }
    }
    let n = s.unicode_len();
    if !(i8 < n && n - i8 == 1) {
        proof {
            assert(s@.skip(i8 as int).len() != 1);
            assert(!(s@.skip(i8 as int) =~= "}"@)) by {
                reveal_strlit("}");
            }
        }
        return None;
    }
    let cb = s.get_char(i8);
    if cb != '}' {
        proof {
            reveal_strlit("}");
            assert(s@.skip(i8 as int)[0] == s@[i8 as int]);
            assert(!(s@.skip(i8 as int) =~= "}"@));
        }
        return None;
    }
    proof {
        reveal_strlit("}");
        assert(s@.skip(i8 as int)[0] == s@[i8 as int]);
        assert(s@.skip(i8 as int) =~= "}"@);
    }
    Some(Settings { domain, extension, key, auto_answer })
}

proof fn lemma_strip_concat(p: Seq<char>, t: Seq<char>)
    ensures
        strip_lit(p + t, p) == Some(t),
{
    assert((p + t).subrange(0, p.len() as int) =~= p);
    assert((p + t).skip(p.len() as int) =~= t);
}

proof fn lemma_parse_escaped(s: Seq<char>, rest: Seq<char>)
    ensures
        parse_jstring(escaped(s) + seq!['"'] + rest) == Some((s, rest)),
    decreases s.len(),
{
    let input = escaped(s) + seq!['"'] + rest;
    if s.len() == 0 {
        assert(escaped(s) == Seq::<char>::empty());
        assert(input =~= seq!['"'] + rest);
        assert(input[0] == '"');
        assert(input.skip(1) =~= rest);
        assert(Seq::<char>::empty() =~= s);
    } else {
        let c = s[0];
        let s1 = s.skip(1);
        lemma_parse_escaped(s1, rest);
        let tail = escaped(s1) + seq!['"'] + rest;
        assert(escaped(s) == esc_char(c) + escaped(s1));
        assert(input =~= esc_char(c) + tail);
        assert(seq![c] + s1 =~= s);
        if c == '"' || c == '\\' {
            assert(input[0] == '\\');
            assert(input[1] == c);
            assert(unescaped_char(c) == Some(c));
            assert(input.skip(2) =~= tail);
        } else if (c as u32) < 32 {
            let v32 = c as u32;
            assert(input[0] == '\\');
            assert(input[1] == 'u');
            assert(input[2] == '0');
            assert(input[3] == '0');
            assert(input[4] == hex_digit((v32 / 16) as nat));
            assert(input[5] == hex_digit((v32 % 16) as nat));
            assert(input.len() >= 6);
            assert(hex_val(input[2]) == Some(0 as nat));
            assert(hex_val(input[3]) == Some(0 as nat));
            assert(hex_val(input[4]) == Some((v32 / 16) as nat));
            assert(hex_val(input[5]) == Some((v32 % 16) as nat));
            let v = 0 * 4096 + 0 * 256 + ((v32 / 16) as nat) * 16 + ((v32 % 16) as nat);
            assert(v == v32);
            assert(v < 128);
            vstd::utf8::char_u32_cast(c, v32);
            assert(((v as u8) as char) == c);
            assert(input.skip(6) =~= tail);
        } else {
            assert(esc_char(c) == seq![c]);
            assert(input[0] == c);
            assert(input.skip(1) =~= tail);
        }
    }
}

/// The persistence round trip: the text that [`encode_settings`] writes for
/// any settings record always parses back to exactly that record, so a save
/// followed by a load yields the original domain, extension, key and
/// auto-answer flag.
pub proof fn lemma_save_load_round_trip(v: SettingsView)
    ensures
        parse_settings(encoded(v)) == Some(v),
{
    reveal_strlit("{\"domain\":\"");
    reveal_strlit(",\"extension\":\"");
    reveal_strlit(",\"key\":\"");
    reveal_strlit(",\"auto_answer\":");
    reveal_strlit("\"");
    reveal_strlit("true");
    reveal_strlit("false");
    reveal_strlit("}");
    let l1 = "{\"domain\":\""@;
    let m2 = ",\"extension\":\""@;
    let m3 = ",\"key\":\""@;
    let m4 = ",\"auto_answer\":"@;
    let bool_s = if v.auto_answer {
        "true"@
    } else {
        "false"@
    };
    let tail4 = bool_s + "}"@;
    let rest3 = m4 + tail4;
    let body_k = escaped(v.key) + seq!['"'] + rest3;
    let rest2 = m3 + body_k;
    let body_e = escaped(v.extension) + seq!['"'] + rest2;
    let rest1 = m2 + body_e;
    let body_d = escaped(v.domain) + seq!['"'] + rest1;
    assert("\""@ =~= seq!['"']);
    assert(encoded(v) =~= l1 + body_d);
    lemma_strip_concat(l1, body_d);
    lemma_parse_escaped(v.domain, rest1);
    lemma_strip_concat(m2, body_e);
    lemma_parse_escaped(v.extension, rest2);
    lemma_strip_concat(m3, body_k);
    lemma_parse_escaped(v.key, rest3);
    lemma_strip_concat(m4, tail4);
    if v.auto_answer {
        assert(tail4.subrange(0, 4) =~= "true"@);
        assert(tail4.skip(4) =~= "}"@);
        assert(parse_bool(tail4) == Some((true, tail4.skip(4))));
    } else {
        if has_prefix_spec(tail4, "true"@) {
            assert(tail4.subrange(0, 4)[0] == 't');
            assert(tail4[0] == 'f');
        }
        assert(tail4.subrange(0, 5) =~= "false"@);
        assert(tail4.skip(5) =~= "}"@);
        assert(parse_bool(tail4) == Some((false, tail4.skip(5))));
    }
    assert(parse_settings(encoded(v)) == Some(
        SettingsView {
            domain: v.domain,
            extension: v.extension,
            key: v.key,
            auto_answer: v.auto_answer,
        },
    ));
    assert(SettingsView {
        domain: v.domain,
        extension: v.extension,
        key: v.key,
        auto_answer: v.auto_answer,
    } == v);
}

/// What loading the preferences yields from the persisted text, when there is
/// one: the decoded record, or the empty record when the file is absent or
/// does not hold a record this library writes. Loading never fails.
pub fn settings_from_text(text: Option<&str>) -> (r: Settings)
    ensures
        match text {
            Some(t) => match parse_settings(t@) {
                Some(v) => r@ == v,
                None => r@ == empty_settings(),
            },
            None => r@ == empty_settings(),
        },
{
    match text {
        Some(t) => match decode_settings(t) {
            Some(s) => s,
            None => Settings::empty(),
        },
        None => Settings::empty(),
    }
}

} // verus!

