//! Extracting and cleaning a phone number from a `tel:` URI.

use vstd::prelude::*;
use crate::text::{has_prefix, has_prefix_spec, push_char};

verus! {

/// Whether a character string begins with the literal 4-character `tel:`
/// prefix.
pub open spec fn is_tel(s: Seq<char>) -> bool {
    has_prefix_spec(s, "tel:"@)
}

/// Characters the normalizer keeps: everything but the literal separators
/// `-`, space, `(` and `)`.
pub open spec fn keeps(c: char) -> bool {
    c != '-' && c != ' ' && c != '(' && c != ')'
}

/// The phone number a `tel:` URI carries: the text after the 4-character
/// prefix with the separator characters removed.
pub open spec fn normalized(u: Seq<char>) -> Seq<char> {
    u.skip(4).filter(|c: char| keeps(c))
}

/// Whether the string starts with the literal `tel:` prefix, the shape the
/// socket protocol recognizes as a call request.
pub fn is_tel_uri(s: &str) -> (r: bool)
    ensures
        r == is_tel(s@),
{
    proof {
        reveal_strlit("tel:");
    }
    has_prefix(s, "tel:")
}

/// Whether the first four characters spell `tel:` in either ASCII case, the
/// tolerant check applied to command-line arguments.
pub open spec fn is_tel_ci(s: Seq<char>) -> bool {
    s.len() >= 4 && (s[0] == 't' || s[0] == 'T') && (s[1] == 'e' || s[1] == 'E') && (s[2] == 'l'
        || s[2] == 'L') && s[3] == ':'
}

/// Case-insensitive form of the `tel:` prefix test, for arguments handed over
/// by the operating system.
pub fn is_tel_uri_ci(s: &str) -> (r: bool)
    ensures
        r == is_tel_ci(s@),
{
    if s.unicode_len() < 4 {
        return false;
    }
    let c0 = s.get_char(0);
    let c1 = s.get_char(1);
    let c2 = s.get_char(2);
    let c3 = s.get_char(3);
    (c0 == 't' || c0 == 'T') && (c1 == 'e' || c1 == 'E') && (c2 == 'l' || c2 == 'L') && c3 == ':'
}

/// Strips the 4-character `tel:` prefix and removes the separator characters
/// `-`, space, `(` and `)`, keeping everything else (digits and a leading `+`
/// in particular) in order.
pub fn normalize(u: &str) -> (r: String)
    requires
        u@.len() >= 4,
    ensures
        r@ == normalized(u@),
{
    let n = u.unicode_len();
    let mut out = String::new();
    let mut i: usize = 4;
    proof {
        assert(u@.skip(4).subrange(0, 0) =~= Seq::<char>::empty());
        reveal(Seq::filter);
    }
    while i < n
        invariant
            4 <= i <= n,
            n == u@.len(),
            out@ == u@.skip(4).subrange(0, i - 4).filter(|c: char| keeps(c)),
        decreases n - i,
    {
        let c = u.get_char(i);
        proof {
            let pre = u@.skip(4).subrange(0, i - 4);
            let post = u@.skip(4).subrange(0, i - 3);
            assert(post.drop_last() =~= pre);
            assert(post.last() == c);
            reveal(Seq::filter);
            if keeps(c) {
                assert(post.filter(|c: char| keeps(c)) =~= pre.filter(|c: char| keeps(c)).push(c));
            } else {
                assert(post.filter(|c: char| keeps(c)) =~= pre.filter(|c: char| keeps(c)));
            }
        }
        if c != '-' && c != ' ' && c != '(' && c != ')' {
            push_char(&mut out, c);
        }
        i += 1;
    }
    proof {
        assert(u@.skip(4).subrange(0, n - 4) =~= u@.skip(4));
    }
    out
}

/// A sequence whose characters are all kept is left alone by the
/// normalizer's filter.
pub proof fn lemma_kept_chars_are_stable(s: Seq<char>)
    requires
        forall|i: int| 0 <= i < s.len() ==> keeps(s[i]),
    ensures
        s.filter(|c: char| keeps(c)) == s,
    decreases s.len(),
{
    reveal(Seq::filter);
    if s.len() == 0 {
        assert(s.filter(|c: char| keeps(c)) =~= s);
    } else {
        lemma_kept_chars_are_stable(s.drop_last());
        assert(keeps(s.last()));
        assert(s.filter(|c: char| keeps(c)) =~= s.drop_last().push(s.last()));
        assert(s.drop_last().push(s.last()) =~= s);
    }
}

/// The first argument carrying the `tel:` prefix (in either ASCII case),
/// scanned front to back.
pub open spec fn find_tel(args: Seq<Seq<char>>) -> Option<Seq<char>>
    decreases args.len(),
{
    if args.len() == 0 {
        None
    } else if is_tel_ci(args[0]) {
        Some(args[0])
    } else {
        find_tel(args.skip(1))
    }
}

/// Scans the command-line arguments (the program name excluded) for the
/// first `tel:` URI and returns its normalized number.
pub fn first_tel_number(args: &Vec<String>) -> (r: Option<String>)
    ensures
        match find_tel(args.deep_view()) {
            Some(u) => r matches Some(n) && n@ == normalized(u),
            None => r is None,
        },
{
    let n = args.len();
    let ghost dv = args.deep_view();
    let mut i: usize = 0;
    proof {
        assert(dv.skip(0) =~= dv);
    }
    while i < n
        invariant
            i <= n,
            n == args.len(),
            dv == args.deep_view(),
            dv.len() == n,
            find_tel(dv) == find_tel(dv.skip(i as int)),
            forall|j: int| 0 <= j < n ==> dv[j] == args[j]@,
        decreases n - i,
    {
        let a = &args[i];
        proof {
            assert(dv.skip(i as int)[0] == dv[i as int]);
        }
        if is_tel_uri_ci(a.as_str()) {
            let num = normalize(a.as_str());
            return Some(num);
        }
        proof {
            assert(dv.skip(i as int).skip(1) =~= dv.skip(i + 1));
        }
        i += 1;
    }
    proof {
        assert(dv.skip(n as int).len() == 0);
    }
    None
}

} // verus!
