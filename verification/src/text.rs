//! Character and string helpers shared by the analyzer and the
//! formatting code: Unicode classification and case folding (named
//! results of std functions), ASCII case folding, decimal rendering of
//! integers, and file-name extension extraction.

use vstd::prelude::*;

verus! {

/// Whether std's `char::is_whitespace` holds of `c`.
pub uninterp spec fn is_space(c: char) -> bool;

/// Whether std's `char::is_alphabetic` holds of `c`.
pub uninterp spec fn is_alpha(c: char) -> bool;

/// The characters that std's `char::to_lowercase` yields for `c`.
pub uninterp spec fn lower_of(c: char) -> Seq<char>;

/// Relies on char::is_whitespace: a pure function of the character alone.
pub assume_specification[ char::is_whitespace ](c: char) -> (r: bool)
    ensures
        r == is_space(c),
;

/// Relies on char::is_alphabetic: a pure function of the character alone.
pub assume_specification[ char::is_alphabetic ](c: char) -> (r: bool)
    ensures
        r == is_alpha(c),
;

/// Relies on char::to_lowercase: the lowercase mapping depends on the
/// character alone and yields at least one character.
#[verifier::external_body]
pub fn lowercase_chars(c: char) -> (r: Vec<char>)
    ensures
        r@ == lower_of(c),
        r@.len() >= 1,
{
    c.to_lowercase().collect()
}

/// Relies on str::chars: the characters of a string slice are its view.
#[verifier::external_body]
pub fn chars_of(s: &str) -> (r: Vec<char>)
    ensures
        r@ == s@,
{
    s.chars().collect()
}

/// Relies on the FromIterator impl of String: collecting characters
/// yields the string whose view they are.
#[verifier::external_body]
pub fn string_from_chars(v: &Vec<char>) -> (r: String)
    ensures
        r@ == v@,
{
    v.iter().collect()
}

/// ASCII lowercase of a single character; everything outside `A..=Z`
/// is left alone.
pub open spec fn spec_ascii_lower(c: char) -> char {
    if 'A' <= c && c <= 'Z' {
        ((c as u32) + 32) as u8 as char
    } else {
        c
    }
}

/// ASCII lowercase of a character sequence.
pub open spec fn spec_ascii_lower_seq(s: Seq<char>) -> Seq<char> {
    s.map_values(|c: char| spec_ascii_lower(c))
}

/// Fold one character to ASCII lowercase.
pub fn ascii_lower_char(c: char) -> (r: char)
    ensures
        r == spec_ascii_lower(c),
{
    if 'A' <= c && c <= 'Z' {
        (((c as u32) + 32) as u8) as char
    } else {
        c
    }
}

/// Fold a string to ASCII lowercase, leaving non-ASCII characters alone.
pub fn ascii_lowercase(s: &str) -> (r: String)
    ensures
        r@ == spec_ascii_lower_seq(s@),
{
    let cs = chars_of(s);
    let mut out: Vec<char> = Vec::new();
    let mut i: usize = 0;
    while i < cs.len()
        invariant
            i <= cs@.len(),
            cs@ == s@,
            out@ == spec_ascii_lower_seq(s@.take(i as int)),
        decreases cs@.len() - i,
    {
        out.push(ascii_lower_char(cs[i]));
        i = i + 1;
        proof {
            assert(s@.take(i as int).drop_last() =~= s@.take(i - 1));
            assert(out@ =~= spec_ascii_lower_seq(s@.take(i as int)));
        }
    }
    proof {
        assert(s@.take(s@.len() as int) =~= s@);
    }
    string_from_chars(&out)
}

/// The decimal digit character for `d`, which must lie below ten.
pub open spec fn spec_digit(d: int) -> char {
    ((48 + d) as u8) as char
}

/// The decimal rendering of `n`, most significant digit first, with no
/// leading zeros (a single `'0'` for zero).
pub open spec fn spec_decimal(n: nat) -> Seq<char>
    decreases n,
{
    if n < 10 {
        seq![spec_digit(n as int)]
    } else {
        spec_decimal(n / 10).push(spec_digit((n % 10) as int))
    }
}

fn push_decimal(n: u128, out: &mut Vec<char>)
    ensures
        final(out)@ == old(out)@ + spec_decimal(n as nat),
    decreases n,
{
    if n >= 10 {
        push_decimal(n / 10, out);
    }
    let d: u8 = (n % 10) as u8;
    out.push((48 + d) as char);
    proof {
        assert(out@ =~= old(out)@ + spec_decimal(n as nat));
    }
}

/// Render an integer in decimal.
pub fn decimal_string(n: u128) -> (r: String)
    ensures
        r@ == spec_decimal(n as nat),
{
    let mut v: Vec<char> = Vec::new();
    push_decimal(n, &mut v);
    proof {
        assert(v@ =~= spec_decimal(n as nat));
    }
    string_from_chars(&v)
}

/// The extension of a path: the part of the final path component after
/// its last dot, where that dot neither starts the component nor is
/// missing.
pub open spec fn spec_extension_rec(cs: Seq<char>, acc: Seq<char>) -> Option<Seq<char>>
    decreases cs.len(),
{
    if cs.len() == 0 {
        None
    } else if cs.last() == '/' {
        None
    } else if cs.last() == '.' {
        if cs.drop_last().len() == 0 || cs.drop_last().last() == '/' {
            None
        } else {
            Some(acc)
        }
    } else {
        spec_extension_rec(cs.drop_last(), seq![cs.last()] + acc)
    }
}

/// The extension of a path, if it has one.
pub open spec fn spec_extension(cs: Seq<char>) -> Option<Seq<char>> {
    spec_extension_rec(cs, Seq::empty())
}

/// Extract the extension of a path: the text after the last dot of the
/// final path component, unless that dot starts the component.
pub fn extension_of(path: &str) -> (r: Option<String>)
    ensures
        match r {
            Some(e) => spec_extension(path@) == Some(e@),
            None => spec_extension(path@) is None,
        },
{
    let cs = chars_of(path);
    let mut acc: Vec<char> = Vec::new();
    let mut i: usize = cs.len();
    proof {
        assert(cs@.take(cs@.len() as int) =~= cs@);
    }
    while i > 0
        invariant
            i <= cs@.len(),
            cs@ == path@,
            spec_extension(path@) == spec_extension_rec(cs@.take(i as int), acc@),
        decreases i,
    {
        let c = cs[i - 1];
        proof {
            assert(cs@.take(i as int).last() == c);
            assert(cs@.take(i as int).drop_last() =~= cs@.take(i - 1));
        }
        if c == '/' {
            return None;
        } else if c == '.' {
            if i == 1 || cs[i - 2] == '/' {
                proof {
                    if i > 1 {
                        assert(cs@.take(i - 1).last() == cs@[i - 2]);
                    }
                }
                return None;
            } else {
                proof {
                    assert(cs@.take(i - 1).last() == cs@[i - 2]);
                }
                return Some(string_from_chars(&acc));
            }
        } else {
            let mut next: Vec<char> = Vec::new();
            next.push(c);
            next.append(&mut acc);
            acc = next;
        }
        i = i - 1;
    }
    proof {
        assert(cs@.take(0) =~= Seq::<char>::empty());
    }
    None
}

} // verus!
