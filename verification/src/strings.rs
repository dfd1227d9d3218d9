//! Small string operations that vstd does not specify: text equality,
//! appending a character, and trimming white space.

use vstd::prelude::*;
use vstd::string::*;

verus! {

/// Whether two string slices hold the same characters.
pub fn str_equal(a: &str, b: &str) -> (r: bool)
    ensures
        r == (a@ == b@),
{
    let n = a.unicode_len();
    if n != b.unicode_len() {
        return false;
    }
    let mut i: usize = 0;
    while i < n
        invariant
            n == a@.len(),
            n == b@.len(),
            i <= n,
            a@.take(i as int) == b@.take(i as int),
        decreases n - i,
    {
        if a.get_char(i) != b.get_char(i) {
            assert(a@[i as int] != b@[i as int]);
            return false;
        }
        assert(a@.take(i + 1) =~= a@.take(i as int).push(a@[i as int]));
        assert(b@.take(i + 1) =~= b@.take(i as int).push(b@[i as int]));
        i = i + 1;
    }
    assert(a@.take(n as int) =~= a@);
    assert(b@.take(n as int) =~= b@);
    true
}

/// `String::push`: appends one character at the end.
#[verifier::external_body]
pub fn string_push(s: &mut String, c: char)
    ensures
        final(s)@ == old(s)@.push(c),
{
    s.push(c)
}


/// White space as `char::is_whitespace` defines it: the characters of the
/// Unicode property `White_Space`.
pub open spec fn white_space(c: char) -> bool {
    let v = c as u32;
    (0x9 <= v <= 0xD) || v == 0x20 || v == 0x85 || v == 0xA0 || v == 0x1680 || (0x2000 <= v
        <= 0x200A) || v == 0x2028 || v == 0x2029 || v == 0x202F || v == 0x205F || v == 0x3000
}

/// A text without its leading white space.
pub open spec fn trim_start_spec(s: Seq<char>) -> Seq<char>
    decreases s.len(),
{
    if s.len() > 0 && white_space(s[0]) {
        trim_start_spec(s.drop_first())
    } else {
        s
    }
}

/// A text without its trailing white space.
pub open spec fn trim_end_spec(s: Seq<char>) -> Seq<char>
    decreases s.len(),
{
    if s.len() > 0 && white_space(s.last()) {
        trim_end_spec(s.drop_last())
    } else {
        s
    }
}

/// A text without leading and trailing white space.
pub open spec fn trimmed(s: Seq<char>) -> Seq<char> {
    trim_end_spec(trim_start_spec(s))
}

/// Whether a character is white space.
fn is_white_space(c: char) -> (r: bool)
    ensures
        r == white_space(c),
{
    let v = c as u32;
    (0x9 <= v && v <= 0xD) || v == 0x20 || v == 0x85 || v == 0xA0 || v == 0x1680 || (0x2000 <= v
        && v <= 0x200A) || v == 0x2028 || v == 0x2029 || v == 0x202F || v == 0x205F || v == 0x3000
}

/// The text with leading and trailing white space removed, white space
/// taken as the Unicode property `White_Space` (what `str::trim` does).
pub fn trim_text(s: &str) -> (r: String)
    ensures
        r@ == trimmed(s@),
{
    let n = s.unicode_len();
    let mut a: usize = 0;
    assert(s@.skip(0) =~= s@);
    while a < n && is_white_space(s.get_char(a))
        invariant
            n == s@.len(),
            a <= n,
            trim_start_spec(s@) == trim_start_spec(s@.skip(a as int)),
        decreases n - a,
    {
        assert(s@.skip(a as int).drop_first() =~= s@.skip(a + 1));
        a = a + 1;
    }
    assert(trim_start_spec(s@) =~= s@.skip(a as int)) by {
        if a == n {
            assert(s@.skip(a as int) =~= Seq::<char>::empty());
        }
    }
    assert(s@.skip(a as int) =~= s@.subrange(a as int, n as int));
    let mut b: usize = n;
    while b > a && is_white_space(s.get_char(b - 1))
        invariant
            n == s@.len(),
            a <= b <= n,
            trim_end_spec(s@.subrange(a as int, n as int)) == trim_end_spec(s@.subrange(a as int, b as int)),
        decreases b - a,
    {
        assert(s@.subrange(a as int, b as int).drop_last() =~= s@.subrange(a as int, b - 1));
        b = b - 1;
    }
    s.substring_char(a, b).to_owned()
}


proof fn lemma_trim_start_ends(s: Seq<char>)
    ensures
        trim_start_spec(s).len() == 0 || !white_space(trim_start_spec(s)[0]),
    decreases s.len(),
{
    if s.len() > 0 && white_space(s[0]) {
        lemma_trim_start_ends(s.drop_first());
    }
}

proof fn lemma_trim_end_prefix(u: Seq<char>)
    ensures
        trim_end_spec(u).len() <= u.len(),
        trim_end_spec(u) == u.take(trim_end_spec(u).len() as int),
        trim_end_spec(u).len() == 0 || !white_space(trim_end_spec(u).last()),
    decreases u.len(),
{
    if u.len() > 0 && white_space(u.last()) {
        lemma_trim_end_prefix(u.drop_last());
        let t = trim_end_spec(u.drop_last());
        assert(u.drop_last().take(t.len() as int) =~= u.take(t.len() as int));
    } else {
        assert(u.take(u.len() as int) =~= u);
    }
}

/// A trimmed text neither begins nor ends with white space.
pub proof fn lemma_trimmed_has_no_outer_space(s: Seq<char>)
    ensures
        trimmed(s).len() == 0 || (!white_space(trimmed(s)[0]) && !white_space(trimmed(s).last())),
{
    lemma_trim_start_ends(s);
    lemma_trim_end_prefix(trim_start_spec(s));
    let u = trim_start_spec(s);
    let t = trimmed(s);
    if t.len() > 0 {
        assert(t[0] == u[0]);
    }
}

} // verus!
