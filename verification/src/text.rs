//! Text helpers: decimal numbers and splitting text into lines.

use vstd::prelude::*;
use vstd::string::*;

use crate::strings::string_push;

verus! {

/// The decimal digit of a value below ten.
pub open spec fn digit_char(d: nat) -> char {
    (('0' as int) + d) as char
}

/// A number written in decimal, without leading zeros.
pub open spec fn decimal(n: nat) -> Seq<char>
    decreases n,
{
    if n < 10 {
        seq![digit_char(n)]
    } else {
        decimal(n / 10).push(digit_char(n % 10))
    }
}

/// Appends a number written in decimal.
pub fn push_decimal(s: &mut String, n: u64)
    ensures
        final(s)@ == old(s)@ + decimal(n as nat),
    decreases n,
{
    if n >= 10 {
        push_decimal(s, n / 10);
    }
    let d = (n % 10) as u8;
    string_push(s, (48u8 + d) as char);
    assert(((48u8 + d) as char) == digit_char((n % 10) as nat));
}

/// A number written in decimal.
pub fn to_decimal(n: u64) -> (r: String)
    ensures
        r@ == decimal(n as nat),
{
    let mut s = String::new();
    push_decimal(&mut s, n);
    assert(s@ =~= decimal(n as nat));
    s
}

/// The state of splitting text at line feeds: the finished non-empty lines
/// and the line being read.
pub open spec fn split_state(s: Seq<char>) -> (Seq<Seq<char>>, Seq<char>)
    decreases s.len(),
{
    if s.len() == 0 {
        (seq![], seq![])
    } else {
        let (done, cur) = split_state(s.drop_last());
        if s.last() == '\n' {
            (if cur.len() > 0 {
                done.push(cur)
            } else {
                done
            }, seq![])
        } else {
            (done, cur.push(s.last()))
        }
    }
}

/// The pieces of a text between line feeds, with the empty pieces left out.
pub open spec fn nonempty_lines(s: Seq<char>) -> Seq<Seq<char>> {
    let (done, cur) = split_state(s);
    if cur.len() > 0 {
        done.push(cur)
    } else {
        done
    }
}

/// Splits a text at its line feeds and keeps the non-empty pieces.
pub fn split_nonempty_lines(s: &str) -> (r: Vec<String>)
    ensures
        r@.map_values(|l: String| l@) == nonempty_lines(s@),
{
    let n = s.unicode_len();
    let mut done: Vec<String> = Vec::new();
    let mut cur = String::new();
    let mut i: usize = 0;
    while i < n
        invariant
            n == s@.len(),
            i <= n,
            (done@.map_values(|l: String| l@), cur@) == split_state(s@.take(i as int)),
        decreases n - i,
    {
        let c = s.get_char(i);
        assert(s@.take(i + 1).drop_last() =~= s@.take(i as int));
        if c == '\n' {
            if cur.as_str().unicode_len() > 0 {
                let ghost old_done = done@;
                done.push(cur);
                assert(done@.map_values(|l: String| l@) =~= old_done.map_values(|l: String| l@).push(
                    split_state(s@.take(i as int)).1,
                ));
            }
            cur = String::new();
        } else {
            string_push(&mut cur, c);
        }
        i = i + 1;
    }
    assert(s@.take(n as int) =~= s@);
    if cur.as_str().unicode_len() > 0 {
        let ghost old_done = done@;
        let ghost c = cur@;
        done.push(cur);
        assert(done@.map_values(|l: String| l@) =~= old_done.map_values(|l: String| l@).push(c));
    }
    done
}


/// Appends the characters of a string slice.
pub fn push_str(s: &mut String, t: &str)
    ensures
        final(s)@ == old(s)@ + t@,
{
    let n = t.unicode_len();
    let mut i: usize = 0;
    while i < n
        invariant
            n == t@.len(),
            i <= n,
            s@ == old(s)@ + t@.take(i as int),
        decreases n - i,
    {
        let c = t.get_char(i);
        string_push(s, c);
        assert(t@.take(i + 1) =~= t@.take(i as int).push(c));
        i = i + 1;
    }
    assert(t@.take(n as int) =~= t@);
}

/// The concatenation of two string slices.
pub fn concat_str(a: &str, b: &str) -> (r: String)
    ensures
        r@ == a@ + b@,
{
    let mut s = String::new();
    push_str(&mut s, a);
    push_str(&mut s, b);
    assert(s@ =~= a@ + b@);
    s
}

/// Whether a text begins with a prefix.
pub fn starts_with(s: &str, prefix: &str) -> (r: bool)
    ensures
        r == (prefix@.len() <= s@.len() && s@.take(prefix@.len() as int) == prefix@),
{
    let n = s.unicode_len();
    let m = prefix.unicode_len();
    if m > n {
        return false;
    }
    let mut i: usize = 0;
    while i < m
        invariant
            n == s@.len(),
            m == prefix@.len(),
            m <= n,
            i <= m,
            s@.take(i as int) == prefix@.take(i as int),
        decreases m - i,
    {
        if s.get_char(i) != prefix.get_char(i) {
            assert(s@.take(m as int)[i as int] != prefix@[i as int]);
            return false;
        }
        assert(s@.take(i + 1) =~= s@.take(i as int).push(s@[i as int]));
        assert(prefix@.take(i + 1) =~= prefix@.take(i as int).push(prefix@[i as int]));
        i = i + 1;
    }
    assert(prefix@.take(m as int) =~= prefix@);
    true
}

/// Whether a text holds a piece at a position.
pub open spec fn occurs_at(s: Seq<char>, piece: Seq<char>, i: int) -> bool {
    0 <= i && i + piece.len() <= s.len() && s.subrange(i, i + piece.len()) == piece
}

/// Whether a text holds a piece somewhere.
pub open spec fn contains_text(s: Seq<char>, piece: Seq<char>) -> bool {
    exists|i: int| #[trigger] occurs_at(s, piece, i)
}

/// Whether a text holds a piece at a character position.
pub(crate) fn piece_at(s: &str, piece: &str, i: usize) -> (r: bool)
    requires
        i + piece@.len() <= s@.len(),
    ensures
        r == occurs_at(s@, piece@, i as int),
{
    let n = s.unicode_len();
    let m = piece.unicode_len();
    let mut k: usize = 0;
    while k < m
        invariant
            n == s@.len(),
            m == piece@.len(),
            i + m <= s@.len(),
            k <= m,
            s@.subrange(i as int, i + k) == piece@.take(k as int),
        decreases m - k,
    {
        if s.get_char(i + k) != piece.get_char(k) {
            assert(s@.subrange(i as int, i + m)[k as int] != piece@[k as int]);
            return false;
        }
        assert(s@.subrange(i as int, i + k + 1) =~= s@.subrange(i as int, i + k).push(s@[i + k]));
        assert(piece@.take(k + 1) =~= piece@.take(k as int).push(piece@[k as int]));
        k = k + 1;
    }
    assert(piece@.take(m as int) =~= piece@);
    true
}

/// Whether a text holds a piece somewhere.
pub fn contains(s: &str, piece: &str) -> (r: bool)
    ensures
        r == contains_text(s@, piece@),
{
    let n = s.unicode_len();
    let m = piece.unicode_len();
    if m > n {
        return false;
    }
    if m == 0 {
        assert(s@.subrange(0, 0) =~= piece@);
        assert(occurs_at(s@, piece@, 0));
        return true;
    }
    let mut i: usize = 0;
    while i <= n - m
        invariant
            n == s@.len(),
            m == piece@.len(),
            1 <= m <= n,
            i <= n - m + 1,
            forall|j: int| 0 <= j < i ==> !occurs_at(s@, piece@, j),
        decreases n - m + 1 - i,
    {
        if piece_at(s, piece, i) {
            return true;
        }
        i = i + 1;
    }
    assert forall|j: int| !occurs_at(s@, piece@, j) by {
        if 0 <= j && j < i {
        }
    }
    false
}

} // verus!
