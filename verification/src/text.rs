//! Verified text routines used throughout the crate: character-level string
//! equality and substring search, whitespace trimming, splitting a device
//! name on `:`, and conversion between decimal text and `u32` values.

use vstd::prelude::*;
use vstd::string::StrSliceExecFns;
use vstd::string::StringExecFns;

verus! {

/// The whitespace characters trimmed from attribute file contents.
pub open spec fn is_space(c: char) -> bool {
    c == ' ' || c == '\t' || c == '\n' || c == '\r' || c == '\u{0b}' || c == '\u{0c}'
}

/// A decimal digit.
pub open spec fn is_digit(c: char) -> bool {
    48 <= c as u32 <= 57
}

/// Numeric value of a decimal digit character (0 for anything else).
pub open spec fn digit_val(c: char) -> nat {
    if is_digit(c) {
        (c as u32 - 48) as nat
    } else {
        0
    }
}

/// The digit character for a value below ten.
pub open spec fn digit_char(d: nat) -> char {
    if d == 0 {
        '0'
    } else if d == 1 {
        '1'
    } else if d == 2 {
        '2'
    } else if d == 3 {
        '3'
    } else if d == 4 {
        '4'
    } else if d == 5 {
        '5'
    } else if d == 6 {
        '6'
    } else if d == 7 {
        '7'
    } else if d == 8 {
        '8'
    } else {
        '9'
    }
}

/// Value of a digit string read from left to right.
pub open spec fn dec_value(s: Seq<char>) -> nat
    decreases s.len(),
{
    if s.len() == 0 {
        0
    } else {
        dec_value(s.drop_last()) * 10 + digit_val(s.last())
    }
}

/// Every character is a decimal digit.
pub open spec fn all_digits(s: Seq<char>) -> bool {
    forall|i: int| 0 <= i < s.len() ==> is_digit(#[trigger] s[i])
}

/// What parsing a trimmed attribute file as a brightness value yields:
/// the number it spells, provided the text is a non-empty run of decimal
/// digits whose value fits in a `u32`.
pub open spec fn parse_u32_spec(s: Seq<char>) -> Option<u32> {
    if s.len() > 0 && all_digits(s) && dec_value(s) <= u32::MAX {
        Some(dec_value(s) as u32)
    } else {
        None
    }
}

/// The canonical decimal spelling of a number, most significant digit first.
pub open spec fn dec_seq(n: nat) -> Seq<char>
    decreases n,
{
    if n < 10 {
        seq![digit_char(n)]
    } else {
        dec_seq(n / 10).push(digit_char(n % 10))
    }
}

/// `needle` occurs as a contiguous run of characters inside `hay`.
pub open spec fn contains_seq(hay: Seq<char>, needle: Seq<char>) -> bool {
    exists|k: int|
        0 <= k <= hay.len() - needle.len() && #[trigger] hay.subrange(k, k + needle.len() as int)
            == needle
}

/// `s` split on every `:`, keeping empty pieces; always at least one piece.
pub open spec fn split_colon(s: Seq<char>) -> Seq<Seq<char>>
    decreases s.len(),
{
    if s.len() == 0 {
        seq![Seq::<char>::empty()]
    } else if s.last() == ':' {
        split_colon(s.drop_last()).push(Seq::<char>::empty())
    } else {
        let r = split_colon(s.drop_last());
        r.update(r.len() - 1, r.last().push(s.last()))
    }
}

/// The empty pieces removed, order kept.
pub open spec fn drop_empty(segs: Seq<Seq<char>>) -> Seq<Seq<char>>
    decreases segs.len(),
{
    if segs.len() == 0 {
        Seq::empty()
    } else if segs.last().len() == 0 {
        drop_empty(segs.drop_last())
    } else {
        drop_empty(segs.drop_last()).push(segs.last())
    }
}

/// The non-empty `:`-separated segments of a device name, in order.
pub open spec fn name_segments(s: Seq<char>) -> Seq<Seq<char>> {
    drop_empty(split_colon(s))
}

/// Leading whitespace removed.
pub open spec fn trim_start_spec(s: Seq<char>) -> Seq<char>
    decreases s.len(),
{
    if s.len() > 0 && is_space(s[0]) {
        trim_start_spec(s.drop_first())
    } else {
        s
    }
}

/// Trailing whitespace removed.
pub open spec fn trim_end_spec(s: Seq<char>) -> Seq<char>
    decreases s.len(),
{
    if s.len() > 0 && is_space(s.last()) {
        trim_end_spec(s.drop_last())
    } else {
        s
    }
}

/// Surrounding whitespace removed.
pub open spec fn trim_spec(s: Seq<char>) -> Seq<char> {
    trim_end_spec(trim_start_spec(s))
}

/// The views of a sequence of owned strings.
pub open spec fn views_of(v: Seq<String>) -> Seq<Seq<char>> {
    v.map_values(|x: String| x@)
}

pub proof fn lemma_split_colon_nonempty(s: Seq<char>)
    ensures
        split_colon(s).len() > 0,
    decreases s.len(),
{
    if s.len() > 0 {
        lemma_split_colon_nonempty(s.drop_last());
    }
}

proof fn lemma_drop_empty_push(segs: Seq<Seq<char>>, x: Seq<char>)
    ensures
        drop_empty(segs.push(x)) == if x.len() == 0 {
            drop_empty(segs)
        } else {
            drop_empty(segs).push(x)
        },
{
    assert(segs.push(x).drop_last() =~= segs);
    assert(segs.push(x).last() == x);
}

/// A digit string never shrinks in value when more digits follow.
proof fn lemma_dec_value_take_le(s: Seq<char>, i: int)
    requires
        0 <= i <= s.len(),
    ensures
        dec_value(s.take(i)) <= dec_value(s),
    decreases s.len() - i,
{
    if i < s.len() {
        assert(s.take(i) =~= s.drop_last().take(i));
        lemma_dec_value_take_le(s.drop_last(), i);
        assert(dec_value(s.drop_last()) <= dec_value(s.drop_last()) * 10);
    } else {
        assert(s.take(i) =~= s);
    }
}

/// Character-for-character string equality.
pub fn str_eq(a: &str, b: &str) -> (r: bool)
    ensures
        r == (a@ == b@),
{
    let n = a.unicode_len();
    if n != b.unicode_len() {
        return false;
    }
    let mut i: usize = 0;
    while i < n
        invariant
            n == a@.len(),
            n == b@.len(),
            0 <= i <= n,
            forall|j: int| 0 <= j < i ==> a@[j] == b@[j],
        decreases n - i,
    {
        if a.get_char(i) != b.get_char(i) {
            return false;
        }
        i += 1;
    }
    proof {
        assert(a@ =~= b@);
    }
    true
}

/// `needle` matches `hay` starting at position `k`.
fn match_at(hay: &str, needle: &str, k: usize) -> (r: bool)
    requires
        k + needle@.len() <= hay@.len(),
        hay@.len() <= usize::MAX,
    ensures
        r == (hay@.subrange(k as int, k + needle@.len() as int) == needle@),
{
    let m = needle.unicode_len();
    let mut i: usize = 0;
    while i < m
        invariant
            m == needle@.len(),
            k + m <= hay@.len(),
            hay@.len() <= usize::MAX,
            0 <= i <= m,
            forall|j: int| 0 <= j < i ==> hay@[k + j] == needle@[j],
        decreases m - i,
    {
        if hay.get_char(k + i) != needle.get_char(i) {
            proof {
                assert(hay@.subrange(k as int, k + m as int)[i as int] == hay@[k + i]);
            }
            return false;
        }
        i += 1;
    }
    proof {
        assert(hay@.subrange(k as int, k + m as int) =~= needle@);
    }
    true
}

/// Substring search over characters.
pub fn str_contains(hay: &str, needle: &str) -> (r: bool)
    ensures
        r == contains_seq(hay@, needle@),
{
    let n = hay.unicode_len();
    let m = needle.unicode_len();
    if m > n {
        return false;
    }
    if m == 0 {
        proof {
            assert(hay@.subrange(0, 0 + needle@.len() as int) =~= needle@);
            assert(contains_seq(hay@, needle@));
        }
        return true;
    }
    let mut k: usize = 0;
    while k <= n - m
        invariant
            n == hay@.len(),
            m == needle@.len(),
            1 <= m <= n,
            0 <= k <= n - m + 1,
            forall|j: int|
                0 <= j < k ==> #[trigger] hay@.subrange(j, j + m as int) != needle@,
        decreases n - m + 1 - k,
    {
        if match_at(hay, needle, k) {
            return true;
        }
        k += 1;
    }
    false
}

fn is_space_char(c: char) -> (r: bool)
    ensures
        r == is_space(c),
{
    c == ' ' || c == '\t' || c == '\n' || c == '\r' || c == '\u{0b}' || c == '\u{0c}'
}

/// Surrounding whitespace removed, as an owned string.
pub fn trim_str(s: &str) -> (r: String)
    ensures
        r@ == trim_spec(s@),
{
    let n = s.unicode_len();
    proof {
        assert(s@.subrange(0, n as int) =~= s@);
    }
    let mut lo: usize = 0;
    while lo < n && is_space_char(s.get_char(lo))
        invariant
            n == s@.len(),
            0 <= lo <= n,
            trim_start_spec(s@) == trim_start_spec(s@.subrange(lo as int, n as int)),
        decreases n - lo,
    {
        proof {
            assert(s@.subrange(lo as int, n as int).drop_first() =~= s@.subrange(
                lo + 1,
                n as int,
            ));
        }
        lo += 1;
    }
    proof {
        assert(trim_start_spec(s@) == s@.subrange(lo as int, n as int));
    }
    let mut hi: usize = n;
    while hi > lo && is_space_char(s.get_char(hi - 1))
        invariant
            n == s@.len(),
            0 <= lo <= hi <= n,
            trim_start_spec(s@) == s@.subrange(lo as int, n as int),
            trim_end_spec(s@.subrange(lo as int, n as int)) == trim_end_spec(
                s@.subrange(lo as int, hi as int),
            ),
        decreases hi,
    {
        proof {
            assert(s@.subrange(lo as int, hi as int).drop_last() =~= s@.subrange(
                lo as int,
                hi - 1,
            ));
        }
        hi -= 1;
    }
    proof {
        assert(trim_end_spec(s@.subrange(lo as int, hi as int)) == s@.subrange(
            lo as int,
            hi as int,
        ));
    }
    let piece = s.substring_char(lo, hi);
    piece.to_owned()
}

/// The non-empty `:`-separated segments of `s`, left to right.
pub fn split_segments(s: &str) -> (segs: Vec<String>)
    ensures
        views_of(segs@) == name_segments(s@),
{
    let n = s.unicode_len();
    let mut segs: Vec<String> = Vec::new();
    let ghost mut done: Seq<Seq<char>> = Seq::empty();
    proof {
        assert(s@.take(0) =~= Seq::<char>::empty());
        assert(s@.subrange(0, 0) =~= Seq::<char>::empty());
        assert(Seq::<Seq<char>>::empty().push(Seq::<char>::empty()) =~= seq![
            Seq::<char>::empty(),
        ]);
    }
    let mut start: usize = 0;
    let mut i: usize = 0;
    while i < n
        invariant
            n == s@.len(),
            0 <= start <= i <= n,
            split_colon(s@.take(i as int)) == done.push(s@.subrange(start as int, i as int)),
            views_of(segs@) == drop_empty(done),
        decreases n - i,
    {
        let c = s.get_char(i);
        proof {
            assert(s@.take(i + 1).drop_last() =~= s@.take(i as int));
        }
        if c == ':' {
            proof {
                assert(split_colon(s@.take(i + 1)) =~= done.push(
                    s@.subrange(start as int, i as int),
                ).push(Seq::<char>::empty()));
            }
            proof {
                lemma_drop_empty_push(done, s@.subrange(start as int, i as int));
            }
            if i > start {
                let piece = s.substring_char(start, i).to_owned();
                proof {
                    assert(views_of(segs@.push(piece)) =~= views_of(segs@).push(piece@));
                }
                segs.push(piece);
            }
            proof {
                done = done.push(s@.subrange(start as int, i as int));
            }
            start = i + 1;
            proof {
                assert(s@.subrange(start as int, i + 1) =~= Seq::<char>::empty());
            }
        } else {
            proof {
                let prev = done.push(s@.subrange(start as int, i as int));
                assert(prev.last() == s@.subrange(start as int, i as int));
                assert(prev.update(prev.len() - 1, prev.last().push(s@[i as int])) =~= done.push(
                    s@.subrange(start as int, i as int).push(s@[i as int]),
                ));
                assert(s@.subrange(start as int, i as int).push(s@[i as int]) =~= s@.subrange(
                    start as int,
                    i + 1,
                ));
            }
        }
        i += 1;
    }
    proof {
        assert(s@.take(n as int) =~= s@);
    }
    proof {
        lemma_drop_empty_push(done, s@.subrange(start as int, n as int));
    }
    if n > start {
        let piece = s.substring_char(start, n).to_owned();
        proof {
            assert(views_of(segs@.push(piece)) =~= views_of(segs@).push(piece@));
        }
        segs.push(piece);
    }
    segs
}

/// Parse a non-empty, all-digit string as a `u32`.
pub fn parse_u32(s: &str) -> (r: Option<u32>)
    ensures
        r == parse_u32_spec(s@),
{
    let n = s.unicode_len();
    if n == 0 {
        return None;
    }
    let mut acc: u64 = 0;
    let mut i: usize = 0;
    while i < n
        invariant
            n == s@.len(),
            0 < n,
            0 <= i <= n,
            forall|j: int| 0 <= j < i ==> is_digit(#[trigger] s@[j]),
            acc == dec_value(s@.take(i as int)),
            acc <= u32::MAX,
        decreases n - i,
    {
        let c = s.get_char(i);
        let u = c as u32;
        if u < 48 || u > 57 {
            return None;
        }
        proof {
            assert(s@.take(i + 1).drop_last() =~= s@.take(i as int));
        }
        let next: u64 = acc * 10 + ((u - 48) as u64);
        if next > u32::MAX as u64 {
            proof {
                lemma_dec_value_take_le(s@, i + 1);
            }
            return None;
        }
        acc = next;
        i += 1;
    }
    proof {
        assert(s@.take(n as int) =~= s@);
    }
    Some(acc as u32)
}

fn digit_str(d: u32) -> (r: &'static str)
    requires
        d < 10,
    ensures
        r@ == seq![digit_char(d as nat)],
{
    proof {
        reveal_strlit("0");
        reveal_strlit("1");
        reveal_strlit("2");
        reveal_strlit("3");
        reveal_strlit("4");
        reveal_strlit("5");
        reveal_strlit("6");
        reveal_strlit("7");
        reveal_strlit("8");
        reveal_strlit("9");
    }
    if d == 0 {
        "0"
    } else if d == 1 {
        "1"
    } else if d == 2 {
        "2"
    } else if d == 3 {
        "3"
    } else if d == 4 {
        "4"
    } else if d == 5 {
        "5"
    } else if d == 6 {
        "6"
    } else if d == 7 {
        "7"
    } else if d == 8 {
        "8"
    } else {
        "9"
    }
}

/// The decimal spelling of `n`, most significant digit first.
pub fn dec_string(n: u32) -> (r: String)
    ensures
        r@ == dec_seq(n as nat),
    decreases n,
{
    if n < 10 {
        String::from_str(digit_str(n))
    } else {
        proof {
            assert(n / 10 < n) by (nonlinear_arith)
                requires
                    n >= 10,
            ;
        }
        let mut s = dec_string(n / 10);
        s.append(digit_str(n % 10));
        proof {
            assert(dec_seq((n / 10) as nat) + seq![digit_char((n % 10) as nat)] =~= dec_seq(
                (n / 10) as nat,
            ).push(digit_char((n % 10) as nat)));
        }
        s
    }
}

/// Splitting distributes over a separator placed between two halves.
pub proof fn lemma_split_colon_concat(a: Seq<char>, b: Seq<char>)
    ensures
        split_colon(a + seq![':'] + b) == split_colon(a) + split_colon(b),
    decreases b.len(),
{
    let s = a + seq![':'] + b;
    if b.len() == 0 {
        assert(s =~= a + seq![':']);
        assert((a + seq![':']).last() == ':');
        assert((a + seq![':']).drop_last() =~= a);
        assert(split_colon(a).push(Seq::<char>::empty()) =~= split_colon(a) + split_colon(b));
    } else {
        lemma_split_colon_concat(a, b.drop_last());
        lemma_split_colon_nonempty(b.drop_last());
        assert(s.drop_last() =~= a + seq![':'] + b.drop_last());
        assert(s.last() == b.last());
        let r = split_colon(a) + split_colon(b.drop_last());
        assert(split_colon(s.drop_last()) == r);
        let rb = split_colon(b.drop_last());
        if b.last() == ':' {
            assert(split_colon(s) == r.push(Seq::<char>::empty()));
            assert(split_colon(b) == rb.push(Seq::<char>::empty()));
            assert(r.push(Seq::<char>::empty()) =~= split_colon(a) + rb.push(
                Seq::<char>::empty(),
            ));
        } else {
            assert(r.last() == rb.last());
            assert(split_colon(s) == r.update(r.len() - 1, r.last().push(b.last())));
            assert(split_colon(b) == rb.update(rb.len() - 1, rb.last().push(b.last())));
            assert(r.update(r.len() - 1, r.last().push(b.last())) =~= split_colon(a)
                + rb.update(rb.len() - 1, rb.last().push(b.last())));
        }
    }
}

/// A string without the separator is one single segment.
pub proof fn lemma_split_colon_whole(a: Seq<char>)
    requires
        forall|i: int| 0 <= i < a.len() ==> a[i] != ':',
    ensures
        split_colon(a) == seq![a],
    decreases a.len(),
{
    if a.len() == 0 {
        assert(a =~= Seq::<char>::empty());
        assert(split_colon(a) == seq![Seq::<char>::empty()]);
    } else {
        lemma_split_colon_whole(a.drop_last());
        assert(a.last() != ':');
        assert(a.drop_last().push(a.last()) =~= a);
        assert(seq![a.drop_last()].update(0, a.drop_last().push(a.last())) =~= seq![a]);
    }
}

} // verus!
