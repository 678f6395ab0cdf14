//! Verified helpers on character sequences: conversions between `String`
//! and `Vec<char>`, trimming, substring search, whitespace splitting and
//! joining, and decimal rendering of integers.

use vstd::prelude::*;
use vstd::std_specs::iter::IteratorSpec;

verus! {

broadcast use vstd::string::group_string_axioms;

/// Relies on `String::push`: appends exactly one character to the string.
#[verifier::external_body]
pub fn push_char(s: &mut String, c: char)
    ensures
        final(s)@ == old(s)@.push(c),
{
    s.push(c);
}

/// Collects the characters of a string slice into a vector.
pub fn chars_vec(s: &str) -> (v: Vec<char>)
    ensures
        v@ == s@,
{
    let mut v: Vec<char> = Vec::new();
    let mut it = s.chars();
    loop
        invariant
            v@ + it.remaining() == s@,
            it.decrease() is Some,
        ensures
            v@ == s@,
        decreases it.decrease()->0,
    {
        match it.next() {
            Some(c) => {
                v.push(c);
            },
            None => {
                proof {
                    assert(v@ =~= s@);
                }
                break ;
            },
        }
    }
    v
}

/// Builds a string whose characters are exactly those of the vector.
pub fn from_chars(v: &Vec<char>) -> (s: String)
    ensures
        s@ == v@,
{
    let mut s = String::new();
    let mut i: usize = 0;
    while i < v.len()
        invariant
            i <= v.len(),
            s@ == v@.subrange(0, i as int),
        decreases v.len() - i,
    {
        push_char(&mut s, v[i]);
        proof {
            assert(s@ =~= v@.subrange(0, i + 1 as int));
        }
        i = i + 1;
    }
    proof {
        assert(s@ =~= v@);
    }
    s
}

/// Characters treated as whitespace when trimming and splitting command
/// lines: space, tab, line feed and carriage return.
pub open spec fn is_ws_char(c: char) -> bool {
    c == ' ' || c == '\t' || c == '\n' || c == '\r'
}

/// Executable mirror of `is_ws_char`.
pub fn is_ws(c: char) -> (b: bool)
    ensures
        b == is_ws_char(c),
{
    c == ' ' || c == '\t' || c == '\n' || c == '\r'
}

/// The sequence without its leading whitespace characters.
pub open spec fn drop_leading_ws(s: Seq<char>) -> Seq<char>
    decreases s.len(),
{
    if s.len() > 0 && is_ws_char(s[0]) {
        drop_leading_ws(s.drop_first())
    } else {
        s
    }
}

/// The sequence without its trailing whitespace characters.
pub open spec fn drop_trailing_ws(s: Seq<char>) -> Seq<char>
    decreases s.len(),
{
    if s.len() > 0 && is_ws_char(s.last()) {
        drop_trailing_ws(s.drop_last())
    } else {
        s
    }
}

/// The sequence without leading and trailing whitespace.
pub open spec fn trim_spec(s: Seq<char>) -> Seq<char> {
    drop_trailing_ws(drop_leading_ws(s))
}

proof fn lemma_drop_leading_ws(s: Seq<char>, i: int)
    requires
        0 <= i <= s.len(),
        forall|j: int| 0 <= j < i ==> is_ws_char(s[j]),
        i < s.len() ==> !is_ws_char(s[i]),
    ensures
        drop_leading_ws(s) =~= s.subrange(i, s.len() as int),
    decreases i,
{
    if i == 0 {
        if s.len() > 0 && is_ws_char(s[0]) {
        } else {
            assert(drop_leading_ws(s) =~= s.subrange(0, s.len() as int));
        }
    } else {
        assert(is_ws_char(s[0]));
        let t = s.drop_first();
        assert(forall|j: int| 0 <= j < i - 1 ==> is_ws_char(t[j]));
        lemma_drop_leading_ws(t, i - 1);
        assert(t.subrange(i - 1, t.len() as int) =~= s.subrange(i, s.len() as int));
    }
}

proof fn lemma_drop_trailing_ws(s: Seq<char>, i: int)
    requires
        0 <= i <= s.len(),
        forall|j: int| i <= j < s.len() ==> is_ws_char(s[j]),
        i > 0 ==> !is_ws_char(s[i - 1]),
    ensures
        drop_trailing_ws(s) =~= s.subrange(0, i),
    decreases s.len(),
{
    if i == s.len() {
        if s.len() > 0 && is_ws_char(s.last()) {
        } else {
            assert(drop_trailing_ws(s) =~= s.subrange(0, i));
        }
    } else {
        assert(is_ws_char(s.last()));
        let t = s.drop_last();
        lemma_drop_trailing_ws(t, i);
        assert(t.subrange(0, i) =~= s.subrange(0, i));
    }
}

/// Copies `v` without leading and trailing whitespace characters.
pub fn trim_chars(v: &Vec<char>) -> (r: Vec<char>)
    ensures
        r@ == trim_spec(v@),
{
    let mut lo: usize = 0;
    while lo < v.len() && is_ws(v[lo])
        invariant
            lo <= v.len(),
            forall|j: int| 0 <= j < lo ==> is_ws_char(v@[j]),
        decreases v.len() - lo,
    {
        lo = lo + 1;
    }
    let mut hi: usize = v.len();
    while hi > lo && is_ws(v[hi - 1])
        invariant
            lo <= hi <= v.len(),
            forall|j: int| hi <= j < v.len() ==> is_ws_char(v@[j]),
        decreases hi,
    {
        hi = hi - 1;
    }
    let mut r: Vec<char> = Vec::new();
    let mut i: usize = lo;
    while i < hi
        invariant
            lo <= i <= hi <= v.len(),
            r@ == v@.subrange(lo as int, i as int),
        decreases hi - i,
    {
        r.push(v[i]);
        proof {
            assert(r@ =~= v@.subrange(lo as int, i + 1 as int));
        }
        i = i + 1;
    }
    proof {
        lemma_drop_leading_ws(v@, lo as int);
        let mid = v@.subrange(lo as int, v@.len() as int);
        if hi == lo {
            lemma_drop_trailing_ws(mid, 0);
        } else {
            assert(!is_ws_char(mid[hi - lo - 1]));
            lemma_drop_trailing_ws(mid, hi - lo);
        }
        assert(mid.subrange(0, hi - lo) =~= v@.subrange(lo as int, hi as int));
    }
    r
}

/// The sequence without its leading NUL characters.
pub open spec fn drop_leading_nul(s: Seq<char>) -> Seq<char>
    decreases s.len(),
{
    if s.len() > 0 && s[0] == '\0' {
        drop_leading_nul(s.drop_first())
    } else {
        s
    }
}

/// The sequence without its trailing NUL characters.
pub open spec fn drop_trailing_nul(s: Seq<char>) -> Seq<char>
    decreases s.len(),
{
    if s.len() > 0 && s.last() == '\0' {
        drop_trailing_nul(s.drop_last())
    } else {
        s
    }
}

/// The sequence without leading and trailing NUL characters.
pub open spec fn trim_nul_spec(s: Seq<char>) -> Seq<char> {
    drop_trailing_nul(drop_leading_nul(s))
}

proof fn lemma_drop_leading_nul(s: Seq<char>, i: int)
    requires
        0 <= i <= s.len(),
        forall|j: int| 0 <= j < i ==> s[j] == '\0',
        i < s.len() ==> s[i] != '\0',
    ensures
        drop_leading_nul(s) =~= s.subrange(i, s.len() as int),
    decreases i,
{
    if i == 0 {
        if s.len() > 0 && s[0] == '\0' {
        } else {
            assert(drop_leading_nul(s) =~= s.subrange(0, s.len() as int));
        }
    } else {
        assert(s[0] == '\0');
        let t = s.drop_first();
        assert(forall|j: int| 0 <= j < i - 1 ==> t[j] == '\0');
        lemma_drop_leading_nul(t, i - 1);
        assert(t.subrange(i - 1, t.len() as int) =~= s.subrange(i, s.len() as int));
    }
}

proof fn lemma_drop_trailing_nul(s: Seq<char>, i: int)
    requires
        0 <= i <= s.len(),
        forall|j: int| i <= j < s.len() ==> s[j] == '\0',
        i > 0 ==> s[i - 1] != '\0',
    ensures
        drop_trailing_nul(s) =~= s.subrange(0, i),
    decreases s.len(),
{
    if i == s.len() {
        if s.len() > 0 && s.last() == '\0' {
        } else {
            assert(drop_trailing_nul(s) =~= s.subrange(0, i));
        }
    } else {
        assert(s.last() == '\0');
        let t = s.drop_last();
        lemma_drop_trailing_nul(t, i);
        assert(t.subrange(0, i) =~= s.subrange(0, i));
    }
}

/// Copies `v` without leading and trailing NUL characters.
pub fn trim_nul_chars(v: &Vec<char>) -> (r: Vec<char>)
    ensures
        r@ == trim_nul_spec(v@),
{
    let mut lo: usize = 0;
    while lo < v.len() && v[lo] == '\0'
        invariant
            lo <= v.len(),
            forall|j: int| 0 <= j < lo ==> v@[j] == '\0',
        decreases v.len() - lo,
    {
        lo = lo + 1;
    }
    let mut hi: usize = v.len();
    while hi > lo && v[hi - 1] == '\0'
        invariant
            lo <= hi <= v.len(),
            forall|j: int| hi <= j < v.len() ==> v@[j] == '\0',
        decreases hi,
    {
        hi = hi - 1;
    }
    let r = sub_chars(v, lo, hi);
    proof {
        lemma_drop_leading_nul(v@, lo as int);
        let mid = v@.subrange(lo as int, v@.len() as int);
        if hi == lo {
            lemma_drop_trailing_nul(mid, 0);
        } else {
            assert(mid[hi - lo - 1] != '\0');
            lemma_drop_trailing_nul(mid, hi - lo);
        }
        assert(mid.subrange(0, hi - lo) =~= v@.subrange(lo as int, hi as int));
    }
    r
}

/// `needle` occurs in `hay` starting at position `i`.
pub open spec fn contains_at(hay: Seq<char>, needle: Seq<char>, i: int) -> bool {
    0 <= i && i + needle.len() <= hay.len() && hay.subrange(i, i + needle.len()) == needle
}

/// `needle` occurs somewhere in `hay`.
pub open spec fn contains_seq(hay: Seq<char>, needle: Seq<char>) -> bool {
    exists|i: int| contains_at(hay, needle, i)
}

/// Substring search: whether `needle` occurs in `hay`.
pub fn contains_chars(hay: &Vec<char>, needle: &Vec<char>) -> (b: bool)
    ensures
        b == contains_seq(hay@, needle@),
{
    if needle.len() > hay.len() {
        proof {
            assert(forall|i: int| !contains_at(hay@, needle@, i));
        }
        return false;
    }
    if needle.len() == 0 {
        proof {
            assert(hay@.subrange(0, 0) =~= needle@);
            assert(contains_at(hay@, needle@, 0));
        }
        return true;
    }
    let mut i: usize = 0;
    while i <= hay.len() - needle.len()
        invariant
            1 <= needle.len() <= hay.len(),
            i <= hay.len() - needle.len() + 1,
            forall|k: int| 0 <= k < i ==> !contains_at(hay@, needle@, k),
        decreases hay.len() - i,
    {
        let mut j: usize = 0;
        let mut matched = true;
        while j < needle.len()
            invariant
                needle.len() <= hay.len(),
                i + needle.len() <= hay.len(),
                j <= needle.len(),
                matched ==> forall|t: int| 0 <= t < j ==> hay@[i + t] == needle@[t],
                !matched ==> !contains_at(hay@, needle@, i as int),
            decreases needle.len() - j,
        {
            if hay[i + j] != needle[j] {
                proof {
                    if contains_at(hay@, needle@, i as int) {
                        assert(hay@.subrange(i as int, i + needle@.len())[j as int] == needle@[j as int]);
                    }
                }
                matched = false;
                j = needle.len();
            } else {
                j = j + 1;
            }
        }
        if matched {
            proof {
                assert(hay@.subrange(i as int, i + needle@.len()) =~= needle@);
                assert(contains_at(hay@, needle@, i as int));
            }
            return true;
        }
        i = i + 1;
    }
    proof {
        assert(forall|k: int| contains_at(hay@, needle@, k) ==> 0 <= k <= hay@.len() - needle@.len());
        assert(forall|k: int| !contains_at(hay@, needle@, k));
    }
    false
}

/// Whether the string `needle` occurs in the string `hay`.
pub fn string_contains(hay: &str, needle: &str) -> (b: bool)
    ensures
        b == contains_seq(hay@, needle@),
{
    let h = chars_vec(hay);
    let n = chars_vec(needle);
    contains_chars(&h, &n)
}

/// Splitting on whitespace, carrying the word built so far: whitespace ends
/// the current word (empty words are not kept), any other character extends
/// it.
pub open spec fn split_ws_acc(s: Seq<char>, cur: Seq<char>) -> Seq<Seq<char>>
    decreases s.len(),
{
    if s.len() == 0 {
        if cur.len() > 0 {
            seq![cur]
        } else {
            Seq::empty()
        }
    } else if is_ws_char(s[0]) {
        if cur.len() > 0 {
            seq![cur] + split_ws_acc(s.drop_first(), Seq::empty())
        } else {
            split_ws_acc(s.drop_first(), Seq::empty())
        }
    } else {
        split_ws_acc(s.drop_first(), cur.push(s[0]))
    }
}

/// The whitespace-separated words of `s`, in order, without empties.
pub open spec fn split_ws_spec(s: Seq<char>) -> Seq<Seq<char>> {
    split_ws_acc(s, Seq::empty())
}

/// Splits a character sequence into its whitespace-separated words.
pub fn split_whitespace(v: &Vec<char>) -> (r: Vec<String>)
    ensures
        r.deep_view() == split_ws_spec(v@),
{
    let mut out: Vec<String> = Vec::new();
    let mut cur: Vec<char> = Vec::new();
    let mut i: usize = 0;
    proof {
        assert(v@.subrange(0, v@.len() as int) =~= v@);
        assert(out.deep_view() + split_ws_acc(v@, Seq::empty()) =~= split_ws_spec(v@));
    }
    while i < v.len()
        invariant
            i <= v.len(),
            split_ws_spec(v@) == out.deep_view() + split_ws_acc(
                v@.subrange(i as int, v@.len() as int),
                cur@,
            ),
        decreases v.len() - i,
    {
        let ghost pre = v@.subrange(i as int, v@.len() as int);
        proof {
            assert(pre.drop_first() =~= v@.subrange(i + 1 as int, v@.len() as int));
        }
        if is_ws(v[i]) {
            if cur.len() > 0 {
                let w = from_chars(&cur);
                out.push(w);
                cur = Vec::new();
                proof {
                    assert(out.deep_view() =~= out.deep_view().drop_last().push(w@));
                    assert(out.deep_view().drop_last() + (seq![w@] + split_ws_acc(pre.drop_first(), Seq::empty()))
                        =~= out.deep_view() + split_ws_acc(pre.drop_first(), Seq::empty()));
                }
            } else {
                cur = Vec::new();
            }
        } else {
            cur.push(v[i]);
        }
        i = i + 1;
    }
    proof {
        assert(v@.subrange(v@.len() as int, v@.len() as int) =~= Seq::<char>::empty());
    }
    if cur.len() > 0 {
        let w = from_chars(&cur);
        out.push(w);
        proof {
            assert(out.deep_view() =~= out.deep_view().drop_last().push(w@));
        }
    }
    proof {
        assert(split_ws_spec(v@) =~= out.deep_view());
    }
    out
}

/// What follows the first word when joining with single spaces: each further
/// word is preceded by one space.
pub open spec fn join_tail(parts: Seq<Seq<char>>) -> Seq<char>
    decreases parts.len(),
{
    if parts.len() == 0 {
        Seq::empty()
    } else {
        seq![' '] + parts[0] + join_tail(parts.drop_first())
    }
}

/// The words joined with a single space between consecutive words.
pub open spec fn join_spaces_spec(parts: Seq<Seq<char>>) -> Seq<char> {
    if parts.len() == 0 {
        Seq::empty()
    } else {
        parts[0] + join_tail(parts.drop_first())
    }
}

/// Joins the strings with a single space between consecutive entries.
pub fn join_spaces(args: &Vec<String>) -> (r: String)
    ensures
        r@ == join_spaces_spec(args.deep_view()),
{
    let mut r = String::new();
    if args.len() == 0 {
        return r;
    }
    r.append(args[0].as_str());
    let mut i: usize = 1;
    while i < args.len()
        invariant
            1 <= i <= args.len(),
            join_spaces_spec(args.deep_view()) == r@ + join_tail(
                args.deep_view().subrange(i as int, args.deep_view().len() as int),
            ),
        decreases args.len() - i,
    {
        let ghost pre = args.deep_view().subrange(i as int, args.deep_view().len() as int);
        proof {
            assert(pre.drop_first() =~= args.deep_view().subrange(
                i + 1 as int,
                args.deep_view().len() as int,
            ));
        }
        push_char(&mut r, ' ');
        r.append(args[i].as_str());
        proof {
            assert(args.deep_view()[i as int] == args@[i as int]@);
            assert(r@ + join_tail(pre.drop_first()) =~= join_spaces_spec(args.deep_view()));
        }
        i = i + 1;
    }
    proof {
        assert(args.deep_view().subrange(args.deep_view().len() as int, args.deep_view().len() as int)
            =~= Seq::<Seq<char>>::empty());
        assert(r@ =~= join_spaces_spec(args.deep_view()));
    }
    r
}

/// The decimal digit character for `n` (0 through 9).
pub open spec fn dec_digit(n: int) -> char {
    if n == 0 {
        '0'
    } else if n == 1 {
        '1'
    } else if n == 2 {
        '2'
    } else if n == 3 {
        '3'
    } else if n == 4 {
        '4'
    } else if n == 5 {
        '5'
    } else if n == 6 {
        '6'
    } else if n == 7 {
        '7'
    } else if n == 8 {
        '8'
    } else {
        '9'
    }
}

/// The decimal digit characters of `n`, most significant first, with no
/// leading zeros (a single '0' for zero).
pub open spec fn dec_str(n: nat) -> Seq<char>
    decreases n,
{
    if n < 10 {
        seq![dec_digit(n as int)]
    } else {
        dec_str(n / 10).push(dec_digit((n % 10) as int))
    }
}

fn dec_digit_exec(n: u64) -> (c: char)
    requires
        n < 10,
    ensures
        c == dec_digit(n as int),
{
    match n {
        0 => '0',
        1 => '1',
        2 => '2',
        3 => '3',
        4 => '4',
        5 => '5',
        6 => '6',
        7 => '7',
        8 => '8',
        _ => '9',
    }
}

fn dec_digits_rec(n: u64, out: &mut Vec<char>)
    ensures
        final(out)@ == old(out)@ + dec_str(n as nat),
    decreases n,
{
    if n < 10 {
        out.push(dec_digit_exec(n));
        proof {
            assert(out@ =~= old(out)@ + dec_str(n as nat));
        }
    } else {
        dec_digits_rec(n / 10, out);
        out.push(dec_digit_exec(n % 10));
        proof {
            assert(out@ =~= old(out)@ + dec_str(n as nat));
        }
    }
}

/// Copies the characters of `v` between positions `a` and `b`.
pub fn sub_chars(v: &Vec<char>, a: usize, b: usize) -> (r: Vec<char>)
    requires
        a <= b <= v.len(),
    ensures
        r@ == v@.subrange(a as int, b as int),
{
    let mut r: Vec<char> = Vec::new();
    let mut i: usize = a;
    while i < b
        invariant
            a <= i <= b <= v@.len(),
            r@ == v@.subrange(a as int, i as int),
        decreases b - i,
    {
        r.push(v[i]);
        proof {
            assert(r@ =~= v@.subrange(a as int, i + 1 as int));
        }
        i = i + 1;
    }
    r
}

/// The first `n` characters of `s`, or all of `s` when it is shorter.
pub fn prefix_chars(s: &str, n: usize) -> (r: String)
    ensures
        n <= s@.len() ==> r@ == s@.take(n as int),
        n > s@.len() ==> r@ == s@,
{
    let v = chars_vec(s);
    if n <= v.len() {
        let p = sub_chars(&v, 0, n);
        proof {
            assert(v@.subrange(0, n as int) =~= s@.take(n as int));
        }
        from_chars(&p)
    } else {
        from_chars(&v)
    }
}

/// The decimal rendering of a possibly negative integer: a minus sign
/// followed by the digits of its magnitude.
pub open spec fn dec_str_i(n: int) -> Seq<char> {
    if n < 0 {
        seq!['-'] + dec_str((-n) as nat)
    } else {
        dec_str(n as nat)
    }
}

/// Renders a signed integer in decimal.
pub fn i32_to_dec(n: i32) -> (r: String)
    ensures
        r@ == dec_str_i(n as int),
{
    let mut digits: Vec<char> = Vec::new();
    if n < 0 {
        digits.push('-');
        let m: u64 = (-(n as i64)) as u64;
        dec_digits_rec(m, &mut digits);
        proof {
            assert(digits@ =~= dec_str_i(n as int));
        }
    } else {
        dec_digits_rec(n as u64, &mut digits);
        proof {
            assert(digits@ =~= dec_str_i(n as int));
        }
    }
    from_chars(&digits)
}

/// Renders `n` in decimal.
pub fn u64_to_dec(n: u64) -> (r: String)
    ensures
        r@ == dec_str(n as nat),
{
    let mut digits: Vec<char> = Vec::new();
    dec_digits_rec(n, &mut digits);
    proof {
        assert(digits@ =~= dec_str(n as nat));
    }
    from_chars(&digits)
}

} // verus!
