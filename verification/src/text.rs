//! Verified character-sequence utilities.
//!
//! The library does all of its string work on `Vec<char>` values, converted
//! at the boundary by the two trusted conversions below, so that every
//! comparison, search and edit is verified against a `Seq<char>` model.

use vstd::prelude::*;

verus! {

/// ASCII-lowercase of one character; anything but `A`..`Z` is unchanged.
pub open spec fn lower_char_spec(c: char) -> char {
    if 65 <= c as u32 && c as u32 <= 90 {
        (((c as u32) + 32) as u8) as char
    } else {
        c
    }
}

/// Pointwise ASCII-lowercasing of a character sequence.
pub open spec fn lower_seq(s: Seq<char>) -> Seq<char> {
    s.map_values(|c: char| lower_char_spec(c))
}

/// ASCII-case-insensitive equality of two character sequences.
pub open spec fn eq_ignore_case_spec(a: Seq<char>, b: Seq<char>) -> bool {
    lower_seq(a) == lower_seq(b)
}

/// Relies on str::chars: yields exactly the string's characters in order.
#[verifier::external_body]
pub(crate) fn str_chars(s: &str) -> (r: Vec<char>)
    ensures
        r@ == s@,
{
    s.chars().collect()
}

/// Relies on String's FromIterator<char>: builds the string of exactly these characters.
#[verifier::external_body]
pub(crate) fn chars_string(v: &Vec<char>) -> (r: String)
    ensures
        r@ == v@,
{
    v.iter().collect()
}

/// ASCII-lowercase one character.
pub fn lower_char(c: char) -> (r: char)
    ensures
        r == lower_char_spec(c),
{
    let u = c as u32;
    if 65 <= u && u <= 90 {
        ((u + 32) as u8) as char
    } else {
        c
    }
}

/// ASCII-lowercase a character vector.
pub fn to_lower(v: &Vec<char>) -> (r: Vec<char>)
    ensures
        r@ == lower_seq(v@),
{
    let mut r: Vec<char> = Vec::new();
    let mut i: usize = 0;
    while i < v.len()
        invariant
            i <= v.len(),
            r@.len() == i,
            forall|j: int| 0 <= j < i ==> r@[j] == lower_char_spec(v@[j]),
        decreases v.len() - i,
    {
        r.push(lower_char(v[i]));
        i = i + 1;
    }
    assert(r@ =~= lower_seq(v@));
    r
}

/// Equality of two character vectors.
pub fn chars_eq(a: &Vec<char>, b: &Vec<char>) -> (r: bool)
    ensures
        r == (a@ == b@),
{
    if a.len() != b.len() {
        return false;
    }
    let mut i: usize = 0;
    while i < a.len()
        invariant
            i <= a.len(),
            a@.len() == b@.len(),
            forall|j: int| 0 <= j < i ==> a@[j] == b@[j],
        decreases a.len() - i,
    {
        if a[i] != b[i] {
            return false;
        }
        i = i + 1;
    }
    assert(a@ =~= b@);
    true
}

/// Equality of a character vector and a string.
pub fn chars_eq_str(a: &Vec<char>, s: &str) -> (r: bool)
    ensures
        r == (a@ == s@),
{
    let sv = str_chars(s);
    chars_eq(a, &sv)
}

/// ASCII-case-insensitive equality of two character vectors.
pub fn chars_eq_ignore_case(a: &Vec<char>, b: &Vec<char>) -> (r: bool)
    ensures
        r == eq_ignore_case_spec(a@, b@),
{
    let la = to_lower(a);
    let lb = to_lower(b);
    chars_eq(&la, &lb)
}

/// `sub` occurs in `s` starting at index `i`.
pub open spec fn match_at(s: Seq<char>, sub: Seq<char>, i: int) -> bool {
    0 <= i && i + sub.len() <= s.len() && s.subrange(i, i + sub.len()) == sub
}

/// `sub` occurs somewhere in `s`.
pub open spec fn contains_sub(s: Seq<char>, sub: Seq<char>) -> bool {
    exists|i: int| match_at(s, sub, i)
}

/// `s` starts with `p`.
pub open spec fn starts_with_spec(s: Seq<char>, p: Seq<char>) -> bool {
    p.len() <= s.len() && s.subrange(0, p.len() as int) == p
}

/// `s` ends with `p`.
pub open spec fn ends_with_spec(s: Seq<char>, p: Seq<char>) -> bool {
    p.len() <= s.len() && s.subrange(s.len() - p.len(), s.len() as int) == p
}

/// Does `sub` occur in `v` at index `i`?
pub fn chars_match_at(v: &Vec<char>, sub: &Vec<char>, i: usize) -> (r: bool)
    requires
        i + sub@.len() <= v@.len(),
    ensures
        r == match_at(v@, sub@, i as int),
{
    let n = v.len();
    let m = sub.len();
    let mut j: usize = 0;
    while j < m
        invariant
            j <= m,
            m == sub@.len(),
            n == v@.len(),
            i + m <= n,
            forall|k: int| 0 <= k < j ==> v@[i + k] == sub@[k],
        decreases m - j,
    {
        if v[i + j] != sub[j] {
            assert(v@.subrange(i as int, i + sub@.len())[j as int] == v@[i + j]);
            return false;
        }
        j = j + 1;
    }
    assert(v@.subrange(i as int, i + sub@.len()) =~= sub@);
    true
}

/// Index of the first occurrence of `sub` in `v`, if any.
pub fn find_sub(v: &Vec<char>, sub: &Vec<char>) -> (r: Option<usize>)
    ensures
        match r {
            Some(i) => match_at(v@, sub@, i as int) && forall|j: int|
                0 <= j < i ==> !match_at(v@, sub@, j),
            None => !contains_sub(v@, sub@),
        },
{
    if sub.len() > v.len() {
        return None;
    }
    if sub.len() == 0 {
        assert(v@.subrange(0, 0) =~= sub@);
        return Some(0);
    }
    let n = v.len();
    let m = sub.len();
    let mut i: usize = 0;
    while i <= n - m
        invariant
            m == sub@.len(),
            n == v@.len(),
            1 <= m <= n,
            i <= n - m + 1,
            forall|j: int| 0 <= j < i ==> !match_at(v@, sub@, j),
        decreases n - i,
    {
        if chars_match_at(v, sub, i) {
            return Some(i);
        }
        i = i + 1;
    }
    assert(forall|j: int| match_at(v@, sub@, j) ==> 0 <= j <= v@.len() - sub@.len());
    None
}

/// Does `sub` occur anywhere in `v`?
pub fn chars_contain(v: &Vec<char>, sub: &Vec<char>) -> (r: bool)
    ensures
        r == contains_sub(v@, sub@),
{
    match find_sub(v, sub) {
        Some(_) => true,
        None => false,
    }
}

/// Does `v` contain the string `sub`?
pub fn chars_contain_str(v: &Vec<char>, sub: &str) -> (r: bool)
    ensures
        r == contains_sub(v@, sub@),
{
    let sv = str_chars(sub);
    chars_contain(v, &sv)
}

/// Does `v` start with `p`?
pub fn chars_start_with(v: &Vec<char>, p: &Vec<char>) -> (r: bool)
    ensures
        r == starts_with_spec(v@, p@),
{
    if p.len() > v.len() {
        return false;
    }
    chars_match_at(v, p, 0)
}

/// Does `v` end with `p`?
pub fn chars_end_with(v: &Vec<char>, p: &Vec<char>) -> (r: bool)
    ensures
        r == ends_with_spec(v@, p@),
{
    if p.len() > v.len() {
        return false;
    }
    let r = chars_match_at(v, p, v.len() - p.len());
    assert(v@.subrange(v@.len() - p@.len(), v@.len() as int) =~= v@.subrange(
        (v.len() - p.len()) as int,
        v.len() - p.len() + p@.len(),
    ));
    r
}

/// Does `v` end with the string `p`?
pub fn chars_end_with_str(v: &Vec<char>, p: &str) -> (r: bool)
    ensures
        r == ends_with_spec(v@, p@),
{
    let pv = str_chars(p);
    chars_end_with(v, &pv)
}

/// Append a copy of `src` to `dst`.
pub fn append_chars(dst: &mut Vec<char>, src: &Vec<char>)
    ensures
        final(dst)@ == old(dst)@ + src@,
{
    dst.extend_from_slice(src.as_slice());
}

/// Append the characters of a string to `dst`.
pub fn append_str(dst: &mut Vec<char>, src: &str)
    ensures
        final(dst)@ == old(dst)@ + src@,
{
    let sv = str_chars(src);
    append_chars(dst, &sv);
}

/// Copy a character vector.
pub fn copy_chars(v: &Vec<char>) -> (r: Vec<char>)
    ensures
        r@ == v@,
{
    let mut r: Vec<char> = Vec::new();
    append_chars(&mut r, v);
    assert(r@ =~= v@);
    r
}

/// The decimal digit character for `d` (0 to 9).
pub open spec fn dec_digit(d: int) -> char {
    ((48 + d) as u8) as char
}

/// The decimal representation of `n`, most significant digit first.
pub open spec fn dec_seq(n: int) -> Seq<char>
    decreases n,
{
    if n < 10 {
        seq![dec_digit(n)]
    } else {
        dec_seq(n / 10).push(dec_digit(n % 10))
    }
}

/// Decimal digits of `n`.
pub fn u64_dec_chars(n: u64) -> (r: Vec<char>)
    ensures
        r@ == dec_seq(n as int),
    decreases n,
{
    if n < 10 {
        let mut r: Vec<char> = Vec::new();
        r.push((48 + (n as u8)) as char);
        assert(r@ =~= seq![dec_digit(n as int)]);
        r
    } else {
        let mut r = u64_dec_chars(n / 10);
        r.push((48 + ((n % 10) as u8)) as char);
        r
    }
}

/// Every occurrence of `from` in `s`, scanning left to right, replaced by
/// `to`; an empty `from` leaves `s` unchanged.
pub open spec fn replace_spec(s: Seq<char>, from: Seq<char>, to: Seq<char>) -> Seq<char>
    decreases s.len(),
{
    if from.len() == 0 || s.len() == 0 {
        s
    } else if starts_with_spec(s, from) {
        to + replace_spec(s.skip(from.len() as int), from, to)
    } else {
        seq![s[0]] + replace_spec(s.skip(1), from, to)
    }
}

/// Replace every occurrence of `from` by `to`, scanning left to right.
pub fn replace_chars(v: &Vec<char>, from: &Vec<char>, to: &Vec<char>) -> (r: Vec<char>)
    ensures
        r@ == replace_spec(v@, from@, to@),
{
    if from.len() == 0 {
        return copy_chars(v);
    }
    let n = v.len();
    let m = from.len();
    let mut r: Vec<char> = Vec::new();
    let mut i: usize = 0;
    assert(v@.skip(0) =~= v@);
    while i < n
        invariant
            i <= n,
            n == v@.len(),
            m == from@.len(),
            1 <= m,
            replace_spec(v@, from@, to@) == r@ + replace_spec(v@.skip(i as int), from@, to@),
        decreases n - i,
    {
        let ghost tail = v@.skip(i as int);
        if m <= n - i && chars_match_at(v, from, i) {
            append_chars(&mut r, to);
            proof {
                assert(tail.subrange(0, m as int) =~= v@.subrange(i as int, i + m));
                assert(starts_with_spec(tail, from@));
                assert(tail.skip(m as int) =~= v@.skip(i + m));
            }
            i = i + m;
        } else {
            proof {
                if i + m <= n {
                    assert(tail.subrange(0, m as int) =~= v@.subrange(i as int, i + m));
                }
                assert(!starts_with_spec(tail, from@));
                assert(tail.skip(1) =~= v@.skip(i as int + 1));
                assert(seq![tail[0]] =~= seq![v@[i as int]]);
            }
            r.push(v[i]);
            i = i + 1;
        }
    }
    assert(v@.skip(n as int) =~= Seq::<char>::empty());
    r
}

/// Replace occurrences of the string `from` by the string `to`.
pub fn replace_str(v: &Vec<char>, from: &str, to: &str) -> (r: Vec<char>)
    ensures
        r@ == replace_spec(v@, from@, to@),
{
    let fv = str_chars(from);
    let tv = str_chars(to);
    replace_chars(v, &fv, &tv)
}

/// `s` split at every occurrence of `sep`; always at least one piece, and
/// none of the pieces contains `sep`.
pub open spec fn split_spec(s: Seq<char>, sep: char) -> Seq<Seq<char>>
    decreases s.len(),
{
    if s.len() == 0 {
        seq![Seq::<char>::empty()]
    } else if s[0] == sep {
        seq![Seq::<char>::empty()] + split_spec(s.skip(1), sep)
    } else {
        let rest = split_spec(s.skip(1), sep);
        rest.update(0, seq![s[0]] + rest[0])
    }
}

/// `split_spec` never returns an empty piece list.
pub proof fn lemma_split_nonempty(s: Seq<char>, sep: char)
    ensures
        split_spec(s, sep).len() >= 1,
    decreases s.len(),
{
    if s.len() == 0 {
    } else if s[0] == sep {
        lemma_split_nonempty(s.skip(1), sep);
    } else {
        lemma_split_nonempty(s.skip(1), sep);
    }
}

/// The first piece of a split, prefixed by `c`, with the remaining pieces
/// unchanged.
pub open spec fn prefix_first(c: Seq<char>, pieces: Seq<Seq<char>>) -> Seq<Seq<char>> {
    pieces.update(0, c + pieces[0])
}

/// Split `v` at every occurrence of `sep`.
pub fn split_chars(v: &Vec<char>, sep: char) -> (r: Vec<Vec<char>>)
    ensures
        r.deep_view() == split_spec(v@, sep),
{
    let n = v.len();
    let mut out: Vec<Vec<char>> = Vec::new();
    let mut cur: Vec<char> = Vec::new();
    let mut i: usize = 0;
    assert(v@.skip(0) =~= v@);
    proof {
        lemma_split_nonempty(v@, sep);
        assert(prefix_first(Seq::<char>::empty(), split_spec(v@, sep)) =~= split_spec(v@, sep));
    }
    while i < n
        invariant
            i <= n,
            n == v@.len(),
            split_spec(v@, sep) == out.deep_view() + prefix_first(
                cur@,
                split_spec(v@.skip(i as int), sep),
            ),
        decreases n - i,
    {
        let ghost tail = v@.skip(i as int);
        proof {
            assert(tail.skip(1) =~= v@.skip(i as int + 1));
            lemma_split_nonempty(tail.skip(1), sep);
        }
        if v[i] == sep {
            let ghost out0 = out.deep_view();
            let done = cur;
            cur = Vec::new();
            out.push(done);
            proof {
                let rest = split_spec(v@.skip(i as int + 1), sep);
                assert(split_spec(tail, sep) == seq![Seq::<char>::empty()] + rest);
                assert(prefix_first(done@, split_spec(tail, sep)) =~~= seq![done@] + rest);
                assert(prefix_first(Seq::<char>::empty(), rest) =~~= rest);
                assert(out.deep_view() =~~= out0 + seq![done@]);
                assert(out0 + (seq![done@] + rest) =~~= (out0 + seq![done@]) + rest);
            }
        } else {
            proof {
                let rest = split_spec(v@.skip(i as int + 1), sep);
                assert(split_spec(tail, sep) == rest.update(0, seq![tail[0]] + rest[0]));
                assert(prefix_first(cur@, split_spec(tail, sep)) =~~= prefix_first(
                    cur@.push(v@[i as int]),
                    rest,
                ));
            }
            cur.push(v[i]);
        }
        i = i + 1;
    }
    let ghost out0 = out.deep_view();
    proof {
        assert(v@.skip(n as int) =~= Seq::<char>::empty());
        assert(prefix_first(cur@, split_spec(Seq::<char>::empty(), sep)) =~~= seq![cur@]);
    }
    out.push(cur);
    assert(out.deep_view() =~~= split_spec(v@, sep));
    out
}

/// Blank characters recognized by the tokenizer and trimmer.
pub open spec fn is_blank(c: char) -> bool {
    c == ' ' || c == '\t' || c == '\r' || c == '\n'
}

/// Leading blanks removed.
pub open spec fn trim_start_spec(s: Seq<char>) -> Seq<char>
    decreases s.len(),
{
    if s.len() > 0 && is_blank(s[0]) {
        trim_start_spec(s.skip(1))
    } else {
        s
    }
}

/// Trailing blanks removed.
pub open spec fn trim_end_spec(s: Seq<char>) -> Seq<char>
    decreases s.len(),
{
    if s.len() > 0 && is_blank(s[s.len() - 1]) {
        trim_end_spec(s.take(s.len() - 1))
    } else {
        s
    }
}

/// Leading and trailing blanks removed.
pub open spec fn trim_spec(s: Seq<char>) -> Seq<char> {
    trim_end_spec(trim_start_spec(s))
}

/// Is this character a blank?
pub fn is_blank_char(c: char) -> (r: bool)
    ensures
        r == is_blank(c),
{
    c == ' ' || c == '\t' || c == '\r' || c == '\n'
}

/// Remove leading and trailing blanks.
pub fn trim_chars(v: &Vec<char>) -> (r: Vec<char>)
    ensures
        r@ == trim_spec(v@),
{
    let n = v.len();
    let mut a: usize = 0;
    assert(v@.skip(0) =~= v@);
    while a < n && is_blank_char(v[a])
        invariant
            a <= n,
            n == v@.len(),
            trim_start_spec(v@) == trim_start_spec(v@.skip(a as int)),
        decreases n - a,
    {
        proof {
            assert(v@.skip(a as int).skip(1) =~= v@.skip(a as int + 1));
        }
        a = a + 1;
    }
    let ghost started = v@.skip(a as int);
    proof {
        assert(trim_start_spec(started) == started);
    }
    let mut b: usize = n;
    assert(started.take(b - a) =~= started);
    while b > a && is_blank_char(v[b - 1])
        invariant
            a <= b <= n,
            n == v@.len(),
            started == v@.skip(a as int),
            trim_start_spec(v@) == started,
            trim_end_spec(started) == trim_end_spec(started.take(b - a)),
        decreases b,
    {
        proof {
            let piece = started.take(b - a);
            assert(piece[piece.len() - 1] == v@[b - 1]);
            assert(piece.take(piece.len() - 1) =~= started.take(b - 1 - a));
        }
        b = b - 1;
    }
    proof {
        let piece = started.take(b - a);
        if b > a {
            assert(piece[piece.len() - 1] == v@[b - 1]);
        }
        assert(trim_end_spec(piece) == piece);
    }
    let mut r: Vec<char> = Vec::new();
    let mut i: usize = a;
    while i < b
        invariant
            a <= i <= b <= n,
            n == v@.len(),
            r@.len() == i - a,
            forall|j: int| 0 <= j < i - a ==> r@[j] == v@[a + j],
        decreases b - i,
    {
        r.push(v[i]);
        i = i + 1;
    }
    assert(r@ =~= started.take(b - a));
    r
}

/// The pieces, each piece's characters joined by `sep` between pieces.
pub open spec fn join_with(pieces: Seq<Seq<char>>, sep: Seq<char>) -> Seq<char>
    decreases pieces.len(),
{
    if pieces.len() == 0 {
        Seq::<char>::empty()
    } else if pieces.len() == 1 {
        pieces[0]
    } else {
        pieces[0] + sep + join_with(pieces.skip(1), sep)
    }
}

/// Join pieces with a separator, starting at piece `i`.
fn join_from(parts: &Vec<Vec<char>>, sep: &Vec<char>, i: usize) -> (r: Vec<char>)
    requires
        i <= parts@.len(),
    ensures
        r@ == join_with(parts.deep_view().skip(i as int), sep@),
    decreases parts@.len() - i,
{
    let n = parts.len();
    if i == n {
        let r: Vec<char> = Vec::new();
        assert(parts.deep_view().skip(i as int) =~= Seq::<Seq<char>>::empty());
        r
    } else if i + 1 == n {
        let r = copy_chars(&parts[i]);
        assert(parts.deep_view().skip(i as int).len() == 1);
        assert(parts.deep_view().skip(i as int)[0] == parts.deep_view()[i as int]);
        r
    } else {
        let mut r = copy_chars(&parts[i]);
        append_chars(&mut r, sep);
        let rest = join_from(parts, sep, i + 1);
        append_chars(&mut r, &rest);
        proof {
            let pieces = parts.deep_view().skip(i as int);
            assert(pieces[0] == parts.deep_view()[i as int]);
            assert(pieces.skip(1) =~= parts.deep_view().skip(i as int + 1));
        }
        r
    }
}

/// Join the pieces with `sep` between them.
pub fn join_chars(parts: &Vec<Vec<char>>, sep: &Vec<char>) -> (r: Vec<char>)
    ensures
        r@ == join_with(parts.deep_view(), sep@),
{
    let r = join_from(parts, sep, 0);
    assert(parts.deep_view().skip(0) =~= parts.deep_view());
    r
}

/// Index of the first occurrence of `sub` in `s`, as a function.
pub open spec fn find_spec(s: Seq<char>, sub: Seq<char>) -> Option<int>
    decreases s.len(),
{
    if sub.len() == 0 {
        Some(0)
    } else if s.len() < sub.len() {
        None
    } else if s.subrange(0, sub.len() as int) == sub {
        Some(0)
    } else {
        match find_spec(s.skip(1), sub) {
            Some(i) => Some(i + 1),
            None => None,
        }
    }
}

/// `find_spec` yields the least index where `sub` occurs, and `None` exactly
/// when `sub` does not occur.
pub proof fn lemma_find_spec(s: Seq<char>, sub: Seq<char>)
    ensures
        match find_spec(s, sub) {
            Some(i) => match_at(s, sub, i) && forall|j: int| 0 <= j < i ==> !match_at(s, sub, j),
            None => !contains_sub(s, sub),
        },
    decreases s.len(),
{
    if sub.len() == 0 {
        assert(s.subrange(0, 0) =~= sub);
    } else if s.len() < sub.len() {
        assert(forall|j: int| !match_at(s, sub, j));
    } else if s.subrange(0, sub.len() as int) == sub {
    } else {
        lemma_find_spec(s.skip(1), sub);
        assert forall|j: int| 0 <= j implies match_at(s.skip(1), sub, j) == match_at(
            s,
            sub,
            j + 1,
        ) by {
            if j + sub.len() <= s.skip(1).len() {
                assert(s.skip(1).subrange(j, j + sub.len()) =~= s.subrange(
                    j + 1,
                    j + 1 + sub.len(),
                ));
            }
        };
        match find_spec(s.skip(1), sub) {
            Some(i) => {
                assert(match_at(s, sub, i + 1));
                assert forall|j: int| 0 <= j < i + 1 implies !match_at(s, sub, j) by {
                    if j == 0 {
                    } else {
                        assert(!match_at(s.skip(1), sub, j - 1));
                    }
                };
            },
            None => {
                assert forall|j: int| !match_at(s, sub, j) by {
                    if j >= 1 {
                        assert(!match_at(s.skip(1), sub, j - 1));
                    }
                };
            },
        }
    }
}

/// Index of the first occurrence of `sub` in `v`, tied to `find_spec`.
pub fn find_first(v: &Vec<char>, sub: &Vec<char>) -> (r: Option<usize>)
    ensures
        match r {
            Some(i) => find_spec(v@, sub@) == Some(i as int),
            None => find_spec(v@, sub@) is None,
        },
{
    let r = find_sub(v, sub);
    proof {
        lemma_find_spec(v@, sub@);
        match r {
            Some(i) => {
                match find_spec(v@, sub@) {
                    Some(k) => {
                        if k < i as int {
                            assert(!match_at(v@, sub@, k));
                            assert(false);
                        } else if k > i as int {
                            assert(!match_at(v@, sub@, i as int));
                            assert(false);
                        }
                    },
                    None => {
                        assert(contains_sub(v@, sub@));
                        assert(false);
                    },
                }
            },
            None => {
                match find_spec(v@, sub@) {
                    Some(k) => {
                        assert(contains_sub(v@, sub@));
                        assert(false);
                    },
                    None => {},
                }
            },
        }
    }
    r
}

/// A decimal digit character.
pub open spec fn is_digit(c: char) -> bool {
    48 <= c as u32 <= 57
}

/// The first index at or after `i` whose character is not a digit.
pub open spec fn digit_run_end(s: Seq<char>, i: int) -> int
    decreases s.len() - i,
{
    if i < 0 || i >= s.len() || !is_digit(s[i]) {
        i
    } else {
        digit_run_end(s, i + 1)
    }
}

/// The first index at or after `i` whose character is not a space or tab.
pub open spec fn space_run_end(s: Seq<char>, i: int) -> int
    decreases s.len() - i,
{
    if i < 0 || i >= s.len() || !(s[i] == ' ' || s[i] == '\t') {
        i
    } else {
        space_run_end(s, i + 1)
    }
}

/// The numeric value of the digits `s[i..j)`.
pub open spec fn digits_value(s: Seq<char>, i: int, j: int) -> int
    decreases j - i,
{
    if j <= i {
        0
    } else {
        digits_value(s, i, j - 1) * 10 + (s[j - 1] as u32 - 48)
    }
}

/// Tabs turned into spaces.
pub open spec fn blank_to_space(c: char) -> char {
    if c == '\t' {
        ' '
    } else {
        c
    }
}

/// The whitespace-separated tokens of `s`: split on spaces and tabs, empty
/// pieces dropped.
pub open spec fn tokens_spec(s: Seq<char>) -> Seq<Seq<char>> {
    split_spec(s.map_values(|c: char| blank_to_space(c)), ' ').filter(
        |t: Seq<char>| t.len() != 0,
    )
}

/// Split `v` into whitespace-separated tokens.
pub fn tokenize(v: &Vec<char>) -> (r: Vec<Vec<char>>)
    ensures
        r.deep_view() == tokens_spec(v@),
{
    let n = v.len();
    let mut mapped: Vec<char> = Vec::new();
    let mut i: usize = 0;
    while i < n
        invariant
            i <= n,
            n == v@.len(),
            mapped@.len() == i,
            forall|j: int| 0 <= j < i ==> mapped@[j] == blank_to_space(v@[j]),
        decreases n - i,
    {
        if v[i] == '\t' {
            mapped.push(' ');
        } else {
            mapped.push(v[i]);
        }
        i = i + 1;
    }
    assert(mapped@ =~= v@.map_values(|c: char| blank_to_space(c)));
    let parts = split_chars(&mapped, ' ');
    let ghost pred = |t: Seq<char>| t.len() != 0;
    let mut out: Vec<Vec<char>> = Vec::new();
    let m = parts.len();
    let mut k: usize = 0;
    proof {
        reveal(Seq::filter);
        assert(parts.deep_view().take(0) =~= Seq::<Seq<char>>::empty());
    }
    while k < m
        invariant
            k <= m,
            m == parts@.len(),
            parts@.len() == parts.deep_view().len(),
            out.deep_view() == parts.deep_view().take(k as int).filter(
                |t: Seq<char>| t.len() != 0,
            ),
        decreases m - k,
    {
        proof {
            reveal(Seq::filter);
            let taken = parts.deep_view().take(k as int + 1);
            assert(taken.drop_last() =~= parts.deep_view().take(k as int));
            assert(taken.last() == parts.deep_view()[k as int]);
        }
        if parts[k].len() != 0 {
            let ghost out0 = out.deep_view();
            let piece = copy_chars(&parts[k]);
            out.push(piece);
            assert(out.deep_view() =~~= out0 + seq![parts.deep_view()[k as int]]);
        }
        k = k + 1;
    }
    assert(parts.deep_view().take(m as int) =~= parts.deep_view());
    out
}

} // verus!

