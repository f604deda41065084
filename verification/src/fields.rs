//! Reading fields out of a line of text: trimming white space, the piece between two
//! separators, the second word, and a decimal number.
use vstd::prelude::*;

use crate::text::{char_is_white_space, is_ascii_digit_char, is_white_space, owned, starts_with_text};

verus! {

/// `s` without its leading white space.
pub open spec fn trim_start_text(s: Seq<char>) -> Seq<char>
    decreases s.len(),
{
    if s.len() > 0 && is_white_space(s[0]) {
        trim_start_text(s.drop_first())
    } else {
        s
    }
}

/// `s` without its trailing white space.
pub open spec fn trim_end_text(s: Seq<char>) -> Seq<char>
    decreases s.len(),
{
    if s.len() > 0 && is_white_space(s.last()) {
        trim_end_text(s.drop_last())
    } else {
        s
    }
}

/// `s` without white space at either end, as `str::trim` returns it.
pub open spec fn trimmed_text(s: Seq<char>) -> Seq<char> {
    trim_end_text(trim_start_text(s))
}

/// The characters of `s` before the first `c`, all of `s` when there is none.
pub open spec fn before_char(s: Seq<char>, c: char) -> Seq<char>
    decreases s.len(),
{
    if s.len() == 0 {
        s
    } else if s[0] == c {
        seq![]
    } else {
        seq![s[0]] + before_char(s.drop_first(), c)
    }
}

/// The characters of `s` after the first `c`; `None` when there is none.
pub open spec fn after_char(s: Seq<char>, c: char) -> Option<Seq<char>>
    decreases s.len(),
{
    if s.len() == 0 {
        None
    } else if s[0] == c {
        Some(s.drop_first())
    } else {
        after_char(s.drop_first(), c)
    }
}

/// The second piece of `s` split at `c`, as `s.split(c).nth(1)` returns it.
pub open spec fn second_piece(s: Seq<char>, c: char) -> Option<Seq<char>> {
    match after_char(s, c) {
        Some(rest) => Some(before_char(rest, c)),
        None => None,
    }
}

/// The leading word of `s`: its characters before the first white space.
pub open spec fn word(s: Seq<char>) -> Seq<char>
    decreases s.len(),
{
    if s.len() == 0 || is_white_space(s[0]) {
        seq![]
    } else {
        seq![s[0]] + word(s.drop_first())
    }
}

/// The second white-space-separated field of `s`, as `s.split_whitespace().nth(1)` returns
/// it.
pub open spec fn second_field(s: Seq<char>) -> Option<Seq<char>> {
    let t = trim_start_text(s);
    let rest = trim_start_text(t.subrange(word(t).len() as int, t.len() as int));
    if word(t).len() == 0 || rest.len() == 0 {
        None
    } else {
        Some(word(rest))
    }
}

/// The value of a string of decimal digits.
pub open spec fn digits_value(s: Seq<char>) -> int
    decreases s.len(),
{
    if s.len() == 0 {
        0
    } else {
        digits_value(s.drop_last()) * 10 + (s.last() as int - '0' as int)
    }
}

/// Every character is a decimal digit.
pub open spec fn all_digits(s: Seq<char>) -> bool {
    forall|i: int| 0 <= i < s.len() ==> is_ascii_digit_char(#[trigger] s[i])
}

/// What `str::parse::<u64>` reads: an optional `+`, then at least one decimal digit, for a
/// value that fits.
pub open spec fn parsed_u64(s: Seq<char>) -> Option<u64> {
    let d = if s.len() > 0 && s[0] == '+' {
        s.drop_first()
    } else {
        s
    };
    if d.len() > 0 && all_digits(d) && digits_value(d) <= u64::MAX {
        Some(digits_value(d) as u64)
    } else {
        None
    }
}

proof fn lemma_trim_start(s: Seq<char>, i: int)
    requires
        0 <= i <= s.len(),
        forall|k: int| 0 <= k < i ==> is_white_space(#[trigger] s[k]),
        i == s.len() || !is_white_space(s[i]),
    ensures
        trim_start_text(s) == s.subrange(i, s.len() as int),
    decreases i,
{
    if i > 0 {
        assert(is_white_space(s[0]));
        let t = s.drop_first();
        assert forall|k: int| 0 <= k < i - 1 implies is_white_space(#[trigger] t[k]) by {
            assert(t[k] == s[k + 1]);
        }
        lemma_trim_start(t, i - 1);
        assert(t.subrange(i - 1, t.len() as int) =~= s.subrange(i, s.len() as int));
    } else {
        assert(s.subrange(0, s.len() as int) =~= s);
    }
}

proof fn lemma_trim_end(s: Seq<char>, j: int)
    requires
        0 <= j <= s.len(),
        forall|k: int| j <= k < s.len() ==> is_white_space(#[trigger] s[k]),
        j == 0 || !is_white_space(s[j - 1]),
    ensures
        trim_end_text(s) == s.subrange(0, j),
    decreases s.len() - j,
{
    if j < s.len() {
        assert(is_white_space(s.last()));
        let t = s.drop_last();
        assert forall|k: int| j <= k < t.len() implies is_white_space(#[trigger] t[k]) by {
            assert(t[k] == s[k]);
        }
        lemma_trim_end(t, j);
        assert(t.subrange(0, j) =~= s.subrange(0, j));
    } else {
        assert(s.subrange(0, j) =~= s);
    }
}

proof fn lemma_before_char(s: Seq<char>, c: char, i: int)
    requires
        0 <= i <= s.len(),
        forall|k: int| 0 <= k < i ==> #[trigger] s[k] != c,
        i == s.len() || s[i] == c,
    ensures
        before_char(s, c) == s.subrange(0, i),
    decreases i,
{
    if i > 0 {
        let t = s.drop_first();
        assert forall|k: int| 0 <= k < i - 1 implies #[trigger] t[k] != c by {
            assert(t[k] == s[k + 1]);
        }
        lemma_before_char(t, c, i - 1);
        assert(seq![s[0]] + t.subrange(0, i - 1) =~= s.subrange(0, i));
    } else {
        assert(s.subrange(0, 0) =~= Seq::<char>::empty());
    }
}

proof fn lemma_after_char(s: Seq<char>, c: char, i: int)
    requires
        0 <= i <= s.len(),
        forall|k: int| 0 <= k < i ==> #[trigger] s[k] != c,
        i == s.len() || s[i] == c,
    ensures
        i == s.len() ==> after_char(s, c) is None,
        i < s.len() ==> after_char(s, c) == Some(s.subrange(i + 1, s.len() as int)),
    decreases i,
{
    if i > 0 {
        let t = s.drop_first();
        assert forall|k: int| 0 <= k < i - 1 implies #[trigger] t[k] != c by {
            assert(t[k] == s[k + 1]);
        }
        lemma_after_char(t, c, i - 1);
        if i < s.len() {
            assert(t.subrange(i, t.len() as int) =~= s.subrange(i + 1, s.len() as int));
        }
    } else if s.len() > 0 {
        assert(s.drop_first() =~= s.subrange(1, s.len() as int));
    }
}

proof fn lemma_word(s: Seq<char>, j: int)
    requires
        0 <= j <= s.len(),
        forall|k: int| 0 <= k < j ==> !is_white_space(#[trigger] s[k]),
        j == s.len() || is_white_space(s[j]),
    ensures
        word(s) == s.subrange(0, j),
    decreases j,
{
    if j > 0 {
        let t = s.drop_first();
        assert forall|k: int| 0 <= k < j - 1 implies !is_white_space(#[trigger] t[k]) by {
            assert(t[k] == s[k + 1]);
        }
        lemma_word(t, j - 1);
        assert(seq![s[0]] + t.subrange(0, j - 1) =~= s.subrange(0, j));
    } else {
        assert(s.subrange(0, 0) =~= Seq::<char>::empty());
    }
}

proof fn lemma_digits_prefix(s: Seq<char>, k: int)
    requires
        0 <= k <= s.len(),
        all_digits(s),
    ensures
        0 <= digits_value(s.subrange(0, k)) <= digits_value(s),
    decreases s.len() - k,
{
    if k < s.len() {
        let t = s.drop_last();
        assert forall|i: int| 0 <= i < t.len() implies is_ascii_digit_char(#[trigger] t[i]) by {
            assert(t[i] == s[i]);
        }
        lemma_digits_prefix(t, k);
        assert(t.subrange(0, k) =~= s.subrange(0, k));
        assert(is_ascii_digit_char(s[s.len() - 1]));
    } else {
        assert(s.subrange(0, k) =~= s);
        lemma_digits_nonneg(s);
    }
}

proof fn lemma_digits_nonneg(s: Seq<char>)
    requires
        all_digits(s),
    ensures
        digits_value(s) >= 0,
    decreases s.len(),
{
    if s.len() > 0 {
        let t = s.drop_last();
        assert forall|i: int| 0 <= i < t.len() implies is_ascii_digit_char(#[trigger] t[i]) by {
            assert(t[i] == s[i]);
        }
        lemma_digits_nonneg(t);
        assert(is_ascii_digit_char(s[s.len() - 1]));
    }
}

/// The first position at or after `from` that is not white space, or the end.
fn skip_white_space(s: &str, n: usize, from: usize) -> (i: usize)
    requires
        n == s@.len(),
        from <= n,
    ensures
        from <= i <= n,
        forall|k: int| from <= k < i ==> is_white_space(#[trigger] s@[k]),
        i == n || !is_white_space(s@[i as int]),
{
    let mut i = from;
    while i < n
        invariant
            n == s@.len(),
            from <= i <= n,
            forall|k: int| from <= k < i ==> is_white_space(#[trigger] s@[k]),
        decreases n - i,
    {
        if !char_is_white_space(s.get_char(i)) {
            return i;
        }
        i = i + 1;
    }
    i
}

/// The first position at or after `from` that is white space, or the end.
fn skip_word(s: &str, n: usize, from: usize) -> (j: usize)
    requires
        n == s@.len(),
        from <= n,
    ensures
        from <= j <= n,
        forall|k: int| from <= k < j ==> !is_white_space(#[trigger] s@[k]),
        j == n || is_white_space(s@[j as int]),
{
    let mut j = from;
    while j < n
        invariant
            n == s@.len(),
            from <= j <= n,
            forall|k: int| from <= k < j ==> !is_white_space(#[trigger] s@[k]),
        decreases n - j,
    {
        if char_is_white_space(s.get_char(j)) {
            return j;
        }
        j = j + 1;
    }
    j
}

/// `s` without white space at either end.
pub fn trim(s: &str) -> (r: String)
    ensures
        r@ == trimmed_text(s@),
{
    let n = s.unicode_len();
    let i = skip_white_space(s, n, 0);
    let mut j = n;
    while j > i
        invariant
            n == s@.len(),
            i <= j <= n,
            forall|k: int| j <= k < n ==> is_white_space(#[trigger] s@[k]),
        ensures
            i <= j <= n,
            forall|k: int| j <= k < n ==> is_white_space(#[trigger] s@[k]),
            j == i || !is_white_space(s@[j - 1]),
        decreases j - i,
    {
        if !char_is_white_space(s.get_char(j - 1)) {
            break;
        }
        j = j - 1;
    }
    proof {
        lemma_trim_start(s@, i as int);
        let t = s@.subrange(i as int, n as int);
        assert forall|k: int| (j - i) <= k < t.len() implies is_white_space(#[trigger] t[k]) by {
            assert(t[k] == s@[i + k]);
        }
        if j > i {
            assert(t[j - i - 1] == s@[j - 1]);
        }
        lemma_trim_end(t, (j - i) as int);
        assert(t.subrange(0, (j - i) as int) =~= s@.subrange(i as int, j as int));
    }
    owned(s.substring_char(i, j))
}

/// Whether `s` begins with `pre`.
pub fn starts_with(s: &str, pre: &str) -> (b: bool)
    ensures
        b == starts_with_text(s@, pre@),
{
    let n = s.unicode_len();
    let m = pre.unicode_len();
    if m > n {
        return false;
    }
    let mut k: usize = 0;
    while k < m
        invariant
            n == s@.len(),
            m == pre@.len(),
            m <= n,
            k <= m,
            forall|q: int| 0 <= q < k ==> s@[q] == pre@[q],
        decreases m - k,
    {
        if s.get_char(k) != pre.get_char(k) {
            assert(s@.subrange(0, m as int)[k as int] != pre@[k as int]);
            return false;
        }
        k = k + 1;
    }
    assert(s@.subrange(0, m as int) =~= pre@);
    true
}

/// The first position at or after `from` holding `c`, or the end.
fn find_char(s: &str, n: usize, from: usize, c: char) -> (i: usize)
    requires
        n == s@.len(),
        from <= n,
    ensures
        from <= i <= n,
        forall|k: int| from <= k < i ==> #[trigger] s@[k] != c,
        i == n || s@[i as int] == c,
{
    let mut i = from;
    while i < n
        invariant
            n == s@.len(),
            from <= i <= n,
            forall|k: int| from <= k < i ==> #[trigger] s@[k] != c,
        decreases n - i,
    {
        if s.get_char(i) == c {
            return i;
        }
        i = i + 1;
    }
    i
}

/// The second piece of `s` split at `c`.
pub fn second_piece_of(s: &str, c: char) -> (r: Option<String>)
    ensures
        match r {
            Some(p) => second_piece(s@, c) == Some(p@),
            None => second_piece(s@, c) is None,
        },
{
    let n = s.unicode_len();
    let i = find_char(s, n, 0, c);
    proof {
        lemma_after_char(s@, c, i as int);
    }
    if i == n {
        return None;
    }
    let j = find_char(s, n, i + 1, c);
    proof {
        let rest = s@.subrange(i + 1, n as int);
        assert forall|k: int| 0 <= k < j - i - 1 implies #[trigger] rest[k] != c by {
            assert(rest[k] == s@[i + 1 + k]);
        }
        if j < n {
            assert(rest[j - i - 1] == s@[j as int]);
        }
        lemma_before_char(rest, c, j - i - 1);
        assert(rest.subrange(0, j - i - 1) =~= s@.subrange(i + 1, j as int));
    }
    Some(owned(s.substring_char(i + 1, j)))
}

/// The second white-space-separated field of `s`.
pub fn second_field_of(s: &str) -> (r: Option<String>)
    ensures
        match r {
            Some(p) => second_field(s@) == Some(p@),
            None => second_field(s@) is None,
        },
{
    let n = s.unicode_len();
    let i0 = skip_white_space(s, n, 0);
    let j0 = skip_word(s, n, i0);
    let i1 = skip_white_space(s, n, j0);
    let j1 = skip_word(s, n, i1);
    proof {
        lemma_trim_start(s@, i0 as int);
        let t = s@.subrange(i0 as int, n as int);
        assert forall|k: int| 0 <= k < j0 - i0 implies !is_white_space(#[trigger] t[k]) by {
            assert(t[k] == s@[i0 + k]);
        }
        if j0 < n {
            assert(t[j0 - i0] == s@[j0 as int]);
        }
        lemma_word(t, (j0 - i0) as int);
        let after = t.subrange((j0 - i0) as int, t.len() as int);
        assert(after =~= s@.subrange(j0 as int, n as int));
        assert forall|k: int| 0 <= k < i1 - j0 implies is_white_space(#[trigger] after[k]) by {
            assert(after[k] == s@[j0 + k]);
        }
        if i1 < n {
            assert(after[i1 - j0] == s@[i1 as int]);
        }
        lemma_trim_start(after, (i1 - j0) as int);
        let rest = after.subrange((i1 - j0) as int, after.len() as int);
        assert(rest =~= s@.subrange(i1 as int, n as int));
        assert forall|k: int| 0 <= k < j1 - i1 implies !is_white_space(#[trigger] rest[k]) by {
            assert(rest[k] == s@[i1 + k]);
        }
        if j1 < n {
            assert(rest[j1 - i1] == s@[j1 as int]);
        }
        lemma_word(rest, (j1 - i1) as int);
        assert(rest.subrange(0, (j1 - i1) as int) =~= s@.subrange(i1 as int, j1 as int));
    }
    if j0 == i0 || i1 == n {
        None
    } else {
        Some(owned(s.substring_char(i1, j1)))
    }
}

/// The value of a decimal digit character.
fn digit_value(c: char) -> (d: u64)
    requires
        is_ascii_digit_char(c),
    ensures
        d == c as int - '0' as int,
{
    let v: u32 = c as u32;
    (v - 48) as u64
}

/// The number `s` holds, as `str::parse::<u64>` reads it; `None` for anything else.
pub fn parse_u64(s: &str) -> (r: Option<u64>)
    ensures
        r == parsed_u64(s@),
{
    let n = s.unicode_len();
    if n == 0 {
        return None;
    }
    let start: usize = if s.get_char(0) == '+' {
        1
    } else {
        0
    };
    let ghost d = if s@.len() > 0 && s@[0] == '+' {
        s@.drop_first()
    } else {
        s@
    };
    assert(d =~= s@.subrange(start as int, n as int));
    if start == n {
        return None;
    }
    let mut acc: u64 = 0;
    let mut k: usize = start;
    assert(d.subrange(0, 0) =~= Seq::<char>::empty());
    while k < n
        invariant
            n == s@.len(),
            start <= k <= n,
            d == s@.subrange(start as int, n as int),
            d == (if s@.len() > 0 && s@[0] == '+' {
                s@.drop_first()
            } else {
                s@
            }),
            d.len() > 0,
            forall|q: int| 0 <= q < k - start ==> is_ascii_digit_char(#[trigger] d[q]),
            acc == digits_value(d.subrange(0, (k - start) as int)),
        decreases n - k,
    {
        let c = s.get_char(k);
        assert(c == d[(k - start) as int]);
        if !('0' <= c && c <= '9') {
            assert(!is_ascii_digit_char(d[(k - start) as int]));
            assert(!all_digits(d));
            assert(parsed_u64(s@) is None);
            return None;
        }
        let ghost prefix = d.subrange(0, (k - start) as int);
        let ghost next = d.subrange(0, (k - start + 1) as int);
        assert(next.drop_last() =~= prefix);
        assert(next.last() == c);
        let v = digit_value(c);
        assert(digits_value(next) == acc * 10 + v);
        let step = acc.checked_mul(10);
        let sum = match step {
            Some(m) => m.checked_add(v),
            None => None,
        };
        match sum {
            Some(a) => {
                acc = a;
            },
            None => {
                proof {
                    assert(digits_value(next) > u64::MAX);
                    if all_digits(d) {
                        lemma_digits_prefix(d, (k - start + 1) as int);
                    }
                    assert(parsed_u64(s@) is None);
                }
                return None;
            },
        }
        k = k + 1;
    }
    assert(d.subrange(0, (n - start) as int) =~= d);
    Some(acc)
}

} // verus!
