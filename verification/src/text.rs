//! Verified text building blocks: decimal rendering of integers, runs of
//! spaces, and character-exact string comparison.  Rendered prompt text is
//! specified as `Seq<char>`, so everything here is stated over views.

use vstd::prelude::*;

verus! {

/// The character for a single decimal digit value.
pub open spec fn digit_char(d: nat) -> char {
    if d == 0 {
        '0'
    } else if d == 1 {
        '1'
    } else if d == 2 {
        '2'
    } else if d == 3 {
        '3'
    } else if d == 4 {
        '4'
    } else if d == 5 {
        '5'
    } else if d == 6 {
        '6'
    } else if d == 7 {
        '7'
    } else if d == 8 {
        '8'
    } else {
        '9'
    }
}

/// The usual decimal rendering of a natural number, most significant digit
/// first, with no leading zeros (and a single `'0'` for zero).
pub open spec fn dec_rep(n: nat) -> Seq<char>
    decreases n,
{
    if n < 10 {
        seq![digit_char(n)]
    } else {
        dec_rep(n / 10).push(digit_char(n % 10))
    }
}

pub proof fn lemma_dec_rep_len(n: nat)
    ensures
        dec_rep(n).len() >= 1,
    decreases n,
{
    if n >= 10 {
        lemma_dec_rep_len(n / 10);
    }
}

/// Appends the character for one decimal digit.
pub fn push_digit(out: &mut String, d: u8)
    requires
        d < 10,
    ensures
        final(out)@ == old(out)@ + seq![digit_char(d as nat)],
{
    match d {
        0 => {
            out.append("0");
            proof {
                reveal_strlit("0");
                assert(final(out)@ =~= old(out)@ + seq![digit_char(d as nat)]);
            }
        },
        1 => {
            out.append("1");
            proof {
                reveal_strlit("1");
                assert(final(out)@ =~= old(out)@ + seq![digit_char(d as nat)]);
            }
        },
        2 => {
            out.append("2");
            proof {
                reveal_strlit("2");
                assert(final(out)@ =~= old(out)@ + seq![digit_char(d as nat)]);
            }
        },
        3 => {
            out.append("3");
            proof {
                reveal_strlit("3");
                assert(final(out)@ =~= old(out)@ + seq![digit_char(d as nat)]);
            }
        },
        4 => {
            out.append("4");
            proof {
                reveal_strlit("4");
                assert(final(out)@ =~= old(out)@ + seq![digit_char(d as nat)]);
            }
        },
        5 => {
            out.append("5");
            proof {
                reveal_strlit("5");
                assert(final(out)@ =~= old(out)@ + seq![digit_char(d as nat)]);
            }
        },
        6 => {
            out.append("6");
            proof {
                reveal_strlit("6");
                assert(final(out)@ =~= old(out)@ + seq![digit_char(d as nat)]);
            }
        },
        7 => {
            out.append("7");
            proof {
                reveal_strlit("7");
                assert(final(out)@ =~= old(out)@ + seq![digit_char(d as nat)]);
            }
        },
        8 => {
            out.append("8");
            proof {
                reveal_strlit("8");
                assert(final(out)@ =~= old(out)@ + seq![digit_char(d as nat)]);
            }
        },
        _ => {
            out.append("9");
            proof {
                reveal_strlit("9");
                assert(final(out)@ =~= old(out)@ + seq![digit_char(d as nat)]);
            }
        },
    }
}

/// Appends the decimal rendering of `n`.
pub fn push_dec_u64(out: &mut String, n: u64)
    ensures
        final(out)@ == old(out)@ + dec_rep(n as nat),
    decreases n,
{
    if n < 10 {
        push_digit(out, n as u8);
    } else {
        push_dec_u64(out, n / 10);
        push_digit(out, (n % 10) as u8);
        proof {
            assert(final(out)@ =~= old(out)@ + dec_rep(n as nat));
        }
    }
}

/// The decimal rendering of `n` as a fresh string.
pub fn dec_string_u64(n: u64) -> (r: String)
    ensures
        r@ == dec_rep(n as nat),
{
    let mut out = String::new();
    push_dec_u64(&mut out, n);
    proof {
        assert(out@ =~= dec_rep(n as nat));
    }
    out
}

/// A run of `n` spaces.
pub open spec fn spaces(n: nat) -> Seq<char> {
    Seq::new(n, |i: int| ' ')
}

/// Appends `n` literal space characters.
pub fn append_spaces(out: &mut String, n: usize)
    ensures
        final(out)@ == old(out)@ + spaces(n as nat),
{
    let mut i: usize = 0;
    while i < n
        invariant
            i <= n,
            out@ == old(out)@ + spaces(i as nat),
        decreases n - i,
    {
        out.append(" ");
        i = i + 1;
        proof {
            reveal_strlit(" ");
            assert(out@ =~= old(out)@ + spaces(i as nat));
        }
    }
}

/// The first index at or after `from` where `c` occurs in `s`.
pub open spec fn find_char_from(s: Seq<char>, c: char, from: int) -> Option<int>
    decreases s.len() - from,
{
    if from < 0 || from >= s.len() {
        None
    } else if s[from] == c {
        Some(from)
    } else {
        find_char_from(s, c, from + 1)
    }
}

/// What a `find_char_from` result means: the found index holds `c` and no
/// earlier index at or after `from` does; `None` means no occurrence at all.
pub proof fn lemma_find_char_from(s: Seq<char>, c: char, from: int)
    requires
        0 <= from <= s.len(),
    ensures
        match find_char_from(s, c, from) {
            Some(i) => from <= i < s.len() && s[i] == c && (forall|j: int|
                from <= j < i ==> s[j] != c),
            None => forall|j: int| from <= j < s.len() ==> s[j] != c,
        },
    decreases s.len() - from,
{
    if from < s.len() && s[from] != c {
        lemma_find_char_from(s, c, from + 1);
    }
}

/// The index where `c` first occurs, given directly.
pub proof fn lemma_find_char_at(s: Seq<char>, c: char, k: int)
    requires
        0 <= k < s.len(),
        s[k] == c,
        forall|j: int| 0 <= j < k ==> s[j] != c,
    ensures
        find_char_from(s, c, 0) == Some(k),
{
    lemma_find_char_from(s, c, 0);
    match find_char_from(s, c, 0) {
        Some(i) => {
            assert(!(i < k) && !(k < i));
        },
        None => {
            assert(s[k] == c);
        },
    }
}

/// No occurrence at all.
pub proof fn lemma_find_char_none(s: Seq<char>, c: char)
    requires
        forall|j: int| 0 <= j < s.len() ==> s[j] != c,
    ensures
        find_char_from(s, c, 0) is None,
{
    lemma_find_char_from(s, c, 0);
    match find_char_from(s, c, 0) {
        Some(i) => {
            assert(s[i] != c);
        },
        None => {},
    }
}

/// The first index of `c` in `s`, scanning left to right.
pub fn find_char(s: &str, c: char) -> (r: Option<usize>)
    ensures
        match r {
            Some(i) => i < s@.len() && find_char_from(s@, c, 0) == Some(i as int),
            None => find_char_from(s@, c, 0) is None,
        },
{
    let n = s.unicode_len();
    let mut i: usize = 0;
    while i < n
        invariant
            i <= n,
            n == s@.len(),
            forall|j: int| 0 <= j < i ==> s@[j] != c,
        decreases n - i,
    {
        if s.get_char(i) == c {
            proof {
                lemma_find_char_at(s@, c, i as int);
            }
            return Some(i);
        }
        i = i + 1;
    }
    proof {
        lemma_find_char_none(s@, c);
    }
    None
}

/// `s` split at every occurrence of `c`: the pieces between occurrences, in
/// order, separators dropped.  An input without `c` is one piece; every
/// occurrence contributes a boundary, so n occurrences give n + 1 pieces.
pub open spec fn spec_split(s: Seq<char>, c: char) -> Seq<Seq<char>>
    decreases s.len(),
    via spec_split_decreases
{
    match find_char_from(s, c, 0) {
        None => seq![s],
        Some(i) => seq![s.subrange(0, i)] + spec_split(s.subrange(i + 1, s.len() as int), c),
    }
}

#[via_fn]
proof fn spec_split_decreases(s: Seq<char>, c: char) {
    lemma_find_char_from(s, c, 0);
}

/// The view of an optional string slice.
pub open spec fn opt_view(o: Option<&str>) -> Option<Seq<char>> {
    match o {
        Some(s) => Some(s@),
        None => None,
    }
}

/// The views of a sequence of strings.
pub open spec fn str_views(v: Seq<String>) -> Seq<Seq<char>> {
    Seq::new(v.len(), |i: int| v[i]@)
}

/// Splits `s` at every occurrence of `c`.
pub fn split_on_char(s: &str, c: char) -> (r: Vec<String>)
    ensures
        str_views(r@) == spec_split(s@, c),
{
    let n = s.unicode_len();
    let mut parts: Vec<String> = Vec::new();
    let mut start: usize = 0;
    let mut i: usize = 0;
    proof {
        assert(s@.subrange(0, n as int) =~= s@);
        assert(str_views(parts@) + spec_split(s@, c) =~= spec_split(s@, c));
    }
    while i < n
        invariant
            start <= i <= n,
            n == s@.len(),
            forall|j: int| start <= j < i ==> s@[j] != c,
            spec_split(s@, c) =~= str_views(parts@) + spec_split(
                s@.subrange(start as int, n as int),
                c,
            ),
        decreases n - i,
    {
        if s.get_char(i) == c {
            let ghost suffix = s@.subrange(start as int, n as int);
            let piece = s.substring_char(start, i).to_owned();
            parts.push(piece);
            proof {
                let k = i - start;
                assert(suffix[k] == c);
                assert(forall|j: int| 0 <= j < k ==> suffix[j] != c);
                lemma_find_char_at(suffix, c, k);
                assert(suffix.subrange(0, k) =~= s@.subrange(start as int, i as int));
                assert(suffix.subrange(k + 1, suffix.len() as int) =~= s@.subrange(
                    i + 1,
                    n as int,
                ));
                assert(str_views(parts@) =~= str_views(parts@.drop_last()).push(piece@));
                assert(spec_split(s@, c) =~= str_views(parts@) + spec_split(
                    s@.subrange(i + 1, n as int),
                    c,
                ));
            }
            start = i + 1;
        }
        i = i + 1;
    }
    let ghost suffix = s@.subrange(start as int, n as int);
    let piece = s.substring_char(start, n).to_owned();
    parts.push(piece);
    proof {
        assert(forall|j: int| 0 <= j < suffix.len() ==> suffix[j] != c);
        lemma_find_char_none(suffix, c);
        assert(spec_split(suffix, c) =~= seq![suffix]);
        assert(str_views(parts@) =~= str_views(parts@.drop_last()).push(piece@));
        assert(str_views(parts@) =~= spec_split(s@, c));
    }
    parts
}

/// The first index at or after `from` where `p` occurs in `s` as a
/// contiguous substring.
pub open spec fn find_sub_from(s: Seq<char>, p: Seq<char>, from: int) -> Option<int>
    decreases s.len() - from,
    via find_sub_from_decreases
{
    if from < 0 || from + p.len() > s.len() {
        None
    } else if s.subrange(from, from + p.len() as int) == p {
        Some(from)
    } else {
        find_sub_from(s, p, from + 1)
    }
}

#[via_fn]
proof fn find_sub_from_decreases(s: Seq<char>, p: Seq<char>, from: int) {
    if 0 <= from && from + p.len() <= s.len() && p.len() == 0 {
        assert(s.subrange(from, from + p.len() as int) =~= p);
    }
}

proof fn lemma_find_sub_none(s: Seq<char>, p: Seq<char>, from: int)
    requires
        0 <= from,
        forall|j: int|
            from <= j && j + p.len() <= s.len() ==> #[trigger] s.subrange(j, j + p.len() as int)
                != p,
    ensures
        find_sub_from(s, p, from) is None,
    decreases s.len() - from,
{
    if from + p.len() <= s.len() {
        if p.len() == 0 {
            assert(s.subrange(from, from + p.len() as int) =~= p);
        } else {
            lemma_find_sub_none(s, p, from + 1);
        }
    }
}

proof fn lemma_find_sub_at(s: Seq<char>, p: Seq<char>, from: int, k: int)
    requires
        0 <= from <= k,
        k + p.len() <= s.len(),
        s.subrange(k, k + p.len() as int) == p,
        forall|j: int| from <= j < k ==> #[trigger] s.subrange(j, j + p.len() as int) != p,
    ensures
        find_sub_from(s, p, from) == Some(k),
    decreases k - from,
{
    if from < k {
        lemma_find_sub_at(s, p, from + 1, k);
    }
}

/// Whether `p` occurs in `s` starting exactly at `i`.
fn match_at(s: &str, p: &str, i: usize) -> (r: bool)
    requires
        i + p@.len() <= s@.len(),
    ensures
        r == (s@.subrange(i as int, i + p@.len() as int) == p@),
{
    let n = s.unicode_len();
    let m = p.unicode_len();
    let mut j: usize = 0;
    while j < m
        invariant
            j <= m,
            m == p@.len(),
            n == s@.len(),
            i + m <= n,
            forall|k: int| 0 <= k < j ==> s@[i + k] == p@[k],
        decreases m - j,
    {
        if s.get_char(i + j) != p.get_char(j) {
            proof {
                assert(s@.subrange(i as int, i + p@.len() as int)[j as int] != p@[j as int]);
            }
            return false;
        }
        j = j + 1;
    }
    proof {
        assert(s@.subrange(i as int, i + p@.len() as int) =~= p@);
    }
    true
}

/// The first index where `p` occurs in `s` as a substring.
pub fn find_sub(s: &str, p: &str) -> (r: Option<usize>)
    ensures
        match r {
            Some(i) => i + p@.len() <= s@.len() && find_sub_from(s@, p@, 0) == Some(i as int),
            None => find_sub_from(s@, p@, 0) is None,
        },
{
    let n = s.unicode_len();
    let m = p.unicode_len();
    if m > n {
        return None;
    }
    if m == 0 {
        proof {
            assert(s@.subrange(0, 0) =~= p@);
        }
        return Some(0);
    }
    let mut i: usize = 0;
    while i <= n - m
        invariant
            1 <= m <= n,
            n == s@.len(),
            m == p@.len(),
            i <= n - m + 1,
            forall|j: int| 0 <= j < i ==> #[trigger] s@.subrange(j, j + p@.len() as int) != p@,
        decreases n - m - i + 1,
    {
        if match_at(s, p, i) {
            proof {
                lemma_find_sub_at(s@, p@, 0, i as int);
            }
            return Some(i);
        }
        i = i + 1;
    }
    proof {
        lemma_find_sub_none(s@, p@, 0);
    }
    None
}

/// Whether `p` is a prefix of `s`.
pub open spec fn is_prefix(s: Seq<char>, p: Seq<char>) -> bool {
    s.len() >= p.len() && s.subrange(0, p.len() as int) == p
}

/// Whether `s` starts with `prefix`, character by character.
pub fn str_starts_with(s: &str, prefix: &str) -> (r: bool)
    ensures
        r == is_prefix(s@, prefix@),
{
    let n = s.unicode_len();
    let p = prefix.unicode_len();
    if n < p {
        proof {
            assert(!is_prefix(s@, prefix@));
        }
        return false;
    }
    let mut i: usize = 0;
    while i < p
        invariant
            i <= p <= n,
            n == s@.len(),
            p == prefix@.len(),
            forall|j: int| 0 <= j < i ==> s@[j] == prefix@[j],
        decreases p - i,
    {
        if s.get_char(i) != prefix.get_char(i) {
            proof {
                assert(s@.subrange(0, p as int)[i as int] != prefix@[i as int]);
            }
            return false;
        }
        i = i + 1;
    }
    proof {
        assert(s@.subrange(0, p as int) =~= prefix@);
    }
    true
}

/// Whether `c` is a decimal digit.
pub open spec fn is_digit(c: char) -> bool {
    48 <= c as u32 <= 57
}

/// The value of one decimal digit character.
pub open spec fn char_digit_val(c: char) -> nat {
    (c as u32 - 48) as nat
}

/// The value of a sequence of decimal digit characters, most significant
/// first.
pub open spec fn digits_val(s: Seq<char>) -> nat
    decreases s.len(),
{
    if s.len() == 0 {
        0nat
    } else {
        digits_val(s.drop_last()) * 10 + char_digit_val(s.last())
    }
}

/// How many leading characters of `s` are decimal digits.
pub open spec fn digit_prefix_len(s: Seq<char>) -> nat
    decreases s.len(),
{
    if s.len() == 0 || !is_digit(s[0]) {
        0nat
    } else {
        1 + digit_prefix_len(s.drop_first())
    }
}

proof fn lemma_digit_prefix_len_at(s: Seq<char>, i: int)
    requires
        0 <= i <= s.len(),
        forall|j: int| 0 <= j < i ==> is_digit(s[j]),
        i < s.len() ==> !is_digit(s[i]),
    ensures
        digit_prefix_len(s) == i,
    decreases i,
{
    if i == 0 {
    } else {
        assert(is_digit(s[0]));
        lemma_digit_prefix_len_at(s.drop_first(), i - 1);
    }
}

proof fn lemma_digits_val_mono(s: Seq<char>, j: int, k: int)
    requires
        0 <= j <= k <= s.len(),
    ensures
        digits_val(s.take(j)) <= digits_val(s.take(k)),
    decreases k - j,
{
    if j < k {
        lemma_digits_val_mono(s, j, k - 1);
        assert(s.take(k).drop_last() =~= s.take(k - 1));
        assert(digits_val(s.take(k)) == digits_val(s.take(k - 1)) * 10 + char_digit_val(
            s.take(k).last(),
        ));
    }
}

/// Parses the decimal digit prefix of `s` as a 32-bit value.  `None` when
/// `s` has no leading digit, or when the digit prefix's value does not fit.
pub fn parse_u32_prefix(s: &str) -> (r: Option<u32>)
    ensures
        match r {
            Some(v) => digit_prefix_len(s@) > 0 && v as nat == digits_val(
                s@.take(digit_prefix_len(s@) as int),
            ),
            None => digit_prefix_len(s@) == 0 || digits_val(
                s@.take(digit_prefix_len(s@) as int),
            ) > u32::MAX,
        },
{
    let n = s.unicode_len();
    let mut i: usize = 0;
    let mut acc: u32 = 0;
    while i < n
        invariant
            i <= n,
            n == s@.len(),
            forall|j: int| 0 <= j < i ==> is_digit(s@[j]),
            acc as nat == digits_val(s@.take(i as int)),
        decreases n - i,
    {
        let c = s.get_char(i);
        let u = c as u32;
        if u < 48 || u > 57 {
            proof {
                lemma_digit_prefix_len_at(s@, i as int);
            }
            if i == 0 {
                return None;
            }
            return Some(acc);
        }
        let d = u - 48;
        proof {
            assert(s@.take(i + 1).drop_last() =~= s@.take(i as int));
            assert(s@.take(i + 1).last() == s@[i as int]);
        }
        match acc.checked_mul(10) {
            None => {
                proof {
                    assert(digits_val(s@.take(i + 1)) > u32::MAX);
                    lemma_digit_overflow(s@, i as int);
                }
                return None;
            },
            Some(m) => {
                match m.checked_add(d) {
                    None => {
                        proof {
                            assert(digits_val(s@.take(i + 1)) > u32::MAX);
                            lemma_digit_overflow(s@, i as int);
                        }
                        return None;
                    },
                    Some(v) => {
                        acc = v;
                    },
                }
            },
        }
        i = i + 1;
    }
    proof {
        lemma_digit_prefix_len_at(s@, n as int);
    }
    if n == 0 {
        return None;
    }
    Some(acc)
}

proof fn lemma_digit_prefix_len_bound(s: Seq<char>)
    ensures
        digit_prefix_len(s) <= s.len(),
    decreases s.len(),
{
    if s.len() > 0 && is_digit(s[0]) {
        lemma_digit_prefix_len_bound(s.drop_first());
    }
}

/// The digit prefix runs at least through index `i`, and its value already
/// exceeded the 32-bit range by the digit at `i`.
proof fn lemma_digit_overflow(s: Seq<char>, i: int)
    requires
        0 <= i < s.len(),
        forall|j: int| 0 <= j <= i ==> is_digit(s[j]),
        digits_val(s.take(i + 1)) > u32::MAX,
    ensures
        digit_prefix_len(s) > 0,
        digits_val(s.take(digit_prefix_len(s) as int)) > u32::MAX,
{
    lemma_digit_prefix_ge(s, i + 1);
    lemma_digit_prefix_len_bound(s);
    lemma_digits_val_mono(s, i + 1, digit_prefix_len(s) as int);
}

proof fn lemma_digit_prefix_ge(s: Seq<char>, i: int)
    requires
        0 <= i <= s.len(),
        forall|j: int| 0 <= j < i ==> is_digit(s[j]),
    ensures
        digit_prefix_len(s) >= i,
    decreases i,
{
    if i > 0 {
        assert(is_digit(s[0]));
        lemma_digit_prefix_ge(s.drop_first(), i - 1);
    }
}

/// Whether `c` is ordinary whitespace.
pub open spec fn is_space(c: char) -> bool {
    c == ' ' || c == '\t' || c == '\n' || c == '\r'
}

/// `s` without its leading whitespace.
pub open spec fn trim_start_spec(s: Seq<char>) -> Seq<char>
    decreases s.len(),
{
    if s.len() > 0 && is_space(s[0]) {
        trim_start_spec(s.drop_first())
    } else {
        s
    }
}

/// `s` without its trailing whitespace.
pub open spec fn trim_end_spec(s: Seq<char>) -> Seq<char>
    decreases s.len(),
{
    if s.len() > 0 && is_space(s.last()) {
        trim_end_spec(s.drop_last())
    } else {
        s
    }
}

/// `s` without leading and trailing whitespace.
pub open spec fn trim_spec(s: Seq<char>) -> Seq<char> {
    trim_end_spec(trim_start_spec(s))
}

proof fn lemma_trim_start_at(s: Seq<char>, i: int)
    requires
        0 <= i <= s.len(),
        forall|j: int| 0 <= j < i ==> is_space(s[j]),
        i < s.len() ==> !is_space(s[i]),
    ensures
        trim_start_spec(s) =~= s.subrange(i, s.len() as int),
    decreases i,
{
    if i == 0 {
        assert(s.subrange(0, s.len() as int) =~= s);
    } else {
        assert(is_space(s[0]));
        lemma_trim_start_at(s.drop_first(), i - 1);
        assert(s.drop_first().subrange(i - 1, s.drop_first().len() as int) =~= s.subrange(
            i,
            s.len() as int,
        ));
    }
}

proof fn lemma_trim_end_at(s: Seq<char>, e: int)
    requires
        0 <= e <= s.len(),
        forall|j: int| e <= j < s.len() ==> is_space(s[j]),
        e > 0 ==> !is_space(s[e - 1]),
    ensures
        trim_end_spec(s) =~= s.subrange(0, e),
    decreases s.len() - e,
{
    if e == s.len() {
        assert(s.subrange(0, s.len() as int) =~= s);
    } else {
        assert(is_space(s.last()));
        lemma_trim_end_at(s.drop_last(), e);
        assert(s.drop_last().subrange(0, e) =~= s.subrange(0, e));
    }
}

fn is_space_char(c: char) -> (r: bool)
    ensures
        r == is_space(c),
{
    c == ' ' || c == '\t' || c == '\n' || c == '\r'
}

/// `s` with leading and trailing whitespace removed.
pub fn trim_str(s: &str) -> (r: String)
    ensures
        r@ == trim_spec(s@),
{
    let n = s.unicode_len();
    let mut i: usize = 0;
    while i < n && is_space_char(s.get_char(i))
        invariant
            i <= n,
            n == s@.len(),
            forall|j: int| 0 <= j < i ==> is_space(s@[j]),
        decreases n - i,
    {
        i = i + 1;
    }
    proof {
        lemma_trim_start_at(s@, i as int);
    }
    let ghost mid = s@.subrange(i as int, n as int);
    let mut e: usize = n;
    while e > i && is_space_char(s.get_char(e - 1))
        invariant
            i <= e <= n,
            n == s@.len(),
            forall|j: int| e <= j < n ==> is_space(s@[j]),
        decreases e,
    {
        e = e - 1;
    }
    proof {
        assert(forall|j: int| e - i <= j < mid.len() ==> is_space(mid[j]));
        lemma_trim_end_at(mid, e - i);
        assert(mid.subrange(0, e - i) =~= s@.subrange(i as int, e as int));
    }
    let piece = s.substring_char(i, e).to_owned();
    piece
}

/// A copy of an optional string.
pub fn clone_opt_string(o: &Option<String>) -> (r: Option<String>)
    ensures
        r == *o,
{
    match o {
        Some(s) => Some(s.clone()),
        None => None,
    }
}

/// Character-exact equality of two string slices.
pub fn str_eq(a: &str, b: &str) -> (r: bool)
    ensures
        r == (a@ == b@),
{
    let alen = a.unicode_len();
    let blen = b.unicode_len();
    if alen != blen {
        return false;
    }
    let mut i: usize = 0;
    while i < alen
        invariant
            i <= alen,
            alen == a@.len(),
            alen == b@.len(),
            forall|j: int| 0 <= j < i ==> a@[j] == b@[j],
        decreases alen - i,
    {
        if a.get_char(i) != b.get_char(i) {
            return false;
        }
        i = i + 1;
    }
    proof {
        assert(a@ =~= b@);
    }
    true
}

} // verus!
