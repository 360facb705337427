//! Verified text helpers: decimal formatting and parsing, substring and
//! affix tests, ASCII case-insensitive comparison, and path joining.
//!
//! Everything here is pure logic over `Seq<char>` views; the rest of the
//! library states its contracts in terms of these spec functions.

use vstd::prelude::*;

verus! {

// ---------------------------------------------------------------------
// Digits and decimal values
// ---------------------------------------------------------------------

pub open spec fn is_digit(c: char) -> bool {
    '0' <= c && c <= '9'
}

pub open spec fn digit_val(c: char) -> int {
    c as int - '0' as int
}

pub open spec fn all_digits(s: Seq<char>) -> bool {
    forall|i: int| 0 <= i < s.len() ==> is_digit(#[trigger] s[i])
}

/// Value of a digit string read in base ten.
pub open spec fn digits_val(s: Seq<char>) -> int
    decreases s.len(),
{
    if s.len() == 0 {
        0
    } else {
        digits_val(s.drop_last()) * 10 + digit_val(s.last())
    }
}

/// The numeric reading of a string: defined only for non-empty all-digit
/// strings, with no sign and no other character admitted.
pub open spec fn parsed_digits(s: Seq<char>) -> Option<int> {
    if s.len() > 0 && all_digits(s) {
        Some(digits_val(s))
    } else {
        None
    }
}

pub open spec fn digit_char(d: int) -> char {
    if d == 0 {
        '0'
    } else if d == 1 {
        '1'
    } else if d == 2 {
        '2'
    } else if d == 3 {
        '3'
    } else if d == 4 {
        '4'
    } else if d == 5 {
        '5'
    } else if d == 6 {
        '6'
    } else if d == 7 {
        '7'
    } else if d == 8 {
        '8'
    } else {
        '9'
    }
}

/// Shortest decimal representation of a non-negative number.
pub open spec fn dec_rep(n: int) -> Seq<char>
    decreases n,
{
    if n < 10 {
        seq![digit_char(n)]
    } else {
        dec_rep(n / 10).push(digit_char(n % 10))
    }
}

pub proof fn lemma_digits_val_nonneg(s: Seq<char>)
    requires
        all_digits(s),
    ensures
        digits_val(s) >= 0,
    decreases s.len(),
{
    if s.len() > 0 {
        assert(all_digits(s.drop_last())) by {
            assert(forall|i: int|
                0 <= i < s.len() - 1 ==> s.drop_last()[i] == #[trigger] s[i]);
        }
        lemma_digits_val_nonneg(s.drop_last());
    }
}

/// Builds the decimal digits of `n`, least significant last.
pub fn fmt_u64(n: u64) -> (r: String)
    ensures
        r@ == dec_rep(n as int),
    decreases n,
{
    if n < 10 {
        String::from_str(digit_str(n))
    } else {
        let mut s = fmt_u64(n / 10);
        s.append(digit_str(n % 10));
        proof {
            assert(s@ =~= dec_rep((n / 10) as int).push(digit_char(n as int % 10)));
        }
        s
    }
}

pub fn fmt_u32(n: u32) -> (r: String)
    ensures
        r@ == dec_rep(n as int),
{
    fmt_u64(n as u64)
}

/// The one-character string for a single decimal digit.
fn digit_str(d: u64) -> (r: &'static str)
    requires
        d < 10,
    ensures
        r@ =~= seq![digit_char(d as int)],
{
    let r = if d == 0 {
        "0"
    } else if d == 1 {
        "1"
    } else if d == 2 {
        "2"
    } else if d == 3 {
        "3"
    } else if d == 4 {
        "4"
    } else if d == 5 {
        "5"
    } else if d == 6 {
        "6"
    } else if d == 7 {
        "7"
    } else if d == 8 {
        "8"
    } else {
        "9"
    };
    proof {
        reveal_strlit("0");
        reveal_strlit("1");
        reveal_strlit("2");
        reveal_strlit("3");
        reveal_strlit("4");
        reveal_strlit("5");
        reveal_strlit("6");
        reveal_strlit("7");
        reveal_strlit("8");
        reveal_strlit("9");
    }
    r
}

/// Reads a base-ten number of at most `u32::MAX`; anything else is `None`.
pub fn parse_u32_digits(s: &str) -> (r: Option<u32>)
    ensures
        parsed_digits(s@) is None ==> r is None,
        parsed_digits(s@) matches Some(v) ==> r == (if v <= u32::MAX {
            Some(v as u32)
        } else {
            Option::<u32>::None
        }),
{
    proof {
        if s@.len() > 0 && all_digits(s@) {
            lemma_digits_val_nonneg(s@);
        }
    }
    match parse_digits_capped(s, u32::MAX as u64) {
        Some(v) => Some(v as u32),
        None => None,
    }
}

/// Reads a base-ten number of at most `i64::MAX`; anything else is `None`.
pub fn parse_i64_digits(s: &str) -> (r: Option<i64>)
    ensures
        parsed_digits(s@) is None ==> r is None,
        parsed_digits(s@) matches Some(v) ==> r == (if v <= i64::MAX {
            Some(v as i64)
        } else {
            Option::<i64>::None
        }),
{
    proof {
        if s@.len() > 0 && all_digits(s@) {
            lemma_digits_val_nonneg(s@);
        }
    }
    match parse_digits_capped(s, i64::MAX as u64) {
        Some(v) => Some(v as i64),
        None => None,
    }
}

/// Shared digit-string reader with an inclusive upper bound on the value.
fn parse_digits_capped(s: &str, cap: u64) -> (r: Option<u64>)
    requires
        cap >= 9,
    ensures
        parsed_digits(s@) is None ==> r is None,
        parsed_digits(s@) matches Some(v) ==> r == (if v <= cap {
            Some(v as u64)
        } else {
            Option::<u64>::None
        }),
{
    let n = s.unicode_len();
    if n == 0 {
        return None;
    }
    let mut i: usize = 0;
    let mut acc: u64 = 0;
    let mut over: bool = false;
    while i < n
        invariant
            cap >= 9,
            0 < n == s@.len(),
            0 <= i <= n,
            all_digits(s@.subrange(0, i as int)),
            !over ==> acc == digits_val(s@.subrange(0, i as int)) && acc <= cap,
            over ==> digits_val(s@.subrange(0, i as int)) > cap,
        decreases n - i,
    {
        let c = s.get_char(i);
        let x = c as u32;
        if x < 48 || x > 57 {
            proof {
                assert(!is_digit(s@[i as int]));
            }
            return None;
        }
        let d = (x - 48) as u64;
        proof {
            assert(is_digit(s@[i as int]));
            assert(d == digit_val(s@[i as int]));
            assert(s@.subrange(0, i + 1).drop_last() =~= s@.subrange(0, i as int));
            assert(forall|j: int|
                0 <= j < i + 1 ==> s@.subrange(0, i + 1)[j] == #[trigger] s@[j]);
            lemma_digits_val_nonneg(s@.subrange(0, i as int));
        }
        if over {
            proof {
                assert(digits_val(s@.subrange(0, i + 1))
                    == digits_val(s@.subrange(0, i as int)) * 10 + d);
                assert(digits_val(s@.subrange(0, i + 1)) > cap) by (nonlinear_arith)
                    requires
                        digits_val(s@.subrange(0, i + 1))
                            == digits_val(s@.subrange(0, i as int)) * 10 + d,
                        digits_val(s@.subrange(0, i as int)) > cap,
                        d >= 0,
                        cap >= 0,
                ;
            }
        } else if acc > (cap - d) / 10 {
            proof {
                assert(digits_val(s@.subrange(0, i + 1)) == acc * 10 + d);
                assert(acc * 10 + d > cap) by (nonlinear_arith)
                    requires
                        acc > (cap - d) / 10,
                        0 <= d <= 9,
                        d <= cap,
                        acc >= 0,
                ;
            }
            over = true;
        } else {
            proof {
                assert(acc * 10 + d <= cap) by (nonlinear_arith)
                    requires
                        acc <= (cap - d) / 10,
                        0 <= d <= 9,
                        d <= cap,
                        acc >= 0,
                ;
            }
            acc = acc * 10 + d;
        }
        i = i + 1;
    }
    proof {
        assert(s@.subrange(0, n as int) =~= s@);
    }
    if over {
        None
    } else {
        Some(acc)
    }
}

// ---------------------------------------------------------------------
// Substrings, affixes, case folding
// ---------------------------------------------------------------------

/// `needle` occurs in `hay` starting at position `at`.
pub open spec fn match_at_spec(hay: Seq<char>, needle: Seq<char>, at: int) -> bool {
    &&& 0 <= at
    &&& at + needle.len() <= hay.len()
    &&& forall|j: int| 0 <= j < needle.len() ==> hay[at + j] == #[trigger] needle[j]
}

pub open spec fn contains_spec(hay: Seq<char>, needle: Seq<char>) -> bool {
    exists|i: int| match_at_spec(hay, needle, i)
}

pub open spec fn starts_with_spec(hay: Seq<char>, prefix: Seq<char>) -> bool {
    match_at_spec(hay, prefix, 0)
}

pub open spec fn ends_with_spec(hay: Seq<char>, suffix: Seq<char>) -> bool {
    hay.len() >= suffix.len() && match_at_spec(hay, suffix, hay.len() - suffix.len())
}

fn match_at(hay: &str, needle: &str, at: usize) -> (r: bool)
    requires
        at + needle@.len() <= hay@.len(),
    ensures
        r == match_at_spec(hay@, needle@, at as int),
{
    let hn = hay.unicode_len();
    let m = needle.unicode_len();
    let mut j: usize = 0;
    while j < m
        invariant
            hn == hay@.len(),
            m == needle@.len(),
            at + m <= hn,
            0 <= j <= m,
            forall|k: int| 0 <= k < j ==> hay@[at + k] == #[trigger] needle@[k],
        decreases m - j,
    {
        if hay.get_char(at + j) as u32 != needle.get_char(j) as u32 {
            proof {
                assert(hay@[at + j] != needle@[j as int]) by {
                    assert(hay@[at + j] as u32 != needle@[j as int] as u32);
                }
            }
            return false;
        }
        proof {
            assert(hay@[at + j] == needle@[j as int]) by {
                assert(hay@[at + j] as u32 == needle@[j as int] as u32);
            }
        }
        j = j + 1;
    }
    true
}

/// Substring search, the verified counterpart of `str::contains`.
pub fn str_contains(hay: &str, needle: &str) -> (r: bool)
    ensures
        r == contains_spec(hay@, needle@),
{
    let n = hay.unicode_len();
    let m = needle.unicode_len();
    if m > n {
        proof {
            assert(forall|i: int| !match_at_spec(hay@, needle@, i));
        }
        return false;
    }
    let mut i: usize = 0;
    while i <= n - m
        invariant
            n == hay@.len(),
            m == needle@.len(),
            m <= n,
            0 <= i <= n - m + 1,
            forall|k: int| 0 <= k < i ==> !match_at_spec(hay@, needle@, k),
        decreases n + 1 - i,
    {
        if match_at(hay, needle, i) {
            proof {
                assert(match_at_spec(hay@, needle@, i as int));
            }
            return true;
        }
        i = i + 1;
    }
    proof {
        assert(forall|k: int| match_at_spec(hay@, needle@, k) ==> 0 <= k <= n - m);
    }
    false
}

pub fn str_starts_with(hay: &str, prefix: &str) -> (r: bool)
    ensures
        r == starts_with_spec(hay@, prefix@),
{
    let n = hay.unicode_len();
    let m = prefix.unicode_len();
    if m > n {
        return false;
    }
    match_at(hay, prefix, 0)
}

pub fn str_ends_with(hay: &str, suffix: &str) -> (r: bool)
    ensures
        r == ends_with_spec(hay@, suffix@),
{
    let n = hay.unicode_len();
    let m = suffix.unicode_len();
    if m > n {
        return false;
    }
    match_at(hay, suffix, n - m)
}

/// Plain string equality.
pub fn str_eq(a: &str, b: &str) -> (r: bool)
    ensures
        r == (a@ == b@),
{
    let n = a.unicode_len();
    if n != b.unicode_len() {
        return false;
    }
    let r = match_at(a, b, 0);
    proof {
        if match_at_spec(a@, b@, 0) {
            assert(a@ =~= b@);
        }
    }
    r
}

/// ASCII letters compare without case; every other character exactly.
pub open spec fn fold_ascii(c: char) -> int {
    if 65 <= c as int && c as int <= 90 {
        c as int + 32
    } else {
        c as int
    }
}

pub open spec fn eq_ignore_case_spec(a: Seq<char>, b: Seq<char>) -> bool {
    a.len() == b.len() && forall|i: int|
        0 <= i < a.len() ==> fold_ascii(a[i]) == fold_ascii(#[trigger] b[i])
}

/// The verified counterpart of `str::eq_ignore_ascii_case`.
pub fn str_eq_ignore_ascii_case(a: &str, b: &str) -> (r: bool)
    ensures
        r == eq_ignore_case_spec(a@, b@),
{
    let n = a.unicode_len();
    if n != b.unicode_len() {
        return false;
    }
    let mut i: usize = 0;
    while i < n
        invariant
            n == a@.len() == b@.len(),
            0 <= i <= n,
            forall|k: int| 0 <= k < i ==> fold_ascii(a@[k]) == fold_ascii(#[trigger] b@[k]),
        decreases n - i,
    {
        let x = a.get_char(i) as u32;
        let y = b.get_char(i) as u32;
        let fx = if 65 <= x && x <= 90 { x + 32 } else { x };
        let fy = if 65 <= y && y <= 90 { y + 32 } else { y };
        if fx != fy {
            proof {
                assert(fold_ascii(a@[i as int]) != fold_ascii(b@[i as int]));
            }
            return false;
        }
        proof {
            assert(fold_ascii(a@[i as int]) == fold_ascii(b@[i as int]));
        }
        i = i + 1;
    }
    true
}

// ---------------------------------------------------------------------
// The suffix after the last '='
// ---------------------------------------------------------------------

/// What remains of `s` after its last `'='`; all of `s` when it has none.
pub open spec fn after_last_eq_spec(s: Seq<char>) -> Seq<char>
    decreases s.len(),
{
    if s.len() == 0 {
        s
    } else if s.last() == '=' {
        Seq::empty()
    } else {
        after_last_eq_spec(s.drop_last()).push(s.last())
    }
}

proof fn lemma_after_last_eq_at(s: Seq<char>, i: int)
    requires
        0 <= i < s.len(),
        s[i] == '=',
        forall|j: int| i < j < s.len() ==> s[j] != '=',
    ensures
        after_last_eq_spec(s) == s.subrange(i + 1, s.len() as int),
    decreases s.len(),
{
    if i == s.len() - 1 {
        assert(s.subrange(i + 1, s.len() as int) =~= Seq::empty());
    } else {
        assert(s.last() != '=');
        let t = s.drop_last();
        assert(forall|j: int| i < j < t.len() ==> t[j] != '=');
        lemma_after_last_eq_at(t, i);
        assert(after_last_eq_spec(s) =~= s.subrange(i + 1, s.len() as int)) by {
            assert(after_last_eq_spec(s)
                == t.subrange(i + 1, t.len() as int).push(s.last()));
        }
    }
}

proof fn lemma_after_last_eq_none(s: Seq<char>)
    requires
        forall|j: int| 0 <= j < s.len() ==> s[j] != '=',
    ensures
        after_last_eq_spec(s) == s,
    decreases s.len(),
{
    if s.len() > 0 {
        lemma_after_last_eq_none(s.drop_last());
        assert(after_last_eq_spec(s) =~= s);
    }
}

/// The substring of `s` after its last `'='`, the whole of `s` without one.
pub fn after_last_eq(s: &str) -> (r: &str)
    ensures
        r@ == after_last_eq_spec(s@),
{
    let n = s.unicode_len();
    let mut i: usize = n;
    while i > 0
        invariant
            n == s@.len(),
            0 <= i <= n,
            forall|j: int| i <= j < n ==> s@[j] != '=',
        decreases i,
    {
        if s.get_char(i - 1) as u32 == 61 {
            proof {
                assert(s@[i - 1] == '=') by {
                    assert(s@[i - 1] as u32 == 61);
                    assert('=' as u32 == 61);
                }
                lemma_after_last_eq_at(s@, i - 1);
            }
            return s.substring_char(i, n);
        }
        proof {
            assert(s@[i - 1] != '=') by {
                assert(s@[i - 1] as u32 != 61);
                assert('=' as u32 == 61);
            }
        }
        i = i - 1;
    }
    proof {
        lemma_after_last_eq_none(s@);
        assert(s@.subrange(0, n as int) =~= s@);
    }
    s.substring_char(0, n)
}

// ---------------------------------------------------------------------
// Paths
// ---------------------------------------------------------------------

/// `s` without trailing separators; a lone separator stays.
pub open spec fn trim_trailing_spec(s: Seq<char>) -> Seq<char>
    decreases s.len(),
{
    if s.len() > 1 && s.last() == '/' {
        trim_trailing_spec(s.drop_last())
    } else {
        s
    }
}

pub fn trim_trailing_slashes(s: &str) -> (r: &str)
    ensures
        r@ == trim_trailing_spec(s@),
{
    let n = s.unicode_len();
    let mut i: usize = n;
    proof {
        assert(s@.subrange(0, n as int) =~= s@);
    }
    while i > 1 && s.get_char(i - 1) as u32 == 47
        invariant
            n == s@.len(),
            0 <= i <= n,
            i < n ==> i >= 1,
            trim_trailing_spec(s@) == trim_trailing_spec(s@.subrange(0, i as int)),
        decreases i,
    {
        proof {
            let t = s@.subrange(0, i as int);
            assert(t.last() == '/') by {
                assert(t[i - 1] as u32 == 47);
                assert('/' as u32 == 47);
            }
            assert(t.drop_last() =~= s@.subrange(0, i - 1));
        }
        i = i - 1;
    }
    proof {
        let t = s@.subrange(0, i as int);
        if i > 1 {
            assert(t.last() != '/') by {
                assert(t[i - 1] as u32 != 47);
                assert('/' as u32 == 47);
            }
        }
        assert(trim_trailing_spec(t) == t);
        if i == n {
            assert(s@.subrange(0, n as int) =~= s@);
        }
    }
    s.substring_char(0, i)
}

/// Joining one path component, inserting a separator only when needed.
pub open spec fn join_path_spec(base: Seq<char>, name: Seq<char>) -> Seq<char> {
    if base.len() == 0 || base.last() == '/' {
        base + name
    } else {
        base + seq!['/'] + name
    }
}

pub fn join_path(base: &str, name: &str) -> (r: String)
    ensures
        r@ == join_path_spec(base@, name@),
{
    let n = base.unicode_len();
    let mut s = String::from_str(base);
    if n == 0 || base.get_char(n - 1) as u32 == 47 {
        proof {
            if n != 0 {
                assert(base@.last() == '/') by {
                    assert(base@[n - 1] as u32 == 47);
                    assert('/' as u32 == 47);
                }
            }
        }
        s.append(name);
        s
    } else {
        proof {
            assert(base@.last() != '/') by {
                assert(base@[n - 1] as u32 != 47);
                assert('/' as u32 == 47);
            }
            reveal_strlit("/");
        }
        s.append("/");
        s.append(name);
        proof {
            assert(s@ =~= base@ + seq!['/'] + name@);
        }
        s
    }
}

} // verus!
