//! Character-level helpers over `str`/`String` and their models as `Seq<char>`.
use vstd::prelude::*;

verus! {

/// The ASCII character of a decimal digit.
pub open spec fn digit_char(d: nat) -> char
    recommends
        d < 10,
{
    (48 + d) as char
}

/// Decimal rendering of a natural number, most significant digit first, no leading zeros.
pub open spec fn decimal(n: nat) -> Seq<char>
    decreases n,
{
    if n < 10 {
        seq![digit_char(n)]
    } else {
        decimal(n / 10).push(digit_char(n % 10))
    }
}

/// The number that a sequence of decimal digits reads as.
pub open spec fn decimal_value(s: Seq<char>) -> int
    decreases s.len(),
{
    if s.len() == 0 {
        0
    } else {
        decimal_value(s.drop_last()) * 10 + (s.last() as int - 48)
    }
}

proof fn lemma_digit_char(d: nat)
    requires
        d < 10,
    ensures
        digit_char(d) as int == 48 + d,
        '0' <= digit_char(d) <= '9',
{
    assert(((48 + d) as char) as int == 48 + d);
}

/// A rendered number reads back as itself, and is made of digits only: the port text of an
/// address gives back the port.
pub proof fn law_decimal_roundtrip(n: nat)
    ensures
        decimal_value(decimal(n)) == n,
        forall|i: int| 0 <= i < decimal(n).len() ==> '0' <= #[trigger] decimal(n)[i] <= '9',
    decreases n,
{
    lemma_digit_char(n % 10);
    if n < 10 {
        assert(decimal(n).drop_last() =~= Seq::<char>::empty());
        assert(decimal(n).last() == digit_char(n));
        assert(decimal_value(decimal(n)) == decimal_value(decimal(n).drop_last()) * 10 + (
        decimal(n).last() as int - 48));
    } else {
        law_decimal_roundtrip(n / 10);
        let d = decimal(n);
        assert(d.drop_last() =~= decimal(n / 10));
        assert(d.last() == digit_char(n % 10));
        assert(decimal_value(d) == decimal_value(d.drop_last()) * 10 + (d.last() as int - 48));
        assert forall|i: int| 0 <= i < d.len() implies '0' <= #[trigger] d[i] <= '9' by {
            if i < d.len() - 1 {
                assert(d[i] == decimal(n / 10)[i]);
            }
        }
    }
}

/// A rendered number has no leading zero, unless it is the single digit `0`.
pub proof fn lemma_decimal_no_leading_zero(n: nat)
    ensures
        decimal(n).len() >= 1,
        n == 0 ==> decimal(n).len() == 1,
        n >= 1 ==> decimal(n)[0] != '0',
        decimal(n).len() == 1 || decimal(n)[0] != '0',
    decreases n,
{
    if n < 10 {
        lemma_digit_char(n);
    } else {
        lemma_decimal_no_leading_zero(n / 10);
        let d = decimal(n);
        assert(d[0] == decimal(n / 10)[0]);
    }
}

/// Character-wise equality of two string slices.
pub fn str_equal(a: &str, b: &str) -> (r: bool)
    ensures
        r == (a@ == b@),
{
    let n = a.unicode_len();
    if n != b.unicode_len() {
        return false;
    }
    let mut i: usize = 0;
    while i < n
        invariant
            n == a@.len(),
            n == b@.len(),
            i <= n,
            forall|j: int| 0 <= j < i ==> a@[j] == b@[j],
        decreases n - i,
    {
        if a.get_char(i) != b.get_char(i) {
            return false;
        }
        i = i + 1;
    }
    assert(a@ =~= b@);
    true
}

fn digit_str(d: u16) -> (s: &'static str)
    requires
        d < 10,
    ensures
        s@ == seq![digit_char(d as nat)],
{
    proof {
        reveal_strlit("0");
        reveal_strlit("1");
        reveal_strlit("2");
        reveal_strlit("3");
        reveal_strlit("4");
        reveal_strlit("5");
        reveal_strlit("6");
        reveal_strlit("7");
        reveal_strlit("8");
        reveal_strlit("9");
    }
    if d == 0 {
        "0"
    } else if d == 1 {
        "1"
    } else if d == 2 {
        "2"
    } else if d == 3 {
        "3"
    } else if d == 4 {
        "4"
    } else if d == 5 {
        "5"
    } else if d == 6 {
        "6"
    } else if d == 7 {
        "7"
    } else if d == 8 {
        "8"
    } else {
        "9"
    }
}

/// Appends the decimal rendering of `n` to `s`.
pub fn push_decimal(s: &mut String, n: u16)
    ensures
        final(s)@ == old(s)@ + decimal(n as nat),
    decreases n,
{
    if n >= 10 {
        push_decimal(s, n / 10);
    }
    let d = digit_str(n % 10);
    s.append(d);
    assert(final(s)@ =~= old(s)@ + decimal(n as nat));
}

/// A `==` separator starts at position `i` of `s`.
pub open spec fn separator_at(s: Seq<char>, i: int) -> bool {
    0 <= i && i + 1 < s.len() && s[i] == '=' && s[i + 1] == '='
}

/// The first position at or after `k` where a `==` separator starts, if any.
pub open spec fn find_separator_from(s: Seq<char>, k: int) -> Option<int>
    decreases s.len() - k,
{
    if k < 0 || k + 1 >= s.len() {
        None
    } else if separator_at(s, k) {
        Some(k)
    } else {
        find_separator_from(s, k + 1)
    }
}

/// The first position where a `==` separator starts, if any.
pub open spec fn find_separator(s: Seq<char>) -> Option<int> {
    find_separator_from(s, 0)
}

/// What `split_once("==")` gives: the text before the first separator and the text after it.
pub open spec fn split_at_separator(s: Seq<char>) -> Option<(Seq<char>, Seq<char>)> {
    match find_separator(s) {
        Some(i) => Some((s.take(i), s.skip(i + 2))),
        None => None,
    }
}

/// `find_separator_from` finds the least separator position at or after `k`.
pub proof fn lemma_find_separator_from(s: Seq<char>, k: int)
    requires
        0 <= k,
    ensures
        find_separator_from(s, k) matches Some(i) ==> k <= i && separator_at(s, i) && forall|j: int|
            k <= j < i ==> !separator_at(s, j),
        find_separator_from(s, k) is None ==> forall|j: int| k <= j ==> !separator_at(s, j),
    decreases s.len() - k,
{
    if k + 1 < s.len() && !separator_at(s, k) {
        lemma_find_separator_from(s, k + 1);
    }
}

/// Splits `s` at the first `==`, as `str::split_once("==")` does.
pub fn split_once_separator(s: &str) -> (r: Option<(&str, &str)>)
    ensures
        match r {
            Some((a, b)) => split_at_separator(s@) == Some((a@, b@)),
            None => split_at_separator(s@) is None,
        },
{
    let n = s.unicode_len();
    let mut i: usize = 0;
    while n >= 2 && i <= n - 2
        invariant
            n == s@.len(),
            i <= n,
            find_separator_from(s@, i as int) == find_separator(s@),
        decreases n - i,
    {
        if s.get_char(i) == '=' && s.get_char(i + 1) == '=' {
            let a = s.substring_char(0, i);
            let b = s.substring_char(i + 2, n);
            assert(a@ =~= s@.take(i as int));
            assert(b@ =~= s@.skip(i + 2));
            return Some((a, b));
        }
        i = i + 1;
    }
    None
}

} // verus!

verus! {

/// The first position at or after `k` holding `c`, if any.
pub open spec fn find_char_from(s: Seq<char>, c: char, k: int) -> Option<int>
    decreases s.len() - k,
{
    if k < 0 || k >= s.len() {
        None
    } else if s[k] == c {
        Some(k)
    } else {
        find_char_from(s, c, k + 1)
    }
}

/// The text before the first `c`, as `split_once(c)` gives it; `None` where `c` does not occur.
pub open spec fn before_first(s: Seq<char>, c: char) -> Option<Seq<char>> {
    match find_char_from(s, c, 0) {
        Some(i) => Some(s.take(i)),
        None => None,
    }
}

/// `find_char_from` finds `c` wherever `c` occurs at or after `k`.
pub proof fn lemma_find_char_from(s: Seq<char>, c: char, k: int)
    requires
        0 <= k,
    ensures
        find_char_from(s, c, k) matches Some(i) ==> k <= i < s.len() && s[i] == c && forall|j: int|
            k <= j < i ==> s[j] != c,
        find_char_from(s, c, k) is None ==> forall|j: int| k <= j < s.len() ==> s[j] != c,
    decreases s.len() - k,
{
    if k < s.len() && s[k] != c {
        lemma_find_char_from(s, c, k + 1);
    }
}

/// The text of `s` before its first `c`; `s` must hold a `c`.
pub fn prefix_before_char(s: &str, c: char) -> (r: &str)
    requires
        s@.contains(c),
    ensures
        before_first(s@, c) == Some(r@),
{
    proof {
        lemma_find_char_from(s@, c, 0);
    }
    let n = s.unicode_len();
    let mut i: usize = 0;
    while i < n
        invariant
            n == s@.len(),
            i <= n,
            find_char_from(s@, c, i as int) == find_char_from(s@, c, 0),
            find_char_from(s@, c, 0) is Some,
        decreases n - i,
    {
        if s.get_char(i) == c {
            let p = s.substring_char(0, i);
            assert(p@ =~= s@.take(i as int));
            return p;
        }
        i = i + 1;
    }
    s
}

} // verus!

verus! {

proof fn lemma_separator_after(a: Seq<char>, b: Seq<char>, k: int)
    requires
        0 <= k <= a.len(),
        forall|j: int| 0 <= j ==> !separator_at(a, j),
        a.len() > 0 ==> a.last() != '=',
    ensures
        find_separator_from(a + seq!['=', '='] + b, k) == Some(a.len() as int),
    decreases a.len() - k,
{
    let s = a + seq!['=', '='] + b;
    if k < a.len() {
        if k + 1 < a.len() {
            assert(!separator_at(a, k));
            assert(s[k] == a[k] && s[k + 1] == a[k + 1]);
        } else {
            assert(s[k] == a.last());
        }
        lemma_separator_after(a, b, k + 1);
    } else {
        assert(separator_at(s, k));
    }
}

/// A tunnel argument written as `from==to` splits back into `from` and `to`, wherever `from`
/// holds no `==` and does not end in `=`.
pub proof fn law_split_tunnel_arg(from: Seq<char>, to: Seq<char>)
    requires
        find_separator(from) is None,
        from.len() > 0 ==> from.last() != '=',
    ensures
        split_at_separator(from + seq!['=', '='] + to) == Some((from, to)),
{
    lemma_find_separator_from(from, 0);
    lemma_separator_after(from, to, 0);
    let s = from + seq!['=', '='] + to;
    assert(s.take(from.len() as int) =~= from);
    assert(s.skip(from.len() as int + 2) =~= to);
}

} // verus!
