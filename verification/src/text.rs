//! Small verified string operations that the URL and query builders share.
use vstd::prelude::*;
use vstd::string::*;

verus! {

/// Index of the last occurrence of `c` in `s`, or -1 when `c` does not occur.
pub open spec fn last_index_of(s: Seq<char>, c: char) -> int
    decreases s.len(),
{
    if s.len() == 0 {
        -1
    } else if s.last() == c {
        s.len() - 1
    } else {
        last_index_of(s.drop_last(), c)
    }
}

/// The last piece of `s` when it is split at every `c`: what follows the last `c`,
/// or all of `s` when `c` does not occur.
pub open spec fn after_last(s: Seq<char>, c: char) -> Seq<char> {
    s.subrange(last_index_of(s, c) + 1, s.len() as int)
}

/// `s` without its last character (unchanged when empty).
pub open spec fn without_last(s: Seq<char>) -> Seq<char> {
    if s.len() == 0 {
        s
    } else {
        s.drop_last()
    }
}

/// Whether `s` begins with `prefix`.
pub open spec fn has_prefix(s: Seq<char>, prefix: Seq<char>) -> bool {
    prefix.len() <= s.len() && s.subrange(0, prefix.len() as int) == prefix
}

/// The decimal digit character for `d < 10`.
pub open spec fn digit_char(d: nat) -> char {
    ((48 + d) as u32) as char
}

/// The decimal notation of `n`, without sign or leading zeros.
pub open spec fn decimal(n: nat) -> Seq<char>
    decreases n,
{
    if n < 10 {
        seq![digit_char(n)]
    } else {
        decimal(n / 10).push(digit_char(n % 10))
    }
}

proof fn lemma_last_index_bounds(s: Seq<char>, c: char)
    ensures
        -1 <= last_index_of(s, c) < s.len(),
        last_index_of(s, c) >= 0 ==> s[last_index_of(s, c)] == c,
    decreases s.len(),
{
    if s.len() > 0 && s.last() != c {
        lemma_last_index_bounds(s.drop_last(), c);
    }
}

proof fn lemma_nothing_after_last(s: Seq<char>, c: char)
    ensures
        forall|j: int| last_index_of(s, c) < j < s.len() ==> #[trigger] s[j] != c,
    decreases s.len(),
{
    lemma_last_index_bounds(s, c);
    if s.len() > 0 && s.last() != c {
        lemma_nothing_after_last(s.drop_last(), c);
        lemma_last_index_bounds(s.drop_last(), c);
        assert forall|j: int| last_index_of(s, c) < j < s.len() implies #[trigger] s[j] != c by {
            if j < s.len() - 1 {
                assert(s.drop_last()[j] == s[j]);
            }
        }
    }
}

/// The last `c`-separated piece of `s` holds no `c`; when `c` occurs in `s`,
/// `s` is what comes before that piece, then `c`, then the piece; when it does
/// not occur, the piece is all of `s`.
pub proof fn law_after_last_is_last_piece(s: Seq<char>, c: char)
    ensures
        !after_last(s, c).contains(c),
        s.contains(c) ==> s == s.subrange(0, s.len() - after_last(s, c).len() - 1) + seq![c]
            + after_last(s, c),
        !s.contains(c) ==> after_last(s, c) == s,
{
    lemma_last_index_bounds(s, c);
    lemma_nothing_after_last(s, c);
    let i = last_index_of(s, c);
    let r = after_last(s, c);
    assert(r.len() == s.len() - i - 1);
    if r.contains(c) {
        let j = choose|j: int| 0 <= j < r.len() && r[j] == c;
        assert(s[i + 1 + j] == c);
    }
    if s.contains(c) {
        let j = choose|j: int| 0 <= j < s.len() && s[j] == c;
        assert(i >= 0);
        assert(s =~= s.subrange(0, s.len() - r.len() - 1) + seq![c] + r);
    } else {
        if i >= 0 {
            assert(s[i] == c);
        }
        assert(r =~= s);
    }
}

/// `s` without its last character, followed by that character, is `s`; an
/// empty text stays empty.
pub proof fn law_without_last_drops_one(s: Seq<char>)
    ensures
        s.len() > 0 ==> without_last(s) + seq![s.last()] == s,
        s.len() > 0 ==> without_last(s).len() == s.len() - 1,
        s.len() == 0 ==> without_last(s) == s,
{
    if s.len() > 0 {
        assert(without_last(s) + seq![s.last()] =~= s);
    }
}

/// `s` begins with `prefix` exactly when `s` is `prefix` followed by some text.
pub proof fn law_prefix_is_start(s: Seq<char>, prefix: Seq<char>, rest: Seq<char>)
    ensures
        has_prefix(prefix + rest, prefix),
        has_prefix(s, prefix) ==> s == prefix + s.subrange(prefix.len() as int, s.len() as int),
        prefix.len() > s.len() ==> !has_prefix(s, prefix),
{
    assert((prefix + rest).subrange(0, prefix.len() as int) =~= prefix);
    if has_prefix(s, prefix) {
        assert(s =~= prefix + s.subrange(prefix.len() as int, s.len() as int));
    }
}

/// Whether `ch` is one of the characters `0` to `9`.
pub open spec fn is_digit(ch: char) -> bool {
    '0' <= ch <= '9'
}

/// The number a text of decimal digits stands for.
pub open spec fn digits_value(d: Seq<char>) -> int
    decreases d.len(),
{
    if d.len() == 0 {
        0
    } else {
        10 * digits_value(d.drop_last()) + (d.last() as int - '0' as int)
    }
}

/// The decimal notation of `n` is made of digits only, stands for `n`, and has
/// no leading zero (but for `n == 0`, written `0`).
pub proof fn law_decimal_notation(n: nat)
    ensures
        decimal(n).len() > 0,
        forall|i: int| 0 <= i < decimal(n).len() ==> is_digit(#[trigger] decimal(n)[i]),
        digits_value(decimal(n)) == n,
        decimal(n)[0] == '0' ==> n == 0 && decimal(n).len() == 1,
    decreases n,
{
    assert(digit_char(n % 10) as int == 48 + n % 10);
    if n < 10 {
        assert(decimal(n) == seq![digit_char(n)]);
        assert(seq![digit_char(n)].drop_last() =~= Seq::<char>::empty());
        assert(digits_value(Seq::<char>::empty()) == 0);
        assert(digits_value(decimal(n)) == 10 * digits_value(Seq::<char>::empty()) + (
        digit_char(n) as int - '0' as int));
    } else {
        law_decimal_notation(n / 10);
        let d = decimal(n);
        let p = decimal(n / 10);
        assert(d == p.push(digit_char(n % 10)));
        assert(d.drop_last() =~= p);
        assert forall|i: int| 0 <= i < d.len() implies is_digit(#[trigger] d[i]) by {
            if i < p.len() {
                assert(d[i] == p[i]);
            }
        }
        assert(d[0] == p[0]);
        assert(d.last() == digit_char(n % 10));
        assert(digits_value(d) == 10 * digits_value(p) + (digit_char(n % 10) as int - '0' as int));
        assert(n == 10 * (n / 10) + n % 10);
    }
}

/// The position of the last `c` in `s`, as `last_index_of` states.
fn find_last(s: &str, c: char) -> (r: Option<usize>)
    ensures
        match r {
            Some(i) => i == last_index_of(s@, c),
            None => last_index_of(s@, c) == -1,
        },
{
    let n = s.unicode_len();
    let mut i = n;
    proof {
        assert(s@.subrange(0, n as int) =~= s@);
    }
    while i > 0
        invariant
            i <= n,
            n == s@.len(),
            last_index_of(s@, c) == last_index_of(s@.subrange(0, i as int), c),
        decreases i,
    {
        let ch = s.get_char(i - 1);
        proof {
            let p = s@.subrange(0, i as int);
            assert(p.drop_last() =~= s@.subrange(0, i - 1));
        }
        if ch == c {
            return Some(i - 1);
        }
        i = i - 1;
    }
    proof {
        assert(s@.subrange(0, 0) =~= Seq::<char>::empty());
    }
    None
}

/// The part of `s` after its last `sep`, or all of `s`; what `s.split(sep).last()` gives.
pub fn last_segment(s: &str, sep: char) -> (r: String)
    ensures
        r@ == after_last(s@, sep),
{
    proof {
        lemma_last_index_bounds(s@, sep);
    }
    let n = s.unicode_len();
    match find_last(s, sep) {
        Some(i) => s.substring_char(i + 1, n).to_owned(),
        None => {
            proof {
                assert(s@.subrange(0, s@.len() as int) =~= s@);
            }
            s.to_owned()
        },
    }
}

/// `s` with its last character removed (an empty `s` stays empty).
pub fn drop_last_char(s: &str) -> (r: String)
    ensures
        r@ == without_last(s@),
{
    let n = s.unicode_len();
    if n == 0 {
        s.to_owned()
    } else {
        proof {
            assert(s@.subrange(0, n - 1) =~= s@.drop_last());
        }
        s.substring_char(0, n - 1).to_owned()
    }
}

/// Whether `s` begins with `prefix`.
pub fn starts_with(s: &str, prefix: &str) -> (r: bool)
    ensures
        r == has_prefix(s@, prefix@),
{
    let n = s.unicode_len();
    let m = prefix.unicode_len();
    if m > n {
        return false;
    }
    let mut i: usize = 0;
    while i < m
        invariant
            m <= n,
            n == s@.len(),
            m == prefix@.len(),
            i <= m,
            forall|j: int| 0 <= j < i ==> s@[j] == prefix@[j],
        decreases m - i,
    {
        if s.get_char(i) != prefix.get_char(i) {
            proof {
                assert(s@.subrange(0, m as int)[i as int] != prefix@[i as int]);
            }
            return false;
        }
        i = i + 1;
    }
    proof {
        assert(s@.subrange(0, m as int) =~= prefix@);
    }
    true
}

/// Whether two strings hold the same characters.
pub fn same_text(a: &str, b: &str) -> (r: bool)
    ensures
        r == (a@ == b@),
{
    let x: String = a.to_owned();
    let y: String = b.to_owned();
    x == y
}

/// The text `a` followed by the text `b`.
pub fn join_texts(a: &str, b: &str) -> (r: String)
    ensures
        r@ == a@ + b@,
{
    let mut r: String = a.to_owned();
    r.append(b);
    r
}

/// The one-character text holding the digit `d`.
fn digit_text(d: u64) -> (r: &'static str)
    requires
        d < 10,
    ensures
        r@ == seq![digit_char(d as nat)],
{
    let digits = "0123456789";
    proof {
        reveal_strlit("0123456789");
    }
    let r = digits.substring_char(d as usize, (d + 1) as usize);
    proof {
        assert(r@.len() == 1);
        assert(r@[0] == digits@[d as int]);
        assert(r@ =~= seq![digit_char(d as nat)]);
    }
    r
}

/// The decimal notation of `n`, as `format!("{}", n)` writes it.
pub fn decimal_text(n: u64) -> (r: String)
    ensures
        r@ == decimal(n as nat),
    decreases n,
{
    if n < 10 {
        digit_text(n).to_owned()
    } else {
        let mut s = decimal_text(n / 10);
        s.append(digit_text(n % 10));
        s
    }
}

} // verus!
