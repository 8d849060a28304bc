//! Small text helpers: comparing texts and writing numbers in decimal.

use vstd::prelude::*;
use vstd::string::{StrSliceExecFns, StringExecFns};

verus! {

/// Whether two texts hold the same characters.
pub fn str_eq(a: &str, b: &str) -> (r: bool)
    ensures
        r == (a@ == b@),
{
    let n = a.unicode_len();
    if n != b.unicode_len() {
        return false;
    }
    let mut i: usize = 0;
    while i < n
        invariant
            n == a@.len(),
            n == b@.len(),
            i <= n,
            forall|j: int| 0 <= j < i ==> a@[j] == b@[j],
        decreases n - i,
    {
        if a.get_char(i) != b.get_char(i) {
            return false;
        }
        i = i + 1;
    }
    assert(a@ =~= b@);
    true
}

/// The character of one decimal digit.
pub open spec fn digit_text(d: nat) -> Seq<char> {
    if d == 0 {
        "0"@
    } else if d == 1 {
        "1"@
    } else if d == 2 {
        "2"@
    } else if d == 3 {
        "3"@
    } else if d == 4 {
        "4"@
    } else if d == 5 {
        "5"@
    } else if d == 6 {
        "6"@
    } else if d == 7 {
        "7"@
    } else if d == 8 {
        "8"@
    } else {
        "9"@
    }
}

/// A number written in decimal, without leading zeros.
pub open spec fn decimal(n: nat) -> Seq<char>
    decreases n,
{
    if n < 10 {
        digit_text(n)
    } else {
        decimal(n / 10) + digit_text(n % 10)
    }
}

/// A number written in decimal with at least `width` digits, padded with zeros.
pub open spec fn padded_decimal(n: nat, width: nat) -> Seq<char>
    decreases width,
{
    if width <= 1 {
        decimal(n)
    } else if n < pow10((width - 1) as nat) {
        "0"@ + padded_decimal(n, (width - 1) as nat)
    } else {
        decimal(n)
    }
}

/// Ten to the power `e`.
pub open spec fn pow10(e: nat) -> nat
    decreases e,
{
    if e == 0 {
        1
    } else {
        10 * pow10((e - 1) as nat)
    }
}

fn digit(d: u64) -> (r: &'static str)
    requires
        d < 10,
    ensures
        r@ == digit_text(d as nat),
{
    if d == 0 {
        "0"
    } else if d == 1 {
        "1"
    } else if d == 2 {
        "2"
    } else if d == 3 {
        "3"
    } else if d == 4 {
        "4"
    } else if d == 5 {
        "5"
    } else if d == 6 {
        "6"
    } else if d == 7 {
        "7"
    } else if d == 8 {
        "8"
    } else {
        "9"
    }
}

/// Appends `n` in decimal.
pub fn push_decimal(s: &mut String, n: u64)
    ensures
        final(s)@ == old(s)@ + decimal(n as nat),
    decreases n,
{
    if n >= 10 {
        push_decimal(s, n / 10);
    }
    s.append(digit(n % 10));
    proof {
        if n >= 10 {
            assert(decimal(n as nat) == decimal((n / 10) as nat) + digit_text((n % 10) as nat));
        }
    }
}

/// Appends `n` in decimal with at least `width` digits, padded with zeros.
pub fn push_padded_decimal(s: &mut String, n: u64, width: u64)
    requires
        width <= 19,
    ensures
        final(s)@ == old(s)@ + padded_decimal(n as nat, width as nat),
    decreases width,
{
    if width <= 1 {
        push_decimal(s, n);
    } else {
        let limit = pow10_exec(width - 1);
        if n < limit {
            s.append("0");
            push_padded_decimal(s, n, width - 1);
            assert(final(s)@ =~= old(s)@ + padded_decimal(n as nat, width as nat)) by {
                assert(padded_decimal(n as nat, width as nat) == "0"@ + padded_decimal(n as nat, (width - 1) as nat));
            }
        } else {
            push_decimal(s, n);
        }
    }
}

fn pow10_exec(e: u64) -> (r: u64)
    requires
        e <= 19,
    ensures
        r == pow10(e as nat),
    decreases e,
{
    if e == 0 {
        1
    } else {
        let p = pow10_exec(e - 1);
        proof {
            lemma_pow10_bound((e - 1) as nat);
        }
        10 * p
    }
}

/// Ten to the power `e` is at most ten to the eighteen for `e` up to eighteen.
pub proof fn lemma_pow10_bound(e: nat)
    requires
        e <= 18,
    ensures
        pow10(e) <= 1_000_000_000_000_000_000,
{
    lemma_pow10_mono(e, 18);
    reveal_with_fuel(pow10, 19);
}

/// Powers of ten grow with the exponent.
pub proof fn lemma_pow10_mono(a: nat, b: nat)
    requires
        a <= b,
    ensures
        pow10(a) <= pow10(b),
    decreases b,
{
    if a < b {
        lemma_pow10_mono(a, (b - 1) as nat);
    }
}

/// The number written as a text.
pub fn decimal_string(n: u64) -> (r: String)
    ensures
        r@ == decimal(n as nat),
{
    let mut s = String::new();
    push_decimal(&mut s, n);
    assert(s@ =~= decimal(n as nat));
    s
}

/// Texts joined with `", "` between them.
pub open spec fn joined(items: Seq<Seq<char>>) -> Seq<char>
    decreases items.len(),
{
    if items.len() == 0 {
        Seq::empty()
    } else if items.len() == 1 {
        items[0]
    } else {
        joined(items.drop_last()) + ", "@ + items.last()
    }
}

/// The characters of each text.
pub open spec fn texts_of(items: Seq<&'static str>) -> Seq<Seq<char>> {
    items.map_values(|t: &'static str| t@)
}

/// The texts joined with `", "` between them.
pub fn join_texts(items: &Vec<&'static str>) -> (r: String)
    ensures
        r@ == joined(texts_of(items@)),
{
    let mut s = String::new();
    let mut i: usize = 0;
    while i < items.len()
        invariant
            i <= items@.len(),
            s@ == joined(texts_of(items@.take(i as int))),
        decreases items@.len() - i,
    {
        proof {
            assert(texts_of(items@.take(i as int + 1)).drop_last() =~= texts_of(items@.take(i as int)));
        }
        if i > 0 {
            s.append(", ");
        }
        s.append(items[i]);
        i = i + 1;
    }
    assert(items@.take(items@.len() as int) =~= items@);
    s
}

/// The characters of each text.
pub open spec fn strings_of(items: Seq<String>) -> Seq<Seq<char>> {
    items.map_values(|t: String| t@)
}

/// The texts joined with `", "` between them.
pub fn join_strings(items: &Vec<String>) -> (r: String)
    ensures
        r@ == joined(strings_of(items@)),
{
    let mut s = String::new();
    let mut i: usize = 0;
    while i < items.len()
        invariant
            i <= items@.len(),
            s@ == joined(strings_of(items@.take(i as int))),
        decreases items@.len() - i,
    {
        proof {
            assert(strings_of(items@.take(i as int + 1)).drop_last() =~= strings_of(items@.take(i as int)));
        }
        if i > 0 {
            s.append(", ");
        }
        s.append(items[i].as_str());
        i = i + 1;
    }
    assert(items@.take(items@.len() as int) =~= items@);
    s
}

/// Whether `needle` occurs in `haystack`.
pub open spec fn contains_text(haystack: Seq<char>, needle: Seq<char>) -> bool {
    exists|i: int| 0 <= i && i + needle.len() <= haystack.len() && #[trigger] haystack.subrange(i, i + needle.len()) == needle
}

fn matches_at(haystack: &str, needle: &str, i: usize) -> (r: bool)
    requires
        i + needle@.len() <= haystack@.len(),
    ensures
        r == (haystack@.subrange(i as int, i + needle@.len()) == needle@),
{
    let h = haystack.unicode_len();
    let n = needle.unicode_len();
    let mut k: usize = 0;
    while k < n
        invariant
            h == haystack@.len(),
            n == needle@.len(),
            i + n <= haystack@.len(),
            k <= n,
            forall|j: int| 0 <= j < k ==> haystack@[i + j] == needle@[j],
        decreases n - k,
    {
        if haystack.get_char(i + k) != needle.get_char(k) {
            assert(haystack@.subrange(i as int, i + n)[k as int] != needle@[k as int]);
            return false;
        }
        k = k + 1;
    }
    assert(haystack@.subrange(i as int, i + n) =~= needle@);
    true
}

/// Whether `needle` occurs in `haystack`.
pub fn str_contains(haystack: &str, needle: &str) -> (r: bool)
    ensures
        r == contains_text(haystack@, needle@),
{
    let h = haystack.unicode_len();
    let n = needle.unicode_len();
    if n > h {
        return false;
    }
    if n == 0 {
        assert(haystack@.subrange(0int, 0int + needle@.len()) =~= needle@);
        return true;
    }
    let mut i: usize = 0;
    while i <= h - n
        invariant
            h == haystack@.len(),
            n == needle@.len(),
            0 < n <= h,
            i <= h - n + 1,
            forall|j: int| 0 <= j < i ==> #[trigger] haystack@.subrange(j, j + n) != needle@,
        decreases h - n + 1 - i,
    {
        if matches_at(haystack, needle, i) {
            return true;
        }
        i = i + 1;
    }
    false
}

/// A text padded with spaces on the right to at least `width` characters.
pub open spec fn padded_right(s: Seq<char>, width: nat) -> Seq<char> {
    if s.len() >= width {
        s
    } else {
        s + Seq::new((width - s.len()) as nat, |i: int| ' ')
    }
}

/// Appends `text` padded with spaces on the right to at least `width` characters.
pub fn push_padded_right(s: &mut String, text: &str, width: usize)
    ensures
        final(s)@ == old(s)@ + padded_right(text@, width as nat),
{
    let ghost s0 = s@;
    s.append(text);
    let n = text.unicode_len();
    let mut k: usize = n;
    while k < width
        invariant
            n == text@.len(),
            n <= k,
            k <= width || k == n,
            s@ == s0 + text@ + Seq::new((k - n) as nat, |i: int| ' '),
        decreases width - k,
    {
        let ghost before = s@;
        s.append(" ");
        assert(s@ =~= s0 + text@ + Seq::new((k + 1 - n) as nat, |i: int| ' ')) by {
            assert(" "@ =~= seq![' ']) by {
                reveal_strlit(" ");
            }
        }
        k = k + 1;
    }
    assert(s@ =~= s0 + padded_right(text@, width as nat));
}

} // verus!
