//! Small string helpers with exact specifications.

use vstd::prelude::*;

verus! {

/// Compares two string slices character by character.
pub fn str_equals(a: &str, b: &str) -> (r: bool)
    ensures
        r == (a@ == b@),
{
    let n = a.unicode_len();
    let m = b.unicode_len();
    if n != m {
        return false;
    }
    let mut i: usize = 0;
    while i < n
        invariant
            n == a@.len(),
            m == b@.len(),
            n == m,
            i <= n,
            forall|j: int| 0 <= j < i ==> a@[j] == b@[j],
        decreases n - i,
    {
        if a.get_char(i) != b.get_char(i) {
            return false;
        }
        i = i + 1;
    }
    assert(a@ =~= b@);
    true
}

/// Whether `s` starts with `prefix`.
pub fn str_starts_with(s: &str, prefix: &str) -> (r: bool)
    ensures
        r == (prefix@.len() <= s@.len() && s@.take(prefix@.len() as int) == prefix@),
{
    let n = s.unicode_len();
    let m = prefix.unicode_len();
    if m > n {
        return false;
    }
    let mut i: usize = 0;
    while i < m
        invariant
            n == s@.len(),
            m == prefix@.len(),
            m <= n,
            i <= m,
            forall|j: int| 0 <= j < i ==> s@[j] == prefix@[j],
        decreases m - i,
    {
        if s.get_char(i) != prefix.get_char(i) {
            assert(s@.take(m as int)[i as int] != prefix@[i as int]);
            return false;
        }
        i = i + 1;
    }
    assert(s@.take(m as int) =~= prefix@);
    true
}

/// The uppercase hexadecimal digit for `d`.
pub open spec fn hex_char(d: int) -> char {
    if d < 10 {
        ((d + 48) as u8) as char
    } else {
        ((d + 55) as u8) as char
    }
}

/// The uppercase hexadecimal digits of `n`, without leading zeros.
pub open spec fn hex_digits(n: nat) -> Seq<char>
    decreases n,
{
    if n < 16 {
        seq![hex_char(n as int)]
    } else {
        hex_digits(n / 16).push(hex_char((n % 16) as int))
    }
}

/// `n` in uppercase hexadecimal, padded with zeros to at least four
/// digits, as `{:04X}` formats it.
pub open spec fn hex4(n: nat) -> Seq<char> {
    let d = hex_digits(n);
    if d.len() < 4 {
        Seq::new((4 - d.len()) as nat, |i: int| '0') + d
    } else {
        d
    }
}

/// Whether `a` comes no later than `b` in the lexicographic order of code
/// points, which is the order in which `str` values compare.
pub open spec fn str_le(a: Seq<char>, b: Seq<char>) -> bool
    decreases a.len(),
{
    if a.len() == 0 {
        true
    } else if b.len() == 0 {
        false
    } else if (a[0] as u32) != (b[0] as u32) {
        (a[0] as u32) < (b[0] as u32)
    } else {
        str_le(a.drop_first(), b.drop_first())
    }
}

/// Of two strings, one comes no later than the other.
pub proof fn lemma_str_le_total(a: Seq<char>, b: Seq<char>)
    ensures
        str_le(a, b) || str_le(b, a),
    decreases a.len(),
{
    if a.len() > 0 && b.len() > 0 && (a[0] as u32) == (b[0] as u32) {
        lemma_str_le_total(a.drop_first(), b.drop_first());
    }
}

/// The order of strings is transitive.
pub proof fn lemma_str_le_transitive(a: Seq<char>, b: Seq<char>, c: Seq<char>)
    requires
        str_le(a, b),
        str_le(b, c),
    ensures
        str_le(a, c),
    decreases a.len(),
{
    if a.len() > 0 && b.len() > 0 && c.len() > 0 && (a[0] as u32) == (b[0] as u32)
        && (b[0] as u32) == (c[0] as u32) {
        lemma_str_le_transitive(a.drop_first(), b.drop_first(), c.drop_first());
    }
}

/// Whether `a` comes no later than `b` as strings compare.
pub fn str_less_or_equal(a: &str, b: &str) -> (r: bool)
    ensures
        r == str_le(a@, b@),
{
    let n = a.unicode_len();
    let m = b.unicode_len();
    let mut i: usize = 0;
    proof {
        assert(a@.skip(0) =~= a@);
        assert(b@.skip(0) =~= b@);
    }
    loop
        invariant
            n == a@.len(),
            m == b@.len(),
            i <= n,
            i <= m,
            str_le(a@, b@) == str_le(a@.skip(i as int), b@.skip(i as int)),
        decreases n - i,
    {
        if i == n {
            return true;
        }
        if i == m {
            return false;
        }
        let x = a.get_char(i) as u32;
        let y = b.get_char(i) as u32;
        if x != y {
            return x < y;
        }
        proof {
            assert(a@.skip(i as int).drop_first() =~= a@.skip(i + 1));
            assert(b@.skip(i as int).drop_first() =~= b@.skip(i + 1));
        }
        i = i + 1;
    }
}

/// Whether `needle` occurs in `hay` as a run of consecutive characters.
pub open spec fn has_substring(hay: Seq<char>, needle: Seq<char>) -> bool {
    exists|i: int|
        0 <= i && i + needle.len() <= hay.len() && #[trigger] hay.subrange(i, i + needle.len()) == needle
}

/// Whether `needle` occurs in `hay`.
pub fn str_contains(hay: &str, needle: &str) -> (r: bool)
    ensures
        r == has_substring(hay@, needle@),
{
    let n = hay.unicode_len();
    let m = needle.unicode_len();
    if m > n {
        proof {
            assert forall|i: int| 0 <= i && i + m <= n implies #[trigger] hay@.subrange(i, i + m)
                != needle@ by {}
        }
        return false;
    }
    let mut start: usize = 0;
    while start <= n - m
        invariant
            n == hay@.len(),
            m == needle@.len(),
            m <= n,
            start <= n - m + 1,
            forall|i: int| 0 <= i < start ==> #[trigger] hay@.subrange(i, i + m) != needle@,
        decreases n - m + 1 - start,
    {
        let mut k: usize = 0;
        let mut same = true;
        while k < m
            invariant
                n == hay@.len(),
                m == needle@.len(),
                start + m <= n,
                k <= m,
                same == (forall|j: int| 0 <= j < k ==> hay@[start + j] == needle@[j]),
            decreases m - k,
        {
            if hay.get_char(start + k) != needle.get_char(k) {
                same = false;
            }
            k = k + 1;
        }
        if same {
            assert(hay@.subrange(start as int, start + m) =~= needle@);
            return true;
        }
        proof {
            let j = choose|j: int| 0 <= j < m && hay@[start + j] != needle@[j];
            assert(hay@.subrange(start as int, start + m)[j] != needle@[j]);
        }
        start = start + 1;
    }
    proof {
        assert forall|i: int| 0 <= i && i + m <= n implies #[trigger] hay@.subrange(i, i + m)
            != needle@ by {
            assert(i < start);
        }
    }
    false
}

/// The lowercase form of a string, as `str::to_lowercase` gives it.
pub uninterp spec fn lowercase(s: Seq<char>) -> Seq<char>;

/// Lowercases a string with std's `str::to_lowercase`, whose result
/// depends on the string alone (the Unicode lowercase mapping, with no
/// locale); the mapping itself is left to its name.
#[verifier::external_body]
pub(crate) fn str_to_lowercase(s: &str) -> (r: String)
    ensures
        r@ == lowercase(s@),
{
    s.to_lowercase()
}

/// The one-character string of hexadecimal digit `d`.
fn hex_digit_str(d: u32) -> (r: &'static str)
    requires
        d < 16,
    ensures
        r@ == seq![hex_char(d as int)],
{
    proof {
        reveal_strlit("0");
        reveal_strlit("1");
        reveal_strlit("2");
        reveal_strlit("3");
        reveal_strlit("4");
        reveal_strlit("5");
        reveal_strlit("6");
        reveal_strlit("7");
        reveal_strlit("8");
        reveal_strlit("9");
        reveal_strlit("A");
        reveal_strlit("B");
        reveal_strlit("C");
        reveal_strlit("D");
        reveal_strlit("E");
        reveal_strlit("F");
    }
    let r = match d {
        0 => "0",
        1 => "1",
        2 => "2",
        3 => "3",
        4 => "4",
        5 => "5",
        6 => "6",
        7 => "7",
        8 => "8",
        9 => "9",
        10 => "A",
        11 => "B",
        12 => "C",
        13 => "D",
        14 => "E",
        _ => "F",
    };
    assert(r@ =~= seq![hex_char(d as int)]);
    r
}

/// `prefix` followed by `n` in uppercase hexadecimal with at least four
/// digits.
pub fn with_hex4(prefix: &str, n: u32) -> (r: String)
    ensures
        r@ == prefix@ + hex4(n as nat),
{
    // Digits, least significant first.
    let mut digits: Vec<u32> = Vec::new();
    let mut rest: u32 = n;
    while rest >= 16
        invariant
            forall|k: int| 0 <= k < digits@.len() ==> digits@[k] < 16,
            hex_digits(n as nat) == hex_digits(rest as nat) + Seq::new(
                digits@.len(),
                |k: int| hex_char(digits@[digits@.len() - 1 - k] as int),
            ),
        decreases rest,
    {
        digits.push(rest % 16);
        let ghost r0 = rest;
        rest = rest / 16;
        proof {
            assert(hex_digits(r0 as nat) == hex_digits(rest as nat).push(hex_char((r0 % 16) as int)));
            assert(hex_digits(n as nat) =~= hex_digits(rest as nat) + Seq::new(
                digits@.len(),
                |k: int| hex_char(digits@[digits@.len() - 1 - k] as int),
            ));
        }
    }
    digits.push(rest);
    let ghost ds = digits@;
    assert(hex_digits(n as nat) =~= Seq::new(ds.len(), |k: int| hex_char(ds[ds.len() - 1 - k] as int)));
    let mut out = String::from_str(prefix);
    let count = digits.len();
    // Leading zeros up to four digits.
    let mut pad: usize = count;
    while pad < 4
        invariant
            count == ds.len(),
            count <= pad <= 4 || (count > 4 && pad == count),
            out@ == prefix@ + Seq::new((pad - count) as nat, |i: int| '0'),
        decreases 4 - pad,
    {
        proof {
            reveal_strlit("0");
        }
        out.append("0");
        pad = pad + 1;
        assert(out@ =~= prefix@ + Seq::new((pad - count) as nat, |i: int| '0'));
    }
    let ghost padding = out@;
    let mut i: usize = count;
    while i > 0
        invariant
            digits@ == ds,
            count == ds.len(),
            i <= count,
            forall|k: int| 0 <= k < ds.len() ==> ds[k] < 16,
            out@ == padding + Seq::new((count - i) as nat, |k: int| hex_char(ds[count - 1 - k] as int)),
        decreases i,
    {
        i = i - 1;
        let s = hex_digit_str(digits[i]);
        out.append(s);
        assert(out@ =~= padding + Seq::new((count - i) as nat, |k: int| hex_char(ds[count - 1 - k] as int)));
    }
    assert(hex_digits(n as nat).len() == count);
    assert(out@ =~= prefix@ + hex4(n as nat));
    out
}

/// The decimal digits of `n`, without leading zeros.
pub open spec fn decimal_digits(n: nat) -> Seq<char>
    decreases n,
{
    if n < 10 {
        seq![hex_char(n as int)]
    } else {
        decimal_digits(n / 10).push(hex_char((n % 10) as int))
    }
}

/// `prefix` followed by `n` in decimal.
pub fn with_decimal(prefix: &str, n: u32) -> (r: String)
    ensures
        r@ == prefix@ + decimal_digits(n as nat),
{
    let mut digits: Vec<u32> = Vec::new();
    let mut rest: u32 = n;
    while rest >= 10
        invariant
            forall|k: int| 0 <= k < digits@.len() ==> digits@[k] < 10,
            decimal_digits(n as nat) == decimal_digits(rest as nat) + Seq::new(
                digits@.len(),
                |k: int| hex_char(digits@[digits@.len() - 1 - k] as int),
            ),
        decreases rest,
    {
        digits.push(rest % 10);
        let ghost r0 = rest;
        rest = rest / 10;
        proof {
            assert(decimal_digits(r0 as nat) == decimal_digits(rest as nat).push(
                hex_char((r0 % 10) as int),
            ));
            assert(decimal_digits(n as nat) =~= decimal_digits(rest as nat) + Seq::new(
                digits@.len(),
                |k: int| hex_char(digits@[digits@.len() - 1 - k] as int),
            ));
        }
    }
    digits.push(rest);
    let ghost ds = digits@;
    assert(decimal_digits(n as nat) =~= Seq::new(
        ds.len(),
        |k: int| hex_char(ds[ds.len() - 1 - k] as int),
    ));
    let mut out = String::from_str(prefix);
    let count = digits.len();
    let mut i: usize = count;
    while i > 0
        invariant
            digits@ == ds,
            count == ds.len(),
            i <= count,
            forall|k: int| 0 <= k < ds.len() ==> ds[k] < 10,
            out@ == prefix@ + Seq::new((count - i) as nat, |k: int| hex_char(ds[count - 1 - k] as int)),
        decreases i,
    {
        i = i - 1;
        let s = hex_digit_str(digits[i]);
        out.append(s);
        assert(out@ =~= prefix@ + Seq::new(
            (count - i) as nat,
            |k: int| hex_char(ds[count - 1 - k] as int),
        ));
    }
    assert(out@ =~= prefix@ + decimal_digits(n as nat));
    out
}

/// Append `c` to `s`, by `String::push`.
#[verifier::external_body]
pub(crate) fn string_push(s: &mut String, c: char)
    ensures
        final(s)@ == old(s)@.push(c),
{
    s.push(c);
}

/// Remove and return the last character of `s`, by `String::pop`.
#[verifier::external_body]
pub(crate) fn string_pop(s: &mut String) -> (r: Option<char>)
    ensures
        old(s)@.len() == 0 ==> r is None && final(s)@ == old(s)@,
        old(s)@.len() > 0 ==> r == Some(old(s)@.last()) && final(s)@ == old(s)@.drop_last(),
{
    s.pop()
}

/// Empty `s`, by `String::clear`.
#[verifier::external_body]
pub(crate) fn string_clear(s: &mut String)
    ensures
        final(s)@ == Seq::<char>::empty(),
{
    s.clear();
}

} // verus!
