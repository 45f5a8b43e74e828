//! Decimal numbers and plain text, as characters and as UTF-8 bytes.

use vstd::prelude::*;

verus! {

/// The ASCII character of the decimal digit `d`.
pub open spec fn digit_char(d: int) -> char {
    if d <= 0 {
        '0'
    } else if d == 1 {
        '1'
    } else if d == 2 {
        '2'
    } else if d == 3 {
        '3'
    } else if d == 4 {
        '4'
    } else if d == 5 {
        '5'
    } else if d == 6 {
        '6'
    } else if d == 7 {
        '7'
    } else if d == 8 {
        '8'
    } else {
        '9'
    }
}

/// The decimal representation of `n`, without sign or leading zeros.
pub open spec fn decimal(n: nat) -> Seq<char>
    decreases n,
{
    if n < 10 {
        seq![digit_char(n as int)]
    } else {
        decimal(n / 10).push(digit_char((n % 10) as int))
    }
}

fn digit_text(d: usize) -> (r: &'static str)
    requires
        d < 10,
    ensures
        r@ == seq![digit_char(d as int)],
{
    if d == 0 {
        proof { reveal_strlit("0"); }
        "0"
    } else if d == 1 {
        proof { reveal_strlit("1"); }
        "1"
    } else if d == 2 {
        proof { reveal_strlit("2"); }
        "2"
    } else if d == 3 {
        proof { reveal_strlit("3"); }
        "3"
    } else if d == 4 {
        proof { reveal_strlit("4"); }
        "4"
    } else if d == 5 {
        proof { reveal_strlit("5"); }
        "5"
    } else if d == 6 {
        proof { reveal_strlit("6"); }
        "6"
    } else if d == 7 {
        proof { reveal_strlit("7"); }
        "7"
    } else if d == 8 {
        proof { reveal_strlit("8"); }
        "8"
    } else {
        proof { reveal_strlit("9"); }
        "9"
    }
}

/// Writes `n` in decimal, as `format!("{}", n)` does.
pub fn decimal_string(n: usize) -> (s: String)
    ensures
        s@ == decimal(n as nat),
    decreases n,
{
    if n < 10 {
        String::from_str(digit_text(n))
    } else {
        let mut s = decimal_string(n / 10);
        s.append(digit_text(n % 10));
        s
    }
}


/// The bytes of an ASCII character sequence.
pub open spec fn ascii_bytes(s: Seq<char>) -> Seq<u8> {
    s.map_values(|c: char| c as u8)
}

/// The byte `b` is an ASCII decimal digit.
pub open spec fn is_digit_byte(b: u8) -> bool {
    48 <= b <= 57
}

/// Every byte of `s` is an ASCII decimal digit.
pub open spec fn all_digit_bytes(s: Seq<u8>) -> bool {
    forall|i: int| 0 <= i < s.len() ==> is_digit_byte(#[trigger] s[i])
}

/// The number that the decimal digits `s` spell.
pub open spec fn digits_value(s: Seq<u8>) -> nat
    decreases s.len(),
{
    if s.len() == 0 {
        0
    } else {
        digits_value(s.drop_last()) * 10 + (s.last() - 48) as nat
    }
}

/// What `str::parse::<usize>` gives for a string of UTF-8 bytes `s`: an
/// optional `+`, then one or more ASCII digits whose value fits in `usize`.
pub open spec fn parsed_usize(s: Seq<u8>) -> Option<usize> {
    let digits = if s.len() > 0 && s[0] == 43u8 {
        s.drop_first()
    } else {
        s
    };
    if digits.len() > 0 && all_digit_bytes(digits) && digits_value(digits) <= usize::MAX {
        Some(digits_value(digits) as usize)
    } else {
        None
    }
}

proof fn lemma_digits_value_grows(s: Seq<u8>, b: u8)
    requires
        is_digit_byte(b),
    ensures
        digits_value(s.push(b)) == digits_value(s) * 10 + (b - 48),
        digits_value(s.push(b)) >= digits_value(s),
{
    assert(s.push(b).drop_last() =~= s);
}

/// Reads a decimal number as `str::parse::<usize>` does, from the string's
/// UTF-8 bytes.
pub fn parse_usize(s: &[u8]) -> (r: Option<usize>)
    ensures
        r == parsed_usize(s@),
{
    assert(s@.subrange(0, s@.len() as int) =~= s@);
    parse_usize_between(s, 0, s.len())
}

/// Reads a decimal number as `str::parse::<usize>` does, from the bytes of `s`
/// between `from` and `to`.
pub fn parse_usize_between(s: &[u8], from: usize, to: usize) -> (r: Option<usize>)
    requires
        from <= to <= s@.len(),
    ensures
        r == parsed_usize(s@.subrange(from as int, to as int)),
{
    let ghost t = s@.subrange(from as int, to as int);
    let n = to;
    let start: usize = if from < n && s[from] == 43u8 {
        from + 1
    } else {
        from
    };
    let ghost digits = if t.len() > 0 && t[0] == 43u8 {
        t.drop_first()
    } else {
        t
    };
    assert(digits =~= s@.subrange(start as int, n as int));
    if start == n {
        return None;
    }
    let mut acc: u128 = 0;
    let mut overflow = false;
    let mut i: usize = start;
    while i < n
        invariant
            start <= i <= n,
            n <= s@.len(),
            t == s@.subrange(from as int, to as int),
            digits == s@.subrange(start as int, n as int),
            digits == (if t.len() > 0 && t[0] == 43u8 { t.drop_first() } else { t }),
            all_digit_bytes(s@.subrange(start as int, i as int)),
            !overflow ==> acc == digits_value(s@.subrange(start as int, i as int)),
            !overflow ==> acc <= usize::MAX,
            overflow ==> digits_value(s@.subrange(start as int, i as int)) > usize::MAX,
        decreases n - i,
    {
        let b = s[i];
        let ghost before = s@.subrange(start as int, i as int);
        assert(s@.subrange(start as int, i + 1) =~= before.push(b));
        if b < 48 || b > 57 {
            assert(!is_digit_byte(digits[i - start]));
            assert(!all_digit_bytes(digits));
            assert(parsed_usize(t) is None);
            return None;
        }
        proof {
            lemma_digits_value_grows(before, b);
        }
        if !overflow {
            let next: u128 = acc * 10 + (b - 48) as u128;
            if next > usize::MAX as u128 {
                overflow = true;
            } else {
                acc = next;
            }
        }
        i = i + 1;
    }
    if overflow {
        None
    } else {
        Some(acc as usize)
    }
}

/// Position of the first occurrence of `sep` in `s` at or after `i`, or the
/// length of `s` where there is none.
pub open spec fn find_from<A>(s: Seq<A>, sep: Seq<A>, i: nat) -> nat
    decreases s.len() + 1 - i,
{
    if i + sep.len() > s.len() {
        s.len()
    } else if s.subrange(i as int, i + sep.len() as int) == sep {
        i
    } else {
        find_from(s, sep, i + 1)
    }
}

/// The first piece of `s` split on `sep`, as `s.split(sep).next()` gives it.
pub open spec fn first_piece<A>(s: Seq<A>, sep: Seq<A>) -> Seq<A> {
    s.take(find_from(s, sep, 0) as int)
}

/// The first occurrence at or after `i` is the occurrence at `k` when none
/// lies between them.
pub proof fn lemma_find_first<A>(s: Seq<A>, sep: Seq<A>, i: nat, k: nat)
    requires
        i <= k,
        k + sep.len() <= s.len(),
        s.subrange(k as int, k + sep.len() as int) == sep,
        forall|j: nat|
            i <= j < k ==> #[trigger] s.subrange(j as int, j + sep.len() as int) != sep,
    ensures
        find_from(s, sep, i) == k,
    decreases k - i,
{
    if i < k {
        lemma_find_first(s, sep, i + 1, k);
    }
}

/// With no occurrence at or after `i`, the search runs to the end.
pub proof fn lemma_find_none<A>(s: Seq<A>, sep: Seq<A>, i: nat)
    requires
        forall|j: nat|
            i <= j && j + sep.len() <= s.len() ==> #[trigger] s.subrange(j as int, j + sep.len() as int)
                != sep,
    ensures
        find_from(s, sep, i) == s.len(),
    decreases s.len() + 1 - i,
{
    if i + sep.len() <= s.len() {
        lemma_find_none(s, sep, i + 1);
    }
}

/// The search result lies between its start and the end of the sequence.
pub proof fn lemma_find_bounds<A>(s: Seq<A>, sep: Seq<A>, i: nat)
    requires
        i <= s.len(),
    ensures
        i <= find_from(s, sep, i) <= s.len(),
    decreases s.len() + 1 - i,
{
    if sep.len() == 0 {
        assert(s.subrange(i as int, i as int) =~= sep);
    } else if i + sep.len() <= s.len() && s.subrange(i as int, i + sep.len() as int) != sep {
        lemma_find_bounds(s, sep, i + 1);
    }
}

/// With no occurrence starting before `m`, the search ends at `m` or later.
pub proof fn lemma_find_at_least<A>(s: Seq<A>, sep: Seq<A>, i: nat, m: nat)
    requires
        i <= m <= s.len(),
        forall|j: nat|
            i <= j < m && j + sep.len() <= s.len() ==> #[trigger] s.subrange(
                j as int,
                j + sep.len() as int,
            ) != sep,
    ensures
        m <= find_from(s, sep, i),
    decreases m - i,
{
    if i < m {
        lemma_find_at_least(s, sep, i + 1, m);
    } else {
        lemma_find_bounds(s, sep, i);
    }
}

/// Length of the first piece of `s` split on the non-empty separator `sep`.
pub fn first_piece_len(s: &[u8], sep: &[u8]) -> (r: usize)
    requires
        sep@.len() > 0,
    ensures
        r == find_from(s@, sep@, 0),
        r <= s@.len(),
        s@.take(r as int) == first_piece(s@, sep@),
{
    proof {
        lemma_find_bounds(s@, sep@, 0);
    }
    let n = s.len();
    let m = sep.len();
    let mut i: usize = 0;
    if m > n {
        proof { lemma_find_none(s@, sep@, 0); }
        return n;
    }
    while i <= n - m
        invariant
            n == s@.len(),
            m == sep@.len(),
            m > 0,
            i <= n,
            m <= n,
            find_from(s@, sep@, 0) == find_from(s@, sep@, i as nat),
        decreases n - i,
    {
        let mut j: usize = 0;
        let mut same = true;
        assert(s@.subrange(i as int, i as int) =~= sep@.subrange(0, 0));
        while j < m
            invariant
                n == s@.len(),
                m == sep@.len(),
                i + m <= n,
                j <= m,
                same == (s@.subrange(i as int, i + j) == sep@.subrange(0, j as int)),
            decreases m - j,
        {
            proof {
                assert(s@.subrange(i as int, i + j + 1) =~= s@.subrange(i as int, i + j).push(s@[i + j]));
                assert(sep@.subrange(0, j + 1) =~= sep@.subrange(0, j as int).push(sep@[j as int]));
                if s@.subrange(i as int, i + j) == sep@.subrange(0, j as int) && s@[i + j] != sep@[j as int] {
                    assert(s@.subrange(i as int, i + j + 1)[j as int] != sep@.subrange(0, j + 1)[j as int]);
                }
                if s@.subrange(i as int, i + j) != sep@.subrange(0, j as int) {
                    if s@.subrange(i as int, i + j + 1) == sep@.subrange(0, j + 1) {
                        assert(s@.subrange(i as int, i + j) =~= s@.subrange(i as int, i + j + 1).drop_last());
                        assert(sep@.subrange(0, j as int) =~= sep@.subrange(0, j + 1).drop_last());
                    }
                }
            }
            if s[i + j] != sep[j] {
                same = false;
            }
            j = j + 1;
        }
        assert(sep@.subrange(0, m as int) =~= sep@);
        if same {
            return i;
        }
        i = i + 1;
    }
    n
}

/// `b` begins with the bytes `p`.
pub open spec fn has_prefix(b: Seq<u8>, p: Seq<u8>) -> bool {
    p.len() <= b.len() && b.take(p.len() as int) == p
}

/// Tells whether `s` begins with `p`, as `str::starts_with` does on bytes.
pub fn starts_with_bytes(s: &[u8], p: &[u8]) -> (r: bool)
    ensures
        r == has_prefix(s@, p@),
{
    if p.len() > s.len() {
        return false;
    }
    let mut i: usize = 0;
    while i < p.len()
        invariant
            p@.len() <= s@.len(),
            i <= p@.len(),
            s@.take(i as int) == p@.take(i as int),
        decreases p@.len() - i,
    {
        if s[i] != p[i] {
            assert(s@.take(p@.len() as int)[i as int] != p@[i as int]);
            return false;
        }
        assert(s@.take(i + 1) =~= s@.take(i as int).push(s@[i as int]));
        assert(p@.take(i + 1) =~= p@.take(i as int).push(p@[i as int]));
        i = i + 1;
    }
    assert(p@.take(p@.len() as int) =~= p@);
    true
}

/// UTF-8 encoding distributes over concatenation.
pub proof fn lemma_encode_concat(a: Seq<char>, b: Seq<char>)
    ensures
        vstd::utf8::encode_utf8(a + b) == vstd::utf8::encode_utf8(a) + vstd::utf8::encode_utf8(b),
    decreases a.len(),
{
    if a.len() == 0 {
        assert(a + b =~= b);
        assert(vstd::utf8::encode_utf8(a) =~= Seq::<u8>::empty());
        assert(vstd::utf8::encode_utf8(a) + vstd::utf8::encode_utf8(b) =~= vstd::utf8::encode_utf8(b));
    } else {
        lemma_encode_concat(a.drop_first(), b);
        assert((a + b).drop_first() =~= a.drop_first() + b);
        assert((a + b)[0] == a[0]);
        assert(vstd::utf8::encode_utf8(a + b) =~= vstd::utf8::encode_scalar(a[0] as u32)
            + (vstd::utf8::encode_utf8(a.drop_first()) + vstd::utf8::encode_utf8(b)));
    }
}

/// The UTF-8 encoding of ASCII characters is their bytes.
pub proof fn lemma_encode_ascii(a: Seq<char>)
    requires
        vstd::utf8::is_ascii_chars(a),
    ensures
        vstd::utf8::encode_utf8(a) == ascii_bytes(a),
{
    vstd::utf8::is_ascii_chars_encode_utf8(a);
    assert(vstd::utf8::encode_utf8(a) =~= ascii_bytes(a));
}

/// A string that begins with an ASCII character begins with its byte.
pub proof fn lemma_first_byte(s: Seq<char>)
    requires
        s.len() > 0,
        '\0' <= s[0] <= '\u{7f}',
    ensures
        vstd::utf8::encode_utf8(s).len() > 0,
        vstd::utf8::encode_utf8(s)[0] == s[0] as u8,
{
    let first = seq![s[0]];
    assert(s =~= first + s.drop_first());
    lemma_encode_concat(first, s.drop_first());
    assert(vstd::utf8::is_ascii_chars(first));
    lemma_encode_ascii(first);
}

/// The character of a digit is ASCII, and its byte is 48 plus the digit.
proof fn lemma_digit_char_byte(d: int)
    requires
        0 <= d < 10,
    ensures
        digit_char(d) as u8 == 48 + d,
        ('\0' <= digit_char(d) <= '\u{7f}'),
{
    assert('0' as u8 == 48);
    assert('1' as u8 == 49);
    assert('2' as u8 == 50);
    assert('3' as u8 == 51);
    assert('4' as u8 == 52);
    assert('5' as u8 == 53);
    assert('6' as u8 == 54);
    assert('7' as u8 == 55);
    assert('8' as u8 == 56);
    assert('9' as u8 == 57);
}

/// A decimal representation is made of ASCII digits whose value is the number.
pub proof fn lemma_decimal_digits(n: nat)
    ensures
        decimal(n).len() > 0,
        vstd::utf8::is_ascii_chars(decimal(n)),
        all_digit_bytes(ascii_bytes(decimal(n))),
        digits_value(ascii_bytes(decimal(n))) == n,
    decreases n,
{
    if n < 10 {
        lemma_digit_char_byte(n as int);
        let b = ascii_bytes(decimal(n));
        assert(b.len() == 1);
        assert(b.drop_last() =~= Seq::<u8>::empty());
        assert(b.last() == digit_char(n as int) as u8);
        assert(digits_value(b) == digits_value(b.drop_last()) * 10 + (b.last() - 48) as nat);
    } else {
        lemma_digit_char_byte((n % 10) as int);
        lemma_decimal_digits(n / 10);
        let d = decimal(n / 10);
        let c = digit_char((n % 10) as int);
        assert(ascii_bytes(d.push(c)) =~= ascii_bytes(d).push(c as u8));
        assert(ascii_bytes(d.push(c)).drop_last() =~= ascii_bytes(d));
        assert(decimal(n) == d.push(c));
        assert(n == (n / 10) * 10 + n % 10);
    }
}

/// Reading back a written number gives the number.
pub proof fn lemma_decimal_parses(n: usize)
    ensures
        parsed_usize(ascii_bytes(decimal(n as nat))) == Some(n),
{
    lemma_decimal_digits(n as nat);
}

/// Numbers below ten thousand are written with at most four digits.
pub proof fn lemma_decimal_short(n: nat)
    ensures
        n < 10 ==> decimal(n).len() == 1,
        n < 100 ==> decimal(n).len() <= 2,
        n < 1000 ==> decimal(n).len() <= 3,
        n < 10000 ==> decimal(n).len() <= 4,
    decreases n,
{
    if n >= 10 {
        lemma_decimal_short(n / 10);
    }
}

} // verus!
