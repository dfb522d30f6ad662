//! Character-level text helpers with exact specifications.
//!
//! Every helper states its result over `Seq<char>`, the view of `str` and
//! `String`.  The whitespace, trimming, line splitting and integer parsing
//! specifications follow the documented behaviour of the corresponding
//! methods of `str` and of `FromStr` for unsigned integers.

use vstd::prelude::*;

verus! {

/// Rust's `char::is_whitespace`: the Unicode `White_Space` property.
pub open spec fn is_white_space(c: char) -> bool {
    let u = c as u32;
    ||| 0x09 <= u <= 0x0D
    ||| u == 0x20
    ||| u == 0x85
    ||| u == 0xA0
    ||| u == 0x1680
    ||| 0x2000 <= u <= 0x200A
    ||| u == 0x2028
    ||| u == 0x2029
    ||| u == 0x202F
    ||| u == 0x205F
    ||| u == 0x3000
}

/// `s` with its leading whitespace removed.
pub open spec fn trim_start(s: Seq<char>) -> Seq<char>
    decreases s.len(),
{
    if s.len() > 0 && is_white_space(s[0]) {
        trim_start(s.drop_first())
    } else {
        s
    }
}

/// `s` with its trailing whitespace removed.
pub open spec fn trim_end(s: Seq<char>) -> Seq<char>
    decreases s.len(),
{
    if s.len() > 0 && is_white_space(s.last()) {
        trim_end(s.drop_last())
    } else {
        s
    }
}

/// `str::trim`: both ends stripped of whitespace.
pub open spec fn trim(s: Seq<char>) -> Seq<char> {
    trim_end(trim_start(s))
}

/// Converts a string slice into its characters.
pub fn chars_of(s: &str) -> (v: Vec<char>)
    ensures
        v@ == s@,
{
    let mut v: Vec<char> = Vec::new();
    for c in it: s.chars()
        invariant
            v@ == it.seq().take(it.index() as int),
            it.seq() == s@,
    {
        v.push(c);
    }
    v
}

/// Builds a `String` from characters (`FromIterator<char>` for `String`).
#[verifier::external_body]
pub(crate) fn string_of(v: &Vec<char>) -> (s: String)
    ensures
        s@ == v@,
{
    v.iter().collect()
}

/// Concatenation of two string slices.
pub fn str_concat(a: &str, b: &str) -> (s: String)
    ensures
        s@ == a@ + b@,
{
    let mut s = a.to_owned();
    s.append(b);
    s
}

/// Characters `lo..hi` of `v`.
pub fn sub_chars(v: &Vec<char>, lo: usize, hi: usize) -> (r: Vec<char>)
    requires
        lo <= hi <= v.len(),
    ensures
        r@ == v@.subrange(lo as int, hi as int),
{
    let mut r: Vec<char> = Vec::new();
    let mut i = lo;
    while i < hi
        invariant
            lo <= i <= hi <= v.len(),
            r@ == v@.subrange(lo as int, i as int),
        decreases hi - i,
    {
        r.push(v[i]);
        i = i + 1;
    }
    r
}

/// Appends the characters of `b` to `a`.
pub fn append_chars(a: &mut Vec<char>, b: &Vec<char>)
    ensures
        final(a)@ == old(a)@ + b@,
{
    let mut i: usize = 0;
    while i < b.len()
        invariant
            i <= b.len(),
            a@ == old(a)@ + b@.take(i as int),
        decreases b.len() - i,
    {
        a.push(b[i]);
        i = i + 1;
        assert(b@.take(i as int) == b@.take(i - 1 as int).push(b@[i - 1]));
    }
    assert(b@.take(b.len() as int) == b@);
}

/// Executable `is_white_space`.
pub fn is_white_space_char(c: char) -> (b: bool)
    ensures
        b == is_white_space(c),
{
    let u = c as u32;
    (0x09 <= u && u <= 0x0D) || u == 0x20 || u == 0x85 || u == 0xA0 || u == 0x1680 || (0x2000
        <= u && u <= 0x200A) || u == 0x2028 || u == 0x2029 || u == 0x202F || u == 0x205F || u
        == 0x3000
}

proof fn lemma_trim_start_skip(s: Seq<char>, k: int)
    requires
        0 <= k <= s.len(),
        forall|j: int| 0 <= j < k ==> is_white_space(#[trigger] s[j]),
    ensures
        trim_start(s) == trim_start(s.subrange(k, s.len() as int)),
    decreases k,
{
    if k > 0 {
        lemma_trim_start_skip(s.drop_first(), k - 1);
        assert(s.drop_first().subrange(k - 1, s.drop_first().len() as int) == s.subrange(
            k,
            s.len() as int,
        ));
    } else {
        assert(s.subrange(0, s.len() as int) == s);
    }
}

proof fn lemma_trim_end_skip(s: Seq<char>, k: int)
    requires
        0 <= k <= s.len(),
        forall|j: int| k <= j < s.len() ==> is_white_space(#[trigger] s[j]),
    ensures
        trim_end(s) == trim_end(s.subrange(0, k)),
    decreases s.len() - k,
{
    if k < s.len() {
        lemma_trim_end_skip(s.drop_last(), k);
        assert(s.drop_last().subrange(0, k) == s.subrange(0, k));
    } else {
        assert(s.subrange(0, s.len() as int) == s);
    }
}

/// `str::trim` on characters.
pub fn trim_chars(v: &Vec<char>) -> (r: Vec<char>)
    ensures
        r@ == trim(v@),
{
    let n = v.len();
    let mut lo: usize = 0;
    while lo < n && is_white_space_char(v[lo])
        invariant
            lo <= n == v.len(),
            forall|j: int| 0 <= j < lo ==> is_white_space(#[trigger] v@[j]),
        decreases n - lo,
    {
        lo = lo + 1;
    }
    let mut hi: usize = n;
    while hi > lo && is_white_space_char(v[hi - 1])
        invariant
            lo <= hi <= n == v.len(),
            forall|j: int| hi <= j < n ==> is_white_space(#[trigger] v@[j]),
        decreases hi,
    {
        hi = hi - 1;
    }
    proof {
        lemma_trim_start_skip(v@, lo as int);
        let t = v@.subrange(lo as int, n as int);
        assert(trim_start(t) == t);
        lemma_trim_end_skip(t, hi - lo);
        let u = t.subrange(0, hi - lo);
        assert(u == v@.subrange(lo as int, hi as int));
        assert(trim_end(u) == u);
    }
    sub_chars(v, lo, hi)
}

/// `str::trim` returning a `String`.
pub fn trim_str(s: &str) -> (r: String)
    ensures
        r@ == trim(s@),
{
    let v = chars_of(s);
    let t = trim_chars(&v);
    string_of(&t)
}


/// `str::split` by one character: the pieces between occurrences of `c`,
/// empty pieces included (one piece for a string without `c`).
pub open spec fn split_on(s: Seq<char>, c: char) -> Seq<Seq<char>>
    decreases s.len(),
{
    if s.len() == 0 {
        seq![Seq::<char>::empty()]
    } else {
        let p = split_on(s.drop_last(), c);
        if s.last() == c {
            p.push(Seq::<char>::empty())
        } else {
            p.update(p.len() - 1, p.last().push(s.last()))
        }
    }
}

pub proof fn lemma_split_nonempty(s: Seq<char>, c: char)
    ensures
        split_on(s, c).len() >= 1,
    decreases s.len(),
{
    if s.len() > 0 {
        lemma_split_nonempty(s.drop_last(), c);
    }
}

/// `str::split` by one character, on characters.
pub fn split_chars(v: &Vec<char>, c: char) -> (r: Vec<Vec<char>>)
    ensures
        r@.len() == split_on(v@, c).len(),
        forall|j: int| 0 <= j < r@.len() ==> #[trigger] r@[j]@ == split_on(v@, c)[j],
{
    let mut done: Vec<Vec<char>> = Vec::new();
    let mut cur: Vec<char> = Vec::new();
    let mut i: usize = 0;
    while i < v.len()
        invariant
            i <= v.len(),
            done@.len() + 1 == split_on(v@.take(i as int), c).len(),
            forall|j: int|
                0 <= j < done@.len() ==> #[trigger] done@[j]@ == split_on(v@.take(i as int), c)[j],
            cur@ == split_on(v@.take(i as int), c).last(),
        decreases v.len() - i,
    {
        proof {
            lemma_split_nonempty(v@.take(i as int), c);
            assert(v@.take(i + 1 as int).drop_last() == v@.take(i as int));
        }
        if v[i] == c {
            done.push(cur);
            cur = Vec::new();
        } else {
            cur.push(v[i]);
        }
        i = i + 1;
    }
    assert(v@.take(v.len() as int) == v@);
    done.push(cur);
    done
}

/// `l` without one trailing carriage return.
pub open spec fn strip_cr(l: Seq<char>) -> Seq<char> {
    if l.len() > 0 && l.last() == '\r' {
        l.drop_last()
    } else {
        l
    }
}

/// `str::lines`: pieces ended by `\n` or `\r\n`; the final line ending is
/// optional, and a piece not followed by `\n` keeps a trailing `\r`.
pub open spec fn lines_of(s: Seq<char>) -> Seq<Seq<char>> {
    let p = split_on(s, '\n');
    let n = if p.last().len() == 0 { p.len() - 1 } else { p.len() as int };
    Seq::new(n as nat, |j: int| if j < p.len() - 1 { strip_cr(p[j]) } else { p[j] })
}

/// `str::lines` on characters.
pub fn lines_chars(v: &Vec<char>) -> (r: Vec<Vec<char>>)
    ensures
        r@.len() == lines_of(v@).len(),
        forall|j: int| 0 <= j < r@.len() ==> #[trigger] r@[j]@ == lines_of(v@)[j],
{
    let p = split_chars(v, '\n');
    proof {
        lemma_split_nonempty(v@, '\n');
    }
    let np = p.len();
    let n = if p[np - 1].len() == 0 {
        np - 1
    } else {
        np
    };
    let mut r: Vec<Vec<char>> = Vec::new();
    let mut j: usize = 0;
    while j < n
        invariant
            n <= np == p@.len() == split_on(v@, '\n').len(),
            n == lines_of(v@).len(),
            forall|k: int| 0 <= k < np ==> #[trigger] p@[k]@ == split_on(v@, '\n')[k],
            j <= n,
            r@.len() == j,
            forall|k: int| 0 <= k < j ==> #[trigger] r@[k]@ == lines_of(v@)[k],
        decreases n - j,
    {
        let piece = &p[j];
        let pl = piece.len();
        if j + 1 < np && pl > 0 && piece[pl - 1] == '\r' {
            r.push(sub_chars(piece, 0, pl - 1));
        } else {
            r.push(sub_chars(piece, 0, pl));
        }
        proof {
            assert(piece@.subrange(0, pl as int) == piece@);
        }
        j = j + 1;
    }
    r
}

/// `needle` occurs in `hay` starting at `i`.
pub open spec fn occurs_at(hay: Seq<char>, needle: Seq<char>, i: int) -> bool {
    0 <= i && i + needle.len() <= hay.len() && hay.subrange(i, i + needle.len()) == needle
}

/// `str::contains` with a string pattern.
pub open spec fn contains(hay: Seq<char>, needle: Seq<char>) -> bool {
    exists|i: int| occurs_at(hay, needle, i)
}

/// `str::starts_with` with a string pattern.
pub open spec fn starts_with(hay: Seq<char>, needle: Seq<char>) -> bool {
    occurs_at(hay, needle, 0)
}

/// `str::ends_with` with a string pattern.
pub open spec fn ends_with(hay: Seq<char>, needle: Seq<char>) -> bool {
    occurs_at(hay, needle, hay.len() - needle.len())
}

/// Executable `occurs_at`.
pub fn occurs_at_chars(hay: &Vec<char>, needle: &Vec<char>, i: usize) -> (b: bool)
    ensures
        b == occurs_at(hay@, needle@, i as int),
{
    if i > hay.len() || needle.len() > hay.len() - i {
        return false;
    }
    let mut k: usize = 0;
    while k < needle.len()
        invariant
            i + needle.len() <= hay.len(),
            k <= needle.len(),
            forall|m: int| 0 <= m < k ==> hay@[i + m] == needle@[m],
        decreases needle.len() - k,
    {
        if hay[i + k] != needle[k] {
            assert(hay@.subrange(i as int, i + needle.len())[k as int] != needle@[k as int]);
            return false;
        }
        k = k + 1;
    }
    assert(hay@.subrange(i as int, i + needle.len()) == needle@);
    true
}

/// `str::contains` on characters.
pub fn contains_chars(hay: &Vec<char>, needle: &Vec<char>) -> (b: bool)
    ensures
        b == contains(hay@, needle@),
{
    if needle.len() > hay.len() {
        return false;
    }
    let last = hay.len() - needle.len();
    let mut i: usize = 0;
    while i < last
        invariant
            last == hay.len() - needle.len(),
            i <= last,
            forall|m: int| 0 <= m < i ==> !occurs_at(hay@, needle@, m),
        decreases last - i,
    {
        if occurs_at_chars(hay, needle, i) {
            return true;
        }
        i = i + 1;
    }
    occurs_at_chars(hay, needle, last)
}

/// `str::contains` on string slices.
pub fn contains_str(hay: &str, needle: &str) -> (b: bool)
    ensures
        b == contains(hay@, needle@),
{
    contains_chars(&chars_of(hay), &chars_of(needle))
}

/// `str::starts_with` on string slices.
pub fn starts_with_str(hay: &str, needle: &str) -> (b: bool)
    ensures
        b == starts_with(hay@, needle@),
{
    occurs_at_chars(&chars_of(hay), &chars_of(needle), 0)
}

/// String equality on views.
pub fn str_eq(a: &str, b: &str) -> (r: bool)
    ensures
        r == (a@ == b@),
{
    let va = chars_of(a);
    let vb = chars_of(b);
    if va.len() != vb.len() {
        return false;
    }
    let r = occurs_at_chars(&va, &vb, 0);
    assert(va@.subrange(0, vb@.len() as int) == va@);
    r
}


/// The ASCII digit for `d < 10`.
pub open spec fn digit_char(d: nat) -> char {
    (d + 48) as char
}

/// An ASCII decimal digit.
pub open spec fn is_digit(c: char) -> bool {
    48 <= c as u32 <= 57
}

/// The value of an ASCII decimal digit.
pub open spec fn digit_value(c: char) -> nat {
    (c as u32 - 48) as nat
}

/// The decimal representation of `n` without leading zeros.
pub open spec fn decimal(n: nat) -> Seq<char>
    decreases n,
{
    if n < 10 {
        seq![digit_char(n)]
    } else {
        decimal(n / 10).push(digit_char(n % 10))
    }
}

/// `s` padded on the left with `'0'` to at least `width` characters
/// (the `{:0width}` format of an unsigned integer).
pub open spec fn zero_pad(s: Seq<char>, width: nat) -> Seq<char> {
    if s.len() >= width {
        s
    } else {
        Seq::new((width - s.len()) as nat, |i: int| '0') + s
    }
}

/// The decimal text of `n` (`n.to_string()`).
pub fn decimal_chars(n: u64) -> (v: Vec<char>)
    ensures
        v@ == decimal(n as nat),
    decreases n,
{
    let d = (n % 10) as u8;
    let c = (d + 48u8) as char;
    assert(c == digit_char((n % 10) as nat));
    if n < 10 {
        let mut v: Vec<char> = Vec::new();
        v.push(c);
        v
    } else {
        let mut v = decimal_chars(n / 10);
        v.push(c);
        v
    }
}

/// The decimal text of `n`, zero padded to `width` characters.
pub fn padded_decimal(n: u64, width: usize) -> (v: Vec<char>)
    ensures
        v@ == zero_pad(decimal(n as nat), width as nat),
{
    let d = decimal_chars(n);
    if d.len() >= width {
        return d;
    }
    let mut v: Vec<char> = Vec::new();
    let fill = width - d.len();
    let mut i: usize = 0;
    while i < fill
        invariant
            fill == width - d@.len(),
            i <= fill,
            v@ == Seq::new(i as nat, |k: int| '0'),
        decreases fill - i,
    {
        v.push('0');
        i = i + 1;
    }
    append_chars(&mut v, &d);
    v
}

/// The decimal text of `n` as a `String`.
pub fn decimal_string(n: u64) -> (s: String)
    ensures
        s@ == decimal(n as nat),
{
    string_of(&decimal_chars(n))
}

/// Every character of `s` is an ASCII digit.
pub open spec fn all_digits(s: Seq<char>) -> bool {
    forall|i: int| 0 <= i < s.len() ==> is_digit(#[trigger] s[i])
}

/// The value of a sequence of decimal digits.
pub open spec fn digits_value(s: Seq<char>) -> nat
    decreases s.len(),
{
    if s.len() == 0 {
        0
    } else {
        digits_value(s.drop_last()) * 10 + digit_value(s.last())
    }
}

/// `s` without a leading `'+'`.
pub open spec fn unsigned_digits(s: Seq<char>) -> Seq<char> {
    if s.len() > 0 && s[0] == '+' {
        s.drop_first()
    } else {
        s
    }
}

/// `FromStr` for an unsigned integer type whose largest value is `max`:
/// an optional `'+'`, then one or more ASCII digits, with a value of at
/// most `max`; anything else is an error.
pub open spec fn parse_unsigned(s: Seq<char>, max: nat) -> Option<nat> {
    let body = unsigned_digits(s);
    if body.len() > 0 && all_digits(body) && digits_value(body) <= max {
        Some(digits_value(body))
    } else {
        None
    }
}

proof fn lemma_digits_value_grows(s: Seq<char>, i: int)
    requires
        0 <= i <= s.len(),
    ensures
        digits_value(s.take(i)) <= digits_value(s),
    decreases s.len() - i,
{
    if i < s.len() {
        lemma_digits_value_grows(s, i + 1);
        assert(s.take(i + 1).drop_last() == s.take(i));
    } else {
        assert(s.take(i) == s);
    }
}

/// `FromStr` for an unsigned integer type whose largest value is `max`,
/// on characters.
pub fn parse_unsigned_chars(v: &Vec<char>, max: u64) -> (r: Option<u64>)
    ensures
        match parse_unsigned(v@, max as nat) {
            Some(n) => r == Some(n as u64),
            None => r is None,
        },
{
    let start: usize = if v.len() > 0 && v[0] == '+' {
        1
    } else {
        0
    };
    let ghost body = unsigned_digits(v@);
    assert(body == v@.subrange(start as int, v@.len() as int));
    if start >= v.len() {
        return None;
    }
    let mut acc: u64 = 0;
    let mut i: usize = start;
    while i < v.len()
        invariant
            start <= i <= v.len(),
            start < v.len(),
            body == unsigned_digits(v@),
            body == v@.subrange(start as int, v@.len() as int),
            all_digits(body.take(i - start)),
            acc as nat == digits_value(body.take(i - start)),
            acc <= max,
        decreases v.len() - i,
    {
        let c = v[i];
        let u = c as u32;
        proof {
            assert(body.take(i + 1 - start).drop_last() == body.take(i - start));
            assert(body[i - start] == c);
        }
        if u < 48 || u > 57 {
            assert(!is_digit(body[i - start]));
            return None;
        }
        let next: u128 = acc as u128 * 10 + (u - 48) as u128;
        if next > max as u128 {
            proof {
                if all_digits(body) {
                    lemma_digits_value_grows(body, i + 1 - start);
                    assert(body.take(i + 1 - start).last() == c);
                    assert(digit_value(c) == u - 48);
                    assert(digits_value(body.take(i + 1 - start)) == next);
                }
            }
            return None;
        }
        acc = next as u64;
        i = i + 1;
    }
    assert(body.take(v.len() - start) == body);
    Some(acc)
}

/// Parses a `u64` as `str::parse::<u64>` does.
pub fn parse_u64(s: &Vec<char>) -> (r: Option<u64>)
    ensures
        match parse_unsigned(s@, u64::MAX as nat) {
            Some(n) => r == Some(n as u64),
            None => r is None,
        },
{
    parse_unsigned_chars(s, u64::MAX)
}

/// Parses a `u16` as `str::parse::<u16>` does.
pub fn parse_u16(s: &Vec<char>) -> (r: Option<u16>)
    ensures
        match parse_unsigned(s@, u16::MAX as nat) {
            Some(n) => r == Some(n as u16),
            None => r is None,
        },
{
    match parse_unsigned_chars(s, u16::MAX as u64) {
        Some(n) => Some(n as u16),
        None => None,
    }
}

/// The decimal text of a number holds digits only, and reads back as the
/// number.
pub proof fn lemma_decimal_digits(n: nat)
    ensures
        decimal(n).len() > 0,
        all_digits(decimal(n)),
        digits_value(decimal(n)) == n,
    decreases n,
{
    if n >= 10 {
        lemma_decimal_digits(n / 10);
        let d = decimal(n);
        assert(d.drop_last() == decimal(n / 10));
        assert(digit_value(digit_char(n % 10)) == n % 10);
        assert(d.last() == digit_char(n % 10));
        assert(digits_value(d) == digits_value(decimal(n / 10)) * 10 + n % 10);
        assert((n / 10) * 10 + n % 10 == n) by (nonlinear_arith);
    } else {
        let d = decimal(n);
        assert(d.drop_last() == Seq::<char>::empty());
        assert(digit_value(digit_char(n)) == n);
        assert(digits_value(Seq::<char>::empty()) == 0);
        assert(d.last() == digit_char(n));
        assert forall|i: int| 0 <= i < d.len() implies is_digit(#[trigger] d[i]) by {
            if i < d.len() - 1 {
                assert(d[i] == decimal(n / 10)[i]);
            }
        }
    }
}

/// Law: parsing the decimal text of a value no larger than `max` gives the
/// value back.
pub proof fn lemma_parse_decimal_roundtrip(n: nat, max: nat)
    requires
        n <= max,
    ensures
        parse_unsigned(decimal(n), max) == Some(n),
{
    lemma_decimal_digits(n);
    assert(is_digit(decimal(n)[0]));
    assert(unsigned_digits(decimal(n)) == decimal(n));
}

/// Leading `'0'` digits do not change the value of a digit sequence.
pub proof fn lemma_zero_prefix(k: nat, s: Seq<char>)
    ensures
        digits_value(Seq::new(k, |i: int| '0') + s) == digits_value(s),
        all_digits(s) ==> all_digits(Seq::new(k, |i: int| '0') + s),
    decreases s.len(), k,
{
    let z = Seq::new(k, |i: int| '0');
    assert(is_digit('0'));
    if s.len() == 0 {
        assert(z + s == z);
        if k > 0 {
            lemma_zero_prefix((k - 1) as nat, s);
            assert(z.drop_last() == Seq::new((k - 1) as nat, |i: int| '0') + s);
            assert(digit_value('0') == 0);
        }
    } else {
        lemma_zero_prefix(k, s.drop_last());
        assert((z + s).drop_last() == z + s.drop_last());
        assert((z + s).last() == s.last());
    }
    if all_digits(s) {
        assert forall|i: int| 0 <= i < (z + s).len() implies is_digit(#[trigger] (z + s)[i]) by {
            if i >= k {
                assert((z + s)[i] == s[i - k]);
            }
        }
    }
}

/// The zero-padded decimal text of `n` holds digits only, reads back as
/// `n`, and has `width` characters when `n` has at most that many digits.
pub proof fn lemma_zero_pad_reads_back(n: nat, width: nat)
    ensures
        all_digits(zero_pad(decimal(n), width)),
        digits_value(zero_pad(decimal(n), width)) == n,
        zero_pad(decimal(n), width).len() >= width,
        zero_pad(decimal(n), width).len() >= 1,
        n < 10 ==> decimal(n).len() == 1,
        10 <= n < 100 ==> decimal(n).len() == 2,
{
    lemma_decimal_digits(n);
    if decimal(n).len() < width {
        lemma_zero_prefix((width - decimal(n).len()) as nat, decimal(n));
    }
    if 10 <= n < 100 {
        assert(n / 10 < 10);
        assert(decimal(n / 10).len() == 1);
        assert(decimal(n) == decimal(n / 10).push(digit_char(n % 10)));
    }
}

/// `parts` joined with `sep` between consecutive parts (`[T]::join`).
pub open spec fn join(parts: Seq<Seq<char>>, sep: Seq<char>) -> Seq<char>
    decreases parts.len(),
{
    if parts.len() == 0 {
        Seq::<char>::empty()
    } else if parts.len() == 1 {
        parts[0]
    } else {
        join(parts.drop_last(), sep) + sep + parts.last()
    }
}

/// `[T]::join` on character sequences.
pub fn join_chars(parts: &Vec<Vec<char>>, sep: &Vec<char>) -> (r: Vec<char>)
    ensures
        r@ == join(parts@.map_values(|p: Vec<char>| p@), sep@),
{
    let ghost views = parts@.map_values(|p: Vec<char>| p@);
    let mut r: Vec<char> = Vec::new();
    let mut i: usize = 0;
    while i < parts.len()
        invariant
            i <= parts.len(),
            views == parts@.map_values(|p: Vec<char>| p@),
            r@ == join(views.take(i as int), sep@),
        decreases parts.len() - i,
    {
        proof {
            assert(views.take(i + 1 as int).drop_last() == views.take(i as int));
            assert(views.take(i + 1 as int).last() == parts@[i as int]@);
        }
        if i > 0 {
            append_chars(&mut r, sep);
        } else {
            assert(views.take(1).len() == 1);
        }
        append_chars(&mut r, &parts[i]);
        i = i + 1;
    }
    assert(views.take(parts.len() as int) == views);
    r
}

/// `str::trim_end_matches` with a string pattern: the suffix `pat` removed
/// as many times as it ends the text.
pub open spec fn trim_end_matches(s: Seq<char>, pat: Seq<char>) -> Seq<char>
    decreases s.len(),
{
    if pat.len() > 0 && ends_with(s, pat) {
        trim_end_matches(s.subrange(0, s.len() - pat.len()), pat)
    } else {
        s
    }
}

/// `str::trim_end_matches` with a string pattern, on characters.
pub fn trim_end_matches_chars(v: &Vec<char>, pat: &Vec<char>) -> (r: Vec<char>)
    ensures
        r@ == trim_end_matches(v@, pat@),
{
    let mut end: usize = v.len();
    if pat.len() == 0 {
        return sub_chars(v, 0, end);
    }
    let ghost target = trim_end_matches(v@, pat@);
    assert(v@.subrange(0, v.len() as int) == v@);
    while end >= pat.len() && occurs_at_chars(v, pat, end - pat.len())
        invariant
            end <= v.len(),
            pat.len() > 0,
            trim_end_matches(v@.subrange(0, end as int), pat@) == target,
        decreases end,
    {
        proof {
            let cur = v@.subrange(0, end as int);
            assert(cur.subrange(end - pat.len(), end as int) == v@.subrange(
                end - pat.len(),
                end as int,
            ));
            assert(cur.subrange(0, end - pat.len()) == v@.subrange(0, end - pat.len()));
        }
        end = end - pat.len();
    }
    proof {
        let cur = v@.subrange(0, end as int);
        if end >= pat.len() {
            assert(cur.subrange(end - pat.len(), end as int) == v@.subrange(
                end - pat.len(),
                end as int,
            ));
        }
        assert(v@.subrange(0, v.len() as int) == v@);
    }
    sub_chars(v, 0, end)
}

} // verus!
