//! Character-level helpers shared by the line decoders and the command builders.
use vstd::prelude::*;

verus! {

/// Largest integer field the decoders accept; longer numerals are malformed.
pub const FIELD_LIMIT: u64 = 999_999_999;

/// The character views of a sequence of strings.
pub open spec fn texts(v: Seq<String>) -> Seq<Seq<char>> {
    v.map_values(|s: String| s@)
}

pub open spec fn is_digit(c: char) -> bool {
    '0' <= c && c <= '9'
}

pub open spec fn digit_value(c: char) -> int {
    c as int - '0' as int
}

pub open spec fn all_digits(s: Seq<char>) -> bool {
    forall|i: int| 0 <= i < s.len() ==> is_digit(#[trigger] s[i])
}

/// Value of a run of decimal digits, most significant first.
pub open spec fn digits_value(s: Seq<char>) -> int
    decreases s.len(),
{
    if s.len() == 0 {
        0
    } else {
        digits_value(s.drop_last()) * 10 + digit_value(s.last())
    }
}

pub open spec fn digit_char(d: nat) -> char {
    "0123456789"@[d as int]
}

/// Characters of the decimal numeral of `n`, without leading zeros.
pub open spec fn decimal(n: nat) -> Seq<char>
    decreases n,
{
    if n < 10 {
        seq![digit_char(n)]
    } else {
        decimal(n / 10).push(digit_char(n % 10))
    }
}

/// Whether `c` ends a field: a blank where `blanks` holds, else the character `sep`.
pub open spec fn is_cut(c: char, sep: char, blanks: bool) -> bool {
    if blanks {
        is_blank(c)
    } else {
        c == sep
    }
}

/// `s` cut at every cutting character; `n` of them give `n + 1` fields, empty ones kept.
pub open spec fn cut_fields(s: Seq<char>, sep: char, blanks: bool) -> Seq<Seq<char>>
    decreases s.len(),
{
    if s.len() == 0 {
        seq![Seq::<char>::empty()]
    } else {
        let prev = cut_fields(s.drop_last(), sep, blanks);
        if is_cut(s.last(), sep, blanks) {
            prev.push(Seq::<char>::empty())
        } else {
            prev.update(prev.len() - 1, prev.last().push(s.last()))
        }
    }
}

/// `s` cut at every `sep`.
pub open spec fn split_fields(s: Seq<char>, sep: char) -> Seq<Seq<char>> {
    cut_fields(s, sep, false)
}

/// `s` cut at every space or tab.
pub open spec fn blank_fields(s: Seq<char>) -> Seq<Seq<char>> {
    cut_fields(s, ' ', true)
}

pub open spec fn is_blank(c: char) -> bool {
    c == ' ' || c == '\t'
}

pub open spec fn trim_start(s: Seq<char>) -> Seq<char>
    decreases s.len(),
{
    if s.len() > 0 && is_blank(s[0]) {
        trim_start(s.drop_first())
    } else {
        s
    }
}

pub open spec fn trim_end(s: Seq<char>) -> Seq<char>
    decreases s.len(),
{
    if s.len() > 0 && is_blank(s.last()) {
        trim_end(s.drop_last())
    } else {
        s
    }
}

/// `s` without leading and trailing blanks.
pub open spec fn trim(s: Seq<char>) -> Seq<char> {
    trim_end(trim_start(s))
}

/// A numeral of at most `FIELD_LIMIT`.
pub open spec fn uint_value(s: Seq<char>) -> Option<nat> {
    if s.len() > 0 && all_digits(s) && digits_value(s) <= FIELD_LIMIT {
        Some(digits_value(s) as nat)
    } else {
        None
    }
}

/// The first `k` fraction digits of `f`, filled up with zeros.
pub open spec fn padded(f: Seq<char>, k: nat) -> Seq<char> {
    Seq::new(k, |j: int| if j < f.len() { f[j] } else { '0' })
}

/// A decimal `int[.frac]` in units of `10^-k`; fraction digits past the `k`-th are dropped.
pub open spec fn fixed_value(s: Seq<char>, k: nat) -> Option<nat> {
    let p = split_fields(s, '.');
    let frac = if p.len() == 2 { p[1] } else { Seq::<char>::empty() };
    if (p.len() == 1 || (p.len() == 2 && p[1].len() > 0 && all_digits(p[1])))
        && uint_value(p[0]) is Some {
        Some(digits_value(p[0] + padded(frac, k)) as nat)
    } else {
        None
    }
}

pub open spec fn starts_with(s: Seq<char>, p: Seq<char>) -> bool {
    p.len() <= s.len() && s.take(p.len() as int) == p
}

/// Whether two texts hold the same characters.
pub fn same_text(a: &str, b: &str) -> (r: bool)
    ensures
        r == (a@ == b@),
{
    let n = a.unicode_len();
    if n != b.unicode_len() {
        return false;
    }
    let mut i: usize = 0;
    while i < n
        invariant
            n == a@.len(),
            n == b@.len(),
            i <= n,
            a@.take(i as int) == b@.take(i as int),
        decreases n - i,
    {
        if a.get_char(i) != b.get_char(i) {
            assert(a@[i as int] != b@[i as int]);
            return false;
        }
        assert(a@.take(i + 1) =~= a@.take(i as int).push(a@[i as int]));
        assert(b@.take(i + 1) =~= b@.take(i as int).push(b@[i as int]));
        i = i + 1;
    }
    assert(a@ =~= a@.take(n as int));
    assert(b@ =~= b@.take(n as int));
    true
}

/// The rest of `s` after the prefix `p`, if `s` starts with it.
pub fn after_prefix<'a>(s: &'a str, p: &str) -> (r: Option<&'a str>)
    ensures
        r is Some <==> starts_with(s@, p@),
        r is Some ==> r->0@ == s@.skip(p@.len() as int),
{
    let n = s.unicode_len();
    let k = p.unicode_len();
    if k > n {
        return None;
    }
    let head = s.substring_char(0, k);
    if same_text(head, p) {
        Some(s.substring_char(k, n))
    } else {
        None
    }
}

/// One decimal digit as text.
pub fn digit_text(d: u64) -> (r: &'static str)
    requires
        d < 10,
    ensures
        r@ == seq![digit_char(d as nat)],
{
    let all = "0123456789";
    proof {
        reveal_strlit("0123456789");
    }
    let r = all.substring_char(d as usize, d as usize + 1);
    assert(r@ =~= seq![digit_char(d as nat)]);
    r
}

/// The decimal numeral of `n`.
pub fn decimal_text(n: u64) -> (r: String)
    ensures
        r@ == decimal(n as nat),
    decreases n,
{
    if n < 10 {
        digit_text(n).to_owned()
    } else {
        let mut r = decimal_text(n / 10);
        r.append(digit_text(n % 10));
        r
    }
}

/// `s` cut at every `sep`.
pub fn split(s: &str, sep: char) -> (r: Vec<String>)
    ensures
        texts(r@) == split_fields(s@, sep),
{
    cut(s, sep, false)
}

/// `s` cut at every space or tab.
pub fn split_blanks(s: &str) -> (r: Vec<String>)
    ensures
        texts(r@) == blank_fields(s@),
{
    cut(s, ' ', true)
}

fn cut(s: &str, sep: char, blanks: bool) -> (r: Vec<String>)
    ensures
        texts(r@) == cut_fields(s@, sep, blanks),
{
    let n = s.unicode_len();
    let mut r: Vec<String> = Vec::new();
    let mut start: usize = 0;
    let mut i: usize = 0;
    assert(s@.take(0) =~= Seq::<char>::empty());
    assert(texts(r@).push(s@.subrange(0, 0)) =~= seq![Seq::<char>::empty()]);
    while i < n
        invariant
            n == s@.len(),
            start <= i <= n,
            cut_fields(s@.take(i as int), sep, blanks) == texts(r@).push(
                s@.subrange(start as int, i as int),
            ),
        decreases n - i,
    {
        let c = s.get_char(i);
        let ghost before = texts(r@);
        let ghost cur = s@.subrange(start as int, i as int);
        assert(s@.take(i + 1).drop_last() =~= s@.take(i as int));
        assert(s@.take(i + 1).last() == c);
        let is_sep = if blanks {
            c == ' ' || c == '\t'
        } else {
            c == sep
        };
        if is_sep {
            let piece = s.substring_char(start, i);
            r.push(piece.to_owned());
            assert(texts(r@) =~= before.push(cur));
            start = i + 1;
            assert(s@.subrange(start as int, i + 1) =~= Seq::<char>::empty());
            assert(texts(r@).push(s@.subrange(start as int, i + 1)) =~= before.push(cur).push(
                Seq::<char>::empty(),
            ));
        } else {
            assert(s@.subrange(start as int, i + 1) =~= cur.push(c));
            assert(texts(r@).push(s@.subrange(start as int, i + 1)) =~= before.push(cur).update(
                before.len() as int,
                cur.push(c),
            ));
        }
        i = i + 1;
    }
    let ghost before = texts(r@);
    r.push(s.substring_char(start, n).to_owned());
    assert(s@.take(n as int) =~= s@);
    assert(texts(r@) =~= before.push(s@.subrange(start as int, n as int)));
    r
}

/// `s` without leading and trailing blanks.
pub fn trimmed(s: &str) -> (r: &str)
    ensures
        r@ == trim(s@),
{
    let n = s.unicode_len();
    let mut lo: usize = 0;
    assert(s@.subrange(0, n as int) =~= s@);
    while lo < n && (s.get_char(lo) == ' ' || s.get_char(lo) == '\t')
        invariant
            n == s@.len(),
            lo <= n,
            trim_start(s@.subrange(lo as int, n as int)) == trim_start(s@),
        decreases n - lo,
    {
        assert(s@.subrange(lo as int, n as int).drop_first() =~= s@.subrange(lo + 1, n as int));
        lo = lo + 1;
    }
    let mut hi: usize = n;
    while hi > lo && (s.get_char(hi - 1) == ' ' || s.get_char(hi - 1) == '\t')
        invariant
            n == s@.len(),
            lo <= hi <= n,
            trim_start(s@) == s@.subrange(lo as int, n as int),
            trim_end(s@.subrange(lo as int, hi as int)) == trim(s@),
        decreases hi - lo,
    {
        assert(s@.subrange(lo as int, hi as int).drop_last() =~= s@.subrange(
            lo as int,
            hi - 1,
        ));
        hi = hi - 1;
    }
    s.substring_char(lo, hi)
}

proof fn lemma_digits_value_nonneg(s: Seq<char>)
    requires
        all_digits(s),
    ensures
        digits_value(s) >= 0,
    decreases s.len(),
{
    if s.len() > 0 {
        lemma_digits_value_nonneg(s.drop_last());
        assert(is_digit(s[s.len() - 1]));
    }
}

/// A longer run of digits is worth at least as much as its prefix.
proof fn lemma_digits_value_prefix(s: Seq<char>, j: int)
    requires
        all_digits(s),
        0 <= j <= s.len(),
    ensures
        digits_value(s.take(j)) <= digits_value(s),
    decreases s.len(),
{
    if j < s.len() {
        let t = s.drop_last();
        assert(t.take(j) =~= s.take(j));
        lemma_digits_value_prefix(t, j);
        lemma_digits_value_nonneg(t);
        assert(is_digit(s[s.len() - 1]));
    } else {
        assert(s.take(j) =~= s);
    }
}

fn digit_of(c: char) -> (r: u64)
    requires
        is_digit(c),
    ensures
        r == digit_value(c),
{
    (c as u32 - '0' as u32) as u64
}

/// Whether every character of `s` is a decimal digit.
pub fn is_numeral(s: &str) -> (r: bool)
    ensures
        r == all_digits(s@),
{
    let n = s.unicode_len();
    let mut i: usize = 0;
    while i < n
        invariant
            n == s@.len(),
            i <= n,
            forall|j: int| 0 <= j < i ==> is_digit(#[trigger] s@[j]),
        decreases n - i,
    {
        let c = s.get_char(i);
        if !('0' <= c && c <= '9') {
            assert(!is_digit(s@[i as int]));
            return false;
        }
        i = i + 1;
    }
    true
}

/// Reads a numeral of at most `FIELD_LIMIT`.
pub fn parse_uint(s: &str) -> (r: Option<u64>)
    ensures
        r matches Some(v) ==> uint_value(s@) == Some(v as nat) && v <= FIELD_LIMIT,
        r is None ==> uint_value(s@) is None,
{
    let n = s.unicode_len();
    if n == 0 {
        return None;
    }
    let mut v: u64 = 0;
    let mut i: usize = 0;
    assert(s@.take(0) =~= Seq::<char>::empty());
    while i < n
        invariant
            n == s@.len(),
            i <= n,
            all_digits(s@.take(i as int)),
            v == digits_value(s@.take(i as int)),
            v <= FIELD_LIMIT,
        decreases n - i,
    {
        let c = s.get_char(i);
        if !('0' <= c && c <= '9') {
            assert(!is_digit(s@[i as int]));
            return None;
        }
        let ghost next = s@.take(i + 1);
        assert(next.drop_last() =~= s@.take(i as int));
        assert(next.last() == c);
        v = v * 10 + digit_of(c);
        assert(all_digits(next)) by {
            assert forall|j: int| 0 <= j < next.len() implies is_digit(#[trigger] next[j]) by {
                if j < i {
                    assert(next[j] == s@.take(i as int)[j]);
                }
            }
        }
        if v > FIELD_LIMIT {
            proof {
                if all_digits(s@) {
                    lemma_digits_value_prefix(s@, i + 1);
                }
            }
            return None;
        }
        i = i + 1;
    }
    assert(s@.take(n as int) =~= s@);
    Some(v)
}

/// Reads a decimal `int[.frac]` in units of `10^-k`.
pub fn parse_fixed(s: &str, k: usize) -> (r: Option<u64>)
    requires
        k <= 3,
    ensures
        r matches Some(v) ==> fixed_value(s@, k as nat) == Some(v as nat) && v
            < 1_000_000_000_000,
        r is None ==> fixed_value(s@, k as nat) is None,
{
    let parts = split(s, '.');
    let ghost p = split_fields(s@, '.');
    assert(texts(parts@).len() == parts@.len());
    if parts.len() > 2 || parts.len() == 0 {
        return None;
    }
    assert(p[0] == parts@[0]@);
    let whole = match parse_uint(parts[0].as_str()) {
        Some(w) => w,
        None => return None,
    };
    proof {
        lemma_digits_value_nonneg(p[0]);
    }
    let flen: usize = if parts.len() == 2 {
        assert(p[1] == parts@[1]@);
        if parts[1].unicode_len() == 0 || !is_numeral(parts[1].as_str()) {
            return None;
        }
        parts[1].unicode_len()
    } else {
        0
    };
    let ghost frac = if p.len() == 2 { p[1] } else { Seq::<char>::empty() };
    let ghost pad = padded(frac, k as nat);
    let ghost head = p[0];
    assert(flen == frac.len());
    let mut v: u64 = whole;
    let mut j: usize = 0;
    assert(head + pad.take(0) =~= head);
    while j < k
        invariant
            k <= 3,
            j <= k,
            parts@.len() == p.len(),
            p.len() == 1 || p.len() == 2,
            p.len() == 2 ==> p[1] == parts@[1]@,
            frac == (if p.len() == 2 { p[1] } else { Seq::<char>::empty() }),
            flen == frac.len(),
            all_digits(frac),
            pad == padded(frac, k as nat),
            v == digits_value(head + pad.take(j as int)),
            j == 0 ==> v < 1_000_000_000,
            j == 1 ==> v < 10_000_000_000,
            j == 2 ==> v < 100_000_000_000,
            j == 3 ==> v < 1_000_000_000_000,
        decreases k - j,
    {
        let d: u64 = if j < flen {
            let c = parts[1].get_char(j);
            assert(is_digit(frac[j as int]));
            digit_of(c)
        } else {
            0
        };
        assert(d == digit_value(pad[j as int]));
        let ghost next = head + pad.take(j + 1);
        assert(next.drop_last() =~= head + pad.take(j as int));
        assert(next.last() == pad[j as int]);
        v = v * 10 + d;
        j = j + 1;
    }
    assert(pad.take(k as int) =~= pad);
    Some(v)
}

} // verus!
