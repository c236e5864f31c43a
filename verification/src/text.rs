//! Text helpers shared by the rest of the library: conversions between
//! strings and character vectors, trimming, splitting and decimal rendering.
use vstd::prelude::*;

verus! {

/// `String::push` appends exactly the given character to the end of the string.
pub assume_specification[ String::push ](s: &mut String, c: char)
    ensures
        final(s)@ == old(s)@.push(c),
;

/// The characters with the Unicode property `White_Space`.
pub open spec fn is_whitespace(c: char) -> bool {
    let u = c as u32;
    ||| 0x09 <= u <= 0x0D
    ||| u == 0x20
    ||| u == 0x85
    ||| u == 0xA0
    ||| u == 0x1680
    ||| 0x2000 <= u <= 0x200A
    ||| u == 0x2028
    ||| u == 0x2029
    ||| u == 0x202F
    ||| u == 0x205F
    ||| u == 0x3000
}

/// `s` without its leading whitespace.
pub open spec fn trim_start(s: Seq<char>) -> Seq<char>
    decreases s.len(),
{
    if s.len() > 0 && is_whitespace(s[0]) {
        trim_start(s.drop_first())
    } else {
        s
    }
}

/// `s` without its trailing whitespace.
pub open spec fn trim_end(s: Seq<char>) -> Seq<char>
    decreases s.len(),
{
    if s.len() > 0 && is_whitespace(s.last()) {
        trim_end(s.drop_last())
    } else {
        s
    }
}

/// `s` without leading and trailing whitespace.
pub open spec fn trim(s: Seq<char>) -> Seq<char> {
    trim_end(trim_start(s))
}

/// `s` without its leading run of the character `c`.
pub open spec fn strip_leading(s: Seq<char>, c: char) -> Seq<char>
    decreases s.len(),
{
    if s.len() > 0 && s[0] == c {
        strip_leading(s.drop_first(), c)
    } else {
        s
    }
}

/// Position of the first `c` in `s`, or `s.len()` when `s` holds none.
pub open spec fn first_index_of(s: Seq<char>, c: char) -> int
    decreases s.len(),
{
    if s.len() == 0 || s[0] == c {
        0
    } else {
        1 + first_index_of(s.drop_first(), c)
    }
}

/// The texts of a list of strings.
pub open spec fn texts(items: Seq<String>) -> Seq<Seq<char>> {
    Seq::new(items.len(), |i: int| items[i]@)
}

/// Position of the first item equal to `wanted`, or `items.len()` when no
/// item is.
pub open spec fn first_position(items: Seq<Seq<char>>, wanted: Seq<char>) -> int
    decreases items.len(),
{
    if items.len() == 0 || items[0] == wanted {
        0
    } else {
        1 + first_position(items.drop_first(), wanted)
    }
}

/// The decimal digit for a value below ten.
pub open spec fn digit_char(d: nat) -> char {
    if d == 0 {
        '0'
    } else if d == 1 {
        '1'
    } else if d == 2 {
        '2'
    } else if d == 3 {
        '3'
    } else if d == 4 {
        '4'
    } else if d == 5 {
        '5'
    } else if d == 6 {
        '6'
    } else if d == 7 {
        '7'
    } else if d == 8 {
        '8'
    } else {
        '9'
    }
}

/// Base-ten rendering of `n` without leading zeros.
pub open spec fn decimal(n: nat) -> Seq<char>
    decreases n,
{
    if n < 10 {
        seq![digit_char(n)]
    } else {
        decimal(n / 10).push(digit_char(n % 10))
    }
}

/// Trimming at the start drops exactly the leading whitespace: `k`
/// characters, where the first `k` are whitespace and the next one, if there
/// is one, is not.
pub proof fn lemma_trim_start_skips(s: Seq<char>, k: int)
    requires
        0 <= k <= s.len(),
        forall|j: int| 0 <= j < k ==> is_whitespace(s[j]),
        k == s.len() || !is_whitespace(s[k]),
    ensures
        trim_start(s) == s.skip(k),
    decreases k,
{
    if k == 0 {
        assert(s.skip(0) =~= s);
    } else {
        let t = s.drop_first();
        assert forall|j: int| 0 <= j < k - 1 implies is_whitespace(t[j]) by {
            assert(t[j] == s[j + 1]);
        }
        lemma_trim_start_skips(t, k - 1);
        assert(t.skip(k - 1) =~= s.skip(k));
    }
}

/// Trimming at the end keeps exactly the first `k` characters, where all
/// behind them are whitespace and the last of them, if there is one, is not.
pub proof fn lemma_trim_end_takes(s: Seq<char>, k: int)
    requires
        0 <= k <= s.len(),
        forall|j: int| k <= j < s.len() ==> is_whitespace(s[j]),
        k == 0 || !is_whitespace(s[k - 1]),
    ensures
        trim_end(s) == s.take(k),
    decreases s.len() - k,
{
    if k == s.len() {
        assert(s.take(k) =~= s);
    } else {
        let t = s.drop_last();
        lemma_trim_end_takes(t, k);
        assert(t.take(k) =~= s.take(k));
    }
}

/// Stripping the leading run of `c` drops exactly `k` characters, where the
/// first `k` are `c` and the next one, if there is one, is not.
pub proof fn lemma_strip_leading_skips(s: Seq<char>, c: char, k: int)
    requires
        0 <= k <= s.len(),
        forall|j: int| 0 <= j < k ==> s[j] == c,
        k == s.len() || s[k] != c,
    ensures
        strip_leading(s, c) == s.skip(k),
    decreases k,
{
    if k == 0 {
        assert(s.skip(0) =~= s);
    } else {
        let t = s.drop_first();
        assert forall|j: int| 0 <= j < k - 1 implies t[j] == c by {
            assert(t[j] == s[j + 1]);
        }
        lemma_strip_leading_skips(t, c, k - 1);
        assert(t.skip(k - 1) =~= s.skip(k));
    }
}

/// `k` is the first position of `c`, where no character before `k` is `c`
/// and the one at `k` is, or `k` is the length.
pub proof fn lemma_first_index_of(s: Seq<char>, c: char, k: int)
    requires
        0 <= k <= s.len(),
        forall|j: int| 0 <= j < k ==> s[j] != c,
        k == s.len() || s[k] == c,
    ensures
        first_index_of(s, c) == k,
    decreases k,
{
    if k > 0 {
        let t = s.drop_first();
        assert forall|j: int| 0 <= j < k - 1 implies t[j] != c by {
            assert(t[j] == s[j + 1]);
        }
        lemma_first_index_of(t, c, k - 1);
    }
}

/// `k` is the first position of `wanted`, where no item before `k` equals it
/// and the one at `k` does, or `k` is the length.
pub proof fn lemma_first_position(items: Seq<Seq<char>>, wanted: Seq<char>, k: int)
    requires
        0 <= k <= items.len(),
        forall|j: int| 0 <= j < k ==> items[j] != wanted,
        k == items.len() || items[k] == wanted,
    ensures
        first_position(items, wanted) == k,
    decreases k,
{
    if k > 0 {
        let t = items.drop_first();
        assert forall|j: int| 0 <= j < k - 1 implies t[j] != wanted by {
            assert(t[j] == items[j + 1]);
        }
        lemma_first_position(t, wanted, k - 1);
    }
}

/// What `first_position` returns lies within the list or just behind it,
/// is the place of an item equal to `wanted` where it lies within, and has
/// no such item before it.
pub proof fn lemma_first_position_is_first(items: Seq<Seq<char>>, wanted: Seq<char>)
    ensures
        0 <= first_position(items, wanted) <= items.len(),
        first_position(items, wanted) < items.len() ==> items[first_position(items, wanted)]
            == wanted,
        forall|j: int| 0 <= j < first_position(items, wanted) ==> items[j] != wanted,
    decreases items.len(),
{
    if items.len() == 0 || items[0] == wanted {
    } else {
        let t = items.drop_first();
        lemma_first_position_is_first(t, wanted);
        assert forall|j: int| 0 <= j < first_position(items, wanted) implies items[j]
            != wanted by {
            if j > 0 {
                assert(items[j] == t[j - 1]);
            }
        }
    }
}

/// The characters of `s`, in order.
pub fn to_chars(s: &str) -> (v: Vec<char>)
    ensures
        v@ == s@,
{
    let mut v: Vec<char> = Vec::new();
    for c in it: s.chars()
        invariant
            v@ == it.seq().take(it.index() as int),
            it.seq() == s@,
    {
        v.push(c);
    }
    v
}

/// The string made of the characters `v[from..to]`.
pub fn from_chars(v: &Vec<char>, from: usize, to: usize) -> (s: String)
    requires
        from <= to <= v.len(),
    ensures
        s@ == v@.subrange(from as int, to as int),
{
    let mut s = String::new();
    let mut i: usize = from;
    while i < to
        invariant
            from <= i <= to <= v.len(),
            s@ == v@.subrange(from as int, i as int),
        decreases to - i,
    {
        s.push(v[i]);
        i = i + 1;
        assert(v@.subrange(from as int, i as int) =~= v@.subrange(from as int, i - 1).push(v@[i - 1]));
    }
    s
}

/// Whether two strings hold the same characters.
pub fn str_eq(a: &str, b: &str) -> (r: bool)
    ensures
        r == (a@ == b@),
{
    let x = a.to_owned();
    let y = b.to_owned();
    x == y
}

/// Whether `c` is Unicode whitespace.
pub fn is_whitespace_char(c: char) -> (r: bool)
    ensures
        r == is_whitespace(c),
{
    let u: u32 = c as u32;
    (0x09 <= u && u <= 0x0D) || u == 0x20 || u == 0x85 || u == 0xA0 || u == 0x1680 || (0x2000 <= u
        && u <= 0x200A) || u == 0x2028 || u == 0x2029 || u == 0x202F || u == 0x205F || u == 0x3000
}

/// `s` with leading and trailing whitespace removed.
pub fn trimmed(s: &str) -> (r: String)
    ensures
        r@ == trim(s@),
{
    let v = to_chars(s);
    let n = v.len();
    let mut start: usize = 0;
    while start < n && is_whitespace_char(v[start])
        invariant
            start <= n == v.len(),
            forall|j: int| 0 <= j < start ==> is_whitespace(v@[j]),
        decreases n - start,
    {
        start = start + 1;
    }
    let mut end: usize = n;
    while end > start && is_whitespace_char(v[end - 1])
        invariant
            start <= end <= n == v.len(),
            forall|j: int| end <= j < n ==> is_whitespace(v@[j]),
        decreases end,
    {
        end = end - 1;
    }
    proof {
        lemma_trim_start_skips(v@, start as int);
        let t = v@.skip(start as int);
        assert forall|j: int| end - start <= j < t.len() implies is_whitespace(t[j]) by {
            assert(t[j] == v@[j + start]);
        }
        if end > start {
            assert(t[end - start - 1] == v@[end - 1]);
        }
        lemma_trim_end_takes(t, end - start);
        assert(t.take(end - start) =~= v@.subrange(start as int, end as int));
    }
    from_chars(&v, start, end)
}

/// Whether `s` holds nothing but whitespace.
pub fn is_blank(s: &str) -> (r: bool)
    ensures
        r == (trim(s@).len() == 0),
{
    let t = trimmed(s);
    t.as_str().unicode_len() == 0
}

/// `s` without its leading run of `c`.
pub fn without_leading(s: &str, c: char) -> (r: String)
    ensures
        r@ == strip_leading(s@, c),
{
    let v = to_chars(s);
    let n = v.len();
    let mut start: usize = 0;
    while start < n && v[start] == c
        invariant
            start <= n == v.len(),
            forall|j: int| 0 <= j < start ==> v@[j] == c,
        decreases n - start,
    {
        start = start + 1;
    }
    proof {
        lemma_strip_leading_skips(v@, c, start as int);
    }
    from_chars(&v, start, n)
}

/// Splits `s` at its first `sep`: the text before it and the text after it.
/// `None` when `s` holds no `sep`.
pub fn split_once_at(s: &str, sep: char) -> (r: Option<(String, String)>)
    ensures
        match r {
            Some((head, tail)) => {
                &&& first_index_of(s@, sep) < s@.len()
                &&& head@ == s@.take(first_index_of(s@, sep))
                &&& tail@ == s@.skip(first_index_of(s@, sep) + 1)
            },
            None => first_index_of(s@, sep) == s@.len(),
        },
{
    let v = to_chars(s);
    let n = v.len();
    let mut k: usize = 0;
    while k < n && v[k] != sep
        invariant
            k <= n == v.len(),
            forall|j: int| 0 <= j < k ==> v@[j] != sep,
        decreases n - k,
    {
        k = k + 1;
    }
    proof {
        lemma_first_index_of(v@, sep, k as int);
    }
    if k < n {
        let head = from_chars(&v, 0, k);
        let tail = from_chars(&v, k + 1, n);
        Some((head, tail))
    } else {
        None
    }
}

/// Base-ten text of `n`.
pub fn decimal_text(n: u64) -> (r: String)
    ensures
        r@ == decimal(n as nat),
{
    let mut digits: Vec<char> = Vec::new();
    let mut rest: u64 = n;
    // Digits are produced from the least significant one.
    while rest >= 10
        invariant
            decimal(n as nat) == decimal(rest as nat) + digits@.reverse(),
        decreases rest,
    {
        let d: u64 = rest % 10;
        let c = digit_of(d);
        proof {
            assert(decimal(rest as nat) == decimal((rest / 10) as nat).push(c));
            assert(digits@.push(c).reverse() =~= seq![c] + digits@.reverse());
            assert(decimal((rest / 10) as nat).push(c) + digits@.reverse() =~= decimal(
                (rest / 10) as nat,
            ) + digits@.push(c).reverse());
        }
        digits.push(c);
        rest = rest / 10;
    }
    let c = digit_of(rest);
    proof {
        assert(digits@.push(c).reverse() =~= seq![c] + digits@.reverse());
    }
    digits.push(c);
    let mut r = String::new();
    let mut i: usize = digits.len();
    while i > 0
        invariant
            i <= digits.len(),
            r@ == digits@.reverse().take(digits.len() - i),
        decreases i,
    {
        i = i - 1;
        r.push(digits[i]);
        assert(digits@.reverse().take(digits.len() - i) =~= digits@.reverse().take(
            digits.len() - i - 1,
        ).push(digits@[i as int]));
    }
    assert(digits@.reverse().take(digits.len() as int) =~= digits@.reverse());
    r
}

/// The digit character of a value below ten.
pub fn digit_of(d: u64) -> (c: char)
    requires
        d < 10,
    ensures
        c == digit_char(d as nat),
{
    if d == 0 {
        '0'
    } else if d == 1 {
        '1'
    } else if d == 2 {
        '2'
    } else if d == 3 {
        '3'
    } else if d == 4 {
        '4'
    } else if d == 5 {
        '5'
    } else if d == 6 {
        '6'
    } else if d == 7 {
        '7'
    } else if d == 8 {
        '8'
    } else {
        '9'
    }
}

/// Position of the first item equal to `wanted`; the list's length when
/// there is none.
pub fn position_of(items: &Vec<String>, wanted: &str) -> (k: usize)
    ensures
        k == first_position(texts(items@), wanted@),
        k <= items.len(),
{
    let n = items.len();
    let mut k: usize = 0;
    while k < n && !str_eq(items[k].as_str(), wanted)
        invariant
            k <= n == items.len(),
            forall|j: int| 0 <= j < k ==> texts(items@)[j] != wanted@,
        decreases n - k,
    {
        k = k + 1;
    }
    proof {
        lemma_first_position(texts(items@), wanted@, k as int);
    }
    k
}

/// A copy of `items[from..]`.
pub fn copy_from(items: &Vec<String>, from: usize) -> (r: Vec<String>)
    requires
        from <= items.len(),
    ensures
        texts(r@) == texts(items@).skip(from as int),
{
    let n = items.len();
    let mut r: Vec<String> = Vec::new();
    let mut i: usize = from;
    while i < n
        invariant
            from <= i <= n == items.len(),
            r@.len() == i - from,
            forall|j: int| 0 <= j < r@.len() ==> r@[j]@ == items@[from + j]@,
        decreases n - i,
    {
        let item = items[i].clone();
        r.push(item);
        i = i + 1;
    }
    assert(texts(r@) =~= texts(items@).skip(from as int));
    r
}

} // verus!
