//! Character-level text operations with their mathematical meaning over `Seq<char>`.

use vstd::prelude::*;

verus! {

/// Appending one character to a `String` (std's `String::push`) adds exactly that character
/// at the end.
pub assume_specification[ String::push ](s: &mut String, ch: char)
    ensures
        final(s)@ == old(s)@.push(ch),
;

// ---------------------------------------------------------------------------
// Specifications
// ---------------------------------------------------------------------------

/// Index of the first `c` at or after `i`, or -1.
pub open spec fn find_from(s: Seq<char>, c: char, i: int) -> int
    decreases s.len() - i,
{
    if i < 0 || i >= s.len() {
        -1
    } else if s[i] == c {
        i
    } else {
        find_from(s, c, i + 1)
    }
}

/// Index of the first `c` in `s`, or -1.
pub open spec fn first_index(s: Seq<char>, c: char) -> int {
    find_from(s, c, 0)
}

/// Index of the last `c` at or before `i`, or -1.
pub open spec fn find_back(s: Seq<char>, c: char, i: int) -> int
    decreases i + 1,
{
    if i < 0 || i >= s.len() {
        -1
    } else if s[i] == c {
        i
    } else {
        find_back(s, c, i - 1)
    }
}

/// Index of the last `c` in `s`, or -1.
pub open spec fn last_index(s: Seq<char>, c: char) -> int {
    find_back(s, c, s.len() - 1)
}

/// `p` is a prefix of `s`.
pub open spec fn has_prefix(s: Seq<char>, p: Seq<char>) -> bool {
    p.len() <= s.len() && s.take(p.len() as int) == p
}

/// `p` is a suffix of `s`.
pub open spec fn has_suffix(s: Seq<char>, p: Seq<char>) -> bool {
    p.len() <= s.len() && s.skip(s.len() - p.len()) == p
}

/// The part of `s` before the first `c` and the part after it, when `s` holds a `c`.
pub open spec fn split_once(s: Seq<char>, c: char) -> Option<(Seq<char>, Seq<char>)> {
    let i = first_index(s, c);
    if i < 0 {
        None
    } else {
        Some((s.take(i), s.skip(i + 1)))
    }
}

/// The part of `s` before the last `c` and the part after it, when `s` holds a `c`.
pub open spec fn rsplit_once(s: Seq<char>, c: char) -> Option<(Seq<char>, Seq<char>)> {
    let i = last_index(s, c);
    if i < 0 {
        None
    } else {
        Some((s.take(i), s.skip(i + 1)))
    }
}

/// The part of `s` before its first `c` (all of `s` when it holds none): what
/// `str::split(c).next()` yields.
pub open spec fn before_first(s: Seq<char>, c: char) -> Seq<char> {
    let i = first_index(s, c);
    if i < 0 {
        s
    } else {
        s.take(i)
    }
}

/// The part of `s` after its last `c` (all of `s` when it holds none): what
/// `str::rsplit(c).next()` yields.
pub open spec fn after_last(s: Seq<char>, c: char) -> Seq<char> {
    let i = last_index(s, c);
    if i < 0 {
        s
    } else {
        s.skip(i + 1)
    }
}

/// Unicode `White_Space`, the set that `char::is_whitespace` tests.
pub open spec fn is_ws(c: char) -> bool {
    let u = c as u32;
    (0x09 <= u && u <= 0x0d) || u == 0x20 || u == 0x85 || u == 0xa0 || u == 0x1680 || (0x2000 <= u
        && u <= 0x200a) || u == 0x2028 || u == 0x2029 || u == 0x202f || u == 0x205f || u == 0x3000
}

/// `s` without its leading whitespace.
pub open spec fn trim_start(s: Seq<char>) -> Seq<char>
    decreases s.len(),
{
    if s.len() > 0 && is_ws(s[0]) {
        trim_start(s.drop_first())
    } else {
        s
    }
}

/// `s` without its trailing whitespace.
pub open spec fn trim_end(s: Seq<char>) -> Seq<char>
    decreases s.len(),
{
    if s.len() > 0 && is_ws(s.last()) {
        trim_end(s.drop_last())
    } else {
        s
    }
}

/// `s` without leading and trailing whitespace (`str::trim`).
pub open spec fn trim(s: Seq<char>) -> Seq<char> {
    trim_end(trim_start(s))
}

/// ASCII hexadecimal digit.
pub open spec fn is_hex_digit(c: char) -> bool {
    ('0' <= c && c <= '9') || ('a' <= c && c <= 'f') || ('A' <= c && c <= 'F')
}

/// ASCII decimal digit.
pub open spec fn is_digit(c: char) -> bool {
    '0' <= c && c <= '9'
}

/// ASCII letters mapped to lower case, every other character unchanged.
pub open spec fn ascii_lower(c: char) -> char {
    if 'A' <= c && c <= 'Z' {
        ((c as u32) + 32) as char
    } else {
        c
    }
}

/// `s` with its ASCII letters in lower case (`str::to_ascii_lowercase`).
pub open spec fn lower(s: Seq<char>) -> Seq<char> {
    Seq::new(s.len(), |i: int| ascii_lower(s[i]))
}

/// The digit that stands for `d < 10`.
pub open spec fn digit_char(d: nat) -> char {
    ((d + 48) as u32) as char
}

/// The value of a decimal digit.
pub open spec fn digit_value(c: char) -> nat {
    ((c as u32) - 48) as nat
}

/// Every character of `s` is a decimal digit.
pub open spec fn all_digits(s: Seq<char>) -> bool {
    forall|i: int| 0 <= i < s.len() ==> is_digit(#[trigger] s[i])
}

/// The number that the decimal digits `s` spell.
pub open spec fn digits_value(s: Seq<char>) -> nat
    decreases s.len(),
{
    if s.len() == 0 {
        0
    } else {
        digits_value(s.drop_last()) * 10 + digit_value(s.last())
    }
}

/// The decimal representation of `n`, without leading zeros.
pub open spec fn decimal(n: nat) -> Seq<char>
    decreases n,
{
    if n < 10 {
        seq![digit_char(n)]
    } else {
        decimal(n / 10).push(digit_char(n % 10))
    }
}

/// What `str::parse` gives for an unsigned integer type whose largest value is `max`:
/// an optional `+`, then at least one decimal digit, and a value of at most `max`.
pub open spec fn parse_unsigned(s: Seq<char>, max: nat) -> Option<nat> {
    let d = if s.len() > 0 && s[0] == '+' {
        s.drop_first()
    } else {
        s
    };
    if d.len() > 0 && all_digits(d) && digits_value(d) <= max {
        Some(digits_value(d))
    } else {
        None
    }
}

// ---------------------------------------------------------------------------
// Lemmas
// ---------------------------------------------------------------------------

proof fn lemma_find_from_props(s: Seq<char>, c: char, i: int)
    requires
        0 <= i <= s.len(),
    ensures
        find_from(s, c, i) == -1 || (i <= find_from(s, c, i) < s.len() && s[find_from(s, c, i)]
            == c),
        find_from(s, c, i) == -1 ==> forall|j: int| i <= j < s.len() ==> s[j] != c,
        find_from(s, c, i) >= 0 ==> forall|j: int| i <= j < find_from(s, c, i) ==> s[j] != c,
    decreases s.len() - i,
{
    if i < s.len() && s[i] != c {
        lemma_find_from_props(s, c, i + 1);
    }
}

/// Characterises the first occurrence of `c` in `s`.
pub proof fn lemma_first_index(s: Seq<char>, c: char)
    ensures
        first_index(s, c) == -1 <==> !s.contains(c),
        first_index(s, c) == -1 || (0 <= first_index(s, c) < s.len() && s[first_index(s, c)]
            == c),
        forall|j: int| 0 <= j < first_index(s, c) ==> s[j] != c,
{
    lemma_find_from_props(s, c, 0);
    if first_index(s, c) >= 0 {
        assert(s.contains(c));
    }
    if s.contains(c) {
        let k = choose|k: int| 0 <= k < s.len() && s[k] == c;
        assert(s[k] == c);
    }
}

proof fn lemma_find_back_props(s: Seq<char>, c: char, i: int)
    requires
        -1 <= i < s.len(),
    ensures
        find_back(s, c, i) == -1 || (0 <= find_back(s, c, i) <= i && s[find_back(s, c, i)] == c),
        find_back(s, c, i) == -1 ==> forall|j: int| 0 <= j <= i ==> s[j] != c,
        find_back(s, c, i) >= 0 ==> forall|j: int| find_back(s, c, i) < j <= i ==> s[j] != c,
    decreases i + 1,
{
    if i >= 0 && s[i] != c {
        lemma_find_back_props(s, c, i - 1);
    }
}

/// Characterises the last occurrence of `c` in `s`.
pub proof fn lemma_last_index(s: Seq<char>, c: char)
    ensures
        last_index(s, c) == -1 <==> !s.contains(c),
        last_index(s, c) == -1 || (0 <= last_index(s, c) < s.len() && s[last_index(s, c)] == c),
        forall|j: int| last_index(s, c) < j < s.len() ==> s[j] != c,
{
    lemma_find_back_props(s, c, s.len() - 1);
    if last_index(s, c) >= 0 {
        assert(s.contains(c));
    }
    if s.contains(c) {
        let k = choose|k: int| 0 <= k < s.len() && s[k] == c;
        assert(s[k] == c);
    }
}

// ---------------------------------------------------------------------------
// Executable operations
// ---------------------------------------------------------------------------

/// The characters of a string slice, in order.
pub fn chars_of(s: &str) -> (v: Vec<char>)
    ensures
        v@ == s@,
{
    let mut v: Vec<char> = Vec::new();
    for c in it: s.chars()
        invariant
            v@ == it.seq().take(it.index() as int),
    {
        v.push(c);
    }
    v
}

/// A `String` holding the given characters.
pub fn string_of(v: &[char]) -> (s: String)
    ensures
        s@ == v@,
{
    let mut s = String::new();
    let mut i: usize = 0;
    while i < v.len()
        invariant
            i <= v.len(),
            s@ == v@.take(i as int),
        decreases v.len() - i,
    {
        s.push(v[i]);
        assert(v@.take(i as int).push(v@[i as int]) =~= v@.take(i + 1));
        i = i + 1;
    }
    assert(v@.take(v.len() as int) =~= v@);
    s
}

/// A `String` copy of a string slice.
pub fn owned(s: &str) -> (r: String)
    ensures
        r@ == s@,
{
    let v = chars_of(s);
    string_of(&v)
}

/// Two character sequences are equal.
pub fn chars_eq(a: &[char], b: &[char]) -> (r: bool)
    ensures
        r == (a@ == b@),
{
    if a.len() != b.len() {
        return false;
    }
    let mut i: usize = 0;
    while i < a.len()
        invariant
            a.len() == b.len(),
            i <= a.len(),
            forall|j: int| 0 <= j < i ==> a@[j] == b@[j],
        decreases a.len() - i,
    {
        if a[i] != b[i] {
            return false;
        }
        i = i + 1;
    }
    assert(a@ =~= b@);
    true
}

/// Two strings hold the same characters.
pub fn str_eq(a: &str, b: &str) -> (r: bool)
    ensures
        r == (a@ == b@),
{
    let x = chars_of(a);
    let y = chars_of(b);
    chars_eq(&x, &y)
}

/// `p` is a prefix of `s`.
pub fn starts_with(s: &[char], p: &[char]) -> (r: bool)
    ensures
        r == has_prefix(s@, p@),
{
    if p.len() > s.len() {
        return false;
    }
    let mut i: usize = 0;
    while i < p.len()
        invariant
            p.len() <= s.len(),
            i <= p.len(),
            forall|j: int| 0 <= j < i ==> s@[j] == p@[j],
        decreases p.len() - i,
    {
        if s[i] != p[i] {
            assert(s@.take(p.len() as int)[i as int] != p@[i as int]);
            return false;
        }
        i = i + 1;
    }
    assert(s@.take(p.len() as int) =~= p@);
    true
}

/// `p` is a suffix of `s`.
pub fn ends_with(s: &[char], p: &[char]) -> (r: bool)
    ensures
        r == has_suffix(s@, p@),
{
    if p.len() > s.len() {
        return false;
    }
    let off = s.len() - p.len();
    let mut i: usize = 0;
    while i < p.len()
        invariant
            p.len() <= s.len(),
            off == s.len() - p.len(),
            i <= p.len(),
            forall|j: int| 0 <= j < i ==> s@[off + j] == p@[j],
        decreases p.len() - i,
    {
        if s[off + i] != p[i] {
            assert(s@.skip(off as int)[i as int] != p@[i as int]);
            return false;
        }
        i = i + 1;
    }
    assert(s@.skip(off as int) =~= p@);
    true
}

/// The characters `s[from..to]`.
pub fn slice_chars(s: &[char], from: usize, to: usize) -> (r: Vec<char>)
    requires
        from <= to <= s.len(),
    ensures
        r@ == s@.subrange(from as int, to as int),
{
    let mut r: Vec<char> = Vec::new();
    let mut i: usize = from;
    while i < to
        invariant
            from <= i <= to <= s.len(),
            r@ == s@.subrange(from as int, i as int),
        decreases to - i,
    {
        r.push(s[i]);
        assert(s@.subrange(from as int, i as int).push(s@[i as int]) =~= s@.subrange(
            from as int,
            i + 1,
        ));
        i = i + 1;
    }
    r
}

/// Position of the first `c` in `s`.
pub fn find_char(s: &[char], c: char) -> (r: Option<usize>)
    ensures
        match r {
            Some(i) => i as int == first_index(s@, c),
            None => first_index(s@, c) == -1,
        },
{
    let mut i: usize = 0;
    while i < s.len()
        invariant
            i <= s.len(),
            find_from(s@, c, 0) == find_from(s@, c, i as int),
        decreases s.len() - i,
    {
        if s[i] == c {
            return Some(i);
        }
        i = i + 1;
    }
    None
}

/// Position of the last `c` in `s`.
pub fn rfind_char(s: &[char], c: char) -> (r: Option<usize>)
    ensures
        match r {
            Some(i) => i as int == last_index(s@, c),
            None => last_index(s@, c) == -1,
        },
{
    let mut i: usize = s.len();
    while i > 0
        invariant
            i <= s.len(),
            find_back(s@, c, s.len() - 1) == find_back(s@, c, i - 1),
        decreases i,
    {
        if s[i - 1] == c {
            return Some(i - 1);
        }
        i = i - 1;
    }
    None
}

/// `s` holds the character `c`.
pub fn contains_char(s: &[char], c: char) -> (r: bool)
    ensures
        r == s@.contains(c),
{
    proof {
        lemma_first_index(s@, c);
    }
    find_char(s, c).is_some()
}

/// `str::split_once` on a character.
pub fn split_once_char(s: &[char], c: char) -> (r: Option<(Vec<char>, Vec<char>)>)
    ensures
        match split_once(s@, c) {
            Some((a, b)) => r matches Some((x, y)) && x@ == a && y@ == b,
            None => r is None,
        },
{
    proof {
        lemma_first_index(s@, c);
    }
    match find_char(s, c) {
        Some(i) => {
            assert(i < s.len());
            Some((slice_chars(s, 0, i), slice_chars(s, i + 1, s.len())))
        },
        None => None,
    }
}

/// `str::rsplit_once` on a character.
pub fn rsplit_once_char(s: &[char], c: char) -> (r: Option<(Vec<char>, Vec<char>)>)
    ensures
        match rsplit_once(s@, c) {
            Some((a, b)) => r matches Some((x, y)) && x@ == a && y@ == b,
            None => r is None,
        },
{
    proof {
        lemma_last_index(s@, c);
    }
    match rfind_char(s, c) {
        Some(i) => {
            assert(i < s.len());
            Some((slice_chars(s, 0, i), slice_chars(s, i + 1, s.len())))
        },
        None => None,
    }
}

/// The part of `s` before its first `c`.
pub fn before_first_char(s: &[char], c: char) -> (r: Vec<char>)
    ensures
        r@ == before_first(s@, c),
{
    proof {
        lemma_first_index(s@, c);
    }
    match find_char(s, c) {
        Some(i) => slice_chars(s, 0, i),
        None => slice_chars(s, 0, s.len()),
    }
}

/// The part of `s` after its last `c`.
pub fn after_last_char(s: &[char], c: char) -> (r: Vec<char>)
    ensures
        r@ == after_last(s@, c),
{
    proof {
        lemma_last_index(s@, c);
    }
    match rfind_char(s, c) {
        Some(i) => {
            assert(i < s.len());
            slice_chars(s, i + 1, s.len())
        },
        None => slice_chars(s, 0, s.len()),
    }
}

/// `char::is_whitespace`.
pub fn is_whitespace(c: char) -> (r: bool)
    ensures
        r == is_ws(c),
{
    let u = c as u32;
    (0x09 <= u && u <= 0x0d) || u == 0x20 || u == 0x85 || u == 0xa0 || u == 0x1680 || (0x2000 <= u
        && u <= 0x200a) || u == 0x2028 || u == 0x2029 || u == 0x202f || u == 0x205f || u == 0x3000
}

proof fn lemma_trim_start_skip(s: Seq<char>, i: int)
    requires
        0 <= i <= s.len(),
        forall|j: int| 0 <= j < i ==> is_ws(s[j]),
    ensures
        trim_start(s) == trim_start(s.skip(i)),
    decreases i,
{
    if i > 0 {
        assert(s.skip(1) =~= s.drop_first());
        lemma_trim_start_skip(s.drop_first(), i - 1);
        assert(s.drop_first().skip(i - 1) =~= s.skip(i));
    } else {
        assert(s.skip(0) =~= s);
    }
}

proof fn lemma_trim_end_take(s: Seq<char>, i: int)
    requires
        0 <= i <= s.len(),
        forall|j: int| i <= j < s.len() ==> is_ws(s[j]),
    ensures
        trim_end(s) == trim_end(s.take(i)),
    decreases s.len() - i,
{
    if i < s.len() {
        assert(s.drop_last() =~= s.take(s.len() - 1));
        lemma_trim_end_take(s.drop_last(), i);
        assert(s.drop_last().take(i) =~= s.take(i));
    } else {
        assert(s.take(s.len() as int) =~= s);
    }
}

/// A sequence that starts and ends with a non-whitespace character is its own trim.
pub proof fn lemma_trim_of_nonblank(s: Seq<char>)
    requires
        s.len() > 0,
        !is_ws(s[0]),
        !is_ws(s.last()),
    ensures
        trim(s) == s,
{
}

/// `str::trim`.
pub fn trim_chars(s: &[char]) -> (r: Vec<char>)
    ensures
        r@ == trim(s@),
{
    let mut a: usize = 0;
    while a < s.len() && is_whitespace(s[a])
        invariant
            a <= s.len(),
            forall|j: int| 0 <= j < a ==> is_ws(s@[j]),
        decreases s.len() - a,
    {
        a = a + 1;
    }
    proof {
        lemma_trim_start_skip(s@, a as int);
        let t = s@.skip(a as int);
        if t.len() > 0 {
            assert(!is_ws(t[0]));
        }
        assert(trim_start(t) == t);
    }
    let mut b: usize = s.len();
    while b > a && is_whitespace(s[b - 1])
        invariant
            a <= b <= s.len(),
            forall|j: int| b <= j < s.len() ==> is_ws(s@[j]),
        decreases b,
    {
        b = b - 1;
    }
    proof {
        let t = s@.skip(a as int);
        lemma_trim_end_take(t, b - a);
        let u = t.take(b - a);
        if u.len() > 0 {
            assert(u.last() == s@[b - 1]);
        }
        assert(trim_end(u) == u);
        assert(u =~= s@.subrange(a as int, b as int));
    }
    slice_chars(s, a, b)
}

/// `str::to_ascii_lowercase`.
pub fn lower_chars(s: &[char]) -> (r: Vec<char>)
    ensures
        r@ == lower(s@),
{
    let mut r: Vec<char> = Vec::new();
    let mut i: usize = 0;
    while i < s.len()
        invariant
            i <= s.len(),
            r@.len() == i,
            forall|j: int| 0 <= j < i ==> r@[j] == ascii_lower(s@[j]),
        decreases s.len() - i,
    {
        let c = s[i];
        let l = if 'A' <= c && c <= 'Z' {
            let code: u32 = (c as u32) + 32;
            proof {
                assert((code as char) == ascii_lower(c));
            }
            // the shifted code point is again an ASCII letter
            char_from_ascii(code)
        } else {
            c
        };
        r.push(l);
        i = i + 1;
    }
    assert(r@ =~= lower(s@));
    r
}

/// The character of an ASCII code point.
pub fn char_from_ascii(code: u32) -> (c: char)
    requires
        code < 128,
    ensures
        c == code as char,
        c as u32 == code,
{
    let b: u8 = code as u8;
    b as char
}

/// A decimal digit's character.
pub fn digit(d: u64) -> (c: char)
    requires
        d < 10,
    ensures
        c == digit_char(d as nat),
{
    let code: u32 = (d as u32) + 48;
    char_from_ascii(code)
}

/// The decimal representation of `n` (`u64::to_string`).
pub fn decimal_chars(n: u64) -> (r: Vec<char>)
    ensures
        r@ == decimal(n as nat),
    decreases n,
{
    if n < 10 {
        let mut r: Vec<char> = Vec::new();
        r.push(digit(n));
        r
    } else {
        let mut r = decimal_chars(n / 10);
        r.push(digit(n % 10));
        r
    }
}

/// The decimal representation of `n` as a `String`.
pub fn decimal_string(n: u64) -> (r: String)
    ensures
        r@ == decimal(n as nat),
{
    let v = decimal_chars(n);
    string_of(&v)
}

proof fn lemma_digits_value_bound(s: Seq<char>)
    requires
        all_digits(s),
    ensures
        digits_value(s) < pow10(s.len()),
    decreases s.len(),
{
    if s.len() > 0 {
        assert(all_digits(s.drop_last())) by {
            assert forall|i: int| 0 <= i < s.drop_last().len() implies is_digit(
                #[trigger] s.drop_last()[i],
            ) by {
                assert(s.drop_last()[i] == s[i]);
            }
        }
        lemma_digits_value_bound(s.drop_last());
        assert(is_digit(s[s.len() - 1]));
    }
}

/// Ten to the power `n`.
pub open spec fn pow10(n: nat) -> nat
    decreases n,
{
    if n == 0 {
        1
    } else {
        10 * pow10((n - 1) as nat)
    }
}

/// The value of the decimal digits `s`, when it is at most `max`.
pub fn parse_digits(s: &[char], max: u64) -> (r: Option<u64>)
    requires
        all_digits(s@),
    ensures
        match r {
            Some(v) => v as nat == digits_value(s@) && v <= max,
            None => digits_value(s@) > max,
        },
{
    let mut acc: u64 = 0;
    let mut i: usize = 0;
    while i < s.len()
        invariant
            all_digits(s@),
            i <= s.len(),
            acc as nat == digits_value(s@.take(i as int)),
            acc <= max,
        decreases s.len() - i,
    {
        assert(is_digit(s@[i as int]));
        let d: u64 = (s[i] as u32 - 48) as u64;
        assert(s@.take(i + 1).drop_last() =~= s@.take(i as int));
        assert(digits_value(s@.take(i + 1)) == digits_value(s@.take(i as int)) * 10 + d);
        if d > max || acc > (max - d) / 10 {
            // acc * 10 + d > max
            proof {
                if d <= max {
                    assert(acc * 10 + d > max) by (nonlinear_arith)
                        requires
                            acc > (max - d) / 10,
                            d <= max,
                    ;
                }
                lemma_prefix_value_monotone(s@, i + 1);
            }
            return None;
        }
        assert(acc * 10 + d <= max) by (nonlinear_arith)
            requires
                acc <= (max - d) / 10,
                d <= max,
        ;
        acc = acc * 10 + d;
        i = i + 1;
    }
    assert(s@.take(s.len() as int) =~= s@);
    Some(acc)
}

/// A longer run of digits never spells a smaller number than its prefix.
proof fn lemma_prefix_value_monotone(s: Seq<char>, i: int)
    requires
        all_digits(s),
        0 <= i <= s.len(),
    ensures
        digits_value(s.take(i)) <= digits_value(s),
    decreases s.len() - i,
{
    if i < s.len() {
        lemma_prefix_value_monotone(s, i + 1);
        assert(s.take(i + 1).drop_last() =~= s.take(i));
        assert(digits_value(s.take(i + 1)) == digits_value(s.take(i)) * 10 + digit_value(
            s.take(i + 1).last(),
        ));
    } else {
        assert(s.take(s.len() as int) =~= s);
    }
}

/// `str::parse` for an unsigned integer type whose largest value is `max`.
pub fn parse_unsigned_chars(s: &[char], max: u64) -> (r: Option<u64>)
    ensures
        match parse_unsigned(s@, max as nat) {
            Some(v) => r == Some(v as u64),
            None => r is None,
        },
{
    let start: usize = if s.len() > 0 && s[0] == '+' {
        1
    } else {
        0
    };
    let d = slice_chars(s, start, s.len());
    proof {
        if start == 1 {
            assert(d@ =~= s@.drop_first());
        } else {
            assert(d@ =~= s@);
        }
    }
    let ghost dd = if s@.len() > 0 && s@[0] == '+' {
        s@.drop_first()
    } else {
        s@
    };
    assert(d@ == dd);
    if d.len() == 0 {
        return None;
    }
    let mut i: usize = 0;
    while i < d.len()
        invariant
            i <= d.len(),
            d@ == dd,
            dd == (if s@.len() > 0 && s@[0] == '+' {
                s@.drop_first()
            } else {
                s@
            }),
            forall|j: int| 0 <= j < i ==> is_digit(#[trigger] d@[j]),
        decreases d.len() - i,
    {
        if !('0' <= d[i] && d[i] <= '9') {
            assert(!is_digit(d@[i as int]));
            assert(!all_digits(d@));
            return None;
        }
        i = i + 1;
    }
    parse_digits(&d, max)
}

/// `str::parse::<u16>`.
pub fn parse_u16(s: &[char]) -> (r: Option<u16>)
    ensures
        match parse_unsigned(s@, 0xffff) {
            Some(v) => r == Some(v as u16),
            None => r is None,
        },
{
    match parse_unsigned_chars(s, 0xffff) {
        Some(v) => Some(v as u16),
        None => None,
    }
}

/// `str::parse::<usize>`.
pub fn parse_usize(s: &[char]) -> (r: Option<usize>)
    ensures
        match parse_unsigned(s@, usize::MAX as nat) {
            Some(v) => r == Some(v as usize),
            None => r is None,
        },
{
    match parse_unsigned_chars(s, usize::MAX as u64) {
        Some(v) => Some(v as usize),
        None => None,
    }
}


// ---------------------------------------------------------------------------
// Splitting into pieces
// ---------------------------------------------------------------------------

/// First index `j >= i` with a line break "\r\n" starting at `j`, or -1.
pub open spec fn find_crlf_from(s: Seq<char>, i: int) -> int
    decreases s.len() - i,
{
    if i < 0 || i + 1 >= s.len() {
        -1
    } else if s[i] == '\r' && s[i + 1] == '\n' {
        i
    } else {
        find_crlf_from(s, i + 1)
    }
}

/// The position `find_crlf_from` gives, when there is one, starts a CRLF at or after `i`.
pub proof fn lemma_find_crlf_from(s: Seq<char>, i: int)
    requires
        0 <= i,
    ensures
        find_crlf_from(s, i) == -1 || (i <= find_crlf_from(s, i) && find_crlf_from(s, i) + 1
            < s.len() && s[find_crlf_from(s, i)] == '\r' && s[find_crlf_from(s, i) + 1] == '\n'),
    decreases s.len() - i,
{
    if i + 1 < s.len() && !(s[i] == '\r' && s[i + 1] == '\n') {
        lemma_find_crlf_from(s, i + 1);
    }
}

/// The pieces of `s` between "\r\n" separators (`str::split("\r\n")`): one more piece
/// than separators.
pub open spec fn split_crlf(s: Seq<char>) -> Seq<Seq<char>>
    decreases s.len(),
{
    let i = find_crlf_from(s, 0);
    if i < 0 {
        seq![s]
    } else {
        proof {
            lemma_find_crlf_from(s, 0);
        }
        seq![s.take(i)] + split_crlf(s.skip(i + 2))
    }
}

/// The pieces of `s` between `c` separators (`str::split(c)`): one more piece than
/// separators.
pub open spec fn split_char(s: Seq<char>, c: char) -> Seq<Seq<char>>
    decreases s.len(),
{
    let i = first_index(s, c);
    if i < 0 {
        seq![s]
    } else {
        proof {
            lemma_first_index(s, c);
        }
        seq![s.take(i)] + split_char(s.skip(i + 1), c)
    }
}

/// `str::lines`: the pieces between "\n" separators, each but the last without one trailing
/// "\r", and without a final empty piece.
pub open spec fn lines(s: Seq<char>) -> Seq<Seq<char>> {
    let pieces = split_char(s, '\n');
    let n = pieces.len();
    let kept = if pieces[n - 1].len() == 0 {
        pieces.take(n - 1)
    } else {
        pieces
    };
    Seq::new(
        kept.len(),
        |i: int|
            if i < n - 1 && kept[i].len() > 0 && kept[i].last() == '\r' {
                kept[i].drop_last()
            } else {
                kept[i]
            },
    )
}

/// First index `j >= i` that is not whitespace, or `s.len()`.
pub open spec fn skip_ws(s: Seq<char>, i: int) -> int
    decreases s.len() - i,
{
    if i >= s.len() || i < 0 {
        i
    } else if is_ws(s[i]) {
        skip_ws(s, i + 1)
    } else {
        i
    }
}

/// First index `j >= i` that is whitespace, or `s.len()`.
pub open spec fn word_end(s: Seq<char>, i: int) -> int
    decreases s.len() - i,
{
    if i >= s.len() || i < 0 {
        i
    } else if is_ws(s[i]) {
        i
    } else {
        word_end(s, i + 1)
    }
}

/// `skip_ws` passes over whitespace only and stops at the first other character.
pub proof fn lemma_skip_ws(s: Seq<char>, i: int)
    requires
        0 <= i <= s.len(),
    ensures
        i <= skip_ws(s, i) <= s.len(),
        skip_ws(s, i) < s.len() ==> !is_ws(s[skip_ws(s, i)]),
        forall|j: int| i <= j < skip_ws(s, i) ==> is_ws(s[j]),
    decreases s.len() - i,
{
    if i < s.len() && is_ws(s[i]) {
        lemma_skip_ws(s, i + 1);
    }
}

/// `word_end` passes over non-whitespace only and stops at the first whitespace.
pub proof fn lemma_word_end(s: Seq<char>, i: int)
    requires
        0 <= i <= s.len(),
    ensures
        i <= word_end(s, i) <= s.len(),
        word_end(s, i) < s.len() ==> is_ws(s[word_end(s, i)]),
        forall|j: int| i <= j < word_end(s, i) ==> !is_ws(s[j]),
    decreases s.len() - i,
{
    if i < s.len() && !is_ws(s[i]) {
        lemma_word_end(s, i + 1);
    }
}

/// The whitespace-separated words of `s[i..]`, none empty.
pub open spec fn words_from(s: Seq<char>, i: int) -> Seq<Seq<char>>
    decreases s.len() - i,
{
    if i < 0 || i > s.len() {
        seq![]
    } else {
        let a = skip_ws(s, i);
        proof {
            lemma_skip_ws(s, i);
        }
        if a >= s.len() {
            seq![]
        } else {
            let b = word_end(s, a);
            proof {
                lemma_word_end(s, a);
                assert(b > a);
            }
            seq![s.subrange(a, b)] + words_from(s, b)
        }
    }
}

/// `str::split_whitespace`.
pub open spec fn words(s: Seq<char>) -> Seq<Seq<char>> {
    words_from(s, 0)
}

/// `str::eq_ignore_ascii_case`.
pub open spec fn eq_ignore_case(a: Seq<char>, b: Seq<char>) -> bool {
    lower(a) == lower(b)
}

/// Pieces of `s` between "\r\n" separators.
pub fn split_crlf_chars(s: &[char]) -> (r: Vec<Vec<char>>)
    ensures
        r@.len() == split_crlf(s@).len(),
        forall|k: int| 0 <= k < r@.len() ==> #[trigger] r@[k]@ == split_crlf(s@)[k],
{
    let mut r: Vec<Vec<char>> = Vec::new();
    let mut start: usize = 0;
    let mut i: usize = 0;
    proof {
        assert(s@.skip(0) =~= s@);
        assert(r@.map_values(|v: Vec<char>| v@) + split_crlf(s@) =~= split_crlf(s@));
    }
    while s.len() > 1 && i < s.len() - 1
        invariant
            start <= i <= s.len(),
            split_crlf(s@) == r@.map_values(|v: Vec<char>| v@) + split_crlf(s@.skip(start as int)),
            find_crlf_from(s@.skip(start as int), 0) == find_crlf_from(
                s@.skip(start as int),
                i - start,
            ),
        decreases s.len() - i,
    {
        if s[i] == '\r' && s[i + 1] == '\n' {
            let piece = slice_chars(s, start, i);
            proof {
                let t = s@.skip(start as int);
                assert(t[i - start] == '\r' && t[i - start + 1] == '\n');
                assert(find_crlf_from(t, 0) == i - start);
                assert(t.take(i - start) =~= piece@);
                assert(t.skip(i - start + 2) =~= s@.skip(i + 2));
                assert(split_crlf(t) == seq![piece@] + split_crlf(s@.skip(i + 2)));
                assert(r@.push(piece).map_values(|v: Vec<char>| v@) =~= r@.map_values(
                    |v: Vec<char>| v@,
                ).push(piece@));
            }
            r.push(piece);
            start = i + 2;
            i = i + 2;
            proof {
                assert(i - start == 0);
            }
        } else {
            proof {
                let t = s@.skip(start as int);
                assert(t[i - start] == s@[i as int]);
                assert(t[i - start + 1] == s@[i + 1]);
            }
            i = i + 1;
        }
    }
    let last = slice_chars(s, start, s.len());
    proof {
        let t = s@.skip(start as int);
        assert(find_crlf_from(t, i - start) == -1);
        assert(split_crlf(t) == seq![t]);
        assert(t =~= last@);
        assert(r@.push(last).map_values(|v: Vec<char>| v@) =~= r@.map_values(|v: Vec<char>| v@).push(
            last@,
        ));
    }
    r.push(last);
    proof {
        assert(split_crlf(s@) =~= r@.map_values(|v: Vec<char>| v@));
        assert forall|k: int| 0 <= k < r@.len() implies #[trigger] r@[k]@ == split_crlf(s@)[k] by {
            assert(r@.map_values(|v: Vec<char>| v@)[k] == r@[k]@);
        }
    }
    r
}

/// Pieces of `s` between `c` separators.
pub fn split_char_chars(s: &[char], c: char) -> (r: Vec<Vec<char>>)
    ensures
        r@.len() == split_char(s@, c).len(),
        forall|k: int| 0 <= k < r@.len() ==> #[trigger] r@[k]@ == split_char(s@, c)[k],
{
    let mut r: Vec<Vec<char>> = Vec::new();
    let mut start: usize = 0;
    let mut i: usize = 0;
    proof {
        assert(s@.skip(0) =~= s@);
        assert(r@.map_values(|v: Vec<char>| v@) + split_char(s@, c) =~= split_char(s@, c));
    }
    while i < s.len()
        invariant
            start <= i <= s.len(),
            split_char(s@, c) == r@.map_values(|v: Vec<char>| v@) + split_char(
                s@.skip(start as int),
                c,
            ),
            forall|j: int| start <= j < i ==> s@[j] != c,
        decreases s.len() - i,
    {
        if s[i] == c {
            let piece = slice_chars(s, start, i);
            proof {
                let t = s@.skip(start as int);
                lemma_first_index(t, c);
                assert(t[i - start] == c);
                assert forall|j: int| 0 <= j < i - start implies t[j] != c by {
                    assert(t[j] == s@[start + j]);
                }
                assert(first_index(t, c) == i - start) by {
                    lemma_first_index_unique(t, c, i - start);
                }
                assert(t.take(i - start) =~= piece@);
                assert(t.skip(i - start + 1) =~= s@.skip(i + 1));
                assert(r@.push(piece).map_values(|v: Vec<char>| v@) =~= r@.map_values(
                    |v: Vec<char>| v@,
                ).push(piece@));
            }
            r.push(piece);
            start = i + 1;
        }
        i = i + 1;
    }
    let last = slice_chars(s, start, s.len());
    proof {
        let t = s@.skip(start as int);
        lemma_first_index(t, c);
        assert(!t.contains(c)) by {
            if t.contains(c) {
                let k = choose|k: int| 0 <= k < t.len() && t[k] == c;
                assert(s@[start + k] == c);
            }
        }
        assert(t =~= last@);
        assert(r@.push(last).map_values(|v: Vec<char>| v@) =~= r@.map_values(|v: Vec<char>| v@).push(
            last@,
        ));
    }
    r.push(last);
    proof {
        assert(split_char(s@, c) =~= r@.map_values(|v: Vec<char>| v@));
        assert forall|k: int| 0 <= k < r@.len() implies #[trigger] r@[k]@ == split_char(s@, c)[k] by {
            assert(r@.map_values(|v: Vec<char>| v@)[k] == r@[k]@);
        }
    }
    r
}

/// The first occurrence is the index whose prefix holds no `c`.
pub proof fn lemma_first_index_unique(s: Seq<char>, c: char, i: int)
    requires
        0 <= i < s.len(),
        s[i] == c,
        forall|j: int| 0 <= j < i ==> s[j] != c,
    ensures
        first_index(s, c) == i,
{
    lemma_first_index(s, c);
    assert(s.contains(c));
    if first_index(s, c) < i {
        assert(s[first_index(s, c)] == c);
    }
    if first_index(s, c) > i {
    }
}

/// `str::lines`.
pub fn lines_chars(s: &[char]) -> (r: Vec<Vec<char>>)
    ensures
        r@.len() == lines(s@).len(),
        forall|k: int| 0 <= k < r@.len() ==> #[trigger] r@[k]@ == lines(s@)[k],
{
    let pieces = split_char_chars(s, '\n');
    let n = pieces.len();
    proof {
        assert(n >= 1) by {
            lemma_split_char_nonempty(s@, '\n');
        }
    }
    let keep: usize = if pieces[n - 1].len() == 0 {
        n - 1
    } else {
        n
    };
    let mut r: Vec<Vec<char>> = Vec::new();
    let mut i: usize = 0;
    while i < keep
        invariant
            n == pieces@.len(),
            n >= 1,
            n == split_char(s@, '\n').len(),
            forall|k: int| 0 <= k < n ==> #[trigger] pieces@[k]@ == split_char(s@, '\n')[k],
            keep == (if split_char(s@, '\n')[n - 1].len() == 0 {
                n - 1
            } else {
                n as int
            }),
            i <= keep,
            r@.len() == i,
            forall|k: int| 0 <= k < i ==> #[trigger] r@[k]@ == lines(s@)[k],
        decreases keep - i,
    {
        let piece = &pieces[i];
        let line = if i < n - 1 && piece.len() > 0 && piece[piece.len() - 1] == '\r' {
            slice_chars(piece, 0, piece.len() - 1)
        } else {
            slice_chars(piece, 0, piece.len())
        };
        proof {
            assert(pieces@[i as int]@ == split_char(s@, '\n')[i as int]);
            if i < n - 1 && piece@.len() > 0 && piece@.last() == '\r' {
                assert(line@ =~= piece@.drop_last());
            } else {
                assert(line@ =~= piece@);
            }
        }
        r.push(line);
        i = i + 1;
    }
    r
}

/// Splitting always yields at least one piece.
pub proof fn lemma_split_char_nonempty(s: Seq<char>, c: char)
    ensures
        split_char(s, c).len() >= 1,
    decreases s.len(),
{
    let i = first_index(s, c);
    if i >= 0 {
        lemma_first_index(s, c);
        lemma_split_char_nonempty(s.skip(i + 1), c);
    }
}

/// `str::split_whitespace`.
pub fn words_chars(s: &[char]) -> (r: Vec<Vec<char>>)
    ensures
        r@.len() == words(s@).len(),
        forall|k: int| 0 <= k < r@.len() ==> #[trigger] r@[k]@ == words(s@)[k],
{
    let mut r: Vec<Vec<char>> = Vec::new();
    let mut i: usize = 0;
    while i < s.len()
        invariant
            i <= s.len(),
            words(s@) == r@.map_values(|v: Vec<char>| v@) + words_from(s@, i as int),
        decreases s.len() - i,
    {
        let mut a: usize = i;
        while a < s.len() && is_whitespace(s[a])
            invariant
                i <= a <= s.len(),
                skip_ws(s@, i as int) == skip_ws(s@, a as int),
            decreases s.len() - a,
        {
            a = a + 1;
        }
        proof {
            lemma_skip_ws(s@, i as int);
        }
        if a >= s.len() {
            proof {
                assert(words_from(s@, i as int) == Seq::<Seq<char>>::empty());
                assert(words_from(s@, s.len() as int) == Seq::<Seq<char>>::empty()) by {
                    lemma_skip_ws(s@, s.len() as int);
                }
            }
            i = s.len();
        } else {
            let mut b: usize = a;
            while b < s.len() && !is_whitespace(s[b])
                invariant
                    a <= b <= s.len(),
                    word_end(s@, a as int) == word_end(s@, b as int),
                decreases s.len() - b,
            {
                b = b + 1;
            }
            let w = slice_chars(s, a, b);
            proof {
                lemma_word_end(s@, a as int);
                assert(words_from(s@, i as int) == seq![w@] + words_from(s@, b as int));
                assert(r@.push(w).map_values(|v: Vec<char>| v@) =~= r@.map_values(
                    |v: Vec<char>| v@,
                ).push(w@));
            }
            r.push(w);
            i = b;
        }
    }
    proof {
        lemma_skip_ws(s@, i as int);
        assert(words_from(s@, i as int) == Seq::<Seq<char>>::empty());
        assert(words(s@) =~= r@.map_values(|v: Vec<char>| v@));
        assert forall|k: int| 0 <= k < r@.len() implies #[trigger] r@[k]@ == words(s@)[k] by {
            assert(r@.map_values(|v: Vec<char>| v@)[k] == r@[k]@);
        }
    }
    r
}

/// `str::eq_ignore_ascii_case`.
pub fn eq_ignore_case_chars(a: &[char], b: &[char]) -> (r: bool)
    ensures
        r == eq_ignore_case(a@, b@),
{
    let x = lower_chars(a);
    let y = lower_chars(b);
    chars_eq(&x, &y)
}


// ---------------------------------------------------------------------------
// Building text
// ---------------------------------------------------------------------------

/// Appends the characters of `s`.
pub fn push_str(out: &mut Vec<char>, s: &str)
    ensures
        final(out)@ == old(out)@ + s@,
{
    let cs = chars_of(s);
    push_chars(out, &cs);
}

/// Appends the characters `s`.
pub fn push_chars(out: &mut Vec<char>, s: &[char])
    ensures
        final(out)@ == old(out)@ + s@,
{
    let ghost start = out@;
    let mut i: usize = 0;
    while i < s.len()
        invariant
            i <= s@.len(),
            out@ == start + s@.take(i as int),
        decreases s.len() - i,
    {
        out.push(s[i]);
        assert(s@.take(i as int).push(s@[i as int]) =~= s@.take(i + 1));
        i = i + 1;
    }
    assert(s@.take(s@.len() as int) =~= s@);
}

/// The concatenation of two strings.
pub fn concat2(a: &str, b: &str) -> (r: String)
    ensures
        r@ == a@ + b@,
{
    let mut out: Vec<char> = Vec::new();
    push_str(&mut out, a);
    push_str(&mut out, b);
    assert(out@ =~= a@ + b@);
    string_of(&out)
}

/// The concatenation of three strings.
pub fn concat3(a: &str, b: &str, c: &str) -> (r: String)
    ensures
        r@ == a@ + b@ + c@,
{
    let mut out: Vec<char> = Vec::new();
    push_str(&mut out, a);
    push_str(&mut out, b);
    push_str(&mut out, c);
    assert(out@ =~= a@ + b@ + c@);
    string_of(&out)
}

/// The concatenation of five strings.
pub fn concat5(a: &str, b: &str, c: &str, d: &str, e: &str) -> (r: String)
    ensures
        r@ == a@ + b@ + c@ + d@ + e@,
{
    let mut out: Vec<char> = Vec::new();
    push_str(&mut out, a);
    push_str(&mut out, b);
    push_str(&mut out, c);
    push_str(&mut out, d);
    push_str(&mut out, e);
    assert(out@ =~= a@ + b@ + c@ + d@ + e@);
    string_of(&out)
}

/// A copy of a `String`.
pub fn copy_string(s: &String) -> (r: String)
    ensures
        r@ == s@,
{
    s.clone()
}

/// Copies of each string, in order.
pub fn copy_strings(v: &Vec<String>) -> (r: Vec<String>)
    ensures
        r@.len() == v@.len(),
        forall|i: int| 0 <= i < v@.len() ==> #[trigger] r@[i]@ == v@[i]@,
{
    let mut r: Vec<String> = Vec::new();
    let mut i: usize = 0;
    while i < v.len()
        invariant
            i <= v@.len(),
            r@.len() == i,
            forall|k: int| 0 <= k < i ==> #[trigger] r@[k]@ == v@[k]@,
        decreases v.len() - i,
    {
        r.push(v[i].clone());
        i = i + 1;
    }
    r
}

/// The strings joined with `sep` between them (`[String]::join`).
pub open spec fn join_spec(parts: Seq<Seq<char>>, sep: Seq<char>) -> Seq<char>
    decreases parts.len(),
{
    if parts.len() == 0 {
        Seq::empty()
    } else if parts.len() == 1 {
        parts[0]
    } else {
        join_spec(parts.drop_last(), sep) + sep + parts.last()
    }
}

/// The strings of `parts` joined with `sep` between them.
pub fn join_strings(parts: &Vec<String>, sep: &str) -> (r: String)
    ensures
        r@ == join_spec(parts@.map_values(|s: String| s@), sep@),
{
    let ghost pv = parts@.map_values(|s: String| s@);
    let mut out: Vec<char> = Vec::new();
    let mut i: usize = 0;
    while i < parts.len()
        invariant
            i <= parts@.len(),
            pv == parts@.map_values(|s: String| s@),
            out@ == join_spec(pv.take(i as int), sep@),
        decreases parts.len() - i,
    {
        if i > 0 {
            push_str(&mut out, sep);
        }
        push_str(&mut out, parts[i].as_str());
        proof {
            assert(pv.take(i + 1).drop_last() =~= pv.take(i as int));
            if i == 0 {
                assert(out@ =~= pv.take(1)[0]);
            }
        }
        i = i + 1;
    }
    assert(pv.take(parts@.len() as int) =~= pv);
    string_of(&out)
}
} // verus!
