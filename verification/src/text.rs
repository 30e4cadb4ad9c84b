//! Character-level text helpers over the `Seq<char>` view of strings.

use vstd::prelude::*;

verus! {

/// Appends one character to a string.
/// Trusted: `String::push` appends `c` at the end and changes nothing else.
#[verifier::external_body]
pub(crate) fn push_char(s: &mut String, c: char)
    ensures
        final(s)@ == old(s)@.push(c),
{
    s.push(c);
}

/// The characters of a string, in order.
pub fn chars_of(s: &str) -> (r: Vec<char>)
    ensures
        r@ == s@,
{
    let n: usize = s.unicode_len();
    let mut r: Vec<char> = Vec::new();
    let mut i: usize = 0;
    while i < n
        invariant
            n == s@.len(),
            i <= n,
            r@ == s@.subrange(0, i as int),
        decreases n - i,
    {
        let c = s.get_char(i);
        r.push(c);
        i = i + 1;
        assert(r@ =~= s@.subrange(0, i as int));
    }
    assert(r@ =~= s@);
    r
}

/// The string made of the given characters, in order.
pub fn string_of_chars(v: &Vec<char>) -> (r: String)
    ensures
        r@ == v@,
{
    let mut r = String::new();
    let mut i: usize = 0;
    while i < v.len()
        invariant
            i <= v@.len(),
            r@ == v@.subrange(0, i as int),
        decreases v@.len() - i,
    {
        push_char(&mut r, v[i]);
        i = i + 1;
        assert(r@ =~= v@.subrange(0, i as int));
    }
    assert(r@ =~= v@);
    r
}

/// The ASCII character of a decimal digit.
pub open spec fn digit_char(d: nat) -> char {
    if d == 0 { '0' }
    else if d == 1 { '1' }
    else if d == 2 { '2' }
    else if d == 3 { '3' }
    else if d == 4 { '4' }
    else if d == 5 { '5' }
    else if d == 6 { '6' }
    else if d == 7 { '7' }
    else if d == 8 { '8' }
    else { '9' }
}

/// The decimal notation of `n`: no sign, no leading zero, "0" for zero.
pub open spec fn decimal(n: nat) -> Seq<char>
    decreases n,
{
    if n < 10 {
        seq![digit_char(n)]
    } else {
        decimal(n / 10).push(digit_char(n % 10))
    }
}

fn digit(d: u64) -> (c: char)
    requires
        d < 10,
    ensures
        c == digit_char(d as nat),
{
    if d == 0 { '0' }
    else if d == 1 { '1' }
    else if d == 2 { '2' }
    else if d == 3 { '3' }
    else if d == 4 { '4' }
    else if d == 5 { '5' }
    else if d == 6 { '6' }
    else if d == 7 { '7' }
    else if d == 8 { '8' }
    else { '9' }
}

/// Appends the decimal notation of `n`.
pub fn push_decimal(s: &mut String, n: u64)
    ensures
        final(s)@ == old(s)@ + decimal(n as nat),
    decreases n,
{
    if n >= 10 {
        push_decimal(s, n / 10);
    }
    push_char(s, digit(n % 10));
    assert(s@ =~= old(s)@ + decimal(n as nat));
}

/// The decimal notation of `n`, as `u64::to_string` writes it.
pub fn decimal_string(n: u64) -> (r: String)
    ensures
        r@ == decimal(n as nat),
{
    let mut r = String::new();
    push_decimal(&mut r, n);
    assert(r@ =~= decimal(n as nat));
    r
}


/// Whether `c` has the Unicode `White_Space` property: the 25 code points
/// U+0009 to U+000D, U+0020, U+0085, U+00A0, U+1680, U+2000 to U+200A,
/// U+2028, U+2029, U+202F, U+205F and U+3000.
pub open spec fn char_whitespace(c: char) -> bool {
    let n = c as u32;
    ||| 0x09 <= n && n <= 0x0D
    ||| n == 0x20
    ||| n == 0x85
    ||| n == 0xA0
    ||| n == 0x1680
    ||| 0x2000 <= n && n <= 0x200A
    ||| n == 0x2028
    ||| n == 0x2029
    ||| n == 0x202F
    ||| n == 0x205F
    ||| n == 0x3000
}

/// Whether `c` is whitespace, as `char::is_whitespace` decides.
pub fn is_whitespace(c: char) -> (r: bool)
    ensures
        r == char_whitespace(c),
{
    let n: u32 = c as u32;
    (0x09 <= n && n <= 0x0D) || n == 0x20 || n == 0x85 || n == 0xA0 || n == 0x1680
        || (0x2000 <= n && n <= 0x200A) || n == 0x2028 || n == 0x2029 || n == 0x202F
        || n == 0x205F || n == 0x3000
}

/// The full Unicode upper-case mapping of a string, as `str::to_uppercase` computes it.
pub uninterp spec fn uppercase(s: Seq<char>) -> Seq<char>;

/// Whether every character of `s` is ASCII.
pub open spec fn is_ascii_text(s: Seq<char>) -> bool {
    forall|i: int| 0 <= i < s.len() ==> (#[trigger] s[i] as u32) < 128
}

/// The upper-case form of an ASCII character: `a`-`z` become `A`-`Z`, the rest stay.
pub open spec fn ascii_upper_char(c: char) -> char {
    if 'a' <= c && c <= 'z' {
        ((c as int) - 32) as char
    } else {
        c
    }
}

/// ASCII text in upper case.
pub open spec fn ascii_upper(s: Seq<char>) -> Seq<char> {
    Seq::new(s.len(), |i: int| ascii_upper_char(s[i]))
}

/// Trusted: `str::to_uppercase`, named `uppercase` above; Unicode's case tables
/// are not restated here. On ASCII text the Unicode mapping is the ASCII one,
/// which turns `a`-`z` into `A`-`Z` and leaves every other ASCII character.
#[verifier::external_body]
pub(crate) fn to_uppercase(s: &str) -> (r: String)
    ensures
        r@ == uppercase(s@),
        is_ascii_text(s@) ==> r@ == ascii_upper(s@),
{
    s.to_uppercase()
}

/// `s` without its leading whitespace.
pub open spec fn trim_start_ws(s: Seq<char>) -> Seq<char>
    decreases s.len(),
{
    if s.len() > 0 && char_whitespace(s[0]) {
        trim_start_ws(s.drop_first())
    } else {
        s
    }
}

/// `s` without its trailing whitespace.
pub open spec fn trim_end_ws(s: Seq<char>) -> Seq<char>
    decreases s.len(),
{
    if s.len() > 0 && char_whitespace(s.last()) {
        trim_end_ws(s.drop_last())
    } else {
        s
    }
}

/// `s` without leading and trailing whitespace, as `str::trim` returns it.
pub open spec fn trim_ws(s: Seq<char>) -> Seq<char> {
    trim_end_ws(trim_start_ws(s))
}

/// `s` without its trailing `c` characters, as `str::trim_end_matches(c)` returns it.
pub open spec fn trim_end_char(s: Seq<char>, c: char) -> Seq<char>
    decreases s.len(),
{
    if s.len() > 0 && s.last() == c {
        trim_end_char(s.drop_last(), c)
    } else {
        s
    }
}

proof fn lemma_trim_start_step(s: Seq<char>, i: int)
    requires
        0 <= i < s.len(),
        char_whitespace(s[i]),
    ensures
        trim_start_ws(s.subrange(i, s.len() as int)) == trim_start_ws(s.subrange(i + 1, s.len() as int)),
{
    assert(s.subrange(i, s.len() as int).drop_first() =~= s.subrange(i + 1, s.len() as int));
}

proof fn lemma_drop_last_range(s: Seq<char>, i: int, j: int)
    requires
        0 <= i < j <= s.len(),
    ensures
        s.subrange(i, j).drop_last() == s.subrange(i, j - 1),
        s.subrange(i, j).last() == s[j - 1],
{
    assert(s.subrange(i, j).drop_last() =~= s.subrange(i, j - 1));
}

/// The characters of `v` from `lo` to `hi`, as a string.
fn string_of_range(v: &Vec<char>, lo: usize, hi: usize) -> (r: String)
    requires
        lo <= hi <= v@.len(),
    ensures
        r@ == v@.subrange(lo as int, hi as int),
{
    let mut r = String::new();
    let mut k: usize = lo;
    while k < hi
        invariant
            lo <= k <= hi <= v@.len(),
            r@ == v@.subrange(lo as int, k as int),
        decreases hi - k,
    {
        push_char(&mut r, v[k]);
        k = k + 1;
        assert(r@ =~= v@.subrange(lo as int, k as int));
    }
    r
}

/// `s` without leading and trailing whitespace (`str::trim`).
pub fn trim(s: &str) -> (r: String)
    ensures
        r@ == trim_ws(s@),
{
    let v = chars_of(s);
    let n: usize = v.len();
    let mut i: usize = 0;
    assert(v@.subrange(0, n as int) =~= v@);
    while i < n && is_whitespace(v[i])
        invariant
            n == v@.len(),
            i <= n,
            trim_start_ws(v@) == trim_start_ws(v@.subrange(i as int, n as int)),
        decreases n - i,
    {
        proof { lemma_trim_start_step(v@, i as int); }
        i = i + 1;
    }
    assert(trim_start_ws(v@) == v@.subrange(i as int, n as int));
    let mut j: usize = n;
    while j > i && is_whitespace(v[j - 1])
        invariant
            n == v@.len(),
            i <= j <= n,
            trim_end_ws(v@.subrange(i as int, n as int))
                == trim_end_ws(v@.subrange(i as int, j as int)),
        decreases j,
    {
        proof { lemma_drop_last_range(v@, i as int, j as int); }
        j = j - 1;
    }
    proof {
        if j > i {
            lemma_drop_last_range(v@, i as int, j as int);
        }
    }
    assert(trim_end_ws(v@.subrange(i as int, j as int)) == v@.subrange(i as int, j as int));
    string_of_range(&v, i, j)
}

/// `s` without its trailing `c` characters (`str::trim_end_matches(c)`).
pub fn trim_end_matches_char(s: &str, c: char) -> (r: String)
    ensures
        r@ == trim_end_char(s@, c),
{
    let v = chars_of(s);
    let n: usize = v.len();
    let mut j: usize = n;
    assert(v@.subrange(0, n as int) =~= v@);
    while j > 0 && v[j - 1] == c
        invariant
            n == v@.len(),
            j <= n,
            trim_end_char(v@, c) == trim_end_char(v@.subrange(0, j as int), c),
        decreases j,
    {
        proof { lemma_drop_last_range(v@, 0, j as int); }
        j = j - 1;
    }
    proof {
        if j > 0 {
            lemma_drop_last_range(v@, 0, j as int);
        }
    }
    assert(trim_end_char(v@.subrange(0, j as int), c) == v@.subrange(0, j as int));
    string_of_range(&v, 0, j)
}

/// Whether `p` begins `s` (`str::starts_with`).
pub fn starts_with(s: &str, p: &str) -> (r: bool)
    ensures
        r == p@.is_prefix_of(s@),
{
    let sv = chars_of(s);
    let pv = chars_of(p);
    if pv.len() > sv.len() {
        return false;
    }
    let mut i: usize = 0;
    while i < pv.len()
        invariant
            sv@ == s@,
            pv@ == p@,
            pv@.len() <= sv@.len(),
            i <= pv@.len(),
            forall|k: int| 0 <= k < i ==> pv@[k] == sv@[k],
        decreases pv@.len() - i,
    {
        if pv[i] != sv[i] {
            assert(pv@[i as int] != sv@.subrange(0, pv@.len() as int)[i as int]);
            assert(!(pv@ =~= sv@.subrange(0, pv@.len() as int)));
            return false;
        }
        i = i + 1;
    }
    assert(pv@ =~= sv@.subrange(0, pv@.len() as int));
    true
}

/// `s` with every occurrence of `pat` taken out, left to right and without overlap,
/// as `str::replace(pat, "")` returns it. An empty `pat` leaves `s` unchanged.
pub open spec fn remove_all(s: Seq<char>, pat: Seq<char>) -> Seq<char>
    decreases s.len(),
{
    if pat.len() == 0 || s.len() == 0 {
        s
    } else if pat.is_prefix_of(s) {
        remove_all(s.skip(pat.len() as int), pat)
    } else {
        seq![s[0]] + remove_all(s.drop_first(), pat)
    }
}

/// Whether `pat` occurs in `v` at position `i`.
fn occurs_at(v: &Vec<char>, pat: &Vec<char>, i: usize) -> (r: bool)
    requires
        i <= v@.len(),
    ensures
        r == pat@.is_prefix_of(v@.skip(i as int)),
{
    if pat.len() > v.len() - i {
        return false;
    }
    let mut k: usize = 0;
    while k < pat.len()
        invariant
            i + pat.len() <= v.len(),
            k <= pat@.len(),
            forall|m: int| 0 <= m < k ==> pat@[m] == v@[i + m],
        decreases pat@.len() - k,
    {
        if pat[k] != v[i + k] {
            assert(pat@[k as int] != v@.skip(i as int).subrange(0, pat@.len() as int)[k as int]);
            return false;
        }
        k = k + 1;
    }
    assert(pat@ =~= v@.skip(i as int).subrange(0, pat@.len() as int));
    true
}

/// `s` with every occurrence of `pat` removed (`str::replace(pat, "")`).
pub fn remove_occurrences(s: &str, pat: &str) -> (r: String)
    ensures
        r@ == remove_all(s@, pat@),
{
    let v = chars_of(s);
    let pv = chars_of(pat);
    if pv.len() == 0 {
        return string_of_chars(&v);
    }
    let n: usize = v.len();
    let mut out: Vec<char> = Vec::new();
    let mut i: usize = 0;
    assert(v@.skip(0) =~= v@);
    while i < n
        invariant
            n == v@.len(),
            pv@.len() > 0,
            i <= n,
            remove_all(v@, pv@) == out@ + remove_all(v@.skip(i as int), pv@),
        decreases n - i,
    {
        if occurs_at(&v, &pv, i) {
            assert(v@.skip(i as int).skip(pv@.len() as int) =~= v@.skip(i + pv@.len()));
            i = i + pv.len();
        } else {
            let ghost old_out = out@;
            out.push(v[i]);
            assert(v@.skip(i as int).drop_first() =~= v@.skip(i + 1));
            assert(out@ =~= old_out + seq![v@[i as int]]);
            assert(old_out + (seq![v@[i as int]] + remove_all(v@.skip(i + 1), pv@))
                =~= out@ + remove_all(v@.skip(i + 1), pv@));
            i = i + 1;
        }
    }
    assert(v@.skip(n as int) =~= Seq::<char>::empty());
    assert(out@ + Seq::<char>::empty() =~= out@);
    string_of_chars(&out)
}


/// The number that decimal text stands for, most significant digit first.
pub open spec fn decimal_value(s: Seq<char>) -> nat
    decreases s.len(),
{
    if s.len() == 0 {
        0
    } else {
        decimal_value(s.drop_last()) * 10 + (s.last() as nat - 48) as nat
    }
}

/// Whether `c` is an ASCII decimal digit.
pub open spec fn is_digit(c: char) -> bool {
    '0' <= c && c <= '9'
}

proof fn lemma_digit_char(d: nat)
    requires
        d < 10,
    ensures
        digit_char(d) as nat == 48 + d,
        is_digit(digit_char(d)),
        d > 0 ==> digit_char(d) != '0',
{
    assert('0' as nat == 48);
    assert('1' as nat == 49);
    assert('2' as nat == 50);
    assert('3' as nat == 51);
    assert('4' as nat == 52);
    assert('5' as nat == 53);
    assert('6' as nat == 54);
    assert('7' as nat == 55);
    assert('8' as nat == 56);
    assert('9' as nat == 57);
}

/// Decimal notation is read back as the number it was written from: it is
/// nonempty, all digits, has no leading zero, and its value is `n`.
pub proof fn lemma_decimal_roundtrip(n: nat)
    ensures
        decimal(n).len() > 0,
        n >= 10 ==> decimal(n).len() > 1,
        forall|i: int| 0 <= i < decimal(n).len() ==> is_digit(#[trigger] decimal(n)[i]),
        decimal(n).len() > 1 ==> decimal(n)[0] != '0',
        decimal_value(decimal(n)) == n,
    decreases n,
{
    if n < 10 {
        lemma_digit_char(n);
        assert(decimal(n) =~= seq![digit_char(n)]);
        assert(decimal(n).drop_last() =~= Seq::<char>::empty());
        assert(decimal_value(Seq::<char>::empty()) == 0);
        assert(decimal(n).last() == digit_char(n));
    } else {
        lemma_decimal_roundtrip(n / 10);
        lemma_digit_char(n % 10);
        let d = decimal(n);
        assert(d.drop_last() =~= decimal(n / 10));
        assert(d.last() == digit_char(n % 10));
        assert(decimal_value(d) == decimal_value(decimal(n / 10)) * 10 + (n % 10));
        assert(n == (n / 10) * 10 + n % 10);
        assert forall|i: int| 0 <= i < d.len() implies is_digit(#[trigger] d[i]) by {
            if i < d.len() - 1 {
                assert(d[i] == decimal(n / 10)[i]);
            }
        }
        assert(d[0] == decimal(n / 10)[0]);
        if n / 10 < 10 {
            lemma_digit_char(n / 10);
            assert(decimal(n / 10) =~= seq![digit_char(n / 10)]);
        }
    }
}

/// `trim_start_ws(s)` is what follows some leading whitespace of `s`, and
/// does not itself begin with whitespace.
proof fn lemma_trim_start_shape(s: Seq<char>)
    ensures
        trim_start_ws(s).is_suffix_of(s),
        trim_start_ws(s).len() > 0 ==> !char_whitespace(trim_start_ws(s)[0]),
    decreases s.len(),
{
    if s.len() > 0 && char_whitespace(s[0]) {
        lemma_trim_start_shape(s.drop_first());
        let r = trim_start_ws(s.drop_first());
        assert(r =~= s.subrange(s.len() - r.len(), s.len() as int));
    } else {
        assert(s =~= s.subrange(0, s.len() as int));
    }
}

/// `trim_end_ws(s)` is what precedes some trailing whitespace of `s`, and
/// does not itself end with whitespace.
proof fn lemma_trim_end_shape(s: Seq<char>)
    ensures
        trim_end_ws(s).is_prefix_of(s),
        trim_end_ws(s).len() > 0 ==> !char_whitespace(trim_end_ws(s).last()),
    decreases s.len(),
{
    if s.len() > 0 && char_whitespace(s.last()) {
        lemma_trim_end_shape(s.drop_last());
        let r = trim_end_ws(s.drop_last());
        assert(r =~= s.subrange(0, r.len() as int));
    } else {
        assert(s =~= s.subrange(0, s.len() as int));
    }
}

/// Trimmed text neither begins nor ends with whitespace, and is no longer
/// than the text it was taken from.
pub proof fn lemma_trim_ws_shape(s: Seq<char>)
    ensures
        trim_ws(s).len() > 0 ==> !char_whitespace(trim_ws(s)[0]),
        trim_ws(s).len() > 0 ==> !char_whitespace(trim_ws(s).last()),
        trim_ws(s).len() <= s.len(),
{
    lemma_trim_start_shape(s);
    lemma_trim_end_shape(trim_start_ws(s));
    let a = trim_start_ws(s);
    let t = trim_ws(s);
    if t.len() > 0 {
        assert(t[0] == a.subrange(0, t.len() as int)[0]);
    }
}

} // verus!
