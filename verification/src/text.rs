//! String and character helpers shared by the rest of the library.

use vstd::prelude::*;

verus! {

/// Collects the characters of a string slice in order.
pub fn chars_of(s: &str) -> (r: Vec<char>)
    ensures
        r@ == s@,
{
    broadcast use vstd::string::group_string_axioms;

    let mut out: Vec<char> = Vec::new();
    for c in it: s.chars()
        invariant
            out@ == it.seq().take(it.index() as int),
    {
        out.push(c);
    }
    out
}

/// Appends one character to a string; `String::push` from std.
#[verifier::external_body]
pub(crate) fn string_push(s: &mut String, c: char)
    ensures
        final(s)@ == old(s)@.push(c),
{
    s.push(c);
}

/// Appends a string slice to a string; `String::push_str` from std.
#[verifier::external_body]
pub(crate) fn string_push_str(s: &mut String, other: &str)
    ensures
        final(s)@ == old(s)@ + other@,
{
    s.push_str(other);
}

/// An owned copy of a string slice.
pub fn owned(s: &str) -> (r: String)
    ensures
        r@ == s@,
{
    s.to_owned()
}

/// Builds a string from a sequence of characters.
pub fn string_from_chars(cs: &[char]) -> (r: String)
    ensures
        r@ == cs@,
{
    let mut out = String::new();
    let mut i: usize = 0;
    while i < cs.len()
        invariant
            i <= cs@.len(),
            out@ == cs@.take(i as int),
        decreases cs@.len() - i,
    {
        string_push(&mut out, cs[i]);
        proof {
            assert(cs@.take(i + 1) == cs@.take(i as int).push(cs@[i as int]));
        }
        i = i + 1;
    }
    proof {
        assert(cs@.take(cs@.len() as int) == cs@);
    }
    out
}

/// Whether two character sequences are equal.
pub fn chars_eq(a: &[char], b: &[char]) -> (r: bool)
    ensures
        r == (a@ == b@),
{
    if a.len() != b.len() {
        return false;
    }
    let mut i: usize = 0;
    while i < a.len()
        invariant
            a@.len() == b@.len(),
            i <= a@.len(),
            forall|j: int| 0 <= j < i ==> a@[j] == b@[j],
        decreases a@.len() - i,
    {
        if a[i] != b[i] {
            return false;
        }
        i = i + 1;
    }
    proof {
        assert(a@ =~= b@);
    }
    true
}

/// Whether two string slices hold the same characters.
pub fn str_eq(a: &str, b: &str) -> (r: bool)
    ensures
        r == (a@ == b@),
{
    let va = chars_of(a);
    let vb = chars_of(b);
    chars_eq(va.as_slice(), vb.as_slice())
}

/// Whether a string slice ends with the given character.
pub fn ends_with_char(s: &str, c: char) -> (r: bool)
    ensures
        r == (s@.len() > 0 && s@.last() == c),
{
    let v = chars_of(s);
    v.len() > 0 && v[v.len() - 1] == c
}

/// Whether `c` has the Unicode `White_Space` property, which is what `char::is_whitespace`
/// decides: the characters U+0009 to U+000D, U+0020, U+0085, U+00A0, U+1680, U+2000 to
/// U+200A, U+2028, U+2029, U+202F, U+205F and U+3000.
pub open spec fn spec_char_is_whitespace(c: char) -> bool {
    let n = c as u32;
    ||| 0x9 <= n <= 0xD
    ||| n == 0x20
    ||| n == 0x85
    ||| n == 0xA0
    ||| n == 0x1680
    ||| 0x2000 <= n <= 0x200A
    ||| n == 0x2028
    ||| n == 0x2029
    ||| n == 0x202F
    ||| n == 0x205F
    ||| n == 0x3000
}

/// An ASCII character.
pub open spec fn is_ascii(c: char) -> bool {
    (c as u32) < 128
}

/// What `char::is_numeric` decides for a character outside ASCII: whether it is in one of
/// the Unicode number categories.
pub uninterp spec fn spec_non_ascii_numeric(c: char) -> bool;

/// What `char::is_alphanumeric` decides for a character outside ASCII: whether it is
/// alphabetic or numeric in Unicode.
pub uninterp spec fn spec_non_ascii_alphanumeric(c: char) -> bool;

/// Whether `c` is a Unicode numeric character, as `char::is_numeric` decides: among the
/// ASCII characters, exactly the digits.
pub open spec fn spec_char_is_numeric(c: char) -> bool {
    if is_ascii(c) {
        is_ascii_digit(c)
    } else {
        spec_non_ascii_numeric(c)
    }
}

/// Whether `c` is a Unicode alphanumeric character, as `char::is_alphanumeric` decides:
/// among the ASCII characters, exactly the letters and digits.
pub open spec fn spec_char_is_alphanumeric(c: char) -> bool {
    if is_ascii(c) {
        is_ascii_alnum(c)
    } else {
        spec_non_ascii_alphanumeric(c)
    }
}

/// Whether a character has the Unicode `White_Space` property, as `char::is_whitespace`
/// decides.
pub(crate) fn char_is_whitespace(c: char) -> (r: bool)
    ensures
        r == spec_char_is_whitespace(c),
{
    let n = c as u32;
    (0x9 <= n && n <= 0xD) || n == 0x20 || n == 0x85 || n == 0xA0 || n == 0x1680 || (0x2000 <= n && n
        <= 0x200A) || n == 0x2028 || n == 0x2029 || n == 0x202F || n == 0x205F || n == 0x3000
}

/// `char::is_numeric` from std: the Unicode number categories. Among the ASCII
/// characters exactly the digits are numeric; outside ASCII its result is named.
#[verifier::external_body]
pub(crate) fn char_is_numeric(c: char) -> (r: bool)
    ensures
        is_ascii(c) ==> (r <==> is_ascii_digit(c)),
        !is_ascii(c) ==> r == spec_non_ascii_numeric(c),
{
    c.is_numeric()
}

/// `char::is_alphanumeric` from std: alphabetic or numeric in Unicode. Among the ASCII
/// characters exactly the letters and digits are alphanumeric; outside ASCII its result
/// is named.
#[verifier::external_body]
pub(crate) fn char_is_alphanumeric(c: char) -> (r: bool)
    ensures
        is_ascii(c) ==> (r <==> is_ascii_alnum(c)),
        !is_ascii(c) ==> r == spec_non_ascii_alphanumeric(c),
{
    c.is_alphanumeric()
}

/// An ASCII decimal digit.
pub open spec fn is_ascii_digit(c: char) -> bool {
    '0' <= c && c <= '9'
}

/// An ASCII letter.
pub open spec fn is_ascii_letter(c: char) -> bool {
    ('a' <= c && c <= 'z') || ('A' <= c && c <= 'Z')
}

/// An ASCII letter or digit.
pub open spec fn is_ascii_alnum(c: char) -> bool {
    is_ascii_letter(c) || is_ascii_digit(c)
}

/// The value of an ASCII digit.
pub open spec fn digit_value(c: char) -> int {
    (c as int) - ('0' as int)
}

/// The value of a non-empty run of ASCII digits, read in base ten.
pub open spec fn digits_value(s: Seq<char>) -> int
    decreases s.len(),
{
    if s.len() == 0 {
        0
    } else {
        digits_value(s.drop_last()) * 10 + digit_value(s.last())
    }
}

/// Whether every character of `s` is an ASCII digit.
pub open spec fn all_ascii_digits(s: Seq<char>) -> bool {
    forall|i: int| 0 <= i < s.len() ==> is_ascii_digit(#[trigger] s[i])
}

/// The integer written in decimal by `s`: an optional leading `-` and at least one
/// ASCII digit, in range of `i64`. `None` for anything else.
pub open spec fn spec_parse_i64(s: Seq<char>) -> Option<int> {
    let negative = s.len() > 0 && s[0] == '-';
    let digits = if negative { s.drop_first() } else { s };
    if digits.len() == 0 || !all_ascii_digits(digits) {
        None
    } else {
        let v = if negative { -digits_value(digits) } else { digits_value(digits) };
        if i64::MIN <= v <= i64::MAX {
            Some(v)
        } else {
            None
        }
    }
}

proof fn lemma_digits_value_nonneg(s: Seq<char>)
    requires
        all_ascii_digits(s),
    ensures
        digits_value(s) >= 0,
    decreases s.len(),
{
    if s.len() > 0 {
        assert(is_ascii_digit(s[s.len() - 1]));
        assert(all_ascii_digits(s.drop_last())) by {
            assert forall|i: int| 0 <= i < s.drop_last().len() implies is_ascii_digit(
                #[trigger] s.drop_last()[i],
            ) by {
                assert(s.drop_last()[i] == s[i]);
            }
        }
        lemma_digits_value_nonneg(s.drop_last());
    }
}

proof fn lemma_digits_value_prefix_mono(s: Seq<char>, k: int)
    requires
        all_ascii_digits(s),
        0 <= k <= s.len(),
    ensures
        digits_value(s.take(k)) <= digits_value(s),
    decreases s.len() - k,
{
    if k < s.len() {
        lemma_digits_value_prefix_mono(s, k + 1);
        assert(s.take(k + 1).drop_last() == s.take(k));
        assert(all_ascii_digits(s.take(k))) by {
            assert forall|i: int| 0 <= i < s.take(k).len() implies is_ascii_digit(
                #[trigger] s.take(k)[i],
            ) by {
                assert(s.take(k)[i] == s[i]);
            }
        }
        lemma_digits_value_nonneg(s.take(k));
        assert(is_ascii_digit(s[k]));
        assert(s.take(k + 1).last() == s[k]);
    } else {
        assert(s.take(k) == s);
    }
}

/// Reads a decimal `i64`, as `str::parse::<i64>` does on text made of an optional
/// leading `-` and characters without a `+`.
pub fn parse_i64(s: &[char]) -> (r: Option<i64>)
    ensures
        r matches Some(v) ==> spec_parse_i64(s@) == Some(v as int),
        r is None ==> spec_parse_i64(s@) is None,
{
    let negative = s.len() > 0 && s[0] == '-';
    let start: usize = if negative { 1 } else { 0 };
    let ghost digits = if negative { s@.drop_first() } else { s@ };
    if start >= s.len() {
        return None;
    }
    proof {
        assert(digits =~= s@.skip(start as int));
    }
    // Accumulate the magnitude as a negative number so that i64::MIN fits.
    let mut acc: i64 = 0;
    let mut i: usize = start;
    while i < s.len()
        invariant
            start <= i <= s@.len(),
            start == 1 || start == 0,
            negative == (start == 1),
            negative == (s@.len() > 0 && s@[0] == '-'),
            digits == s@.skip(start as int),
            digits == (if negative { s@.drop_first() } else { s@ }),
            all_ascii_digits(digits.take(i - start)),
            acc == -digits_value(digits.take(i - start)),
            acc <= 0,
        decreases s@.len() - i,
    {
        let c = s[i];
        if !('0' <= c && c <= '9') {
            proof {
                assert(digits[i - start] == c);
            }
            return None;
        }
        let d: i64 = ((c as u32) - ('0' as u32)) as i64;
        let ghost prev = digits.take(i - start);
        proof {
            assert(digits.take(i + 1 - start).drop_last() == prev);
            assert(digits.take(i + 1 - start).last() == c);
            assert(all_ascii_digits(digits.take(i + 1 - start))) by {
                assert forall|j: int| 0 <= j < digits.take(i + 1 - start).len() implies is_ascii_digit(
                    #[trigger] digits.take(i + 1 - start)[j],
                ) by {
                    if j < i - start {
                        assert(digits.take(i + 1 - start)[j] == prev[j]);
                    }
                }
            }
        }
        let m = acc.checked_mul(10);
        match m {
            None => {
                proof {
                    assert(acc * 10 < i64::MIN);
                    assert(digits_value(digits.take(i + 1 - start)) == digits_value(prev) * 10
                        + digit_value(c));
                    lemma_all_digits_or_none(digits, i + 1 - start);
                }
                return None;
            },
            Some(m) => {
                let n = m.checked_sub(d);
                match n {
                    None => {
                        proof {
                            assert(m - d < i64::MIN);
                            assert(digits_value(digits.take(i + 1 - start)) == digits_value(prev)
                                * 10 + digit_value(c));
                            lemma_all_digits_or_none(digits, i + 1 - start);
                        }
                        return None;
                    },
                    Some(n) => {
                        proof {
                            assert(digits_value(digits.take(i + 1 - start)) == digits_value(prev)
                                * 10 + digit_value(c));
                        }
                        acc = n;
                    },
                }
            },
        }
        i = i + 1;
    }
    proof {
        assert(digits.take(i - start) == digits);
    }
    if negative {
        Some(acc)
    } else {
        if acc == i64::MIN {
            None
        } else {
            Some(-acc)
        }
    }
}

/// Once a prefix of the digits overflows `i64` magnitude, the whole text has no value.
proof fn lemma_all_digits_or_none(digits: Seq<char>, k: int)
    requires
        0 <= k <= digits.len(),
        all_ascii_digits(digits.take(k)),
        digits_value(digits.take(k)) > 0x8000_0000_0000_0000,
    ensures
        !all_ascii_digits(digits) || digits_value(digits) > 0x8000_0000_0000_0000,
{
    if all_ascii_digits(digits) {
        lemma_digits_value_prefix_mono(digits, k);
        assert(digits.take(digits.len() as int) == digits);
    }
}

/// The decimal digits of a natural number, most significant first.
pub open spec fn nat_digits(n: nat) -> Seq<char>
    decreases n,
{
    if n < 10 {
        seq![(('0' as u32) + n) as char]
    } else {
        nat_digits(n / 10).push((('0' as u32) + (n % 10)) as char)
    }
}

/// The decimal text of a number is a non-empty run of ASCII digits whose value is the number.
pub proof fn lemma_nat_digits(n: nat)
    ensures
        nat_digits(n).len() > 0,
        all_ascii_digits(nat_digits(n)),
        digits_value(nat_digits(n)) == n,
    decreases n,
{
    if n >= 10 {
        lemma_nat_digits(n / 10);
        let d = nat_digits(n / 10);
        let c = (('0' as u32) + (n % 10)) as char;
        assert(nat_digits(n) == d.push(c));
        assert(d.push(c).drop_last() =~= d);
        assert forall|i: int| 0 <= i < d.push(c).len() implies is_ascii_digit(#[trigger] d.push(c)[i]) by {
            if i < d.len() {
                assert(d.push(c)[i] == d[i]);
            }
        }
        assert(c as int == 48 + n % 10);
        assert(digit_value(c) == n % 10);
        assert(digits_value(d.push(c)) == digits_value(d) * 10 + digit_value(c));
        assert((n / 10) * 10 + n % 10 == n) by (nonlinear_arith);
    } else {
        let c = (('0' as u32) + n) as char;
        assert(c as int == 48 + n);
        assert(nat_digits(n) == seq![c]);
        assert(seq![c].drop_last() =~= Seq::<char>::empty());
        assert(digits_value(seq![c]) == digits_value(Seq::<char>::empty()) * 10 + digit_value(c));
    }
}

/// The decimal text of an integer, as `i64::to_string` writes it.
pub open spec fn int_decimal(n: int) -> Seq<char> {
    if n < 0 {
        seq!['-'] + nat_digits((-n) as nat)
    } else {
        nat_digits(n as nat)
    }
}

/// Reading the decimal text of an `i64` back gives the number.
pub proof fn lemma_parse_int_decimal(n: int)
    requires
        i64::MIN <= n <= i64::MAX,
    ensures
        spec_parse_i64(int_decimal(n)) == Some(n),
{
    if n < 0 {
        lemma_nat_digits((-n) as nat);
        let s = int_decimal(n);
        assert(s[0] == '-');
        assert(s.drop_first() =~= nat_digits((-n) as nat));
    } else {
        lemma_nat_digits(n as nat);
        let s = nat_digits(n as nat);
        assert(is_ascii_digit(s[0]));
    }
}

/// The decimal text of an unsigned number.
pub fn u64_to_decimal(n: u64) -> (r: String)
    ensures
        r@ == nat_digits(n as nat),
    decreases n,
{
    if n < 10 {
        let mut out = String::new();
        let c = char_from_digit((n as u32));
        string_push(&mut out, c);
        out
    } else {
        let mut out = u64_to_decimal(n / 10);
        let c = char_from_digit((n % 10) as u32);
        string_push(&mut out, c);
        out
    }
}

fn char_from_digit(d: u32) -> (c: char)
    requires
        d < 10,
    ensures
        c == (('0' as u32) + d) as char,
{
    if d == 0 {
        '0'
    } else if d == 1 {
        '1'
    } else if d == 2 {
        '2'
    } else if d == 3 {
        '3'
    } else if d == 4 {
        '4'
    } else if d == 5 {
        '5'
    } else if d == 6 {
        '6'
    } else if d == 7 {
        '7'
    } else if d == 8 {
        '8'
    } else {
        '9'
    }
}

/// The decimal text of a signed number, as `i64::to_string` writes it.
pub fn i64_to_decimal(n: i64) -> (r: String)
    ensures
        r@ == int_decimal(n as int),
{
    if n < 0 {
        let mag: u64 = if n == i64::MIN {
            0x8000_0000_0000_0000u64
        } else {
            (-n) as u64
        };
        let digits = u64_to_decimal(mag);
        let mut out = String::new();
        string_push(&mut out, '-');
        string_push_str(&mut out, digits.as_str());
        proof {
            assert(out@ == seq!['-'] + nat_digits((-n) as nat));
        }
        out
    } else {
        u64_to_decimal(n as u64)
    }
}

/// Lengths of UTF-8 text in bytes are at least its length in characters.
pub proof fn lemma_utf8_len_ge_chars(cs: Seq<char>)
    ensures
        vstd::utf8::encode_utf8(cs).len() >= cs.len(),
    decreases cs.len(),
{
    if cs.len() > 0 {
        lemma_utf8_len_ge_chars(cs.drop_first());
    }
}

/// The mathematical value of an optional string.
pub open spec fn opt_str_view(o: Option<String>) -> Option<Seq<char>> {
    match o {
        Some(s) => Some(s@),
        None => None,
    }
}

/// A copy of an optional string.
pub fn opt_string_copy(o: &Option<String>) -> (r: Option<String>)
    ensures
        opt_str_view(r) == opt_str_view(*o),
{
    match o {
        Some(s) => Some(s.clone()),
        None => None,
    }
}

/// Whether two optional strings are equal.
pub fn opt_str_eq(a: &Option<String>, b: &Option<String>) -> (r: bool)
    ensures
        r == (opt_str_view(*a) == opt_str_view(*b)),
{
    match (a, b) {
        (Some(x), Some(y)) => str_eq(x.as_str(), y.as_str()),
        (None, None) => true,
        _ => false,
    }
}

/// Appends copies of all strings of `v` to `out`, in order.
pub fn append_strings(out: &mut Vec<String>, v: &Vec<String>)
    ensures
        final(out).deep_view() == old(out).deep_view() + v.deep_view(),
{
    let ghost start = out.deep_view();
    let mut i: usize = 0;
    while i < v.len()
        invariant
            i <= v@.len(),
            out.deep_view() == start + v.deep_view().take(i as int),
        decreases v@.len() - i,
    {
        let s = v[i].clone();
        let ghost pre = out.deep_view();
        out.push(s);
        proof {
            assert(out.deep_view() =~= pre.push(v@[i as int]@));
            assert(v.deep_view().take(i + 1) =~= v.deep_view().take(i as int).push(v@[i as int]@));
            assert(out.deep_view() =~= start + v.deep_view().take(i + 1));
        }
        i = i + 1;
    }
    proof {
        assert(v.deep_view().take(v@.len() as int) =~= v.deep_view());
    }
}

/// A copy of a list of strings.
pub fn strings_copy(v: &Vec<String>) -> (r: Vec<String>)
    ensures
        r.deep_view() == v.deep_view(),
{
    let mut out: Vec<String> = Vec::new();
    proof {
        assert(out.deep_view() =~= Seq::<Seq<char>>::empty());
    }
    append_strings(&mut out, v);
    proof {
        assert(out.deep_view() =~= v.deep_view());
    }
    out
}

/// Whether a list of strings holds the given string.
pub fn strings_contain(v: &Vec<String>, s: &str) -> (r: bool)
    ensures
        r == v.deep_view().contains(s@),
{
    let mut i: usize = 0;
    while i < v.len()
        invariant
            i <= v@.len(),
            forall|j: int| 0 <= j < i ==> v.deep_view()[j] != s@,
        decreases v@.len() - i,
    {
        if str_eq(v[i].as_str(), s) {
            proof {
                assert(v.deep_view()[i as int] == s@);
            }
            return true;
        }
        i = i + 1;
    }
    false
}

/// The mathematical value of a list of strings.
pub open spec fn strs_view(v: Seq<String>) -> Seq<Seq<char>> {
    v.map_values(|s: String| s@)
}

/// Whether a slice of strings holds the given string.
pub fn slice_contains_str(v: &[String], s: &str) -> (r: bool)
    ensures
        r == strs_view(v@).contains(s@),
{
    let mut i: usize = 0;
    while i < v.len()
        invariant
            i <= v@.len(),
            forall|j: int| 0 <= j < i ==> strs_view(v@)[j] != s@,
        decreases v@.len() - i,
    {
        if str_eq(v[i].as_str(), s) {
            proof {
                assert(strs_view(v@)[i as int] == s@);
            }
            return true;
        }
        i = i + 1;
    }
    false
}

/// The set of a sequence with one more element.
pub proof fn lemma_push_to_set<A>(s: Seq<A>, x: A)
    ensures
        s.push(x).to_set() == s.to_set().insert(x),
{
    s.lemma_push_to_set_commute(x);
}

/// `s` with every occurrence of `from` replaced by `to`, scanning from the left and not
/// overlapping, as `str::replace` does for a non-empty pattern.
pub open spec fn spec_replace(s: Seq<char>, from: Seq<char>, to: Seq<char>) -> Seq<char>
    decreases s.len(),
{
    if from.len() == 0 || s.len() < from.len() {
        s
    } else if s.subrange(0, from.len() as int) == from {
        to + spec_replace(s.subrange(from.len() as int, s.len() as int), from, to)
    } else {
        seq![s[0]] + spec_replace(s.subrange(1, s.len() as int), from, to)
    }
}

/// Whether `pat` occurs at position `i` of `s`.
fn occurs_at(s: &[char], i: usize, pat: &[char]) -> (r: bool)
    requires
        i + pat@.len() <= s@.len(),
        s@.len() <= usize::MAX,
    ensures
        r == (s@.subrange(i as int, i + pat@.len()) == pat@),
{
    let mut j: usize = 0;
    while j < pat.len()
        invariant
            i + pat@.len() <= s@.len(),
            s@.len() <= usize::MAX,
            j <= pat@.len(),
            forall|m: int| 0 <= m < j ==> s@[i + m] == pat@[m],
        decreases pat@.len() - j,
    {
        if s[i + j] != pat[j] {
            proof {
                assert(s@.subrange(i as int, i + pat@.len())[j as int] != pat@[j as int]);
            }
            return false;
        }
        j = j + 1;
    }
    proof {
        assert(s@.subrange(i as int, i + pat@.len()) =~= pat@);
    }
    true
}

/// Replaces every occurrence of a non-empty pattern, as `str::replace` does
pub fn replace_all(s: &str, from: &str, to: &str) -> (r: String)
    requires
        from@.len() > 0,
    ensures
        r@ == spec_replace(s@, from@, to@),
{
    let sc = chars_of(s);
    let fc = chars_of(from);
    let n = sc.len();
    let mut out = String::new();
    proof {
        assert(sc@.subrange(0, n as int) =~= sc@);
        assert(out@ + spec_replace(sc@, fc@, to@) =~= spec_replace(sc@, fc@, to@));
    }
    let mut i: usize = 0;
    while i < n
        invariant
            sc@ == s@,
            fc@ == from@,
            n == sc@.len(),
            fc@.len() > 0,
            i <= n,
            out@ + spec_replace(sc@.subrange(i as int, n as int), fc@, to@) == spec_replace(sc@, fc@, to@),
        decreases n - i,
    {
        let ghost rest = sc@.subrange(i as int, n as int);
        if fc.len() <= n - i && occurs_at(sc.as_slice(), i, fc.as_slice()) {
            proof {
                assert(rest.subrange(0, fc@.len() as int) =~= sc@.subrange(i as int, i + fc@.len()));
                assert(rest.subrange(fc@.len() as int, rest.len() as int) =~= sc@.subrange(i + fc@.len(), n as int));
            }
            string_push_str(&mut out, to);
            i = i + fc.len();
        } else {
            proof {
                if rest.len() >= fc@.len() {
                    assert(rest.subrange(0, fc@.len() as int) =~= sc@.subrange(i as int, i + fc@.len()));
                    assert(rest.subrange(1, rest.len() as int) =~= sc@.subrange(i + 1, n as int));
                } else {
                    let tail = sc@.subrange(i + 1, n as int);
                    assert(tail.len() < fc@.len());
                    assert(spec_replace(tail, fc@, to@) == tail);
                    assert(rest =~= seq![sc@[i as int]] + tail);
                }
            }
            string_push(&mut out, sc[i]);
            i = i + 1;
        }
        proof {
            assert(out@ + spec_replace(sc@.subrange(i as int, n as int), fc@, to@) =~= spec_replace(sc@, fc@, to@));
        }
    }
    proof {
        assert(sc@.subrange(n as int, n as int) =~= Seq::<char>::empty());
    }
    out
}

/// Whether `pat` occurs in `s`.
pub open spec fn spec_contains(s: Seq<char>, pat: Seq<char>) -> bool {
    exists|i: int| 0 <= i && i + pat.len() <= s.len() && #[trigger] s.subrange(i, i + pat.len()) == pat
}

/// Whether the string holds the pattern, as `str::contains` decides
pub fn contains_str(s: &str, pat: &str) -> (r: bool)
    ensures
        r == spec_contains(s@, pat@),
{
    let sc = chars_of(s);
    let pc = chars_of(pat);
    let n = sc.len();
    if pc.len() > n {
        return false;
    }
    let last = n - pc.len();
    let mut i: usize = 0;
    while i <= last
        invariant
            sc@ == s@,
            pc@ == pat@,
            n == sc@.len(),
            last == n - pc@.len(),
            i <= last + 1,
            forall|k: int| 0 <= k < i ==> #[trigger] sc@.subrange(k, k + pc@.len()) != pc@,
        decreases last + 1 - i,
    {
        if occurs_at(sc.as_slice(), i, pc.as_slice()) {
            return true;
        }
        if i == last {
            return false;
        }
        i = i + 1;
    }
    false
}

} // verus!
