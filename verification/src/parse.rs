//! Text conventions of the schema: scalar text to number or boolean, and
//! the `dimIndex` list syntax.
//!
//! Numeric text is hexadecimal when prefixed `0x`/`0X`, binary when prefixed
//! `#` (each don't-care `x` digit counting as `0`), else decimal; each form
//! admits one leading `+`.

use vstd::prelude::*;

use crate::errors::{ConvType, ParseError, SvdError, SvdErrorKind, SvdErrorKindV, ParseErrorV};

verus! {

/// Numeric value of one digit character, lower or upper case; 16 when the
/// character is no digit.
pub open spec fn char_digit(c: char) -> nat {
    if c == '0' {
        0
    } else if c == '1' {
        1
    } else if c == '2' {
        2
    } else if c == '3' {
        3
    } else if c == '4' {
        4
    } else if c == '5' {
        5
    } else if c == '6' {
        6
    } else if c == '7' {
        7
    } else if c == '8' {
        8
    } else if c == '9' {
        9
    } else if c == 'a' || c == 'A' {
        10
    } else if c == 'b' || c == 'B' {
        11
    } else if c == 'c' || c == 'C' {
        12
    } else if c == 'd' || c == 'D' {
        13
    } else if c == 'e' || c == 'E' {
        14
    } else if c == 'f' || c == 'F' {
        15
    } else {
        16
    }
}

/// Whether `c` is a digit under `radix`.
pub open spec fn is_digit(c: char, radix: nat) -> bool {
    char_digit(c) < radix
}

/// Whether every character of `s` is a digit under `radix`.
pub open spec fn all_digits(s: Seq<char>, radix: nat) -> bool {
    forall|i: int| 0 <= i < s.len() ==> is_digit(#[trigger] s[i], radix)
}

/// The number written by the digit string `s` under `radix`.
pub open spec fn digits_value(s: Seq<char>, radix: nat) -> nat
    decreases s.len(),
{
    if s.len() == 0 {
        0
    } else {
        digits_value(s.drop_last(), radix) * radix + char_digit(s.last())
    }
}

/// `s` without one leading `+`, if present.
pub open spec fn strip_sign(s: Seq<char>) -> Seq<char> {
    if s.len() > 0 && s[0] == '+' {
        s.skip(1)
    } else {
        s
    }
}

/// Digit-string parse under `radix`, capped at `max`: the value when the
/// (sign-stripped) text is non-empty, all digits, and the value is in range.
pub open spec fn spec_parse_radix(s: Seq<char>, radix: nat, max: nat) -> Option<nat> {
    let t = strip_sign(s);
    if t.len() > 0 && all_digits(t, radix) && digits_value(t, radix) <= max {
        Some(digits_value(t, radix))
    } else {
        None
    }
}

/// `s` with each don't-care digit `x` replaced by `0`.
pub open spec fn blur_dont_care(s: Seq<char>) -> Seq<char> {
    s.map_values(|c: char| if c == 'x' { '0' } else { c })
}

/// Numeric text parse per the schema's convention, capped at `max`.
pub open spec fn spec_parse_num(s: Seq<char>, max: nat) -> Option<nat> {
    if s.len() >= 2 && s[0] == '0' && (s[1] == 'x' || s[1] == 'X') {
        spec_parse_radix(s.skip(2), 16, max)
    } else if s.len() >= 1 && s[0] == '#' {
        spec_parse_radix(blur_dont_care(s.skip(1)), 2, max)
    } else {
        spec_parse_radix(s, 10, max)
    }
}

/// Extending a digit string never shrinks its value.
proof fn lemma_digits_value_prefix(s: Seq<char>, radix: nat, i: int)
    requires
        radix >= 1,
        0 <= i <= s.len(),
    ensures
        digits_value(s.subrange(0, i), radix) <= digits_value(s, radix),
    decreases s.len() - i,
{
    if i < s.len() {
        let a = s.subrange(0, i);
        let b = s.subrange(0, i + 1);
        assert(b.drop_last() =~= a);
        assert(digits_value(b, radix) == digits_value(a, radix) * radix + char_digit(b.last()));
        assert(digits_value(a, radix) * radix >= digits_value(a, radix)) by (nonlinear_arith)
            requires
                radix >= 1,
        ;
        lemma_digits_value_prefix(s, radix, i + 1);
    } else {
        assert(s.subrange(0, i) =~= s);
    }
}

/// Exec mirror of [`char_digit`].
fn digit_of(c: char) -> (d: u32)
    ensures
        d == char_digit(c),
{
    if c == '0' {
        0
    } else if c == '1' {
        1
    } else if c == '2' {
        2
    } else if c == '3' {
        3
    } else if c == '4' {
        4
    } else if c == '5' {
        5
    } else if c == '6' {
        6
    } else if c == '7' {
        7
    } else if c == '8' {
        8
    } else if c == '9' {
        9
    } else if c == 'a' || c == 'A' {
        10
    } else if c == 'b' || c == 'B' {
        11
    } else if c == 'c' || c == 'C' {
        12
    } else if c == 'd' || c == 'D' {
        13
    } else if c == 'e' || c == 'E' {
        14
    } else if c == 'f' || c == 'F' {
        15
    } else {
        16
    }
}

/// Parses the digits of `s` from position `from` on under `radix`, treating
/// `x` as `0` when `dont_care` holds, capped at `max`.
fn parse_digits(s: &str, from: usize, radix: u32, max: u64, dont_care: bool) -> (r: Option<u64>)
    requires
        2 <= radix <= 16,
        from <= s@.len(),
    ensures
        ({
            let t = if dont_care {
                blur_dont_care(s@.skip(from as int))
            } else {
                s@.skip(from as int)
            };
            match spec_parse_radix(t, radix as nat, max as nat) {
                Some(v) => r == Some(v as u64),
                None => r is None,
            }
        }),
{
    let ghost t0 = if dont_care { blur_dont_care(s@.skip(from as int)) } else {
        s@.skip(from as int)
    };
    let n = s.unicode_len();
    let mut i: usize = from;
    // one leading sign
    if i < n && s.get_char(i) == '+' {
        i = i + 1;
    }
    proof {
        assert(strip_sign(t0) =~= if dont_care {
            blur_dont_care(s@.skip(i as int))
        } else {
            s@.skip(i as int)
        });
    }
    let ghost t = strip_sign(t0);
    if i == n {
        return None;
    }
    let start = i;
    let mut acc: u128 = 0;
    while i < n
        invariant
            start <= i <= n,
            n == s@.len(),
            start < n,
            from <= start,
            t == (if dont_care {
                blur_dont_care(s@.skip(start as int))
            } else {
                s@.skip(start as int)
            }),
            t == strip_sign(
                if dont_care {
                    blur_dont_care(s@.skip(from as int))
                } else {
                    s@.skip(from as int)
                },
            ),
            2 <= radix <= 16,
            all_digits(t.subrange(0, i - start), radix as nat),
            acc == digits_value(t.subrange(0, i - start), radix as nat),
            acc <= max,
        decreases n - i,
    {
        let c = s.get_char(i);
        let d: u32 = if dont_care && c == 'x' {
            0
        } else {
            digit_of(c)
        };
        assert(d == char_digit(t[i - start]));
        if d >= radix {
            assert(!is_digit(t[i - start], radix as nat));
            return None;
        }
        assert(acc * (radix as u128) + (d as u128) < 0x20_0000_0000_0000_0000) by (nonlinear_arith)
            requires
                acc <= 0xffff_ffff_ffff_ffff,
                radix <= 16,
                d < radix,
        ;
        let next: u128 = acc * (radix as u128) + (d as u128);
        proof {
            let pre = t.subrange(0, i - start);
            let post = t.subrange(0, i + 1 - start);
            assert(post.drop_last() =~= pre);
            assert(digits_value(post, radix as nat) == digits_value(pre, radix as nat) * (
            radix as nat) + char_digit(t[i - start]));
        }
        if next > max as u128 {
            proof {
                lemma_digits_value_prefix(t, radix as nat, i + 1 - start);
            }
            return None;
        }
        acc = next;
        i = i + 1;
    }
    proof {
        assert(t.subrange(0, n - start) =~= t);
    }
    Some(acc as u64)
}

/// Numeric text parse per the schema's convention, capped at `max`:
/// `0x`/`0X` prefix for hexadecimal, `#` for binary with don't-care `x`
/// digits, else decimal.
pub fn parse_num(s: &str, max: u64) -> (r: Option<u64>)
    ensures
        match spec_parse_num(s@, max as nat) {
            Some(v) => r == Some(v as u64),
            None => r is None,
        },
{
    let n = s.unicode_len();
    if n >= 2 && s.get_char(0) == '0' && (s.get_char(1) == 'x' || s.get_char(1) == 'X') {
        parse_digits(s, 2, 16, max, false)
    } else if n >= 1 && s.get_char(0) == '#' {
        parse_digits(s, 1, 2, max, true)
    } else {
        proof {
            assert(s@.skip(0) =~= s@);
        }
        parse_digits(s, 0, 10, max, false)
    }
}

/// [`parse_num`] capped at `u32::MAX`.
pub fn parse_u32_text(s: &str) -> (r: Option<u32>)
    ensures
        match spec_parse_num(s@, u32::MAX as nat) {
            Some(v) => r == Some(v as u32),
            None => r is None,
        },
{
    match parse_num(s, 0xffff_ffff) {
        Some(v) => Some(v as u32),
        None => None,
    }
}

/// [`parse_num`] capped at `u64::MAX`.
pub fn parse_u64_text(s: &str) -> (r: Option<u64>)
    ensures
        match spec_parse_num(s@, u64::MAX as nat) {
            Some(v) => r == Some(v as u64),
            None => r is None,
        },
{
    parse_num(s, 0xffff_ffff_ffff_ffff)
}

/// The lower-case digit character of value `d`; `d` up to 15.
pub open spec fn digit_char_lower(d: nat) -> char {
    if d == 0 {
        '0'
    } else if d == 1 {
        '1'
    } else if d == 2 {
        '2'
    } else if d == 3 {
        '3'
    } else if d == 4 {
        '4'
    } else if d == 5 {
        '5'
    } else if d == 6 {
        '6'
    } else if d == 7 {
        '7'
    } else if d == 8 {
        '8'
    } else if d == 9 {
        '9'
    } else if d == 10 {
        'a'
    } else if d == 11 {
        'b'
    } else if d == 12 {
        'c'
    } else if d == 13 {
        'd'
    } else if d == 14 {
        'e'
    } else {
        'f'
    }
}

/// The decimal digit string of `n`, no sign, no leading zero.
pub open spec fn dec_digits(n: nat) -> Seq<char>
    decreases n,
{
    if n < 10 {
        seq![digit_char_lower(n)]
    } else {
        dec_digits(n / 10).push(digit_char_lower(n % 10))
    }
}

/// A one-character string slice holding the lower-case digit of value `d`.
pub fn digit_str_lower(d: u32) -> (r: &'static str)
    requires
        d < 16,
    ensures
        r@ =~= seq![digit_char_lower(d as nat)],
{
    proof {
        reveal_strlit("0");
        reveal_strlit("1");
        reveal_strlit("2");
        reveal_strlit("3");
        reveal_strlit("4");
        reveal_strlit("5");
        reveal_strlit("6");
        reveal_strlit("7");
        reveal_strlit("8");
        reveal_strlit("9");
        reveal_strlit("a");
        reveal_strlit("b");
        reveal_strlit("c");
        reveal_strlit("d");
        reveal_strlit("e");
        reveal_strlit("f");
    }
    if d == 0 {
        "0"
    } else if d == 1 {
        "1"
    } else if d == 2 {
        "2"
    } else if d == 3 {
        "3"
    } else if d == 4 {
        "4"
    } else if d == 5 {
        "5"
    } else if d == 6 {
        "6"
    } else if d == 7 {
        "7"
    } else if d == 8 {
        "8"
    } else if d == 9 {
        "9"
    } else if d == 10 {
        "a"
    } else if d == 11 {
        "b"
    } else if d == 12 {
        "c"
    } else if d == 13 {
        "d"
    } else if d == 14 {
        "e"
    } else {
        "f"
    }
}

/// The decimal rendering of `n`.
pub fn fmt_dec(n: u64) -> (r: String)
    ensures
        r@ == dec_digits(n as nat),
    decreases n,
{
    if n < 10 {
        digit_str_lower(n as u32).to_owned()
    } else {
        let mut s = fmt_dec(n / 10);
        s.append(digit_str_lower((n % 10) as u32));
        proof {
            assert(s@ =~= dec_digits(n as nat));
        }
        s
    }
}

/// The decimal digit string of `n` is non-empty, all digits, and writes `n`.
pub proof fn lemma_dec_digits(n: nat)
    ensures
        dec_digits(n).len() >= 1,
        all_digits(dec_digits(n), 10),
        digits_value(dec_digits(n), 10) == n,
    decreases n,
{
    if n < 10 {
        let s = dec_digits(n);
        assert(digits_value(Seq::<char>::empty(), 10) == 0);
        assert(s.drop_last() =~= Seq::<char>::empty());
    } else {
        lemma_dec_digits(n / 10);
        let s = dec_digits(n);
        assert(s.drop_last() =~= dec_digits(n / 10));
        assert forall|i: int| 0 <= i < s.len() implies is_digit(#[trigger] s[i], 10) by {
            if i < s.len() - 1 {
                assert(s[i] == dec_digits(n / 10)[i]);
            }
        }
    }
}

/// Parsing the decimal rendering of `n` under the numeric convention gives
/// `n` back, whenever `n` is within `max`.
pub proof fn lemma_parse_num_of_dec(n: nat, max: nat)
    requires
        n <= max,
    ensures
        spec_parse_num(dec_digits(n), max) == Some(n),
{
    lemma_dec_digits(n);
    let s = dec_digits(n);
    assert(char_digit(s[0]) < 10);
    if s.len() >= 2 {
        assert(char_digit(s[1]) < 10);
    }
    assert(strip_sign(s) == s);
}

/// Index of the first occurrence of `c` in `s`, or -1.
pub open spec fn find_char(s: Seq<char>, c: char) -> int
    decreases s.len(),
{
    if s.len() == 0 {
        -1
    } else if s[0] == c {
        0
    } else {
        let r = find_char(s.skip(1), c);
        if r < 0 {
            -1
        } else {
            r + 1
        }
    }
}

/// What `find_char` finds: the first index holding `c`, or -1 when none does.
pub proof fn lemma_find_char(s: Seq<char>, c: char)
    ensures
        find_char(s, c) >= 0 ==> {
            &&& find_char(s, c) < s.len()
            &&& s[find_char(s, c)] == c
            &&& forall|j: int| 0 <= j < find_char(s, c) ==> s[j] != c
        },
        find_char(s, c) < 0 ==> forall|j: int| 0 <= j < s.len() ==> s[j] != c,
    decreases s.len(),
{
    if s.len() > 0 && s[0] != c {
        lemma_find_char(s.skip(1), c);
        assert forall|j: int| 0 <= j < s.len() && s[j] == c implies j >= 1 && s.skip(1)[j - 1]
            == c by {
            assert(s.skip(1)[j - 1] == s[j]);
        }
        if find_char(s, c) >= 0 {
            let r = find_char(s.skip(1), c);
            assert(s[r + 1] == s.skip(1)[r]);
        }
    }
}

/// `s` cut at every comma, a trailing `cur` segment already begun.
pub open spec fn split_commas_rec(s: Seq<char>, cur: Seq<char>) -> Seq<Seq<char>>
    decreases s.len(),
{
    if s.len() == 0 {
        seq![cur]
    } else if s[0] == ',' {
        seq![cur] + split_commas_rec(s.skip(1), Seq::empty())
    } else {
        split_commas_rec(s.skip(1), cur.push(s[0]))
    }
}

/// `s` cut at every comma.
pub open spec fn split_commas(s: Seq<char>) -> Seq<Seq<char>> {
    split_commas_rec(s, Seq::empty())
}

/// The decimal labels of the inclusive range `a..=b`, empty when `a > b`.
pub open spec fn range_labels(a: nat, b: nat) -> Seq<Seq<char>> {
    if a <= b {
        Seq::new((b - a + 1) as nat, |j: int| dec_digits((a + j) as nat))
    } else {
        Seq::empty()
    }
}

/// The image of a `ParseError` over a `<dimIndex>` text `s`.
pub open spec fn dim_index_parse_err(s: Seq<char>) -> SvdErrorKindV {
    SvdErrorKindV::Parse(ParseErrorV { tagname: "dimIndex"@, conv: ConvType::DimIndex, text: s })
}

/// The index labels written by a `<dimIndex>` text: an inclusive decimal
/// range `start-end`, else a comma-separated list, else one single label.
/// A range whose bounds are not decimal numbers is a `ParseError`.
pub open spec fn spec_dim_index(s: Seq<char>) -> Result<Seq<Seq<char>>, SvdErrorKindV> {
    let k = find_char(s, '-');
    if k >= 0 {
        let left = spec_parse_radix(s.subrange(0, k), 10, u32::MAX as nat);
        let right = spec_parse_radix(s.skip(k + 1), 10, u32::MAX as nat);
        if left is Some && right is Some {
            Ok(range_labels(left.unwrap(), right.unwrap()))
        } else {
            Err(dim_index_parse_err(s))
        }
    } else if find_char(s, ',') >= 0 {
        Ok(split_commas(s))
    } else {
        Ok(seq![s])
    }
}

/// Boolean text parse: the literals `0`/`1` first, then `true`/`false`.
pub open spec fn spec_parse_bool(s: Seq<char>) -> Option<bool> {
    if s == "0"@ {
        Some(false)
    } else if s == "1"@ {
        Some(true)
    } else if s == "true"@ {
        Some(true)
    } else if s == "false"@ {
        Some(false)
    } else {
        None
    }
}

/// Exec mirror of [`find_char`].
pub fn find_char_at(s: &str, c: char) -> (r: Option<usize>)
    ensures
        r matches Some(k) ==> find_char(s@, c) == k as int,
        r is None ==> find_char(s@, c) < 0,
{
    proof {
        lemma_find_char(s@, c);
    }
    let n = s.unicode_len();
    let mut i: usize = 0;
    while i < n
        invariant
            i <= n,
            n == s@.len(),
            forall|j: int| 0 <= j < i ==> s@[j] != c,
        decreases n - i,
    {
        if s.get_char(i) == c {
            proof {
                lemma_find_char(s@, c);
                if find_char(s@, c) != i as int {
                    assert(s@[find_char(s@, c)] == c);
                }
            }
            return Some(i);
        }
        i = i + 1;
    }
    None
}

/// Exec mirror of [`split_commas`].
fn split_commas_exec(s: &str) -> (r: Vec<String>)
    ensures
        r@.map_values(|p: String| p@) == split_commas(s@),
{
    let n = s.unicode_len();
    let mut parts: Vec<String> = Vec::new();
    let mut seg_start: usize = 0;
    let mut i: usize = 0;
    proof {
        assert(s@.skip(0) =~= s@);
        assert(s@.subrange(0, 0) =~= Seq::<char>::empty());
        assert(parts@.map_values(|p: String| p@) + split_commas_rec(s@, Seq::empty())
            =~= split_commas_rec(s@, Seq::empty()));
    }
    while i < n
        invariant
            seg_start <= i <= n,
            n == s@.len(),
            split_commas(s@) == parts@.map_values(|p: String| p@) + split_commas_rec(
                s@.skip(i as int),
                s@.subrange(seg_start as int, i as int),
            ),
        decreases n - i,
    {
        let ghost pre = parts@.map_values(|p: String| p@);
        let c = s.get_char(i);
        if c == ',' {
            let seg = s.substring_char(seg_start, i).to_owned();
            parts.push(seg);
            proof {
                assert(s@.skip(i as int).skip(1) =~= s@.skip(i + 1));
                assert(parts@.map_values(|p: String| p@) =~= pre.push(
                    s@.subrange(seg_start as int, i as int),
                ));
                assert(pre.push(s@.subrange(seg_start as int, i as int)) + split_commas_rec(
                    s@.skip(i + 1),
                    Seq::empty(),
                ) =~= pre + (seq![s@.subrange(seg_start as int, i as int)] + split_commas_rec(
                    s@.skip(i + 1),
                    Seq::empty(),
                )));
                assert(s@.subrange(i + 1, i + 1) =~= Seq::<char>::empty());
            }
            seg_start = i + 1;
        } else {
            proof {
                assert(s@.skip(i as int).skip(1) =~= s@.skip(i + 1));
                assert(s@.subrange(seg_start as int, i as int).push(s@[i as int]) =~= s@.subrange(
                    seg_start as int,
                    i + 1,
                ));
            }
        }
        i = i + 1;
    }
    let seg = s.substring_char(seg_start, n).to_owned();
    parts.push(seg);
    proof {
        assert(s@.skip(n as int) =~= Seq::<char>::empty());
        assert(parts@.map_values(|p: String| p@) =~= split_commas(s@));
    }
    parts
}

/// The decimal labels of the inclusive range `a..=b`.
fn range_labels_exec(a: u32, b: u32) -> (r: Vec<String>)
    ensures
        r@.map_values(|p: String| p@) == range_labels(a as nat, b as nat),
{
    let mut labels: Vec<String> = Vec::new();
    if a > b {
        proof {
            assert(labels@.map_values(|p: String| p@) =~= range_labels(a as nat, b as nat));
        }
        return labels;
    }
    let count: u64 = (b - a) as u64 + 1;
    let mut j: u64 = 0;
    while j < count
        invariant
            j <= count,
            count == b - a + 1,
            a <= b <= u32::MAX,
            labels@.map_values(|p: String| p@) =~= range_labels(a as nat, b as nat).subrange(
                0,
                j as int,
            ),
        decreases count - j,
    {
        let ghost pre = labels@.map_values(|p: String| p@);
        labels.push(fmt_dec(a as u64 + j));
        proof {
            assert(labels@.map_values(|p: String| p@) =~= pre.push(dec_digits((a + j) as nat)));
            assert(labels@.map_values(|p: String| p@) =~= range_labels(a as nat, b as nat).subrange(
                0,
                j + 1,
            ));
        }
        j = j + 1;
    }
    proof {
        assert(range_labels(a as nat, b as nat).subrange(0, count as int) =~= range_labels(
            a as nat,
            b as nat,
        ));
    }
    labels
}

/// The index labels of a `<dimIndex>` text, per [`spec_dim_index`].
pub fn dim_index(text: &str) -> (r: Result<Vec<String>, SvdError>)
    ensures
        match spec_dim_index(text@) {
            Ok(labels) => r matches Ok(v) && v@.map_values(|p: String| p@) == labels,
            Err(k) => r matches Err(e) && e@ == crate::errors::err_of(k),
        },
{
    match find_char_at(text, '-') {
        Some(k) => {
            proof {
                lemma_find_char(text@, '-');
            }
            let left = text.substring_char(0, k);
            let n = text.unicode_len();
            let right = text.substring_char(k + 1, n);
            proof {
                assert(right@ =~= text@.skip(k + 1));
            }
            let a = dec_u32(left);
            let b = dec_u32(right);
            match (a, b) {
                (Some(a), Some(b)) => Ok(range_labels_exec(a, b)),
                _ => Err(
                    SvdError::new(
                        SvdErrorKind::Parse(
                            ParseError {
                                tagname: String::from_str("dimIndex"),
                                conv: ConvType::DimIndex,
                                text: text.to_owned(),
                            },
                        ),
                    ),
                ),
            }
        },
        None => {
            match find_char_at(text, ',') {
                Some(_) => Ok(split_commas_exec(text)),
                None => {
                    let mut one: Vec<String> = Vec::new();
                    one.push(text.to_owned());
                    proof {
                        assert(one@.map_values(|p: String| p@) =~= seq![text@]);
                    }
                    Ok(one)
                },
            }
        },
    }
}

/// Plain decimal parse of `s`, capped at `u32::MAX`.
pub(crate) fn dec_u32(s: &str) -> (r: Option<u32>)
    ensures
        match spec_parse_radix(s@, 10, u32::MAX as nat) {
            Some(v) => r == Some(v as u32),
            None => r is None,
        },
{
    proof {
        assert(s@.skip(0) =~= s@);
    }
    match parse_digits(s, 0, 10, 0xffff_ffff, false) {
        Some(v) => Some(v as u32),
        None => None,
    }
}

/// Exec mirror of [`spec_parse_bool`].
pub fn parse_bool_text(s: &str) -> (r: Option<bool>)
    ensures
        r == spec_parse_bool(s@),
{
    let o: String = s.to_owned();
    if crate::tree::string_eq_str(&o, "0") {
        Some(false)
    } else if crate::tree::string_eq_str(&o, "1") {
        Some(true)
    } else if crate::tree::string_eq_str(&o, "true") {
        Some(true)
    } else if crate::tree::string_eq_str(&o, "false") {
        Some(false)
    } else {
        None
    }
}

} // verus!
