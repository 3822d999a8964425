//! Text conventions of the encoder: numbers rendered decimal, hexadecimal
//! with a `0x` prefix, or zero-padded hexadecimal, booleans as `true`/`false`,
//! and index label lists joined by commas.

use vstd::prelude::*;

use crate::parse::{char_digit, dec_digits, digit_char_lower, digit_str_lower, fmt_dec};
use crate::tree::Element;

verus! {

/// Encoding a resolved device cannot fail; no operation of this crate ever
/// constructs this error.
#[derive(Clone, Copy, Debug, PartialEq, Eq, Structural)]
pub enum EncodeError {
    Unreachable,
}

/// The upper-case digit character of value `d`; `d` up to 15.
pub open spec fn digit_char_upper(d: nat) -> char {
    if d < 10 {
        digit_char_lower(d)
    } else if d == 10 {
        'A'
    } else if d == 11 {
        'B'
    } else if d == 12 {
        'C'
    } else if d == 13 {
        'D'
    } else if d == 14 {
        'E'
    } else {
        'F'
    }
}

/// The upper-case hexadecimal digit string of `n`, no prefix, no leading zero.
pub open spec fn hex_digits_upper(n: nat) -> Seq<char>
    decreases n,
{
    if n < 16 {
        seq![digit_char_upper(n)]
    } else {
        hex_digits_upper(n / 16).push(digit_char_upper(n % 16))
    }
}

/// The lower-case hexadecimal digit string of `n`, no prefix, no leading zero.
pub open spec fn hex_digits_lower(n: nat) -> Seq<char>
    decreases n,
{
    if n < 16 {
        seq![digit_char_lower(n)]
    } else {
        hex_digits_lower(n / 16).push(digit_char_lower(n % 16))
    }
}

/// `s` left-padded with `0` characters up to width `w`.
pub open spec fn zero_pad(s: Seq<char>, w: nat) -> Seq<char> {
    if s.len() >= w {
        s
    } else {
        Seq::new((w - s.len()) as nat, |i: int| '0') + s
    }
}

/// `s` behind a `0x` prefix.
pub open spec fn with_0x(s: Seq<char>) -> Seq<char> {
    seq!['0', 'x'] + s
}

/// A one-character string slice holding the upper-case digit of value `d`.
fn digit_str_upper(d: u32) -> (r: &'static str)
    requires
        d < 16,
    ensures
        r@ =~= seq![digit_char_upper(d as nat)],
{
    proof {
        reveal_strlit("A");
        reveal_strlit("B");
        reveal_strlit("C");
        reveal_strlit("D");
        reveal_strlit("E");
        reveal_strlit("F");
    }
    if d < 10 {
        digit_str_lower(d)
    } else if d == 10 {
        "A"
    } else if d == 11 {
        "B"
    } else if d == 12 {
        "C"
    } else if d == 13 {
        "D"
    } else if d == 14 {
        "E"
    } else {
        "F"
    }
}

/// The upper-case hexadecimal rendering of `n`, no prefix.
pub fn fmt_hex_upper(n: u64) -> (r: String)
    ensures
        r@ == hex_digits_upper(n as nat),
    decreases n,
{
    if n < 16 {
        digit_str_upper(n as u32).to_owned()
    } else {
        let mut s = fmt_hex_upper(n / 16);
        s.append(digit_str_upper((n % 16) as u32));
        proof {
            assert(s@ =~= hex_digits_upper(n as nat));
        }
        s
    }
}

/// The lower-case hexadecimal rendering of `n`, no prefix.
pub fn fmt_hex_lower(n: u64) -> (r: String)
    ensures
        r@ == hex_digits_lower(n as nat),
    decreases n,
{
    if n < 16 {
        digit_str_lower(n as u32).to_owned()
    } else {
        let mut s = fmt_hex_lower(n / 16);
        s.append(digit_str_lower((n % 16) as u32));
        proof {
            assert(s@ =~= hex_digits_lower(n as nat));
        }
        s
    }
}

/// `0x` followed by the upper-case hexadecimal rendering of `n`.
pub fn fmt_hex_0x_upper(n: u64) -> (r: String)
    ensures
        r@ == with_0x(hex_digits_upper(n as nat)),
{
    proof {
        reveal_strlit("0x");
    }
    let mut s: String = "0x".to_owned();
    let digits = fmt_hex_upper(n);
    s.append(digits.as_str());
    proof {
        assert(s@ =~= with_0x(hex_digits_upper(n as nat)));
    }
    s
}

/// `0x` followed by the lower-case hexadecimal rendering of `n`, zero-padded
/// to eight digits.
pub fn fmt_hex_0x_pad8_lower(n: u64) -> (r: String)
    ensures
        r@ == with_0x(zero_pad(hex_digits_lower(n as nat), 8)),
{
    proof {
        reveal_strlit("0x");
        reveal_strlit("0");
    }
    let mut s: String = "0x".to_owned();
    let digits = fmt_hex_lower(n);
    let len = digits.as_str().unicode_len();
    let mut k: usize = len;
    while k < 8
        invariant
            len <= k <= 8 || (len >= 8 && k == len),
            len == digits@.len(),
            s@ == "0x"@ + Seq::new((k - len) as nat, |i: int| '0'),
        decreases 8 - k,
    {
        s.append("0");
        proof {
            reveal_strlit("0");
            assert(s@ =~= "0x"@ + Seq::new((k + 1 - len) as nat, |i: int| '0'));
        }
        k = k + 1;
    }
    s.append(digits.as_str());
    proof {
        assert(s@ =~= with_0x(zero_pad(hex_digits_lower(n as nat), 8)));
    }
    s
}

/// The hexadecimal digit string of `n`, in either case, is non-empty, all
/// digits, and writes `n`.
pub proof fn lemma_hex_digits(n: nat)
    ensures
        hex_digits_upper(n).len() >= 1,
        hex_digits_lower(n).len() >= 1,
        crate::parse::all_digits(hex_digits_upper(n), 16),
        crate::parse::all_digits(hex_digits_lower(n), 16),
        crate::parse::digits_value(hex_digits_upper(n), 16) == n,
        crate::parse::digits_value(hex_digits_lower(n), 16) == n,
    decreases n,
{
    if n < 16 {
        assert(crate::parse::digits_value(Seq::<char>::empty(), 16) == 0);
        assert(hex_digits_upper(n).drop_last() =~= Seq::<char>::empty());
        assert(hex_digits_lower(n).drop_last() =~= Seq::<char>::empty());
    } else {
        lemma_hex_digits(n / 16);
        let u = hex_digits_upper(n);
        let l = hex_digits_lower(n);
        assert(u.drop_last() =~= hex_digits_upper(n / 16));
        assert(l.drop_last() =~= hex_digits_lower(n / 16));
        assert forall|i: int| 0 <= i < u.len() implies crate::parse::is_digit(
            #[trigger] u[i],
            16,
        ) by {
            if i < u.len() - 1 {
                assert(u[i] == hex_digits_upper(n / 16)[i]);
            }
        }
        assert forall|i: int| 0 <= i < l.len() implies crate::parse::is_digit(
            #[trigger] l[i],
            16,
        ) by {
            if i < l.len() - 1 {
                assert(l[i] == hex_digits_lower(n / 16)[i]);
            }
        }
    }
}

/// A leading zero never changes the number a digit string writes.
proof fn lemma_prepend_zero(s: Seq<char>, radix: nat)
    ensures
        crate::parse::digits_value(seq!['0'] + s, radix) == crate::parse::digits_value(s, radix),
    decreases s.len(),
{
    if s.len() == 0 {
        assert(crate::parse::digits_value(Seq::<char>::empty(), radix) == 0);
        assert((seq!['0'] + s).drop_last() =~= Seq::<char>::empty());
        assert((seq!['0'] + s).last() == '0');
        assert((seq!['0'] + s).len() == 1);
        assert(crate::parse::digits_value(seq!['0'] + s, radix) == crate::parse::digits_value(
            (seq!['0'] + s).drop_last(),
            radix,
        ) * radix + char_digit((seq!['0'] + s).last()));
        assert(crate::parse::digits_value(seq!['0'] + s, radix) == 0);
        assert(crate::parse::digits_value(s, radix) == 0);
    } else {
        lemma_prepend_zero(s.drop_last(), radix);
        assert((seq!['0'] + s).drop_last() =~= seq!['0'] + s.drop_last());
        assert((seq!['0'] + s).last() == s.last());
        assert(crate::parse::digits_value(seq!['0'] + s, radix) == crate::parse::digits_value(
            (seq!['0'] + s).drop_last(),
            radix,
        ) * radix + char_digit((seq!['0'] + s).last()));
        assert(crate::parse::digits_value(s, radix) == crate::parse::digits_value(
            s.drop_last(),
            radix,
        ) * radix + char_digit(s.last()));
    }
}

/// Zero padding neither changes the number a digit string writes nor spoils
/// its digits.
pub proof fn lemma_zero_pad(s: Seq<char>, radix: nat, w: nat)
    requires
        crate::parse::all_digits(s, radix),
        radix >= 1,
    ensures
        crate::parse::digits_value(zero_pad(s, w), radix) == crate::parse::digits_value(s, radix),
        crate::parse::all_digits(zero_pad(s, w), radix),
        zero_pad(s, w).len() >= s.len(),
    decreases w,
{
    if s.len() < w {
        let k = (w - s.len()) as nat;
        let padded = zero_pad(s, w);
        if k == 1 {
            assert(padded =~= seq!['0'] + s);
            lemma_prepend_zero(s, radix);
        } else {
            let inner = zero_pad(s, (w - 1) as nat);
            lemma_zero_pad(s, radix, (w - 1) as nat);
            assert(padded =~= seq!['0'] + inner);
            lemma_prepend_zero(inner, radix);
        }
        assert forall|i: int| 0 <= i < padded.len() implies crate::parse::is_digit(
            #[trigger] padded[i],
            radix,
        ) by {
            if i >= k {
                assert(padded[i] == s[i - k]);
            } else {
                assert(padded[i] == '0');
            }
        }
    }
}

/// Parsing the `0x`-prefixed hexadecimal rendering of `n`, in either case
/// and under any zero padding, gives `n` back, whenever `n` is within `max`.
pub proof fn lemma_parse_num_of_hex(s: Seq<char>, n: nat, max: nat)
    requires
        n <= max,
        s == with_0x(hex_digits_upper(n)) || s == with_0x(hex_digits_lower(n)) || s == with_0x(
            zero_pad(hex_digits_lower(n), 8),
        ) || s == with_0x(zero_pad(hex_digits_upper(n), 8)),
    ensures
        crate::parse::spec_parse_num(s, max) == Some(n),
{
    lemma_hex_digits(n);
    lemma_zero_pad(hex_digits_upper(n), 16, 8);
    lemma_zero_pad(hex_digits_lower(n), 16, 8);
    let digits = s.skip(2);
    assert(digits =~= if s == with_0x(hex_digits_upper(n)) {
        hex_digits_upper(n)
    } else if s == with_0x(hex_digits_lower(n)) {
        hex_digits_lower(n)
    } else if s == with_0x(zero_pad(hex_digits_lower(n), 8)) {
        zero_pad(hex_digits_lower(n), 8)
    } else {
        zero_pad(hex_digits_upper(n), 8)
    });
    assert(char_digit(digits[0]) < 16);
    assert(crate::parse::strip_sign(digits) == digits);
}

/// The boolean literals of the encoder.
pub open spec fn bool_text(b: bool) -> Seq<char> {
    if b {
        "true"@
    } else {
        "false"@
    }
}

/// Reading back an encoded boolean yields the value encoded.
pub proof fn lemma_parse_bool_of_text(b: bool)
    ensures
        crate::parse::spec_parse_bool(bool_text(b)) == Some(b),
{
    reveal_strlit("0");
    reveal_strlit("1");
    reveal_strlit("true");
    reveal_strlit("false");
    assert("0"@.len() == 1 && "1"@.len() == 1 && "true"@.len() == 4 && "false"@.len() == 5);
}

/// Exec mirror of [`bool_text`].
pub fn fmt_bool(b: bool) -> (r: String)
    ensures
        r@ == bool_text(b),
{
    if b {
        "true".to_owned()
    } else {
        "false".to_owned()
    }
}

/// The parts joined by commas: the inverse of comma splitting.
pub open spec fn join_commas(parts: Seq<Seq<char>>) -> Seq<char>
    decreases parts.len(),
{
    if parts.len() == 0 {
        Seq::empty()
    } else if parts.len() == 1 {
        parts[0]
    } else {
        join_commas(parts.drop_last()) + seq![','] + parts.last()
    }
}

/// Whether no part of `s` holds a comma.
pub open spec fn comma_free(s: Seq<char>) -> bool {
    forall|i: int| 0 <= i < s.len() ==> #[trigger] s[i] != ','
}

/// For two or more parts, the join starts with the first part, a comma,
/// and the join of the rest.
proof fn lemma_join_front(parts: Seq<Seq<char>>)
    requires
        parts.len() >= 2,
    ensures
        join_commas(parts) == parts[0] + seq![','] + join_commas(parts.skip(1)),
    decreases parts.len(),
{
    if parts.len() == 2 {
        assert(parts.drop_last() =~= seq![parts[0]]);
        assert(parts.skip(1) =~= seq![parts[1]]);
        assert(join_commas(parts.drop_last()) == parts[0]);
        assert(join_commas(parts.skip(1)) == parts[1]);
        assert(join_commas(parts) =~= parts[0] + seq![','] + join_commas(parts.skip(1)));
    } else {
        let dl = parts.drop_last();
        lemma_join_front(dl);
        assert(dl[0] == parts[0]);
        assert(parts.skip(1).drop_last() =~= dl.skip(1));
        assert(parts.skip(1).last() == parts.last());
        assert(parts.skip(1).len() >= 2);
        assert(join_commas(parts.skip(1)) == join_commas(parts.skip(1).drop_last()) + seq![',']
            + parts.skip(1).last());
        assert(join_commas(parts) == join_commas(dl) + seq![','] + parts.last());
        assert(join_commas(parts) =~= parts[0] + seq![','] + join_commas(parts.skip(1)));
    }
}

/// Splitting a comma-free tail only extends the segment begun.
proof fn lemma_split_comma_free(s: Seq<char>, cur: Seq<char>)
    requires
        comma_free(s),
    ensures
        crate::parse::split_commas_rec(s, cur) == seq![cur + s],
    decreases s.len(),
{
    if s.len() == 0 {
        assert(cur + s =~= cur);
    } else {
        lemma_split_comma_free(s.skip(1), cur.push(s[0]));
        assert(cur.push(s[0]) + s.skip(1) =~= cur + s);
    }
}

/// Scanning a comma-free prefix only moves it into the segment begun.
proof fn lemma_split_shift(x: Seq<char>, s: Seq<char>, cur: Seq<char>)
    requires
        comma_free(x),
    ensures
        crate::parse::split_commas_rec(x + s, cur) == crate::parse::split_commas_rec(s, cur + x),
    decreases x.len(),
{
    if x.len() == 0 {
        assert(x + s =~= s);
        assert(cur + x =~= cur);
    } else {
        assert((x + s)[0] == x[0]);
        assert((x + s).skip(1) =~= x.skip(1) + s);
        lemma_split_shift(x.skip(1), s, cur.push(x[0]));
        assert(cur.push(x[0]) + x.skip(1) =~= cur + x);
    }
}

/// Splitting the join of one or more comma-free parts gives the parts back:
/// the comma list round trip.
pub proof fn lemma_split_of_join(parts: Seq<Seq<char>>)
    requires
        parts.len() >= 1,
        forall|i: int| 0 <= i < parts.len() ==> comma_free(#[trigger] parts[i]),
    ensures
        crate::parse::split_commas(join_commas(parts)) == parts,
    decreases parts.len(),
{
    if parts.len() == 1 {
        lemma_split_shift(parts[0], Seq::empty(), Seq::empty());
        assert(parts[0] + Seq::<char>::empty() =~= parts[0]);
        assert(Seq::<char>::empty() + parts[0] =~= parts[0]);
        lemma_split_comma_free(Seq::empty(), parts[0]);
        assert(parts[0] + Seq::<char>::empty() =~= parts[0]);
        assert(crate::parse::split_commas(join_commas(parts)) =~= parts);
    } else {
        lemma_join_front(parts);
        let j = join_commas(parts.skip(1));
        assert(join_commas(parts) =~= parts[0] + (seq![','] + j));
        lemma_split_shift(parts[0], seq![','] + j, Seq::empty());
        assert(Seq::<char>::empty() + parts[0] =~= parts[0]);
        assert((seq![','] + j)[0] == ',');
        assert((seq![','] + j).skip(1) =~= j);
        lemma_split_of_join(parts.skip(1));
        assert(crate::parse::split_commas(join_commas(parts)) =~= seq![parts[0]]
            + crate::parse::split_commas(j));
        assert(seq![parts[0]] + parts.skip(1) =~= parts);
    }
}

/// Exec mirror of [`join_commas`].
pub fn join_commas_exec(parts: &Vec<String>) -> (r: String)
    ensures
        r@ == join_commas(parts@.map_values(|p: String| p@)),
{
    proof {
        reveal_strlit(",");
    }
    let n = parts.len();
    let mut s = String::new();
    let mut i: usize = 0;
    proof {
        assert(s@ =~= join_commas(parts@.map_values(|p: String| p@).subrange(0, 0)));
    }
    while i < n
        invariant
            i <= n,
            n == parts@.len(),
            s@ == join_commas(parts@.map_values(|p: String| p@).subrange(0, i as int)),
        decreases n - i,
    {
        if i > 0 {
            s.append(",");
        }
        s.append(parts[i].as_str());
        proof {
            reveal_strlit(",");
            let all = parts@.map_values(|p: String| p@);
            let pre = all.subrange(0, i as int);
            let now = all.subrange(0, i + 1);
            assert(now.drop_last() =~= pre);
            if i == 0 {
                assert(s@ =~= join_commas(now));
            } else {
                assert(s@ =~= join_commas(now));
            }
        }
        i = i + 1;
    }
    proof {
        assert(parts@.map_values(|p: String| p@).subrange(0, n as int) =~= parts@.map_values(
            |p: String| p@,
        ));
    }
    s
}

/// Encodes a device back into a markup element, per
/// [`crate::svd::device::spec_encode_device`]: the structural inverse of
/// parsing. Encoding a well-formed device always succeeds.
pub fn encode(d: &crate::svd::device::Device) -> (r: Result<Element, EncodeError>)
    requires
        d.wf(),
    ensures
        r matches Ok(e) && e@ == crate::svd::device::spec_encode_device(d@),
{
    Ok(d.encode())
}

} // verus!
