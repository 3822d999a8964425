//! The bit range of a field: three textual encodings, one canonical
//! offset-and-width pair.
//!
//! A range may be written as a single `<bitRange>[msb:lsb]</bitRange>` tag,
//! as a `<msb>`/`<lsb>` pair, or as a `<bitOffset>`/`<bitWidth>` pair. All
//! three normalize to the canonical pair, and the form used is retained so
//! the encoder can reproduce it.

use vstd::prelude::*;

use crate::errors::{err_of, BitRangeParseError, SvdError, SvdErrorKind, SvdErrorKindV, SvdErrorV};
use crate::parse::{dec_digits, find_char, lemma_find_char, lemma_dec_digits, spec_parse_radix,
    is_digit, char_digit, all_digits, fmt_dec};
use crate::tree::{Element, ElementV, spec_get_child, text_elem};

verus! {

/// The canonical bit range: position of the least significant bit and
/// width, plus the textual form it was written in.
#[derive(Clone, Copy, Debug, PartialEq, Eq, Structural)]
pub struct BitRange {
    /// Position of the least significant bit of the field.
    pub offset: u32,
    /// Bit width of the field.
    pub width: u32,
    /// The textual form the range was written in.
    pub range_type: BitRangeType,
}

/// The three textual encodings of a bit range.
#[derive(Clone, Copy, Debug, PartialEq, Eq, Structural)]
pub enum BitRangeType {
    /// A single `[msb:lsb]` tag.
    BitRange,
    /// A `<bitOffset>`/`<bitWidth>` pair.
    OffsetWidth,
    /// A `<msb>`/`<lsb>` pair.
    MsbLsb,
}

impl BitRange {
    /// A well-formed range holds at least one bit and its most significant
    /// bit is representable: `msb == offset + width - 1` never overflows.
    pub open spec fn wf(self) -> bool {
        1 <= self.width && self.offset + self.width <= 0x1_0000_0000
    }

    /// The most significant bit of a well-formed range, as a number.
    pub open spec fn spec_msb(self) -> nat
        recommends
            self.wf(),
    {
        (self.offset + self.width - 1) as nat
    }

    /// Position of the least significant bit.
    pub fn lsb(&self) -> (r: u32)
        ensures
            r == self.offset,
    {
        self.offset
    }

    /// Position of the most significant bit.
    pub fn msb(&self) -> (r: u32)
        requires
            self.wf(),
        ensures
            r == self.spec_msb(),
    {
        ((self.offset as u64 + self.width as u64) - 1) as u32
    }
}

/// The range written by a `<bitRange>` text: bracketed, colon-separated
/// `msb` then `lsb`, both plain decimal; a reversed pair is refused.
pub open spec fn spec_parse_bit_range_text(t: Seq<char>) -> Result<BitRange, SvdErrorKindV> {
    if t.len() == 0 || t[0] != '[' {
        Err(SvdErrorKindV::BitRange(BitRangeParseError::MissingOpen))
    } else if t.last() != ']' {
        Err(SvdErrorKindV::BitRange(BitRangeParseError::MissingClose))
    } else {
        let inner = t.subrange(1, t.len() - 1);
        let k1 = find_char(inner, ':');
        if k1 < 0 {
            Err(SvdErrorKindV::BitRange(BitRangeParseError::Syntax))
        } else {
            let left = inner.subrange(0, k1);
            let rest = inner.skip(k1 + 1);
            let k2 = find_char(rest, ':');
            let right = if k2 < 0 {
                rest
            } else {
                rest.subrange(0, k2)
            };
            let m = spec_parse_radix(left, 10, u32::MAX as nat);
            let l = spec_parse_radix(right, 10, u32::MAX as nat);
            if m is None || l is None {
                Err(SvdErrorKindV::BitRange(BitRangeParseError::ParseError))
            } else if m.unwrap() < l.unwrap() || m.unwrap() - l.unwrap() + 1 > u32::MAX as nat {
                Err(SvdErrorKindV::BitRange(BitRangeParseError::Syntax))
            } else {
                Ok(
                    BitRange {
                        offset: l.unwrap() as u32,
                        width: (m.unwrap() - l.unwrap() + 1) as u32,
                        range_type: BitRangeType::BitRange,
                    },
                )
            }
        }
    }
}

/// The numeric value of the child named `name`, any failure flattened to a
/// bit-range `ParseError`; `None` when the child is absent.
pub open spec fn spec_bit_range_num(e: ElementV, name: Seq<char>) -> Option<
    Result<nat, SvdErrorKindV>,
> {
    match spec_get_child(e, name) {
        None => None,
        Some(c) => match c.text {
            None => Some(Err(SvdErrorKindV::BitRange(BitRangeParseError::ParseError))),
            Some(t) => match crate::parse::spec_parse_num(t, u32::MAX as nat) {
                Some(v) => Some(Ok(v)),
                None => Some(Err(SvdErrorKindV::BitRange(BitRangeParseError::ParseError))),
            },
        },
    }
}

/// The range written by the children of `e`, trying the three forms in
/// priority order: `<bitRange>`, then `<msb>`/`<lsb>`, then
/// `<bitOffset>`/`<bitWidth>`; absence of all three is a `Syntax`
/// condition, as is a range without a representable most significant bit.
pub open spec fn spec_parse_bit_range(e: ElementV) -> Result<BitRange, SvdErrorKindV> {
    match spec_get_child(e, "bitRange"@) {
        Some(c) => match c.text {
            None => Err(SvdErrorKindV::BitRange(BitRangeParseError::MissingOpen)),
            Some(t) => spec_parse_bit_range_text(t),
        },
        None => if spec_get_child(e, "lsb"@) is Some && spec_get_child(e, "msb"@) is Some {
            match (spec_bit_range_num(e, "msb"@), spec_bit_range_num(e, "lsb"@)) {
                (Some(Ok(m)), Some(Ok(l))) => if m < l || m - l + 1 > u32::MAX as nat {
                    Err(SvdErrorKindV::BitRange(BitRangeParseError::Syntax))
                } else {
                    Ok(
                        BitRange {
                            offset: l as u32,
                            width: (m - l + 1) as u32,
                            range_type: BitRangeType::MsbLsb,
                        },
                    )
                },
                (Some(Err(k)), _) => Err(k),
                (_, Some(Err(k))) => Err(k),
                _ => Err(SvdErrorKindV::BitRange(BitRangeParseError::Syntax)),
            }
        } else if spec_get_child(e, "bitOffset"@) is Some && spec_get_child(e, "bitWidth"@)
            is Some {
            match (spec_bit_range_num(e, "bitOffset"@), spec_bit_range_num(e, "bitWidth"@)) {
                (Some(Ok(o)), Some(Ok(w))) => if 1 <= w && o + w <= 0x1_0000_0000 {
                    Ok(
                        BitRange {
                            offset: o as u32,
                            width: w as u32,
                            range_type: BitRangeType::OffsetWidth,
                        },
                    )
                } else {
                    Err(SvdErrorKindV::BitRange(BitRangeParseError::Syntax))
                },
                (Some(Err(k)), _) => Err(k),
                (_, Some(Err(k))) => Err(k),
                _ => Err(SvdErrorKindV::BitRange(BitRangeParseError::Syntax)),
            }
        } else {
            Err(SvdErrorKindV::BitRange(BitRangeParseError::Syntax))
        },
    }
}

/// The `[msb:lsb]` text of a well-formed range.
pub open spec fn bit_range_text(b: BitRange) -> Seq<char>
    recommends
        b.wf(),
{
    seq!['['] + dec_digits(b.spec_msb()) + seq![':'] + dec_digits(b.offset as nat) + seq![']']
}

/// The images of an encoded range: the children reproducing its original
/// textual form.
pub open spec fn spec_encode_bit_range(b: BitRange) -> Seq<ElementV>
    recommends
        b.wf(),
{
    match b.range_type {
        BitRangeType::BitRange => seq![text_elem("bitRange"@, bit_range_text(b))],
        BitRangeType::MsbLsb => seq![
            text_elem("lsb"@, dec_digits(b.offset as nat)),
            text_elem("msb"@, dec_digits(b.spec_msb())),
        ],
        BitRangeType::OffsetWidth => seq![
            text_elem("bitOffset"@, dec_digits(b.offset as nat)),
            text_elem("bitWidth"@, dec_digits(b.width as nat)),
        ],
    }
}

impl BitRange {
    /// Reads a bit range from the children of an element, per
    /// [`spec_parse_bit_range`]; every range read is well formed.
    pub fn parse(tree: &Element) -> (r: Result<BitRange, SvdError>)
        ensures
            match spec_parse_bit_range(tree@) {
                Ok(v) => r == Ok::<BitRange, SvdError>(v) && v.wf(),
                Err(k) => r matches Err(e) && e@ == err_of(k),
            },
    {
        match tree.get_child("bitRange") {
            Some(c) => match &c.text {
                None => Err(
                    SvdError::new(SvdErrorKind::BitRange(BitRangeParseError::MissingOpen)),
                ),
                Some(t) => parse_bit_range_text(t.as_str()),
            },
            None => {
                let has_lsb = tree.get_child("lsb").is_some();
                let has_msb = tree.get_child("msb").is_some();
                if has_lsb && has_msb {
                    let m = match bit_range_num(tree, "msb") {
                        Ok(v) => v,
                        Err(e) => {
                            return Err(e);
                        },
                    };
                    let l = match bit_range_num(tree, "lsb") {
                        Ok(v) => v,
                        Err(e) => {
                            return Err(e);
                        },
                    };
                    if m < l || (m - l) as u64 + 1 > u32::MAX as u64 {
                        Err(SvdError::new(SvdErrorKind::BitRange(BitRangeParseError::Syntax)))
                    } else {
                        Ok(
                            BitRange {
                                offset: l,
                                width: m - l + 1,
                                range_type: BitRangeType::MsbLsb,
                            },
                        )
                    }
                } else {
                    let has_off = tree.get_child("bitOffset").is_some();
                    let has_wid = tree.get_child("bitWidth").is_some();
                    if has_off && has_wid {
                        let o = match bit_range_num(tree, "bitOffset") {
                            Ok(v) => v,
                            Err(e) => {
                                return Err(e);
                            },
                        };
                        let w = match bit_range_num(tree, "bitWidth") {
                            Ok(v) => v,
                            Err(e) => {
                                return Err(e);
                            },
                        };
                        if 1 <= w && o as u64 + w as u64 <= 0x1_0000_0000 {
                            Ok(
                                BitRange {
                                    offset: o,
                                    width: w,
                                    range_type: BitRangeType::OffsetWidth,
                                },
                            )
                        } else {
                            Err(
                                SvdError::new(
                                    SvdErrorKind::BitRange(BitRangeParseError::Syntax),
                                ),
                            )
                        }
                    } else {
                        Err(SvdError::new(SvdErrorKind::BitRange(BitRangeParseError::Syntax)))
                    }
                }
            },
        }
    }

    /// Writes this range back as children reproducing its original textual
    /// form, per [`spec_encode_bit_range`].
    pub fn encode(&self) -> (r: Vec<Element>)
        requires
            self.wf(),
        ensures
            r@.map_values(|e: Element| e@) == spec_encode_bit_range(*self),
    {
        let mut out: Vec<Element> = Vec::new();
        match self.range_type {
            BitRangeType::BitRange => {
                let mut t: String = "[".to_owned();
                t.append(fmt_dec(self.msb() as u64).as_str());
                t.append(":");
                t.append(fmt_dec(self.lsb() as u64).as_str());
                t.append("]");
                proof {
                    reveal_strlit("[");
                    reveal_strlit(":");
                    reveal_strlit("]");
                    assert(t@ =~= bit_range_text(*self));
                }
                out.push(Element::text_child("bitRange", t));
            },
            BitRangeType::MsbLsb => {
                out.push(Element::text_child("lsb", fmt_dec(self.lsb() as u64)));
                out.push(Element::text_child("msb", fmt_dec(self.msb() as u64)));
            },
            BitRangeType::OffsetWidth => {
                out.push(Element::text_child("bitOffset", fmt_dec(self.offset as u64)));
                out.push(Element::text_child("bitWidth", fmt_dec(self.width as u64)));
            },
        }
        proof {
            assert(out@.map_values(|e: Element| e@) =~= spec_encode_bit_range(*self));
        }
        out
    }
}

/// Reads one numeric child per the bit-range flattening of
/// [`spec_bit_range_num`]; to be called only when the child exists.
fn bit_range_num(tree: &Element, name: &str) -> (r: Result<u32, SvdError>)
    requires
        spec_get_child(tree@, name@) is Some,
    ensures
        match spec_bit_range_num(tree@, name@) {
            Some(Ok(v)) => r == Ok::<u32, SvdError>(v as u32),
            Some(Err(k)) => r matches Err(e) && e@ == err_of(k),
            None => false,
        },
{
    match tree.get_child(name) {
        None => Err(SvdError::new(SvdErrorKind::BitRange(BitRangeParseError::ParseError))),
        Some(c) => match &c.text {
            None => Err(SvdError::new(SvdErrorKind::BitRange(BitRangeParseError::ParseError))),
            Some(t) => match crate::parse::parse_u32_text(t.as_str()) {
                Some(v) => Ok(v),
                None => Err(
                    SvdError::new(SvdErrorKind::BitRange(BitRangeParseError::ParseError)),
                ),
            },
        },
    }
}

/// Reads a bit range from a `[msb:lsb]` text, per
/// [`spec_parse_bit_range_text`].
fn parse_bit_range_text(t: &str) -> (r: Result<BitRange, SvdError>)
    ensures
        match spec_parse_bit_range_text(t@) {
            Ok(v) => r == Ok::<BitRange, SvdError>(v) && v.wf(),
            Err(k) => r matches Err(e) && e@ == err_of(k),
        },
{
    let n = t.unicode_len();
    if n == 0 || t.get_char(0) != '[' {
        return Err(SvdError::new(SvdErrorKind::BitRange(BitRangeParseError::MissingOpen)));
    }
    if t.get_char(n - 1) != ']' {
        return Err(SvdError::new(SvdErrorKind::BitRange(BitRangeParseError::MissingClose)));
    }
    let inner = t.substring_char(1, n - 1);
    proof {
        assert(inner@ =~= t@.subrange(1, t@.len() - 1));
    }
    let inner_len = inner.unicode_len();
    let k1 = match crate::parse::find_char_at(inner, ':') {
        Some(k) => k,
        None => {
            return Err(SvdError::new(SvdErrorKind::BitRange(BitRangeParseError::Syntax)));
        },
    };
    proof {
        lemma_find_char(inner@, ':');
    }
    let left = inner.substring_char(0, k1);
    let rest = inner.substring_char(k1 + 1, inner_len);
    proof {
        assert(rest@ =~= inner@.skip(k1 + 1));
    }
    let right = match crate::parse::find_char_at(rest, ':') {
        Some(k2) => {
            proof {
                lemma_find_char(rest@, ':');
            }
            rest.substring_char(0, k2)
        },
        None => rest,
    };
    let m = match crate::parse::dec_u32(left) {
        Some(v) => v,
        None => {
            return Err(SvdError::new(SvdErrorKind::BitRange(BitRangeParseError::ParseError)));
        },
    };
    let l = match crate::parse::dec_u32(right) {
        Some(v) => v,
        None => {
            return Err(SvdError::new(SvdErrorKind::BitRange(BitRangeParseError::ParseError)));
        },
    };
    if m < l || (m - l) as u64 + 1 > u32::MAX as u64 {
        Err(SvdError::new(SvdErrorKind::BitRange(BitRangeParseError::Syntax)))
    } else {
        Ok(BitRange { offset: l, width: m - l + 1, range_type: BitRangeType::BitRange })
    }
}

/// No decimal digit string contains a colon.
proof fn lemma_dec_digits_no_colon(n: nat)
    ensures
        forall|j: int| 0 <= j < dec_digits(n).len() ==> #[trigger] dec_digits(n)[j] != ':',
{
    lemma_dec_digits(n);
    assert forall|j: int| 0 <= j < dec_digits(n).len() implies #[trigger] dec_digits(n)[j]
        != ':' by {
        assert(is_digit(dec_digits(n)[j], 10));
    }
}

/// Reading back the `[msb:lsb]` text of a well-formed range yields the
/// canonical pair encoded.
proof fn lemma_bit_range_text_round_trip(b: BitRange)
    requires
        b.wf(),
        b.range_type == BitRangeType::BitRange,
    ensures
        spec_parse_bit_range_text(bit_range_text(b)) == Ok::<BitRange, SvdErrorKindV>(b),
{
    let t = bit_range_text(b);
    let md = dec_digits(b.spec_msb());
    let ld = dec_digits(b.offset as nat);
    lemma_dec_digits(b.spec_msb());
    lemma_dec_digits(b.offset as nat);
    lemma_dec_digits_no_colon(b.spec_msb());
    lemma_dec_digits_no_colon(b.offset as nat);
    assert(t[0] == '[');
    assert(t.last() == ']');
    let inner = t.subrange(1, t.len() - 1);
    assert(inner =~= md + seq![':'] + ld);
    let k1 = find_char(inner, ':');
    lemma_find_char(inner, ':');
    assert(inner[md.len() as int] == ':');
    assert forall|j: int| 0 <= j < md.len() implies inner[j] != ':' by {
        assert(inner[j] == md[j]);
    }
    assert(k1 == md.len());
    assert(inner.subrange(0, k1) =~= md);
    let rest = inner.skip(k1 + 1);
    assert(rest =~= ld);
    lemma_find_char(rest, ':');
    if find_char(rest, ':') >= 0 {
        assert(rest[find_char(rest, ':')] == ':');
    }
    assert(crate::parse::strip_sign(md) == md);
    assert(crate::parse::strip_sign(ld) == ld);
    assert(spec_parse_radix(md, 10, u32::MAX as nat) == Some(b.spec_msb()));
    assert(spec_parse_radix(ld, 10, u32::MAX as nat) == Some(b.offset as nat));
}

/// Reading back an encoded bit range, in whichever of the three forms it
/// was written, yields the canonical pair and form encoded: the bit range
/// round trip.
pub proof fn lemma_bit_range_round_trip(b: BitRange, e: ElementV)
    requires
        b.wf(),
        e.children == spec_encode_bit_range(b),
    ensures
        spec_parse_bit_range(e) == Ok::<BitRange, SvdErrorKindV>(b),
{
    reveal_strlit("bitRange");
    reveal_strlit("lsb");
    reveal_strlit("msb");
    reveal_strlit("bitOffset");
    reveal_strlit("bitWidth");
    assert("bitRange"@.len() == 8 && "lsb"@.len() == 3 && "msb"@.len() == 3 && "bitOffset"@.len()
        == 9 && "bitWidth"@.len() == 8);
    assert("bitRange"@[0] == 'b' && "bitWidth"@[0] == 'b' && "bitRange"@[3] == 'R'
        && "bitWidth"@[3] == 'W');
    assert("lsb"@[0] == 'l' && "msb"@[0] == 'm');
    crate::tree::lemma_first_child_index(e.children, "bitRange"@);
    crate::tree::lemma_first_child_index(e.children, "lsb"@);
    crate::tree::lemma_first_child_index(e.children, "msb"@);
    crate::tree::lemma_first_child_index(e.children, "bitOffset"@);
    crate::tree::lemma_first_child_index(e.children, "bitWidth"@);
    match b.range_type {
        BitRangeType::BitRange => {
            lemma_bit_range_text_round_trip(b);
        },
        BitRangeType::MsbLsb => {
            crate::parse::lemma_parse_num_of_dec(b.spec_msb(), u32::MAX as nat);
            crate::parse::lemma_parse_num_of_dec(b.offset as nat, u32::MAX as nat);
        },
        BitRangeType::OffsetWidth => {
            crate::parse::lemma_parse_num_of_dec(b.offset as nat, u32::MAX as nat);
            crate::parse::lemma_parse_num_of_dec(b.width as nat, u32::MAX as nat);
        },
    }
}

} // verus!
