//! The `<writeConstraint>` element: which values may be written to a
//! register or field.

use vstd::prelude::*;

use crate::encode::{hex_digits_lower, with_0x, zero_pad, fmt_hex_0x_pad8_lower, bool_text,
    fmt_bool, lemma_hex_digits, lemma_zero_pad, lemma_parse_num_of_hex, lemma_parse_bool_of_text};
use crate::errors::{err_of, SvdError, SvdErrorKind, SvdErrorKindV, SvdErrorV, ConvType,
    WriteConstraintError, WriteConstraintErrorV};
use crate::tree::{Element, ElementV, spec_child_bool, spec_child_num, text_elem};

verus! {

/// The subset of allowed write values.
#[derive(Clone, Copy, Debug, PartialEq, Eq, Structural)]
pub enum WriteConstraint {
    /// Only the last-read value may be written back.
    WriteAsRead(bool),
    /// Only the enumerated values may be written.
    UseEnumeratedValues(bool),
    /// Only values in an inclusive range may be written.
    Range(WriteConstraintRange),
}

/// An inclusive range of allowed write values.
#[derive(Clone, Copy, Debug, PartialEq, Eq, Structural)]
pub struct WriteConstraintRange {
    pub min: u64,
    pub max: u64,
}

/// The range written by the children of `e`: numeric `minimum` and
/// `maximum`.
pub open spec fn spec_parse_wc_range(e: ElementV) -> Result<WriteConstraintRange, SvdErrorV> {
    match spec_child_num(e, "minimum"@, u64::MAX as nat, ConvType::U64) {
        Err(k) => Err(err_of(k)),
        Ok(min) => match spec_child_num(e, "maximum"@, u64::MAX as nat, ConvType::U64) {
            Err(k) => Err(err_of(k)),
            Ok(max) => Ok(WriteConstraintRange { min: min as u64, max: max as u64 }),
        },
    }
}

/// The constraint written by `e`: exactly one child, which must be one of
/// the three known forms; an unknown child is an `UnknownVariant`, any other
/// number of children is ambiguous.
pub open spec fn spec_parse_write_constraint(e: ElementV) -> Result<WriteConstraint, SvdErrorV> {
    if e.children.len() == 1 {
        let c = e.children[0];
        if c.name == "writeAsRead"@ {
            match spec_child_bool(e, "writeAsRead"@) {
                Err(k) => Err(err_of(k)),
                Ok(b) => Ok(WriteConstraint::WriteAsRead(b)),
            }
        } else if c.name == "useEnumeratedValues"@ {
            match spec_child_bool(e, "useEnumeratedValues"@) {
                Err(k) => Err(err_of(k)),
                Ok(b) => Ok(WriteConstraint::UseEnumeratedValues(b)),
            }
        } else if c.name == "range"@ {
            match spec_parse_wc_range(c) {
                Err(x) => Err(x),
                Ok(rg) => Ok(WriteConstraint::Range(rg)),
            }
        } else {
            Err(err_of(SvdErrorKindV::WriteConstraint(WriteConstraintErrorV::Variant(c.name))))
        }
    } else {
        Err(
            err_of(
                SvdErrorKindV::WriteConstraint(WriteConstraintErrorV::TooManyElements),
            ),
        )
    }
}

/// The image of an encoded range: minimum and maximum in padded
/// hexadecimal.
pub open spec fn spec_encode_wc_range(r: WriteConstraintRange) -> ElementV {
    ElementV {
        name: "range"@,
        attributes: Seq::empty(),
        children: seq![
            text_elem("minimum"@, with_0x(zero_pad(hex_digits_lower(r.min as nat), 8))),
            text_elem("maximum"@, with_0x(zero_pad(hex_digits_lower(r.max as nat), 8))),
        ],
        text: None,
    }
}

/// The image of an encoded constraint: a `<writeConstraint>` element with
/// the one child of its form.
pub open spec fn spec_encode_write_constraint(w: WriteConstraint) -> ElementV {
    ElementV {
        name: "writeConstraint"@,
        attributes: Seq::empty(),
        children: seq![
            match w {
                WriteConstraint::WriteAsRead(b) => text_elem("writeAsRead"@, bool_text(b)),
                WriteConstraint::UseEnumeratedValues(b) => text_elem(
                    "useEnumeratedValues"@,
                    bool_text(b),
                ),
                WriteConstraint::Range(r) => spec_encode_wc_range(r),
            },
        ],
        text: None,
    }
}

impl WriteConstraintRange {
    /// Reads a range from a `<range>` element, per [`spec_parse_wc_range`].
    pub fn parse(tree: &Element) -> (r: Result<WriteConstraintRange, SvdError>)
        ensures
            match spec_parse_wc_range(tree@) {
                Ok(v) => r == Ok::<WriteConstraintRange, SvdError>(v),
                Err(e) => r matches Err(x) && x@ == e,
            },
    {
        let min = match tree.get_child_u64("minimum") {
            Ok(v) => v,
            Err(e) => {
                return Err(e);
            },
        };
        let max = match tree.get_child_u64("maximum") {
            Ok(v) => v,
            Err(e) => {
                return Err(e);
            },
        };
        Ok(WriteConstraintRange { min, max })
    }

    /// Writes this range back as an element, per [`spec_encode_wc_range`].
    pub fn encode(&self) -> (r: Element)
        ensures
            r@ == spec_encode_wc_range(*self),
    {
        let mut e = Element::new("range", None);
        e.push_text_child("minimum", fmt_hex_0x_pad8_lower(self.min));
        e.push_text_child("maximum", fmt_hex_0x_pad8_lower(self.max));
        proof {
            assert(e@.children =~= spec_encode_wc_range(*self).children);
            assert(e@ =~~= spec_encode_wc_range(*self));
        }
        e
    }
}

impl WriteConstraint {
    /// Reads a constraint from a `<writeConstraint>` element, per
    /// [`spec_parse_write_constraint`].
    pub fn parse(tree: &Element) -> (r: Result<WriteConstraint, SvdError>)
        ensures
            match spec_parse_write_constraint(tree@) {
                Ok(v) => r == Ok::<WriteConstraint, SvdError>(v),
                Err(e) => r matches Err(x) && x@ == e,
            },
    {
        if tree.children.len() == 1 {
            let c = &tree.children[0];
            proof {
                assert(tree@.children[0] == crate::tree::elem_view(tree.children@[0]));
            }
            if crate::tree::string_eq_str(&c.name, "writeAsRead") {
                match tree.get_child_bool("writeAsRead") {
                    Ok(b) => Ok(WriteConstraint::WriteAsRead(b)),
                    Err(e) => Err(e),
                }
            } else if crate::tree::string_eq_str(&c.name, "useEnumeratedValues") {
                match tree.get_child_bool("useEnumeratedValues") {
                    Ok(b) => Ok(WriteConstraint::UseEnumeratedValues(b)),
                    Err(e) => Err(e),
                }
            } else if crate::tree::string_eq_str(&c.name, "range") {
                match WriteConstraintRange::parse(c) {
                    Ok(rg) => Ok(WriteConstraint::Range(rg)),
                    Err(e) => Err(e),
                }
            } else {
                Err(
                    SvdError::new(
                        SvdErrorKind::WriteConstraint(
                            WriteConstraintError::Variant(c.name.clone()),
                        ),
                    ),
                )
            }
        } else {
            Err(
                SvdError::new(
                    SvdErrorKind::WriteConstraint(WriteConstraintError::TooManyElements),
                ),
            )
        }
    }

    /// Writes this constraint back as an element, per
    /// [`spec_encode_write_constraint`].
    pub fn encode(&self) -> (r: Element)
        ensures
            r@ == spec_encode_write_constraint(*self),
    {
        let mut e = Element::new("writeConstraint", None);
        let c = match self {
            WriteConstraint::WriteAsRead(b) => Element::text_child("writeAsRead", fmt_bool(*b)),
            WriteConstraint::UseEnumeratedValues(b) => Element::text_child(
                "useEnumeratedValues",
                fmt_bool(*b),
            ),
            WriteConstraint::Range(r) => r.encode(),
        };
        e.push_child(c);
        proof {
            assert(e@.children =~= spec_encode_write_constraint(*self).children);
            assert(e@ =~~= spec_encode_write_constraint(*self));
        }
        e
    }
}

/// Reading back an encoded constraint yields the value encoded: the write
/// constraint round trip.
pub proof fn lemma_write_constraint_round_trip(w: WriteConstraint)
    ensures
        spec_parse_write_constraint(spec_encode_write_constraint(w)) == Ok::<
            WriteConstraint,
            SvdErrorV,
        >(w),
{
    let e = spec_encode_write_constraint(w);
    reveal_strlit("writeAsRead");
    reveal_strlit("useEnumeratedValues");
    reveal_strlit("range");
    reveal_strlit("minimum");
    reveal_strlit("maximum");
    assert("writeAsRead"@.len() == 11 && "useEnumeratedValues"@.len() == 19 && "range"@.len() == 5
        && "minimum"@.len() == 7 && "maximum"@.len() == 7);
    assert("minimum"@[1] == 'i' && "maximum"@[1] == 'a');
    crate::tree::lemma_first_child_index(e.children, "writeAsRead"@);
    crate::tree::lemma_first_child_index(e.children, "useEnumeratedValues"@);
    match w {
        WriteConstraint::WriteAsRead(b) => {
            lemma_parse_bool_of_text(b);
        },
        WriteConstraint::UseEnumeratedValues(b) => {
            lemma_parse_bool_of_text(b);
        },
        WriteConstraint::Range(r) => {
            let c = spec_encode_wc_range(r);
            crate::tree::lemma_first_child_index(c.children, "minimum"@);
            crate::tree::lemma_first_child_index(c.children, "maximum"@);
            lemma_hex_digits(r.min as nat);
            lemma_hex_digits(r.max as nat);
            lemma_parse_num_of_hex(with_0x(zero_pad(hex_digits_lower(r.min as nat), 8)),
                r.min as nat, u64::MAX as nat);
            lemma_parse_num_of_hex(with_0x(zero_pad(hex_digits_lower(r.max as nat), 8)),
                r.max as nat, u64::MAX as nat);
            assert(spec_parse_wc_range(c) =~~= Ok::<WriteConstraintRange, SvdErrorV>(r));
        },
    }
}

} // verus!
