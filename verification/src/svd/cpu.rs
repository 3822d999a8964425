//! The `<cpu>` element: the processor included in the device.

use vstd::prelude::*;

use crate::encode::{bool_text, fmt_bool, lemma_parse_bool_of_text};
use crate::errors::{err_of, SvdError, SvdErrorKind, SvdErrorKindV, SvdErrorV, ConvType};
use crate::parse::dec_digits;
use crate::svd::endian::{Endian, spec_parse_endian, spec_encode_endian};
use crate::errors::TagErrorV;
use crate::tree::{Element, ElementV, spec_get_child, spec_child_bool, spec_child_num,
    spec_child_text, text_elem};

verus! {

/// The processor of a device.
#[derive(Clone, Debug, PartialEq)]
pub struct Cpu {
    pub name: String,
    pub revision: String,
    pub endian: Endian,
    pub mpu_present: bool,
    pub fpu_present: bool,
    pub nvic_priority_bits: u32,
    pub has_vendor_systick: bool,
}

/// Mathematical image of a [`Cpu`].
#[verifier::ext_equal]
pub struct CpuV {
    pub name: Seq<char>,
    pub revision: Seq<char>,
    pub endian: Endian,
    pub mpu_present: bool,
    pub fpu_present: bool,
    pub nvic_priority_bits: u32,
    pub has_vendor_systick: bool,
}

impl View for Cpu {
    type V = CpuV;

    open spec fn view(&self) -> CpuV {
        CpuV {
            name: self.name@,
            revision: self.revision@,
            endian: self.endian,
            mpu_present: self.mpu_present,
            fpu_present: self.fpu_present,
            nvic_priority_bits: self.nvic_priority_bits,
            has_vendor_systick: self.has_vendor_systick,
        }
    }
}

/// The endianness child of `e`: the `<endian>` child must exist and hold a
/// known word.
pub open spec fn spec_child_endian(e: ElementV) -> Result<Endian, SvdErrorV> {
    match spec_get_child(e, "endian"@) {
        None => Err(err_of(SvdErrorKindV::Tag(TagErrorV::MissingTag { name: "endian"@ }))),
        Some(c) => match spec_parse_endian(c) {
            Ok(v) => Ok(v),
            Err(k) => Err(err_of(k)),
        },
    }
}

/// The processor description written by the children of `e`; the element
/// must be named `cpu`.
pub open spec fn spec_parse_cpu(e: ElementV) -> Result<CpuV, SvdErrorV> {
    if e.name != "cpu"@ {
        Err(err_of(SvdErrorKindV::NotExpectedTag("cpu"@)))
    } else {
        match spec_child_text(e, "name"@) {
            Err(k) => Err(err_of(k)),
            Ok(name) => match spec_child_text(e, "revision"@) {
                Err(k) => Err(err_of(k)),
                Ok(revision) => match spec_child_endian(e) {
                    Err(x) => Err(x),
                    Ok(endian) => match spec_child_bool(e, "mpuPresent"@) {
                        Err(k) => Err(err_of(k)),
                        Ok(mpu) => match spec_child_bool(e, "fpuPresent"@) {
                            Err(k) => Err(err_of(k)),
                            Ok(fpu) => match spec_child_num(
                                e,
                                "nvicPrioBits"@,
                                u32::MAX as nat,
                                ConvType::U32,
                            ) {
                                Err(k) => Err(err_of(k)),
                                Ok(bits) => match spec_child_bool(e, "vendorSystickConfig"@) {
                                    Err(k) => Err(err_of(k)),
                                    Ok(systick) => Ok(
                                        CpuV {
                                            name: name,
                                            revision: revision,
                                            endian: endian,
                                            mpu_present: mpu,
                                            fpu_present: fpu,
                                            nvic_priority_bits: bits as u32,
                                            has_vendor_systick: systick,
                                        },
                                    ),
                                },
                            },
                        },
                    },
                },
            },
        }
    }
}

/// The image of an encoded processor description.
pub open spec fn spec_encode_cpu(v: CpuV) -> ElementV {
    ElementV {
        name: "cpu"@,
        attributes: Seq::empty(),
        children: seq![
            text_elem("name"@, v.name),
            text_elem("revision"@, v.revision),
            spec_encode_endian(v.endian),
            text_elem("mpuPresent"@, bool_text(v.mpu_present)),
            text_elem("fpuPresent"@, bool_text(v.fpu_present)),
            text_elem("nvicPrioBits"@, dec_digits(v.nvic_priority_bits as nat)),
            text_elem("vendorSystickConfig"@, bool_text(v.has_vendor_systick)),
        ],
        text: None,
    }
}

impl Cpu {
    /// Reads a processor description from a `<cpu>` element, per
    /// [`spec_parse_cpu`].
    pub fn parse(tree: &Element) -> (r: Result<Cpu, SvdError>)
        ensures
            match spec_parse_cpu(tree@) {
                Ok(v) => r matches Ok(c) && c@ == v,
                Err(e) => r matches Err(x) && x@ == e,
            },
    {
        if !crate::tree::string_eq_str(&tree.name, "cpu") {
            return Err(SvdError::new(SvdErrorKind::NotExpectedTag("cpu".to_owned())));
        }
        let name = match tree.get_child_text("name") {
            Ok(v) => v,
            Err(e) => {
                return Err(e);
            },
        };
        let revision = match tree.get_child_text("revision") {
            Ok(v) => v,
            Err(e) => {
                return Err(e);
            },
        };
        let endian = match tree.get_child("endian") {
            Some(c) => match Endian::parse(c) {
                Ok(v) => v,
                Err(e) => {
                    return Err(e);
                },
            },
            None => {
                return Err(
                    SvdError::new(
                        SvdErrorKind::Tag(
                            crate::errors::TagError::MissingTag { name: "endian".to_owned() },
                        ),
                    ),
                );
            },
        };
        let mpu_present = match tree.get_child_bool("mpuPresent") {
            Ok(v) => v,
            Err(e) => {
                return Err(e);
            },
        };
        let fpu_present = match tree.get_child_bool("fpuPresent") {
            Ok(v) => v,
            Err(e) => {
                return Err(e);
            },
        };
        let nvic_priority_bits = match tree.get_child_u32("nvicPrioBits") {
            Ok(v) => v,
            Err(e) => {
                return Err(e);
            },
        };
        let has_vendor_systick = match tree.get_child_bool("vendorSystickConfig") {
            Ok(v) => v,
            Err(e) => {
                return Err(e);
            },
        };
        Ok(
            Cpu {
                name,
                revision,
                endian,
                mpu_present,
                fpu_present,
                nvic_priority_bits,
                has_vendor_systick,
            },
        )
    }

    /// Writes this processor description back as an element, per
    /// [`spec_encode_cpu`].
    pub fn encode(&self) -> (r: Element)
        ensures
            r@ == spec_encode_cpu(self@),
    {
        let mut e = Element::new("cpu", None);
        e.push_text_child("name", self.name.clone());
        e.push_text_child("revision", self.revision.clone());
        e.push_child(self.endian.encode());
        e.push_text_child("mpuPresent", fmt_bool(self.mpu_present));
        e.push_text_child("fpuPresent", fmt_bool(self.fpu_present));
        e.push_text_child("nvicPrioBits", crate::parse::fmt_dec(self.nvic_priority_bits as u64));
        e.push_text_child("vendorSystickConfig", fmt_bool(self.has_vendor_systick));
        proof {
            assert(e@.children =~= spec_encode_cpu(self@).children);
            assert(e@ =~~= spec_encode_cpu(self@));
        }
        e
    }

    /// Whether the processor is an ARM Cortex-M: its name begins with `CM`.
    pub fn is_cortex_m(&self) -> (r: bool)
        ensures
            r == (self.name@.len() >= 2 && self.name@.subrange(0, 2) == "CM"@),
    {
        proof {
            reveal_strlit("CM");
        }
        let n = self.name.as_str().unicode_len();
        if n < 2 {
            return false;
        }
        let c0 = self.name.as_str().get_char(0);
        let c1 = self.name.as_str().get_char(1);
        proof {
            assert(self.name@.subrange(0, 2) =~= seq![self.name@[0], self.name@[1]]);
            assert("CM"@ =~= seq!['C', 'M']);
        }
        c0 == 'C' && c1 == 'M'
    }
}

/// Reading back an encoded processor description yields the value encoded:
/// the cpu round trip.
pub proof fn lemma_cpu_round_trip(v: CpuV)
    ensures
        spec_parse_cpu(spec_encode_cpu(v)) == Ok::<CpuV, SvdErrorV>(v),
{
    let e = spec_encode_cpu(v);
    reveal_strlit("cpu");
    reveal_strlit("name");
    reveal_strlit("revision");
    reveal_strlit("endian");
    reveal_strlit("mpuPresent");
    reveal_strlit("fpuPresent");
    reveal_strlit("nvicPrioBits");
    reveal_strlit("vendorSystickConfig");
    assert("cpu"@.len() == 3 && "name"@.len() == 4 && "revision"@.len() == 8 && "endian"@.len()
        == 6 && "mpuPresent"@.len() == 10 && "fpuPresent"@.len() == 10 && "nvicPrioBits"@.len()
        == 12 && "vendorSystickConfig"@.len() == 19);
    assert("mpuPresent"@[0] == 'm' && "fpuPresent"@[0] == 'f');
    crate::tree::lemma_first_child_index(e.children, "name"@);
    crate::tree::lemma_first_child_index(e.children, "revision"@);
    crate::tree::lemma_first_child_index(e.children, "endian"@);
    crate::tree::lemma_first_child_index(e.children, "mpuPresent"@);
    crate::tree::lemma_first_child_index(e.children, "fpuPresent"@);
    crate::tree::lemma_first_child_index(e.children, "nvicPrioBits"@);
    crate::tree::lemma_first_child_index(e.children, "vendorSystickConfig"@);
    crate::svd::endian::lemma_endian_round_trip(v.endian);
    lemma_parse_bool_of_text(v.mpu_present);
    lemma_parse_bool_of_text(v.fpu_present);
    lemma_parse_bool_of_text(v.has_vendor_systick);
    crate::parse::lemma_parse_num_of_dec(v.nvic_priority_bits as nat, u32::MAX as nat);
    assert(spec_encode_endian(v.endian).name == "endian"@);
    assert(spec_parse_cpu(e) =~~= Ok::<CpuV, SvdErrorV>(v));
}

} // verus!
