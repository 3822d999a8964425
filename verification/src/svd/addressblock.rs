//! An address block of a peripheral: the offset, size and usage of one
//! region of its address space.

use vstd::prelude::*;

use crate::encode::{hex_digits_upper, with_0x, fmt_hex_0x_upper, lemma_hex_digits,
    lemma_parse_num_of_hex};
use crate::errors::{err_of, SvdError, SvdErrorKindV, SvdErrorV, ConvType};
use crate::tree::{Element, ElementV, spec_child_num, spec_child_text, text_elem};

verus! {

/// One region of a peripheral's address space.
#[derive(Clone, Debug, PartialEq)]
pub struct AddressBlock {
    /// Start of the region, relative to the peripheral's base address.
    pub offset: u32,
    /// Number of addresses in the region.
    pub size: u32,
    /// What the region is used for, such as `registers`.
    pub usage: String,
}

/// Mathematical image of an [`AddressBlock`].
#[verifier::ext_equal]
pub struct AddressBlockV {
    pub offset: u32,
    pub size: u32,
    pub usage: Seq<char>,
}

impl View for AddressBlock {
    type V = AddressBlockV;

    open spec fn view(&self) -> AddressBlockV {
        AddressBlockV { offset: self.offset, size: self.size, usage: self.usage@ }
    }
}

/// The address block written by the children of `e`: numeric `offset` and
/// `size`, textual `usage`.
pub open spec fn spec_parse_address_block(e: ElementV) -> Result<AddressBlockV, SvdErrorV> {
    match spec_child_num(e, "offset"@, u32::MAX as nat, ConvType::U32) {
        Err(k) => Err(err_of(k)),
        Ok(offset) => match spec_child_num(e, "size"@, u32::MAX as nat, ConvType::U32) {
            Err(k) => Err(err_of(k)),
            Ok(size) => match spec_child_text(e, "usage"@) {
                Err(k) => Err(err_of(k)),
                Ok(usage) => Ok(
                    AddressBlockV { offset: offset as u32, size: size as u32, usage: usage },
                ),
            },
        },
    }
}

/// The image of an encoded address block: offset and size in prefixed
/// hexadecimal, usage as text.
pub open spec fn spec_encode_address_block(v: AddressBlockV) -> ElementV {
    ElementV {
        name: "addressBlock"@,
        attributes: Seq::empty(),
        children: seq![
            text_elem("offset"@, with_0x(hex_digits_upper(v.offset as nat))),
            text_elem("size"@, with_0x(hex_digits_upper(v.size as nat))),
            text_elem("usage"@, v.usage),
        ],
        text: None,
    }
}

impl AddressBlock {
    /// Reads an address block from an element, per
    /// [`spec_parse_address_block`].
    pub fn parse(tree: &Element) -> (r: Result<AddressBlock, SvdError>)
        ensures
            match spec_parse_address_block(tree@) {
                Ok(v) => r matches Ok(a) && a@ == v,
                Err(e) => r matches Err(x) && x@ == e,
            },
    {
        let offset = match tree.get_child_u32("offset") {
            Ok(v) => v,
            Err(e) => {
                return Err(e);
            },
        };
        let size = match tree.get_child_u32("size") {
            Ok(v) => v,
            Err(e) => {
                return Err(e);
            },
        };
        let usage = match tree.get_child_text("usage") {
            Ok(v) => v,
            Err(e) => {
                return Err(e);
            },
        };
        Ok(AddressBlock { offset, size, usage })
    }

    /// Writes this address block back as an element, per
    /// [`spec_encode_address_block`].
    pub fn encode(&self) -> (r: Element)
        ensures
            r@ == spec_encode_address_block(self@),
    {
        let mut e = Element::new("addressBlock", None);
        e.push_text_child("offset", fmt_hex_0x_upper(self.offset as u64));
        e.push_text_child("size", fmt_hex_0x_upper(self.size as u64));
        e.push_text_child("usage", self.usage.clone());
        proof {
            assert(e@.children =~= spec_encode_address_block(self@).children);
            assert(e@ =~~= spec_encode_address_block(self@));
        }
        e
    }
}

/// Reading back an encoded address block yields the value encoded: the
/// address block round trip.
pub proof fn lemma_address_block_round_trip(v: AddressBlockV)
    ensures
        spec_parse_address_block(spec_encode_address_block(v)) == Ok::<AddressBlockV, SvdErrorV>(v),
{
    let e = spec_encode_address_block(v);
    reveal_strlit("offset");
    reveal_strlit("size");
    reveal_strlit("usage");
    assert("offset"@.len() == 6 && "size"@.len() == 4 && "usage"@.len() == 5);
    assert("offset"@[0] == 'o' && "size"@[0] == 's' && "usage"@[0] == 'u');
    assert(e.children[0].name == "offset"@ && e.children[1].name == "size"@ && e.children[2].name
        == "usage"@);
    crate::tree::lemma_first_child_index(e.children, "offset"@);
    crate::tree::lemma_first_child_index(e.children, "size"@);
    crate::tree::lemma_first_child_index(e.children, "usage"@);
    lemma_hex_digits(v.offset as nat);
    lemma_hex_digits(v.size as nat);
    lemma_parse_num_of_hex(with_0x(hex_digits_upper(v.offset as nat)), v.offset as nat,
        u32::MAX as nat);
    lemma_parse_num_of_hex(with_0x(hex_digits_upper(v.size as nat)), v.size as nat,
        u32::MAX as nat);
    assert(spec_parse_address_block(e) =~~= Ok::<AddressBlockV, SvdErrorV>(v));
}

} // verus!
