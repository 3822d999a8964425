//! The `<endian>` vocabulary of a processor description.

use vstd::prelude::*;

use crate::errors::{SvdError, SvdErrorKind, SvdErrorKindV, EndianVariantError};
use crate::tree::{Element, ElementV, spec_get_text, text_elem};

verus! {

/// Byte order of the processor.
#[derive(Clone, Copy, Debug, PartialEq, Eq, Structural)]
pub enum Endian {
    Little,
    Big,
    Selectable,
    Other,
}

/// The textual name of each variant.
pub open spec fn endian_text(e: Endian) -> Seq<char> {
    match e {
        Endian::Little => "little"@,
        Endian::Big => "big"@,
        Endian::Selectable => "selectable"@,
        Endian::Other => "other"@,
    }
}

/// The variant written by the element's text: the closed vocabulary, any
/// other text an `UnknownVariant` condition.
pub open spec fn spec_parse_endian(e: ElementV) -> Result<Endian, SvdErrorKindV> {
    match spec_get_text(e) {
        Err(k) => Err(k),
        Ok(t) => if t == "little"@ {
            Ok(Endian::Little)
        } else if t == "big"@ {
            Ok(Endian::Big)
        } else if t == "selectable"@ {
            Ok(Endian::Selectable)
        } else if t == "other"@ {
            Ok(Endian::Other)
        } else {
            Err(SvdErrorKindV::Endian(t))
        },
    }
}

/// The image of an encoded endianness: an `<endian>` element holding the
/// variant's text.
pub open spec fn spec_encode_endian(e: Endian) -> ElementV {
    text_elem("endian"@, endian_text(e))
}

impl Endian {
    /// Reads an endianness from the element's text, per [`spec_parse_endian`].
    pub fn parse(tree: &Element) -> (r: Result<Endian, SvdError>)
        ensures
            match spec_parse_endian(tree@) {
                Ok(v) => r == Ok::<Endian, SvdError>(v),
                Err(k) => r matches Err(e) && e@ == crate::errors::err_of(k),
            },
    {
        let text = match tree.get_text() {
            Ok(t) => t,
            Err(e) => {
                return Err(e);
            },
        };
        if crate::tree::string_eq_str(&text, "little") {
            Ok(Endian::Little)
        } else if crate::tree::string_eq_str(&text, "big") {
            Ok(Endian::Big)
        } else if crate::tree::string_eq_str(&text, "selectable") {
            Ok(Endian::Selectable)
        } else if crate::tree::string_eq_str(&text, "other") {
            Ok(Endian::Other)
        } else {
            Err(SvdError::new(SvdErrorKind::Endian(EndianVariantError(text))))
        }
    }

    /// Writes this endianness back as an element, per [`spec_encode_endian`].
    pub fn encode(&self) -> (r: Element)
        ensures
            r@ == spec_encode_endian(*self),
    {
        match self {
            Endian::Little => Element::text_child("endian", "little".to_owned()),
            Endian::Big => Element::text_child("endian", "big".to_owned()),
            Endian::Selectable => Element::text_child("endian", "selectable".to_owned()),
            Endian::Other => Element::text_child("endian", "other".to_owned()),
        }
    }
}

/// Reading back an encoded endianness yields the value encoded.
pub proof fn lemma_endian_round_trip(e: Endian)
    ensures
        spec_parse_endian(spec_encode_endian(e)) == Ok::<Endian, SvdErrorKindV>(e),
{
    reveal_strlit("little");
    reveal_strlit("big");
    reveal_strlit("selectable");
    reveal_strlit("other");
    assert("little"@.len() == 6 && "big"@.len() == 3 && "selectable"@.len() == 10 && "other"@.len()
        == 5);
    assert("little"@[0] == 'l' && "other"@[0] == 'o');
}

} // verus!
