//! The `<modifiedWriteValues>` vocabulary: the side effect a write has on
//! the bits of a field.

use vstd::prelude::*;

use crate::errors::{SvdError, SvdErrorKind, SvdErrorKindV};
use crate::tree::{Element, ElementV, spec_get_text, text_elem};

verus! {

/// Side effect of writing a field.
#[derive(Clone, Copy, Debug, PartialEq, Eq, Structural)]
pub enum ModifiedWriteValues {
    OneToClear,
    OneToSet,
    OneToToggle,
    ZeroToClear,
    ZeroToSet,
    ZeroToToggle,
    Clear,
    SetAll,
    Modify,
}

/// The textual name of each variant.
pub open spec fn mwv_text(v: ModifiedWriteValues) -> Seq<char> {
    match v {
        ModifiedWriteValues::OneToClear => "oneToClear"@,
        ModifiedWriteValues::OneToSet => "oneToSet"@,
        ModifiedWriteValues::OneToToggle => "oneToToggle"@,
        ModifiedWriteValues::ZeroToClear => "zeroToClear"@,
        ModifiedWriteValues::ZeroToSet => "zeroToSet"@,
        ModifiedWriteValues::ZeroToToggle => "zeroToToggle"@,
        ModifiedWriteValues::Clear => "clear"@,
        ModifiedWriteValues::SetAll => "set"@,
        ModifiedWriteValues::Modify => "modify"@,
    }
}

/// The variant written by the element's text: the closed vocabulary, any
/// other text an `UnknownVariant` condition.
pub open spec fn spec_parse_mwv(e: ElementV) -> Result<ModifiedWriteValues, SvdErrorKindV> {
    match spec_get_text(e) {
        Err(k) => Err(k),
        Ok(t) => if t == "oneToClear"@ {
            Ok(ModifiedWriteValues::OneToClear)
        } else if t == "oneToSet"@ {
            Ok(ModifiedWriteValues::OneToSet)
        } else if t == "oneToToggle"@ {
            Ok(ModifiedWriteValues::OneToToggle)
        } else if t == "zeroToClear"@ {
            Ok(ModifiedWriteValues::ZeroToClear)
        } else if t == "zeroToSet"@ {
            Ok(ModifiedWriteValues::ZeroToSet)
        } else if t == "zeroToToggle"@ {
            Ok(ModifiedWriteValues::ZeroToToggle)
        } else if t == "clear"@ {
            Ok(ModifiedWriteValues::Clear)
        } else if t == "set"@ {
            Ok(ModifiedWriteValues::SetAll)
        } else if t == "modify"@ {
            Ok(ModifiedWriteValues::Modify)
        } else {
            Err(SvdErrorKindV::ModifiedWriteValuesVariant(t))
        },
    }
}

/// The image of an encoded write side effect: a `<modifiedWriteValues>`
/// element holding the variant's text.
pub open spec fn spec_encode_mwv(v: ModifiedWriteValues) -> ElementV {
    text_elem("modifiedWriteValues"@, mwv_text(v))
}

impl ModifiedWriteValues {
    /// Reads a write side effect from the element's text, per
    /// [`spec_parse_mwv`].
    pub fn parse(tree: &Element) -> (r: Result<ModifiedWriteValues, SvdError>)
        ensures
            match spec_parse_mwv(tree@) {
                Ok(v) => r == Ok::<ModifiedWriteValues, SvdError>(v),
                Err(k) => r matches Err(e) && e@ == crate::errors::err_of(k),
            },
    {
        let text = match tree.get_text() {
            Ok(t) => t,
            Err(e) => {
                return Err(e);
            },
        };
        if crate::tree::string_eq_str(&text, "oneToClear") {
            Ok(ModifiedWriteValues::OneToClear)
        } else if crate::tree::string_eq_str(&text, "oneToSet") {
            Ok(ModifiedWriteValues::OneToSet)
        } else if crate::tree::string_eq_str(&text, "oneToToggle") {
            Ok(ModifiedWriteValues::OneToToggle)
        } else if crate::tree::string_eq_str(&text, "zeroToClear") {
            Ok(ModifiedWriteValues::ZeroToClear)
        } else if crate::tree::string_eq_str(&text, "zeroToSet") {
            Ok(ModifiedWriteValues::ZeroToSet)
        } else if crate::tree::string_eq_str(&text, "zeroToToggle") {
            Ok(ModifiedWriteValues::ZeroToToggle)
        } else if crate::tree::string_eq_str(&text, "clear") {
            Ok(ModifiedWriteValues::Clear)
        } else if crate::tree::string_eq_str(&text, "set") {
            Ok(ModifiedWriteValues::SetAll)
        } else if crate::tree::string_eq_str(&text, "modify") {
            Ok(ModifiedWriteValues::Modify)
        } else {
            Err(SvdError::new(SvdErrorKind::ModifiedWriteValuesVariant(text)))
        }
    }

    /// Writes this side effect back as an element, per [`spec_encode_mwv`].
    pub fn encode(&self) -> (r: Element)
        ensures
            r@ == spec_encode_mwv(*self),
    {
        let text: &str = match self {
            ModifiedWriteValues::OneToClear => "oneToClear",
            ModifiedWriteValues::OneToSet => "oneToSet",
            ModifiedWriteValues::OneToToggle => "oneToToggle",
            ModifiedWriteValues::ZeroToClear => "zeroToClear",
            ModifiedWriteValues::ZeroToSet => "zeroToSet",
            ModifiedWriteValues::ZeroToToggle => "zeroToToggle",
            ModifiedWriteValues::Clear => "clear",
            ModifiedWriteValues::SetAll => "set",
            ModifiedWriteValues::Modify => "modify",
        };
        Element::text_child("modifiedWriteValues", text.to_owned())
    }
}

/// Reading back an encoded write side effect yields the value encoded.
pub proof fn lemma_mwv_round_trip(v: ModifiedWriteValues)
    ensures
        spec_parse_mwv(spec_encode_mwv(v)) == Ok::<ModifiedWriteValues, SvdErrorKindV>(v),
{
    reveal_strlit("oneToClear");
    reveal_strlit("oneToSet");
    reveal_strlit("oneToToggle");
    reveal_strlit("zeroToClear");
    reveal_strlit("zeroToSet");
    reveal_strlit("zeroToToggle");
    reveal_strlit("clear");
    reveal_strlit("set");
    reveal_strlit("modify");
    assert("oneToClear"@.len() == 10 && "oneToSet"@.len() == 8 && "oneToToggle"@.len() == 11
        && "zeroToClear"@.len() == 11 && "zeroToSet"@.len() == 9 && "zeroToToggle"@.len() == 12
        && "clear"@.len() == 5 && "set"@.len() == 3 && "modify"@.len() == 6);
    assert("oneToToggle"@[0] == 'o' && "zeroToClear"@[0] == 'z');
}

} // verus!
