//! The `<usage>` vocabulary of an enumeration set: read, write, or both.

use vstd::prelude::*;

use crate::errors::{SvdError, SvdErrorKind, SvdErrorKindV, UsageVariantError};
use crate::tree::{Element, ElementV, spec_get_text, text_elem};

verus! {

/// What an enumeration set applies to.
#[derive(Clone, Copy, Debug, PartialEq, Eq, Structural)]
pub enum Usage {
    Read,
    Write,
    ReadWrite,
}

/// The textual name of each variant.
pub open spec fn usage_text(u: Usage) -> Seq<char> {
    match u {
        Usage::Read => "read"@,
        Usage::Write => "write"@,
        Usage::ReadWrite => "read-write"@,
    }
}

/// The variant written by the element's text: the closed vocabulary, any
/// other text an `UnknownVariant` condition.
pub open spec fn spec_parse_usage(e: ElementV) -> Result<Usage, SvdErrorKindV> {
    match spec_get_text(e) {
        Err(k) => Err(k),
        Ok(t) => if t == "read"@ {
            Ok(Usage::Read)
        } else if t == "write"@ {
            Ok(Usage::Write)
        } else if t == "read-write"@ {
            Ok(Usage::ReadWrite)
        } else {
            Err(SvdErrorKindV::Usage(t))
        },
    }
}

/// The image of an encoded usage: a `<usage>` element holding the variant's
/// text.
pub open spec fn spec_encode_usage(u: Usage) -> ElementV {
    text_elem("usage"@, usage_text(u))
}

impl Usage {
    /// Reads a usage from the element's text, per [`spec_parse_usage`].
    pub fn parse(tree: &Element) -> (r: Result<Usage, SvdError>)
        ensures
            match spec_parse_usage(tree@) {
                Ok(u) => r == Ok::<Usage, SvdError>(u),
                Err(k) => r matches Err(e) && e@ == crate::errors::err_of(k),
            },
    {
        let text = match tree.get_text() {
            Ok(t) => t,
            Err(e) => {
                return Err(e);
            },
        };
        if crate::tree::string_eq_str(&text, "read") {
            Ok(Usage::Read)
        } else if crate::tree::string_eq_str(&text, "write") {
            Ok(Usage::Write)
        } else if crate::tree::string_eq_str(&text, "read-write") {
            Ok(Usage::ReadWrite)
        } else {
            Err(SvdError::new(SvdErrorKind::Usage(UsageVariantError(text))))
        }
    }

    /// Writes this usage back as an element, per [`spec_encode_usage`].
    pub fn encode(&self) -> (r: Element)
        ensures
            r@ == spec_encode_usage(*self),
    {
        match self {
            Usage::Read => Element::text_child("usage", "read".to_owned()),
            Usage::Write => Element::text_child("usage", "write".to_owned()),
            Usage::ReadWrite => Element::text_child("usage", "read-write".to_owned()),
        }
    }
}

/// Reading back an encoded usage yields the value encoded: the usage
/// round trip.
pub proof fn lemma_usage_round_trip(u: Usage)
    ensures
        spec_parse_usage(spec_encode_usage(u)) == Ok::<Usage, SvdErrorKindV>(u),
{
    reveal_strlit("read");
    reveal_strlit("write");
    reveal_strlit("read-write");
    assert("read"@.len() == 4 && "write"@.len() == 5 && "read-write"@.len() == 10);
}

} // verus!
