//! The `<access>` vocabulary: who may read or write a register or field.

use vstd::prelude::*;

use crate::errors::{SvdError, SvdErrorKind, SvdErrorKindV, AccessVariantError};
use crate::tree::{Element, ElementV, spec_get_text, text_elem};

verus! {

/// Permitted access to a register or field.
#[derive(Clone, Copy, Debug, PartialEq, Eq, Structural)]
pub enum Access {
    ReadOnly,
    ReadWrite,
    ReadWriteOnce,
    WriteOnce,
    WriteOnly,
}

/// The textual name of each variant.
pub open spec fn access_text(a: Access) -> Seq<char> {
    match a {
        Access::ReadOnly => "read-only"@,
        Access::ReadWrite => "read-write"@,
        Access::ReadWriteOnce => "read-writeOnce"@,
        Access::WriteOnce => "writeOnce"@,
        Access::WriteOnly => "write-only"@,
    }
}

/// The variant written by the element's text: the closed vocabulary, any
/// other text an `UnknownVariant` condition.
pub open spec fn spec_parse_access(e: ElementV) -> Result<Access, SvdErrorKindV> {
    match spec_get_text(e) {
        Err(k) => Err(k),
        Ok(t) => if t == "read-only"@ {
            Ok(Access::ReadOnly)
        } else if t == "read-write"@ {
            Ok(Access::ReadWrite)
        } else if t == "read-writeOnce"@ {
            Ok(Access::ReadWriteOnce)
        } else if t == "writeOnce"@ {
            Ok(Access::WriteOnce)
        } else if t == "write-only"@ {
            Ok(Access::WriteOnly)
        } else {
            Err(SvdErrorKindV::Access(t))
        },
    }
}

/// The image of an encoded access: an `<access>` element holding the
/// variant's text.
pub open spec fn spec_encode_access(a: Access) -> ElementV {
    text_elem("access"@, access_text(a))
}

impl Access {
    /// Reads an access mode from the element's text, per
    /// [`spec_parse_access`].
    pub fn parse(tree: &Element) -> (r: Result<Access, SvdError>)
        ensures
            match spec_parse_access(tree@) {
                Ok(v) => r == Ok::<Access, SvdError>(v),
                Err(k) => r matches Err(e) && e@ == crate::errors::err_of(k),
            },
    {
        let text = match tree.get_text() {
            Ok(t) => t,
            Err(e) => {
                return Err(e);
            },
        };
        if crate::tree::string_eq_str(&text, "read-only") {
            Ok(Access::ReadOnly)
        } else if crate::tree::string_eq_str(&text, "read-write") {
            Ok(Access::ReadWrite)
        } else if crate::tree::string_eq_str(&text, "read-writeOnce") {
            Ok(Access::ReadWriteOnce)
        } else if crate::tree::string_eq_str(&text, "writeOnce") {
            Ok(Access::WriteOnce)
        } else if crate::tree::string_eq_str(&text, "write-only") {
            Ok(Access::WriteOnly)
        } else {
            Err(SvdError::new(SvdErrorKind::Access(AccessVariantError(text))))
        }
    }

    /// Writes this access mode back as an element, per
    /// [`spec_encode_access`].
    pub fn encode(&self) -> (r: Element)
        ensures
            r@ == spec_encode_access(*self),
    {
        match self {
            Access::ReadOnly => Element::text_child("access", "read-only".to_owned()),
            Access::ReadWrite => Element::text_child("access", "read-write".to_owned()),
            Access::ReadWriteOnce => Element::text_child("access", "read-writeOnce".to_owned()),
            Access::WriteOnce => Element::text_child("access", "writeOnce".to_owned()),
            Access::WriteOnly => Element::text_child("access", "write-only".to_owned()),
        }
    }
}

/// Reading back an encoded access mode yields the value encoded.
pub proof fn lemma_access_round_trip(a: Access)
    ensures
        spec_parse_access(spec_encode_access(a)) == Ok::<Access, SvdErrorKindV>(a),
{
    reveal_strlit("read-only");
    reveal_strlit("read-write");
    reveal_strlit("read-writeOnce");
    reveal_strlit("writeOnce");
    reveal_strlit("write-only");
    assert("read-only"@.len() == 9 && "read-write"@.len() == 10 && "read-writeOnce"@.len() == 14
        && "writeOnce"@.len() == 9 && "write-only"@.len() == 10);
    assert("read-only"@[0] == 'r' && "read-write"@[0] == 'r' && "writeOnce"@[0] == 'w'
        && "write-only"@[0] == 'w');
}

} // verus!
