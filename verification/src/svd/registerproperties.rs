//! The four inheritable register properties: size, access mode, reset
//! value and reset mask, each optional until inheritance resolves it.
//!
//! The resolver folds a parent's effective properties with an element's own
//! overrides, one containment edge at a time; an override wins, an unset
//! field inherits, and a field neither sets stays unset.

use vstd::prelude::*;

use crate::encode::{hex_digits_lower, with_0x, zero_pad, fmt_hex_0x_pad8_lower};
use crate::errors::{err_of, SvdError, SvdErrorKind, SvdErrorKindV, SvdErrorV, ConvType};
use crate::parse::{dec_digits, fmt_dec};
use crate::svd::access::{Access, spec_parse_access, spec_encode_access};
use crate::tree::{Element, ElementV, spec_get_child, spec_opt_child_num, text_elem};

verus! {

/// Register properties, each field set only by an explicit override.
#[derive(Clone, Copy, Debug, PartialEq, Eq, Default)]
pub struct RegisterProperties {
    /// Bit width of a register.
    pub size: Option<u32>,
    /// Access permission.
    pub access: Option<Access>,
    /// Register value after reset.
    pub reset_value: Option<u64>,
    /// Which bits of the reset value are defined.
    pub reset_mask: Option<u64>,
}

/// The effective properties one containment edge down: each field of `own`
/// wins where set, else the parent's effective value is inherited, else the
/// field stays unset.
pub open spec fn spec_resolve(parent: RegisterProperties, own: RegisterProperties)
    -> RegisterProperties {
    RegisterProperties {
        size: if own.size is Some {
            own.size
        } else {
            parent.size
        },
        access: if own.access is Some {
            own.access
        } else {
            parent.access
        },
        reset_value: if own.reset_value is Some {
            own.reset_value
        } else {
            parent.reset_value
        },
        reset_mask: if own.reset_mask is Some {
            own.reset_mask
        } else {
            parent.reset_mask
        },
    }
}

/// The `<access>` child of `e` when present; a present child must hold a
/// known word.
pub open spec fn spec_opt_child_access(e: ElementV) -> Result<Option<Access>, SvdErrorKindV> {
    match spec_get_child(e, "access"@) {
        None => Ok(None),
        Some(c) => match spec_parse_access(c) {
            Ok(a) => Ok(Some(a)),
            Err(k) => Err(k),
        },
    }
}

/// The property overrides written by the children of `e`: optional `size`,
/// `access`, `resetValue` and `resetMask` read off any element that embeds
/// them.
pub open spec fn spec_parse_register_properties(e: ElementV) -> Result<
    RegisterProperties,
    SvdErrorV,
> {
    match spec_opt_child_num(e, "size"@, u32::MAX as nat, ConvType::U32) {
        Err(k) => Err(err_of(k)),
        Ok(size) => match spec_opt_child_access(e) {
            Err(k) => Err(err_of(k)),
            Ok(access) => match spec_opt_child_num(
                e,
                "resetValue"@,
                u64::MAX as nat,
                ConvType::U64,
            ) {
                Err(k) => Err(err_of(k)),
                Ok(rv) => match spec_opt_child_num(
                    e,
                    "resetMask"@,
                    u64::MAX as nat,
                    ConvType::U64,
                ) {
                    Err(k) => Err(err_of(k)),
                    Ok(rm) => Ok(
                        RegisterProperties {
                            size: match size {
                                Some(v) => Some(v as u32),
                                None => None,
                            },
                            access: access,
                            reset_value: match rv {
                                Some(v) => Some(v as u64),
                                None => None,
                            },
                            reset_mask: match rm {
                                Some(v) => Some(v as u64),
                                None => None,
                            },
                        },
                    ),
                },
            },
        },
    }
}

/// The images of encoded properties: one child per set field, in the fixed
/// order size, access, resetValue, resetMask.
pub open spec fn spec_encode_register_properties(p: RegisterProperties) -> Seq<ElementV> {
    (match p.size {
        Some(v) => seq![text_elem("size"@, dec_digits(v as nat))],
        None => Seq::empty(),
    }) + (match p.access {
        Some(a) => seq![spec_encode_access(a)],
        None => Seq::empty(),
    }) + (match p.reset_value {
        Some(v) => seq![text_elem("resetValue"@, with_0x(zero_pad(hex_digits_lower(v as nat), 8)))],
        None => Seq::empty(),
    }) + (match p.reset_mask {
        Some(v) => seq![text_elem("resetMask"@, with_0x(zero_pad(hex_digits_lower(v as nat), 8)))],
        None => Seq::empty(),
    })
}

impl RegisterProperties {
    /// Reads the property overrides of an element, per
    /// [`spec_parse_register_properties`].
    pub fn parse(tree: &Element) -> (r: Result<RegisterProperties, SvdError>)
        ensures
            match spec_parse_register_properties(tree@) {
                Ok(v) => r == Ok::<RegisterProperties, SvdError>(v),
                Err(e) => r matches Err(x) && x@ == e,
            },
    {
        let size = match tree.get_child_u32_opt("size") {
            Ok(v) => v,
            Err(e) => {
                return Err(e);
            },
        };
        let access = match tree.get_child("access") {
            None => None,
            Some(c) => match Access::parse(c) {
                Ok(a) => Some(a),
                Err(e) => {
                    return Err(e);
                },
            },
        };
        let reset_value = match tree.get_child_u64_opt("resetValue") {
            Ok(v) => v,
            Err(e) => {
                return Err(e);
            },
        };
        let reset_mask = match tree.get_child_u64_opt("resetMask") {
            Ok(v) => v,
            Err(e) => {
                return Err(e);
            },
        };
        Ok(RegisterProperties { size, access, reset_value, reset_mask })
    }

    /// Folds these overrides over the parent's effective properties, per
    /// [`spec_resolve`].
    pub fn resolve(parent: &RegisterProperties, own: &RegisterProperties) -> (r:
        RegisterProperties)
        ensures
            r == spec_resolve(*parent, *own),
    {
        RegisterProperties {
            size: match own.size {
                Some(v) => Some(v),
                None => parent.size,
            },
            access: match own.access {
                Some(a) => Some(a),
                None => parent.access,
            },
            reset_value: match own.reset_value {
                Some(v) => Some(v),
                None => parent.reset_value,
            },
            reset_mask: match own.reset_mask {
                Some(v) => Some(v),
                None => parent.reset_mask,
            },
        }
    }

    /// Whether every field a downstream consumer needs is concretely set.
    pub open spec fn is_effective(self) -> bool {
        self.size is Some && self.access is Some
    }

    /// Demands that resolution has left no mandatory field unset: `Ok`
    /// exactly when size and access are set, `UnresolvedProperty` naming
    /// the first missing field otherwise.
    pub fn ensure_effective(&self) -> (r: Result<(), SvdError>)
        ensures
            match r {
                Ok(()) => self.is_effective(),
                Err(e) => !self.is_effective() && (if self.size is None {
                    e@ == err_of(SvdErrorKindV::UnresolvedProperty("size"@))
                } else {
                    e@ == err_of(SvdErrorKindV::UnresolvedProperty("access"@))
                }),
            },
    {
        if self.size.is_none() {
            Err(SvdError::new(SvdErrorKind::UnresolvedProperty("size".to_owned())))
        } else if self.access.is_none() {
            Err(SvdError::new(SvdErrorKind::UnresolvedProperty("access".to_owned())))
        } else {
            Ok(())
        }
    }

    /// Writes the set fields back as children, per
    /// [`spec_encode_register_properties`].
    pub fn encode(&self) -> (r: Vec<Element>)
        ensures
            r@.map_values(|e: Element| e@) == spec_encode_register_properties(*self),
    {
        let mut out: Vec<Element> = Vec::new();
        match self.size {
            Some(v) => {
                out.push(Element::text_child("size", fmt_dec(v as u64)));
            },
            None => {},
        }
        match self.access {
            Some(a) => {
                out.push(a.encode());
            },
            None => {},
        }
        match self.reset_value {
            Some(v) => {
                out.push(Element::text_child("resetValue", fmt_hex_0x_pad8_lower(v)));
            },
            None => {},
        }
        match self.reset_mask {
            Some(v) => {
                out.push(Element::text_child("resetMask", fmt_hex_0x_pad8_lower(v)));
            },
            None => {},
        }
        proof {
            assert(out@.map_values(|e: Element| e@) =~= spec_encode_register_properties(*self));
        }
        out
    }
}

/// Resolving against the same parent twice changes nothing after the first
/// time: property inheritance is idempotent, and resolving an already
/// resolved element is a no-op.
pub proof fn lemma_resolve_idempotent(parent: RegisterProperties, own: RegisterProperties)
    ensures
        spec_resolve(parent, spec_resolve(parent, own)) == spec_resolve(parent, own),
{
}

/// An element with no overrides of its own inherits the parent's effective
/// properties unchanged.
pub proof fn lemma_resolve_default(parent: RegisterProperties)
    ensures
        spec_resolve(parent, RegisterProperties { size: None, access: None, reset_value: None,
            reset_mask: None }) == parent,
{
}

} // verus!
