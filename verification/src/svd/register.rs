//! A `<register>` child of a peripheral or cluster: either a single
//! register or a dimensioned template awaiting expansion.

use vstd::prelude::*;

use crate::errors::{err_in, ctx_text, make_ctx, SvdError, SvdErrorV};
use crate::svd::dimelement::{DimElement, DimElementV, spec_parse_dim_element,
    spec_encode_dim_element};
use crate::svd::registerinfo::{RegisterInfo, RegisterInfoV, spec_parse_register_info,
    spec_encode_register_info};
use crate::tree::{Element, ElementV, spec_get_child};

verus! {

/// One register child: single, or an array template.
#[derive(Clone, Debug, PartialEq)]
pub enum Register {
    Single(RegisterInfo),
    Array(RegisterInfo, DimElement),
}

/// Mathematical image of a [`Register`].
#[verifier::ext_equal]
pub enum RegisterV {
    Single(RegisterInfoV),
    Array(RegisterInfoV, DimElementV),
}

impl View for Register {
    type V = RegisterV;

    open spec fn view(&self) -> RegisterV {
        match self {
            Register::Single(i) => RegisterV::Single(i@),
            Register::Array(i, d) => RegisterV::Array(i@, d@),
        }
    }
}

impl Register {
    /// A well-formed register child holds a well-formed register.
    pub open spec fn wf(self) -> bool {
        match self {
            Register::Single(i) => i.wf(),
            Register::Array(i, _) => i.wf(),
        }
    }
}

/// The register child written by `e`: the register itself, and an array
/// template exactly when a `<dim>` child is present; a failing dimension is
/// wrapped by the register's name.
pub open spec fn spec_parse_register(e: ElementV) -> Result<RegisterV, SvdErrorV> {
    match spec_parse_register_info(e) {
        Err(x) => Err(x),
        Ok(ri) => if spec_get_child(e, "dim"@) is Some {
            match spec_parse_dim_element(e) {
                Err(x) => Err(err_in(x, ctx_text("In register `"@, ri.name))),
                Ok(d) => Ok(RegisterV::Array(ri, d)),
            }
        } else {
            Ok(RegisterV::Single(ri))
        },
    }
}

/// The image of an encoded register child: the register element, with the
/// dimension entries appended for an array template.
pub open spec fn spec_encode_register(v: RegisterV) -> ElementV {
    match v {
        RegisterV::Single(i) => spec_encode_register_info(i),
        RegisterV::Array(i, d) => {
            let base = spec_encode_register_info(i);
            ElementV { children: base.children + spec_encode_dim_element(d).children, ..base }
        },
    }
}

impl Register {
    /// Reads a register child from a `<register>` element, per
    /// [`spec_parse_register`]; every register read is well formed.
    pub fn parse(tree: &Element) -> (r: Result<Register, SvdError>)
        ensures
            match spec_parse_register(tree@) {
                Ok(v) => r matches Ok(x) && x@ == v && x.wf(),
                Err(e) => r matches Err(x) && x@ == e,
            },
    {
        let info = match RegisterInfo::parse(tree) {
            Ok(i) => i,
            Err(e) => {
                return Err(e);
            },
        };
        if tree.get_child("dim").is_some() {
            match DimElement::parse(tree) {
                Ok(d) => Ok(Register::Array(info, d)),
                Err(e) => Err(e.in_context(make_ctx("In register `", &info.name))),
            }
        } else {
            Ok(Register::Single(info))
        }
    }

    /// Writes this register child back as an element, per
    /// [`spec_encode_register`].
    pub fn encode(&self) -> (r: Element)
        requires
            self.wf(),
        ensures
            r@ == spec_encode_register(self@),
    {
        match self {
            Register::Single(i) => i.encode(),
            Register::Array(i, d) => {
                let mut e = i.encode();
                let dims = d.encode();
                proof {
                    assert(dims.children@.map_values(|c: Element| c@) =~= dims@.children);
                }
                e.append_children(dims.children);
                proof {
                    assert(e@ =~~= spec_encode_register(self@));
                }
                e
            },
        }
    }
}

} // verus!
