//! A `<field>` child of a register: either a single field or a dimensioned
//! template awaiting expansion.

use vstd::prelude::*;

use crate::errors::{err_in, ctx_text, make_ctx, SvdError, SvdErrorV};
use crate::svd::dimelement::{DimElement, DimElementV, spec_parse_dim_element,
    spec_encode_dim_element};
use crate::svd::fieldinfo::{FieldInfo, FieldInfoV, spec_parse_field_info, spec_encode_field_info};
use crate::tree::{Element, ElementV, spec_get_child};

verus! {

/// One field child: single, or an array template.
#[derive(Clone, Debug, PartialEq)]
pub enum Field {
    Single(FieldInfo),
    Array(FieldInfo, DimElement),
}

/// Mathematical image of a [`Field`].
#[verifier::ext_equal]
pub enum FieldV {
    Single(FieldInfoV),
    Array(FieldInfoV, DimElementV),
}

impl View for Field {
    type V = FieldV;

    open spec fn view(&self) -> FieldV {
        match self {
            Field::Single(i) => FieldV::Single(i@),
            Field::Array(i, d) => FieldV::Array(i@, d@),
        }
    }
}

impl Field {
    /// A well-formed field child holds a well-formed bit range.
    pub open spec fn wf(self) -> bool {
        match self {
            Field::Single(i) => i.wf(),
            Field::Array(i, _) => i.wf(),
        }
    }
}

/// The field child written by `e`: the field itself, and an array template
/// exactly when a `<dim>` child is present; a failing dimension is wrapped
/// by the field's name.
pub open spec fn spec_parse_field(e: ElementV) -> Result<FieldV, SvdErrorV> {
    match spec_parse_field_info(e) {
        Err(x) => Err(x),
        Ok(fi) => if spec_get_child(e, "dim"@) is Some {
            match spec_parse_dim_element(e) {
                Err(x) => Err(err_in(x, ctx_text("In field `"@, fi.name))),
                Ok(d) => Ok(FieldV::Array(fi, d)),
            }
        } else {
            Ok(FieldV::Single(fi))
        },
    }
}

/// The image of an encoded field child: the field element, with the
/// dimension entries appended for an array template.
pub open spec fn spec_encode_field(v: FieldV) -> ElementV {
    match v {
        FieldV::Single(i) => spec_encode_field_info(i),
        FieldV::Array(i, d) => {
            let base = spec_encode_field_info(i);
            ElementV {
                children: base.children + spec_encode_dim_element(d).children,
                ..base
            }
        },
    }
}

impl Field {
    /// Reads a field child from a `<field>` element, per
    /// [`spec_parse_field`]; every field read is well formed.
    pub fn parse(tree: &Element) -> (r: Result<Field, SvdError>)
        ensures
            match spec_parse_field(tree@) {
                Ok(v) => r matches Ok(f) && f@ == v && f.wf(),
                Err(e) => r matches Err(x) && x@ == e,
            },
    {
        let info = match FieldInfo::parse(tree) {
            Ok(i) => i,
            Err(e) => {
                return Err(e);
            },
        };
        if tree.get_child("dim").is_some() {
            match DimElement::parse(tree) {
                Ok(d) => Ok(Field::Array(info, d)),
                Err(e) => Err(e.in_context(make_ctx("In field `", &info.name))),
            }
        } else {
            Ok(Field::Single(info))
        }
    }

    /// Writes this field child back as an element, per
    /// [`spec_encode_field`].
    pub fn encode(&self) -> (r: Element)
        requires
            self.wf(),
        ensures
            r@ == spec_encode_field(self@),
    {
        match self {
            Field::Single(i) => i.encode(),
            Field::Array(i, d) => {
                let mut e = i.encode();
                let dims = d.encode();
                proof {
                    assert(dims.children@.map_values(|c: Element| c@) =~= dims@.children);
                }
                e.append_children(dims.children);
                proof {
                    assert(e@ =~~= spec_encode_field(self@));
                }
                e
            },
        }
    }
}

} // verus!
