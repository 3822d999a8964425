//! One `<field>`: a named bit range of a register with its own access
//! semantics.

use vstd::prelude::*;

use crate::errors::{err_in, err_of, ctx_text, make_ctx, SvdError, SvdErrorKind, SvdErrorKindV,
    SvdErrorV};
use crate::svd::access::{Access, spec_encode_access};
use crate::svd::bitrange::{BitRange, spec_parse_bit_range, spec_encode_bit_range};
use crate::svd::enumeratedvalues::{EnumeratedValues, EnumeratedValuesV,
    spec_parse_enumerated_values, spec_encode_enumerated_values};
use crate::svd::modifiedwritevalues::{ModifiedWriteValues, spec_parse_mwv, spec_encode_mwv};
use crate::svd::writeconstraint::{WriteConstraint, spec_parse_write_constraint,
    spec_encode_write_constraint};
use crate::tree::{Element, ElementV, opt_text, spec_get_child, spec_child_text,
    spec_child_text_opt, text_elem};

verus! {

/// A named bit range of a register.
#[derive(Clone, Debug, PartialEq)]
pub struct FieldInfo {
    /// The field's name, unique within its register.
    pub name: String,
    /// Describes the field.
    pub description: Option<String>,
    /// The bits the field occupies.
    pub bit_range: BitRange,
    /// Access override for this field.
    pub access: Option<Access>,
    /// Side effect of writing the field.
    pub modified_write_values: Option<ModifiedWriteValues>,
    /// Allowed write values.
    pub write_constraint: Option<WriteConstraint>,
    /// The values the field may hold.
    pub enumerated_values: Option<EnumeratedValues>,
}

/// Mathematical image of a [`FieldInfo`].
#[verifier::ext_equal]
pub struct FieldInfoV {
    pub name: Seq<char>,
    pub description: Option<Seq<char>>,
    pub bit_range: BitRange,
    pub access: Option<Access>,
    pub modified_write_values: Option<ModifiedWriteValues>,
    pub write_constraint: Option<WriteConstraint>,
    pub enumerated_values: Option<EnumeratedValuesV>,
}

/// The view of an optional enumeration set.
pub open spec fn opt_ev_view(o: Option<EnumeratedValues>) -> Option<EnumeratedValuesV> {
    match o {
        Some(v) => Some(v@),
        None => None,
    }
}

impl View for FieldInfo {
    type V = FieldInfoV;

    open spec fn view(&self) -> FieldInfoV {
        FieldInfoV {
            name: self.name@,
            description: opt_text(self.description),
            bit_range: self.bit_range,
            access: self.access,
            modified_write_values: self.modified_write_values,
            write_constraint: self.write_constraint,
            enumerated_values: opt_ev_view(self.enumerated_values),
        }
    }
}

impl FieldInfo {
    /// A well-formed field holds a well-formed bit range.
    pub open spec fn wf(self) -> bool {
        self.bit_range.wf()
    }
}

/// A builder for [`FieldInfo`]: `name` and `bit_range` are required.
#[derive(Clone, Debug, PartialEq, Default)]
pub struct FieldInfoBuilder {
    pub name: Option<String>,
    pub description: Option<String>,
    pub bit_range: Option<BitRange>,
    pub access: Option<Access>,
    pub modified_write_values: Option<ModifiedWriteValues>,
    pub write_constraint: Option<WriteConstraint>,
    pub enumerated_values: Option<EnumeratedValues>,
}

impl FieldInfoBuilder {
    /// Sets the name.
    pub fn name(self, value: String) -> (r: Self)
        ensures
            r == (Self { name: Some(value), ..self }),
    {
        Self { name: Some(value), ..self }
    }

    /// Sets the description.
    pub fn description(self, value: Option<String>) -> (r: Self)
        ensures
            r == (Self { description: value, ..self }),
    {
        Self { description: value, ..self }
    }

    /// Sets the bit range.
    pub fn bit_range(self, value: BitRange) -> (r: Self)
        ensures
            r == (Self { bit_range: Some(value), ..self }),
    {
        Self { bit_range: Some(value), ..self }
    }

    /// Sets the access override.
    pub fn access(self, value: Option<Access>) -> (r: Self)
        ensures
            r == (Self { access: value, ..self }),
    {
        Self { access: value, ..self }
    }

    /// Sets the write side effect.
    pub fn modified_write_values(self, value: Option<ModifiedWriteValues>) -> (r: Self)
        ensures
            r == (Self { modified_write_values: value, ..self }),
    {
        Self { modified_write_values: value, ..self }
    }

    /// Sets the write constraint.
    pub fn write_constraint(self, value: Option<WriteConstraint>) -> (r: Self)
        ensures
            r == (Self { write_constraint: value, ..self }),
    {
        Self { write_constraint: value, ..self }
    }

    /// Sets the enumeration set.
    pub fn enumerated_values(self, value: Option<EnumeratedValues>) -> (r: Self)
        ensures
            r == (Self { enumerated_values: value, ..self }),
    {
        Self { enumerated_values: value, ..self }
    }

    /// Builds the field: `Uninitialized` names the first required field
    /// still unset.
    pub fn build(self) -> (r: Result<FieldInfo, SvdError>)
        ensures
            match (self.name, self.bit_range) {
                (Some(n), Some(b)) => r matches Ok(f) && f.name == n && f.description
                    == self.description && f.bit_range == b && f.access == self.access
                    && f.modified_write_values == self.modified_write_values && f.write_constraint
                    == self.write_constraint && f.enumerated_values == self.enumerated_values,
                (None, _) => r matches Err(e) && e@ == err_of(SvdErrorKindV::Uninitialized("name"@)),
                (_, None) => r matches Err(e) && e@ == err_of(
                    SvdErrorKindV::Uninitialized("bit_range"@),
                ),
            },
    {
        let name = match self.name {
            Some(n) => n,
            None => {
                return Err(SvdError::new(SvdErrorKind::Uninitialized("name".to_owned())));
            },
        };
        let bit_range = match self.bit_range {
            Some(b) => b,
            None => {
                return Err(
                    SvdError::new(SvdErrorKind::Uninitialized("bit_range".to_owned())),
                );
            },
        };
        Ok(
            FieldInfo {
                name,
                description: self.description,
                bit_range,
                access: self.access,
                modified_write_values: self.modified_write_values,
                write_constraint: self.write_constraint,
                enumerated_values: self.enumerated_values,
            },
        )
    }
}

/// The optional `<modifiedWriteValues>` child of `e`: absence is
/// `Ok(None)`, a failing read propagates.
pub open spec fn spec_opt_mwv(e: ElementV) -> Result<Option<ModifiedWriteValues>, SvdErrorKindV> {
    match spec_get_child(e, "modifiedWriteValues"@) {
        None => Ok(None),
        Some(c) => match spec_parse_mwv(c) {
            Ok(v) => Ok(Some(v)),
            Err(k) => Err(k),
        },
    }
}

/// The optional `<writeConstraint>` child of `e`.
pub open spec fn spec_opt_write_constraint(e: ElementV) -> Result<
    Option<WriteConstraint>,
    SvdErrorV,
> {
    match spec_get_child(e, "writeConstraint"@) {
        None => Ok(None),
        Some(c) => match spec_parse_write_constraint(c) {
            Ok(v) => Ok(Some(v)),
            Err(x) => Err(x),
        },
    }
}

/// The field written by the children of `e`, its name already read;
/// failures below the name are wrapped by the field's name.
pub open spec fn spec_parse_field_info_named(e: ElementV, name: Seq<char>) -> Result<
    FieldInfoV,
    SvdErrorV,
> {
    let ctx = ctx_text("In field `"@, name);
    match spec_parse_bit_range(e) {
        Err(k) => Err(err_in(err_of(k), ctx)),
        Ok(bit_range) => match crate::svd::registerproperties::spec_opt_child_access(e) {
            Err(k) => Err(err_in(err_of(k), ctx)),
            Ok(access) => match spec_opt_mwv(e) {
                Err(k) => Err(err_in(err_of(k), ctx)),
                Ok(mwv) => match spec_opt_write_constraint(e) {
                    Err(x) => Err(err_in(x, ctx)),
                    Ok(wc) => match spec_get_child(e, "enumeratedValues"@) {
                        None => Ok(
                            FieldInfoV {
                                name: name,
                                description: spec_child_text_opt(e, "description"@),
                                bit_range: bit_range,
                                access: access,
                                modified_write_values: mwv,
                                write_constraint: wc,
                                enumerated_values: None,
                            },
                        ),
                        Some(c) => match spec_parse_enumerated_values(c) {
                            Err(x) => Err(err_in(x, ctx)),
                            Ok(ev) => Ok(
                                FieldInfoV {
                                    name: name,
                                    description: spec_child_text_opt(e, "description"@),
                                    bit_range: bit_range,
                                    access: access,
                                    modified_write_values: mwv,
                                    write_constraint: wc,
                                    enumerated_values: Some(ev),
                                },
                            ),
                        },
                    },
                },
            },
        },
    }
}

/// The field written by `e`: the element must be named `field` and hold a
/// `name` child; the rest per [`spec_parse_field_info_named`].
pub open spec fn spec_parse_field_info(e: ElementV) -> Result<FieldInfoV, SvdErrorV> {
    if e.name != "field"@ {
        Err(err_of(SvdErrorKindV::NotExpectedTag("field"@)))
    } else {
        match spec_child_text(e, "name"@) {
            Err(k) => Err(err_of(k)),
            Ok(name) => spec_parse_field_info_named(e, name),
        }
    }
}

/// The image of an encoded field: name, description, the bit range in its
/// original form, then each optional child.
pub open spec fn spec_encode_field_info(v: FieldInfoV) -> ElementV
    recommends
        v.bit_range.wf(),
{
    ElementV {
        name: "field"@,
        attributes: Seq::empty(),
        children: seq![text_elem("name"@, v.name)] + (match v.description {
            Some(d) => seq![text_elem("description"@, d)],
            None => Seq::empty(),
        }) + spec_encode_bit_range(v.bit_range) + (match v.access {
            Some(a) => seq![spec_encode_access(a)],
            None => Seq::empty(),
        }) + (match v.modified_write_values {
            Some(m) => seq![spec_encode_mwv(m)],
            None => Seq::empty(),
        }) + (match v.write_constraint {
            Some(w) => seq![spec_encode_write_constraint(w)],
            None => Seq::empty(),
        }) + (match v.enumerated_values {
            Some(ev) => seq![spec_encode_enumerated_values(ev)],
            None => Seq::empty(),
        }),
        text: None,
    }
}

impl FieldInfo {
    /// A fresh builder with nothing set.
    pub fn builder() -> (r: FieldInfoBuilder)
        ensures
            r == (FieldInfoBuilder {
                name: None,
                description: None,
                bit_range: None,
                access: None,
                modified_write_values: None,
                write_constraint: None,
                enumerated_values: None,
            }),
    {
        FieldInfoBuilder {
            name: None,
            description: None,
            bit_range: None,
            access: None,
            modified_write_values: None,
            write_constraint: None,
            enumerated_values: None,
        }
    }

    /// Reads a field from a `<field>` element, per [`spec_parse_field_info`];
    /// every field read is well formed.
    pub fn parse(tree: &Element) -> (r: Result<FieldInfo, SvdError>)
        ensures
            match spec_parse_field_info(tree@) {
                Ok(v) => r matches Ok(f) && f@ == v && f.wf(),
                Err(e) => r matches Err(x) && x@ == e,
            },
    {
        if !crate::tree::string_eq_str(&tree.name, "field") {
            return Err(SvdError::new(SvdErrorKind::NotExpectedTag("field".to_owned())));
        }
        let name = match tree.get_child_text("name") {
            Ok(n) => n,
            Err(e) => {
                return Err(e);
            },
        };
        let bit_range = match BitRange::parse(tree) {
            Ok(b) => b,
            Err(e) => {
                return Err(e.in_context(make_ctx("In field `", &name)));
            },
        };
        let access = match tree.get_child("access") {
            None => None,
            Some(c) => match Access::parse(c) {
                Ok(a) => Some(a),
                Err(e) => {
                    return Err(e.in_context(make_ctx("In field `", &name)));
                },
            },
        };
        let mwv = match tree.get_child("modifiedWriteValues") {
            None => None,
            Some(c) => match ModifiedWriteValues::parse(c) {
                Ok(m) => Some(m),
                Err(e) => {
                    return Err(e.in_context(make_ctx("In field `", &name)));
                },
            },
        };
        let write_constraint = match tree.get_child("writeConstraint") {
            None => None,
            Some(c) => match WriteConstraint::parse(c) {
                Ok(w) => Some(w),
                Err(e) => {
                    return Err(e.in_context(make_ctx("In field `", &name)));
                },
            },
        };
        let enumerated_values = match tree.get_child("enumeratedValues") {
            None => None,
            Some(c) => match EnumeratedValues::parse(c) {
                Ok(ev) => Some(ev),
                Err(e) => {
                    return Err(e.in_context(make_ctx("In field `", &name)));
                },
            },
        };
        let description = tree.get_child_text_opt("description");
        Ok(
            FieldInfo {
                name,
                description,
                bit_range,
                access,
                modified_write_values: mwv,
                write_constraint,
                enumerated_values,
            },
        )
    }

    /// Writes this field back as an element, per [`spec_encode_field_info`].
    #[verifier::rlimit(60)]
    pub fn encode(&self) -> (r: Element)
        requires
            self.wf(),
        ensures
            r@ == spec_encode_field_info(self@),
    {
        let mut e = Element::new("field", None);
        e.push_text_child("name", self.name.clone());
        match &self.description {
            Some(d) => {
                e.push_text_child("description", d.clone());
            },
            None => {},
        }
        let br = self.bit_range.encode();
        e.append_children(br);
        match self.access {
            Some(a) => {
                e.push_child(a.encode());
            },
            None => {},
        }
        match self.modified_write_values {
            Some(m) => {
                e.push_child(m.encode());
            },
            None => {},
        }
        match self.write_constraint {
            Some(w) => {
                e.push_child(w.encode());
            },
            None => {},
        }
        match &self.enumerated_values {
            Some(ev) => {
                e.push_child(ev.encode());
            },
            None => {},
        }
        proof {
            assert(e@.children =~= spec_encode_field_info(self@).children);
            assert(e@ =~~= spec_encode_field_info(self@));
        }
        e
    }
}

} // verus!
