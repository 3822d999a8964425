//! A `<register>`: a named, fixed-size addressable storage unit composed of
//! bit fields.

use vstd::prelude::*;

use crate::errors::{err_in, err_of, ctx_text, make_ctx, SvdError, SvdErrorKind, SvdErrorKindV,
    SvdErrorV, ConvType};
use crate::svd::access::Access;
use crate::svd::field::{Field, FieldV, spec_parse_field, spec_encode_field};
use crate::svd::modifiedwritevalues::{ModifiedWriteValues, spec_encode_mwv};
use crate::svd::registerproperties::{RegisterProperties, spec_parse_register_properties,
    spec_encode_register_properties};
use crate::svd::writeconstraint::{WriteConstraint, spec_encode_write_constraint};
use crate::svd::fieldinfo::{spec_opt_mwv, spec_opt_write_constraint};
use crate::encode::{hex_digits_upper, with_0x, fmt_hex_0x_upper};
use crate::tree::{Element, ElementV, app_opt, opt_text, spec_attr, spec_get_child,
    spec_child_text, spec_child_text_opt, spec_opt_child_num, text_elem};

verus! {

/// A register with a `<fields>` tag, no fields and no derivation.
#[derive(Clone, Copy, Debug, PartialEq, Eq, Structural)]
pub enum Error {
    EmptyFields,
}

/// A register's own description: every field as written, inheritance and
/// derivation not yet applied.
#[derive(Clone, Debug, PartialEq)]
pub struct RegisterInfo {
    /// The register's name, unique within its peripheral.
    pub name: String,
    /// A name free of identifier restrictions.
    pub display_name: Option<String>,
    /// Describes the register.
    pub description: Option<String>,
    /// Group shared by alternate registers of the same name.
    pub alternate_group: Option<String>,
    /// A register this one is an alternate of.
    pub alternate_register: Option<String>,
    /// Address offset relative to the enclosing element; absent only on a
    /// register that derives it from its source.
    pub address_offset: Option<u32>,
    /// The register's own property overrides.
    pub properties: RegisterProperties,
    /// Side effect of writing the register.
    pub modified_write_values: Option<ModifiedWriteValues>,
    /// Allowed write values.
    pub write_constraint: Option<WriteConstraint>,
    /// The bit fields; `None` when no `<fields>` tag was present.
    pub fields: Option<Vec<Field>>,
    /// Name of the register this one copies its unset fields from.
    pub derived_from: Option<String>,
}

/// Mathematical image of a [`RegisterInfo`].
#[verifier::ext_equal]
pub struct RegisterInfoV {
    pub name: Seq<char>,
    pub display_name: Option<Seq<char>>,
    pub description: Option<Seq<char>>,
    pub alternate_group: Option<Seq<char>>,
    pub alternate_register: Option<Seq<char>>,
    pub address_offset: Option<u32>,
    pub properties: RegisterProperties,
    pub modified_write_values: Option<ModifiedWriteValues>,
    pub write_constraint: Option<WriteConstraint>,
    pub fields: Option<Seq<FieldV>>,
    pub derived_from: Option<Seq<char>>,
}

/// The view of an optional field list.
pub open spec fn opt_fields_view(o: Option<Vec<Field>>) -> Option<Seq<FieldV>> {
    match o {
        Some(v) => Some(v@.map_values(|f: Field| f@)),
        None => None,
    }
}

impl View for RegisterInfo {
    type V = RegisterInfoV;

    open spec fn view(&self) -> RegisterInfoV {
        RegisterInfoV {
            name: self.name@,
            display_name: opt_text(self.display_name),
            description: opt_text(self.description),
            alternate_group: opt_text(self.alternate_group),
            alternate_register: opt_text(self.alternate_register),
            address_offset: self.address_offset,
            properties: self.properties,
            modified_write_values: self.modified_write_values,
            write_constraint: self.write_constraint,
            fields: opt_fields_view(self.fields),
            derived_from: opt_text(self.derived_from),
        }
    }
}

impl RegisterInfo {
    /// A well-formed register holds well-formed fields, and an address
    /// offset unless it derives one.
    pub open spec fn wf(self) -> bool {
        &&& (match self.fields {
            Some(fs) => forall|i: int| 0 <= i < fs@.len() ==> (#[trigger] fs@[i]).wf(),
            None => true,
        })
        &&& (self.derived_from is None ==> self.address_offset is Some)
    }
}

/// A builder for [`RegisterInfo`]: `name` is always required, and
/// `address_offset` whenever the register derives from nothing.
#[derive(Clone, Debug, PartialEq, Default)]
pub struct RegisterInfoBuilder {
    pub name: Option<String>,
    pub display_name: Option<String>,
    pub description: Option<String>,
    pub alternate_group: Option<String>,
    pub alternate_register: Option<String>,
    pub address_offset: Option<u32>,
    pub properties: RegisterProperties,
    pub modified_write_values: Option<ModifiedWriteValues>,
    pub write_constraint: Option<WriteConstraint>,
    pub fields: Option<Vec<Field>>,
    pub derived_from: Option<String>,
}

impl RegisterInfoBuilder {
    /// Sets the name.
    pub fn name(self, value: String) -> (r: Self)
        ensures
            r == (Self { name: Some(value), ..self }),
    {
        Self { name: Some(value), ..self }
    }

    /// Sets the display name.
    pub fn display_name(self, value: Option<String>) -> (r: Self)
        ensures
            r == (Self { display_name: value, ..self }),
    {
        Self { display_name: value, ..self }
    }

    /// Sets the description.
    pub fn description(self, value: Option<String>) -> (r: Self)
        ensures
            r == (Self { description: value, ..self }),
    {
        Self { description: value, ..self }
    }

    /// Sets the alternate group.
    pub fn alternate_group(self, value: Option<String>) -> (r: Self)
        ensures
            r == (Self { alternate_group: value, ..self }),
    {
        Self { alternate_group: value, ..self }
    }

    /// Sets the alternate register.
    pub fn alternate_register(self, value: Option<String>) -> (r: Self)
        ensures
            r == (Self { alternate_register: value, ..self }),
    {
        Self { alternate_register: value, ..self }
    }

    /// Sets the address offset.
    pub fn address_offset(self, value: u32) -> (r: Self)
        ensures
            r == (Self { address_offset: Some(value), ..self }),
    {
        Self { address_offset: Some(value), ..self }
    }

    /// Sets all property overrides at once.
    pub fn properties(self, value: RegisterProperties) -> (r: Self)
        ensures
            r == (Self { properties: value, ..self }),
    {
        Self { properties: value, ..self }
    }

    /// Sets the size override.
    pub fn size(self, value: Option<u32>) -> (r: Self)
        ensures
            r == (Self {
                properties: RegisterProperties { size: value, ..self.properties },
                ..self
            }),
    {
        Self { properties: RegisterProperties { size: value, ..self.properties }, ..self }
    }

    /// Sets the access override.
    pub fn access(self, value: Option<Access>) -> (r: Self)
        ensures
            r == (Self {
                properties: RegisterProperties { access: value, ..self.properties },
                ..self
            }),
    {
        Self { properties: RegisterProperties { access: value, ..self.properties }, ..self }
    }

    /// Sets the reset value override.
    pub fn reset_value(self, value: Option<u64>) -> (r: Self)
        ensures
            r == (Self {
                properties: RegisterProperties { reset_value: value, ..self.properties },
                ..self
            }),
    {
        Self { properties: RegisterProperties { reset_value: value, ..self.properties }, ..self }
    }

    /// Sets the reset mask override.
    pub fn reset_mask(self, value: Option<u64>) -> (r: Self)
        ensures
            r == (Self {
                properties: RegisterProperties { reset_mask: value, ..self.properties },
                ..self
            }),
    {
        Self { properties: RegisterProperties { reset_mask: value, ..self.properties }, ..self }
    }

    /// Sets the write side effect.
    pub fn modified_write_values(self, value: Option<ModifiedWriteValues>) -> (r: Self)
        ensures
            r == (Self { modified_write_values: value, ..self }),
    {
        Self { modified_write_values: value, ..self }
    }

    /// Sets the write constraint.
    pub fn write_constraint(self, value: Option<WriteConstraint>) -> (r: Self)
        ensures
            r == (Self { write_constraint: value, ..self }),
    {
        Self { write_constraint: value, ..self }
    }

    /// Sets the field list.
    pub fn fields(self, value: Option<Vec<Field>>) -> (r: Self)
        ensures
            r == (Self { fields: value, ..self }),
    {
        Self { fields: value, ..self }
    }

    /// Sets the derivation source.
    pub fn derived_from(self, value: Option<String>) -> (r: Self)
        ensures
            r == (Self { derived_from: value, ..self }),
    {
        Self { derived_from: value, ..self }
    }

    /// Builds the register: `Uninitialized` names a missing required field,
    /// then the non-emptiness of an explicit field list is demanded.
    pub fn build(self) -> (r: Result<RegisterInfo, SvdError>)
        ensures
            match self.name {
                None => r matches Err(e) && e@ == err_of(SvdErrorKindV::Uninitialized("name"@)),
                Some(n) => if self.address_offset is None && self.derived_from is None {
                    r matches Err(e) && e@ == err_of(
                        SvdErrorKindV::Uninitialized("address_offset"@),
                    )
                } else if self.derived_from is None && (self.fields matches Some(fs)
                    && fs@.len() == 0) {
                    r matches Err(e) && e@ == err_of(SvdErrorKindV::EmptyFields)
                } else {
                    r matches Ok(v) && v.name == n && v.display_name == self.display_name
                        && v.description == self.description && v.alternate_group
                        == self.alternate_group && v.alternate_register == self.alternate_register
                        && v.address_offset == self.address_offset && v.properties
                        == self.properties && v.modified_write_values
                        == self.modified_write_values && v.write_constraint
                        == self.write_constraint && v.fields == self.fields && v.derived_from
                        == self.derived_from
                },
            },
    {
        let name = match self.name {
            Some(n) => n,
            None => {
                return Err(SvdError::new(SvdErrorKind::Uninitialized("name".to_owned())));
            },
        };
        if self.address_offset.is_none() && self.derived_from.is_none() {
            return Err(
                SvdError::new(SvdErrorKind::Uninitialized("address_offset".to_owned())),
            );
        }
        let out = RegisterInfo {
            name,
            display_name: self.display_name,
            description: self.description,
            alternate_group: self.alternate_group,
            alternate_register: self.alternate_register,
            address_offset: self.address_offset,
            properties: self.properties,
            modified_write_values: self.modified_write_values,
            write_constraint: self.write_constraint,
            fields: self.fields,
            derived_from: self.derived_from,
        };
        out.validate()
    }
}

impl RegisterInfo {
    /// A fresh builder with nothing set.
    pub fn builder() -> (r: RegisterInfoBuilder)
        ensures
            r == (RegisterInfoBuilder {
                name: None,
                display_name: None,
                description: None,
                alternate_group: None,
                alternate_register: None,
                address_offset: None,
                properties: RegisterProperties {
                    size: None,
                    access: None,
                    reset_value: None,
                    reset_mask: None,
                },
                modified_write_values: None,
                write_constraint: None,
                fields: None,
                derived_from: None,
            }),
    {
        RegisterInfoBuilder {
            name: None,
            display_name: None,
            description: None,
            alternate_group: None,
            alternate_register: None,
            address_offset: None,
            properties: RegisterProperties {
                size: None,
                access: None,
                reset_value: None,
                reset_mask: None,
            },
            modified_write_values: None,
            write_constraint: None,
            fields: None,
            derived_from: None,
        }
    }

    /// Demands the non-emptiness invariant: a register deriving from
    /// nothing may not carry an explicitly empty field list.
    pub fn validate(self) -> (r: Result<RegisterInfo, SvdError>)
        ensures
            if self.derived_from is None && (self.fields matches Some(fs) && fs@.len() == 0) {
                r matches Err(e) && e@ == err_of(SvdErrorKindV::EmptyFields)
            } else {
                r == Ok::<RegisterInfo, SvdError>(self)
            },
    {
        if self.derived_from.is_none() {
            match &self.fields {
                Some(fs) => {
                    if fs.len() == 0 {
                        return Err(SvdError::new(SvdErrorKind::EmptyFields));
                    }
                },
                None => {},
            }
        }
        Ok(self)
    }
}

/// The fields written by the children of `fs` from position `i` on:
/// children named `field` are parsed, all others passed over.
pub open spec fn spec_parse_field_list(children: Seq<ElementV>) -> Result<Seq<FieldV>, SvdErrorV>
    decreases children.len(),
{
    if children.len() == 0 {
        Ok(Seq::empty())
    } else if children[0].name == "field"@ {
        match spec_parse_field(children[0]) {
            Err(x) => Err(x),
            Ok(f) => match spec_parse_field_list(children.skip(1)) {
                Err(x) => Err(x),
                Ok(rest) => Ok(seq![f] + rest),
            },
        }
    } else {
        spec_parse_field_list(children.skip(1))
    }
}

/// The register written by the children of `e`, its name already read;
/// failures below the name are wrapped by the register's name. A register
/// deriving from nothing must carry an address offset and, if it has a
/// `<fields>` tag, at least one field.
pub open spec fn spec_parse_register_info_named(e: ElementV, name: Seq<char>) -> Result<
    RegisterInfoV,
    SvdErrorV,
> {
    let ctx = ctx_text("In register `"@, name);
    let derived_from = spec_attr(e, "derivedFrom"@);
    match spec_opt_child_num(e, "addressOffset"@, u32::MAX as nat, ConvType::U32) {
        Err(k) => Err(err_in(err_of(k), ctx)),
        Ok(offset) => if offset is None && derived_from is None {
            Err(err_in(err_of(SvdErrorKindV::Uninitialized("address_offset"@)), ctx))
        } else {
            match spec_parse_register_properties(e) {
                Err(x) => Err(err_in(x, ctx)),
                Ok(properties) => match spec_opt_mwv(e) {
                    Err(k) => Err(err_in(err_of(k), ctx)),
                    Ok(mwv) => match spec_opt_write_constraint(e) {
                        Err(x) => Err(err_in(x, ctx)),
                        Ok(wc) => {
                            let fields = match spec_get_child(e, "fields"@) {
                                None => Ok(None),
                                Some(fs) => match spec_parse_field_list(fs.children) {
                                    Err(x) => Err(x),
                                    Ok(flds) => Ok(Some(flds)),
                                },
                            };
                            match fields {
                                Err(x) => Err(err_in(x, ctx)),
                                Ok(fields) => if derived_from is None && (fields matches Some(fl)
                                    && fl.len() == 0) {
                                    Err(err_in(err_of(SvdErrorKindV::EmptyFields), ctx))
                                } else {
                                    Ok(
                                        RegisterInfoV {
                                            name: name,
                                            display_name: spec_child_text_opt(e, "displayName"@),
                                            description: spec_child_text_opt(e, "description"@),
                                            alternate_group: spec_child_text_opt(
                                                e,
                                                "alternateGroup"@,
                                            ),
                                            alternate_register: spec_child_text_opt(
                                                e,
                                                "alternateRegister"@,
                                            ),
                                            address_offset: match offset {
                                                Some(v) => Some(v as u32),
                                                None => None,
                                            },
                                            properties: properties,
                                            modified_write_values: mwv,
                                            write_constraint: wc,
                                            fields: fields,
                                            derived_from: derived_from,
                                        },
                                    )
                                },
                            }
                        },
                    },
                },
            }
        },
    }
}

/// The register written by `e`: the element must be named `register` and
/// hold a `name` child; the rest per [`spec_parse_register_info_named`].
pub open spec fn spec_parse_register_info(e: ElementV) -> Result<RegisterInfoV, SvdErrorV> {
    if e.name != "register"@ {
        Err(err_of(SvdErrorKindV::NotExpectedTag("register"@)))
    } else {
        match spec_child_text(e, "name"@) {
            Err(k) => Err(err_of(k)),
            Ok(name) => spec_parse_register_info_named(e, name),
        }
    }
}

/// The image of an encoded register: name and descriptive tags, the
/// address offset in prefixed hexadecimal, the set properties, the fields,
/// then the write semantics, the derivation as an attribute.
pub open spec fn spec_encode_register_info(v: RegisterInfoV) -> ElementV {
    ElementV {
        name: "register"@,
        attributes: match v.derived_from {
            Some(d) => Seq::empty().push(("derivedFrom"@, d)),
            None => Seq::empty(),
        },
        children: spec_register_children(v),
        text: None,
    }
}

/// The children of an encoded register, in order of construction.
pub open spec fn spec_register_children(v: RegisterInfoV) -> Seq<ElementV> {
    let c = Seq::empty().push(text_elem("name"@, v.name));
    let c = app_opt(c, match v.display_name {
        Some(d) => Some(text_elem("displayName"@, d)),
        None => None,
    });
    let c = app_opt(c, match v.description {
        Some(d) => Some(text_elem("description"@, d)),
        None => None,
    });
    let c = app_opt(c, match v.address_offset {
        Some(o) => Some(text_elem("addressOffset"@, with_0x(hex_digits_upper(o as nat)))),
        None => None,
    });
    let c = app_opt(c, match v.alternate_group {
        Some(d) => Some(text_elem("alternateGroup"@, d)),
        None => None,
    });
    let c = app_opt(c, match v.alternate_register {
        Some(d) => Some(text_elem("alternateRegister"@, d)),
        None => None,
    });
    let c = c + spec_encode_register_properties(v.properties);
    let c = app_opt(c, match v.fields {
        Some(fs) => Some(ElementV {
            name: "fields"@,
            attributes: Seq::empty(),
            children: fs.map_values(|f: FieldV| spec_encode_field(f)),
            text: None,
        }),
        None => None,
    });
    let c = app_opt(c, match v.modified_write_values {
        Some(m) => Some(spec_encode_mwv(m)),
        None => None,
    });
    let c = app_opt(c, match v.write_constraint {
        Some(w) => Some(spec_encode_write_constraint(w)),
        None => None,
    });
    c
}

impl RegisterInfo {
    /// Reads a register from a `<register>` element, per
    /// [`spec_parse_register_info`]; every register read is well formed.
    pub fn parse(tree: &Element) -> (r: Result<RegisterInfo, SvdError>)
        ensures
            match spec_parse_register_info(tree@) {
                Ok(v) => r matches Ok(x) && x@ == v && x.wf(),
                Err(e) => r matches Err(x) && x@ == e,
            },
    {
        if !crate::tree::string_eq_str(&tree.name, "register") {
            return Err(SvdError::new(SvdErrorKind::NotExpectedTag("register".to_owned())));
        }
        let name = match tree.get_child_text("name") {
            Ok(n) => n,
            Err(e) => {
                return Err(e);
            },
        };
        parse_register_info(tree, name)
    }

    /// Writes this register back as an element, per
    /// [`spec_encode_register_info`].
    #[verifier::rlimit(100)]
    pub fn encode(&self) -> (r: Element)
        requires
            self.wf(),
        ensures
            r@ == spec_encode_register_info(self@),
    {
        let mut e = Element::new("register", None);
        match &self.derived_from {
            Some(d) => {
                e.push_attr("derivedFrom", d.clone());
            },
            None => {},
        }
        e.push_text_child("name", self.name.clone());
        match &self.display_name {
            Some(d) => {
                e.push_text_child("displayName", d.clone());
            },
            None => {},
        }
        match &self.description {
            Some(d) => {
                e.push_text_child("description", d.clone());
            },
            None => {},
        }
        match self.address_offset {
            Some(o) => {
                e.push_text_child("addressOffset", fmt_hex_0x_upper(o as u64));
            },
            None => {},
        }
        match &self.alternate_group {
            Some(d) => {
                e.push_text_child("alternateGroup", d.clone());
            },
            None => {},
        }
        match &self.alternate_register {
            Some(d) => {
                e.push_text_child("alternateRegister", d.clone());
            },
            None => {},
        }
        e.append_children(self.properties.encode());
        match &self.fields {
            Some(fs) => {
                e.push_child(encode_fields(fs));
            },
            None => {},
        }
        match self.modified_write_values {
            Some(m) => {
                e.push_child(m.encode());
            },
            None => {},
        }
        match self.write_constraint {
            Some(w) => {
                e.push_child(w.encode());
            },
            None => {},
        }
        proof {
            match self@.fields {
                Some(fs) => {
                    assert(fs.map_values(|f: FieldV| spec_encode_field(f)) =~= self.fields.unwrap()
                        @.map_values(|f: Field| f@).map_values(|f: FieldV| spec_encode_field(f)));
                },
                None => {},
            }
            assert(e@.attributes =~= spec_encode_register_info(self@).attributes);
            assert(e@.children == spec_register_children(self@));
            assert(e@ =~~= spec_encode_register_info(self@));
        }
        e
    }
}

/// The `<fields>` element holding every encoded field of `fs`.
fn encode_fields(fs: &Vec<Field>) -> (r: Element)
    requires
        forall|i: int| 0 <= i < fs@.len() ==> (#[trigger] fs@[i]).wf(),
    ensures
        r@ == (ElementV {
            name: "fields"@,
            attributes: Seq::empty(),
            children: fs@.map_values(|f: Field| f@).map_values(|f: FieldV| spec_encode_field(f)),
            text: None,
        }),
{
    let mut fe = Element::new("fields", None);
    let n = fs.len();
    let mut i: usize = 0;
    while i < n
        invariant
            i <= n,
            n == fs@.len(),
            forall|j: int| 0 <= j < n ==> (#[trigger] fs@[j]).wf(),
            fe@.name == "fields"@,
            fe@.text is None,
            fe@.attributes == Seq::<(Seq<char>, Seq<char>)>::empty(),
            fe@.children == fs@.map_values(|f: Field| f@).map_values(
                |f: FieldV| spec_encode_field(f),
            ).take(i as int),
        decreases n - i,
    {
        let ghost before = fe@.children;
        fe.push_child(fs[i].encode());
        proof {
            let all = fs@.map_values(|f: Field| f@).map_values(|f: FieldV| spec_encode_field(f));
            assert(all.take(i + 1) =~= all.take(i as int).push(all[i as int]));
            assert(fe@.children =~= before.push(spec_encode_field(fs@[i as int]@)));
        }
        i = i + 1;
    }
    proof {
        let all = fs@.map_values(|f: Field| f@).map_values(|f: FieldV| spec_encode_field(f));
        assert(all.take(n as int) =~= all);
        assert(fe@ =~~= (ElementV {
            name: "fields"@,
            attributes: Seq::empty(),
            children: all,
            text: None,
        }));
    }
    fe
}

/// Reads the body of a register whose name is already known, per
/// [`spec_parse_register_info_named`].
pub fn parse_register_info(tree: &Element, name: String) -> (r: Result<RegisterInfo, SvdError>)
    ensures
        match spec_parse_register_info_named(tree@, name@) {
            Ok(v) => r matches Ok(x) && x@ == v && x.wf(),
            Err(e) => r matches Err(x) && x@ == e,
        },
{
    let derived_from = tree.get_attr("derivedFrom");
    let address_offset = match tree.get_child_u32_opt("addressOffset") {
        Ok(v) => v,
        Err(e) => {
            return Err(e.in_context(make_ctx("In register `", &name)));
        },
    };
    if address_offset.is_none() && derived_from.is_none() {
        let e = SvdError::new(SvdErrorKind::Uninitialized("address_offset".to_owned()));
        return Err(e.in_context(make_ctx("In register `", &name)));
    }
    let properties = match RegisterProperties::parse(tree) {
        Ok(p) => p,
        Err(e) => {
            return Err(e.in_context(make_ctx("In register `", &name)));
        },
    };
    let mwv = match tree.get_child("modifiedWriteValues") {
        None => None,
        Some(c) => match ModifiedWriteValues::parse(c) {
            Ok(m) => Some(m),
            Err(e) => {
                return Err(e.in_context(make_ctx("In register `", &name)));
            },
        },
    };
    let write_constraint = match tree.get_child("writeConstraint") {
        None => None,
        Some(c) => match WriteConstraint::parse(c) {
            Ok(w) => Some(w),
            Err(e) => {
                return Err(e.in_context(make_ctx("In register `", &name)));
            },
        },
    };
    let fields = match tree.get_child("fields") {
        None => None,
        Some(fs) => {
            match parse_field_list(fs) {
                Ok(flds) => Some(flds),
                Err(e) => {
                    return Err(e.in_context(make_ctx("In register `", &name)));
                },
            }
        },
    };
    if derived_from.is_none() {
        match &fields {
            Some(fl) => {
                if fl.len() == 0 {
                    let e = SvdError::new(SvdErrorKind::EmptyFields);
                    return Err(e.in_context(make_ctx("In register `", &name)));
                }
            },
            None => {},
        }
    }
    let display_name = tree.get_child_text_opt("displayName");
    let description = tree.get_child_text_opt("description");
    let alternate_group = tree.get_child_text_opt("alternateGroup");
    let alternate_register = tree.get_child_text_opt("alternateRegister");
    Ok(
        RegisterInfo {
            name,
            display_name,
            description,
            alternate_group,
            alternate_register,
            address_offset,
            properties,
            modified_write_values: mwv,
            write_constraint,
            fields,
            derived_from,
        },
    )
}

/// Reads every `field`-named child of a `<fields>` element, per
/// [`spec_parse_field_list`]; every field read is well formed.
fn parse_field_list(tree: &Element) -> (r: Result<Vec<Field>, SvdError>)
    ensures
        match spec_parse_field_list(tree@.children) {
            Ok(v) => r matches Ok(fs) && fs@.map_values(|f: Field| f@) == v && forall|i: int|
                0 <= i < fs@.len() ==> (#[trigger] fs@[i]).wf(),
            Err(e) => r matches Err(x) && x@ == e,
        },
{
    let n = tree.children.len();
    let mut out: Vec<Field> = Vec::new();
    let mut i: usize = 0;
    proof {
        assert(tree@.children.skip(0) =~= tree@.children);
    }
    while i < n
        invariant
            i <= n,
            n == tree.children@.len(),
            tree@.children.len() == n,
            forall|j: int|
                0 <= j < n ==> #[trigger] tree@.children[j] == crate::tree::elem_view(
                    tree.children@[j],
                ),
            forall|j: int| 0 <= j < out@.len() ==> (#[trigger] out@[j]).wf(),
            spec_parse_field_list(tree@.children) == (match spec_parse_field_list(
                tree@.children.skip(i as int),
            ) {
                Ok(rest) => Ok::<Seq<FieldV>, SvdErrorV>(
                    out@.map_values(|f: Field| f@) + rest,
                ),
                Err(x) => Err(x),
            }),
        decreases n - i,
    {
        let c = &tree.children[i];
        let ghost pre = out@.map_values(|f: Field| f@);
        proof {
            assert(tree@.children.skip(i as int)[0] == tree@.children[i as int]);
            assert(tree@.children.skip(i as int).skip(1) =~= tree@.children.skip(i + 1));
        }
        if crate::tree::string_eq_str(&c.name, "field") {
            match Field::parse(c) {
                Ok(f) => {
                    out.push(f);
                    proof {
                        assert(out@.map_values(|f: Field| f@) =~= pre.push(out@.last()@));
                        assert forall|rest: Seq<FieldV>|
                            #[trigger] (pre.push(out@.last()@) + rest) =~= pre + (seq![
                                out@.last()@,
                            ] + rest) by {}
                    }
                },
                Err(e) => {
                    return Err(e);
                },
            }
        }
        i = i + 1;
    }
    proof {
        assert(tree@.children.skip(n as int) =~= Seq::<ElementV>::empty());
        assert(out@.map_values(|f: Field| f@) + Seq::<FieldV>::empty() =~= out@.map_values(
            |f: Field| f@,
        ));
    }
    Ok(out)
}

} // verus!
