//! One `<enumeratedValue>`: a named value a field may hold.

use vstd::prelude::*;

use crate::encode::{bool_text, fmt_bool, hex_digits_lower, with_0x, zero_pad,
    fmt_hex_0x_pad8_lower, lemma_hex_digits, lemma_parse_num_of_hex, lemma_parse_bool_of_text};
use crate::errors::{err_in, err_of, ctx_text, make_ctx, SvdError, SvdErrorKind, SvdErrorKindV,
    SvdErrorV, ConvType};
use crate::tree::{Element, ElementV, opt_text, opt_text_elem, spec_get_child, spec_child_bool,
    spec_child_text, spec_child_text_opt, spec_opt_child_num, text_elem};

verus! {

/// A named value of a field's enumeration.
#[derive(Clone, Debug, PartialEq)]
pub struct EnumeratedValue {
    /// The value's name.
    pub name: String,
    /// Describes the value's meaning.
    pub description: Option<String>,
    /// The numeric value, absent for a default entry.
    pub value: Option<u64>,
    /// Whether this entry catches every value not named otherwise.
    pub is_default: Option<bool>,
}

/// Mathematical image of an [`EnumeratedValue`].
#[verifier::ext_equal]
pub struct EnumeratedValueV {
    pub name: Seq<char>,
    pub description: Option<Seq<char>>,
    pub value: Option<u64>,
    pub is_default: Option<bool>,
}

impl View for EnumeratedValue {
    type V = EnumeratedValueV;

    open spec fn view(&self) -> EnumeratedValueV {
        EnumeratedValueV {
            name: self.name@,
            description: opt_text(self.description),
            value: self.value,
            is_default: self.is_default,
        }
    }
}

/// A builder for [`EnumeratedValue`]: `name` is required.
#[derive(Clone, Debug, PartialEq, Default)]
pub struct EnumeratedValueBuilder {
    pub name: Option<String>,
    pub description: Option<String>,
    pub value: Option<u64>,
    pub is_default: Option<bool>,
}

impl EnumeratedValueBuilder {
    /// Sets the name.
    pub fn name(self, value: String) -> (r: Self)
        ensures
            r == (Self { name: Some(value), ..self }),
    {
        Self { name: Some(value), ..self }
    }

    /// Sets the description.
    pub fn description(self, value: Option<String>) -> (r: Self)
        ensures
            r == (Self { description: value, ..self }),
    {
        Self { description: value, ..self }
    }

    /// Sets the numeric value.
    pub fn value(self, value: Option<u64>) -> (r: Self)
        ensures
            r == (Self { value: value, ..self }),
    {
        Self { value: value, ..self }
    }

    /// Sets the default flag.
    pub fn is_default(self, value: Option<bool>) -> (r: Self)
        ensures
            r == (Self { is_default: value, ..self }),
    {
        Self { is_default: value, ..self }
    }

    /// Builds the value: `Uninitialized` when the name is unset, the value
    /// exactly as set otherwise.
    pub fn build(self) -> (r: Result<EnumeratedValue, SvdError>)
        ensures
            match self.name {
                Some(n) => r matches Ok(v) && v.name == n && v.description == self.description
                    && v.value == self.value && v.is_default == self.is_default,
                None => r matches Err(e) && e@ == err_of(SvdErrorKindV::Uninitialized("name"@)),
            },
    {
        match self.name {
            Some(name) => Ok(
                EnumeratedValue {
                    name,
                    description: self.description,
                    value: self.value,
                    is_default: self.is_default,
                },
            ),
            None => Err(SvdError::new(SvdErrorKind::Uninitialized("name".to_owned()))),
        }
    }
}

/// The entry written by the children of `e`, its name already read: an
/// optional description, an optional numeric value, and a default flag
/// whose read failures count as absence.
pub open spec fn spec_parse_ev_named(e: ElementV, name: Seq<char>) -> Result<
    EnumeratedValueV,
    SvdErrorV,
> {
    match spec_opt_child_num(e, "value"@, u64::MAX as nat, ConvType::U64) {
        Err(k) => Err(err_of(k)),
        Ok(value) => Ok(
            EnumeratedValueV {
                name: name,
                description: spec_child_text_opt(e, "description"@),
                value: match value {
                    Some(v) => Some(v as u64),
                    None => None,
                },
                is_default: match spec_child_bool(e, "isDefault"@) {
                    Ok(b) => Some(b),
                    Err(_) => None,
                },
            },
        ),
    }
}

/// The entry written by `e`: the element must be named `enumeratedValue`
/// and hold a `name` child; failures below it are wrapped by the entry's
/// name.
pub open spec fn spec_parse_enumerated_value(e: ElementV) -> Result<EnumeratedValueV, SvdErrorV> {
    if e.name != "enumeratedValue"@ {
        Err(err_of(SvdErrorKindV::NotExpectedTag("enumeratedValue"@)))
    } else {
        match spec_child_text(e, "name"@) {
            Err(k) => Err(err_of(k)),
            Ok(name) => match spec_parse_ev_named(e, name) {
                Err(x) => Err(err_in(x, ctx_text("In enumerated value `"@, name))),
                Ok(v) => Ok(v),
            },
        }
    }
}

/// The image of an encoded entry: name first, then each set field.
pub open spec fn spec_encode_enumerated_value(v: EnumeratedValueV) -> ElementV {
    ElementV {
        name: "enumeratedValue"@,
        attributes: Seq::empty(),
        children: seq![text_elem("name"@, v.name)] + (match v.description {
            Some(d) => seq![text_elem("description"@, d)],
            None => Seq::empty(),
        }) + (match v.value {
            Some(x) => seq![
                text_elem("value"@, with_0x(zero_pad(hex_digits_lower(x as nat), 8))),
            ],
            None => Seq::empty(),
        }) + (match v.is_default {
            Some(b) => seq![text_elem("isDefault"@, bool_text(b))],
            None => Seq::empty(),
        }),
        text: None,
    }
}

/// Reads the fields of an entry whose name is already known, per
/// [`spec_parse_ev_named`].
pub fn parse_ev(tree: &Element, name: String) -> (r: Result<EnumeratedValue, SvdError>)
    ensures
        match spec_parse_ev_named(tree@, name@) {
            Ok(v) => r matches Ok(x) && x@ == v,
            Err(e) => r matches Err(x) && x@ == e,
        },
{
    let value = match tree.get_child_u64_opt("value") {
        Ok(v) => v,
        Err(e) => {
            return Err(e);
        },
    };
    let description = tree.get_child_text_opt("description");
    let is_default = match tree.get_child_bool("isDefault") {
        Ok(b) => Some(b),
        Err(_) => None,
    };
    Ok(EnumeratedValue { name, description, value, is_default })
}

impl EnumeratedValue {
    /// A fresh builder with nothing set.
    pub fn builder() -> (r: EnumeratedValueBuilder)
        ensures
            r == (EnumeratedValueBuilder {
                name: None,
                description: None,
                value: None,
                is_default: None,
            }),
    {
        EnumeratedValueBuilder { name: None, description: None, value: None, is_default: None }
    }

    /// Reads an entry from an `<enumeratedValue>` element, per
    /// [`spec_parse_enumerated_value`].
    pub fn parse(tree: &Element) -> (r: Result<EnumeratedValue, SvdError>)
        ensures
            match spec_parse_enumerated_value(tree@) {
                Ok(v) => r matches Ok(x) && x@ == v,
                Err(e) => r matches Err(x) && x@ == e,
            },
    {
        if !crate::tree::string_eq_str(&tree.name, "enumeratedValue") {
            return Err(
                SvdError::new(SvdErrorKind::NotExpectedTag("enumeratedValue".to_owned())),
            );
        }
        let name = match tree.get_child_text("name") {
            Ok(n) => n,
            Err(e) => {
                return Err(e);
            },
        };
        match parse_ev(tree, name.clone()) {
            Ok(v) => Ok(v),
            Err(e) => Err(e.in_context(make_ctx("In enumerated value `", &name))),
        }
    }

    /// Writes this entry back as an element, per
    /// [`spec_encode_enumerated_value`].
    pub fn encode(&self) -> (r: Element)
        ensures
            r@ == spec_encode_enumerated_value(self@),
    {
        let mut e = Element::new("enumeratedValue", None);
        e.push_text_child("name", self.name.clone());
        match &self.description {
            Some(d) => {
                e.push_text_child("description", d.clone());
            },
            None => {},
        }
        match self.value {
            Some(x) => {
                e.push_text_child("value", fmt_hex_0x_pad8_lower(x));
            },
            None => {},
        }
        match self.is_default {
            Some(b) => {
                e.push_text_child("isDefault", fmt_bool(b));
            },
            None => {},
        }
        proof {
            assert(e@.children =~= spec_encode_enumerated_value(self@).children);
            assert(e@ =~~= spec_encode_enumerated_value(self@));
        }
        e
    }
}

/// Reading back an encoded entry yields the value encoded: the enumerated
/// value round trip.
pub proof fn lemma_enumerated_value_round_trip(v: EnumeratedValueV)
    ensures
        spec_parse_enumerated_value(spec_encode_enumerated_value(v)) == Ok::<
            EnumeratedValueV,
            SvdErrorV,
        >(v),
{
    let e = spec_encode_enumerated_value(v);
    reveal_strlit("enumeratedValue");
    reveal_strlit("name");
    reveal_strlit("description");
    reveal_strlit("value");
    reveal_strlit("isDefault");
    assert("enumeratedValue"@.len() == 15 && "name"@.len() == 4 && "description"@.len() == 11
        && "value"@.len() == 5 && "isDefault"@.len() == 9);
    assert("value"@[0] == 'v' && "isDefault"@[0] == 'i');
    crate::tree::lemma_first_child_index(e.children, "name"@);
    crate::tree::lemma_first_child_index(e.children, "description"@);
    crate::tree::lemma_first_child_index(e.children, "value"@);
    crate::tree::lemma_first_child_index(e.children, "isDefault"@);
    let di: int = if v.description is Some {
        1
    } else {
        0
    };
    let vi: int = if v.value is Some {
        1
    } else {
        0
    };
    if v.description is Some {
        assert(e.children[1] == text_elem("description"@, v.description.unwrap()));
    }
    match v.value {
        Some(x) => {
            assert(e.children[1 + di] == text_elem(
                "value"@,
                with_0x(zero_pad(hex_digits_lower(x as nat), 8)),
            ));
            lemma_hex_digits(x as nat);
            lemma_parse_num_of_hex(with_0x(zero_pad(hex_digits_lower(x as nat), 8)), x as nat,
                u64::MAX as nat);
        },
        None => {},
    }
    match v.is_default {
        Some(b) => {
            assert(e.children[1 + di + vi] == text_elem("isDefault"@, bool_text(b)));
            lemma_parse_bool_of_text(b);
        },
        None => {},
    }
    assert(spec_parse_ev_named(e, v.name) =~~= Ok::<EnumeratedValueV, SvdErrorV>(v));
}

} // verus!
