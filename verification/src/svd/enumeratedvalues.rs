//! An `<enumeratedValues>` set: a named or anonymous collection of the
//! values a field may hold, possibly derived from another set.
//!
//! A set that derives from nothing must hold at least one value; this
//! non-emptiness is enforced at construction and can never be observed
//! broken.

use vstd::prelude::*;

use crate::errors::{err_in, err_of, ctx_text, SvdError, SvdErrorKind, SvdErrorKindV, SvdErrorV};
use crate::parse::dec_digits;
use crate::svd::enumeratedvalue::{EnumeratedValue, EnumeratedValueV, spec_parse_enumerated_value,
    spec_encode_enumerated_value};
use crate::svd::usage::{Usage, spec_parse_usage, spec_encode_usage};
use crate::tree::{Element, ElementV, opt_text, spec_attr, spec_get_child, spec_child_text_opt,
    text_elem};

verus! {

/// A set of enumerated values.
#[derive(Clone, Debug, PartialEq)]
pub struct EnumeratedValues {
    /// Identifier of the whole enumeration section.
    pub name: Option<String>,
    /// What the set applies to.
    pub usage: Option<Usage>,
    /// Name of a previously defined section this one copies.
    pub derived_from: Option<String>,
    /// The values; non-empty whenever `derived_from` is unset.
    pub values: Vec<EnumeratedValue>,
}

/// Mathematical image of an [`EnumeratedValues`].
#[verifier::ext_equal]
pub struct EnumeratedValuesV {
    pub name: Option<Seq<char>>,
    pub usage: Option<Usage>,
    pub derived_from: Option<Seq<char>>,
    pub values: Seq<EnumeratedValueV>,
}

impl View for EnumeratedValues {
    type V = EnumeratedValuesV;

    open spec fn view(&self) -> EnumeratedValuesV {
        EnumeratedValuesV {
            name: opt_text(self.name),
            usage: self.usage,
            derived_from: opt_text(self.derived_from),
            values: self.values@.map_values(|v: EnumeratedValue| v@),
        }
    }
}

impl EnumeratedValues {
    /// The construction invariant: a set that derives from nothing holds at
    /// least one value.
    pub open spec fn wf(self) -> bool {
        self.derived_from is None ==> self.values@.len() >= 1
    }
}

/// An `<enumeratedValues>` set that derives from nothing and holds no
/// values.
#[derive(Clone, Copy, Debug, PartialEq, Eq, Structural)]
pub enum EnumeratedValuesError {
    Empty,
}

/// A builder for [`EnumeratedValues`]: every field is optional, but a set
/// without `derived_from` must receive at least one value.
#[derive(Clone, Debug, PartialEq, Default)]
pub struct EnumeratedValuesBuilder {
    pub name: Option<String>,
    pub usage: Option<Usage>,
    pub derived_from: Option<String>,
    pub values: Option<Vec<EnumeratedValue>>,
}

impl EnumeratedValuesBuilder {
    /// Sets the section name.
    pub fn name(self, value: Option<String>) -> (r: Self)
        ensures
            r == (Self { name: value, ..self }),
    {
        Self { name: value, ..self }
    }

    /// Sets the usage.
    pub fn usage(self, value: Option<Usage>) -> (r: Self)
        ensures
            r == (Self { usage: value, ..self }),
    {
        Self { usage: value, ..self }
    }

    /// Sets the derivation source.
    pub fn derived_from(self, value: Option<String>) -> (r: Self)
        ensures
            r == (Self { derived_from: value, ..self }),
    {
        Self { derived_from: value, ..self }
    }

    /// Sets the values.
    pub fn values(self, value: Vec<EnumeratedValue>) -> (r: Self)
        ensures
            r == (Self { values: Some(value), ..self }),
    {
        Self { values: Some(value), ..self }
    }

    /// Builds the set, unset values counting as none: the set exactly as
    /// given when it is well formed, the empty-collection condition when a
    /// set without derivation holds no value.
    pub fn build(self) -> (r: Result<EnumeratedValues, SvdError>)
        ensures
            ({
                let vals = match self.values {
                    Some(v) => v@,
                    None => Seq::<EnumeratedValue>::empty(),
                };
                if self.derived_from is None && vals.len() == 0 {
                    r matches Err(e) && e@ == err_of(SvdErrorKindV::EnumeratedValuesEmpty)
                } else {
                    r matches Ok(s) && s.name == self.name && s.usage == self.usage
                        && s.derived_from == self.derived_from && s.values@ == vals && s.wf()
                }
            }),
    {
        let values = match self.values {
            Some(v) => v,
            None => Vec::new(),
        };
        let out = EnumeratedValues {
            name: self.name,
            usage: self.usage,
            derived_from: self.derived_from,
            values,
        };
        out.validate()
    }
}

impl EnumeratedValues {
    /// Demands the construction invariant: the set itself when some value
    /// or a derivation is present, the empty-collection condition
    /// otherwise.
    pub fn validate(self) -> (r: Result<EnumeratedValues, SvdError>)
        ensures
            if self.derived_from is None && self.values@.len() == 0 {
                r matches Err(e) && e@ == err_of(SvdErrorKindV::EnumeratedValuesEmpty)
            } else {
                r == Ok::<EnumeratedValues, SvdError>(self) && self.wf()
            },
    {
        if self.derived_from.is_some() {
            Ok(self)
        } else if self.values.len() == 0 {
            Err(SvdError::new(SvdErrorKind::EnumeratedValuesEmpty))
        } else {
            Ok(self)
        }
    }
}

impl EnumeratedValues {
    /// Whether every numeric value of the set lies in the half-open range
    /// `min..max`; entries without a numeric value pass.
    pub fn check_range(&self, min: u64, max: u64) -> (r: bool)
        ensures
            r == (forall|i: int|
                0 <= i < self.values@.len() ==> match (#[trigger] self.values@[i]).value {
                    Some(v) => min <= v < max,
                    None => true,
                }),
    {
        let n = self.values.len();
        let mut i: usize = 0;
        while i < n
            invariant
                i <= n,
                n == self.values@.len(),
                forall|j: int|
                    0 <= j < i ==> match (#[trigger] self.values@[j]).value {
                        Some(v) => min <= v < max,
                        None => true,
                    },
            decreases n - i,
        {
            match self.values[i].value {
                Some(v) => {
                    if v < min || v >= max {
                        return false;
                    }
                },
                None => {},
            }
            i = i + 1;
        }
        true
    }
}

/// The entries written by the children of `e` from position `i` on,
/// numbering parsed entries from `idx`: known section tags are passed
/// over, an `enumeratedValue` is parsed with its position as context, and
/// any other child is refused.
pub open spec fn spec_parse_ev_list(children: Seq<ElementV>, idx: nat) -> Result<
    Seq<EnumeratedValueV>,
    SvdErrorV,
>
    decreases children.len(),
{
    if children.len() == 0 {
        Ok(Seq::empty())
    } else {
        let c = children[0];
        if c.name == "name"@ || c.name == "headerEnumName"@ || c.name == "usage"@ {
            spec_parse_ev_list(children.skip(1), idx)
        } else if c.name == "enumeratedValue"@ {
            match spec_parse_enumerated_value(c) {
                Err(x) => Err(err_in(x, "Parsing enumerated value #"@ + dec_digits(idx))),
                Ok(v) => match spec_parse_ev_list(children.skip(1), idx + 1) {
                    Err(x) => Err(x),
                    Ok(rest) => Ok(seq![v] + rest),
                },
            }
        } else {
            Err(err_of(SvdErrorKindV::NotExpectedTag("enumeratedValue"@)))
        }
    }
}

/// The set written by `e`: the element must be named `enumeratedValues`;
/// the optional section name, usage and `derivedFrom` attribute are read,
/// every remaining child parsed per [`spec_parse_ev_list`], and the result
/// must meet the non-emptiness invariant.
pub open spec fn spec_parse_enumerated_values(e: ElementV) -> Result<EnumeratedValuesV, SvdErrorV> {
    if e.name != "enumeratedValues"@ {
        Err(err_of(SvdErrorKindV::NotExpectedTag("enumeratedValues"@)))
    } else {
        let usage = match spec_get_child(e, "usage"@) {
            None => Ok(None),
            Some(c) => match spec_parse_usage(c) {
                Ok(u) => Ok(Some(u)),
                Err(k) => Err(k),
            },
        };
        match usage {
            Err(k) => Err(err_of(k)),
            Ok(usage) => match spec_parse_ev_list(e.children, 0) {
                Err(x) => Err(x),
                Ok(values) => {
                    let derived_from = spec_attr(e, "derivedFrom"@);
                    if derived_from is None && values.len() == 0 {
                        Err(err_of(SvdErrorKindV::EnumeratedValuesEmpty))
                    } else {
                        Ok(
                            EnumeratedValuesV {
                                name: spec_child_text_opt(e, "name"@),
                                usage: usage,
                                derived_from: derived_from,
                                values: values,
                            },
                        )
                    }
                },
            },
        }
    }
}

/// The image of an encoded set: section name and usage first, then every
/// value, the derivation as an attribute.
pub open spec fn spec_encode_enumerated_values(v: EnumeratedValuesV) -> ElementV {
    ElementV {
        name: "enumeratedValues"@,
        attributes: match v.derived_from {
            Some(d) => seq![("derivedFrom"@, d)],
            None => Seq::empty(),
        },
        children: (match v.name {
            Some(n) => seq![text_elem("name"@, n)],
            None => Seq::empty(),
        }) + (match v.usage {
            Some(u) => seq![spec_encode_usage(u)],
            None => Seq::empty(),
        }) + v.values.map_values(|x: EnumeratedValueV| spec_encode_enumerated_value(x)),
        text: None,
    }
}

impl EnumeratedValues {
    /// Reads a set from an `<enumeratedValues>` element, per
    /// [`spec_parse_enumerated_values`]; every set read is well formed.
    pub fn parse(tree: &Element) -> (r: Result<EnumeratedValues, SvdError>)
        ensures
            match spec_parse_enumerated_values(tree@) {
                Ok(v) => r matches Ok(s) && s@ == v && s.wf(),
                Err(e) => r matches Err(x) && x@ == e,
            },
    {
        if !crate::tree::string_eq_str(&tree.name, "enumeratedValues") {
            return Err(
                SvdError::new(SvdErrorKind::NotExpectedTag("enumeratedValues".to_owned())),
            );
        }
        let usage = match tree.get_child("usage") {
            None => None,
            Some(c) => match Usage::parse(c) {
                Ok(u) => Some(u),
                Err(e) => {
                    return Err(e);
                },
            },
        };
        let n = tree.children.len();
        let mut values: Vec<EnumeratedValue> = Vec::new();
        let mut idx: u64 = 0;
        let mut i: usize = 0;
        proof {
            assert(tree@.children.skip(0) =~= tree@.children);
        }
        while i < n
            invariant
                i <= n,
                n == tree.children@.len(),
                tree@.children.len() == n,
                idx <= i,
                tree@.name == "enumeratedValues"@,
                (match spec_get_child(tree@, "usage"@) {
                    None => Ok::<Option<Usage>, SvdErrorKindV>(None),
                    Some(c) => match spec_parse_usage(c) {
                        Ok(u) => Ok(Some(u)),
                        Err(k) => Err(k),
                    },
                }) == Ok::<Option<Usage>, SvdErrorKindV>(usage),
                forall|j: int|
                    0 <= j < n ==> #[trigger] tree@.children[j] == crate::tree::elem_view(
                        tree.children@[j],
                    ),
                spec_parse_ev_list(tree@.children, 0) == (match spec_parse_ev_list(
                    tree@.children.skip(i as int),
                    idx as nat,
                ) {
                    Ok(rest) => Ok::<Seq<EnumeratedValueV>, SvdErrorV>(
                        values@.map_values(|x: EnumeratedValue| x@) + rest,
                    ),
                    Err(x) => Err(x),
                }),
            decreases n - i,
        {
            let c = &tree.children[i];
            let ghost pre = values@.map_values(|x: EnumeratedValue| x@);
            proof {
                assert(tree@.children.skip(i as int)[0] == tree@.children[i as int]);
                assert(tree@.children.skip(i as int).skip(1) =~= tree@.children.skip(i + 1));
            }
            if crate::tree::string_eq_str(&c.name, "name") || crate::tree::string_eq_str(
                &c.name,
                "headerEnumName",
            ) || crate::tree::string_eq_str(&c.name, "usage") {
                // a section tag, not a value
            } else if crate::tree::string_eq_str(&c.name, "enumeratedValue") {
                match EnumeratedValue::parse(c) {
                    Ok(v) => {
                        values.push(v);
                        proof {
                            assert(values@.map_values(|x: EnumeratedValue| x@) =~= pre.push(
                                values@.last()@,
                            ));
                            assert forall|rest: Seq<EnumeratedValueV>|
                                #[trigger] (pre.push(values@.last()@) + rest) =~= pre + (seq![
                                    values@.last()@,
                                ] + rest) by {}
                        }
                        idx = idx + 1;
                    },
                    Err(e) => {
                        let mut ctx: String = "Parsing enumerated value #".to_owned();
                        ctx.append(crate::parse::fmt_dec(idx).as_str());
                        proof {
                            reveal_strlit("Parsing enumerated value #");
                            assert(ctx@ =~= "Parsing enumerated value #"@ + dec_digits(
                                idx as nat,
                            ));
                        }
                        return Err(e.in_context(ctx));
                    },
                }
            } else {
                return Err(
                    SvdError::new(SvdErrorKind::NotExpectedTag("enumeratedValue".to_owned())),
                );
            }
            i = i + 1;
        }
        proof {
            assert(tree@.children.skip(n as int) =~= Seq::<ElementV>::empty());
            assert(values@.map_values(|x: EnumeratedValue| x@) + Seq::<EnumeratedValueV>::empty()
                =~= values@.map_values(|x: EnumeratedValue| x@));
        }
        let derived_from = tree.get_attr("derivedFrom");
        let name = tree.get_child_text_opt("name");
        let out = EnumeratedValues { name, usage, derived_from, values };
        out.validate()
    }

    /// Writes this set back as an element, per
    /// [`spec_encode_enumerated_values`].
    pub fn encode(&self) -> (r: Element)
        ensures
            r@ == spec_encode_enumerated_values(self@),
    {
        let mut e = Element::new("enumeratedValues", None);
        match &self.name {
            Some(n) => {
                e.push_text_child("name", n.clone());
            },
            None => {},
        }
        match self.usage {
            Some(u) => {
                e.push_child(u.encode());
            },
            None => {},
        }
        match &self.derived_from {
            Some(d) => {
                e.push_attr("derivedFrom", d.clone());
            },
            None => {},
        }
        let n = self.values.len();
        let mut i: usize = 0;
        while i < n
            invariant
                i <= n,
                n == self.values@.len(),
                e@.name == "enumeratedValues"@,
                e@.text is None,
                e@.attributes == spec_encode_enumerated_values(self@).attributes,
                e@.children == (match opt_text(self.name) {
                    Some(nm) => seq![text_elem("name"@, nm)],
                    None => Seq::<ElementV>::empty(),
                }) + (match self.usage {
                    Some(u) => seq![spec_encode_usage(u)],
                    None => Seq::<ElementV>::empty(),
                }) + self.values@.map_values(|x: EnumeratedValue| x@).map_values(
                    |x: EnumeratedValueV| spec_encode_enumerated_value(x),
                ).take(i as int),
            decreases n - i,
        {
            let ghost before = e@.children;
            e.push_child(self.values[i].encode());
            proof {
                let evs = self.values@.map_values(|x: EnumeratedValue| x@).map_values(
                    |x: EnumeratedValueV| spec_encode_enumerated_value(x),
                );
                assert(evs.take(i + 1) =~= evs.take(i as int).push(evs[i as int]));
                assert(e@.children =~= before.push(
                    spec_encode_enumerated_value(self.values@[i as int]@),
                ));
            }
            i = i + 1;
        }
        proof {
            let evs = self.values@.map_values(|x: EnumeratedValue| x@).map_values(
                |x: EnumeratedValueV| spec_encode_enumerated_value(x),
            );
            assert(evs.take(n as int) =~= evs);
            assert(self@.values.map_values(|x: EnumeratedValueV| spec_encode_enumerated_value(x))
                =~= evs);
            assert(e@ =~~= spec_encode_enumerated_values(self@));
        }
        e
    }
}

} // verus!
