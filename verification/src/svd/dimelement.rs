//! The `<dim>` description of an array-like element: how many copies, the
//! address increment between them, and optional explicit index labels.
//!
//! A dimensioned element is a transient template; expansion turns it into
//! concrete named siblings and never retains it.

use vstd::prelude::*;

use crate::encode::{comma_free, hex_digits_upper, join_commas, join_commas_exec,
    lemma_hex_digits, lemma_parse_num_of_hex, lemma_split_of_join, with_0x, fmt_hex_0x_upper};
use crate::errors::{err_of, SvdError, SvdErrorKind, SvdErrorKindV, SvdErrorV, TagError, TagErrorV,
    XmlContent, ConvType};
use crate::parse::{dec_digits, spec_dim_index, dim_index, lemma_parse_num_of_dec, fmt_dec};
use crate::tree::{Element, ElementV, opt_text, spec_get_child, spec_child_num, text_elem};

verus! {

/// The dimension of an array-like element.
#[derive(Clone, Debug, PartialEq)]
pub struct DimElement {
    /// Number of elements in the array.
    pub dim: u32,
    /// Address increment between two neighboring elements.
    pub dim_increment: u32,
    /// The strings substituted for the `%s` placeholder, index by index;
    /// decimal indices from zero when absent.
    pub dim_index: Option<Vec<String>>,
}

/// Mathematical image of a [`DimElement`].
#[verifier::ext_equal]
pub struct DimElementV {
    pub dim: u32,
    pub dim_increment: u32,
    pub dim_index: Option<Seq<Seq<char>>>,
}

/// The view of an optional label list.
pub open spec fn opt_labels(o: Option<Vec<String>>) -> Option<Seq<Seq<char>>> {
    match o {
        Some(v) => Some(v@.map_values(|p: String| p@)),
        None => None,
    }
}

impl View for DimElement {
    type V = DimElementV;

    open spec fn view(&self) -> DimElementV {
        DimElementV {
            dim: self.dim,
            dim_increment: self.dim_increment,
            dim_index: opt_labels(self.dim_index),
        }
    }
}

/// A builder for [`DimElement`]: `dim` and `dim_increment` are required.
#[derive(Clone, Debug, PartialEq, Default)]
pub struct DimElementBuilder {
    pub dim: Option<u32>,
    pub dim_increment: Option<u32>,
    pub dim_index: Option<Vec<String>>,
}

impl DimElementBuilder {
    /// Sets the element count.
    pub fn dim(self, value: u32) -> (r: Self)
        ensures
            r.dim == Some(value),
            r.dim_increment == self.dim_increment,
            r.dim_index == self.dim_index,
    {
        Self { dim: Some(value), ..self }
    }

    /// Sets the address increment.
    pub fn dim_increment(self, value: u32) -> (r: Self)
        ensures
            r.dim == self.dim,
            r.dim_increment == Some(value),
            r.dim_index == self.dim_index,
    {
        Self { dim_increment: Some(value), ..self }
    }

    /// Sets the explicit index labels.
    pub fn dim_index(self, value: Option<Vec<String>>) -> (r: Self)
        ensures
            r.dim == self.dim,
            r.dim_increment == self.dim_increment,
            r.dim_index == value,
    {
        Self { dim_index: value, ..self }
    }

    /// Builds the element: `Uninitialized` names the first required field
    /// still unset, and the value is returned exactly when both are set.
    pub fn build(self) -> (r: Result<DimElement, SvdError>)
        ensures
            match (self.dim, self.dim_increment) {
                (Some(d), Some(i)) => r matches Ok(v) && v.dim == d && v.dim_increment == i
                    && v.dim_index == self.dim_index,
                (None, _) => r matches Err(e) && e@ == err_of(
                    SvdErrorKindV::Uninitialized("dim"@),
                ),
                (_, None) => r matches Err(e) && e@ == err_of(
                    SvdErrorKindV::Uninitialized("dim_increment"@),
                ),
            },
    {
        let dim = match self.dim {
            Some(d) => d,
            None => {
                return Err(
                    SvdError::new(SvdErrorKind::Uninitialized("dim".to_owned())),
                );
            },
        };
        let dim_increment = match self.dim_increment {
            Some(i) => i,
            None => {
                return Err(
                    SvdError::new(SvdErrorKind::Uninitialized("dim_increment".to_owned())),
                );
            },
        };
        Ok(DimElement { dim, dim_increment, dim_index: self.dim_index })
    }
}

/// The dimension written by the children of `e`: numeric `dim` and
/// `dimIncrement`, and an optional `dimIndex` label list.
pub open spec fn spec_parse_dim_element(e: ElementV) -> Result<DimElementV, SvdErrorV> {
    match spec_child_num(e, "dim"@, u32::MAX as nat, ConvType::U32) {
        Err(k) => Err(err_of(k)),
        Ok(dim) => match spec_child_num(e, "dimIncrement"@, u32::MAX as nat, ConvType::U32) {
            Err(k) => Err(err_of(k)),
            Ok(inc) => match spec_get_child(e, "dimIndex"@) {
                None => Ok(
                    DimElementV { dim: dim as u32, dim_increment: inc as u32, dim_index: None },
                ),
                Some(c) => match c.text {
                    None => Err(
                        err_of(
                            SvdErrorKindV::Tag(
                                TagErrorV::EmptyTag { name: c.name, content: XmlContent::Text },
                            ),
                        ),
                    ),
                    Some(t) => match spec_dim_index(t) {
                        Err(k) => Err(err_of(k)),
                        Ok(labels) => Ok(
                            DimElementV {
                                dim: dim as u32,
                                dim_increment: inc as u32,
                                dim_index: Some(labels),
                            },
                        ),
                    },
                },
            },
        },
    }
}

/// The image of an encoded dimension: decimal `dim`, hexadecimal
/// `dimIncrement`, and the labels joined by commas when present.
pub open spec fn spec_encode_dim_element(v: DimElementV) -> ElementV {
    ElementV {
        name: "dimElement"@,
        attributes: Seq::empty(),
        children: match v.dim_index {
            None => seq![
                text_elem("dim"@, dec_digits(v.dim as nat)),
                text_elem("dimIncrement"@, with_0x(hex_digits_upper(v.dim_increment as nat))),
            ],
            Some(labels) => seq![
                text_elem("dim"@, dec_digits(v.dim as nat)),
                text_elem("dimIncrement"@, with_0x(hex_digits_upper(v.dim_increment as nat))),
                text_elem("dimIndex"@, join_commas(labels)),
            ],
        },
        text: None,
    }
}

impl DimElement {
    /// Reads a dimension from the children of an element, per
    /// [`spec_parse_dim_element`].
    pub fn parse(tree: &Element) -> (r: Result<DimElement, SvdError>)
        ensures
            match spec_parse_dim_element(tree@) {
                Ok(v) => r matches Ok(d) && d@ == v,
                Err(e) => r matches Err(x) && x@ == e,
            },
    {
        let dim = match tree.get_child_u32("dim") {
            Ok(v) => v,
            Err(e) => {
                return Err(e);
            },
        };
        let dim_increment = match tree.get_child_u32("dimIncrement") {
            Ok(v) => v,
            Err(e) => {
                return Err(e);
            },
        };
        let labels = match tree.get_child("dimIndex") {
            None => None,
            Some(c) => match &c.text {
                None => {
                    return Err(
                        SvdError::new(
                            SvdErrorKind::Tag(
                                TagError::EmptyTag {
                                    name: c.name.clone(),
                                    content: XmlContent::Text,
                                },
                            ),
                        ),
                    );
                },
                Some(t) => match dim_index(t.as_str()) {
                    Ok(ls) => Some(ls),
                    Err(e) => {
                        return Err(e);
                    },
                },
            },
        };
        Ok(DimElement { dim, dim_increment, dim_index: labels })
    }

    /// Writes this dimension back as an element, per
    /// [`spec_encode_dim_element`].
    pub fn encode(&self) -> (r: Element)
        ensures
            r@ == spec_encode_dim_element(self@),
    {
        let mut e = Element::new("dimElement", None);
        e.push_text_child("dim", fmt_dec(self.dim as u64));
        e.push_text_child("dimIncrement", fmt_hex_0x_upper(self.dim_increment as u64));
        match &self.dim_index {
            None => {},
            Some(labels) => {
                e.push_text_child("dimIndex", join_commas_exec(labels));
            },
        }
        proof {
            assert(e@.children =~= spec_encode_dim_element(self@).children);
            assert(e@ =~~= spec_encode_dim_element(self@));
        }
        e
    }
}

/// Reading back an encoded dimension yields the value encoded: the
/// dimension round trip. Explicit labels must be free of commas and
/// dashes, which the joined list could not carry through; absent labels
/// always round trip.
pub proof fn lemma_dim_element_round_trip(v: DimElementV)
    requires
        match v.dim_index {
            None => true,
            Some(labels) => {
                &&& labels.len() >= 1
                &&& forall|i: int| 0 <= i < labels.len() ==> comma_free(#[trigger] labels[i])
                &&& forall|i: int, j: int|
                    0 <= i < labels.len() && 0 <= j < labels[i].len() ==> #[trigger] labels[i][j]
                        != '-'
            },
        },
    ensures
        spec_parse_dim_element(spec_encode_dim_element(v)) == Ok::<DimElementV, SvdErrorV>(v),
{
    let e = spec_encode_dim_element(v);
    reveal_strlit("dim");
    reveal_strlit("dimIncrement");
    reveal_strlit("dimIndex");
    assert("dim"@.len() == 3 && "dimIncrement"@.len() == 12 && "dimIndex"@.len() == 8);
    crate::tree::lemma_first_child_index(e.children, "dim"@);
    crate::tree::lemma_first_child_index(e.children, "dimIncrement"@);
    crate::tree::lemma_first_child_index(e.children, "dimIndex"@);
    lemma_parse_num_of_dec(v.dim as nat, u32::MAX as nat);
    lemma_hex_digits(v.dim_increment as nat);
    lemma_parse_num_of_hex(with_0x(hex_digits_upper(v.dim_increment as nat)),
        v.dim_increment as nat, u32::MAX as nat);
    match v.dim_index {
        None => {
            assert(spec_parse_dim_element(e) =~~= Ok::<DimElementV, SvdErrorV>(v));
        },
        Some(labels) => {
            let t = join_commas(labels);
            crate::parse::lemma_find_char(t, '-');
            if crate::parse::find_char(t, '-') >= 0 {
                let k = crate::parse::find_char(t, '-');
                assert(t[k] == '-');
                lemma_join_has_label_chars(labels, k);
            }
            lemma_split_of_join(labels);
            crate::parse::lemma_find_char(t, ',');
            if labels.len() == 1 {
                assert(t == labels[0]);
                if crate::parse::find_char(t, ',') >= 0 {
                    assert(t[crate::parse::find_char(t, ',')] == ',');
                }
                assert(spec_dim_index(t) == Ok::<Seq<Seq<char>>, SvdErrorKindV>(seq![t]));
                assert(seq![t] =~= labels);
            } else {
                lemma_join_comma_position(labels);
                assert(t[labels[0].len() as int] == ',');
                if crate::parse::find_char(t, ',') < 0 {
                    assert(false);
                }
            }
            assert(spec_parse_dim_element(e) =~~= Ok::<DimElementV, SvdErrorV>(v));
        },
    }
}

/// Every character of a comma join is a comma or a character of some label.
proof fn lemma_join_has_label_chars(labels: Seq<Seq<char>>, k: int)
    requires
        0 <= k < join_commas(labels).len(),
    ensures
        join_commas(labels)[k] == ',' || exists|i: int, j: int|
            0 <= i < labels.len() && 0 <= j < labels[i].len() && join_commas(labels)[k]
                == #[trigger] labels[i][j],
    decreases labels.len(),
{
    if labels.len() == 0 {
    } else if labels.len() == 1 {
        assert(join_commas(labels)[k] == labels[0][k]);
    } else {
        let dl = labels.drop_last();
        let j = join_commas(dl);
        if k < j.len() {
            lemma_join_has_label_chars(dl, k);
            assert forall|i: int, x: int|
                0 <= i < dl.len() && 0 <= x < dl[i].len() && j[k] == #[trigger] dl[i][x] implies 0
                <= i < labels.len() && 0 <= x < labels[i].len() && join_commas(labels)[k]
                == labels[i][x] by {
                assert(dl[i] == labels[i]);
            }
        } else if k == j.len() {
            assert(join_commas(labels)[k] == ',');
        } else {
            let last_idx = labels.len() - 1;
            assert(join_commas(labels)[k] == labels[last_idx][k - j.len() - 1]);
        }
    }
}

/// For two or more parts, a comma stands right behind the first part in
/// the join.
proof fn lemma_join_comma_position(parts: Seq<Seq<char>>)
    requires
        parts.len() >= 2,
    ensures
        join_commas(parts)[parts[0].len() as int] == ',',
        join_commas(parts).len() > parts[0].len(),
    decreases parts.len(),
{
    if parts.len() == 2 {
        assert(parts.drop_last() =~= seq![parts[0]]);
        assert(join_commas(parts.drop_last()) == parts[0]);
    } else {
        lemma_join_comma_position(parts.drop_last());
        assert(parts.drop_last()[0] == parts[0]);
    }
}

} // verus!
