//! An interrupt line of a peripheral: a name, an optional description, and
//! the enumeration index it raises.

use vstd::prelude::*;

use crate::errors::{err_in, err_of, ctx_text, make_ctx, SvdError, SvdErrorKind, SvdErrorKindV,
    SvdErrorV, ConvType};
use crate::parse::dec_digits;
use crate::tree::{Element, ElementV, opt_text, opt_text_elem, spec_child_num, spec_child_text,
    spec_child_text_opt, text_elem};

verus! {

/// An interrupt raised by a peripheral.
#[derive(Clone, Debug, PartialEq)]
pub struct Interrupt {
    /// The interrupt's name.
    pub name: String,
    /// Describes the interrupt.
    pub description: Option<String>,
    /// The enumeration index value associated to the interrupt.
    pub value: u32,
}

/// Mathematical image of an [`Interrupt`].
#[verifier::ext_equal]
pub struct InterruptV {
    pub name: Seq<char>,
    pub description: Option<Seq<char>>,
    pub value: u32,
}

impl View for Interrupt {
    type V = InterruptV;

    open spec fn view(&self) -> InterruptV {
        InterruptV { name: self.name@, description: opt_text(self.description), value: self.value }
    }
}

/// The interrupt written by the children of `e`, its name already read:
/// the optional description and the numeric value, a failing value wrapped
/// by the interrupt's name.
pub open spec fn spec_parse_interrupt_named(e: ElementV, name: Seq<char>) -> Result<
    InterruptV,
    SvdErrorV,
> {
    match spec_child_num(e, "value"@, u32::MAX as nat, ConvType::U32) {
        Err(k) => Err(err_in(err_of(k), ctx_text("In interrupt `"@, name))),
        Ok(v) => Ok(
            InterruptV {
                name: name,
                description: spec_child_text_opt(e, "description"@),
                value: v as u32,
            },
        ),
    }
}

/// The interrupt written by `e`: the element must be named `interrupt` and
/// hold a `name` child; the rest per [`spec_parse_interrupt_named`].
pub open spec fn spec_parse_interrupt(e: ElementV) -> Result<InterruptV, SvdErrorV> {
    if e.name != "interrupt"@ {
        Err(err_of(SvdErrorKindV::NotExpectedTag("interrupt"@)))
    } else {
        match spec_child_text(e, "name"@) {
            Err(k) => Err(err_of(k)),
            Ok(name) => spec_parse_interrupt_named(e, name),
        }
    }
}

/// The image of an encoded interrupt: name, description (an empty child
/// when unset) and decimal value.
pub open spec fn spec_encode_interrupt(v: InterruptV) -> ElementV {
    ElementV {
        name: "interrupt"@,
        attributes: Seq::empty(),
        children: seq![
            text_elem("name"@, v.name),
            opt_text_elem("description"@, v.description),
            text_elem("value"@, dec_digits(v.value as nat)),
        ],
        text: None,
    }
}

/// Reads the description and value of an interrupt whose name is already
/// known, per [`spec_parse_interrupt_named`].
pub fn parse_interrupt(tree: &Element, name: String) -> (r: Result<Interrupt, SvdError>)
    ensures
        match spec_parse_interrupt_named(tree@, name@) {
            Ok(v) => r matches Ok(i) && i@ == v,
            Err(e) => r matches Err(x) && x@ == e,
        },
{
    let description = tree.get_child_text_opt("description");
    match tree.get_child_u32("value") {
        Err(e) => Err(e.in_context(make_ctx("In interrupt `", &name))),
        Ok(value) => Ok(Interrupt { name, description, value }),
    }
}

impl Interrupt {
    /// Reads an interrupt from an `<interrupt>` element, per
    /// [`spec_parse_interrupt`].
    pub fn parse(tree: &Element) -> (r: Result<Interrupt, SvdError>)
        ensures
            match spec_parse_interrupt(tree@) {
                Ok(v) => r matches Ok(i) && i@ == v,
                Err(e) => r matches Err(x) && x@ == e,
            },
    {
        if !crate::tree::string_eq_str(&tree.name, "interrupt") {
            return Err(
                SvdError::new(SvdErrorKind::NotExpectedTag("interrupt".to_owned())),
            );
        }
        let name = match tree.get_child_text("name") {
            Ok(n) => n,
            Err(e) => {
                return Err(e);
            },
        };
        parse_interrupt(tree, name)
    }

    /// Writes this interrupt back as an element, per
    /// [`spec_encode_interrupt`].
    pub fn encode(&self) -> (r: Element)
        ensures
            r@ == spec_encode_interrupt(self@),
    {
        let mut e = Element::new("interrupt", None);
        e.push_text_child("name", self.name.clone());
        e.push_opt_text_child("description", self.description.clone());
        e.push_text_child("value", crate::parse::fmt_dec(self.value as u64));
        proof {
            assert(e@.children =~= spec_encode_interrupt(self@).children);
            assert(e@ =~~= spec_encode_interrupt(self@));
        }
        e
    }
}

/// Reading back an encoded interrupt yields the value encoded: the
/// interrupt round trip.
pub proof fn lemma_interrupt_round_trip(v: InterruptV)
    ensures
        spec_parse_interrupt(spec_encode_interrupt(v)) == Ok::<InterruptV, SvdErrorV>(v),
{
    let e = spec_encode_interrupt(v);
    reveal_strlit("interrupt");
    reveal_strlit("name");
    reveal_strlit("description");
    reveal_strlit("value");
    assert("name"@.len() == 4 && "description"@.len() == 11 && "value"@.len() == 5
        && "interrupt"@.len() == 9);
    assert(e.children[0].name == "name"@ && e.children[1].name == "description"@ && e.children[2]
        .name == "value"@);
    crate::tree::lemma_first_child_index(e.children, "name"@);
    crate::tree::lemma_first_child_index(e.children, "description"@);
    crate::tree::lemma_first_child_index(e.children, "value"@);
    crate::parse::lemma_parse_num_of_dec(v.value as nat, u32::MAX as nat);
    assert(spec_parse_interrupt_named(e, v.name) =~~= Ok::<InterruptV, SvdErrorV>(v));
}

} // verus!
