//! A `<peripheral>`: a named, address-mapped hardware block containing
//! registers and clusters.

use vstd::prelude::*;

use crate::encode::{hex_digits_upper, with_0x, fmt_hex_0x_upper};
use crate::errors::{err_in, err_of, ctx_text, make_ctx, SvdError, SvdErrorKind, SvdErrorKindV,
    SvdErrorV, ConvType};
use crate::svd::addressblock::{AddressBlock, AddressBlockV, spec_parse_address_block,
    spec_encode_address_block};
use crate::svd::clusterinfo::{RegisterCluster, RegisterClusterV, register_cluster_wf,
    spec_parse_rc_list, spec_encode_register_cluster, parse_rc_list};
use crate::svd::interrupt::{Interrupt, InterruptV, spec_parse_interrupt, spec_encode_interrupt};
use crate::svd::registerproperties::{RegisterProperties, spec_parse_register_properties,
    spec_encode_register_properties};
use crate::tree::{Element, ElementV, app_opt, opt_text, spec_attr, spec_get_child,
    spec_child_text, spec_child_text_opt, spec_child_num, text_elem};

verus! {

/// A named, address-mapped hardware block.
#[derive(Debug, PartialEq)]
pub struct Peripheral {
    /// The peripheral's name, unique within the device.
    pub name: String,
    /// Version of this peripheral description.
    pub version: Option<String>,
    /// A name free of identifier restrictions.
    pub display_name: Option<String>,
    /// Group the peripheral belongs to.
    pub group_name: Option<String>,
    /// Describes the peripheral.
    pub description: Option<String>,
    /// Lowest address of the peripheral's block.
    pub base_address: u64,
    /// The address region the peripheral occupies.
    pub address_block: Option<AddressBlock>,
    /// The interrupts the peripheral raises.
    pub interrupt: Vec<Interrupt>,
    /// Default properties for the registers below.
    pub default_register_properties: RegisterProperties,
    /// The registers and clusters; `None` when no `<registers>` tag was
    /// present.
    pub registers: Option<Vec<RegisterCluster>>,
    /// Name of the peripheral this one copies its unset fields from.
    pub derived_from: Option<String>,
}

/// Mathematical image of a [`Peripheral`].
#[verifier::ext_equal]
pub struct PeripheralV {
    pub name: Seq<char>,
    pub version: Option<Seq<char>>,
    pub display_name: Option<Seq<char>>,
    pub group_name: Option<Seq<char>>,
    pub description: Option<Seq<char>>,
    pub base_address: u64,
    pub address_block: Option<AddressBlockV>,
    pub interrupt: Seq<InterruptV>,
    pub default_register_properties: RegisterProperties,
    pub registers: Option<Seq<RegisterClusterV>>,
    pub derived_from: Option<Seq<char>>,
}

/// The view of an optional address block.
pub open spec fn opt_ab_view(o: Option<AddressBlock>) -> Option<AddressBlockV> {
    match o {
        Some(a) => Some(a@),
        None => None,
    }
}

/// The view of an optional register-and-cluster list.
pub open spec fn opt_rc_view(o: Option<Vec<RegisterCluster>>) -> Option<Seq<RegisterClusterV>> {
    match o {
        Some(v) => Some(v@.map_values(|c: RegisterCluster| c@)),
        None => None,
    }
}

impl View for Peripheral {
    type V = PeripheralV;

    open spec fn view(&self) -> PeripheralV {
        PeripheralV {
            name: self.name@,
            version: opt_text(self.version),
            display_name: opt_text(self.display_name),
            group_name: opt_text(self.group_name),
            description: opt_text(self.description),
            base_address: self.base_address,
            address_block: opt_ab_view(self.address_block),
            interrupt: self.interrupt@.map_values(|i: Interrupt| i@),
            default_register_properties: self.default_register_properties,
            registers: opt_rc_view(self.registers),
            derived_from: opt_text(self.derived_from),
        }
    }
}

impl Peripheral {
    /// A well-formed peripheral holds well-formed registers and clusters.
    pub open spec fn wf(self) -> bool {
        match self.registers {
            Some(rs) => forall|i: int|
                0 <= i < rs@.len() ==> register_cluster_wf(#[trigger] rs@[i]),
            None => true,
        }
    }
}

/// The interrupts written by the children of `e`: children named
/// `interrupt` are parsed, all others passed over.
pub open spec fn spec_parse_interrupt_list(children: Seq<ElementV>) -> Result<
    Seq<InterruptV>,
    SvdErrorV,
>
    decreases children.len(),
{
    if children.len() == 0 {
        Ok(Seq::empty())
    } else if children[0].name == "interrupt"@ {
        match spec_parse_interrupt(children[0]) {
            Err(x) => Err(x),
            Ok(i) => match spec_parse_interrupt_list(children.skip(1)) {
                Err(x) => Err(x),
                Ok(rest) => Ok(seq![i] + rest),
            },
        }
    } else {
        spec_parse_interrupt_list(children.skip(1))
    }
}

/// The peripheral written by the children of `e`, its name already read;
/// failures below the name are wrapped by the peripheral's name.
pub open spec fn spec_parse_peripheral_named(e: ElementV, name: Seq<char>) -> Result<
    PeripheralV,
    SvdErrorV,
> {
    let ctx = ctx_text("In peripheral `"@, name);
    match spec_child_num(e, "baseAddress"@, u64::MAX as nat, ConvType::U64) {
        Err(k) => Err(err_in(err_of(k), ctx)),
        Ok(base) => match spec_parse_register_properties(e) {
            Err(x) => Err(err_in(x, ctx)),
            Ok(props) => {
                let ab = match spec_get_child(e, "addressBlock"@) {
                    None => Ok(None),
                    Some(c) => match spec_parse_address_block(c) {
                        Ok(a) => Ok(Some(a)),
                        Err(x) => Err(x),
                    },
                };
                match ab {
                    Err(x) => Err(err_in(x, ctx)),
                    Ok(ab) => match spec_parse_interrupt_list(e.children) {
                        Err(x) => Err(err_in(x, ctx)),
                        Ok(ints) => {
                            let regs = match spec_get_child(e, "registers"@) {
                                None => Ok(None),
                                Some(rs) => match spec_parse_rc_list(rs.children) {
                                    Err(x) => Err(x),
                                    Ok(cs) => Ok(Some(cs)),
                                },
                            };
                            match regs {
                                Err(x) => Err(err_in(x, ctx)),
                                Ok(regs) => Ok(
                                    PeripheralV {
                                        name: name,
                                        version: spec_child_text_opt(e, "version"@),
                                        display_name: spec_child_text_opt(e, "displayName"@),
                                        group_name: spec_child_text_opt(e, "groupName"@),
                                        description: spec_child_text_opt(e, "description"@),
                                        base_address: base as u64,
                                        address_block: ab,
                                        interrupt: ints,
                                        default_register_properties: props,
                                        registers: regs,
                                        derived_from: spec_attr(e, "derivedFrom"@),
                                    },
                                ),
                            }
                        },
                    },
                }
            },
        },
    }
}

/// The peripheral written by `e`: the element must be named `peripheral`
/// and hold a `name` child; the rest per [`spec_parse_peripheral_named`].
pub open spec fn spec_parse_peripheral(e: ElementV) -> Result<PeripheralV, SvdErrorV> {
    if e.name != "peripheral"@ {
        Err(err_of(SvdErrorKindV::NotExpectedTag("peripheral"@)))
    } else {
        match spec_child_text(e, "name"@) {
            Err(k) => Err(err_of(k)),
            Ok(name) => spec_parse_peripheral_named(e, name),
        }
    }
}

/// The children of an encoded peripheral, in order of construction.
pub open spec fn spec_peripheral_children(v: PeripheralV) -> Seq<ElementV> {
    let c = Seq::empty().push(text_elem("name"@, v.name));
    let c = app_opt(
        c,
        match v.version {
            Some(d) => Some(text_elem("version"@, d)),
            None => None,
        },
    );
    let c = app_opt(
        c,
        match v.display_name {
            Some(d) => Some(text_elem("displayName"@, d)),
            None => None,
        },
    );
    let c = app_opt(
        c,
        match v.group_name {
            Some(d) => Some(text_elem("groupName"@, d)),
            None => None,
        },
    );
    let c = app_opt(
        c,
        match v.description {
            Some(d) => Some(text_elem("description"@, d)),
            None => None,
        },
    );
    let c = c.push(text_elem("baseAddress"@, with_0x(hex_digits_upper(v.base_address as nat))));
    let c = c + spec_encode_register_properties(v.default_register_properties);
    let c = app_opt(
        c,
        match v.address_block {
            Some(a) => Some(spec_encode_address_block(a)),
            None => None,
        },
    );
    let c = c + v.interrupt.map_values(|i: InterruptV| spec_encode_interrupt(i));
    app_opt(
        c,
        match v.registers {
            Some(rs) => Some(
                ElementV {
                    name: "registers"@,
                    attributes: Seq::empty(),
                    children: rs.map_values(|x: RegisterClusterV| spec_encode_register_cluster(x)),
                    text: None,
                },
            ),
            None => None,
        },
    )
}

/// The image of an encoded peripheral.
pub open spec fn spec_encode_peripheral(v: PeripheralV) -> ElementV {
    ElementV {
        name: "peripheral"@,
        attributes: match v.derived_from {
            Some(d) => Seq::empty().push(("derivedFrom"@, d)),
            None => Seq::empty(),
        },
        children: spec_peripheral_children(v),
        text: None,
    }
}

impl Peripheral {
    /// Reads a peripheral from a `<peripheral>` element, per
    /// [`spec_parse_peripheral`]; every peripheral read is well formed.
    pub fn parse(tree: &Element) -> (r: Result<Peripheral, SvdError>)
        ensures
            match spec_parse_peripheral(tree@) {
                Ok(v) => r matches Ok(p) && p@ == v && p.wf(),
                Err(e) => r matches Err(x) && x@ == e,
            },
    {
        if !crate::tree::string_eq_str(&tree.name, "peripheral") {
            return Err(
                SvdError::new(SvdErrorKind::NotExpectedTag("peripheral".to_owned())),
            );
        }
        let name = match tree.get_child_text("name") {
            Ok(n) => n,
            Err(e) => {
                return Err(e);
            },
        };
        parse_peripheral(tree, name)
    }

    /// Writes this peripheral back as an element, per
    /// [`spec_encode_peripheral`].
    #[verifier::rlimit(60)]
    pub fn encode(&self) -> (r: Element)
        requires
            self.wf(),
        ensures
            r@ == spec_encode_peripheral(self@),
    {
        let mut e = Element::new("peripheral", None);
        match &self.derived_from {
            Some(d) => {
                e.push_attr("derivedFrom", d.clone());
            },
            None => {},
        }
        e.push_text_child("name", self.name.clone());
        match &self.version {
            Some(d) => {
                e.push_text_child("version", d.clone());
            },
            None => {},
        }
        match &self.display_name {
            Some(d) => {
                e.push_text_child("displayName", d.clone());
            },
            None => {},
        }
        match &self.group_name {
            Some(d) => {
                e.push_text_child("groupName", d.clone());
            },
            None => {},
        }
        match &self.description {
            Some(d) => {
                e.push_text_child("description", d.clone());
            },
            None => {},
        }
        e.push_text_child("baseAddress", fmt_hex_0x_upper(self.base_address));
        e.append_children(self.default_register_properties.encode());
        match &self.address_block {
            Some(a) => {
                e.push_child(a.encode());
            },
            None => {},
        }
        let ghost mid = e@.children;
        let n = self.interrupt.len();
        let mut i: usize = 0;
        while i < n
            invariant
                i <= n,
                n == self.interrupt@.len(),
                e@.name == "peripheral"@,
                e@.text is None,
                e@.attributes == spec_encode_peripheral(self@).attributes,
                e@.children == mid + self.interrupt@.map_values(|x: Interrupt| x@).map_values(
                    |x: InterruptV| spec_encode_interrupt(x),
                ).take(i as int),
            decreases n - i,
        {
            let ghost before = e@.children;
            e.push_child(self.interrupt[i].encode());
            proof {
                let all = self.interrupt@.map_values(|x: Interrupt| x@).map_values(
                    |x: InterruptV| spec_encode_interrupt(x),
                );
                assert(all.take(i + 1) =~= all.take(i as int).push(all[i as int]));
                assert(e@.children =~= before.push(
                    spec_encode_interrupt(self.interrupt@[i as int]@),
                ));
            }
            i = i + 1;
        }
        proof {
            let all = self.interrupt@.map_values(|x: Interrupt| x@).map_values(
                |x: InterruptV| spec_encode_interrupt(x),
            );
            assert(all.take(n as int) =~= all);
            assert(self@.interrupt.map_values(|x: InterruptV| spec_encode_interrupt(x)) =~= all);
        }
        match &self.registers {
            Some(rs) => {
                e.push_child(encode_registers(rs));
            },
            None => {},
        }
        proof {
            match self@.registers {
                Some(rs) => {
                    assert(rs.map_values(|x: RegisterClusterV| spec_encode_register_cluster(x))
                        =~= self.registers.unwrap()@.map_values(
                        |c: RegisterCluster| c@,
                    ).map_values(|x: RegisterClusterV| spec_encode_register_cluster(x)));
                },
                None => {},
            }
            assert(e@.children == spec_peripheral_children(self@));
            assert(e@ =~~= spec_encode_peripheral(self@));
        }
        e
    }
}

/// The `<registers>` element holding every encoded child of `rs`.
fn encode_registers(rs: &Vec<RegisterCluster>) -> (r: Element)
    requires
        forall|i: int| 0 <= i < rs@.len() ==> register_cluster_wf(#[trigger] rs@[i]),
    ensures
        r@ == (ElementV {
            name: "registers"@,
            attributes: Seq::empty(),
            children: rs@.map_values(|c: RegisterCluster| c@).map_values(
                |x: RegisterClusterV| spec_encode_register_cluster(x),
            ),
            text: None,
        }),
{
    let mut re = Element::new("registers", None);
    let n = rs.len();
    let mut i: usize = 0;
    while i < n
        invariant
            i <= n,
            n == rs@.len(),
            forall|j: int| 0 <= j < n ==> register_cluster_wf(#[trigger] rs@[j]),
            re@.name == "registers"@,
            re@.text is None,
            re@.attributes == Seq::<(Seq<char>, Seq<char>)>::empty(),
            re@.children == rs@.map_values(|c: RegisterCluster| c@).map_values(
                |x: RegisterClusterV| spec_encode_register_cluster(x),
            ).take(i as int),
        decreases n - i,
    {
        let ghost before = re@.children;
        re.push_child(rs[i].encode());
        proof {
            let all = rs@.map_values(|c: RegisterCluster| c@).map_values(
                |x: RegisterClusterV| spec_encode_register_cluster(x),
            );
            assert(all.take(i + 1) =~= all.take(i as int).push(all[i as int]));
            assert(re@.children =~= before.push(
                spec_encode_register_cluster(rs@[i as int]@),
            ));
        }
        i = i + 1;
    }
    proof {
        let all = rs@.map_values(|c: RegisterCluster| c@).map_values(
            |x: RegisterClusterV| spec_encode_register_cluster(x),
        );
        assert(all.take(n as int) =~= all);
        assert(re@ =~~= (ElementV {
            name: "registers"@,
            attributes: Seq::empty(),
            children: all,
            text: None,
        }));
    }
    re
}

/// Reads the body of a peripheral whose name is already known, per
/// [`spec_parse_peripheral_named`].
pub fn parse_peripheral(tree: &Element, name: String) -> (r: Result<Peripheral, SvdError>)
    ensures
        match spec_parse_peripheral_named(tree@, name@) {
            Ok(v) => r matches Ok(p) && p@ == v && p.wf(),
            Err(e) => r matches Err(x) && x@ == e,
        },
{
    let base_address = match tree.get_child_u64("baseAddress") {
        Ok(v) => v,
        Err(e) => {
            return Err(e.in_context(make_ctx("In peripheral `", &name)));
        },
    };
    let props = match RegisterProperties::parse(tree) {
        Ok(p) => p,
        Err(e) => {
            return Err(e.in_context(make_ctx("In peripheral `", &name)));
        },
    };
    let address_block = match tree.get_child("addressBlock") {
        None => None,
        Some(c) => match AddressBlock::parse(c) {
            Ok(a) => Some(a),
            Err(e) => {
                return Err(e.in_context(make_ctx("In peripheral `", &name)));
            },
        },
    };
    let interrupt = match parse_interrupt_list(tree) {
        Ok(is) => is,
        Err(e) => {
            return Err(e.in_context(make_ctx("In peripheral `", &name)));
        },
    };
    let registers = match tree.get_child("registers") {
        None => None,
        Some(rs) => match parse_rc_list(rs) {
            Ok(cs) => Some(cs),
            Err(e) => {
                return Err(e.in_context(make_ctx("In peripheral `", &name)));
            },
        },
    };
    let version = tree.get_child_text_opt("version");
    let display_name = tree.get_child_text_opt("displayName");
    let group_name = tree.get_child_text_opt("groupName");
    let description = tree.get_child_text_opt("description");
    let derived_from = tree.get_attr("derivedFrom");
    let out = Peripheral {
        name,
        version,
        display_name,
        group_name,
        description,
        base_address,
        address_block,
        interrupt,
        default_register_properties: props,
        registers,
        derived_from,
    };
    proof {
        match spec_parse_peripheral_named(tree@, name@) {
            Ok(v) => {
                assert(out@ =~~= v);
            },
            Err(_) => {
                assert(false);
            },
        }
    }
    Ok(out)
}

/// Reads every `interrupt`-named child of `tree`, per
/// [`spec_parse_interrupt_list`].
fn parse_interrupt_list(tree: &Element) -> (r: Result<Vec<Interrupt>, SvdError>)
    ensures
        match spec_parse_interrupt_list(tree@.children) {
            Ok(v) => r matches Ok(is) && is@.map_values(|i: Interrupt| i@) == v,
            Err(e) => r matches Err(x) && x@ == e,
        },
{
    let n = tree.children.len();
    let mut out: Vec<Interrupt> = Vec::new();
    let mut i: usize = 0;
    proof {
        assert(tree@.children.skip(0) =~= tree@.children);
    }
    while i < n
        invariant
            i <= n,
            n == tree.children@.len(),
            tree@.children.len() == n,
            forall|j: int|
                0 <= j < n ==> #[trigger] tree@.children[j] == crate::tree::elem_view(
                    tree.children@[j],
                ),
            spec_parse_interrupt_list(tree@.children) == (match spec_parse_interrupt_list(
                tree@.children.skip(i as int),
            ) {
                Ok(rest) => Ok::<Seq<InterruptV>, SvdErrorV>(
                    out@.map_values(|x: Interrupt| x@) + rest,
                ),
                Err(x) => Err(x),
            }),
        decreases n - i,
    {
        let c = &tree.children[i];
        let ghost pre = out@.map_values(|x: Interrupt| x@);
        proof {
            assert(tree@.children.skip(i as int)[0] == tree@.children[i as int]);
            assert(tree@.children.skip(i as int).skip(1) =~= tree@.children.skip(i + 1));
        }
        if crate::tree::string_eq_str(&c.name, "interrupt") {
            match Interrupt::parse(c) {
                Ok(x) => {
                    out.push(x);
                    proof {
                        assert(out@.map_values(|x: Interrupt| x@) =~= pre.push(out@.last()@));
                        assert forall|rest: Seq<InterruptV>|
                            #[trigger] (pre.push(out@.last()@) + rest) =~= pre + (seq![
                                out@.last()@,
                            ] + rest) by {}
                    }
                },
                Err(e) => {
                    return Err(e);
                },
            }
        }
        i = i + 1;
    }
    proof {
        assert(tree@.children.skip(n as int) =~= Seq::<ElementV>::empty());
        assert(out@.map_values(|x: Interrupt| x@) + Seq::<InterruptV>::empty() =~= out@.map_values(
            |x: Interrupt| x@,
        ));
    }
    Ok(out)
}

} // verus!
