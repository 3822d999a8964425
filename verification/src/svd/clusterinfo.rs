//! A `<cluster>`: a named group of registers sharing a sub-offset within a
//! peripheral, nesting further clusters; and the register-or-cluster sum
//! every such container holds.

use vstd::prelude::*;

use crate::errors::{err_in, err_of, ctx_text, make_ctx, SvdError, SvdErrorKind, SvdErrorKindV,
    SvdErrorV, ConvType};
use crate::encode::{hex_digits_upper, with_0x, fmt_hex_0x_upper};
use crate::svd::dimelement::{DimElement, DimElementV, spec_parse_dim_element,
    spec_encode_dim_element};
use crate::svd::register::{Register, RegisterV, spec_parse_register, spec_encode_register};
use crate::svd::registerproperties::{RegisterProperties, spec_parse_register_properties,
    spec_encode_register_properties};
use crate::tree::{Element, ElementV, app_opt, opt_text, spec_attr, spec_get_child,
    spec_child_text, spec_child_text_opt, spec_opt_child_num, text_elem};

verus! {

/// A named group of registers within a peripheral.
#[derive(Debug, PartialEq)]
pub struct ClusterInfo {
    /// The cluster's name, unique within its peripheral.
    pub name: String,
    /// Describes the cluster.
    pub description: Option<String>,
    /// Struct type name to use in a generated header.
    pub header_struct_name: Option<String>,
    /// Address offset relative to the peripheral's base address; absent
    /// only on a cluster that derives it from its source.
    pub address_offset: Option<u32>,
    /// Default properties for the registers below.
    pub default_register_properties: RegisterProperties,
    /// The registers and nested clusters.
    pub children: Vec<RegisterCluster>,
    /// Name of the cluster this one copies its unset fields from.
    pub derived_from: Option<String>,
}

/// One cluster child: single, or an array template.
#[derive(Debug, PartialEq)]
pub enum Cluster {
    Single(ClusterInfo),
    Array(ClusterInfo, DimElement),
}

/// One child of a register container: exactly a register or a cluster.
#[derive(Debug, PartialEq)]
pub enum RegisterCluster {
    Register(Register),
    Cluster(Cluster),
}

/// Mathematical image of a [`ClusterInfo`].
#[verifier::ext_equal]
pub struct ClusterInfoV {
    pub name: Seq<char>,
    pub description: Option<Seq<char>>,
    pub header_struct_name: Option<Seq<char>>,
    pub address_offset: Option<u32>,
    pub default_register_properties: RegisterProperties,
    pub children: Seq<RegisterClusterV>,
    pub derived_from: Option<Seq<char>>,
}

/// Mathematical image of a [`Cluster`].
#[verifier::ext_equal]
pub enum ClusterV {
    Single(ClusterInfoV),
    Array(ClusterInfoV, DimElementV),
}

/// Mathematical image of a [`RegisterCluster`].
#[verifier::ext_equal]
pub enum RegisterClusterV {
    Register(RegisterV),
    Cluster(ClusterV),
}

/// The image of a cluster description.
pub open spec fn cluster_info_view(c: ClusterInfo) -> ClusterInfoV
    decreases c,
{
    ClusterInfoV {
        name: c.name@,
        description: opt_text(c.description),
        header_struct_name: opt_text(c.header_struct_name),
        address_offset: c.address_offset,
        default_register_properties: c.default_register_properties,
        children: Seq::new(
            c.children@.len(),
            |i: int|
                if 0 <= i < c.children@.len() {
                    register_cluster_view(c.children@[i])
                } else {
                    arbitrary()
                },
        ),
        derived_from: opt_text(c.derived_from),
    }
}

/// The image of a cluster child.
pub open spec fn cluster_view(c: Cluster) -> ClusterV
    decreases c,
{
    match c {
        Cluster::Single(i) => ClusterV::Single(cluster_info_view(i)),
        Cluster::Array(i, d) => ClusterV::Array(cluster_info_view(i), d@),
    }
}

/// The image of a register-or-cluster child.
pub open spec fn register_cluster_view(rc: RegisterCluster) -> RegisterClusterV
    decreases rc,
{
    match rc {
        RegisterCluster::Register(r) => RegisterClusterV::Register(r@),
        RegisterCluster::Cluster(c) => RegisterClusterV::Cluster(cluster_view(c)),
    }
}

impl View for ClusterInfo {
    type V = ClusterInfoV;

    open spec fn view(&self) -> ClusterInfoV {
        cluster_info_view(*self)
    }
}

impl View for Cluster {
    type V = ClusterV;

    open spec fn view(&self) -> ClusterV {
        cluster_view(*self)
    }
}

impl View for RegisterCluster {
    type V = RegisterClusterV;

    open spec fn view(&self) -> RegisterClusterV {
        register_cluster_view(*self)
    }
}

/// Whether a cluster description is well formed: well-formed children, and
/// an address offset unless derived.
pub open spec fn cluster_info_wf(c: ClusterInfo) -> bool
    decreases c,
{
    &&& (forall|i: int|
        0 <= i < c.children@.len() ==> register_cluster_wf(#[trigger] c.children@[i]))
    &&& (c.derived_from is None ==> c.address_offset is Some)
}

/// Whether a cluster child is well formed.
pub open spec fn cluster_wf(c: Cluster) -> bool
    decreases c,
{
    match c {
        Cluster::Single(i) => cluster_info_wf(i),
        Cluster::Array(i, _) => cluster_info_wf(i),
    }
}

/// Whether a register-or-cluster child is well formed.
pub open spec fn register_cluster_wf(rc: RegisterCluster) -> bool
    decreases rc,
{
    match rc {
        RegisterCluster::Register(r) => r.wf(),
        RegisterCluster::Cluster(c) => cluster_wf(c),
    }
}

/// A builder for [`ClusterInfo`]: `name` and `children` are always
/// required, `address_offset` whenever the cluster derives from nothing.
#[derive(Debug, PartialEq, Default)]
pub struct ClusterInfoBuilder {
    pub name: Option<String>,
    pub description: Option<String>,
    pub header_struct_name: Option<String>,
    pub address_offset: Option<u32>,
    pub default_register_properties: RegisterProperties,
    pub children: Option<Vec<RegisterCluster>>,
    pub derived_from: Option<String>,
}

impl ClusterInfoBuilder {
    /// Sets the name.
    pub fn name(self, value: String) -> (r: Self)
        ensures
            r == (Self { name: Some(value), ..self }),
    {
        Self { name: Some(value), ..self }
    }

    /// Sets the description.
    pub fn description(self, value: Option<String>) -> (r: Self)
        ensures
            r == (Self { description: value, ..self }),
    {
        Self { description: value, ..self }
    }

    /// Sets the generated struct name.
    pub fn header_struct_name(self, value: Option<String>) -> (r: Self)
        ensures
            r == (Self { header_struct_name: value, ..self }),
    {
        Self { header_struct_name: value, ..self }
    }

    /// Sets the address offset.
    pub fn address_offset(self, value: u32) -> (r: Self)
        ensures
            r == (Self { address_offset: Some(value), ..self }),
    {
        Self { address_offset: Some(value), ..self }
    }

    /// Sets the default register properties.
    pub fn default_register_properties(self, value: RegisterProperties) -> (r: Self)
        ensures
            r == (Self { default_register_properties: value, ..self }),
    {
        Self { default_register_properties: value, ..self }
    }

    /// Sets the children.
    pub fn children(self, value: Vec<RegisterCluster>) -> (r: Self)
        ensures
            r == (Self { children: Some(value), ..self }),
    {
        Self { children: Some(value), ..self }
    }

    /// Sets the derivation source.
    pub fn derived_from(self, value: Option<String>) -> (r: Self)
        ensures
            r == (Self { derived_from: value, ..self }),
    {
        Self { derived_from: value, ..self }
    }

    /// Builds the cluster: `Uninitialized` names a missing required field,
    /// then a cluster deriving from nothing may not be empty.
    pub fn build(self) -> (r: Result<ClusterInfo, SvdError>)
        ensures
            match (self.name, self.children) {
                (None, _) => r matches Err(e) && e@ == err_of(
                    SvdErrorKindV::Uninitialized("name"@),
                ),
                (Some(n), None) => r matches Err(e) && e@ == err_of(
                    SvdErrorKindV::Uninitialized("children"@),
                ),
                (Some(n), Some(cs)) => if self.address_offset is None && self.derived_from
                    is None {
                    r matches Err(e) && e@ == err_of(
                        SvdErrorKindV::Uninitialized("address_offset"@),
                    )
                } else if self.derived_from is None && cs@.len() == 0 {
                    r matches Err(e) && e@ == err_of(SvdErrorKindV::EmptyCluster)
                } else {
                    r matches Ok(v) && v.name == n && v.description == self.description
                        && v.header_struct_name == self.header_struct_name && v.address_offset
                        == self.address_offset && v.default_register_properties
                        == self.default_register_properties && v.children == cs && v.derived_from
                        == self.derived_from
                },
            },
    {
        let name = match self.name {
            Some(n) => n,
            None => {
                return Err(SvdError::new(SvdErrorKind::Uninitialized("name".to_owned())));
            },
        };
        let children = match self.children {
            Some(cs) => cs,
            None => {
                return Err(
                    SvdError::new(SvdErrorKind::Uninitialized("children".to_owned())),
                );
            },
        };
        if self.address_offset.is_none() && self.derived_from.is_none() {
            return Err(
                SvdError::new(SvdErrorKind::Uninitialized("address_offset".to_owned())),
            );
        }
        if self.derived_from.is_none() && children.len() == 0 {
            return Err(SvdError::new(SvdErrorKind::EmptyCluster));
        }
        Ok(
            ClusterInfo {
                name,
                description: self.description,
                header_struct_name: self.header_struct_name,
                address_offset: self.address_offset,
                default_register_properties: self.default_register_properties,
                children,
                derived_from: self.derived_from,
            },
        )
    }
}

/// The children written by the elements of `s`: `register` and `cluster`
/// elements are parsed, all others passed over.
pub open spec fn spec_parse_rc_list(s: Seq<ElementV>) -> Result<Seq<RegisterClusterV>, SvdErrorV>
    decreases s, 9int,
{
    if s.len() == 0 {
        Ok(Seq::empty())
    } else {
        let head = if s[0].name == "register"@ || s[0].name == "cluster"@ {
            match spec_parse_register_cluster(s[0]) {
                Err(x) => Err(x),
                Ok(rc) => Ok(Some(rc)),
            }
        } else {
            Ok(None)
        };
        match head {
            Err(x) => Err(x),
            Ok(h) => match spec_parse_rc_list(s.skip(1)) {
                Err(x) => Err(x),
                Ok(rest) => Ok(
                    match h {
                        Some(rc) => seq![rc] + rest,
                        None => rest,
                    },
                ),
            },
        }
    }
}

/// The register-or-cluster written by `e`, dispatched on its tag name.
pub open spec fn spec_parse_register_cluster(e: ElementV) -> Result<RegisterClusterV, SvdErrorV>
    decreases e, 8int,
{
    if e.name == "register"@ {
        match spec_parse_register(e) {
            Err(x) => Err(x),
            Ok(r) => Ok(RegisterClusterV::Register(r)),
        }
    } else {
        match spec_parse_cluster(e) {
            Err(x) => Err(x),
            Ok(c) => Ok(RegisterClusterV::Cluster(c)),
        }
    }
}

/// The cluster child written by `e`: the cluster itself, and an array
/// template exactly when a `<dim>` child is present.
pub open spec fn spec_parse_cluster(e: ElementV) -> Result<ClusterV, SvdErrorV>
    decreases e, 7int,
{
    match spec_parse_cluster_info(e) {
        Err(x) => Err(x),
        Ok(ci) => if spec_get_child(e, "dim"@) is Some {
            match spec_parse_dim_element(e) {
                Err(x) => Err(err_in(x, ctx_text("In cluster `"@, ci.name))),
                Ok(d) => Ok(ClusterV::Array(ci, d)),
            }
        } else {
            Ok(ClusterV::Single(ci))
        },
    }
}

/// The cluster written by `e`: a `name` child, then the body per
/// [`spec_parse_cluster_info_named`].
pub open spec fn spec_parse_cluster_info(e: ElementV) -> Result<ClusterInfoV, SvdErrorV>
    decreases e, 6int,
{
    match spec_child_text(e, "name"@) {
        Err(k) => Err(err_of(k)),
        Ok(name) => spec_parse_cluster_info_named(e, name),
    }
}

/// The cluster body written by the children of `e`, its name already read;
/// failures below the name are wrapped by the cluster's name. A cluster
/// deriving from nothing must carry an address offset and at least one
/// child.
pub open spec fn spec_parse_cluster_info_named(e: ElementV, name: Seq<char>) -> Result<
    ClusterInfoV,
    SvdErrorV,
>
    decreases e, 5int,
{
    let ctx = ctx_text("In cluster `"@, name);
    let derived_from = spec_attr(e, "derivedFrom"@);
    match spec_opt_child_num(e, "addressOffset"@, u32::MAX as nat, ConvType::U32) {
        Err(k) => Err(err_in(err_of(k), ctx)),
        Ok(offset) => if offset is None && derived_from is None {
            Err(err_in(err_of(SvdErrorKindV::Uninitialized("address_offset"@)), ctx))
        } else {
            match spec_parse_register_properties(e) {
                Err(x) => Err(err_in(x, ctx)),
                Ok(props) => match spec_parse_rc_list(e.children) {
                    Err(x) => Err(err_in(x, ctx)),
                    Ok(children) => if derived_from is None && children.len() == 0 {
                        Err(err_in(err_of(SvdErrorKindV::EmptyCluster), ctx))
                    } else {
                        Ok(
                            ClusterInfoV {
                                name: name,
                                description: spec_child_text_opt(e, "description"@),
                                header_struct_name: spec_child_text_opt(e, "headerStructName"@),
                                address_offset: match offset {
                                    Some(v) => Some(v as u32),
                                    None => None,
                                },
                                default_register_properties: props,
                                children: children,
                                derived_from: derived_from,
                            },
                        )
                    },
                },
            }
        },
    }
}

/// The image of an encoded cluster description.
pub open spec fn spec_encode_cluster_info(v: ClusterInfoV) -> ElementV
    decreases v, 7int,
{
    ElementV {
        name: "cluster"@,
        attributes: match v.derived_from {
            Some(d) => Seq::empty().push(("derivedFrom"@, d)),
            None => Seq::empty(),
        },
        children: ({
            let c = Seq::empty().push(text_elem("name"@, v.name));
            let c = app_opt(
                c,
                match v.description {
                    Some(d) => Some(text_elem("description"@, d)),
                    None => None,
                },
            );
            let c = app_opt(
                c,
                match v.header_struct_name {
                    Some(d) => Some(text_elem("headerStructName"@, d)),
                    None => None,
                },
            );
            let c = app_opt(
                c,
                match v.address_offset {
                    Some(o) => Some(
                        text_elem("addressOffset"@, with_0x(hex_digits_upper(o as nat))),
                    ),
                    None => None,
                },
            );
            let c = c + spec_encode_register_properties(v.default_register_properties);
            c + Seq::new(
                v.children.len(),
                |i: int|
                    if 0 <= i < v.children.len() {
                        spec_encode_register_cluster(v.children[i])
                    } else {
                        arbitrary()
                    },
            )
        }),
        text: None,
    }
}

/// The image of an encoded cluster child.
pub open spec fn spec_encode_cluster(v: ClusterV) -> ElementV
    decreases v, 8int,
{
    match v {
        ClusterV::Single(i) => spec_encode_cluster_info(i),
        ClusterV::Array(i, d) => {
            let base = spec_encode_cluster_info(i);
            ElementV { children: base.children + spec_encode_dim_element(d).children, ..base }
        },
    }
}

/// The image of an encoded register-or-cluster child.
pub open spec fn spec_encode_register_cluster(v: RegisterClusterV) -> ElementV
    decreases v, 9int,
{
    match v {
        RegisterClusterV::Register(r) => spec_encode_register(r),
        RegisterClusterV::Cluster(c) => spec_encode_cluster(c),
    }
}

impl RegisterCluster {
    /// Reads a register-or-cluster child, per
    /// [`spec_parse_register_cluster`]; everything read is well formed.
    pub fn parse(tree: &Element) -> (r: Result<RegisterCluster, SvdError>)
        ensures
            match spec_parse_register_cluster(tree@) {
                Ok(v) => r matches Ok(x) && x@ == v && register_cluster_wf(x),
                Err(e) => r matches Err(x) && x@ == e,
            },
        decreases *tree, 8int,
    {
        if crate::tree::string_eq_str(&tree.name, "register") {
            match Register::parse(tree) {
                Ok(rg) => Ok(RegisterCluster::Register(rg)),
                Err(e) => Err(e),
            }
        } else {
            match Cluster::parse(tree) {
                Ok(c) => Ok(RegisterCluster::Cluster(c)),
                Err(e) => Err(e),
            }
        }
    }

    /// Writes this child back as an element, per
    /// [`spec_encode_register_cluster`].
    pub fn encode(&self) -> (r: Element)
        requires
            register_cluster_wf(*self),
        ensures
            r@ == spec_encode_register_cluster(self@),
        decreases *self, 9int,
    {
        match self {
            RegisterCluster::Register(rg) => rg.encode(),
            RegisterCluster::Cluster(c) => c.encode(),
        }
    }
}

impl Cluster {
    /// Reads a cluster child from a `<cluster>` element, per
    /// [`spec_parse_cluster`]; every cluster read is well formed.
    pub fn parse(tree: &Element) -> (r: Result<Cluster, SvdError>)
        ensures
            match spec_parse_cluster(tree@) {
                Ok(v) => r matches Ok(x) && x@ == v && cluster_wf(x),
                Err(e) => r matches Err(x) && x@ == e,
            },
        decreases *tree, 7int,
    {
        let info = match ClusterInfo::parse(tree) {
            Ok(i) => i,
            Err(e) => {
                return Err(e);
            },
        };
        if tree.get_child("dim").is_some() {
            match DimElement::parse(tree) {
                Ok(d) => Ok(Cluster::Array(info, d)),
                Err(e) => Err(e.in_context(make_ctx("In cluster `", &info.name))),
            }
        } else {
            Ok(Cluster::Single(info))
        }
    }

    /// Writes this cluster child back as an element, per
    /// [`spec_encode_cluster`].
    pub fn encode(&self) -> (r: Element)
        requires
            cluster_wf(*self),
        ensures
            r@ == spec_encode_cluster(self@),
        decreases *self, 8int,
    {
        match self {
            Cluster::Single(i) => i.encode(),
            Cluster::Array(i, d) => {
                let mut e = i.encode();
                let dims = d.encode();
                proof {
                    assert(dims.children@.map_values(|c: Element| c@) =~= dims@.children);
                }
                e.append_children(dims.children);
                proof {
                    assert(e@ =~~= spec_encode_cluster(self@));
                }
                e
            },
        }
    }
}

impl ClusterInfo {
    /// Reads a cluster from a `<cluster>` element, per
    /// [`spec_parse_cluster_info`]; every cluster read is well formed.
    pub fn parse(tree: &Element) -> (r: Result<ClusterInfo, SvdError>)
        ensures
            match spec_parse_cluster_info(tree@) {
                Ok(v) => r matches Ok(x) && x@ == v && cluster_info_wf(x),
                Err(e) => r matches Err(x) && x@ == e,
            },
        decreases *tree, 6int,
    {
        let name = match tree.get_child_text("name") {
            Ok(n) => n,
            Err(e) => {
                return Err(e);
            },
        };
        parse_cluster_info(tree, name)
    }

    /// Writes this cluster back as an element, per
    /// [`spec_encode_cluster_info`].
    #[verifier::rlimit(60)]
    pub fn encode(&self) -> (r: Element)
        requires
            cluster_info_wf(*self),
        ensures
            r@ == spec_encode_cluster_info(self@),
        decreases *self, 7int,
    {
        let mut e = Element::new("cluster", None);
        match &self.derived_from {
            Some(d) => {
                e.push_attr("derivedFrom", d.clone());
            },
            None => {},
        }
        e.push_text_child("name", self.name.clone());
        match &self.description {
            Some(d) => {
                e.push_text_child("description", d.clone());
            },
            None => {},
        }
        match &self.header_struct_name {
            Some(d) => {
                e.push_text_child("headerStructName", d.clone());
            },
            None => {},
        }
        match self.address_offset {
            Some(o) => {
                e.push_text_child("addressOffset", fmt_hex_0x_upper(o as u64));
            },
            None => {},
        }
        e.append_children(self.default_register_properties.encode());
        let ghost base = e@.children;
        proof {
            assert(base =~= ({
                let c = Seq::<ElementV>::empty().push(text_elem("name"@, self@.name));
                let c = app_opt(
                    c,
                    match self@.description {
                        Some(d) => Some(text_elem("description"@, d)),
                        None => None,
                    },
                );
                let c = app_opt(
                    c,
                    match self@.header_struct_name {
                        Some(d) => Some(text_elem("headerStructName"@, d)),
                        None => None,
                    },
                );
                let c = app_opt(
                    c,
                    match self@.address_offset {
                        Some(o) => Some(
                            text_elem("addressOffset"@, with_0x(hex_digits_upper(o as nat))),
                        ),
                        None => None,
                    },
                );
                c + spec_encode_register_properties(self@.default_register_properties)
            }));
        }
        let n = self.children.len();
        let mut i: usize = 0;
        while i < n
            invariant
                i <= n,
                n == self.children@.len(),
                forall|j: int|
                    0 <= j < n ==> register_cluster_wf(#[trigger] self.children@[j]),
                e@.name == "cluster"@,
                e@.text is None,
                e@.attributes == spec_encode_cluster_info(self@).attributes,
                self@.children.len() == n,
                forall|j: int|
                    0 <= j < n ==> #[trigger] self@.children[j] == register_cluster_view(
                        self.children@[j],
                    ),
                e@.children == base + Seq::new(
                    self@.children.len(),
                    |k: int|
                        if 0 <= k < self@.children.len() {
                            spec_encode_register_cluster(self@.children[k])
                        } else {
                            arbitrary()
                        },
                ).take(i as int),
            decreases n - i,
        {
            let ghost before = e@.children;
            let c = self.children[i].encode();
            e.push_child(c);
            proof {
                let all = Seq::new(
                    self@.children.len(),
                    |k: int|
                        if 0 <= k < self@.children.len() {
                            spec_encode_register_cluster(self@.children[k])
                        } else {
                            arbitrary()
                        },
                );
                assert(all.take(i + 1) =~= all.take(i as int).push(all[i as int]));
                assert(e@.children =~= before.push(
                    spec_encode_register_cluster(self@.children[i as int]),
                ));
            }
            i = i + 1;
        }
        proof {
            let all = Seq::new(
                self@.children.len(),
                |k: int|
                    if 0 <= k < self@.children.len() {
                        spec_encode_register_cluster(self@.children[k])
                    } else {
                        arbitrary()
                    },
            );
            assert(all.take(n as int) =~= all);
            assert(e@.children == base + all);
            assert(e@.children =~= spec_encode_cluster_info(self@).children);
            assert(e@.attributes =~= spec_encode_cluster_info(self@).attributes);
            assert(e@ =~~= spec_encode_cluster_info(self@));
        }
        e
    }
}

/// Reads the body of a cluster whose name is already known, per
/// [`spec_parse_cluster_info_named`].
pub fn parse_cluster_info(tree: &Element, name: String) -> (r: Result<ClusterInfo, SvdError>)
    ensures
        match spec_parse_cluster_info_named(tree@, name@) {
            Ok(v) => r matches Ok(x) && x@ == v && cluster_info_wf(x),
            Err(e) => r matches Err(x) && x@ == e,
        },
    decreases *tree, 5int,
{
    let derived_from = tree.get_attr("derivedFrom");
    let address_offset = match tree.get_child_u32_opt("addressOffset") {
        Ok(v) => v,
        Err(e) => {
            return Err(e.in_context(make_ctx("In cluster `", &name)));
        },
    };
    if address_offset.is_none() && derived_from.is_none() {
        let e = SvdError::new(SvdErrorKind::Uninitialized("address_offset".to_owned()));
        return Err(e.in_context(make_ctx("In cluster `", &name)));
    }
    let props = match RegisterProperties::parse(tree) {
        Ok(p) => p,
        Err(e) => {
            return Err(e.in_context(make_ctx("In cluster `", &name)));
        },
    };
    let children = match parse_rc_list(tree) {
        Ok(cs) => cs,
        Err(e) => {
            return Err(e.in_context(make_ctx("In cluster `", &name)));
        },
    };
    if derived_from.is_none() && children.len() == 0 {
        let e = SvdError::new(SvdErrorKind::EmptyCluster);
        return Err(e.in_context(make_ctx("In cluster `", &name)));
    }
    let description = tree.get_child_text_opt("description");
    let header_struct_name = tree.get_child_text_opt("headerStructName");
    let ghost chv = children@.map_values(|c: RegisterCluster| c@);
    let out = ClusterInfo {
        name,
        description,
        header_struct_name,
        address_offset,
        default_register_properties: props,
        children,
        derived_from,
    };
    proof {
        assert(out@.children =~= chv);
        match spec_parse_cluster_info_named(tree@, name@) {
            Ok(v) => {
                assert(out@ =~~= v);
            },
            Err(_) => {
                assert(false);
            },
        }
    }
    Ok(out)
}

/// Reads every `register` or `cluster` child of `tree`, per
/// [`spec_parse_rc_list`]; everything read is well formed.
pub fn parse_rc_list(tree: &Element) -> (r: Result<Vec<RegisterCluster>, SvdError>)
    ensures
        match spec_parse_rc_list(tree@.children) {
            Ok(v) => r matches Ok(cs) && cs@.map_values(|c: RegisterCluster| c@) == v && forall|
                i: int,
            | 0 <= i < cs@.len() ==> register_cluster_wf(#[trigger] cs@[i]),
            Err(e) => r matches Err(x) && x@ == e,
        },
    decreases *tree, 4int,
{
    let n = tree.children.len();
    let mut out: Vec<RegisterCluster> = Vec::new();
    let mut i: usize = 0;
    proof {
        assert(tree@.children.skip(0) =~= tree@.children);
    }
    while i < n
        invariant
            i <= n,
            n == tree.children@.len(),
            tree@.children.len() == n,
            forall|j: int|
                0 <= j < n ==> #[trigger] tree@.children[j] == crate::tree::elem_view(
                    tree.children@[j],
                ),
            forall|j: int| 0 <= j < out@.len() ==> register_cluster_wf(#[trigger] out@[j]),
            spec_parse_rc_list(tree@.children) == (match spec_parse_rc_list(
                tree@.children.skip(i as int),
            ) {
                Ok(rest) => Ok::<Seq<RegisterClusterV>, SvdErrorV>(
                    out@.map_values(|c: RegisterCluster| c@) + rest,
                ),
                Err(x) => Err(x),
            }),
        decreases n - i,
    {
        let c = &tree.children[i];
        let ghost pre = out@.map_values(|x: RegisterCluster| x@);
        proof {
            assert(tree@.children.skip(i as int)[0] == tree@.children[i as int]);
            assert(tree@.children.skip(i as int).skip(1) =~= tree@.children.skip(i + 1));
        }
        if crate::tree::string_eq_str(&c.name, "register") || crate::tree::string_eq_str(
            &c.name,
            "cluster",
        ) {
            match RegisterCluster::parse(c) {
                Ok(rc) => {
                    out.push(rc);
                    proof {
                        assert(out@.map_values(|x: RegisterCluster| x@) =~= pre.push(
                            out@.last()@,
                        ));
                        assert forall|rest: Seq<RegisterClusterV>|
                            #[trigger] (pre.push(out@.last()@) + rest) =~= pre + (seq![
                                out@.last()@,
                            ] + rest) by {}
                    }
                },
                Err(e) => {
                    return Err(e);
                },
            }
        }
        i = i + 1;
    }
    proof {
        assert(tree@.children.skip(n as int) =~= Seq::<ElementV>::empty());
        assert(out@.map_values(|c: RegisterCluster| c@) + Seq::<RegisterClusterV>::empty()
            =~= out@.map_values(|c: RegisterCluster| c@));
    }
    Ok(out)
}

} // verus!
