//! The model-resolution pipeline: after a device is parsed, derivation
//! resolution, dimension expansion and property inheritance run in that
//! fixed order over the whole tree, yielding a device whose registers all
//! carry concrete, effective properties.

use vstd::prelude::*;

use crate::errors::{err_of, SvdError, SvdErrorKind, SvdErrorKindV, DimensionError};
use crate::svd::clusterinfo::{ClusterInfoV, ClusterV, RegisterCluster, RegisterClusterV,
    register_cluster_wf};
use crate::svd::copies::{copy_dim_element, copy_register_info};
use crate::svd::derivation::{spec_resolve_register, resolve_register,
    spec_resolve_peripheral_derivation, resolve_peripheral_derivation};
use crate::svd::device::{Device, DeviceV};
use crate::svd::expand::{spec_expand_register, expand_register};
use crate::svd::peripheral::{Peripheral, PeripheralV};
use crate::svd::register::{Register, RegisterV};
use crate::svd::registerinfo::{RegisterInfo, RegisterInfoV};
use crate::svd::registerproperties::{RegisterProperties, spec_resolve};

verus! {

/// The register descriptions that can serve as derivation sources in a
/// list: the single registers, in order.
pub open spec fn spec_candidates(s: Seq<RegisterClusterV>) -> Seq<RegisterInfoV>
    decreases s.len(),
{
    if s.len() == 0 {
        Seq::empty()
    } else {
        let rest = spec_candidates(s.skip(1));
        match s[0] {
            RegisterClusterV::Register(RegisterV::Single(i)) => seq![i] + rest,
            _ => rest,
        }
    }
}

/// Every register of the list resolved against the single registers of the
/// same list; a cluster's children are resolved the same way, against the
/// cluster's own direct children.
pub open spec fn spec_derive_rc_list(s: Seq<RegisterClusterV>) -> Result<
    Seq<RegisterClusterV>,
    SvdErrorKindV,
>
    decreases s, 4int,
{
    spec_derive_rc_list_from(s, spec_candidates(s))
}

/// A cluster child with its register derivations resolved.
pub open spec fn spec_derive_cluster(c: ClusterV) -> Result<ClusterV, SvdErrorKindV>
    decreases c, 3int,
{
    match c {
        ClusterV::Single(ci) => match spec_derive_cluster_info(ci) {
            Ok(x) => Ok(ClusterV::Single(x)),
            Err(k) => Err(k),
        },
        ClusterV::Array(ci, d) => match spec_derive_cluster_info(ci) {
            Ok(x) => Ok(ClusterV::Array(x, d)),
            Err(k) => Err(k),
        },
    }
}

/// A cluster description whose children are resolved against themselves.
pub open spec fn spec_derive_cluster_info(ci: ClusterInfoV) -> Result<ClusterInfoV, SvdErrorKindV>
    decreases ci, 5int,
{
    match spec_derive_rc_list(ci.children) {
        Ok(children) => Ok(ClusterInfoV { children: children, ..ci }),
        Err(k) => Err(k),
    }
}

/// [`spec_derive_rc_list`] against a fixed candidate list.
pub open spec fn spec_derive_rc_list_from(
    s: Seq<RegisterClusterV>,
    cands: Seq<RegisterInfoV>,
) -> Result<Seq<RegisterClusterV>, SvdErrorKindV>
    decreases s, 1int,
{
    if s.len() == 0 {
        Ok(Seq::empty())
    } else {
        let head = match s[0] {
            RegisterClusterV::Register(RegisterV::Single(i)) => match spec_resolve_register(
                cands,
                i,
                Seq::empty(),
            ) {
                Ok(r) => Ok(RegisterClusterV::Register(RegisterV::Single(r))),
                Err(k) => Err(k),
            },
            RegisterClusterV::Register(RegisterV::Array(i, d)) => match spec_resolve_register(
                cands,
                i,
                Seq::empty(),
            ) {
                Ok(r) => Ok(RegisterClusterV::Register(RegisterV::Array(r, d))),
                Err(k) => Err(k),
            },
            RegisterClusterV::Cluster(c) => match spec_derive_cluster(c) {
                Ok(x) => Ok(RegisterClusterV::Cluster(x)),
                Err(k) => Err(k),
            },
        };
        match head {
            Err(k) => Err(k),
            Ok(h) => match spec_derive_rc_list_from(s.skip(1), cands) {
                Err(k) => Err(k),
                Ok(rest) => Ok(seq![h] + rest),
            },
        }
    }
}

/// Every register array of the list expanded into its concrete siblings,
/// in place; single registers and clusters pass through. An array whose
/// offsets would leave the 32-bit offset space is refused as a dimension
/// mismatch.
pub open spec fn spec_expand_rc_list(s: Seq<RegisterClusterV>) -> Result<
    Seq<RegisterClusterV>,
    SvdErrorKindV,
>
    decreases s.len(),
{
    if s.len() == 0 {
        Ok(Seq::empty())
    } else {
        let head = match s[0] {
            RegisterClusterV::Register(RegisterV::Array(i, d)) => if i.address_offset is None || (
            i.address_offset matches Some(b) && b + (d.dim - 1) * d.dim_increment > u32::MAX) {
                Err(SvdErrorKindV::Dimension(DimensionError::DimensionsMismatch))
            } else {
                match spec_expand_register(i, d) {
                    Err(k) => Err(k),
                    Ok(insts) => Ok(
                        insts.map_values(
                            |x: RegisterInfoV| RegisterClusterV::Register(RegisterV::Single(x)),
                        ),
                    ),
                }
            },
            other => Ok(seq![other]),
        };
        match head {
            Err(k) => Err(k),
            Ok(h) => match spec_expand_rc_list(s.skip(1)) {
                Err(k) => Err(k),
                Ok(rest) => Ok(h + rest),
            },
        }
    }
}

/// The register description with its effective properties resolved against
/// the parent's: `UnresolvedProperty` when size or access stays unset.
pub open spec fn spec_apply_props_register(parent: RegisterProperties, i: RegisterInfoV) -> Result<
    RegisterInfoV,
    SvdErrorKindV,
> {
    let eff = spec_resolve(parent, i.properties);
    if eff.size is None {
        Err(SvdErrorKindV::UnresolvedProperty("size"@))
    } else if eff.access is None {
        Err(SvdErrorKindV::UnresolvedProperty("access"@))
    } else {
        Ok(RegisterInfoV { properties: eff, ..i })
    }
}

/// One child with the parent's effective properties folded down: registers
/// become effective, a cluster folds the parent into its own defaults and
/// passes the result to its children.
pub open spec fn spec_apply_props_rc(parent: RegisterProperties, rc: RegisterClusterV) -> Result<
    RegisterClusterV,
    SvdErrorKindV,
>
    decreases rc, 1int,
{
    match rc {
        RegisterClusterV::Register(RegisterV::Single(i)) => match spec_apply_props_register(
            parent,
            i,
        ) {
            Ok(r) => Ok(RegisterClusterV::Register(RegisterV::Single(r))),
            Err(k) => Err(k),
        },
        RegisterClusterV::Register(RegisterV::Array(i, d)) => match spec_apply_props_register(
            parent,
            i,
        ) {
            Ok(r) => Ok(RegisterClusterV::Register(RegisterV::Array(r, d))),
            Err(k) => Err(k),
        },
        RegisterClusterV::Cluster(ClusterV::Single(ci)) => match spec_apply_props_cluster(
            parent,
            ci,
        ) {
            Ok(c) => Ok(RegisterClusterV::Cluster(ClusterV::Single(c))),
            Err(k) => Err(k),
        },
        RegisterClusterV::Cluster(ClusterV::Array(ci, d)) => match spec_apply_props_cluster(
            parent,
            ci,
        ) {
            Ok(c) => Ok(RegisterClusterV::Cluster(ClusterV::Array(c, d))),
            Err(k) => Err(k),
        },
    }
}

/// A cluster with the parent's effective properties folded into its
/// defaults and passed down to every child.
pub open spec fn spec_apply_props_cluster(parent: RegisterProperties, ci: ClusterInfoV) -> Result<
    ClusterInfoV,
    SvdErrorKindV,
>
    decreases ci, 2int,
{
    let eff = spec_resolve(parent, ci.default_register_properties);
    match spec_apply_props_list(eff, ci.children, 0) {
        Err(k) => Err(k),
        Ok(children) => Ok(
            ClusterInfoV { default_register_properties: eff, children: children, ..ci },
        ),
    }
}

/// Every child of `s` from position `k` on with `parent` folded down.
pub open spec fn spec_apply_props_list(
    parent: RegisterProperties,
    s: Seq<RegisterClusterV>,
    k: int,
) -> Result<Seq<RegisterClusterV>, SvdErrorKindV>
    decreases s, 3int, s.len() - k,
{
    if k < 0 || k >= s.len() {
        Ok(Seq::empty())
    } else {
        match spec_apply_props_rc(parent, s[k]) {
            Err(x) => Err(x),
            Ok(h) => match spec_apply_props_list(parent, s, k + 1) {
                Err(x) => Err(x),
                Ok(rest) => Ok(seq![h] + rest),
            },
        }
    }
}

/// A peripheral fully resolved: registers derived against their siblings,
/// arrays expanded, and the device defaults folded down through every
/// level, leaving every register effective.
pub open spec fn spec_resolve_peripheral(defaults: RegisterProperties, p: PeripheralV) -> Result<
    PeripheralV,
    SvdErrorKindV,
> {
    let eff = spec_resolve(defaults, p.default_register_properties);
    match p.registers {
        None => Ok(PeripheralV { default_register_properties: eff, ..p }),
        Some(rs) => match spec_derive_rc_list(rs) {
            Err(k) => Err(k),
            Ok(derived) => match spec_expand_rc_list(derived) {
                Err(k) => Err(k),
                Ok(expanded) => match spec_apply_props_list(eff, expanded, 0) {
                    Err(k) => Err(k),
                    Ok(resolved) => Ok(
                        PeripheralV {
                            default_register_properties: eff,
                            registers: Some(resolved),
                            ..p
                        },
                    ),
                },
            },
        },
    }
}

/// The whole device resolved, peripheral by peripheral, in order.
pub open spec fn spec_resolve_device_list(
    defaults: RegisterProperties,
    s: Seq<PeripheralV>,
    k: int,
) -> Result<Seq<PeripheralV>, SvdErrorKindV>
    decreases s.len() - k,
{
    if k < 0 || k >= s.len() {
        Ok(Seq::empty())
    } else {
        match spec_resolve_peripheral(defaults, s[k]) {
            Err(x) => Err(x),
            Ok(h) => match spec_resolve_device_list(defaults, s, k + 1) {
                Err(x) => Err(x),
                Ok(rest) => Ok(seq![h] + rest),
            },
        }
    }
}

/// Every peripheral of `s` from position `k` on with its derivation
/// resolved against the whole original list.
pub open spec fn spec_derive_peripheral_list(s: Seq<PeripheralV>, k: int) -> Result<
    Seq<PeripheralV>,
    SvdErrorKindV,
>
    decreases s.len() - k,
{
    if k < 0 || k >= s.len() {
        Ok(Seq::empty())
    } else {
        match spec_resolve_peripheral_derivation(s, s[k], Seq::empty()) {
            Err(x) => Err(x),
            Ok(h) => match spec_derive_peripheral_list(s, k + 1) {
                Err(x) => Err(x),
                Ok(rest) => Ok(seq![h] + rest),
            },
        }
    }
}

/// The resolved device: peripheral derivation first, then every peripheral
/// resolved against the device-wide defaults, everything else unchanged.
pub open spec fn spec_resolve_device(d: DeviceV) -> Result<DeviceV, SvdErrorKindV> {
    match spec_derive_peripheral_list(d.peripherals, 0) {
        Err(k) => Err(k),
        Ok(derived) => match spec_resolve_device_list(
            d.default_register_properties,
            derived,
            0,
        ) {
            Err(k) => Err(k),
            Ok(ps) => Ok(DeviceV { peripherals: ps, ..d }),
        },
    }
}

/// Collects the derivation candidates of a list, per [`spec_candidates`].
fn candidates(rs: &Vec<RegisterCluster>) -> (out: Vec<RegisterInfo>)
    requires
        forall|i: int| 0 <= i < rs@.len() ==> register_cluster_wf(#[trigger] rs@[i]),
    ensures
        out@.map_values(|x: RegisterInfo| x@) == spec_candidates(
            rs@.map_values(|c: RegisterCluster| c@),
        ),
        forall|i: int| 0 <= i < out@.len() ==> (#[trigger] out@[i]).wf(),
{
    let ghost sv = rs@.map_values(|c: RegisterCluster| c@);
    let n = rs.len();
    let mut out: Vec<RegisterInfo> = Vec::new();
    let mut i: usize = 0;
    proof {
        assert(sv.skip(0) =~= sv);
    }
    while i < n
        invariant
            i <= n,
            n == rs@.len(),
            sv == rs@.map_values(|c: RegisterCluster| c@),
            sv.len() == n,
            forall|j: int| 0 <= j < n ==> register_cluster_wf(#[trigger] rs@[j]),
            forall|j: int| 0 <= j < out@.len() ==> (#[trigger] out@[j]).wf(),
            spec_candidates(sv) == out@.map_values(|x: RegisterInfo| x@) + spec_candidates(
                sv.skip(i as int),
            ),
        decreases n - i,
    {
        let ghost pre = out@.map_values(|x: RegisterInfo| x@);
        proof {
            assert(sv.skip(i as int)[0] == sv[i as int]);
            assert(sv.skip(i as int).skip(1) =~= sv.skip(i + 1));
        }
        match &rs[i] {
            RegisterCluster::Register(Register::Single(info)) => {
                let c = copy_register_info(info);
                out.push(c);
                proof {
                    assert(out@.map_values(|x: RegisterInfo| x@) =~= pre.push(out@.last()@));
                    assert(pre.push(out@.last()@) + spec_candidates(sv.skip(i + 1)) =~= pre + (
                    seq![out@.last()@] + spec_candidates(sv.skip(i + 1))));
                }
            },
            _ => {},
        }
        i = i + 1;
    }
    proof {
        assert(sv.skip(n as int) =~= Seq::<RegisterClusterV>::empty());
        assert(out@.map_values(|x: RegisterInfo| x@) + Seq::<RegisterInfoV>::empty()
            =~= out@.map_values(|x: RegisterInfo| x@));
    }
    out
}

/// Resolves a cluster child's register derivations, per
/// [`spec_derive_cluster`].
fn derive_cluster(c: &crate::svd::clusterinfo::Cluster) -> (out: Result<
    crate::svd::clusterinfo::Cluster,
    SvdError,
>)
    requires
        crate::svd::clusterinfo::cluster_wf(*c),
    ensures
        match spec_derive_cluster(c@) {
            Ok(v) => out matches Ok(x) && x@ == v,
            Err(k) => out matches Err(e) && e@ == err_of(k),
        },
    decreases *c, 3int,
{
    match c {
        crate::svd::clusterinfo::Cluster::Single(ci) => match derive_cluster_info(ci) {
            Ok(x) => Ok(crate::svd::clusterinfo::Cluster::Single(x)),
            Err(e) => Err(e),
        },
        crate::svd::clusterinfo::Cluster::Array(ci, d) => match derive_cluster_info(ci) {
            Ok(x) => Ok(crate::svd::clusterinfo::Cluster::Array(x, copy_dim_element(d))),
            Err(e) => Err(e),
        },
    }
}

/// Resolves a cluster's children against themselves, per
/// [`spec_derive_cluster_info`].
fn derive_cluster_info(ci: &crate::svd::clusterinfo::ClusterInfo) -> (out: Result<
    crate::svd::clusterinfo::ClusterInfo,
    SvdError,
>)
    requires
        crate::svd::clusterinfo::cluster_info_wf(*ci),
    ensures
        match spec_derive_cluster_info(ci@) {
            Ok(v) => out matches Ok(x) && x@ == v,
            Err(k) => out matches Err(e) && e@ == err_of(k),
        },
    decreases *ci, 5int,
{
    proof {
        assert(ci@.children =~= ci.children@.map_values(|c: RegisterCluster| c@));
    }
    let children = match derive_rc_list(&ci.children) {
        Ok(cs) => cs,
        Err(e) => {
            return Err(e);
        },
    };
    let ghost chv = children@.map_values(|c: RegisterCluster| c@);
    let out = crate::svd::clusterinfo::ClusterInfo {
        name: ci.name.clone(),
        description: crate::svd::copies::copy_opt_string(&ci.description),
        header_struct_name: crate::svd::copies::copy_opt_string(&ci.header_struct_name),
        address_offset: ci.address_offset,
        default_register_properties: ci.default_register_properties,
        children,
        derived_from: crate::svd::copies::copy_opt_string(&ci.derived_from),
    };
    proof {
        assert(out@.children =~= chv);
        match spec_derive_cluster_info(ci@) {
            Ok(v) => {
                assert(out@ =~~= v);
            },
            Err(_) => {
                assert(false);
            },
        }
    }
    Ok(out)
}

/// Resolves every register of the list against its siblings, per
/// [`spec_derive_rc_list`].
fn derive_rc_list(rs: &Vec<RegisterCluster>) -> (out: Result<Vec<RegisterCluster>, SvdError>)
    requires
        forall|i: int| 0 <= i < rs@.len() ==> register_cluster_wf(#[trigger] rs@[i]),
    ensures
        match spec_derive_rc_list(rs@.map_values(|c: RegisterCluster| c@)) {
            Ok(v) => out matches Ok(cs) && cs@.map_values(|c: RegisterCluster| c@) == v,
            Err(k) => out matches Err(e) && e@ == err_of(k),
        },
    decreases *rs, 4int,
{
    let ghost sv = rs@.map_values(|c: RegisterCluster| c@);
    let cands = candidates(rs);
    let ghost cv = cands@.map_values(|x: RegisterInfo| x@);
    let n = rs.len();
    let mut out: Vec<RegisterCluster> = Vec::new();
    let mut i: usize = 0;
    proof {
        assert(sv.skip(0) =~= sv);
    }
    while i < n
        invariant
            i <= n,
            n == rs@.len(),
            sv == rs@.map_values(|c: RegisterCluster| c@),
            sv.len() == n,
            cv == cands@.map_values(|x: RegisterInfo| x@),
            cv == spec_candidates(sv),
            forall|j: int| 0 <= j < cands@.len() ==> (#[trigger] cands@[j]).wf(),
            forall|j: int| 0 <= j < n ==> register_cluster_wf(#[trigger] rs@[j]),
            spec_derive_rc_list_from(sv, cv) == (match spec_derive_rc_list_from(
                sv.skip(i as int),
                cv,
            ) {
                Ok(rest) => Ok::<Seq<RegisterClusterV>, SvdErrorKindV>(
                    out@.map_values(|c: RegisterCluster| c@) + rest,
                ),
                Err(x) => Err(x),
            }),
        decreases n - i,
    {
        let ghost pre = out@.map_values(|c: RegisterCluster| c@);
        proof {
            assert(sv.skip(i as int)[0] == sv[i as int]);
            assert(sv.skip(i as int).skip(1) =~= sv.skip(i + 1));
        }
        let resolved: RegisterCluster = match &rs[i] {
            RegisterCluster::Register(Register::Single(info)) => {
                let r = copy_register_info(info);
                let empty_visited: Vec<String> = Vec::new();
                proof {
                    assert(empty_visited@.map_values(|x: String| x@) =~= Seq::<Seq<char>>::empty());
                }
                match resolve_register(&cands, r, empty_visited) {
                    Ok(x) => RegisterCluster::Register(Register::Single(x)),
                    Err(e) => {
                        return Err(e);
                    },
                }
            },
            RegisterCluster::Register(Register::Array(info, d)) => {
                let r = copy_register_info(info);
                let dd = copy_dim_element(d);
                let empty_visited: Vec<String> = Vec::new();
                proof {
                    assert(empty_visited@.map_values(|x: String| x@) =~= Seq::<Seq<char>>::empty());
                }
                match resolve_register(&cands, r, empty_visited) {
                    Ok(x) => RegisterCluster::Register(Register::Array(x, dd)),
                    Err(e) => {
                        return Err(e);
                    },
                }
            },
            RegisterCluster::Cluster(c) => {
                match derive_cluster(c) {
                    Ok(x) => RegisterCluster::Cluster(x),
                    Err(e) => {
                        return Err(e);
                    },
                }
            },
        };
        out.push(resolved);
        proof {
            assert(out@.map_values(|c: RegisterCluster| c@) =~= pre.push(out@.last()@));
            match spec_derive_rc_list_from(sv.skip(i + 1), cv) {
                Ok(rest) => {
                    assert(pre.push(out@.last()@) + rest =~= pre + (seq![out@.last()@] + rest));
                },
                Err(_) => {},
            }
        }
        i = i + 1;
    }
    proof {
        assert(sv.skip(n as int) =~= Seq::<RegisterClusterV>::empty());
        assert(out@.map_values(|c: RegisterCluster| c@) + Seq::<RegisterClusterV>::empty()
            =~= out@.map_values(|c: RegisterCluster| c@));
    }
    Ok(out)
}

/// Expands every register array of the list, per [`spec_expand_rc_list`].
fn expand_rc_list(rs: Vec<RegisterCluster>) -> (out: Result<Vec<RegisterCluster>, SvdError>)
    ensures
        match spec_expand_rc_list(rs@.map_values(|c: RegisterCluster| c@)) {
            Ok(v) => out matches Ok(cs) && cs@.map_values(|c: RegisterCluster| c@) == v,
            Err(k) => out matches Err(e) && e@ == err_of(k),
        },
{
    let ghost sv = rs@.map_values(|c: RegisterCluster| c@);
    let n = rs.len();
    let mut out: Vec<RegisterCluster> = Vec::new();
    let mut i: usize = 0;
    proof {
        assert(sv.skip(0) =~= sv);
    }
    while i < n
        invariant
            i <= n,
            n == rs@.len(),
            sv == rs@.map_values(|c: RegisterCluster| c@),
            sv.len() == n,
            spec_expand_rc_list(sv) == (match spec_expand_rc_list(sv.skip(i as int)) {
                Ok(rest) => Ok::<Seq<RegisterClusterV>, SvdErrorKindV>(
                    out@.map_values(|c: RegisterCluster| c@) + rest,
                ),
                Err(x) => Err(x),
            }),
        decreases n - i,
    {
        let ghost pre = out@.map_values(|c: RegisterCluster| c@);
        proof {
            assert(sv.skip(i as int)[0] == sv[i as int]);
            assert(sv.skip(i as int).skip(1) =~= sv.skip(i + 1));
        }
        match &rs[i] {
            RegisterCluster::Register(Register::Array(info, d)) => {
                let base = match info.address_offset {
                    Some(b) => b,
                    None => {
                        return Err(
                            SvdError::new(
                                SvdErrorKind::Dimension(DimensionError::DimensionsMismatch),
                            ),
                        );
                    },
                };
                proof {
                    assert((d.dim as u64 - 1) * (d.dim_increment as u64)
                        <= 0xffff_fffe_0000_0001u64 || d.dim == 0) by (nonlinear_arith)
                        requires
                            d.dim <= 0xffff_ffffu64,
                            d.dim_increment <= 0xffff_ffffu64,
                    ;
                }
                let over: bool = if d.dim >= 1 {
                    base as u64 + ((d.dim as u64) - 1) * (d.dim_increment as u64)
                        > u32::MAX as u64
                } else {
                    false
                };
                if over {
                    return Err(
                        SvdError::new(
                            SvdErrorKind::Dimension(DimensionError::DimensionsMismatch),
                        ),
                    );
                }
                match expand_register(info, d) {
                    Err(e) => {
                        return Err(e);
                    },
                    Ok(insts) => {
                        let ghost instv = insts@.map_values(|x: RegisterInfo| x@);
                        let mut rest = insts;
                        let ghost total = instv.map_values(
                            |x: RegisterInfoV| RegisterClusterV::Register(RegisterV::Single(x)),
                        );
                        proof {
                            assert(out@.map_values(|c: RegisterCluster| c@) =~= pre + total.take(
                                0,
                            ));
                            assert(rest@.map_values(|x: RegisterInfo| x@) =~= instv.skip(0));
                        }
                        while rest.len() > 0
                            invariant
                                rest@.len() <= instv.len(),
                                instv.len() == total.len(),
                                total == instv.map_values(
                                    |x: RegisterInfoV| RegisterClusterV::Register(
                                        RegisterV::Single(x),
                                    ),
                                ),
                                rest@.map_values(|x: RegisterInfo| x@) == instv.skip(
                                    instv.len() - rest@.len(),
                                ),
                                out@.map_values(|c: RegisterCluster| c@) == pre + total.take(
                                    instv.len() - rest@.len(),
                                ),
                            decreases rest@.len(),
                        {
                            let ghost k = instv.len() - rest@.len();
                            let ghost pre_rest = rest@;
                            let x = rest.remove(0);
                            proof {
                                assert(pre_rest.map_values(|x: RegisterInfo| x@)[0] == pre_rest[0]
                                    @);
                                assert(instv.skip(k as int)[0] == instv[k as int]);
                                assert(x@ == instv[k as int]);
                                assert(rest@ =~= pre_rest.skip(1));
                                assert forall|j: int| 0 <= j < rest@.len() implies rest
                                    @.map_values(|x: RegisterInfo| x@)[j] == #[trigger] instv.skip(
                                    k + 1,
                                )[j] by {
                                    assert(rest@[j] == pre_rest[j + 1]);
                                    assert(pre_rest.map_values(|x: RegisterInfo| x@)[j + 1]
                                        == pre_rest[j + 1]@);
                                    assert(instv.skip(k as int)[j + 1] == instv[k + 1 + j]);
                                };
                                assert(rest@.map_values(|x: RegisterInfo| x@) =~= instv.skip(
                                    k + 1,
                                ));
                            }
                            out.push(RegisterCluster::Register(Register::Single(x)));
                            proof {
                                assert(out@.map_values(|c: RegisterCluster| c@) =~= (pre
                                    + total.take(k as int)).push(total[k as int]));
                                assert((pre + total.take(k as int)).push(total[k as int]) =~= pre
                                    + total.take(k + 1));
                            }
                        }
                        proof {
                            assert(total.take(total.len() as int) =~= total);
                            assert(out@.map_values(|c: RegisterCluster| c@) == pre + total);
                            assert(sv[i as int] == RegisterClusterV::Register(
                                RegisterV::Array(info@, d@),
                            ));
                            assert(total == spec_expand_register(info@, d@)->Ok_0.map_values(
                                |x: RegisterInfoV| RegisterClusterV::Register(
                                    RegisterV::Single(x),
                                ),
                            ));
                        }
                    },
                }
            },
            other => {
                let c = crate::svd::copies::copy_register_cluster(other);
                out.push(c);
                proof {
                    assert(out@.last()@ == sv[i as int]);
                    assert(out@.map_values(|c: RegisterCluster| c@) =~= pre.push(sv[i as int]));
                    assert(pre.push(sv[i as int]) =~= pre + seq![sv[i as int]]);
                }
            },
        }
        proof {
            let h = match sv[i as int] {
                RegisterClusterV::Register(RegisterV::Array(xi, xd)) => spec_expand_register(
                    xi,
                    xd,
                )->Ok_0.map_values(
                    |x: RegisterInfoV| RegisterClusterV::Register(RegisterV::Single(x)),
                ),
                other_v => seq![other_v],
            };
            assert(out@.map_values(|c: RegisterCluster| c@) == pre + h);
            assert(spec_expand_rc_list(sv.skip(i as int)) == (match spec_expand_rc_list(
                sv.skip(i + 1),
            ) {
                Ok(rest) => Ok::<Seq<RegisterClusterV>, SvdErrorKindV>(h + rest),
                Err(x) => Err(x),
            }));
            match spec_expand_rc_list(sv.skip(i + 1)) {
                Ok(rest) => {
                    assert((pre + h) + rest =~= pre + (h + rest));
                },
                Err(_) => {},
            }
        }
        i = i + 1;
    }
    proof {
        assert(sv.skip(n as int) =~= Seq::<RegisterClusterV>::empty());
        assert(out@.map_values(|c: RegisterCluster| c@) + Seq::<RegisterClusterV>::empty()
            =~= out@.map_values(|c: RegisterCluster| c@));
    }
    Ok(out)
}

/// Folds the parent's effective properties into one register, per
/// [`spec_apply_props_register`].
fn apply_props_register(parent: &RegisterProperties, i: &RegisterInfo) -> (out: Result<
    RegisterInfo,
    SvdError,
>)
    ensures
        match spec_apply_props_register(*parent, i@) {
            Ok(v) => out matches Ok(r) && r@ == v,
            Err(k) => out matches Err(e) && e@ == err_of(k),
        },
{
    let eff = RegisterProperties::resolve(parent, &i.properties);
    match eff.ensure_effective() {
        Ok(()) => {
            let mut r = copy_register_info(i);
            r.properties = eff;
            proof {
                match spec_apply_props_register(*parent, i@) {
                    Ok(v) => {
                        assert(r@ =~~= v);
                    },
                    Err(_) => {
                        assert(false);
                    },
                }
            }
            Ok(r)
        },
        Err(e) => Err(e),
    }
}

/// Folds the parent's effective properties into one child, per
/// [`spec_apply_props_rc`].
fn apply_props_rc(parent: &RegisterProperties, rc: &RegisterCluster) -> (out: Result<
    RegisterCluster,
    SvdError,
>)
    ensures
        match spec_apply_props_rc(*parent, rc@) {
            Ok(v) => out matches Ok(c) && c@ == v,
            Err(k) => out matches Err(e) && e@ == err_of(k),
        },
    decreases *rc, 1int,
{
    match rc {
        RegisterCluster::Register(Register::Single(i)) => {
            match apply_props_register(parent, i) {
                Ok(r) => Ok(RegisterCluster::Register(Register::Single(r))),
                Err(e) => Err(e),
            }
        },
        RegisterCluster::Register(Register::Array(i, d)) => {
            match apply_props_register(parent, i) {
                Ok(r) => Ok(RegisterCluster::Register(Register::Array(r, copy_dim_element(d)))),
                Err(e) => Err(e),
            }
        },
        RegisterCluster::Cluster(crate::svd::clusterinfo::Cluster::Single(ci)) => {
            match apply_props_cluster(parent, ci) {
                Ok(c) => Ok(
                    RegisterCluster::Cluster(crate::svd::clusterinfo::Cluster::Single(c)),
                ),
                Err(e) => Err(e),
            }
        },
        RegisterCluster::Cluster(crate::svd::clusterinfo::Cluster::Array(ci, d)) => {
            match apply_props_cluster(parent, ci) {
                Ok(c) => Ok(
                    RegisterCluster::Cluster(
                        crate::svd::clusterinfo::Cluster::Array(c, copy_dim_element(d)),
                    ),
                ),
                Err(e) => Err(e),
            }
        },
    }
}

/// Folds the parent's effective properties into one cluster and its
/// children, per [`spec_apply_props_cluster`].
fn apply_props_cluster(
    parent: &RegisterProperties,
    ci: &crate::svd::clusterinfo::ClusterInfo,
) -> (out: Result<crate::svd::clusterinfo::ClusterInfo, SvdError>)
    ensures
        match spec_apply_props_cluster(*parent, ci@) {
            Ok(v) => out matches Ok(c) && c@ == v,
            Err(k) => out matches Err(e) && e@ == err_of(k),
        },
    decreases *ci, 2int,
{
    let eff = RegisterProperties::resolve(parent, &ci.default_register_properties);
    let ghost cv = ci@.children;
    let n = ci.children.len();
    let mut children: Vec<RegisterCluster> = Vec::new();
    let mut k: usize = 0;
    while k < n
        invariant
            k <= n,
            n == ci.children@.len(),
            cv == ci@.children,
            cv.len() == n,
            forall|j: int|
                0 <= j < n ==> #[trigger] cv[j] == crate::svd::clusterinfo::register_cluster_view(
                    ci.children@[j],
                ),
            eff == spec_resolve(*parent, ci@.default_register_properties),
            spec_apply_props_list(eff, cv, 0) == (match spec_apply_props_list(eff, cv, k as int) {
                Ok(rest) => Ok::<Seq<RegisterClusterV>, SvdErrorKindV>(
                    children@.map_values(|c: RegisterCluster| c@) + rest,
                ),
                Err(x) => Err(x),
            }),
        decreases n - k,
    {
        let ghost pre = children@.map_values(|c: RegisterCluster| c@);
        match apply_props_rc(&eff, &ci.children[k]) {
            Ok(c) => {
                children.push(c);
                proof {
                    assert(children@.map_values(|c: RegisterCluster| c@) =~= pre.push(
                        children@.last()@,
                    ));
                    match spec_apply_props_list(eff, cv, k + 1) {
                        Ok(rest) => {
                            assert(pre.push(children@.last()@) + rest =~= pre + (seq![
                                children@.last()@,
                            ] + rest));
                        },
                        Err(_) => {},
                    }
                }
            },
            Err(e) => {
                return Err(e);
            },
        }
        k = k + 1;
    }
    let out = crate::svd::clusterinfo::ClusterInfo {
        name: ci.name.clone(),
        description: crate::svd::copies::copy_opt_string(&ci.description),
        header_struct_name: crate::svd::copies::copy_opt_string(&ci.header_struct_name),
        address_offset: ci.address_offset,
        default_register_properties: eff,
        children,
        derived_from: crate::svd::copies::copy_opt_string(&ci.derived_from),
    };
    proof {
        assert(out@.children =~= out.children@.map_values(|c: RegisterCluster| c@));
        match spec_apply_props_cluster(*parent, ci@) {
            Ok(v) => {
                assert(out@.children =~= v.children);
                assert(out@ =~~= v);
            },
            Err(_) => {
                assert(false);
            },
        }
    }
    Ok(out)
}

/// Resolves one peripheral against the device defaults, per
/// [`spec_resolve_peripheral`].
pub fn resolve_peripheral(defaults: &RegisterProperties, p: &Peripheral) -> (out: Result<
    Peripheral,
    SvdError,
>)
    requires
        p.wf(),
    ensures
        match spec_resolve_peripheral(*defaults, p@) {
            Ok(v) => out matches Ok(x) && x@ == v,
            Err(k) => out matches Err(e) && e@ == err_of(k),
        },
{
    let eff = RegisterProperties::resolve(defaults, &p.default_register_properties);
    let registers: Option<Vec<RegisterCluster>> = match &p.registers {
        None => None,
        Some(rs) => {
            let derived = match derive_rc_list(rs) {
                Ok(v) => v,
                Err(e) => {
                    return Err(e);
                },
            };
            let expanded = match expand_rc_list(derived) {
                Ok(v) => v,
                Err(e) => {
                    return Err(e);
                },
            };
            let ghost ev = expanded@.map_values(|c: RegisterCluster| c@);
            let n = expanded.len();
            let mut resolved: Vec<RegisterCluster> = Vec::new();
            let mut k: usize = 0;
            while k < n
                invariant
                    k <= n,
                    n == expanded@.len(),
                    ev == expanded@.map_values(|c: RegisterCluster| c@),
                    ev.len() == n,
                    forall|j: int|
                        0 <= j < n ==> #[trigger] ev[j]
                            == crate::svd::clusterinfo::register_cluster_view(expanded@[j]),
                    eff == spec_resolve(*defaults, p@.default_register_properties),
                    p@.registers is Some,
                    (match spec_derive_rc_list(p@.registers.unwrap()) {
                        Ok(dv) => spec_expand_rc_list(dv) == Ok::<
                            Seq<RegisterClusterV>,
                            SvdErrorKindV,
                        >(ev),
                        Err(_) => false,
                    }),
                    spec_apply_props_list(eff, ev, 0) == (match spec_apply_props_list(
                        eff,
                        ev,
                        k as int,
                    ) {
                        Ok(rest) => Ok::<Seq<RegisterClusterV>, SvdErrorKindV>(
                            resolved@.map_values(|c: RegisterCluster| c@) + rest,
                        ),
                        Err(x) => Err(x),
                    }),
                decreases n - k,
            {
                let ghost pre = resolved@.map_values(|c: RegisterCluster| c@);
                match apply_props_rc(&eff, &expanded[k]) {
                    Ok(c) => {
                        resolved.push(c);
                        proof {
                            assert(resolved@.map_values(|c: RegisterCluster| c@) =~= pre.push(
                                resolved@.last()@,
                            ));
                            match spec_apply_props_list(eff, ev, k + 1) {
                                Ok(rest) => {
                                    assert(pre.push(resolved@.last()@) + rest =~= pre + (seq![
                                        resolved@.last()@,
                                    ] + rest));
                                },
                                Err(_) => {},
                            }
                        }
                    },
                    Err(e) => {
                        return Err(e);
                    },
                }
                k = k + 1;
            }
            Some(resolved)
        },
    };
    let out = Peripheral {
        name: p.name.clone(),
        version: crate::svd::copies::copy_opt_string(&p.version),
        display_name: crate::svd::copies::copy_opt_string(&p.display_name),
        group_name: crate::svd::copies::copy_opt_string(&p.group_name),
        description: crate::svd::copies::copy_opt_string(&p.description),
        base_address: p.base_address,
        address_block: match &p.address_block {
            Some(a) => Some(crate::svd::copies::copy_address_block(a)),
            None => None,
        },
        interrupt: crate::svd::copies::copy_interrupts(&p.interrupt),
        default_register_properties: eff,
        registers,
        derived_from: crate::svd::copies::copy_opt_string(&p.derived_from),
    };
    proof {
        match spec_resolve_peripheral(*defaults, p@) {
            Ok(v) => {
                match out.registers {
                    Some(_) => {
                        assert(out@.registers.unwrap() =~= v.registers.unwrap());
                    },
                    None => {},
                }
                assert(out@ =~~= v);
            },
            Err(_) => {
                assert(false);
            },
        }
    }
    Ok(out)
}

/// Resolves a parsed device: derivation, expansion and inheritance in that
/// fixed order, per [`spec_resolve_device`]. Originals are never mutated;
/// the result is a fresh, fully owned tree.
pub fn resolve_device(d: &Device) -> (out: Result<Device, SvdError>)
    requires
        d.wf(),
    ensures
        match spec_resolve_device(d@) {
            Ok(v) => out matches Ok(x) && x@ == v,
            Err(k) => out matches Err(e) && e@ == err_of(k),
        },
{
    let ghost pv = d@.peripherals;
    let n = d.peripherals.len();
    let mut derived: Vec<Peripheral> = Vec::new();
    let mut k: usize = 0;
    while k < n
        invariant
            k <= n,
            n == d.peripherals@.len(),
            pv == d@.peripherals,
            pv.len() == n,
            forall|j: int| 0 <= j < n ==> (#[trigger] d.peripherals@[j]).wf(),
            forall|j: int| 0 <= j < n ==> #[trigger] pv[j] == d.peripherals@[j]@,
            forall|j: int| 0 <= j < derived@.len() ==> (#[trigger] derived@[j]).wf(),
            spec_derive_peripheral_list(pv, 0) == (match spec_derive_peripheral_list(
                pv,
                k as int,
            ) {
                Ok(rest) => Ok::<Seq<PeripheralV>, SvdErrorKindV>(
                    derived@.map_values(|p: Peripheral| p@) + rest,
                ),
                Err(x) => Err(x),
            }),
        decreases n - k,
    {
        let ghost pre = derived@.map_values(|p: Peripheral| p@);
        let one = crate::svd::copies::copy_peripheral(&d.peripherals[k]);
        let empty_visited: Vec<String> = Vec::new();
        proof {
            assert(empty_visited@.map_values(|x: String| x@) =~= Seq::<Seq<char>>::empty());
        }
        match resolve_peripheral_derivation(&d.peripherals, one, empty_visited) {
            Ok(p) => {
                derived.push(p);
                proof {
                    assert(derived@.map_values(|p: Peripheral| p@) =~= pre.push(
                        derived@.last()@,
                    ));
                    match spec_derive_peripheral_list(pv, k + 1) {
                        Ok(rest) => {
                            assert(pre.push(derived@.last()@) + rest =~= pre + (seq![
                                derived@.last()@,
                            ] + rest));
                        },
                        Err(_) => {},
                    }
                }
            },
            Err(e) => {
                return Err(e);
            },
        }
        k = k + 1;
    }
    proof {
        assert(derived@.map_values(|p: Peripheral| p@) + Seq::<PeripheralV>::empty()
            =~= derived@.map_values(|p: Peripheral| p@));
    }
    let ghost dv = derived@.map_values(|p: Peripheral| p@);
    let m = derived.len();
    let mut peripherals: Vec<Peripheral> = Vec::new();
    let mut k2: usize = 0;
    while k2 < m
        invariant
            k2 <= m,
            m == derived@.len(),
            dv == derived@.map_values(|p: Peripheral| p@),
            dv.len() == m,
            pv == d@.peripherals,
            spec_derive_peripheral_list(pv, 0) == Ok::<Seq<PeripheralV>, SvdErrorKindV>(dv),
            forall|j: int| 0 <= j < m ==> (#[trigger] derived@[j]).wf(),
            forall|j: int| 0 <= j < m ==> #[trigger] dv[j] == derived@[j]@,
            spec_resolve_device_list(d@.default_register_properties, dv, 0) == (
            match spec_resolve_device_list(d@.default_register_properties, dv, k2 as int) {
                Ok(rest) => Ok::<Seq<PeripheralV>, SvdErrorKindV>(
                    peripherals@.map_values(|p: Peripheral| p@) + rest,
                ),
                Err(x) => Err(x),
            }),
        decreases m - k2,
    {
        let ghost pre = peripherals@.map_values(|p: Peripheral| p@);
        match resolve_peripheral(&d.default_register_properties, &derived[k2]) {
            Ok(p) => {
                peripherals.push(p);
                proof {
                    assert(peripherals@.map_values(|p: Peripheral| p@) =~= pre.push(
                        peripherals@.last()@,
                    ));
                    match spec_resolve_device_list(d@.default_register_properties, dv, k2 + 1) {
                        Ok(rest) => {
                            assert(pre.push(peripherals@.last()@) + rest =~= pre + (seq![
                                peripherals@.last()@,
                            ] + rest));
                        },
                        Err(_) => {},
                    }
                }
            },
            Err(e) => {
                return Err(e);
            },
        }
        k2 = k2 + 1;
    }
    let out = Device {
        name: d.name.clone(),
        version: crate::svd::copies::copy_opt_string(&d.version),
        description: crate::svd::copies::copy_opt_string(&d.description),
        cpu: match &d.cpu {
            Some(c) => Some(
                crate::svd::cpu::Cpu {
                    name: c.name.clone(),
                    revision: c.revision.clone(),
                    endian: c.endian,
                    mpu_present: c.mpu_present,
                    fpu_present: c.fpu_present,
                    nvic_priority_bits: c.nvic_priority_bits,
                    has_vendor_systick: c.has_vendor_systick,
                },
            ),
            None => None,
        },
        address_unit_bits: d.address_unit_bits,
        width: d.width,
        default_register_properties: d.default_register_properties,
        peripherals,
        schema_version: crate::svd::copies::copy_opt_string(&d.schema_version),
    };
    proof {
        match spec_resolve_device(d@) {
            Ok(v) => {
                assert(out@.peripherals =~= v.peripherals);
                assert(out@ =~~= v);
            },
            Err(_) => {
                assert(false);
            },
        }
    }
    Ok(out)
}

} // verus!
