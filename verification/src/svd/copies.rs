//! View-preserving copies of the model types: derivation and expansion
//! produce new, fully owned subtrees, so they duplicate their sources, and
//! every duplicate is proven equal to its source in the mathematical model.

use vstd::prelude::*;

use crate::svd::addressblock::AddressBlock;
use crate::svd::clusterinfo::{Cluster, ClusterInfo, RegisterCluster, cluster_info_wf, cluster_wf,
    register_cluster_wf};
use crate::svd::dimelement::DimElement;
use crate::svd::enumeratedvalue::EnumeratedValue;
use crate::svd::enumeratedvalues::EnumeratedValues;
use crate::svd::field::Field;
use crate::svd::fieldinfo::FieldInfo;
use crate::svd::interrupt::Interrupt;
use crate::svd::peripheral::Peripheral;
use crate::svd::register::Register;
use crate::svd::registerinfo::RegisterInfo;

verus! {

/// A copy of an optional string, view preserved.
pub fn copy_opt_string(o: &Option<String>) -> (r: Option<String>)
    ensures
        crate::tree::opt_text(r) == crate::tree::opt_text(*o),
{
    match o {
        Some(s) => Some(s.clone()),
        None => None,
    }
}

/// A copy of a label list, views preserved.
pub fn copy_strings(v: &Vec<String>) -> (r: Vec<String>)
    ensures
        r@.map_values(|s: String| s@) == v@.map_values(|s: String| s@),
{
    let mut out: Vec<String> = Vec::new();
    let n = v.len();
    let mut i: usize = 0;
    while i < n
        invariant
            i <= n,
            n == v@.len(),
            out@.len() == i,
            forall|j: int| 0 <= j < i ==> #[trigger] out@[j]@ == v@[j]@,
        decreases n - i,
    {
        out.push(v[i].clone());
        i = i + 1;
    }
    proof {
        assert(out@.map_values(|s: String| s@) =~= v@.map_values(|s: String| s@));
    }
    out
}

/// A copy of a dimension, view preserved.
pub fn copy_dim_element(d: &DimElement) -> (r: DimElement)
    ensures
        r@ == d@,
{
    let r = DimElement {
        dim: d.dim,
        dim_increment: d.dim_increment,
        dim_index: match &d.dim_index {
            Some(ls) => Some(copy_strings(ls)),
            None => None,
        },
    };
    proof {
        assert(r@ =~~= d@);
    }
    r
}

/// A copy of an interrupt, view preserved.
pub fn copy_interrupt(x: &Interrupt) -> (r: Interrupt)
    ensures
        r@ == x@,
{
    Interrupt {
        name: x.name.clone(),
        description: copy_opt_string(&x.description),
        value: x.value,
    }
}

/// A copy of an interrupt list, views preserved.
pub fn copy_interrupts(v: &Vec<Interrupt>) -> (r: Vec<Interrupt>)
    ensures
        r@.map_values(|i: Interrupt| i@) == v@.map_values(|i: Interrupt| i@),
{
    let mut out: Vec<Interrupt> = Vec::new();
    let n = v.len();
    let mut i: usize = 0;
    while i < n
        invariant
            i <= n,
            n == v@.len(),
            out@.len() == i,
            forall|j: int| 0 <= j < i ==> #[trigger] out@[j]@ == v@[j]@,
        decreases n - i,
    {
        out.push(copy_interrupt(&v[i]));
        i = i + 1;
    }
    proof {
        assert(out@.map_values(|i: Interrupt| i@) =~= v@.map_values(|i: Interrupt| i@));
    }
    out
}

/// A copy of an address block, view preserved.
pub fn copy_address_block(a: &AddressBlock) -> (r: AddressBlock)
    ensures
        r@ == a@,
{
    AddressBlock { offset: a.offset, size: a.size, usage: a.usage.clone() }
}

/// A copy of an enumerated value, view preserved.
pub fn copy_enumerated_value(x: &EnumeratedValue) -> (r: EnumeratedValue)
    ensures
        r@ == x@,
{
    EnumeratedValue {
        name: x.name.clone(),
        description: copy_opt_string(&x.description),
        value: x.value,
        is_default: x.is_default,
    }
}

/// A copy of an enumeration set, view preserved; well-formedness carries
/// over.
pub fn copy_enumerated_values(x: &EnumeratedValues) -> (r: EnumeratedValues)
    ensures
        r@ == x@,
        x.wf() ==> r.wf(),
{
    let mut values: Vec<EnumeratedValue> = Vec::new();
    let n = x.values.len();
    let mut i: usize = 0;
    while i < n
        invariant
            i <= n,
            n == x.values@.len(),
            values@.len() == i,
            forall|j: int| 0 <= j < i ==> #[trigger] values@[j]@ == x.values@[j]@,
        decreases n - i,
    {
        values.push(copy_enumerated_value(&x.values[i]));
        i = i + 1;
    }
    let r = EnumeratedValues {
        name: copy_opt_string(&x.name),
        usage: x.usage,
        derived_from: copy_opt_string(&x.derived_from),
        values,
    };
    proof {
        assert(r@.values =~= x@.values);
        assert(r@ =~~= x@);
    }
    r
}

/// A copy of a field description, view preserved; well-formedness carries
/// over.
pub fn copy_field_info(x: &FieldInfo) -> (r: FieldInfo)
    ensures
        r@ == x@,
        x.wf() ==> r.wf(),
{
    let r = FieldInfo {
        name: x.name.clone(),
        description: copy_opt_string(&x.description),
        bit_range: x.bit_range,
        access: x.access,
        modified_write_values: x.modified_write_values,
        write_constraint: x.write_constraint,
        enumerated_values: match &x.enumerated_values {
            Some(ev) => Some(copy_enumerated_values(ev)),
            None => None,
        },
    };
    proof {
        assert(r@ =~~= x@);
    }
    r
}

/// A copy of a field child, view preserved; well-formedness carries over.
pub fn copy_field(x: &Field) -> (r: Field)
    ensures
        r@ == x@,
        x.wf() ==> r.wf(),
{
    match x {
        Field::Single(i) => Field::Single(copy_field_info(i)),
        Field::Array(i, d) => Field::Array(copy_field_info(i), copy_dim_element(d)),
    }
}

/// A copy of a field list, views and well-formedness preserved.
pub fn copy_fields(v: &Vec<Field>) -> (r: Vec<Field>)
    ensures
        r@.map_values(|f: Field| f@) == v@.map_values(|f: Field| f@),
        (forall|i: int| 0 <= i < v@.len() ==> (#[trigger] v@[i]).wf()) ==> forall|i: int|
            0 <= i < r@.len() ==> (#[trigger] r@[i]).wf(),
{
    let mut out: Vec<Field> = Vec::new();
    let n = v.len();
    let mut i: usize = 0;
    while i < n
        invariant
            i <= n,
            n == v@.len(),
            out@.len() == i,
            forall|j: int| 0 <= j < i ==> #[trigger] out@[j]@ == v@[j]@,
            forall|j: int| 0 <= j < i ==> (v@[j].wf() ==> (#[trigger] out@[j]).wf()),
        decreases n - i,
    {
        out.push(copy_field(&v[i]));
        i = i + 1;
    }
    proof {
        assert(out@.map_values(|f: Field| f@) =~= v@.map_values(|f: Field| f@));
        if forall|j: int| 0 <= j < v@.len() ==> (#[trigger] v@[j]).wf() {
            assert forall|j: int| 0 <= j < out@.len() implies (#[trigger] out@[j]).wf() by {
                assert(v@[j].wf());
            }
        }
    }
    out
}

/// A copy of a register description, view preserved; well-formedness
/// carries over.
pub fn copy_register_info(x: &RegisterInfo) -> (r: RegisterInfo)
    ensures
        r@ == x@,
        x.wf() ==> r.wf(),
{
    let r = RegisterInfo {
        name: x.name.clone(),
        display_name: copy_opt_string(&x.display_name),
        description: copy_opt_string(&x.description),
        alternate_group: copy_opt_string(&x.alternate_group),
        alternate_register: copy_opt_string(&x.alternate_register),
        address_offset: x.address_offset,
        properties: x.properties,
        modified_write_values: x.modified_write_values,
        write_constraint: x.write_constraint,
        fields: match &x.fields {
            Some(fs) => Some(copy_fields(fs)),
            None => None,
        },
        derived_from: copy_opt_string(&x.derived_from),
    };
    proof {
        match x.fields {
            Some(_) => {
                assert(r@.fields.unwrap() =~= x@.fields.unwrap());
            },
            None => {},
        }
        assert(r@ =~~= x@);
    }
    r
}

/// A copy of a register child, view preserved; well-formedness carries
/// over.
pub fn copy_register(x: &Register) -> (r: Register)
    ensures
        r@ == x@,
        x.wf() ==> r.wf(),
{
    match x {
        Register::Single(i) => Register::Single(copy_register_info(i)),
        Register::Array(i, d) => Register::Array(copy_register_info(i), copy_dim_element(d)),
    }
}

/// A copy of a register-or-cluster child, view preserved; well-formedness
/// carries over.
pub fn copy_register_cluster(x: &RegisterCluster) -> (r: RegisterCluster)
    ensures
        r@ == x@,
        register_cluster_wf(*x) ==> register_cluster_wf(r),
    decreases *x,
{
    match x {
        RegisterCluster::Register(rg) => RegisterCluster::Register(copy_register(rg)),
        RegisterCluster::Cluster(c) => RegisterCluster::Cluster(copy_cluster(c)),
    }
}

/// A copy of a cluster child, view preserved; well-formedness carries over.
pub fn copy_cluster(x: &Cluster) -> (r: Cluster)
    ensures
        r@ == x@,
        cluster_wf(*x) ==> cluster_wf(r),
    decreases *x,
{
    match x {
        Cluster::Single(i) => Cluster::Single(copy_cluster_info(i)),
        Cluster::Array(i, d) => Cluster::Array(copy_cluster_info(i), copy_dim_element(d)),
    }
}

/// A copy of a cluster description, view preserved; well-formedness carries
/// over.
pub fn copy_cluster_info(x: &ClusterInfo) -> (r: ClusterInfo)
    ensures
        r@ == x@,
        cluster_info_wf(*x) ==> cluster_info_wf(r),
    decreases *x,
{
    let mut children: Vec<RegisterCluster> = Vec::new();
    let n = x.children.len();
    let mut i: usize = 0;
    while i < n
        invariant
            i <= n,
            n == x.children@.len(),
            children@.len() == i,
            forall|j: int| 0 <= j < i ==> #[trigger] children@[j]@ == x.children@[j]@,
            forall|j: int|
                0 <= j < i ==> (register_cluster_wf(#[trigger] x.children@[j])
                    ==> register_cluster_wf(children@[j])),
        decreases n - i,
    {
        let c = copy_register_cluster(&x.children[i]);
        children.push(c);
        i = i + 1;
    }
    let r = ClusterInfo {
        name: x.name.clone(),
        description: copy_opt_string(&x.description),
        header_struct_name: copy_opt_string(&x.header_struct_name),
        address_offset: x.address_offset,
        default_register_properties: x.default_register_properties,
        children,
        derived_from: copy_opt_string(&x.derived_from),
    };
    proof {
        assert forall|k: int| 0 <= k < r@.children.len() implies r@.children[k] == #[trigger] x
            @.children[k] by {
            assert(r.children@[k]@ == x.children@[k]@);
        }
        assert(r@.children =~= x@.children);
        assert(r@ =~~= x@);
        if cluster_info_wf(*x) {
            assert forall|k: int|
                0 <= k < r.children@.len() implies register_cluster_wf(
                #[trigger] r.children@[k],
            ) by {
                assert(register_cluster_wf(x.children@[k]));
            }
        }
    }
    r
}

/// A copy of a register-and-cluster list, views and well-formedness
/// preserved.
pub fn copy_rc_list(v: &Vec<RegisterCluster>) -> (r: Vec<RegisterCluster>)
    ensures
        r@.map_values(|c: RegisterCluster| c@) == v@.map_values(|c: RegisterCluster| c@),
        (forall|i: int| 0 <= i < v@.len() ==> register_cluster_wf(#[trigger] v@[i])) ==> forall|
            i: int,
        | 0 <= i < r@.len() ==> register_cluster_wf(#[trigger] r@[i]),
{
    let mut out: Vec<RegisterCluster> = Vec::new();
    let n = v.len();
    let mut i: usize = 0;
    while i < n
        invariant
            i <= n,
            n == v@.len(),
            out@.len() == i,
            forall|j: int| 0 <= j < i ==> #[trigger] out@[j]@ == v@[j]@,
            forall|j: int|
                0 <= j < i ==> (register_cluster_wf(v@[j]) ==> register_cluster_wf(
                    #[trigger] out@[j],
                )),
        decreases n - i,
    {
        let c = copy_register_cluster(&v[i]);
        out.push(c);
        i = i + 1;
    }
    proof {
        assert(out@.map_values(|c: RegisterCluster| c@) =~= v@.map_values(
            |c: RegisterCluster| c@,
        ));
        if forall|j: int| 0 <= j < v@.len() ==> register_cluster_wf(#[trigger] v@[j]) {
            assert forall|j: int| 0 <= j < out@.len() implies register_cluster_wf(
                #[trigger] out@[j],
            ) by {
                assert(register_cluster_wf(v@[j]));
            }
        }
    }
    out
}

/// A copy of a peripheral, view preserved; well-formedness carries over.
pub fn copy_peripheral(p: &Peripheral) -> (r: Peripheral)
    ensures
        r@ == p@,
        p.wf() ==> r.wf(),
{
    let r = Peripheral {
        name: p.name.clone(),
        version: copy_opt_string(&p.version),
        display_name: copy_opt_string(&p.display_name),
        group_name: copy_opt_string(&p.group_name),
        description: copy_opt_string(&p.description),
        base_address: p.base_address,
        address_block: match &p.address_block {
            Some(a) => Some(copy_address_block(a)),
            None => None,
        },
        interrupt: copy_interrupts(&p.interrupt),
        default_register_properties: p.default_register_properties,
        registers: match &p.registers {
            Some(rs) => Some(copy_rc_list(rs)),
            None => None,
        },
        derived_from: copy_opt_string(&p.derived_from),
    };
    proof {
        match p.registers {
            Some(_) => {
                assert(r@.registers.unwrap() =~= p@.registers.unwrap());
            },
            None => {},
        }
        assert(r@.interrupt =~= p@.interrupt);
        assert(r@ =~~= p@);
    }
    r
}

} // verus!
