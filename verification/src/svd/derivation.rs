//! The `derivedFrom` resolver: merging an entity with the sibling it
//! names, resolving chains of derivation, and refusing cycles.
//!
//! The merge policy: every field the deriving entity sets explicitly wins;
//! every field it leaves unset is copied verbatim from the source,
//! including whole nested collections. Register properties merge field by
//! field. Chains resolve recursively against the already-parsed siblings;
//! a name met twice during one resolution is a `DerivationCycle`.

use vstd::prelude::*;

use crate::errors::{err_of, SvdError, SvdErrorKind, SvdErrorKindV};
use crate::svd::copies::{copy_address_block, copy_fields, copy_interrupts, copy_opt_string,
    copy_peripheral, copy_register_info, copy_rc_list};
use crate::svd::peripheral::{Peripheral, PeripheralV};
use crate::svd::registerinfo::{RegisterInfo, RegisterInfoV};
use crate::svd::registerproperties::spec_resolve;

verus! {

/// The merge of a deriving register with its resolved source: each field
/// the child sets wins, each field it leaves unset is the source's,
/// properties merged field by field, and the derivation consumed.
pub open spec fn spec_merge_register(c: RegisterInfoV, s: RegisterInfoV) -> RegisterInfoV {
    RegisterInfoV {
        name: c.name,
        display_name: if c.display_name is Some {
            c.display_name
        } else {
            s.display_name
        },
        description: if c.description is Some {
            c.description
        } else {
            s.description
        },
        alternate_group: if c.alternate_group is Some {
            c.alternate_group
        } else {
            s.alternate_group
        },
        alternate_register: if c.alternate_register is Some {
            c.alternate_register
        } else {
            s.alternate_register
        },
        address_offset: if c.address_offset is Some {
            c.address_offset
        } else {
            s.address_offset
        },
        properties: spec_resolve(s.properties, c.properties),
        modified_write_values: if c.modified_write_values is Some {
            c.modified_write_values
        } else {
            s.modified_write_values
        },
        write_constraint: if c.write_constraint is Some {
            c.write_constraint
        } else {
            s.write_constraint
        },
        fields: if c.fields is Some {
            c.fields
        } else {
            s.fields
        },
        derived_from: None,
    }
}

/// Exec mirror of [`spec_merge_register`].
pub fn merge_register(child: &RegisterInfo, source: &RegisterInfo) -> (r: RegisterInfo)
    ensures
        r@ == spec_merge_register(child@, source@),
        child.wf() && source.wf() && source.derived_from is None ==> r.wf(),
{
    let fields = match &child.fields {
        Some(fs) => Some(copy_fields(fs)),
        None => match &source.fields {
            Some(fs) => Some(copy_fields(fs)),
            None => None,
        },
    };
    let r = RegisterInfo {
        name: child.name.clone(),
        display_name: if child.display_name.is_some() {
            copy_opt_string(&child.display_name)
        } else {
            copy_opt_string(&source.display_name)
        },
        description: if child.description.is_some() {
            copy_opt_string(&child.description)
        } else {
            copy_opt_string(&source.description)
        },
        alternate_group: if child.alternate_group.is_some() {
            copy_opt_string(&child.alternate_group)
        } else {
            copy_opt_string(&source.alternate_group)
        },
        alternate_register: if child.alternate_register.is_some() {
            copy_opt_string(&child.alternate_register)
        } else {
            copy_opt_string(&source.alternate_register)
        },
        address_offset: if child.address_offset.is_some() {
            child.address_offset
        } else {
            source.address_offset
        },
        properties: crate::svd::registerproperties::RegisterProperties::resolve(
            &source.properties,
            &child.properties,
        ),
        modified_write_values: if child.modified_write_values.is_some() {
            child.modified_write_values
        } else {
            source.modified_write_values
        },
        write_constraint: if child.write_constraint.is_some() {
            child.write_constraint
        } else {
            source.write_constraint
        },
        fields,
        derived_from: None,
    };
    proof {
        assert(r@ =~~= spec_merge_register(child@, source@));
    }
    r
}

/// Index of the first register of `s` named `name`, or -1.
pub open spec fn find_register(s: Seq<RegisterInfoV>, name: Seq<char>) -> int
    decreases s.len(),
{
    if s.len() == 0 {
        -1
    } else if s[0].name == name {
        0
    } else {
        let r = find_register(s.skip(1), name);
        if r < 0 {
            -1
        } else {
            r + 1
        }
    }
}

/// What `find_register` finds, in the manner of a first-match search.
pub proof fn lemma_find_register(s: Seq<RegisterInfoV>, name: Seq<char>)
    ensures
        find_register(s, name) >= 0 ==> {
            &&& find_register(s, name) < s.len()
            &&& s[find_register(s, name)].name == name
            &&& forall|j: int| 0 <= j < find_register(s, name) ==> s[j].name != name
        },
        find_register(s, name) < 0 ==> forall|j: int| 0 <= j < s.len() ==> s[j].name != name,
    decreases s.len(),
{
    if s.len() > 0 && s[0].name != name {
        lemma_find_register(s.skip(1), name);
        assert forall|j: int| 0 <= j < s.len() && s[j].name == name implies j >= 1 && s.skip(
            1,
        )[j - 1].name == name by {
            assert(s.skip(1)[j - 1] == s[j]);
        }
        if find_register(s, name) >= 0 {
            let r = find_register(s.skip(1), name);
            assert(s[r + 1] == s.skip(1)[r]);
        }
    }
}

/// One register fully resolved against its siblings: a register deriving
/// from nothing is itself; otherwise the named sibling is looked up,
/// itself resolved first, and merged under this register's overrides. A
/// name already seen in this resolution is a `DerivationCycle`, a name no
/// sibling carries a `DerivedFromNotFound`.
pub open spec fn spec_resolve_register(
    s: Seq<RegisterInfoV>,
    r: RegisterInfoV,
    visited: Seq<Seq<char>>,
) -> Result<RegisterInfoV, SvdErrorKindV>
    decreases s.len() - visited.len(),
{
    match r.derived_from {
        None => Ok(r),
        Some(n) => if visited.contains(n) {
            Err(SvdErrorKindV::DerivationCycle(n))
        } else {
            let i = find_register(s, n);
            if i < 0 {
                Err(SvdErrorKindV::DerivedFromNotFound(n))
            } else if visited.len() >= s.len() {
                Err(SvdErrorKindV::DerivationCycle(n))
            } else {
                match spec_resolve_register(s, s[i], visited.push(n)) {
                    Err(k) => Err(k),
                    Ok(src) => Ok(spec_merge_register(r, src)),
                }
            }
        },
    }
}

/// Exec mirror of [`spec_resolve_register`].
pub fn resolve_register(
    siblings: &Vec<RegisterInfo>,
    r: RegisterInfo,
    visited: Vec<String>,
) -> (out: Result<RegisterInfo, SvdError>)
    requires
        r.wf() || r.derived_from is Some,
        forall|i: int| 0 <= i < siblings@.len() ==> (#[trigger] siblings@[i]).wf() || siblings@[
            i
        ].derived_from is Some,
    ensures
        match spec_resolve_register(
            siblings@.map_values(|x: RegisterInfo| x@),
            r@,
            visited@.map_values(|x: String| x@),
        ) {
            Ok(v) => out matches Ok(x) && x@ == v,
            Err(k) => out matches Err(e) && e@ == err_of(k),
        },
    decreases siblings@.len() - visited@.len(),
{
    let ghost sv = siblings@.map_values(|x: RegisterInfo| x@);
    let ghost vv = visited@.map_values(|x: String| x@);
    let name = match &r.derived_from {
        None => {
            return Ok(r);
        },
        Some(n) => n.clone(),
    };
    if contains_string(&visited, &name) {
        return Err(SvdError::new(SvdErrorKind::DerivationCycle(name)));
    }
    let idx = match find_register_at(siblings, &name) {
        Some(i) => i,
        None => {
            return Err(SvdError::new(SvdErrorKind::DerivedFromNotFound(name)));
        },
    };
    if visited.len() >= siblings.len() {
        return Err(SvdError::new(SvdErrorKind::DerivationCycle(name)));
    }
    let source = copy_register_info(&siblings[idx]);
    let mut visited2 = visited;
    visited2.push(name);
    proof {
        assert(visited2@.map_values(|x: String| x@) =~= vv.push(r@.derived_from.unwrap()));
        assert(source@ == sv[find_register(sv, r@.derived_from.unwrap())]);
    }
    match resolve_register(siblings, source, visited2) {
        Err(e) => Err(e),
        Ok(src) => Ok(merge_register(&r, &src)),
    }
}

/// Whether some string of `v` equals `name`.
fn contains_string(v: &Vec<String>, name: &String) -> (r: bool)
    ensures
        r == v@.map_values(|x: String| x@).contains(name@),
{
    let n = v.len();
    let mut i: usize = 0;
    while i < n
        invariant
            i <= n,
            n == v@.len(),
            forall|j: int| 0 <= j < i ==> #[trigger] v@[j]@ != name@,
        decreases n - i,
    {
        if crate::tree::string_eq_str(&v[i], name.as_str()) {
            proof {
                assert(v@.map_values(|x: String| x@)[i as int] == name@);
            }
            return true;
        }
        i = i + 1;
    }
    proof {
        let m = v@.map_values(|x: String| x@);
        assert forall|j: int| 0 <= j < m.len() implies #[trigger] m[j] != name@ by {
            assert(m[j] == v@[j]@);
        }
    }
    false
}

/// The index of the first sibling named `name`, per [`find_register`].
fn find_register_at(v: &Vec<RegisterInfo>, name: &String) -> (r: Option<usize>)
    ensures
        ({
            let sv = v@.map_values(|x: RegisterInfo| x@);
            match r {
                Some(i) => find_register(sv, name@) == i as int && i < v@.len(),
                None => find_register(sv, name@) < 0,
            }
        }),
{
    let ghost sv = v@.map_values(|x: RegisterInfo| x@);
    proof {
        lemma_find_register(sv, name@);
    }
    let n = v.len();
    let mut i: usize = 0;
    while i < n
        invariant
            i <= n,
            n == v@.len(),
            sv == v@.map_values(|x: RegisterInfo| x@),
            sv.len() == n,
            forall|j: int| 0 <= j < i ==> #[trigger] sv[j].name != name@,
        decreases n - i,
    {
        if crate::tree::string_eq_str(&v[i].name, name.as_str()) {
            proof {
                lemma_find_register(sv, name@);
                assert(sv[i as int].name == name@);
            }
            return Some(i);
        }
        proof {
            assert(sv[i as int] == v@[i as int]@);
        }
        i = i + 1;
    }
    proof {
        lemma_find_register(sv, name@);
    }
    None
}

/// The whole sibling list resolved, each register against the original,
/// unmutated list, in order.
pub open spec fn spec_resolve_register_list(s: Seq<RegisterInfoV>, k: int) -> Result<
    Seq<RegisterInfoV>,
    SvdErrorKindV,
>
    decreases s.len() - k,
{
    if k < 0 || k >= s.len() {
        Ok(Seq::empty())
    } else {
        match spec_resolve_register(s, s[k], Seq::empty()) {
            Err(x) => Err(x),
            Ok(r) => match spec_resolve_register_list(s, k + 1) {
                Err(x) => Err(x),
                Ok(rest) => Ok(seq![r] + rest),
            },
        }
    }
}

/// Resolves every register of `regs` against the list itself, per
/// [`spec_resolve_register_list`]; originals are never mutated, each
/// output is a fresh merged record.
pub fn resolve_register_derivations(regs: &Vec<RegisterInfo>) -> (out: Result<
    Vec<RegisterInfo>,
    SvdError,
>)
    requires
        forall|i: int| 0 <= i < regs@.len() ==> (#[trigger] regs@[i]).wf() || regs@[
            i
        ].derived_from is Some,
    ensures
        match spec_resolve_register_list(regs@.map_values(|x: RegisterInfo| x@), 0) {
            Ok(v) => out matches Ok(rs) && rs@.map_values(|x: RegisterInfo| x@) == v,
            Err(k) => out matches Err(e) && e@ == err_of(k),
        },
{
    let ghost sv = regs@.map_values(|x: RegisterInfo| x@);
    let n = regs.len();
    let mut out: Vec<RegisterInfo> = Vec::new();
    let mut k: usize = 0;
    while k < n
        invariant
            k <= n,
            n == regs@.len(),
            sv == regs@.map_values(|x: RegisterInfo| x@),
            sv.len() == n,
            forall|i: int| 0 <= i < n ==> (#[trigger] regs@[i]).wf() || regs@[
                i
            ].derived_from is Some,
            spec_resolve_register_list(sv, 0) == (match spec_resolve_register_list(sv, k as int) {
                Ok(rest) => Ok::<Seq<RegisterInfoV>, SvdErrorKindV>(
                    out@.map_values(|x: RegisterInfo| x@) + rest,
                ),
                Err(x) => Err(x),
            }),
        decreases n - k,
    {
        let ghost pre = out@.map_values(|x: RegisterInfo| x@);
        let r = copy_register_info(&regs[k]);
        let empty_visited: Vec<String> = Vec::new();
        proof {
            assert(empty_visited@.map_values(|x: String| x@) =~= Seq::<Seq<char>>::empty());
            assert(r@ == sv[k as int]);
        }
        match resolve_register(regs, r, empty_visited) {
            Ok(x) => {
                out.push(x);
                proof {
                    assert(out@.map_values(|x: RegisterInfo| x@) =~= pre.push(out@.last()@));
                    assert forall|rest: Seq<RegisterInfoV>|
                        #[trigger] (pre.push(out@.last()@) + rest) =~= pre + (seq![out@.last()@]
                            + rest) by {}
                }
            },
            Err(e) => {
                return Err(e);
            },
        }
        k = k + 1;
    }
    proof {
        assert(out@.map_values(|x: RegisterInfo| x@) + Seq::<RegisterInfoV>::empty()
            =~= out@.map_values(|x: RegisterInfo| x@));
    }
    Ok(out)
}

/// The derivation merge keeps the deriving register's explicit overrides
/// and nothing else of it: a register that specifies only its description
/// inherits address offset, properties and fields verbatim from its
/// source, while the description stays its own.
pub proof fn lemma_derivation_merge(c: RegisterInfoV, s: RegisterInfoV)
    requires
        c.description is Some,
        c.display_name is None,
        c.alternate_group is None,
        c.alternate_register is None,
        c.address_offset is None,
        c.properties.size is None,
        c.properties.access is None,
        c.properties.reset_value is None,
        c.properties.reset_mask is None,
        c.modified_write_values is None,
        c.write_constraint is None,
        c.fields is None,
    ensures
        spec_merge_register(c, s).description == c.description,
        spec_merge_register(c, s).name == c.name,
        spec_merge_register(c, s).address_offset == s.address_offset,
        spec_merge_register(c, s).properties == s.properties,
        spec_merge_register(c, s).fields == s.fields,
        spec_merge_register(c, s).modified_write_values == s.modified_write_values,
        spec_merge_register(c, s).write_constraint == s.write_constraint,
{
}

/// The merge of a deriving peripheral with its resolved source, under the
/// same policy as registers: explicit overrides win, unset fields are the
/// source's, properties merge field by field. The base address is always
/// the deriving peripheral's own; an empty interrupt list and an absent
/// register list count as unset.
pub open spec fn spec_merge_peripheral(c: PeripheralV, s: PeripheralV) -> PeripheralV {
    PeripheralV {
        name: c.name,
        version: if c.version is Some {
            c.version
        } else {
            s.version
        },
        display_name: if c.display_name is Some {
            c.display_name
        } else {
            s.display_name
        },
        group_name: if c.group_name is Some {
            c.group_name
        } else {
            s.group_name
        },
        description: if c.description is Some {
            c.description
        } else {
            s.description
        },
        base_address: c.base_address,
        address_block: if c.address_block is Some {
            c.address_block
        } else {
            s.address_block
        },
        interrupt: if c.interrupt.len() > 0 {
            c.interrupt
        } else {
            s.interrupt
        },
        default_register_properties: spec_resolve(
            s.default_register_properties,
            c.default_register_properties,
        ),
        registers: if c.registers is Some {
            c.registers
        } else {
            s.registers
        },
        derived_from: None,
    }
}

/// Exec mirror of [`spec_merge_peripheral`].
pub fn merge_peripheral(child: &Peripheral, source: &Peripheral) -> (r: Peripheral)
    ensures
        r@ == spec_merge_peripheral(child@, source@),
        child.wf() && source.wf() ==> r.wf(),
{
    let r = Peripheral {
        name: child.name.clone(),
        version: if child.version.is_some() {
            copy_opt_string(&child.version)
        } else {
            copy_opt_string(&source.version)
        },
        display_name: if child.display_name.is_some() {
            copy_opt_string(&child.display_name)
        } else {
            copy_opt_string(&source.display_name)
        },
        group_name: if child.group_name.is_some() {
            copy_opt_string(&child.group_name)
        } else {
            copy_opt_string(&source.group_name)
        },
        description: if child.description.is_some() {
            copy_opt_string(&child.description)
        } else {
            copy_opt_string(&source.description)
        },
        base_address: child.base_address,
        address_block: if child.address_block.is_some() {
            match &child.address_block {
                Some(a) => Some(copy_address_block(a)),
                None => None,
            }
        } else {
            match &source.address_block {
                Some(a) => Some(copy_address_block(a)),
                None => None,
            }
        },
        interrupt: if child.interrupt.len() > 0 {
            copy_interrupts(&child.interrupt)
        } else {
            copy_interrupts(&source.interrupt)
        },
        default_register_properties: crate::svd::registerproperties::RegisterProperties::resolve(
            &source.default_register_properties,
            &child.default_register_properties,
        ),
        registers: if child.registers.is_some() {
            match &child.registers {
                Some(rs) => Some(copy_rc_list(rs)),
                None => None,
            }
        } else {
            match &source.registers {
                Some(rs) => Some(copy_rc_list(rs)),
                None => None,
            }
        },
        derived_from: None,
    };
    proof {
        assert(r@.interrupt =~= spec_merge_peripheral(child@, source@).interrupt);
        match r.registers {
            Some(_) => {
                assert(r@.registers.unwrap() =~= spec_merge_peripheral(
                    child@,
                    source@,
                ).registers.unwrap());
            },
            None => {},
        }
        assert(r@ =~~= spec_merge_peripheral(child@, source@));
    }
    r
}

/// Index of the first peripheral of `s` named `name`, or -1.
pub open spec fn find_peripheral(s: Seq<PeripheralV>, name: Seq<char>) -> int
    decreases s.len(),
{
    if s.len() == 0 {
        -1
    } else if s[0].name == name {
        0
    } else {
        let r = find_peripheral(s.skip(1), name);
        if r < 0 {
            -1
        } else {
            r + 1
        }
    }
}

/// What `find_peripheral` finds, in the manner of a first-match search.
pub proof fn lemma_find_peripheral(s: Seq<PeripheralV>, name: Seq<char>)
    ensures
        find_peripheral(s, name) >= 0 ==> {
            &&& find_peripheral(s, name) < s.len()
            &&& s[find_peripheral(s, name)].name == name
            &&& forall|j: int| 0 <= j < find_peripheral(s, name) ==> s[j].name != name
        },
        find_peripheral(s, name) < 0 ==> forall|j: int| 0 <= j < s.len() ==> s[j].name != name,
    decreases s.len(),
{
    if s.len() > 0 && s[0].name != name {
        lemma_find_peripheral(s.skip(1), name);
        assert forall|j: int| 0 <= j < s.len() && s[j].name == name implies j >= 1 && s.skip(
            1,
        )[j - 1].name == name by {
            assert(s.skip(1)[j - 1] == s[j]);
        }
        if find_peripheral(s, name) >= 0 {
            let r = find_peripheral(s.skip(1), name);
            assert(s[r + 1] == s.skip(1)[r]);
        }
    }
}

/// One peripheral fully resolved against its siblings, in the manner of
/// [`spec_resolve_register`].
pub open spec fn spec_resolve_peripheral_derivation(
    s: Seq<PeripheralV>,
    p: PeripheralV,
    visited: Seq<Seq<char>>,
) -> Result<PeripheralV, SvdErrorKindV>
    decreases s.len() - visited.len(),
{
    match p.derived_from {
        None => Ok(p),
        Some(n) => if visited.contains(n) {
            Err(SvdErrorKindV::DerivationCycle(n))
        } else {
            let i = find_peripheral(s, n);
            if i < 0 {
                Err(SvdErrorKindV::DerivedFromNotFound(n))
            } else if visited.len() >= s.len() {
                Err(SvdErrorKindV::DerivationCycle(n))
            } else {
                match spec_resolve_peripheral_derivation(s, s[i], visited.push(n)) {
                    Err(k) => Err(k),
                    Ok(src) => Ok(spec_merge_peripheral(p, src)),
                }
            }
        },
    }
}

/// Exec mirror of [`spec_resolve_peripheral_derivation`].
pub fn resolve_peripheral_derivation(
    siblings: &Vec<Peripheral>,
    p: Peripheral,
    visited: Vec<String>,
) -> (out: Result<Peripheral, SvdError>)
    requires
        forall|i: int| 0 <= i < siblings@.len() ==> (#[trigger] siblings@[i]).wf(),
        p.wf(),
    ensures
        match spec_resolve_peripheral_derivation(
            siblings@.map_values(|x: Peripheral| x@),
            p@,
            visited@.map_values(|x: String| x@),
        ) {
            Ok(v) => out matches Ok(x) && x@ == v && x.wf(),
            Err(k) => out matches Err(e) && e@ == err_of(k),
        },
    decreases siblings@.len() - visited@.len(),
{
    let ghost sv = siblings@.map_values(|x: Peripheral| x@);
    let ghost vv = visited@.map_values(|x: String| x@);
    let name = match &p.derived_from {
        None => {
            return Ok(p);
        },
        Some(n) => n.clone(),
    };
    if contains_string(&visited, &name) {
        return Err(SvdError::new(SvdErrorKind::DerivationCycle(name)));
    }
    let idx = match find_peripheral_at(siblings, &name) {
        Some(i) => i,
        None => {
            return Err(SvdError::new(SvdErrorKind::DerivedFromNotFound(name)));
        },
    };
    if visited.len() >= siblings.len() {
        return Err(SvdError::new(SvdErrorKind::DerivationCycle(name)));
    }
    let source = copy_peripheral(&siblings[idx]);
    let mut visited2 = visited;
    visited2.push(name);
    proof {
        assert(visited2@.map_values(|x: String| x@) =~= vv.push(p@.derived_from.unwrap()));
        assert(source@ == sv[find_peripheral(sv, p@.derived_from.unwrap())]);
    }
    match resolve_peripheral_derivation(siblings, source, visited2) {
        Err(e) => Err(e),
        Ok(src) => Ok(merge_peripheral(&p, &src)),
    }
}

/// The index of the first sibling peripheral named `name`, per
/// [`find_peripheral`].
fn find_peripheral_at(v: &Vec<Peripheral>, name: &String) -> (r: Option<usize>)
    ensures
        ({
            let sv = v@.map_values(|x: Peripheral| x@);
            match r {
                Some(i) => find_peripheral(sv, name@) == i as int && i < v@.len(),
                None => find_peripheral(sv, name@) < 0,
            }
        }),
{
    let ghost sv = v@.map_values(|x: Peripheral| x@);
    proof {
        lemma_find_peripheral(sv, name@);
    }
    let n = v.len();
    let mut i: usize = 0;
    while i < n
        invariant
            i <= n,
            n == v@.len(),
            sv == v@.map_values(|x: Peripheral| x@),
            sv.len() == n,
            forall|j: int| 0 <= j < i ==> #[trigger] sv[j].name != name@,
        decreases n - i,
    {
        if crate::tree::string_eq_str(&v[i].name, name.as_str()) {
            proof {
                lemma_find_peripheral(sv, name@);
                assert(sv[i as int].name == name@);
            }
            return Some(i);
        }
        proof {
            assert(sv[i as int] == v@[i as int]@);
        }
        i = i + 1;
    }
    proof {
        lemma_find_peripheral(sv, name@);
    }
    None
}

} // verus!
