//! The dimension expander: one dimensioned template becomes `dim` concrete
//! named siblings, each with the placeholder substituted and the address
//! offset advanced by the increment.

use vstd::prelude::*;

use crate::errors::{err_of, DimensionError, SvdError, SvdErrorKind, SvdErrorKindV};
use crate::parse::{dec_digits, fmt_dec};
use crate::svd::copies::copy_register_info;
use crate::svd::dimelement::{DimElement, DimElementV};
use crate::svd::registerinfo::{RegisterInfo, RegisterInfoV};

verus! {

/// Index of the first `%s` placeholder in `s`, or -1.
pub open spec fn find_placeholder(s: Seq<char>) -> int
    decreases s.len(),
{
    if s.len() < 2 {
        -1
    } else if s[0] == '%' && s[1] == 's' {
        0
    } else {
        let r = find_placeholder(s.skip(1));
        if r < 0 {
            -1
        } else {
            r + 1
        }
    }
}

/// What `find_placeholder` finds: the first position of `%s`, or -1 when
/// the name holds none.
pub proof fn lemma_find_placeholder(s: Seq<char>)
    ensures
        find_placeholder(s) >= 0 ==> {
            &&& find_placeholder(s) + 1 < s.len()
            &&& s[find_placeholder(s)] == '%'
            &&& s[find_placeholder(s) + 1] == 's'
            &&& forall|j: int|
                0 <= j < find_placeholder(s) ==> !((#[trigger] s[j]) == '%' && s[j + 1] == 's')
        },
        find_placeholder(s) < 0 ==> forall|j: int|
            0 <= j && j + 1 < s.len() ==> !((#[trigger] s[j]) == '%' && s[j + 1] == 's'),
    decreases s.len(),
{
    if s.len() >= 2 && !(s[0] == '%' && s[1] == 's') {
        lemma_find_placeholder(s.skip(1));
        let r = find_placeholder(s.skip(1));
        if r >= 0 {
            assert(s[r + 1] == s.skip(1)[r]);
            assert(s[r + 2] == s.skip(1)[r + 1]);
            assert forall|j: int| 0 <= j < find_placeholder(s) implies !((#[trigger] s[j]) == '%'
                && s[j + 1] == 's') by {
                if j >= 1 {
                    assert(s.skip(1)[j - 1] == s[j]);
                    assert(s.skip(1)[j] == s[j + 1]);
                    assert(!(s.skip(1)[j - 1] == '%' && s.skip(1)[j] == 's'));
                }
            }
        } else {
            assert forall|j: int| 0 <= j && j + 1 < s.len() implies !((#[trigger] s[j]) == '%'
                && s[j + 1] == 's') by {
                if j >= 1 {
                    assert(s.skip(1)[j - 1] == s[j]);
                    assert(s.skip(1)[j] == s[j + 1]);
                    assert(!(s.skip(1)[j - 1] == '%' && s.skip(1)[j] == 's'));
                }
            }
        }
    }
}

/// `name` with its first `%s` placeholder replaced by `label`; a name
/// without a placeholder is unchanged.
pub open spec fn subst_placeholder(name: Seq<char>, label: Seq<char>) -> Seq<char> {
    let k = find_placeholder(name);
    if k < 0 {
        name
    } else {
        name.subrange(0, k) + label + name.skip(k + 2)
    }
}

/// Exec mirror of [`find_placeholder`].
pub fn find_placeholder_at(s: &str) -> (r: Option<usize>)
    ensures
        r matches Some(k) ==> find_placeholder(s@) == k as int,
        r is None ==> find_placeholder(s@) < 0,
{
    proof {
        lemma_find_placeholder(s@);
    }
    let n = s.unicode_len();
    if n < 2 {
        return None;
    }
    let mut i: usize = 0;
    while i + 1 < n
        invariant
            i + 1 <= n,
            n == s@.len(),
            n >= 2,
            forall|j: int| 0 <= j < i ==> !(s@[j] == '%' && #[trigger] s@[j + 1] == 's'),
        decreases n - i,
    {
        if s.get_char(i) == '%' && s.get_char(i + 1) == 's' {
            proof {
                lemma_find_placeholder(s@);
                if find_placeholder(s@) != i as int {
                    if find_placeholder(s@) < 0 {
                        assert(!(s@[i as int] == '%' && s@[i as int + 1] == 's'));
                    } else if find_placeholder(s@) > i as int {
                        assert(!(s@[i as int] == '%' && s@[i as int + 1] == 's'));
                    } else {
                        assert(s@[find_placeholder(s@)] == '%' && s@[find_placeholder(s@) + 1]
                            == 's');
                    }
                }
            }
            return Some(i);
        }
        i = i + 1;
    }
    proof {
        lemma_find_placeholder(s@);
        if find_placeholder(s@) >= 0 {
            let k = find_placeholder(s@);
            assert(!(s@[k] == '%' && s@[k + 1] == 's'));
        }
    }
    None
}

/// Exec mirror of [`subst_placeholder`].
pub fn subst_placeholder_exec(name: &String, label: &String) -> (r: String)
    ensures
        r@ == subst_placeholder(name@, label@),
{
    let s = name.as_str();
    match find_placeholder_at(s) {
        None => name.clone(),
        Some(k) => {
            let n = s.unicode_len();
            proof {
                lemma_find_placeholder(s@);
            }
            let mut out: String = s.substring_char(0, k).to_owned();
            out.append(label.as_str());
            out.append(s.substring_char(k + 2, n));
            proof {
                assert(out@ =~= subst_placeholder(name@, label@));
            }
            out
        },
    }
}

/// The index labels of a dimension: the explicit list when present, else
/// the decimal strings of `0..dim`.
pub open spec fn spec_index_labels(d: DimElementV) -> Seq<Seq<char>> {
    match d.dim_index {
        Some(ls) => ls,
        None => Seq::new(d.dim as nat, |i: int| dec_digits(i as nat)),
    }
}

/// The expansion of a register template: exactly `dim` concrete registers,
/// the `i`-th named by substituting the `i`-th label and placed `i`
/// increments past the base offset. An explicit label list must have
/// exactly `dim` entries; a base name without a placeholder is refused
/// whenever more than one sibling is to be made.
pub open spec fn spec_expand_register(r: RegisterInfoV, d: DimElementV) -> Result<
    Seq<RegisterInfoV>,
    SvdErrorKindV,
> {
    if d.dim_index matches Some(ls) && ls.len() != d.dim {
        Err(SvdErrorKindV::Dimension(DimensionError::DimensionsMismatch))
    } else if find_placeholder(r.name) < 0 && d.dim > 1 {
        Err(SvdErrorKindV::Dimension(DimensionError::NoPlaceHolder))
    } else {
        Ok(
            Seq::new(
                d.dim as nat,
                |i: int|
                    RegisterInfoV {
                        name: subst_placeholder(r.name, spec_index_labels(d)[i]),
                        address_offset: Some(
                            (r.address_offset.unwrap() + i * d.dim_increment) as u32,
                        ),
                        ..r
                    },
            ),
        )
    }
}

/// Expands a register template, per [`spec_expand_register`]; expansion
/// happens before property inheritance, so each sibling carries the
/// template's own overrides unchanged.
pub fn expand_register(r: &RegisterInfo, d: &DimElement) -> (out: Result<
    Vec<RegisterInfo>,
    SvdError,
>)
    requires
        r.address_offset matches Some(b) && b + (d.dim - 1) * d.dim_increment <= u32::MAX,
    ensures
        match spec_expand_register(r@, d@) {
            Ok(v) => out matches Ok(rs) && rs@.map_values(|x: RegisterInfo| x@) == v && (r.wf()
                ==> forall|i: int| 0 <= i < rs@.len() ==> (#[trigger] rs@[i]).wf()),
            Err(k) => out matches Err(e) && e@ == err_of(k),
        },
{
    match &d.dim_index {
        Some(ls) => {
            if ls.len() as u64 != d.dim as u64 {
                return Err(
                    SvdError::new(
                        SvdErrorKind::Dimension(DimensionError::DimensionsMismatch),
                    ),
                );
            }
        },
        None => {},
    }
    let has_ph = find_placeholder_at(r.name.as_str()).is_some();
    if !has_ph && d.dim > 1 {
        return Err(SvdError::new(SvdErrorKind::Dimension(DimensionError::NoPlaceHolder)));
    }
    let base = match r.address_offset {
        Some(b) => b,
        None => {
            return Err(
                SvdError::new(SvdErrorKind::Dimension(DimensionError::DimensionsMismatch)),
            );
        },
    };
    let mut out: Vec<RegisterInfo> = Vec::new();
    let n = d.dim;
    let mut i: u32 = 0;
    while i < n
        invariant
            i <= n,
            n == d.dim,
            r.address_offset matches Some(bb) && bb == base && base + (n - 1) * d.dim_increment
                <= u32::MAX,
            spec_expand_register(r@, d@) matches Ok(v) && v.len() == n,
            out@.len() == i,
            forall|j: int|
                0 <= j < i ==> #[trigger] out@[j]@ == spec_expand_register(
                    r@,
                    d@,
                )->Ok_0[j],
            r.wf() ==> forall|j: int| 0 <= j < i ==> (#[trigger] out@[j]).wf(),
        decreases n - i,
    {
        let label: String = match &d.dim_index {
            Some(ls) => ls[i as usize].clone(),
            None => fmt_dec(i as u64),
        };
        let mut inst = copy_register_info(r);
        inst.name = subst_placeholder_exec(&r.name, &label);
        proof {
            assert(i * d.dim_increment <= (n - 1) * d.dim_increment) by (nonlinear_arith)
                requires
                    0 <= i < n,
                    0 <= d.dim_increment,
            ;
        }
        inst.address_offset = Some(base + i * d.dim_increment);
        out.push(inst);
        proof {
            let v = spec_expand_register(r@, d@)->Ok_0;
            assert(spec_index_labels(d@)[i as int] == label@);
            assert(out@.last()@ =~~= v[i as int]);
        }
        i = i + 1;
    }
    proof {
        assert(out@.map_values(|x: RegisterInfo| x@) =~= spec_expand_register(r@, d@)->Ok_0);
    }
    Ok(out)
}

} // verus!
