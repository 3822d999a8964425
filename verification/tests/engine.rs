//! The resolution engine on concrete values: numeric text conventions,
//! property inheritance, derivation merge, dimension expansion, and the
//! non-emptiness invariants, each with its exact expected outcome.

use svd_parser::errors::{DimensionError, SvdErrorKind};
use svd_parser::parse::{dim_index, parse_u32_text};
use svd_parser::svd::access::Access;
use svd_parser::svd::derivation::{merge_register, resolve_register};
use svd_parser::svd::device::Device;
use svd_parser::svd::dimelement::DimElementBuilder;
use svd_parser::svd::enumeratedvalues::EnumeratedValuesBuilder;
use svd_parser::svd::expand::expand_register;
use svd_parser::svd::registerinfo::RegisterInfo;
use svd_parser::svd::registerproperties::RegisterProperties;

fn reg(name: &str, offset: Option<u32>, derived_from: Option<&str>) -> RegisterInfo {
    let mut b = RegisterInfo::builder().name(name.to_string());
    if let Some(o) = offset {
        b = b.address_offset(o);
    }
    b.derived_from(derived_from.map(|s| s.to_string())).build().unwrap()
}

#[test]
fn numeric_text_conventions() {
    assert_eq!(parse_u32_text("0x1A"), Some(26));
    assert_eq!(parse_u32_text("#101x"), Some(10));
    assert_eq!(parse_u32_text("#101x0"), Some(20));
    assert_eq!(parse_u32_text("42"), Some(42));
    assert_eq!(parse_u32_text("zz"), None);
    assert_eq!(parse_u32_text("0X10"), Some(16));
    assert_eq!(parse_u32_text(""), None);
}

#[test]
fn property_inheritance_resolves_and_is_idempotent() {
    let parent = RegisterProperties {
        size: Some(32),
        access: Some(Access::ReadWrite),
        reset_value: Some(0),
        reset_mask: None,
    };
    let own = RegisterProperties {
        size: None,
        access: Some(Access::ReadOnly),
        reset_value: None,
        reset_mask: Some(0xff),
    };
    let once = RegisterProperties::resolve(&parent, &own);
    assert_eq!(once.size, Some(32));
    assert_eq!(once.access, Some(Access::ReadOnly));
    assert_eq!(once.reset_value, Some(0));
    assert_eq!(once.reset_mask, Some(0xff));
    let twice = RegisterProperties::resolve(&parent, &once);
    assert_eq!(once, twice);
}

#[test]
fn dimension_expansion_without_index() {
    let base = RegisterInfo::builder()
        .name("GPIO%s".to_string())
        .address_offset(0x10)
        .build()
        .unwrap();
    let dim = DimElementBuilder::default().dim(3).dim_increment(4).build().unwrap();
    let out = expand_register(&base, &dim).unwrap();
    assert_eq!(out.len(), 3);
    assert_eq!(out[0].name, "GPIO0");
    assert_eq!(out[0].address_offset, Some(0x10));
    assert_eq!(out[1].name, "GPIO1");
    assert_eq!(out[1].address_offset, Some(0x14));
    assert_eq!(out[2].name, "GPIO2");
    assert_eq!(out[2].address_offset, Some(0x18));
}

#[test]
fn dimension_index_labels() {
    let range = dim_index("0-2").unwrap();
    assert_eq!(range, vec!["0".to_string(), "1".to_string(), "2".to_string()]);
    let pair = dim_index("A,B").unwrap();
    assert_eq!(pair, vec!["A".to_string(), "B".to_string()]);
    let single = dim_index("A").unwrap();
    assert_eq!(single, vec!["A".to_string()]);
    dim_index("A-B").unwrap_err();
}

#[test]
fn dimension_mismatch_and_placeholder() {
    let base = reg("GPIO%s", Some(0), None);
    let dim = DimElementBuilder::default()
        .dim(3)
        .dim_increment(4)
        .dim_index(Some(vec!["A".to_string(), "B".to_string()]))
        .build()
        .unwrap();
    let e = expand_register(&base, &dim).unwrap_err();
    assert_eq!(e.kind, SvdErrorKind::Dimension(DimensionError::DimensionsMismatch));

    let plain = reg("GPIO", Some(0), None);
    let dim2 = DimElementBuilder::default().dim(2).dim_increment(4).build().unwrap();
    let e2 = expand_register(&plain, &dim2).unwrap_err();
    assert_eq!(e2.kind, SvdErrorKind::Dimension(DimensionError::NoPlaceHolder));
}

#[test]
fn derivation_merge_keeps_own_description() {
    let source = RegisterInfo::builder()
        .name("R1".to_string())
        .address_offset(8)
        .size(Some(32))
        .access(Some(Access::ReadWrite))
        .description(Some("source".to_string()))
        .build()
        .unwrap();
    let child = RegisterInfo::builder()
        .name("R2".to_string())
        .description(Some("child".to_string()))
        .derived_from(Some("R1".to_string()))
        .build()
        .unwrap();
    let merged = merge_register(&child, &source);
    assert_eq!(merged.name, "R2");
    assert_eq!(merged.description, Some("child".to_string()));
    assert_eq!(merged.address_offset, Some(8));
    assert_eq!(merged.properties, source.properties);
    assert_eq!(merged.fields, source.fields);
    assert_eq!(merged.derived_from, None);
}

#[test]
fn derivation_chain_and_cycle() {
    let r1 = reg("R1", Some(0), None);
    let r2 = reg("R2", None, Some("R1"));
    let r3 = reg("R3", None, Some("R2"));
    let siblings = vec![r1, r2, r3.clone()];
    let resolved = resolve_register(&siblings, r3, Vec::new()).unwrap();
    assert_eq!(resolved.address_offset, Some(0));

    let a = reg("A", None, Some("B"));
    let b = reg("B", None, Some("A"));
    let loops = vec![a.clone(), b];
    let e = resolve_register(&loops, a, Vec::new()).unwrap_err();
    assert_eq!(e.kind, SvdErrorKind::DerivationCycle("B".to_string()));

    let lone = reg("L", None, Some("MISSING"));
    let e2 = resolve_register(&vec![lone.clone()], lone, Vec::new()).unwrap_err();
    assert_eq!(e2.kind, SvdErrorKind::DerivedFromNotFound("MISSING".to_string()));
}

#[test]
fn enumerated_value_range_check() {
    let set = EnumeratedValuesBuilder::default()
        .values(vec![
            svd_parser::svd::enumeratedvalue::EnumeratedValue::builder()
                .name("LOW".to_string())
                .value(Some(0))
                .build()
                .unwrap(),
            svd_parser::svd::enumeratedvalue::EnumeratedValue::builder()
                .name("HIGH".to_string())
                .value(Some(3))
                .build()
                .unwrap(),
        ])
        .build()
        .unwrap();
    assert!(set.check_range(0, 4));
    assert!(!set.check_range(0, 3));
    assert!(!set.check_range(1, 4));
}

#[test]
fn empty_collections_are_refused() {
    let e = Device::builder()
        .name("D".to_string())
        .peripherals(Vec::new())
        .build()
        .unwrap_err();
    assert_eq!(e.kind, SvdErrorKind::EmptyDevice);

    let e2 = EnumeratedValuesBuilder::default()
        .values(Vec::new())
        .build()
        .unwrap_err();
    assert_eq!(e2.kind, SvdErrorKind::EnumeratedValuesEmpty);

    let ok = EnumeratedValuesBuilder::default()
        .derived_from(Some("other".to_string()))
        .build()
        .unwrap();
    assert_eq!(ok.values.len(), 0);
}
