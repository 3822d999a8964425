//! Decode/encode round trips per entity kind: each test builds the markup
//! tree of a representative fragment, parses it, checks the typed value,
//! encodes it back and checks the regenerated tree.

use svd_parser::svd::access::Access;
use svd_parser::svd::addressblock::AddressBlock;
use svd_parser::svd::bitrange::{BitRange, BitRangeType};
use svd_parser::svd::cpu::Cpu;
use svd_parser::svd::dimelement::{DimElement, DimElementBuilder};
use svd_parser::svd::endian::Endian;
use svd_parser::svd::enumeratedvalue::EnumeratedValue;
use svd_parser::svd::enumeratedvalues::{EnumeratedValues, EnumeratedValuesBuilder};
use svd_parser::svd::field::Field;
use svd_parser::svd::fieldinfo::FieldInfo;
use svd_parser::svd::interrupt::Interrupt;
use svd_parser::svd::modifiedwritevalues::ModifiedWriteValues;
use svd_parser::svd::registerinfo::RegisterInfo;
use svd_parser::svd::usage::Usage;
use svd_parser::svd::writeconstraint::{WriteConstraint, WriteConstraintRange};
use svd_parser::tree::Element;

fn el(name: &str, text: &str) -> Element {
    Element {
        name: name.to_string(),
        attributes: Vec::new(),
        children: Vec::new(),
        text: Some(text.to_string()),
    }
}

fn parent(name: &str, children: Vec<Element>) -> Element {
    Element {
        name: name.to_string(),
        attributes: Vec::new(),
        children,
        text: None,
    }
}

#[test]
fn addressblock_decode_encode() {
    let tree1 = parent(
        "addressBlock",
        vec![el("offset", "0x0"), el("size", "0x800"), el("usage", "registers")],
    );
    let expected = AddressBlock {
        offset: 0,
        size: 0x0000_0800,
        usage: String::from("registers"),
    };
    let value = AddressBlock::parse(&tree1).unwrap();
    assert_eq!(value, expected);
    let tree2 = value.encode();
    assert_eq!(tree1, tree2);
}

#[test]
fn cpu_decode_encode() {
    let tree1 = parent(
        "cpu",
        vec![
            el("name", "EFM32JG12B500F512GM48"),
            el("revision", "5.1.1"),
            el("endian", "little"),
            el("mpuPresent", "true"),
            el("fpuPresent", "true"),
            el("nvicPrioBits", "8"),
            el("vendorSystickConfig", "false"),
        ],
    );
    let expected = Cpu {
        name: String::from("EFM32JG12B500F512GM48"),
        revision: String::from("5.1.1"),
        endian: Endian::Little,
        mpu_present: true,
        fpu_present: true,
        nvic_priority_bits: 8,
        has_vendor_systick: false,
    };
    let value = Cpu::parse(&tree1).unwrap();
    assert_eq!(value, expected);
    assert!(!value.is_cortex_m());
    let tree2 = value.encode();
    assert_eq!(tree1, tree2);
}

#[test]
fn dimelement_decode_encode() {
    let tree1 = parent(
        "dimElement",
        vec![
            el("dim", "100"),
            el("dimIncrement", "0x4"),
            el("dimIndex", "10,20"),
        ],
    );
    let expected = DimElementBuilder::default()
        .dim(100)
        .dim_increment(4)
        .dim_index(Some(vec!["10".to_string(), "20".to_string()]))
        .build()
        .unwrap();
    let value = DimElement::parse(&tree1).unwrap();
    assert_eq!(value, expected);
    let tree2 = value.encode();
    assert_eq!(tree1, tree2);
}

#[test]
fn interrupt_decode_encode() {
    let tree1 = parent(
        "interrupt",
        vec![
            el("name", "test"),
            el("description", "description"),
            el("value", "14"),
        ],
    );
    let expected = Interrupt {
        name: String::from("test"),
        description: Some(String::from("description")),
        value: 14,
    };
    let value = Interrupt::parse(&tree1).unwrap();
    assert_eq!(value, expected, "Parsing `{:?}` expected `{:?}`", tree1, expected);
    let tree2 = value.encode();
    assert_eq!(tree1, tree2, "Encoding {:?} expected {:?}", expected, tree1);
}

#[test]
fn modifiedwritevalues_decode_encode() {
    let tree1 = el("modifiedWriteValues", "oneToToggle");
    let value = ModifiedWriteValues::parse(&tree1).unwrap();
    assert_eq!(value, ModifiedWriteValues::OneToToggle);
    let tree2 = value.encode();
    assert_eq!(tree1, tree2);
}

#[test]
fn usage_decode_encode() {
    let tests = vec![
        (Usage::Read, "read"),
        (Usage::Write, "write"),
        (Usage::ReadWrite, "read-write"),
    ];
    for (a, s) in tests {
        let tree1 = el("usage", s);
        let value = Usage::parse(&tree1).unwrap();
        assert_eq!(value, a);
        let tree2 = value.encode();
        assert_eq!(tree1, tree2);
    }
}

#[test]
fn writeconstraint_decode_encode() {
    let tests = vec![
        (
            WriteConstraint::WriteAsRead(true),
            parent("writeConstraint", vec![el("writeAsRead", "true")]),
        ),
        (
            WriteConstraint::UseEnumeratedValues(true),
            parent("writeConstraint", vec![el("useEnumeratedValues", "true")]),
        ),
        (
            WriteConstraint::Range(WriteConstraintRange { min: 1, max: 10 }),
            parent(
                "writeConstraint",
                vec![parent(
                    "range",
                    vec![el("minimum", "0x00000001"), el("maximum", "0x0000000a")],
                )],
            ),
        ),
    ];
    for (a, tree1) in tests {
        let value = WriteConstraint::parse(&tree1).unwrap();
        assert_eq!(value, a);
        let tree2 = value.encode();
        assert_eq!(tree1, tree2);
    }
}

#[test]
fn bitrange_decode_encode() {
    let types = vec![
        (
            BitRange { offset: 16, width: 4, range_type: BitRangeType::BitRange },
            parent("fake", vec![el("bitRange", "[19:16]")]),
        ),
        (
            BitRange { offset: 16, width: 4, range_type: BitRangeType::OffsetWidth },
            parent("fake", vec![el("bitOffset", "16"), el("bitWidth", "4")]),
        ),
        (
            BitRange { offset: 16, width: 4, range_type: BitRangeType::MsbLsb },
            parent("fake", vec![el("lsb", "16"), el("msb", "19")]),
        ),
    ];
    for (a, tree1) in types {
        let value = BitRange::parse(&tree1).unwrap();
        assert_eq!(value, a, "Parsing `{:?}` expected `{:?}`", tree1, a);
        let mut tree2 = parent("fake", Vec::new());
        tree2.children = value.encode();
        assert_eq!(tree1, tree2, "Encoding {:?} expected {:?}", a, tree1);
    }
}

#[test]
fn enumeratedvalues_decode_encode() {
    let mut tree1 = parent(
        "enumeratedValues",
        vec![
            parent(
                "enumeratedValue",
                vec![
                    el("name", "WS0"),
                    el(
                        "description",
                        "Zero wait-states inserted in fetch or read transfers",
                    ),
                    el("isDefault", "true"),
                ],
            ),
            parent(
                "enumeratedValue",
                vec![
                    el("name", "WS1"),
                    el(
                        "description",
                        "One wait-state inserted for each fetch or read transfer. \
                         See Flash Wait-States table for details",
                    ),
                    el("value", "0x00000001"),
                ],
            ),
        ],
    );
    tree1
        .attributes
        .push(("derivedFrom".to_string(), "fake_derivation".to_string()));
    let expected = EnumeratedValuesBuilder::default()
        .derived_from(Some("fake_derivation".to_string()))
        .values(vec![
            EnumeratedValue::builder()
                .name("WS0".to_string())
                .description(Some(
                    "Zero wait-states inserted in fetch or read transfers".to_string(),
                ))
                .is_default(Some(true))
                .build()
                .unwrap(),
            EnumeratedValue::builder()
                .name("WS1".to_string())
                .description(Some(
                    "One wait-state inserted for each fetch or read transfer. \
                     See Flash Wait-States table for details"
                        .to_string(),
                ))
                .value(Some(1))
                .build()
                .unwrap(),
        ])
        .build()
        .unwrap();
    let parsed = EnumeratedValues::parse(&tree1).expect("Parsing tree failed");
    assert_eq!(parsed, expected, "Parsing tree failed");
    let tree2 = parsed.encode();
    assert_eq!(tree1, tree2, "Encoding value failed");
}

#[test]
fn valid_children() {
    fn try_parse(contents: Vec<Element>) -> Result<EnumeratedValues, svd_parser::errors::SvdError> {
        let tree = parent("enumeratedValues", contents);
        EnumeratedValues::parse(&tree)
    }
    fn one_value() -> Element {
        parent(
            "enumeratedValue",
            vec![
                el("name", "WS0"),
                el(
                    "description",
                    "Zero wait-states inserted in fetch or read transfers",
                ),
                el("value", "0x00000000"),
            ],
        )
    }

    // `enumeratedValue` occurrence: 1..*
    try_parse(vec![]).expect_err("must contain at least one <enumeratedValue>");

    // Valid tags
    try_parse(vec![one_value(), el("name", "foo")]).expect("<name> is valid");
    try_parse(vec![one_value(), el("headerEnumName", "foo")])
        .expect("<headerEnumName> is valid");
    try_parse(vec![one_value(), el("usage", "read")]).expect("<usage> is valid");

    // Invalid tags
    try_parse(vec![one_value(), parent("enumerateValue", vec![])])
        .expect_err("<enumerateValue> in invalid here");
    try_parse(vec![one_value(), parent("enumeratedValues", vec![])])
        .expect_err("<enumeratedValues> in invalid here");
}

#[test]
fn registerinfo_decode_encode() {
    let mut tree1 = parent(
        "register",
        vec![
            el("name", "WRITECTRL"),
            el("description", "Write Control Register"),
            el("addressOffset", "0x8"),
            el("alternateGroup", "alternate_group"),
            el("alternateRegister", "alternate_register"),
            el("size", "32"),
            el("access", "read-write"),
            el("resetValue", "0x00000000"),
            el("resetMask", "0x00000023"),
            parent(
                "fields",
                vec![parent(
                    "field",
                    vec![
                        el("name", "WREN"),
                        el("description", "Enable Write/Erase Controller"),
                        el("bitOffset", "0"),
                        el("bitWidth", "1"),
                        el("access", "read-write"),
                    ],
                )],
            ),
            el("modifiedWriteValues", "oneToToggle"),
        ],
    );
    tree1
        .attributes
        .push(("derivedFrom".to_string(), "derived_from".to_string()));
    let expected = RegisterInfo::builder()
        .name("WRITECTRL".to_string())
        .alternate_group(Some("alternate_group".to_string()))
        .alternate_register(Some("alternate_register".to_string()))
        .derived_from(Some("derived_from".to_string()))
        .description(Some("Write Control Register".to_string()))
        .address_offset(8)
        .size(Some(32))
        .access(Some(Access::ReadWrite))
        .reset_value(Some(0x0000_0000))
        .reset_mask(Some(0x0000_0023))
        .fields(Some(vec![Field::Single(
            FieldInfo::builder()
                .name("WREN".to_string())
                .description(Some("Enable Write/Erase Controller".to_string()))
                .bit_range(BitRange {
                    offset: 0,
                    width: 1,
                    range_type: BitRangeType::OffsetWidth,
                })
                .access(Some(Access::ReadWrite))
                .build()
                .unwrap(),
        )]))
        .modified_write_values(Some(ModifiedWriteValues::OneToToggle))
        .build()
        .unwrap();
    let value = RegisterInfo::parse(&tree1).unwrap();
    assert_eq!(value, expected);
    let tree2 = value.encode();
    assert_eq!(tree1, tree2);
}
