//! The whole pipeline on one small device: structural parse, then
//! derivation, expansion and property inheritance in the fixed order.

use svd_parser::errors::SvdErrorKind;
use svd_parser::resolve::resolve_device;
use svd_parser::svd::access::Access;
use svd_parser::svd::clusterinfo::RegisterCluster;
use svd_parser::svd::device::Device;
use svd_parser::svd::register::Register;
use svd_parser::tree::Element;

fn el(name: &str, text: &str) -> Element {
    Element {
        name: name.to_string(),
        attributes: Vec::new(),
        children: Vec::new(),
        text: Some(text.to_string()),
    }
}

fn parent(name: &str, children: Vec<Element>) -> Element {
    Element {
        name: name.to_string(),
        attributes: Vec::new(),
        children,
        text: None,
    }
}

fn device_tree() -> Element {
    let mut derived = parent("register", vec![el("name", "CTRL2"), el("description", "copy")]);
    derived
        .attributes
        .push(("derivedFrom".to_string(), "CTRL".to_string()));
    parent(
        "device",
        vec![
            el("name", "TESTDEV"),
            el("size", "32"),
            el("access", "read-write"),
            parent(
                "peripherals",
                vec![parent(
                    "peripheral",
                    vec![
                        el("name", "GPIO"),
                        el("baseAddress", "0x40000000"),
                        parent(
                            "registers",
                            vec![
                                parent(
                                    "register",
                                    vec![el("name", "CTRL"), el("addressOffset", "0x0")],
                                ),
                                derived,
                                parent(
                                    "register",
                                    vec![
                                        el("name", "DATA%s"),
                                        el("addressOffset", "0x10"),
                                        el("dim", "3"),
                                        el("dimIncrement", "4"),
                                    ],
                                ),
                            ],
                        ),
                    ],
                )],
            ),
        ],
    )
}

#[test]
fn parse_and_resolve_device() {
    let device = Device::parse(&device_tree()).unwrap();
    assert_eq!(device.name, "TESTDEV");
    assert_eq!(device.default_register_properties.size, Some(32));
    assert_eq!(device.peripherals.len(), 1);

    let resolved = resolve_device(&device).unwrap();
    let regs = resolved.peripherals[0].registers.as_ref().unwrap();
    // CTRL, CTRL2, then the three expanded DATA registers
    assert_eq!(regs.len(), 5);
    let names: Vec<&str> = regs
        .iter()
        .map(|rc| match rc {
            RegisterCluster::Register(Register::Single(i)) => i.name.as_str(),
            _ => "?",
        })
        .collect();
    assert_eq!(names, vec!["CTRL", "CTRL2", "DATA0", "DATA1", "DATA2"]);
    for rc in regs.iter() {
        if let RegisterCluster::Register(Register::Single(i)) = rc {
            assert_eq!(i.properties.size, Some(32));
            assert_eq!(i.properties.access, Some(Access::ReadWrite));
        }
    }
    if let RegisterCluster::Register(Register::Single(i)) = &regs[1] {
        // the derived register inherited its source's offset
        assert_eq!(i.address_offset, Some(0));
        assert_eq!(i.description, Some("copy".to_string()));
        assert_eq!(i.derived_from, None);
    }
    if let RegisterCluster::Register(Register::Single(i)) = &regs[4] {
        assert_eq!(i.address_offset, Some(0x18));
    }
}

#[test]
fn peripheral_derivation_inherits_registers() {
    let mut derived = parent(
        "peripheral",
        vec![el("name", "GPIOB"), el("baseAddress", "0x40001000")],
    );
    derived
        .attributes
        .push(("derivedFrom".to_string(), "GPIOA".to_string()));
    let tree = parent(
        "device",
        vec![
            el("name", "TWIN"),
            el("size", "32"),
            el("access", "read-write"),
            parent(
                "peripherals",
                vec![
                    parent(
                        "peripheral",
                        vec![
                            el("name", "GPIOA"),
                            el("baseAddress", "0x40000000"),
                            parent(
                                "registers",
                                vec![parent(
                                    "register",
                                    vec![el("name", "CTRL"), el("addressOffset", "0x0")],
                                )],
                            ),
                        ],
                    ),
                    derived,
                ],
            ),
        ],
    );
    let device = Device::parse(&tree).unwrap();
    let resolved = resolve_device(&device).unwrap();
    assert_eq!(resolved.peripherals.len(), 2);
    let b = &resolved.peripherals[1];
    assert_eq!(b.name, "GPIOB");
    assert_eq!(b.base_address, 0x4000_1000);
    assert_eq!(b.derived_from, None);
    let regs = b.registers.as_ref().unwrap();
    assert_eq!(regs.len(), 1);
    if let RegisterCluster::Register(Register::Single(i)) = &regs[0] {
        assert_eq!(i.name, "CTRL");
        assert_eq!(i.properties.size, Some(32));
    } else {
        panic!("expected a single register");
    }
}

#[test]
fn unresolved_property_is_refused() {
    let tree = parent(
        "device",
        vec![
            el("name", "BARE"),
            parent(
                "peripherals",
                vec![parent(
                    "peripheral",
                    vec![
                        el("name", "P"),
                        el("baseAddress", "0x0"),
                        parent(
                            "registers",
                            vec![parent(
                                "register",
                                vec![el("name", "R"), el("addressOffset", "0x0")],
                            )],
                        ),
                    ],
                )],
            ),
        ],
    );
    let device = Device::parse(&tree).unwrap();
    let e = resolve_device(&device).unwrap_err();
    assert_eq!(e.kind, SvdErrorKind::UnresolvedProperty("size".to_string()));
}

#[test]
fn containment_context_names_the_path() {
    let tree = parent(
        "device",
        vec![
            el("name", "D"),
            parent(
                "peripherals",
                vec![parent(
                    "peripheral",
                    vec![
                        el("name", "GPIO"),
                        el("baseAddress", "not-a-number"),
                    ],
                )],
            ),
        ],
    );
    let e = Device::parse(&tree).unwrap_err();
    assert_eq!(
        e.context,
        vec![
            "In peripheral `GPIO`".to_string(),
            "In device `D`".to_string(),
        ]
    );
    assert!(matches!(e.kind, SvdErrorKind::Parse(_)));
}
