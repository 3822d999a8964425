//! The `<device>` root: the whole description, owning the peripherals and
//! the device-wide register property defaults.

use vstd::prelude::*;

use crate::errors::{err_in, err_of, ctx_text, make_ctx, SvdError, SvdErrorKind, SvdErrorKindV,
    SvdErrorV, ConvType};
use crate::parse::dec_digits;
use crate::svd::cpu::{Cpu, CpuV, spec_parse_cpu, spec_encode_cpu};
use crate::svd::peripheral::{Peripheral, PeripheralV, spec_parse_peripheral,
    spec_encode_peripheral};
use crate::svd::registerproperties::{RegisterProperties, spec_parse_register_properties,
    spec_encode_register_properties};
use crate::errors::{TagErrorV, XmlContent};
use crate::tree::{Element, ElementV, app_opt, opt_text, spec_attr, spec_get_child,
    spec_child_text, spec_child_text_opt, spec_opt_child_num, text_elem};

verus! {

/// A device with no peripherals.
#[derive(Clone, Copy, Debug, PartialEq, Eq, Structural)]
pub enum Error {
    EmptyDevice,
}

/// The root entity of a description.
#[derive(Debug, PartialEq)]
pub struct Device {
    /// The device's unique name.
    pub name: String,
    /// Version of this description.
    pub version: Option<String>,
    /// Describes the device's main features.
    pub description: Option<String>,
    /// The processor included in the device.
    pub cpu: Option<Cpu>,
    /// Data bits uniquely selected by each address.
    pub address_unit_bits: Option<u32>,
    /// Maximum single-transfer bit width of the bus.
    pub width: Option<u32>,
    /// Default properties for every register.
    pub default_register_properties: RegisterProperties,
    /// The peripherals, in declaration order; never empty.
    pub peripherals: Vec<Peripheral>,
    /// The schema version the description complies with.
    pub schema_version: Option<String>,
}

/// Mathematical image of a [`Device`].
#[verifier::ext_equal]
pub struct DeviceV {
    pub name: Seq<char>,
    pub version: Option<Seq<char>>,
    pub description: Option<Seq<char>>,
    pub cpu: Option<CpuV>,
    pub address_unit_bits: Option<u32>,
    pub width: Option<u32>,
    pub default_register_properties: RegisterProperties,
    pub peripherals: Seq<PeripheralV>,
    pub schema_version: Option<Seq<char>>,
}

/// The view of an optional processor description.
pub open spec fn opt_cpu_view(o: Option<Cpu>) -> Option<CpuV> {
    match o {
        Some(c) => Some(c@),
        None => None,
    }
}

impl View for Device {
    type V = DeviceV;

    open spec fn view(&self) -> DeviceV {
        DeviceV {
            name: self.name@,
            version: opt_text(self.version),
            description: opt_text(self.description),
            cpu: opt_cpu_view(self.cpu),
            address_unit_bits: self.address_unit_bits,
            width: self.width,
            default_register_properties: self.default_register_properties,
            peripherals: self.peripherals@.map_values(|p: Peripheral| p@),
            schema_version: opt_text(self.schema_version),
        }
    }
}

impl Device {
    /// The construction invariant: a device holds at least one peripheral,
    /// and every peripheral is well formed.
    pub open spec fn wf(self) -> bool {
        &&& self.peripherals@.len() >= 1
        &&& forall|i: int|
            0 <= i < self.peripherals@.len() ==> (#[trigger] self.peripherals@[i]).wf()
    }
}

/// A builder for [`Device`]: `name` and `peripherals` are required.
#[derive(Debug, PartialEq, Default)]
pub struct DeviceBuilder {
    pub name: Option<String>,
    pub version: Option<String>,
    pub description: Option<String>,
    pub cpu: Option<Cpu>,
    pub address_unit_bits: Option<u32>,
    pub width: Option<u32>,
    pub default_register_properties: RegisterProperties,
    pub peripherals: Option<Vec<Peripheral>>,
    pub schema_version: Option<String>,
}

impl DeviceBuilder {
    /// Sets the name.
    pub fn name(self, value: String) -> (r: Self)
        ensures
            r == (Self { name: Some(value), ..self }),
    {
        Self { name: Some(value), ..self }
    }

    /// Sets the version.
    pub fn version(self, value: Option<String>) -> (r: Self)
        ensures
            r == (Self { version: value, ..self }),
    {
        Self { version: value, ..self }
    }

    /// Sets the description.
    pub fn description(self, value: Option<String>) -> (r: Self)
        ensures
            r == (Self { description: value, ..self }),
    {
        Self { description: value, ..self }
    }

    /// Sets the processor description.
    pub fn cpu(self, value: Option<Cpu>) -> (r: Self)
        ensures
            r == (Self { cpu: value, ..self }),
    {
        Self { cpu: value, ..self }
    }

    /// Sets the address unit width.
    pub fn address_unit_bits(self, value: Option<u32>) -> (r: Self)
        ensures
            r == (Self { address_unit_bits: value, ..self }),
    {
        Self { address_unit_bits: value, ..self }
    }

    /// Sets the bus width.
    pub fn width(self, value: Option<u32>) -> (r: Self)
        ensures
            r == (Self { width: value, ..self }),
    {
        Self { width: value, ..self }
    }

    /// Sets the device-wide register property defaults.
    pub fn default_register_properties(self, value: RegisterProperties) -> (r: Self)
        ensures
            r == (Self { default_register_properties: value, ..self }),
    {
        Self { default_register_properties: value, ..self }
    }

    /// Sets the peripherals.
    pub fn peripherals(self, value: Vec<Peripheral>) -> (r: Self)
        ensures
            r == (Self { peripherals: Some(value), ..self }),
    {
        Self { peripherals: Some(value), ..self }
    }

    /// Sets the schema version.
    pub fn schema_version(self, value: Option<String>) -> (r: Self)
        ensures
            r == (Self { schema_version: value, ..self }),
    {
        Self { schema_version: value, ..self }
    }

    /// Builds the device: `Uninitialized` names a missing required field,
    /// and a device without peripherals is refused.
    pub fn build(self) -> (r: Result<Device, SvdError>)
        ensures
            match (self.name, self.peripherals) {
                (None, _) => r matches Err(e) && e@ == err_of(
                    SvdErrorKindV::Uninitialized("name"@),
                ),
                (Some(n), None) => r matches Err(e) && e@ == err_of(
                    SvdErrorKindV::Uninitialized("peripherals"@),
                ),
                (Some(n), Some(ps)) => if ps@.len() == 0 {
                    r matches Err(e) && e@ == err_of(SvdErrorKindV::EmptyDevice)
                } else {
                    r matches Ok(d) && d.name == n && d.version == self.version && d.description
                        == self.description && d.cpu == self.cpu && d.address_unit_bits
                        == self.address_unit_bits && d.width == self.width
                        && d.default_register_properties == self.default_register_properties
                        && d.peripherals == ps && d.schema_version == self.schema_version
                },
            },
    {
        let name = match self.name {
            Some(n) => n,
            None => {
                return Err(SvdError::new(SvdErrorKind::Uninitialized("name".to_owned())));
            },
        };
        let peripherals = match self.peripherals {
            Some(ps) => ps,
            None => {
                return Err(
                    SvdError::new(SvdErrorKind::Uninitialized("peripherals".to_owned())),
                );
            },
        };
        let out = Device {
            name,
            version: self.version,
            description: self.description,
            cpu: self.cpu,
            address_unit_bits: self.address_unit_bits,
            width: self.width,
            default_register_properties: self.default_register_properties,
            peripherals,
            schema_version: self.schema_version,
        };
        out.validate()
    }
}

impl Device {
    /// A fresh builder with nothing set.
    pub fn builder() -> (r: DeviceBuilder)
        ensures
            r == (DeviceBuilder {
                name: None,
                version: None,
                description: None,
                cpu: None,
                address_unit_bits: None,
                width: None,
                default_register_properties: RegisterProperties {
                    size: None,
                    access: None,
                    reset_value: None,
                    reset_mask: None,
                },
                peripherals: None,
                schema_version: None,
            }),
    {
        DeviceBuilder {
            name: None,
            version: None,
            description: None,
            cpu: None,
            address_unit_bits: None,
            width: None,
            default_register_properties: RegisterProperties {
                size: None,
                access: None,
                reset_value: None,
                reset_mask: None,
            },
            peripherals: None,
            schema_version: None,
        }
    }

    /// Demands the non-emptiness invariant: the device itself when it
    /// holds a peripheral, `EmptyDevice` otherwise.
    pub fn validate(self) -> (r: Result<Device, SvdError>)
        ensures
            if self.peripherals@.len() == 0 {
                r matches Err(e) && e@ == err_of(SvdErrorKindV::EmptyDevice)
            } else {
                r == Ok::<Device, SvdError>(self)
            },
    {
        if self.peripherals.len() == 0 {
            Err(SvdError::new(SvdErrorKind::EmptyDevice))
        } else {
            Ok(self)
        }
    }
}

/// The peripherals written by the elements of `s`, every child of a
/// `<peripherals>` element being one.
pub open spec fn spec_parse_peripheral_list(s: Seq<ElementV>) -> Result<Seq<PeripheralV>, SvdErrorV>
    decreases s.len(),
{
    if s.len() == 0 {
        Ok(Seq::empty())
    } else {
        match spec_parse_peripheral(s[0]) {
            Err(x) => Err(x),
            Ok(p) => match spec_parse_peripheral_list(s.skip(1)) {
                Err(x) => Err(x),
                Ok(rest) => Ok(seq![p] + rest),
            },
        }
    }
}

/// The device written by `e`: the element must be named `device` and hold
/// a `name` child; every child of its mandatory `<peripherals>` element is
/// parsed as a peripheral, in declaration order, and the result must hold
/// at least one. Failures below the name are wrapped by the device's name.
pub open spec fn spec_parse_device(e: ElementV) -> Result<DeviceV, SvdErrorV> {
    if e.name != "device"@ {
        Err(err_of(SvdErrorKindV::NotExpectedTag("device"@)))
    } else {
        match spec_child_text(e, "name"@) {
            Err(k) => Err(err_of(k)),
            Ok(name) => {
                let ctx = ctx_text("In device `"@, name);
                let cpu = match spec_get_child(e, "cpu"@) {
                    None => Ok(None),
                    Some(c) => match spec_parse_cpu(c) {
                        Ok(v) => Ok(Some(v)),
                        Err(x) => Err(x),
                    },
                };
                match cpu {
                    Err(x) => Err(err_in(x, ctx)),
                    Ok(cpu) => match spec_opt_child_num(
                        e,
                        "addressUnitBits"@,
                        u32::MAX as nat,
                        ConvType::U32,
                    ) {
                        Err(k) => Err(err_in(err_of(k), ctx)),
                        Ok(aub) => match spec_opt_child_num(
                            e,
                            "width"@,
                            u32::MAX as nat,
                            ConvType::U32,
                        ) {
                            Err(k) => Err(err_in(err_of(k), ctx)),
                            Ok(width) => match spec_parse_register_properties(e) {
                                Err(x) => Err(err_in(x, ctx)),
                                Ok(props) => match spec_get_child(e, "peripherals"@) {
                                    None => Err(
                                        err_in(
                                            err_of(
                                                SvdErrorKindV::Tag(
                                                    TagErrorV::MissingTag {
                                                        name: "peripherals"@,
                                                    },
                                                ),
                                            ),
                                            ctx,
                                        ),
                                    ),
                                    Some(ps) => match spec_parse_peripheral_list(ps.children) {
                                        Err(x) => Err(err_in(x, ctx)),
                                        Ok(pers) => if pers.len() == 0 {
                                            Err(err_in(err_of(SvdErrorKindV::EmptyDevice), ctx))
                                        } else {
                                            Ok(
                                                DeviceV {
                                                    name: name,
                                                    version: spec_child_text_opt(e, "version"@),
                                                    description: spec_child_text_opt(
                                                        e,
                                                        "description"@,
                                                    ),
                                                    cpu: cpu,
                                                    address_unit_bits: match aub {
                                                        Some(v) => Some(v as u32),
                                                        None => None,
                                                    },
                                                    width: match width {
                                                        Some(v) => Some(v as u32),
                                                        None => None,
                                                    },
                                                    default_register_properties: props,
                                                    peripherals: pers,
                                                    schema_version: spec_attr(
                                                        e,
                                                        "schemaVersion"@,
                                                    ),
                                                },
                                            )
                                        },
                                    },
                                },
                            },
                        },
                    },
                }
            },
        }
    }
}

/// The children of an encoded device, in order of construction.
pub open spec fn spec_device_children(v: DeviceV) -> Seq<ElementV> {
    let c = Seq::empty().push(text_elem("name"@, v.name));
    let c = app_opt(
        c,
        match v.version {
            Some(d) => Some(text_elem("version"@, d)),
            None => None,
        },
    );
    let c = app_opt(
        c,
        match v.description {
            Some(d) => Some(text_elem("description"@, d)),
            None => None,
        },
    );
    let c = app_opt(
        c,
        match v.cpu {
            Some(cp) => Some(spec_encode_cpu(cp)),
            None => None,
        },
    );
    let c = app_opt(
        c,
        match v.address_unit_bits {
            Some(b) => Some(text_elem("addressUnitBits"@, dec_digits(b as nat))),
            None => None,
        },
    );
    let c = app_opt(
        c,
        match v.width {
            Some(b) => Some(text_elem("width"@, dec_digits(b as nat))),
            None => None,
        },
    );
    let c = c + spec_encode_register_properties(v.default_register_properties);
    c.push(
        ElementV {
            name: "peripherals"@,
            attributes: Seq::empty(),
            children: v.peripherals.map_values(|p: PeripheralV| spec_encode_peripheral(p)),
            text: None,
        },
    )
}

/// The image of an encoded device.
pub open spec fn spec_encode_device(v: DeviceV) -> ElementV {
    ElementV {
        name: "device"@,
        attributes: match v.schema_version {
            Some(s) => Seq::empty().push(("schemaVersion"@, s)),
            None => Seq::empty(),
        },
        children: spec_device_children(v),
        text: None,
    }
}

impl Device {
    /// Reads a device from a `<device>` element, per [`spec_parse_device`];
    /// every device read is well formed.
    pub fn parse(tree: &Element) -> (r: Result<Device, SvdError>)
        ensures
            match spec_parse_device(tree@) {
                Ok(v) => r matches Ok(d) && d@ == v && d.wf(),
                Err(e) => r matches Err(x) && x@ == e,
            },
    {
        if !crate::tree::string_eq_str(&tree.name, "device") {
            return Err(SvdError::new(SvdErrorKind::NotExpectedTag("device".to_owned())));
        }
        let name = match tree.get_child_text("name") {
            Ok(n) => n,
            Err(e) => {
                return Err(e);
            },
        };
        let cpu = match tree.get_child("cpu") {
            None => None,
            Some(c) => match Cpu::parse(c) {
                Ok(v) => Some(v),
                Err(e) => {
                    return Err(e.in_context(make_ctx("In device `", &name)));
                },
            },
        };
        let address_unit_bits = match tree.get_child_u32_opt("addressUnitBits") {
            Ok(v) => v,
            Err(e) => {
                return Err(e.in_context(make_ctx("In device `", &name)));
            },
        };
        let width = match tree.get_child_u32_opt("width") {
            Ok(v) => v,
            Err(e) => {
                return Err(e.in_context(make_ctx("In device `", &name)));
            },
        };
        let props = match RegisterProperties::parse(tree) {
            Ok(p) => p,
            Err(e) => {
                return Err(e.in_context(make_ctx("In device `", &name)));
            },
        };
        let peripherals = match tree.get_child("peripherals") {
            None => {
                let e = SvdError::new(
                    SvdErrorKind::Tag(
                        crate::errors::TagError::MissingTag { name: "peripherals".to_owned() },
                    ),
                );
                return Err(e.in_context(make_ctx("In device `", &name)));
            },
            Some(ps) => match parse_peripheral_list(ps) {
                Ok(pers) => pers,
                Err(e) => {
                    return Err(e.in_context(make_ctx("In device `", &name)));
                },
            },
        };
        if peripherals.len() == 0 {
            let e = SvdError::new(SvdErrorKind::EmptyDevice);
            return Err(e.in_context(make_ctx("In device `", &name)));
        }
        let version = tree.get_child_text_opt("version");
        let description = tree.get_child_text_opt("description");
        let schema_version = tree.get_attr("schemaVersion");
        let out = Device {
            name,
            version,
            description,
            cpu,
            address_unit_bits,
            width,
            default_register_properties: props,
            peripherals,
            schema_version,
        };
        proof {
            match spec_parse_device(tree@) {
                Ok(v) => {
                    assert(out@ =~~= v);
                },
                Err(_) => {
                    assert(false);
                },
            }
        }
        Ok(out)
    }

    /// Writes this device back as an element, per [`spec_encode_device`].
    #[verifier::rlimit(60)]
    pub fn encode(&self) -> (r: Element)
        requires
            self.wf(),
        ensures
            r@ == spec_encode_device(self@),
    {
        let mut e = Element::new("device", None);
        match &self.schema_version {
            Some(s) => {
                e.push_attr("schemaVersion", s.clone());
            },
            None => {},
        }
        e.push_text_child("name", self.name.clone());
        match &self.version {
            Some(d) => {
                e.push_text_child("version", d.clone());
            },
            None => {},
        }
        match &self.description {
            Some(d) => {
                e.push_text_child("description", d.clone());
            },
            None => {},
        }
        match &self.cpu {
            Some(c) => {
                e.push_child(c.encode());
            },
            None => {},
        }
        match self.address_unit_bits {
            Some(b) => {
                e.push_text_child("addressUnitBits", crate::parse::fmt_dec(b as u64));
            },
            None => {},
        }
        match self.width {
            Some(b) => {
                e.push_text_child("width", crate::parse::fmt_dec(b as u64));
            },
            None => {},
        }
        e.append_children(self.default_register_properties.encode());
        let mut pe = Element::new("peripherals", None);
        let n = self.peripherals.len();
        let mut i: usize = 0;
        while i < n
            invariant
                i <= n,
                n == self.peripherals@.len(),
                forall|j: int| 0 <= j < n ==> (#[trigger] self.peripherals@[j]).wf(),
                pe@.name == "peripherals"@,
                pe@.text is None,
                pe@.attributes == Seq::<(Seq<char>, Seq<char>)>::empty(),
                pe@.children == self.peripherals@.map_values(|p: Peripheral| p@).map_values(
                    |p: PeripheralV| spec_encode_peripheral(p),
                ).take(i as int),
            decreases n - i,
        {
            let ghost before = pe@.children;
            pe.push_child(self.peripherals[i].encode());
            proof {
                let all = self.peripherals@.map_values(|p: Peripheral| p@).map_values(
                    |p: PeripheralV| spec_encode_peripheral(p),
                );
                assert(all.take(i + 1) =~= all.take(i as int).push(all[i as int]));
                assert(pe@.children =~= before.push(
                    spec_encode_peripheral(self.peripherals@[i as int]@),
                ));
            }
            i = i + 1;
        }
        proof {
            let all = self.peripherals@.map_values(|p: Peripheral| p@).map_values(
                |p: PeripheralV| spec_encode_peripheral(p),
            );
            assert(all.take(n as int) =~= all);
            assert(self@.peripherals.map_values(|p: PeripheralV| spec_encode_peripheral(p))
                =~= all);
            assert(pe@ =~~= (ElementV {
                name: "peripherals"@,
                attributes: Seq::empty(),
                children: self@.peripherals.map_values(
                    |p: PeripheralV| spec_encode_peripheral(p),
                ),
                text: None,
            }));
        }
        e.push_child(pe);
        proof {
            assert(e@.children == spec_device_children(self@));
            assert(e@ =~~= spec_encode_device(self@));
        }
        e
    }
}

/// Reads every child of a `<peripherals>` element as a peripheral, per
/// [`spec_parse_peripheral_list`]; everything read is well formed.
fn parse_peripheral_list(tree: &Element) -> (r: Result<Vec<Peripheral>, SvdError>)
    ensures
        match spec_parse_peripheral_list(tree@.children) {
            Ok(v) => r matches Ok(ps) && ps@.map_values(|p: Peripheral| p@) == v && forall|i: int|
                0 <= i < ps@.len() ==> (#[trigger] ps@[i]).wf(),
            Err(e) => r matches Err(x) && x@ == e,
        },
{
    let n = tree.children.len();
    let mut out: Vec<Peripheral> = Vec::new();
    let mut i: usize = 0;
    proof {
        assert(tree@.children.skip(0) =~= tree@.children);
    }
    while i < n
        invariant
            i <= n,
            n == tree.children@.len(),
            tree@.children.len() == n,
            forall|j: int|
                0 <= j < n ==> #[trigger] tree@.children[j] == crate::tree::elem_view(
                    tree.children@[j],
                ),
            forall|j: int| 0 <= j < out@.len() ==> (#[trigger] out@[j]).wf(),
            spec_parse_peripheral_list(tree@.children) == (match spec_parse_peripheral_list(
                tree@.children.skip(i as int),
            ) {
                Ok(rest) => Ok::<Seq<PeripheralV>, SvdErrorV>(
                    out@.map_values(|p: Peripheral| p@) + rest,
                ),
                Err(x) => Err(x),
            }),
        decreases n - i,
    {
        let c = &tree.children[i];
        let ghost pre = out@.map_values(|p: Peripheral| p@);
        proof {
            assert(tree@.children.skip(i as int)[0] == tree@.children[i as int]);
            assert(tree@.children.skip(i as int).skip(1) =~= tree@.children.skip(i + 1));
        }
        match Peripheral::parse(c) {
            Ok(p) => {
                out.push(p);
                proof {
                    assert(out@.map_values(|p: Peripheral| p@) =~= pre.push(out@.last()@));
                    assert forall|rest: Seq<PeripheralV>|
                        #[trigger] (pre.push(out@.last()@) + rest) =~= pre + (seq![out@.last()@]
                            + rest) by {}
                }
            },
            Err(e) => {
                return Err(e);
            },
        }
        i = i + 1;
    }
    proof {
        assert(tree@.children.skip(n as int) =~= Seq::<ElementV>::empty());
        assert(out@.map_values(|p: Peripheral| p@) + Seq::<PeripheralV>::empty()
            =~= out@.map_values(|p: Peripheral| p@));
    }
    Ok(out)
}

} // verus!
