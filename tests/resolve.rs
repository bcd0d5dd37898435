use tbadapters::adapter::{classify, Adapter, AdapterKind, CoarseState, FieldReading};
use tbadapters::field::{extract_bits, Field, ValueName};
use tbadapters::register::{register_layout, Register};
use tbadapters::resolve::{
    common_link_state, pcie_link_state, protocol_state, usb3_link_state, Emphasis,
};

fn adapter(kind: AdapterKind, state: CoarseState, registers: Vec<Register>) -> Adapter {
    Adapter { adapter: 1, kind, upstream: false, state, registers }
}

fn pcie_cs0(ltssm: u32) -> Register {
    Register::from_model("ADP_PCIE_CS_0", ltssm << 25).unwrap()
}

fn usb3_cs4(pls: u32) -> Register {
    Register::from_model("ADP_USB3_GX_CS_4", pls << 8).unwrap()
}

fn check(a: &Adapter, name: &str, emphasis: Emphasis) {
    let r = a.resolve();
    assert_eq!(r.name, name);
    assert_eq!(r.emphasis, emphasis);
}

#[test]
fn disabled_ignores_registers() {
    for kind in [AdapterKind::PcieDown, AdapterKind::Usb3Up, AdapterKind::Lane0] {
        let a = adapter(kind, CoarseState::Disabled, vec![pcie_cs0(6), usb3_cs4(0)]);
        check(&a, "Disabled", Emphasis::Degraded);
    }
}

#[test]
fn pcie_l0_is_nominal() {
    let a = adapter(AdapterKind::PcieUp, CoarseState::Enabled, vec![pcie_cs0(6)]);
    check(&a, "L0", Emphasis::Nominal);
}

#[test]
fn pcie_deep_states_are_strong() {
    check(&adapter(AdapterKind::PcieDown, CoarseState::Enabled, vec![pcie_cs0(7)]), "L1", Emphasis::NominalStrong);
    check(&adapter(AdapterKind::PcieDown, CoarseState::Enabled, vec![pcie_cs0(8)]), "L2", Emphasis::NominalStrong);
    check(&adapter(AdapterKind::PcieDown, CoarseState::Enabled, vec![pcie_cs0(9)]), "Disabled", Emphasis::Degraded);
}

#[test]
fn pcie_without_register_is_enabled() {
    let a = adapter(AdapterKind::PcieDown, CoarseState::Enabled, vec![]);
    check(&a, "Enabled", Emphasis::Nominal);
    let b = adapter(AdapterKind::PcieDown, CoarseState::Enabled, vec![usb3_cs4(3)]);
    check(&b, "Enabled", Emphasis::Nominal);
}

#[test]
fn pcie_without_field_is_enabled() {
    let reg = Register { name: String::from("ADP_PCIE_CS_0"), value: 0xffff_ffff, fields: vec![] };
    let a = adapter(AdapterKind::PcieDown, CoarseState::Enabled, vec![reg]);
    assert!(matches!(a.read_field("ADP_PCIE_CS_0", "LTSSM"), FieldReading::Absent));
    check(&a, "Enabled", Emphasis::Nominal);
}

#[test]
fn pcie_unnamed_value_is_enabled() {
    let a = adapter(AdapterKind::PcieDown, CoarseState::Enabled, vec![pcie_cs0(15)]);
    assert!(matches!(a.read_field("ADP_PCIE_CS_0", "LTSSM"), FieldReading::Unnamed(15)));
    check(&a, "Enabled", Emphasis::Nominal);
}

#[test]
fn pcie_other_state_is_transitional_without_suffix() {
    let a = adapter(AdapterKind::PcieDown, CoarseState::Enabled, vec![pcie_cs0(3)]);
    check(&a, "Configuration.Idle", Emphasis::Transitional);
}

#[test]
fn usb3_u3_is_strong() {
    let a = adapter(AdapterKind::Usb3Down, CoarseState::Enabled, vec![usb3_cs4(3)]);
    check(&a, "U3", Emphasis::NominalStrong);
}

#[test]
fn usb3_states() {
    let cases = [
        (0, "U0", Emphasis::Nominal),
        (1, "U1", Emphasis::Transitional),
        (2, "U2", Emphasis::NominalStrong),
        (4, "Disabled", Emphasis::Degraded),
        (9, "Hot Reset", Emphasis::Degraded),
        (10, "Compliance Mode", Emphasis::Transitional),
    ];
    for (pls, name, emphasis) in cases {
        let a = adapter(AdapterKind::Usb3Up, CoarseState::Enabled, vec![usb3_cs4(pls)]);
        check(&a, name, emphasis);
    }
}

#[test]
fn resolve_twice_is_identical() {
    let a = adapter(AdapterKind::PcieDown, CoarseState::Enabled, vec![pcie_cs0(4)]);
    let r1 = a.resolve();
    let r2 = a.resolve();
    assert_eq!(r1.name, r2.name);
    assert_eq!(r1.emphasis, r2.emphasis);
    assert_eq!(r1.name, "Recovery");
}

#[test]
fn lane0_flag_takes_precedence() {
    assert_eq!(classify(0x100101, true, false), AdapterKind::Lane0);
    assert_eq!(classify(0x200102, true, true), AdapterKind::Lane0);
    assert_eq!(classify(0x100102, false, true), AdapterKind::Lane1);
}

#[test]
fn classify_type_codes() {
    assert_eq!(classify(0x000000, false, false), AdapterKind::Inactive);
    assert_eq!(classify(0x000001, false, false), AdapterKind::Lane);
    assert_eq!(classify(0x000002, false, false), AdapterKind::HostInterface);
    assert_eq!(classify(0x100101, false, false), AdapterKind::PcieDown);
    assert_eq!(classify(0x100102, false, false), AdapterKind::PcieUp);
    assert_eq!(classify(0x200101, false, false), AdapterKind::Usb3Down);
    assert_eq!(classify(0x200102, false, false), AdapterKind::Usb3Up);
    assert_eq!(classify(0x0e0101, false, false), AdapterKind::DisplayPortIn);
    assert_eq!(classify(0x0e0102, false, false), AdapterKind::DisplayPortOut);
    assert_eq!(classify(0x123456, false, false), AdapterKind::Unsupported);
}

#[test]
fn undecodable_kinds_get_no_state() {
    for kind in [AdapterKind::Inactive, AdapterKind::HostInterface, AdapterKind::Unsupported] {
        let a = adapter(kind, CoarseState::Enabled, vec![pcie_cs0(6)]);
        assert!(!a.is_decodable());
        assert!(a.state_summary().is_none());
    }
    let b = adapter(AdapterKind::DisplayPortIn, CoarseState::Enabled, vec![]);
    assert!(b.is_decodable());
    let s = b.state_summary().unwrap();
    assert_eq!(s.name, "Enabled");
    assert_eq!(s.emphasis, Emphasis::Nominal);
}

#[test]
fn pcie_hot_reset_scenario() {
    let a = adapter(AdapterKind::PcieDown, CoarseState::Enabled, vec![pcie_cs0(10)]);
    check(&a, "Hot Reset", Emphasis::Degraded);
}

#[test]
fn usb3_missing_register_scenario() {
    let a = adapter(AdapterKind::Usb3Up, CoarseState::Enabled, vec![]);
    check(&a, "Enabled", Emphasis::Nominal);
}

#[test]
fn lane1_cl1_scenario() {
    let a = adapter(AdapterKind::Lane1, CoarseState::Cl1, vec![]);
    check(&a, "CL1", Emphasis::NominalStrong);
}

#[test]
fn coarse_states() {
    let cases = [
        (CoarseState::Training, "Training/Bonding", Emphasis::Transitional),
        (CoarseState::Cl0, "CL0", Emphasis::Nominal),
        (CoarseState::Cl0sTx, "CL0s Tx", Emphasis::NominalStrong),
        (CoarseState::Cl0sRx, "CL0s Rx", Emphasis::NominalStrong),
        (CoarseState::Cl2, "CL2", Emphasis::NominalStrong),
        (CoarseState::Cld, "CLd", Emphasis::Degraded),
        (CoarseState::Unknown, "Unknown", Emphasis::Unrecognized),
        (CoarseState::Enabled, "Enabled", Emphasis::Nominal),
    ];
    for (state, name, emphasis) in cases {
        check(&adapter(AdapterKind::Lane0, state, vec![]), name, emphasis);
    }
}

#[test]
fn link_state_names() {
    let r = pcie_link_state(&String::from("Recovery.Idle state"));
    assert_eq!(r.name, "Recovery.Idle");
    let r = usb3_link_state(&String::from("L0 state"));
    assert_eq!(r.name, "L0");
    assert_eq!(r.emphasis, Emphasis::Transitional);
    let r = common_link_state(&String::from("Odd state state"));
    assert_eq!(r.name, "Odd");
    let r = common_link_state(&String::from("statement"));
    assert_eq!(r.name, "statement");
}

#[test]
fn protocol_state_of_display_port_is_enabled() {
    let a = adapter(AdapterKind::DisplayPortOut, CoarseState::Enabled, vec![pcie_cs0(10)]);
    let r = protocol_state(&a);
    assert_eq!(r.name, "Enabled");
}

#[test]
fn field_extraction() {
    assert_eq!(extract_bits(0xf000_0000, 28, 4), 0xf);
    assert_eq!(extract_bits(0x1e00_0000, 25, 4), 0xf);
    assert_eq!(extract_bits(0xffff_ffff, 0, 32), 0xffff_ffff);
    assert_eq!(extract_bits(0xffff_ffff, 30, 8), 0x3);
    assert_eq!(extract_bits(0xffff_ffff, 32, 4), 0);
    assert_eq!(extract_bits(0x0000_0f00, 8, 0), 0);
}

#[test]
fn field_value_names() {
    let f = Field {
        name: String::from("X"),
        shift: 4,
        width: 2,
        values: vec![
            ValueName { value: 1, name: String::from("one") },
            ValueName { value: 1, name: String::from("again") },
        ],
    };
    assert_eq!(f.value_in(0x10), 1);
    assert_eq!(f.value_name(1).map(|s| s.as_str()), Some("one"));
    assert_eq!(f.value_name(2), None);
}

#[test]
fn register_model_lookup() {
    assert!(register_layout("ADP_CS_0").is_none());
    assert!(Register::from_model("NOPE", 0).is_none());
    let fields = register_layout("ADP_PCIE_CS_0").unwrap();
    assert_eq!(fields.len(), 6);
    let reg = pcie_cs0(6);
    let f = reg.field_by_name("LTSSM").unwrap();
    assert_eq!(reg.field_value(f), 6);
    assert_eq!(f.value_name(6).map(|s| s.as_str()), Some("L0 state"));
    assert!(reg.field_by_name("Nothing").is_none());
}

#[test]
fn register_lookup_takes_first() {
    let a = adapter(AdapterKind::PcieDown, CoarseState::Enabled, vec![pcie_cs0(7), pcie_cs0(6)]);
    assert_eq!(a.register_by_name("ADP_PCIE_CS_0").unwrap().value, 7 << 25);
    match a.read_field("ADP_PCIE_CS_0", "LTSSM") {
        FieldReading::Named(7, n) => assert_eq!(n, "L1 state"),
        _ => panic!("expected a named reading"),
    }
    assert!(a.register_by_name("ADP_USB3_GX_CS_4").is_none());
}

#[test]
fn type_labels() {
    let mut a = adapter(AdapterKind::Lane0, CoarseState::Cl0, vec![]);
    assert_eq!(a.type_label(), "Lane 0");
    a.upstream = true;
    assert_eq!(a.type_label(), "Lane 0 (upstream)");
    a.kind = AdapterKind::PcieUp;
    assert_eq!(a.type_label(), "PCIe Up (upstream)");
    assert_eq!(AdapterKind::Usb3Down.name(), "USB3 Down");
}
