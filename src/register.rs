//! Registers: a raw 32-bit snapshot together with the fields that give it meaning,
//! and the table of register layouts known to this library.

use crate::field::{bits_of, name_of, Field, FieldModel, ValueName};
use vstd::prelude::*;

verus! {

/// A register as read from an adapter: its name, raw value and field layout.
pub struct Register {
    pub name: String,
    pub value: u32,
    pub fields: Vec<Field>,
}

/// Mathematical model of a register.
pub struct RegisterModel {
    pub name: Seq<char>,
    pub value: u32,
    pub fields: Seq<FieldModel>,
}

impl View for Register {
    type V = RegisterModel;

    open spec fn view(&self) -> RegisterModel {
        RegisterModel {
            name: self.name@,
            value: self.value,
            fields: self.fields@.map_values(|f: Field| f@),
        }
    }
}

/// The first field of `fields` called `name`.
pub open spec fn field_named(fields: Seq<FieldModel>, name: Seq<char>) -> Option<FieldModel>
    decreases fields.len(),
{
    if fields.len() == 0 {
        None
    } else if fields[0].name == name {
        Some(fields[0])
    } else {
        field_named(fields.drop_first(), name)
    }
}

/// What a register holding `value` says through field `f`: the raw field value,
/// and its symbolic name when the field gives it one.
pub open spec fn field_reading(value: u32, f: FieldModel) -> (u32, Option<Seq<char>>) {
    let v = bits_of(value, f.shift, f.width) as u32;
    (v, name_of(f.values, v))
}

/// A field model given by name, bit range and named values.
pub open spec fn fm(name: Seq<char>, shift: nat, width: nat, values: Seq<(u32, Seq<char>)>) -> FieldModel {
    FieldModel { name, shift, width, values }
}

/// Names of the PCIe link training state machine states.
pub open spec fn ltssm_names() -> Seq<(u32, Seq<char>)> {
    seq![
        (0u32, "Detect state"@),
        (1u32, "Polling state"@),
        (2u32, "Configuration state"@),
        (3u32, "Configuration.Idle state"@),
        (4u32, "Recovery state"@),
        (5u32, "Recovery.Idle state"@),
        (6u32, "L0 state"@),
        (7u32, "L1 state"@),
        (8u32, "L2 state"@),
        (9u32, "Disabled state"@),
        (10u32, "Hot Reset state"@),
    ]
}

/// Names of the USB3 port link states.
pub open spec fn pls_names() -> Seq<(u32, Seq<char>)> {
    seq![
        (0u32, "U0 state"@),
        (1u32, "U1 state"@),
        (2u32, "U2 state"@),
        (3u32, "U3 state"@),
        (4u32, "Disabled state"@),
        (5u32, "RxDetect state"@),
        (6u32, "Inactive state"@),
        (7u32, "Polling state"@),
        (8u32, "Recovery state"@),
        (9u32, "Hot Reset state"@),
        (10u32, "Compliance Mode state"@),
        (11u32, "Loopback state"@),
    ]
}

/// The field layout of each register this library knows, by register name.
pub open spec fn layout_of(name: Seq<char>) -> Option<Seq<FieldModel>> {
    if name == "ADP_PCIE_CS_0"@ {
        Some(seq![
            fm("Link"@, 16, 1, seq![]),
            fm("TX EI"@, 17, 1, seq![]),
            fm("RX EI"@, 18, 1, seq![]),
            fm("RST"@, 19, 1, seq![]),
            fm("LTSSM"@, 25, 4, ltssm_names()),
            fm("PE"@, 31, 1, seq![]),
        ])
    } else if name == "ADP_USB3_GX_CS_4"@ {
        Some(seq![
            fm("ALR"@, 0, 7, seq![]),
            fm("ULV"@, 7, 1, seq![]),
            fm("PLS"@, 8, 4, pls_names()),
            fm("MSLR"@, 12, 7, seq![]),
        ])
    } else {
        None
    }
}

fn value_name(value: u32, name: &str) -> (r: ValueName)
    ensures
        r@ == (value, name@),
{
    ValueName { value, name: name.to_owned() }
}

fn field(name: &str, shift: u32, width: u32, values: Vec<ValueName>) -> (r: Field)
    ensures
        r@ == fm(name@, shift as nat, width as nat, values@.map_values(|v: ValueName| v@)),
{
    Field { name: name.to_owned(), shift, width, values }
}

fn plain(name: &str, shift: u32, width: u32) -> (r: Field)
    ensures
        r@ == fm(name@, shift as nat, width as nat, seq![]),
{
    let r = field(name, shift, width, Vec::new());
    assert(r@.values =~= seq![]);
    r
}

fn ltssm_field() -> (r: Field)
    ensures
        r@ == fm("LTSSM"@, 25, 4, ltssm_names()),
{
    let values = vec![
        value_name(0, "Detect state"),
        value_name(1, "Polling state"),
        value_name(2, "Configuration state"),
        value_name(3, "Configuration.Idle state"),
        value_name(4, "Recovery state"),
        value_name(5, "Recovery.Idle state"),
        value_name(6, "L0 state"),
        value_name(7, "L1 state"),
        value_name(8, "L2 state"),
        value_name(9, "Disabled state"),
        value_name(10, "Hot Reset state"),
    ];
    let r = field("LTSSM", 25, 4, values);
    assert(r@.values =~= ltssm_names());
    r
}

fn pls_field() -> (r: Field)
    ensures
        r@ == fm("PLS"@, 8, 4, pls_names()),
{
    let values = vec![
        value_name(0, "U0 state"),
        value_name(1, "U1 state"),
        value_name(2, "U2 state"),
        value_name(3, "U3 state"),
        value_name(4, "Disabled state"),
        value_name(5, "RxDetect state"),
        value_name(6, "Inactive state"),
        value_name(7, "Polling state"),
        value_name(8, "Recovery state"),
        value_name(9, "Hot Reset state"),
        value_name(10, "Compliance Mode state"),
        value_name(11, "Loopback state"),
    ];
    let r = field("PLS", 8, 4, values);
    assert(r@.values =~= pls_names());
    r
}

/// The field layout of the register called `name`, or `None` when it is not modelled.
pub fn register_layout(name: &str) -> (r: Option<Vec<Field>>)
    ensures
        r matches Some(fs) ==> layout_of(name@) == Some(fs@.map_values(|f: Field| f@)),
        r is None ==> layout_of(name@) is None,
{
    let key = name.to_owned();
    if key == "ADP_PCIE_CS_0".to_owned() {
        let fs = vec![
            plain("Link", 16, 1),
            plain("TX EI", 17, 1),
            plain("RX EI", 18, 1),
            plain("RST", 19, 1),
            ltssm_field(),
            plain("PE", 31, 1),
        ];
        assert(fs@.map_values(|f: Field| f@) =~= layout_of(name@).unwrap());
        Some(fs)
    } else if key == "ADP_USB3_GX_CS_4".to_owned() {
        let fs = vec![
            plain("ALR", 0, 7),
            plain("ULV", 7, 1),
            pls_field(),
            plain("MSLR", 12, 7),
        ];
        assert(fs@.map_values(|f: Field| f@) =~= layout_of(name@).unwrap());
        Some(fs)
    } else {
        None
    }
}

impl Register {
    /// A register called `name` holding `value`, laid out as the table of known
    /// registers says; `None` when `name` is not modelled.
    pub fn from_model(name: &str, value: u32) -> (r: Option<Register>)
        ensures
            r matches Some(reg) ==> layout_of(name@) == Some(reg@.fields) && reg@.name == name@
                && reg@.value == value,
            r is None ==> layout_of(name@) is None,
    {
        match register_layout(name) {
            Some(fields) => Some(Register { name: name.to_owned(), value, fields }),
            None => None,
        }
    }

    /// The first field of this register called `name`.
    pub fn field_by_name(&self, name: &str) -> (r: Option<&Field>)
        ensures
            r matches Some(f) ==> field_named(self@.fields, name@) == Some(f@),
            r is None ==> field_named(self@.fields, name@) is None,
    {
        let key = name.to_owned();
        let mut i: usize = 0;
        assert(self@.fields.subrange(0, self@.fields.len() as int) =~= self@.fields);
        while i < self.fields.len()
            invariant
                0 <= i <= self@.fields.len(),
                key@ == name@,
                field_named(self@.fields, name@) == field_named(
                    self@.fields.subrange(i as int, self@.fields.len() as int),
                    name@,
                ),
            decreases self@.fields.len() - i,
        {
            proof {
                let s = self@.fields.subrange(i as int, self@.fields.len() as int);
                assert(s.drop_first() =~= self@.fields.subrange(i + 1, self@.fields.len() as int));
            }
            if self.fields[i].name == key {
                return Some(&self.fields[i]);
            }
            i = i + 1;
        }
        None
    }

    /// The raw value of `field` in this register.
    pub fn field_value(&self, field: &Field) -> (r: u32)
        ensures
            r as nat == bits_of(self.value, field@.shift, field@.width),
    {
        field.value_in(self.value)
    }
}

} // verus!

verus! {

/// In the table of known registers, the field "LTSSM" of "ADP_PCIE_CS_0" is
/// bits 25 to 28 with the PCIe link training state names, and the field "PLS"
/// of "ADP_USB3_GX_CS_4" is bits 8 to 11 with the USB3 port link state names.
pub proof fn link_state_fields_in_table()
    ensures
        field_named(layout_of("ADP_PCIE_CS_0"@).unwrap(), "LTSSM"@) == Some(
            fm("LTSSM"@, 25, 4, ltssm_names()),
        ),
        field_named(layout_of("ADP_USB3_GX_CS_4"@).unwrap(), "PLS"@) == Some(
            fm("PLS"@, 8, 4, pls_names()),
        ),
{
    reveal_strlit("ADP_PCIE_CS_0");
    reveal_strlit("ADP_USB3_GX_CS_4");
    reveal_strlit("Link");
    reveal_strlit("TX EI");
    reveal_strlit("RX EI");
    reveal_strlit("RST");
    reveal_strlit("LTSSM");
    reveal_strlit("ALR");
    reveal_strlit("ULV");
    reveal_strlit("PLS");
    assert("ADP_USB3_GX_CS_4"@.len() != "ADP_PCIE_CS_0"@.len());
    assert("Link"@[1] != "LTSSM"@[1]);
    assert("TX EI"@[0] != "LTSSM"@[0]);
    assert("RX EI"@[0] != "LTSSM"@[0]);
    assert("RST"@.len() != "LTSSM"@.len());
    assert("ALR"@[0] != "PLS"@[0]);
    assert("ULV"@[0] != "PLS"@[0]);
    let p0 = layout_of("ADP_PCIE_CS_0"@).unwrap();
    let p1 = p0.drop_first();
    let p2 = p1.drop_first();
    let p3 = p2.drop_first();
    let p4 = p3.drop_first();
    assert(p4[0] == fm("LTSSM"@, 25, 4, ltssm_names()));
    assert(field_named(p3, "LTSSM"@) == field_named(p4, "LTSSM"@));
    assert(field_named(p2, "LTSSM"@) == field_named(p3, "LTSSM"@));
    assert(field_named(p1, "LTSSM"@) == field_named(p2, "LTSSM"@));
    assert(field_named(p0, "LTSSM"@) == field_named(p1, "LTSSM"@));
    let u0 = layout_of("ADP_USB3_GX_CS_4"@).unwrap();
    let u1 = u0.drop_first();
    let u2 = u1.drop_first();
    assert(u2[0] == fm("PLS"@, 8, 4, pls_names()));
    assert(field_named(u1, "PLS"@) == field_named(u2, "PLS"@));
    assert(field_named(u0, "PLS"@) == field_named(u1, "PLS"@));
}

} // verus!
