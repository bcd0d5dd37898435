//! Adapter descriptors: classification, coarse state and register lookup.

use crate::field::Field;
use crate::register::{field_named, field_reading, Register, RegisterModel};
use vstd::prelude::*;

verus! {

/// Adapter type code of an inactive adapter.
pub const TYPE_INACTIVE: u32 = 0x000000;
/// Adapter type code of a lane adapter.
pub const TYPE_LANE: u32 = 0x000001;
/// Adapter type code of the host interface adapter.
pub const TYPE_HOST_INTERFACE: u32 = 0x000002;
/// Adapter type code of a DisplayPort IN adapter.
pub const TYPE_DP_IN: u32 = 0x0e0101;
/// Adapter type code of a DisplayPort OUT adapter.
pub const TYPE_DP_OUT: u32 = 0x0e0102;
/// Adapter type code of a downstream PCIe adapter.
pub const TYPE_PCIE_DOWN: u32 = 0x100101;
/// Adapter type code of an upstream PCIe adapter.
pub const TYPE_PCIE_UP: u32 = 0x100102;
/// Adapter type code of a downstream USB3 adapter.
pub const TYPE_USB3_DOWN: u32 = 0x200101;
/// Adapter type code of an upstream USB3 adapter.
pub const TYPE_USB3_UP: u32 = 0x200102;

/// What an adapter is.
#[derive(Clone, Copy, Debug, PartialEq, Eq, Structural)]
pub enum AdapterKind {
    Inactive,
    Lane0,
    Lane1,
    /// A lane adapter flagged as neither lane 0 nor lane 1.
    Lane,
    HostInterface,
    PcieDown,
    PcieUp,
    Usb3Down,
    Usb3Up,
    DisplayPortIn,
    DisplayPortOut,
    /// A type code this library does not know.
    Unsupported,
}

/// The overall link or power state that an adapter reports, before any
/// protocol-specific refinement.
#[derive(Clone, Copy, Debug, PartialEq, Eq, Structural)]
pub enum CoarseState {
    Disabled,
    Enabled,
    Training,
    Cl0,
    Cl0sTx,
    Cl0sRx,
    Cl1,
    Cl2,
    Cld,
    Unknown,
}

/// The kind of an adapter with type code `code` and the given lane flags.
pub open spec fn kind_of(code: u32, lane0: bool, lane1: bool) -> AdapterKind {
    if lane0 {
        AdapterKind::Lane0
    } else if lane1 {
        AdapterKind::Lane1
    } else if code == TYPE_INACTIVE {
        AdapterKind::Inactive
    } else if code == TYPE_LANE {
        AdapterKind::Lane
    } else if code == TYPE_HOST_INTERFACE {
        AdapterKind::HostInterface
    } else if code == TYPE_PCIE_DOWN {
        AdapterKind::PcieDown
    } else if code == TYPE_PCIE_UP {
        AdapterKind::PcieUp
    } else if code == TYPE_USB3_DOWN {
        AdapterKind::Usb3Down
    } else if code == TYPE_USB3_UP {
        AdapterKind::Usb3Up
    } else if code == TYPE_DP_IN {
        AdapterKind::DisplayPortIn
    } else if code == TYPE_DP_OUT {
        AdapterKind::DisplayPortOut
    } else {
        AdapterKind::Unsupported
    }
}

/// Classifies an adapter from its type code and lane flags. A lane flag takes
/// precedence over the type code.
pub fn classify(code: u32, lane0: bool, lane1: bool) -> (r: AdapterKind)
    ensures
        r == kind_of(code, lane0, lane1),
{
    if lane0 {
        AdapterKind::Lane0
    } else if lane1 {
        AdapterKind::Lane1
    } else if code == TYPE_INACTIVE {
        AdapterKind::Inactive
    } else if code == TYPE_LANE {
        AdapterKind::Lane
    } else if code == TYPE_HOST_INTERFACE {
        AdapterKind::HostInterface
    } else if code == TYPE_PCIE_DOWN {
        AdapterKind::PcieDown
    } else if code == TYPE_PCIE_UP {
        AdapterKind::PcieUp
    } else if code == TYPE_USB3_DOWN {
        AdapterKind::Usb3Down
    } else if code == TYPE_USB3_UP {
        AdapterKind::Usb3Up
    } else if code == TYPE_DP_IN {
        AdapterKind::DisplayPortIn
    } else if code == TYPE_DP_OUT {
        AdapterKind::DisplayPortOut
    } else {
        AdapterKind::Unsupported
    }
}

/// Printable name of each adapter kind.
pub open spec fn kind_name_of(k: AdapterKind) -> Seq<char> {
    match k {
        AdapterKind::Inactive => "Inactive"@,
        AdapterKind::Lane0 => "Lane 0"@,
        AdapterKind::Lane1 => "Lane 1"@,
        AdapterKind::Lane => "Lane"@,
        AdapterKind::HostInterface => "Host Interface"@,
        AdapterKind::PcieDown => "PCIe Down"@,
        AdapterKind::PcieUp => "PCIe Up"@,
        AdapterKind::Usb3Down => "USB3 Down"@,
        AdapterKind::Usb3Up => "USB3 Up"@,
        AdapterKind::DisplayPortIn => "DP/HDMI In"@,
        AdapterKind::DisplayPortOut => "DP/HDMI Out"@,
        AdapterKind::Unsupported => "Unsupported"@,
    }
}

impl AdapterKind {
    pub open spec fn spec_is_lane(self) -> bool {
        self is Lane0 || self is Lane1 || self is Lane
    }

    pub open spec fn spec_is_pcie(self) -> bool {
        self is PcieDown || self is PcieUp
    }

    pub open spec fn spec_is_usb3(self) -> bool {
        self is Usb3Down || self is Usb3Up
    }

    pub open spec fn spec_is_protocol(self) -> bool {
        self.spec_is_pcie() || self.spec_is_usb3() || self is DisplayPortIn
            || self is DisplayPortOut
    }

    pub open spec fn spec_is_decodable(self) -> bool {
        self.spec_is_lane() || self.spec_is_protocol()
    }

    /// Whether this is a lane adapter.
    #[verifier::when_used_as_spec(spec_is_lane)]
    pub fn is_lane(self) -> (r: bool)
        ensures
            r == self.spec_is_lane(),
    {
        matches!(self, AdapterKind::Lane0 | AdapterKind::Lane1 | AdapterKind::Lane)
    }

    /// Whether this is a PCIe adapter.
    #[verifier::when_used_as_spec(spec_is_pcie)]
    pub fn is_pcie(self) -> (r: bool)
        ensures
            r == self.spec_is_pcie(),
    {
        matches!(self, AdapterKind::PcieDown | AdapterKind::PcieUp)
    }

    /// Whether this is a USB3 adapter.
    #[verifier::when_used_as_spec(spec_is_usb3)]
    pub fn is_usb3(self) -> (r: bool)
        ensures
            r == self.spec_is_usb3(),
    {
        matches!(self, AdapterKind::Usb3Down | AdapterKind::Usb3Up)
    }

    /// Whether this is a protocol adapter (PCIe, USB3 or DisplayPort).
    #[verifier::when_used_as_spec(spec_is_protocol)]
    pub fn is_protocol(self) -> (r: bool)
        ensures
            r == self.spec_is_protocol(),
    {
        self.is_pcie() || self.is_usb3() || matches!(
            self,
            AdapterKind::DisplayPortIn | AdapterKind::DisplayPortOut
        )
    }

    /// Whether the state of an adapter of this kind can be decoded: true for
    /// lane and protocol adapters only.
    #[verifier::when_used_as_spec(spec_is_decodable)]
    pub fn is_decodable(self) -> (r: bool)
        ensures
            r == self.spec_is_decodable(),
    {
        self.is_lane() || self.is_protocol()
    }

    /// Printable name of this kind.
    pub fn name(self) -> (r: &'static str)
        ensures
            r@ == kind_name_of(self),
    {
        match self {
            AdapterKind::Inactive => "Inactive",
            AdapterKind::Lane0 => "Lane 0",
            AdapterKind::Lane1 => "Lane 1",
            AdapterKind::Lane => "Lane",
            AdapterKind::HostInterface => "Host Interface",
            AdapterKind::PcieDown => "PCIe Down",
            AdapterKind::PcieUp => "PCIe Up",
            AdapterKind::Usb3Down => "USB3 Down",
            AdapterKind::Usb3Up => "USB3 Up",
            AdapterKind::DisplayPortIn => "DP/HDMI In",
            AdapterKind::DisplayPortOut => "DP/HDMI Out",
            AdapterKind::Unsupported => "Unsupported",
        }
    }
}

/// One adapter of a router: its number, kind, whether it is the router's
/// upstream adapter, its coarse state and the registers read from it.
pub struct Adapter {
    pub adapter: u16,
    pub kind: AdapterKind,
    pub upstream: bool,
    pub state: CoarseState,
    pub registers: Vec<Register>,
}

/// Mathematical model of an adapter.
pub struct AdapterModel {
    pub adapter: u16,
    pub kind: AdapterKind,
    pub upstream: bool,
    pub state: CoarseState,
    pub registers: Seq<RegisterModel>,
}

impl View for Adapter {
    type V = AdapterModel;

    open spec fn view(&self) -> AdapterModel {
        AdapterModel {
            adapter: self.adapter,
            kind: self.kind,
            upstream: self.upstream,
            state: self.state,
            registers: self.registers@.map_values(|r: Register| r@),
        }
    }
}

/// The first register of `regs` called `name`.
pub open spec fn register_named(regs: Seq<RegisterModel>, name: Seq<char>) -> Option<RegisterModel>
    decreases regs.len(),
{
    if regs.len() == 0 {
        None
    } else if regs[0].name == name {
        Some(regs[0])
    } else {
        register_named(regs.drop_first(), name)
    }
}

/// What the registers `regs` say through field `field` of register `reg`:
/// `None` when the register or the field is absent, else the raw field value and
/// its symbolic name when it has one.
pub open spec fn reading_of(regs: Seq<RegisterModel>, reg: Seq<char>, field: Seq<char>) -> Option<(u32, Option<Seq<char>>)> {
    match register_named(regs, reg) {
        None => None,
        Some(r) => match field_named(r.fields, field) {
            None => None,
            Some(f) => Some(field_reading(r.value, f)),
        },
    }
}

/// The label of an adapter's kind, with its upstream mark.
pub open spec fn type_label_of(kind: AdapterKind, upstream: bool) -> Seq<char> {
    if upstream {
        kind_name_of(kind) + " (upstream)"@
    } else {
        kind_name_of(kind)
    }
}

/// The outcome of reading one field of one register.
pub enum FieldReading {
    /// The register or the field is not there.
    Absent,
    /// The field holds a value that it gives no name.
    Unnamed(u32),
    /// The field holds a value with a symbolic name.
    Named(u32, String),
}

impl View for FieldReading {
    type V = Option<(u32, Option<Seq<char>>)>;

    open spec fn view(&self) -> Option<(u32, Option<Seq<char>>)> {
        match self {
            FieldReading::Absent => None,
            FieldReading::Unnamed(v) => Some((*v, None)),
            FieldReading::Named(v, n) => Some((*v, Some(n@))),
        }
    }
}

impl Adapter {
    /// The first register of this adapter called `name`, or `None` when it was
    /// not read.
    pub fn register_by_name(&self, name: &str) -> (r: Option<&Register>)
        ensures
            r matches Some(reg) ==> register_named(self@.registers, name@) == Some(reg@),
            r is None ==> register_named(self@.registers, name@) is None,
    {
        let key = name.to_owned();
        let mut i: usize = 0;
        assert(self@.registers.subrange(0, self@.registers.len() as int) =~= self@.registers);
        while i < self.registers.len()
            invariant
                0 <= i <= self@.registers.len(),
                key@ == name@,
                register_named(self@.registers, name@) == register_named(
                    self@.registers.subrange(i as int, self@.registers.len() as int),
                    name@,
                ),
            decreases self@.registers.len() - i,
        {
            proof {
                let s = self@.registers.subrange(i as int, self@.registers.len() as int);
                assert(s.drop_first() =~= self@.registers.subrange(
                    i + 1,
                    self@.registers.len() as int,
                ));
            }
            if self.registers[i].name == key {
                return Some(&self.registers[i]);
            }
            i = i + 1;
        }
        None
    }

    /// Reads field `field` of register `reg`: absent, a value without a name,
    /// or a value with its symbolic name.
    pub fn read_field(&self, reg: &str, field: &str) -> (r: FieldReading)
        ensures
            r@ == reading_of(self@.registers, reg@, field@),
    {
        match self.register_by_name(reg) {
            None => FieldReading::Absent,
            Some(register) => {
                let found: Option<&Field> = register.field_by_name(field);
                match found {
                    None => FieldReading::Absent,
                    Some(f) => {
                        let v = register.field_value(f);
                        match f.value_name(v) {
                            None => FieldReading::Unnamed(v),
                            Some(n) => FieldReading::Named(v, n.clone()),
                        }
                    },
                }
            },
        }
    }

    /// Whether this adapter's state can be decoded.
    pub fn is_decodable(&self) -> (r: bool)
        ensures
            r == self.kind.spec_is_decodable(),
    {
        self.kind.is_decodable()
    }

    /// The label of this adapter's kind, marked when it is the upstream adapter.
    pub fn type_label(&self) -> (r: String)
        ensures
            r@ == type_label_of(self.kind, self.upstream),
    {
        let mut label = self.kind.name().to_owned();
        if self.upstream {
            label.append(" (upstream)");
        }
        label
    }
}

} // verus!
