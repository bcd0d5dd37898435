//! Resolution of an adapter's coarse state, refined by protocol registers, into a
//! symbolic state name and an emphasis class.

use crate::adapter::{kind_of, reading_of, Adapter, AdapterKind, AdapterModel, CoarseState, FieldReading};
use vstd::prelude::*;

verus! {

/// How a resolved state should be emphasised.
#[derive(Clone, Copy, Debug, PartialEq, Eq, Structural)]
pub enum Emphasis {
    /// Healthy and active.
    Nominal,
    /// Healthy, in a deeper power-saving state worth pointing out.
    NominalStrong,
    /// On the way to another state.
    Transitional,
    /// Down or disabled.
    Degraded,
    /// A state this library does not know.
    Unrecognized,
}

/// A decoded adapter state: its symbolic name and its emphasis.
pub struct ResolvedState {
    pub name: String,
    pub emphasis: Emphasis,
}

impl View for ResolvedState {
    type V = (Seq<char>, Emphasis);

    open spec fn view(&self) -> (Seq<char>, Emphasis) {
        (self.name@, self.emphasis)
    }
}

/// `s` with every trailing copy of `pat` removed, repeatedly.
pub open spec fn strip_suffixes(s: Seq<char>, pat: Seq<char>) -> Seq<char>
    decreases s.len(),
{
    if pat.len() > 0 && pat.len() <= s.len() && s.subrange(s.len() - pat.len(), s.len() as int)
        == pat {
        strip_suffixes(s.subrange(0, s.len() - pat.len()), pat)
    } else {
        s
    }
}

/// Relies on str::trim_end_matches with a string pattern: all suffixes that
/// match the pattern are removed, repeatedly.
#[verifier::external_body]
fn trim_suffixes<'a>(s: &'a str, pat: &str) -> (r: &'a str)
    requires
        pat@.len() > 0,
    ensures
        r@ == strip_suffixes(s@, pat@),
{
    s.trim_end_matches(pat)
}

/// The state shared by both protocols for link state names that are not
/// protocol specific: disabled and hot reset are degraded, any other name is
/// transitional and shown without its trailing " state".
pub open spec fn common_link_state_of(tok: Seq<char>) -> (Seq<char>, Emphasis) {
    if tok == "Disabled state"@ {
        ("Disabled"@, Emphasis::Degraded)
    } else if tok == "Hot Reset state"@ {
        ("Hot Reset"@, Emphasis::Degraded)
    } else {
        (strip_suffixes(tok, " state"@), Emphasis::Transitional)
    }
}

/// The resolved state for the PCIe link training state called `tok`.
pub open spec fn pcie_link_state_of(tok: Seq<char>) -> (Seq<char>, Emphasis) {
    if tok == "L0 state"@ {
        ("L0"@, Emphasis::Nominal)
    } else if tok == "L1 state"@ {
        ("L1"@, Emphasis::NominalStrong)
    } else if tok == "L2 state"@ {
        ("L2"@, Emphasis::NominalStrong)
    } else {
        common_link_state_of(tok)
    }
}

/// The resolved state for the USB3 port link state called `tok`.
pub open spec fn usb3_link_state_of(tok: Seq<char>) -> (Seq<char>, Emphasis) {
    if tok == "U0 state"@ {
        ("U0"@, Emphasis::Nominal)
    } else if tok == "U2 state"@ {
        ("U2"@, Emphasis::NominalStrong)
    } else if tok == "U3 state"@ {
        ("U3"@, Emphasis::NominalStrong)
    } else {
        common_link_state_of(tok)
    }
}

/// The state of an enabled adapter when no protocol register refines it.
pub open spec fn enabled_state() -> (Seq<char>, Emphasis) {
    ("Enabled"@, Emphasis::Nominal)
}

/// The state of an enabled adapter, refined by its protocol's link state field
/// when that field is present and its value has a name.
pub open spec fn protocol_state_of(a: AdapterModel) -> (Seq<char>, Emphasis) {
    if a.kind.spec_is_pcie() {
        match reading_of(a.registers, "ADP_PCIE_CS_0"@, "LTSSM"@) {
            Some((_, Some(tok))) => pcie_link_state_of(tok),
            _ => enabled_state(),
        }
    } else if a.kind.spec_is_usb3() {
        match reading_of(a.registers, "ADP_USB3_GX_CS_4"@, "PLS"@) {
            Some((_, Some(tok))) => usb3_link_state_of(tok),
            _ => enabled_state(),
        }
    } else {
        enabled_state()
    }
}

/// The resolved state of adapter `a`.
pub open spec fn resolved_of(a: AdapterModel) -> (Seq<char>, Emphasis) {
    match a.state {
        CoarseState::Disabled => ("Disabled"@, Emphasis::Degraded),
        CoarseState::Enabled => protocol_state_of(a),
        CoarseState::Training => ("Training/Bonding"@, Emphasis::Transitional),
        CoarseState::Cl0 => ("CL0"@, Emphasis::Nominal),
        CoarseState::Cl0sTx => ("CL0s Tx"@, Emphasis::NominalStrong),
        CoarseState::Cl0sRx => ("CL0s Rx"@, Emphasis::NominalStrong),
        CoarseState::Cl1 => ("CL1"@, Emphasis::NominalStrong),
        CoarseState::Cl2 => ("CL2"@, Emphasis::NominalStrong),
        CoarseState::Cld => ("CLd"@, Emphasis::Degraded),
        CoarseState::Unknown => ("Unknown"@, Emphasis::Unrecognized),
    }
}

/// The decoded state of `a`, or `None` when its kind is not decoded.
pub open spec fn summary_of(a: AdapterModel) -> Option<(Seq<char>, Emphasis)> {
    if a.kind.spec_is_decodable() {
        Some(resolved_of(a))
    } else {
        None
    }
}

fn state(name: &str, emphasis: Emphasis) -> (r: ResolvedState)
    ensures
        r@ == (name@, emphasis),
{
    ResolvedState { name: name.to_owned(), emphasis }
}

fn is_token(tok: &String, name: &str) -> (r: bool)
    ensures
        r == (tok@ == name@),
{
    *tok == name.to_owned()
}

/// Resolves a link state name shared by both protocols (see
/// [`common_link_state_of`]).
pub fn common_link_state(tok: &String) -> (r: ResolvedState)
    ensures
        r@ == common_link_state_of(tok@),
{
    if is_token(tok, "Disabled state") {
        state("Disabled", Emphasis::Degraded)
    } else if is_token(tok, "Hot Reset state") {
        state("Hot Reset", Emphasis::Degraded)
    } else {
        proof {
            reveal_strlit(" state");
        }
        state(trim_suffixes(tok.as_str(), " state"), Emphasis::Transitional)
    }
}

/// Resolves a PCIe link training state name.
pub fn pcie_link_state(tok: &String) -> (r: ResolvedState)
    ensures
        r@ == pcie_link_state_of(tok@),
{
    if is_token(tok, "L0 state") {
        state("L0", Emphasis::Nominal)
    } else if is_token(tok, "L1 state") {
        state("L1", Emphasis::NominalStrong)
    } else if is_token(tok, "L2 state") {
        state("L2", Emphasis::NominalStrong)
    } else {
        common_link_state(tok)
    }
}

/// Resolves a USB3 port link state name.
pub fn usb3_link_state(tok: &String) -> (r: ResolvedState)
    ensures
        r@ == usb3_link_state_of(tok@),
{
    if is_token(tok, "U0 state") {
        state("U0", Emphasis::Nominal)
    } else if is_token(tok, "U2 state") {
        state("U2", Emphasis::NominalStrong)
    } else if is_token(tok, "U3 state") {
        state("U3", Emphasis::NominalStrong)
    } else {
        common_link_state(tok)
    }
}

/// The state of an enabled adapter, refined through its protocol's link state
/// register; "Enabled" when nothing refines it.
pub fn protocol_state(adapter: &Adapter) -> (r: ResolvedState)
    ensures
        r@ == protocol_state_of(adapter@),
{
    if adapter.kind.is_pcie() {
        if let FieldReading::Named(_, tok) = adapter.read_field("ADP_PCIE_CS_0", "LTSSM") {
            return pcie_link_state(&tok);
        }
    } else if adapter.kind.is_usb3() {
        if let FieldReading::Named(_, tok) = adapter.read_field("ADP_USB3_GX_CS_4", "PLS") {
            return usb3_link_state(&tok);
        }
    }
    state("Enabled", Emphasis::Nominal)
}

impl Adapter {
    /// The decoded state of this adapter.
    pub fn resolve(&self) -> (r: ResolvedState)
        ensures
            r@ == resolved_of(self@),
    {
        match self.state {
            CoarseState::Disabled => state("Disabled", Emphasis::Degraded),
            CoarseState::Enabled => protocol_state(self),
            CoarseState::Training => state("Training/Bonding", Emphasis::Transitional),
            CoarseState::Cl0 => state("CL0", Emphasis::Nominal),
            CoarseState::Cl0sTx => state("CL0s Tx", Emphasis::NominalStrong),
            CoarseState::Cl0sRx => state("CL0s Rx", Emphasis::NominalStrong),
            CoarseState::Cl1 => state("CL1", Emphasis::NominalStrong),
            CoarseState::Cl2 => state("CL2", Emphasis::NominalStrong),
            CoarseState::Cld => state("CLd", Emphasis::Degraded),
            CoarseState::Unknown => state("Unknown", Emphasis::Unrecognized),
        }
    }

    /// The decoded state of this adapter, or `None` when its kind is not one
    /// whose state is decoded; no register is consulted then.
    pub fn state_summary(&self) -> (r: Option<ResolvedState>)
        ensures
            r matches Some(s) ==> summary_of(self@) == Some(s@),
            r is None ==> summary_of(self@) is None,
    {
        if self.is_decodable() {
            Some(self.resolve())
        } else {
            None
        }
    }
}

/// A disabled adapter resolves to "Disabled", degraded, whatever its registers hold.
pub proof fn disabled_is_degraded(a: AdapterModel)
    requires
        a.state == CoarseState::Disabled,
    ensures
        resolved_of(a) == ("Disabled"@, Emphasis::Degraded),
{
}

/// An enabled PCIe adapter whose link training state is named "L0 state"
/// resolves to "L0", nominal.
pub proof fn pcie_l0_is_nominal(a: AdapterModel, v: u32)
    requires
        a.kind.spec_is_pcie(),
        a.state == CoarseState::Enabled,
        reading_of(a.registers, "ADP_PCIE_CS_0"@, "LTSSM"@) == Some(
            (v, Some("L0 state"@)),
        ),
    ensures
        resolved_of(a) == ("L0"@, Emphasis::Nominal),
{
}

/// An enabled PCIe adapter without its link training register or field
/// resolves to "Enabled", nominal.
pub proof fn pcie_without_ltssm_is_enabled(a: AdapterModel)
    requires
        a.kind.spec_is_pcie(),
        a.state == CoarseState::Enabled,
        reading_of(a.registers, "ADP_PCIE_CS_0"@, "LTSSM"@) is None,
    ensures
        resolved_of(a) == ("Enabled"@, Emphasis::Nominal),
{
}

/// An enabled USB3 adapter whose port link state is named "U3 state" resolves
/// to "U3", strongly nominal.
pub proof fn usb3_u3_is_strong(a: AdapterModel, v: u32)
    requires
        a.kind.spec_is_usb3(),
        a.state == CoarseState::Enabled,
        reading_of(a.registers, "ADP_USB3_GX_CS_4"@, "PLS"@) == Some(
            (v, Some("U3 state"@)),
        ),
    ensures
        resolved_of(a) == ("U3"@, Emphasis::NominalStrong),
{
    assert("U3 state"@ != "U0 state"@) by {
        reveal_strlit("U3 state");
        reveal_strlit("U0 state");
        assert("U3 state"@[1] != "U0 state"@[1]);
    }
    assert("U3 state"@ != "U2 state"@) by {
        reveal_strlit("U3 state");
        reveal_strlit("U2 state");
        assert("U3 state"@[1] != "U2 state"@[1]);
    }
}

/// Resolving the same adapter twice gives the same state.
pub proof fn resolve_is_deterministic(a: AdapterModel, r1: (Seq<char>, Emphasis), r2: (Seq<char>, Emphasis))
    requires
        r1 == resolved_of(a),
        r2 == resolved_of(a),
    ensures
        r1 == r2,
{
}

/// A lane 0 flag classifies an adapter as lane 0, whatever its type code.
pub proof fn lane0_takes_precedence(code: u32, lane1: bool)
    ensures
        kind_of(code, true, lane1) == AdapterKind::Lane0,
{
}

/// An adapter whose kind is not decoded gets no state, and its registers play
/// no part in that.
pub proof fn undecodable_has_no_state(a: AdapterModel, b: AdapterModel)
    requires
        !a.kind.spec_is_decodable(),
        b.kind == a.kind,
    ensures
        summary_of(a) is None,
        summary_of(b) == summary_of(a),
{
}

} // verus!
