//! The configuration that a build announces to the compiler: which axes
//! exist, and which values this build has on them.

use crate::arch::{AddressBits, ArchitectureParameters, Discovery};
use vstd::prelude::*;

verus! {

/// A configuration axis that is either present or absent.
#[derive(Clone, Copy, Debug, PartialEq, Eq, Structural)]
pub enum Flag {
    HardFloat,
    UseFdt,
    UseAcpi,
}

/// One line of what the build announces.
#[derive(Clone, Copy, Debug, PartialEq, Eq, Structural)]
pub enum Directive {
    /// The address width is an axis, with the values 39, 48, 57 and 64.
    DeclareAddressBits,
    /// The flag is an axis.
    DeclareFlag(Flag),
    /// This build has the given address width.
    SetAddressBits(AddressBits),
    /// This build has the flag.
    SetFlag(Flag),
}

/// The one directive `d` where `on` holds, nothing otherwise.
pub open spec fn when(on: bool, d: Directive) -> Seq<Directive> {
    if on {
        seq![d]
    } else {
        Seq::empty()
    }
}

/// What a build with the given parameters announces, in order: every axis
/// is declared, whether the build has a value on it or not, and before any
/// value on it is set.
pub open spec fn directives_of(params: ArchitectureParameters) -> Seq<Directive> {
    seq![Directive::DeclareAddressBits, Directive::DeclareFlag(Flag::HardFloat)] + when(
        params.hard_float,
        Directive::SetFlag(Flag::HardFloat),
    ) + seq![
        Directive::SetAddressBits(params.address_bits),
        Directive::DeclareFlag(Flag::UseFdt),
    ] + when(
        params.discovery_mechanism == Discovery::DeviceTree,
        Directive::SetFlag(Flag::UseFdt),
    ) + seq![Directive::DeclareFlag(Flag::UseAcpi)] + when(
        params.discovery_mechanism == Discovery::FirmwareTable,
        Directive::SetFlag(Flag::UseAcpi),
    )
}

/// The text of a directive, as the compiler's driver reads it.
pub open spec fn line_of(d: Directive) -> Seq<char> {
    match d {
        Directive::DeclareAddressBits =>
            "cargo::rustc-check-cfg=cfg(addr_bits, values(\"39\", \"48\", \"57\", \"64\"))"@,
        Directive::DeclareFlag(Flag::HardFloat) => "cargo::rustc-check-cfg=cfg(hard_float)"@,
        Directive::DeclareFlag(Flag::UseFdt) => "cargo::rustc-check-cfg=cfg(use_fdt)"@,
        Directive::DeclareFlag(Flag::UseAcpi) => "cargo::rustc-check-cfg=cfg(use_acpi)"@,
        Directive::SetAddressBits(AddressBits::Bits39) => "cargo::rustc-cfg=addr_bits=\"39\""@,
        Directive::SetAddressBits(AddressBits::Bits48) => "cargo::rustc-cfg=addr_bits=\"48\""@,
        Directive::SetAddressBits(AddressBits::Bits57) => "cargo::rustc-cfg=addr_bits=\"57\""@,
        Directive::SetAddressBits(AddressBits::Bits64) => "cargo::rustc-cfg=addr_bits=\"64\""@,
        Directive::SetFlag(Flag::HardFloat) => "cargo::rustc-cfg=hard_float"@,
        Directive::SetFlag(Flag::UseFdt) => "cargo::rustc-cfg=use_fdt"@,
        Directive::SetFlag(Flag::UseAcpi) => "cargo::rustc-cfg=use_acpi"@,
    }
}

impl Directive {
    /// The text of the directive.
    pub fn line(self) -> (text: &'static str)
        ensures
            text@ == line_of(self),
    {
        match self {
            Directive::DeclareAddressBits =>
                "cargo::rustc-check-cfg=cfg(addr_bits, values(\"39\", \"48\", \"57\", \"64\"))",
            Directive::DeclareFlag(Flag::HardFloat) => "cargo::rustc-check-cfg=cfg(hard_float)",
            Directive::DeclareFlag(Flag::UseFdt) => "cargo::rustc-check-cfg=cfg(use_fdt)",
            Directive::DeclareFlag(Flag::UseAcpi) => "cargo::rustc-check-cfg=cfg(use_acpi)",
            Directive::SetAddressBits(AddressBits::Bits39) => "cargo::rustc-cfg=addr_bits=\"39\"",
            Directive::SetAddressBits(AddressBits::Bits48) => "cargo::rustc-cfg=addr_bits=\"48\"",
            Directive::SetAddressBits(AddressBits::Bits57) => "cargo::rustc-cfg=addr_bits=\"57\"",
            Directive::SetAddressBits(AddressBits::Bits64) => "cargo::rustc-cfg=addr_bits=\"64\"",
            Directive::SetFlag(Flag::HardFloat) => "cargo::rustc-cfg=hard_float",
            Directive::SetFlag(Flag::UseFdt) => "cargo::rustc-cfg=use_fdt",
            Directive::SetFlag(Flag::UseAcpi) => "cargo::rustc-cfg=use_acpi",
        }
    }
}

/// What a build with the given parameters announces, in order.
pub fn directives(params: &ArchitectureParameters) -> (list: Vec<Directive>)
    ensures
        list@ == directives_of(*params),
{
    let mut list: Vec<Directive> = Vec::new();
    list.push(Directive::DeclareAddressBits);
    list.push(Directive::DeclareFlag(Flag::HardFloat));
    if params.hard_float {
        list.push(Directive::SetFlag(Flag::HardFloat));
    }
    list.push(Directive::SetAddressBits(params.address_bits));
    list.push(Directive::DeclareFlag(Flag::UseFdt));
    if params.discovery_mechanism == Discovery::DeviceTree {
        list.push(Directive::SetFlag(Flag::UseFdt));
    }
    list.push(Directive::DeclareFlag(Flag::UseAcpi));
    if params.discovery_mechanism == Discovery::FirmwareTable {
        list.push(Directive::SetFlag(Flag::UseAcpi));
    }
    assert(list@ =~= directives_of(*params));
    list
}

/// No build sets a flag that it has not declared before.
pub proof fn lemma_set_after_declared(params: ArchitectureParameters, i: int, flag: Flag)
    requires
        0 <= i < directives_of(params).len(),
        directives_of(params)[i] == Directive::SetFlag(flag),
    ensures
        exists|j: int| 0 <= j < i && #[trigger] directives_of(params)[j] == Directive::DeclareFlag(flag),
{
    let list = directives_of(params);
    match flag {
        Flag::HardFloat => {
            assert(list[1] == Directive::DeclareFlag(Flag::HardFloat));
        },
        Flag::UseFdt => {
            let at = if params.hard_float { 4int } else { 3int };
            assert(list[at] == Directive::DeclareFlag(Flag::UseFdt));
        },
        Flag::UseAcpi => {
            let fdt = params.discovery_mechanism == Discovery::DeviceTree;
            let at = 4 + if params.hard_float { 1int } else { 0int } + if fdt { 1int } else { 0int };
            assert(list[at] == Directive::DeclareFlag(Flag::UseAcpi));
        },
    }
}

/// Every axis is declared by every build; the build's address width is
/// set; and a flag is set exactly where the parameters have it: hard float
/// where they say so, the device tree and the firmware tables where they are
/// the discovery mechanism.
pub proof fn lemma_announced_configuration(params: ArchitectureParameters)
    ensures
        directives_of(params).contains(Directive::DeclareAddressBits),
        directives_of(params).contains(Directive::DeclareFlag(Flag::HardFloat)),
        directives_of(params).contains(Directive::DeclareFlag(Flag::UseFdt)),
        directives_of(params).contains(Directive::DeclareFlag(Flag::UseAcpi)),
        directives_of(params).contains(Directive::SetAddressBits(params.address_bits)),
        directives_of(params).contains(Directive::SetFlag(Flag::HardFloat)) <==> params.hard_float,
        directives_of(params).contains(Directive::SetFlag(Flag::UseFdt))
            <==> params.discovery_mechanism == Discovery::DeviceTree,
        directives_of(params).contains(Directive::SetFlag(Flag::UseAcpi))
            <==> params.discovery_mechanism == Discovery::FirmwareTable,
{
    let list = directives_of(params);
    let h = if params.hard_float { 1int } else { 0int };
    let f = if params.discovery_mechanism == Discovery::DeviceTree { 1int } else { 0int };
    let a = if params.discovery_mechanism == Discovery::FirmwareTable { 1int } else { 0int };
    assert(list.len() == 5 + h + f + a);
    assert(list[0] == Directive::DeclareAddressBits);
    assert(list[1] == Directive::DeclareFlag(Flag::HardFloat));
    assert(list[2 + h] == Directive::SetAddressBits(params.address_bits));
    assert(list[3 + h] == Directive::DeclareFlag(Flag::UseFdt));
    assert(list[4 + h + f] == Directive::DeclareFlag(Flag::UseAcpi));
    if params.hard_float {
        assert(list[2] == Directive::SetFlag(Flag::HardFloat));
    }
    if f == 1 {
        assert(list[4 + h] == Directive::SetFlag(Flag::UseFdt));
    }
    if a == 1 {
        assert(list[5 + h + f] == Directive::SetFlag(Flag::UseAcpi));
    }
    assert forall|i: int| 0 <= i < list.len() && !params.hard_float implies list[i]
        != Directive::SetFlag(Flag::HardFloat) by {}
    assert forall|i: int| 0 <= i < list.len() && f == 0 implies list[i] != Directive::SetFlag(
        Flag::UseFdt,
    ) by {}
    assert forall|i: int| 0 <= i < list.len() && a == 0 implies list[i] != Directive::SetFlag(
        Flag::UseAcpi,
    ) by {}
}

} // verus!
