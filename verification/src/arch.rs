//! Resolution of the target CPU family into the parameters of a build.

use vstd::prelude::*;
use vstd::string::StringSliceAdditionalSpecFns;
use vstd::utf8::encode_utf8_decode_utf8;

verus! {

/// A supported CPU family.
#[derive(Clone, Copy, Debug, PartialEq, Eq, Structural)]
pub enum Arch {
    Aarch64,
    Riscv64,
    X86_64,
}

/// Width of the virtual address space, which fixes the depth of the page
/// tables.
#[derive(Clone, Copy, Debug, PartialEq, Eq, Structural)]
pub enum AddressBits {
    Bits39,
    Bits48,
    Bits57,
    Bits64,
}

/// How the kernel finds the description of the hardware.
#[derive(Clone, Copy, Debug, PartialEq, Eq, Structural)]
pub enum Discovery {
    DeviceTree,
    FirmwareTable,
    Unavailable,
}

/// Everything a build needs to know about its target.
#[derive(Clone, Copy, Debug, PartialEq, Eq, Structural)]
pub struct ArchitectureParameters {
    pub cpu_family: Arch,
    pub address_bits: AddressBits,
    pub hard_float: bool,
    pub discovery_mechanism: Discovery,
}

/// Why no parameters were resolved.
#[derive(Clone, Copy, Debug, PartialEq, Eq, Structural)]
pub enum ResolveError {
    /// The target architecture is none of the supported families.
    UnknownArchitecture,
}

/// The family that a target-architecture name stands for, if any.
pub open spec fn family_of(name: Seq<char>) -> Option<Arch> {
    if name == "aarch64"@ {
        Some(Arch::Aarch64)
    } else if name == "riscv64"@ {
        Some(Arch::Riscv64)
    } else if name == "x86_64"@ {
        Some(Arch::X86_64)
    } else {
        None
    }
}

/// Whether the depth of a family's page tables can be chosen at build time.
pub open spec fn width_is_configurable(family: Arch) -> bool {
    family == Arch::Riscv64
}

/// The discovery mechanism of each family.
pub open spec fn discovery_of(family: Arch) -> Discovery {
    match family {
        Arch::Aarch64 | Arch::Riscv64 => Discovery::DeviceTree,
        Arch::X86_64 => Discovery::FirmwareTable,
    }
}

/// The address width of a family: the narrow one where it was asked for and
/// the family lets it be chosen, otherwise 48 bits.
pub open spec fn address_bits_of(family: Arch, narrow: bool) -> AddressBits {
    if narrow && width_is_configurable(family) {
        AddressBits::Bits39
    } else {
        AddressBits::Bits48
    }
}

/// The parameters of a family, with or without the narrow-address feature.
pub open spec fn parameters_of(family: Arch, narrow: bool) -> ArchitectureParameters {
    ArchitectureParameters {
        cpu_family: family,
        address_bits: address_bits_of(family, narrow),
        hard_float: family == Arch::Aarch64,
        discovery_mechanism: discovery_of(family),
    }
}

impl ArchitectureParameters {
    /// Whether the parameters agree with their family: the discovery
    /// mechanism is the family's, hard float goes with Aarch64 alone, and
    /// only a family whose width can be chosen departs from 48 bits.
    pub open spec fn well_formed(self) -> bool {
        &&& self.discovery_mechanism == discovery_of(self.cpu_family)
        &&& self.hard_float == (self.cpu_family == Arch::Aarch64)
        &&& (self.address_bits != AddressBits::Bits48 ==> width_is_configurable(self.cpu_family))
    }
}

/// What resolving a target-architecture name gives.
pub open spec fn resolved(name: Seq<char>, narrow: bool) -> Result<
    ArchitectureParameters,
    ResolveError,
> {
    match family_of(name) {
        Some(family) => Ok(parameters_of(family, narrow)),
        None => Err(ResolveError::UnknownArchitecture),
    }
}

/// Whether two byte strings are equal.
fn same_bytes(a: &[u8], b: &[u8]) -> (same: bool)
    ensures
        same == (a@ == b@),
{
    if a.len() != b.len() {
        return false;
    }
    let mut i: usize = 0;
    while i < a.len()
        invariant
            a@.len() == b@.len(),
            i <= a@.len(),
            forall|j: int| 0 <= j < i ==> a@[j] == b@[j],
        decreases a@.len() - i,
    {
        if a[i] != b[i] {
            return false;
        }
        i += 1;
    }
    assert(a@ =~= b@);
    true
}

/// Whether two strings hold the same characters.
pub fn same_text(a: &str, b: &str) -> (same: bool)
    ensures
        same == (a@ == b@),
{
    let same = same_bytes(a.as_bytes(), b.as_bytes());
    proof {
        if same {
            encode_utf8_decode_utf8(a@);
            encode_utf8_decode_utf8(b@);
        }
    }
    same
}

impl AddressBits {
    /// The width as a number of bits.
    pub open spec fn spec_bits(self) -> u8 {
        match self {
            AddressBits::Bits39 => 39,
            AddressBits::Bits48 => 48,
            AddressBits::Bits57 => 57,
            AddressBits::Bits64 => 64,
        }
    }

    /// The width as a number of bits.
    pub fn bits(self) -> (n: u8)
        ensures
            n == self.spec_bits(),
    {
        match self {
            AddressBits::Bits39 => 39,
            AddressBits::Bits48 => 48,
            AddressBits::Bits57 => 57,
            AddressBits::Bits64 => 64,
        }
    }
}

impl Arch {
    /// The family named by the compiler's target-architecture string.
    pub fn from_target_arch(name: &str) -> (family: Option<Arch>)
        ensures
            family == family_of(name@),
    {
        if same_text(name, "aarch64") {
            Some(Arch::Aarch64)
        } else if same_text(name, "riscv64") {
            Some(Arch::Riscv64)
        } else if same_text(name, "x86_64") {
            Some(Arch::X86_64)
        } else {
            None
        }
    }

    /// The parameters of this family. `narrow` says that the narrow-address
    /// feature was selected; it has no effect on a family whose width is
    /// fixed.
    pub fn parameters(self, narrow: bool) -> (params: ArchitectureParameters)
        ensures
            params == parameters_of(self, narrow),
            params.well_formed(),
    {
        let address_bits = match self {
            Arch::Riscv64 => if narrow {
                AddressBits::Bits39
            } else {
                AddressBits::Bits48
            },
            _ => AddressBits::Bits48,
        };
        let discovery_mechanism = match self {
            Arch::Aarch64 | Arch::Riscv64 => Discovery::DeviceTree,
            Arch::X86_64 => Discovery::FirmwareTable,
        };
        let hard_float = match self {
            Arch::Aarch64 => true,
            _ => false,
        };
        ArchitectureParameters { cpu_family: self, address_bits, hard_float, discovery_mechanism }
    }
}

/// Resolves the compiler's target-architecture string and the
/// narrow-address feature into the parameters of the build.
///
/// Fails exactly when the string names none of the supported families.
pub fn resolve(target_arch: &str, narrow: bool) -> (outcome: Result<
    ArchitectureParameters,
    ResolveError,
>)
    ensures
        outcome == resolved(target_arch@, narrow),
        outcome.is_ok() ==> outcome.unwrap().well_formed(),
{
    match Arch::from_target_arch(target_arch) {
        Some(family) => Ok(family.parameters(narrow)),
        None => Err(ResolveError::UnknownArchitecture),
    }
}

/// Every supported family resolves to exactly one discovery mechanism, the
/// one fixed for it: the device tree on Aarch64 and Riscv64, the firmware
/// tables on X86_64, whichever width was asked for.
pub proof fn lemma_discovery_follows_family(name: Seq<char>, narrow: bool)
    requires
        family_of(name).is_some(),
    ensures
        resolved(name, narrow).is_ok(),
        resolved(name, narrow).unwrap().cpu_family == family_of(name).unwrap(),
        resolved(name, narrow).unwrap().discovery_mechanism == discovery_of(
            family_of(name).unwrap(),
        ),
        resolved(name, narrow).unwrap().discovery_mechanism != Discovery::Unavailable,
        resolved(name, narrow).unwrap().discovery_mechanism == Discovery::FirmwareTable
            <==> family_of(name) == Some(Arch::X86_64),
{
}

/// The narrow-address feature gives 39 bits on a family whose width can be
/// chosen; without it, and on every family whose width is fixed, the width
/// is 48 bits. Nothing else in the parameters depends on the feature.
pub proof fn lemma_address_width(family: Arch, narrow: bool)
    ensures
        narrow && width_is_configurable(family) ==> parameters_of(family, narrow).address_bits
            == AddressBits::Bits39,
        !narrow ==> parameters_of(family, narrow).address_bits == AddressBits::Bits48,
        !width_is_configurable(family) ==> parameters_of(family, narrow) == parameters_of(
            family,
            false,
        ),
        parameters_of(family, narrow).hard_float == parameters_of(family, !narrow).hard_float,
        parameters_of(family, narrow).discovery_mechanism == parameters_of(
            family,
            !narrow,
        ).discovery_mechanism,
{
}

/// The three family names are told apart: each resolves to its own family.
pub proof fn lemma_family_names()
    ensures
        family_of("aarch64"@) == Some(Arch::Aarch64),
        family_of("riscv64"@) == Some(Arch::Riscv64),
        family_of("x86_64"@) == Some(Arch::X86_64),
{
    reveal_strlit("aarch64");
    reveal_strlit("riscv64");
    reveal_strlit("x86_64");
    assert("riscv64"@[0] != "aarch64"@[0]);
    assert("x86_64"@.len() != "aarch64"@.len());
    assert("x86_64"@.len() != "riscv64"@.len());
}

} // verus!
