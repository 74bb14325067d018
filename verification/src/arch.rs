//! Which package architectures may run on which host architectures.

use vstd::prelude::*;
use crate::error::PlatformError;
use crate::text::chars_of;
use crate::version::{decimal_value, dotted_fields, is_number, os_version_test, VersionTest};

verus! {

/// A CPU architecture, of the host or of a package. `Unknown` is a value like
/// the others: a host that could not be probed, a package that declares nothing.
#[derive(Clone, Copy, Debug, PartialEq, Eq)]
pub enum RuntimeArch {
    X86,
    X64,
    Arm64,
    Unknown,
}

/// `c` with an ASCII capital letter replaced by its small letter.
pub open spec fn ascii_lower(c: char) -> char {
    if 'A' <= c && c <= 'Z' {
        ((c as u8) + 32) as u8 as char
    } else {
        c
    }
}

/// `s` spells `name`, whatever the case of its ASCII letters.
pub open spec fn spells(s: Seq<char>, name: Seq<char>) -> bool {
    &&& s.len() == name.len()
    &&& forall|i: int| 0 <= i < s.len() ==> ascii_lower(#[trigger] s[i]) == name[i]
}

/// The architecture that a descriptor string names.
pub open spec fn arch_from_text(s: Seq<char>) -> RuntimeArch {
    if spells(s, seq!['x', '8', '6']) {
        RuntimeArch::X86
    } else if spells(s, seq!['x', '6', '4']) {
        RuntimeArch::X64
    } else if spells(s, seq!['a', 'r', 'm', '6', '4']) {
        RuntimeArch::Arm64
    } else {
        RuntimeArch::Unknown
    }
}

/// The compatibility matrix. `windows_11` tells whether the host runs
/// release "11" or later; only the cell of an arm64 host and an x64 package
/// reads it.
pub open spec fn arch_supported(machine: RuntimeArch, package: RuntimeArch, windows_11: bool) -> bool {
    match (machine, package) {
        (RuntimeArch::Unknown, _) => true,
        (_, RuntimeArch::Unknown) => true,
        (RuntimeArch::X86, p) => p == RuntimeArch::X86,
        (RuntimeArch::X64, p) => p == RuntimeArch::X86 || p == RuntimeArch::X64,
        (RuntimeArch::Arm64, p) => p == RuntimeArch::X86 || (p == RuntimeArch::X64 && windows_11)
            || p == RuntimeArch::Arm64,
    }
}

/// Whether the matrix cell of `machine` and `package` depends on the host's release.
pub open spec fn needs_os_version(machine: RuntimeArch, package: RuntimeArch) -> bool {
    machine == RuntimeArch::Arm64 && package == RuntimeArch::X64
}

/// Whether the package may be installed, given the outcome of the version
/// check for "11". A failed
/// version query is reported only where the cell depends on it.
pub open spec fn cpu_architecture_verdict(
    machine: RuntimeArch,
    package: RuntimeArch,
    windows_11: Result<bool, PlatformError>,
) -> Result<bool, PlatformError> {
    match windows_11 {
        Ok(at_least) => Ok(arch_supported(machine, package, at_least)),
        Err(e) => if needs_os_version(machine, package) {
            Err(e)
        } else {
            Ok(arch_supported(machine, package, false))
        },
    }
}

fn lower(c: char) -> (r: char)
    ensures
        r == ascii_lower(c),
{
    if 'A' <= c && c <= 'Z' {
        ((c as u8) + 32) as char
    } else {
        c
    }
}

fn spells_name(s: &Vec<char>, name: &[char]) -> (r: bool)
    ensures
        r == spells(s@, name@),
{
    if s.len() != name.len() {
        return false;
    }
    let mut i: usize = 0;
    while i < s.len()
        invariant
            i <= s.len(),
            s.len() == name.len(),
            forall|j: int| 0 <= j < i ==> ascii_lower(#[trigger] s@[j]) == name@[j],
        decreases s.len() - i,
    {
        if lower(s[i]) != name[i] {
            return false;
        }
        i += 1;
    }
    true
}

impl RuntimeArch {
    /// Reads an architecture from a package descriptor. A string that names
    /// none of the three architectures gives `Unknown`.
    pub fn from_str(s: &str) -> (r: RuntimeArch)
        ensures
            r == arch_from_text(s@),
    {
        let v = chars_of(s);
        if spells_name(&v, &['x', '8', '6']) {
            RuntimeArch::X86
        } else if spells_name(&v, &['x', '6', '4']) {
            RuntimeArch::X64
        } else if spells_name(&v, &['a', 'r', 'm', '6', '4']) {
            RuntimeArch::Arm64
        } else {
            RuntimeArch::Unknown
        }
    }
}

/// The version string that the version check is asked for the cell of an arm64
/// host and an x64 package.
pub fn x64_on_arm64_minimum() -> (s: &'static str)
    ensures
        s@ == "11"@,
{
    "11"
}

/// The host test behind that cell: build 22000 or later of release 10.0, which
/// is what the version check selects for "11".
pub fn x64_on_arm64_test() -> (t: VersionTest)
    ensures
        t == (VersionTest::AtLeast { major: 10, minor: 0, build: 22000 }),
        os_version_test("11"@) == Ok::<VersionTest, PlatformError>(t),
{
    proof {
        reveal_strlit("11");
        let one = seq!['1'];
        let both = seq!['1', '1'];
        reveal_with_fuel(dotted_fields, 3);
        reveal_with_fuel(decimal_value, 3);
        assert(one.push('1') == both);
    }
    VersionTest::AtLeast { major: 10, minor: 0, build: 22000 }
}

/// Whether deciding for `machine` and `architecture` takes the outcome of
/// the version check: only an arm64 host asked about an x64 package does.
/// Elsewhere `is_cpu_architecture_supported` does not read that argument.
pub fn needs_version_check(machine: RuntimeArch, architecture: &str) -> (r: bool)
    ensures
        r == needs_os_version(machine, arch_from_text(architecture@)),
{
    match (machine, RuntimeArch::from_str(architecture)) {
        (RuntimeArch::Arm64, RuntimeArch::X64) => true,
        _ => false,
    }
}

/// Decides whether a package built for `architecture` may be installed on a
/// host of architecture `machine`. `windows_11` is what the version check
/// answered for the minimum release "11".
pub fn is_cpu_architecture_supported(
    machine: RuntimeArch,
    architecture: &str,
    windows_11: Result<bool, PlatformError>,
) -> (r: Result<bool, PlatformError>)
    ensures
        r == cpu_architecture_verdict(machine, arch_from_text(architecture@), windows_11),
        machine == RuntimeArch::Unknown ==> r == Ok::<bool, PlatformError>(true),
{
    let package = RuntimeArch::from_str(architecture);
    let plain = match (machine, package) {
        (RuntimeArch::Unknown, _) => Some(true),
        (_, RuntimeArch::Unknown) => Some(true),
        (RuntimeArch::X86, RuntimeArch::X86) => Some(true),
        (RuntimeArch::X86, _) => Some(false),
        (RuntimeArch::X64, RuntimeArch::Arm64) => Some(false),
        (RuntimeArch::X64, _) => Some(true),
        (RuntimeArch::Arm64, RuntimeArch::X64) => None,
        (RuntimeArch::Arm64, _) => Some(true),
    };
    match plain {
        Some(b) => Ok(b),
        None => windows_11,
    }
}

/// A host of unknown architecture is allowed every package, whatever the
/// version check said.
pub proof fn law_unknown_machine_allows_all(package: RuntimeArch, windows_11: Result<bool, PlatformError>)
    ensures
        cpu_architecture_verdict(RuntimeArch::Unknown, package, windows_11) == Ok::<bool, PlatformError>(true),
{
}

/// A package that declares no architecture is allowed on every host.
pub proof fn law_unknown_package_is_allowed(machine: RuntimeArch, windows_11: Result<bool, PlatformError>)
    ensures
        cpu_architecture_verdict(machine, RuntimeArch::Unknown, windows_11) == Ok::<bool, PlatformError>(true),
{
}

/// Only the cell of an arm64 host and an x64 package reads the host's
/// release: everywhere else the answer is the same for every outcome of the
/// version check.
pub proof fn law_only_one_cell_reads_the_release(
    machine: RuntimeArch,
    package: RuntimeArch,
    one: Result<bool, PlatformError>,
    other: Result<bool, PlatformError>,
)
    requires
        !needs_os_version(machine, package),
    ensures
        cpu_architecture_verdict(machine, package, one) == cpu_architecture_verdict(machine, package, other),
{
}

} // verus!
