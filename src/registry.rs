use vstd::prelude::*;

verus! {

/// Every component crate of the bundle, grouped by dependency layer.
pub const SUBMODULE_CRATES: [&'static str; 14] = [
    // layer 0: no internal dependencies
    "axaddrspace",
    "axvmconfig",
    "axhvc",
    "riscv-h",
    // layer 1: core components
    "axdevice_base",
    "axvisor_api",
    "axvcpu",
    // layer 2: interrupt controllers
    "arm_vgic",
    "x86_vlapic",
    // layer 3: architecture-specific virtual CPUs
    "arm_vcpu",
    "x86_vcpu",
    "riscv_vcpu",
    // layer 4: device abstraction
    "axdevice",
    // layer 5: virtual machine management
    "axvm",
];

/// Components with no architecture-specific code.
pub const CORE_CRATES: [&'static str; 8] = [
    "axaddrspace",
    "axvmconfig",
    "axhvc",
    "axvcpu",
    "axvisor_api",
    "axdevice_base",
    "axdevice",
    "axvm",
];

/// AArch64-specific components.
pub const AARCH64_CRATES: [&'static str; 2] = ["arm_vcpu", "arm_vgic"];

/// x86_64-specific components.
pub const X86_64_CRATES: [&'static str; 2] = ["x86_vcpu", "x86_vlapic"];

/// RISC-V-specific components.
pub const RISCV_CRATES: [&'static str; 2] = ["riscv_vcpu", "riscv-h"];

/// Identifier of the workspace bundle.
pub const BUNDLE_NAME: &'static str = "axcrates";

/// Version of the bundle.
pub const BUNDLE_VERSION: &'static str = "0.1.0";

/// Where the bundle's sources are kept.
pub const REPOSITORY_URL: &'static str = "https://github.com/arceos-hypervisor/axcrates";

/// Where the bundle's documentation is published.
pub const DOCUMENTATION_URL: &'static str = "https://docs.rs/axcrates";

/// The names of a list of crates, as character sequences.
pub open spec fn names(list: Seq<&str>) -> Seq<Seq<char>> {
    list.map_values(|s: &str| s@)
}

/// Returns the total number of crates in the bundle.
pub fn crate_count() -> (r: usize)
    ensures
        r == SUBMODULE_CRATES@.len(),
        r == 14,
{
    SUBMODULE_CRATES.len()
}

/// Returns the number of core crates.
pub fn core_crate_count() -> (r: usize)
    ensures
        r == CORE_CRATES@.len(),
        r == 8,
{
    CORE_CRATES.len()
}

/// Returns the number of AArch64-specific crates.
pub fn aarch64_crate_count() -> (r: usize)
    ensures
        r == AARCH64_CRATES@.len(),
        r == 2,
{
    AARCH64_CRATES.len()
}

/// Returns the number of x86_64-specific crates.
pub fn x86_64_crate_count() -> (r: usize)
    ensures
        r == X86_64_CRATES@.len(),
        r == 2,
{
    X86_64_CRATES.len()
}

/// Returns the number of RISC-V-specific crates.
pub fn riscv_crate_count() -> (r: usize)
    ensures
        r == RISCV_CRATES@.len(),
        r == 2,
{
    RISCV_CRATES.len()
}

/// The crates of dependency layer `k`: a crate of layer `k` depends only on crates of
/// lower layers. There are six layers, numbered from 0.
pub open spec fn dependency_layer(k: int) -> Seq<Seq<char>> {
    if k == 0 {
        seq!["axaddrspace"@, "axvmconfig"@, "axhvc"@, "riscv-h"@]
    } else if k == 1 {
        seq!["axdevice_base"@, "axvisor_api"@, "axvcpu"@]
    } else if k == 2 {
        seq!["arm_vgic"@, "x86_vlapic"@]
    } else if k == 3 {
        seq!["arm_vcpu"@, "x86_vcpu"@, "riscv_vcpu"@]
    } else if k == 4 {
        seq!["axdevice"@]
    } else if k == 5 {
        seq!["axvm"@]
    } else {
        Seq::empty()
    }
}

/// The length and two characters of each crate name, enough to tell any two apart.
proof fn lemma_name_shapes()
    ensures
        "axaddrspace"@.len() == 11,
        "axaddrspace"@[0] == 'a',
        "axaddrspace"@[5] == 'r',
        "axvmconfig"@.len() == 10,
        "axvmconfig"@[0] == 'a',
        "axvmconfig"@[5] == 'o',
        "axhvc"@.len() == 5,
        "axhvc"@[0] == 'a',
        "riscv-h"@.len() == 7,
        "riscv-h"@[0] == 'r',
        "riscv-h"@[5] == '-',
        "axdevice_base"@.len() == 13,
        "axdevice_base"@[0] == 'a',
        "axdevice_base"@[5] == 'i',
        "axvisor_api"@.len() == 11,
        "axvisor_api"@[0] == 'a',
        "axvisor_api"@[5] == 'o',
        "axvcpu"@.len() == 6,
        "axvcpu"@[0] == 'a',
        "axvcpu"@[5] == 'u',
        "arm_vgic"@.len() == 8,
        "arm_vgic"@[0] == 'a',
        "arm_vgic"@[5] == 'g',
        "x86_vlapic"@.len() == 10,
        "x86_vlapic"@[0] == 'x',
        "x86_vlapic"@[5] == 'l',
        "arm_vcpu"@.len() == 8,
        "arm_vcpu"@[0] == 'a',
        "arm_vcpu"@[5] == 'c',
        "x86_vcpu"@.len() == 8,
        "x86_vcpu"@[0] == 'x',
        "x86_vcpu"@[5] == 'c',
        "riscv_vcpu"@.len() == 10,
        "riscv_vcpu"@[0] == 'r',
        "riscv_vcpu"@[5] == '_',
        "axdevice"@.len() == 8,
        "axdevice"@[0] == 'a',
        "axdevice"@[5] == 'i',
        "axvm"@.len() == 4,
        "axvm"@[0] == 'a',
{
    reveal_strlit("axaddrspace");
    reveal_strlit("axvmconfig");
    reveal_strlit("axhvc");
    reveal_strlit("riscv-h");
    reveal_strlit("axdevice_base");
    reveal_strlit("axvisor_api");
    reveal_strlit("axvcpu");
    reveal_strlit("arm_vgic");
    reveal_strlit("x86_vlapic");
    reveal_strlit("arm_vcpu");
    reveal_strlit("x86_vcpu");
    reveal_strlit("riscv_vcpu");
    reveal_strlit("axdevice");
    reveal_strlit("axvm");
}

/// The bundle's list of crates is its dependency layers one after the other, lowest
/// first; no crate is listed twice, so the number of crates is the sum of the layers'
/// sizes.
pub proof fn lemma_submodules_by_layer()
    ensures
        names(SUBMODULE_CRATES@) == dependency_layer(0) + dependency_layer(1) + dependency_layer(2)
            + dependency_layer(3) + dependency_layer(4) + dependency_layer(5),
        names(SUBMODULE_CRATES@).no_duplicates(),
        SUBMODULE_CRATES@.len() == dependency_layer(0).len() + dependency_layer(1).len()
            + dependency_layer(2).len() + dependency_layer(3).len() + dependency_layer(4).len()
            + dependency_layer(5).len(),
{
    lemma_name_shapes();
    let s = names(SUBMODULE_CRATES@);
    assert(s =~= dependency_layer(0) + dependency_layer(1) + dependency_layer(2)
        + dependency_layer(3) + dependency_layer(4) + dependency_layer(5));
    assert forall|i: int, j: int| 0 <= i < s.len() && 0 <= j < s.len() && i != j implies s[i] != s[j] by {}
}

/// Every crate of the bundle belongs to exactly one of the core, AArch64, x86_64 and
/// RISC-V groups, and each group lists a crate at most once; so the number of crates is
/// the sum of the groups' sizes.
pub proof fn lemma_groups_partition_submodules()
    ensures
        names(SUBMODULE_CRATES@).to_set() == names(CORE_CRATES@).to_set() + names(AARCH64_CRATES@).to_set()
            + names(X86_64_CRATES@).to_set() + names(RISCV_CRATES@).to_set(),
        names(CORE_CRATES@).to_set().disjoint(names(AARCH64_CRATES@).to_set()),
        names(CORE_CRATES@).to_set().disjoint(names(X86_64_CRATES@).to_set()),
        names(CORE_CRATES@).to_set().disjoint(names(RISCV_CRATES@).to_set()),
        names(AARCH64_CRATES@).to_set().disjoint(names(X86_64_CRATES@).to_set()),
        names(AARCH64_CRATES@).to_set().disjoint(names(RISCV_CRATES@).to_set()),
        names(X86_64_CRATES@).to_set().disjoint(names(RISCV_CRATES@).to_set()),
        names(CORE_CRATES@).no_duplicates(),
        names(AARCH64_CRATES@).no_duplicates(),
        names(X86_64_CRATES@).no_duplicates(),
        names(RISCV_CRATES@).no_duplicates(),
        SUBMODULE_CRATES@.len() == CORE_CRATES@.len() + AARCH64_CRATES@.len() + X86_64_CRATES@.len()
            + RISCV_CRATES@.len(),
{
    broadcast use Seq::lemma_push_to_set_commute;
    lemma_name_shapes();
    assert(names(SUBMODULE_CRATES@) =~= seq!["axaddrspace"@, "axvmconfig"@, "axhvc"@, "riscv-h"@, "axdevice_base"@,
        "axvisor_api"@, "axvcpu"@, "arm_vgic"@, "x86_vlapic"@, "arm_vcpu"@, "x86_vcpu"@, "riscv_vcpu"@, "axdevice"@, "axvm"@]);
    let core = names(CORE_CRATES@);
    let arm = names(AARCH64_CRATES@);
    let x86 = names(X86_64_CRATES@);
    let riscv = names(RISCV_CRATES@);
    assert(core =~= seq!["axaddrspace"@, "axvmconfig"@, "axhvc"@, "axvcpu"@, "axvisor_api"@, "axdevice_base"@, "axdevice"@, "axvm"@]);
    assert(arm =~= seq!["arm_vcpu"@, "arm_vgic"@]);
    assert(x86 =~= seq!["x86_vcpu"@, "x86_vlapic"@]);
    assert(riscv =~= seq!["riscv_vcpu"@, "riscv-h"@]);
    assert(Seq::<Seq<char>>::empty().to_set() =~= Set::empty());
    assert(names(SUBMODULE_CRATES@).to_set() =~= core.to_set() + arm.to_set() + x86.to_set() + riscv.to_set());
    assert forall|i: int, j: int| 0 <= i < core.len() && 0 <= j < core.len() && i != j implies core[i] != core[j] by {}
}

} // verus!
