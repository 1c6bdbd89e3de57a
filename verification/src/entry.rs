//! The hand-off from the relocated inner loader into the kernel.

use vstd::prelude::*;

verus! {

/// What a CPU family offers to the hand-off: its primary entry.
///
/// One type per family implements it, and the family is chosen when the
/// kernel is built, so the call is never dispatched at run time.
pub trait ArchIf<P> {
    /// Takes over the boot with the payload of the inner loader. Any
    /// payload is taken.
    fn primary_entry(self, boot_info: P);
}

/// The entry that the inner loader calls once it has relocated the kernel.
///
/// It hands the payload, as it came, to the family's primary entry, and
/// does nothing else: what holds afterwards is what that one call brings
/// about. The family is used up by the call, so it is entered once.
pub fn __vma_relocate_entry<P, A: ArchIf<P>>(arch: A, boot_info: P)
    ensures
        call_ensures(A::primary_entry, (arch, boot_info), ()),
{
    arch.primary_entry(boot_info);
}

} // verus!
