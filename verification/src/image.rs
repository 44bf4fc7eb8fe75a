//! The identity of the system images: where the kernel, the initrd and the
//! kernel modules of a system resolve to.

use vstd::prelude::*;

verus! {

/// The resolved image paths of the system the machine was booted from and
/// of the system profile, each as the bytes the resolver printed.
#[derive(Debug, Clone, PartialEq, Eq)]
pub struct SystemImageIdentity {
    pub booted: Vec<u8>,
    pub built: Vec<u8>,
}

/// A `SystemImageIdentity` as two sequences of bytes.
pub struct IdentityView {
    pub booted: Seq<u8>,
    pub built: Seq<u8>,
}

impl IdentityView {
    /// The profile resolves to other images than those booted.
    pub open spec fn changed(self) -> bool {
        self.booted != self.built
    }
}

impl View for SystemImageIdentity {
    type V = IdentityView;

    open spec fn view(&self) -> IdentityView {
        IdentityView { booted: self.booted@, built: self.built@ }
    }
}

/// Whether the images of the system profile differ from those the machine
/// was booted from. The two are compared byte for byte, and any difference
/// counts.
pub fn has_image_changed(identity: &SystemImageIdentity) -> (changed: bool)
    ensures
        changed == identity@.changed(),
{
    let booted = &identity.booted;
    let built = &identity.built;
    if booted.len() != built.len() {
        return true;
    }
    let mut i: usize = 0;
    while i < booted.len()
        invariant
            i <= booted.len(),
            booted.len() == built.len(),
            booted@ == identity@.booted,
            built@ == identity@.built,
            forall|k: int| 0 <= k < i ==> booted@[k] == built@[k],
        decreases booted.len() - i,
    {
        if booted[i] != built[i] {
            assert(identity@.booted[i as int] != identity@.built[i as int]);
            return true;
        }
        i = i + 1;
    }
    assert(identity@.booted =~= identity@.built);
    false
}

} // verus!
