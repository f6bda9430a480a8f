//! Permission bits of a filesystem entry.

use vstd::prelude::*;

verus! {

/// Every bit that a file mode can carry: the nine `rwx` bits for owner, group
/// and others, then set-user-id, set-group-id and the sticky bit.
pub const MODE_MASK: u32 = 0o7777;

/// The mode a FIFO is created with when the caller names none: `rw-rw----`.
pub const DEFAULT_FIFO_MODE: u32 = 0o660;

/// Calls `nix::sys::stat::Mode::from_bits_truncate` and reads the bits of the
/// mode it built.
///
/// Trusted: the result is `bits` with every bit cleared that is not one of
/// nix's `Mode` flags. Those flags are `S_IRWXU`, `S_IRWXG`, `S_IRWXO`,
/// `S_ISUID`, `S_ISGID` and `S_ISVTX` with their single-bit parts, which
/// together make up `MODE_MASK`.
#[verifier::external_body]
fn nix_truncate_mode(bits: u32) -> (kept: u32)
    ensures
        kept == bits & MODE_MASK,
{
    nix::sys::stat::Mode::from_bits_truncate(bits).bits()
}

/// A set of permission bits that a file mode can hold.
#[derive(Clone, Copy, Debug, PartialEq, Eq, Structural)]
pub struct Permissions {
    bits: u32,
}

impl View for Permissions {
    type V = u32;

    closed spec fn view(&self) -> u32 {
        self.bits
    }
}

impl Permissions {
    /// No bit outside `MODE_MASK` is set.
    #[verifier::type_invariant]
    pub closed spec fn well_formed(self) -> bool {
        self.bits & MODE_MASK == self.bits
    }

    /// The permissions that `bits` names, dropping every bit that no file
    /// mode carries.
    pub fn from_bits_truncate(bits: u32) -> (perms: Permissions)
        ensures
            perms@ == bits & MODE_MASK,
    {
        let kept = nix_truncate_mode(bits);
        assert((bits & MODE_MASK) & MODE_MASK == bits & MODE_MASK) by (bit_vector);
        Permissions { bits: kept }
    }

    /// The permissions of a FIFO created without an explicit mode.
    pub fn fifo_default() -> (perms: Permissions)
        ensures
            perms@ == DEFAULT_FIFO_MODE,
    {
        assert(DEFAULT_FIFO_MODE & MODE_MASK == DEFAULT_FIFO_MODE) by (bit_vector);
        Permissions::from_bits_truncate(DEFAULT_FIFO_MODE)
    }

    /// The bits, as the system call takes them.
    pub fn bits(&self) -> (bits: u32)
        ensures
            bits == self@,
            bits & MODE_MASK == bits,
    {
        proof {
            use_type_invariant(self);
        }
        self.bits
    }
}

} // verus!
