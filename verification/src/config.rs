//! The VM configuration: kernel path, command line and its guest address,
//! memory size and vCPU count. Immutable once built.

use vstd::prelude::*;
use vstd::utf8::encode_utf8;
use crate::errors::Error;

verus! {

/// Number of virtual CPUs a configuration gets when none is asked for.
pub const DEFAULT_VCPUS: u8 = 1;

/// Guest memory in MiB a configuration gets when none is asked for.
pub const DEFAULT_MEMORY: u64 = 512;

/// Guest-physical address the command line is placed at.
pub const CMDLINE_OFFSET: u64 = 0x20000;

/// Upper bound on the command line, terminating NUL included.
pub const CMDLINE_MAX_SIZE: usize = 0x10000;

/// The default Linux boot string: serial console, reboot by keyboard
/// controller, no module probing, and the legacy input auto-probes of the
/// i8042 switched off.
pub open spec fn spec_default_cmdline() -> Seq<char> {
    "console=ttyS0 reboot=k panic=1 nomodules i8042.noaux i8042.nomux i8042.nopnp i8042.dumbkbd"@
}

/// The default Linux boot string (see [`spec_default_cmdline`]).
pub fn default_cmdline() -> (r: &'static str)
    ensures
        r@ == spec_default_cmdline(),
{
    "console=ttyS0 reboot=k panic=1 nomodules i8042.noaux i8042.nomux i8042.nopnp i8042.dumbkbd"
}

/// What a VM is built from: the kernel image path, the command line and
/// where it goes, the memory size in MiB, and the vCPU count.
pub struct VmConfig {
    pub kernel_path: String,
    pub cmdline: Option<String>,
    pub cmdline_addr: u64,
    pub memory_size: u64,
    pub vcpu_count: u8,
}

/// The command line as NUL-terminated bytes is well formed: present, free
/// of interior NULs, and within the size bound with its terminator.
pub open spec fn spec_cmdline_ok(c: VmConfig) -> bool {
    match c.cmdline {
        Some(s) => {
            let b = encode_utf8(s@);
            &&& forall|i: int| 0 <= i < b.len() ==> b[i] != 0
            &&& b.len() + 1 <= CMDLINE_MAX_SIZE
        },
        None => false,
    }
}

/// The NUL-terminated bytes of the command line (meaningful under
/// [`spec_cmdline_ok`]).
pub open spec fn spec_cmdline_bytes(c: VmConfig) -> Seq<u8> {
    match c.cmdline {
        Some(s) => encode_utf8(s@).push(0),
        None => Seq::empty(),
    }
}

impl VmConfig {
    /// A configuration for `kernel_path` with the given vCPU count and
    /// memory size; everything else takes its default.
    pub fn new(kernel_path: &str, vcpus: u8, memory_size: u64) -> (r: Result<VmConfig, Error>)
        ensures
            match r {
                Ok(c) => {
                    &&& c.kernel_path@ == kernel_path@
                    &&& c.cmdline matches Some(s) && s@ == spec_default_cmdline()
                    &&& c.cmdline_addr == CMDLINE_OFFSET
                    &&& c.memory_size == memory_size
                    &&& c.vcpu_count == vcpus
                },
                Err(_) => false,
            },
    {
        Ok(
            VmConfig {
                kernel_path: kernel_path.to_owned(),
                cmdline: Some(default_cmdline().to_owned()),
                cmdline_addr: CMDLINE_OFFSET,
                memory_size,
                vcpu_count: vcpus,
            },
        )
    }

    /// The command line as the NUL-terminated byte string to place at
    /// `cmdline_addr`.
    ///
    /// Succeeds exactly when a command line is present, holds no interior
    /// NUL, and fits the size bound with its terminator.
    pub fn cmdline_bytes(&self) -> (r: Result<Vec<u8>, Error>)
        ensures
            r matches Ok(_) <==> spec_cmdline_ok(*self),
            match r {
                Ok(v) => v@ == spec_cmdline_bytes(*self),
                Err(e) => e matches Error::CmdLine,
            },
    {
        let s = match &self.cmdline {
            Some(s) => s,
            None => {
                return Err(Error::CmdLine);
            },
        };
        let bytes: &[u8] = s.as_str().as_bytes();
        proof {
            assert(bytes@ == encode_utf8(s@));
        }
        let n = bytes.len();
        if n > CMDLINE_MAX_SIZE - 1 {
            proof {
                assert(encode_utf8(s@).len() + 1 > CMDLINE_MAX_SIZE);
                assert(!spec_cmdline_ok(*self));
            }
            return Err(Error::CmdLine);
        }
        let mut v: Vec<u8> = Vec::new();
        let mut i: usize = 0;
        while i < n
            invariant
                n == bytes@.len(),
                i <= n,
                self.cmdline == Some(*s),
                bytes@ == encode_utf8(s@),
                v@.len() == i,
                forall|j: int| 0 <= j < i ==> v@[j] == bytes@[j] && bytes@[j] != 0,
            decreases n - i,
        {
            let b = bytes[i];
            if b == 0 {
                proof {
                    assert(encode_utf8(s@)[i as int] == 0);
                    assert(!spec_cmdline_ok(*self));
                }
                return Err(Error::CmdLine);
            }
            v.push(b);
            i = i + 1;
        }
        v.push(0);
        proof {
            assert(v@ =~= bytes@.push(0));
        }
        Ok(v)
    }
}

impl Default for VmConfig {
    /// The default configuration: no kernel path, the default command line
    /// at its default address, default memory size and one vCPU.
    fn default() -> (r: VmConfig)
        ensures
            r.kernel_path@.len() == 0,
            r.cmdline matches Some(s) && s@ == spec_default_cmdline(),
            r.cmdline_addr == CMDLINE_OFFSET,
            r.memory_size == DEFAULT_MEMORY,
            r.vcpu_count == DEFAULT_VCPUS,
    {
        VmConfig {
            kernel_path: String::new(),
            cmdline: Some(default_cmdline().to_owned()),
            cmdline_addr: CMDLINE_OFFSET,
            memory_size: DEFAULT_MEMORY,
            vcpu_count: DEFAULT_VCPUS,
        }
    }
}

} // verus!
