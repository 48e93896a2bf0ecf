//! Throughput benchmark core for inter-process data transfer.
//!
//! A writer process pushes a fixed volume of bytes to a reader process over a
//! unidirectional byte channel, either by conventional buffered writes or by a
//! nonblocking zero-copy page handoff. This crate holds the verified core:
//! buffer preparation and the deterministic fill pattern, the transfer-loop
//! state machines (including the writer's double-buffer alternation), and the
//! throughput accounting. Process spawning, the actual channel calls and the
//! console output live outside the library.

use vstd::prelude::*;
use vstd::string::StrSliceExecFns;

pub mod account;
pub mod buffer;
pub mod engine;

use crate::account::GIB;

verus! {

/// The mechanism used to move bytes between the two processes.
#[derive(Clone, Copy, Debug, PartialEq, Eq, Structural)]
pub enum Mode {
    /// Blocking writes and reads through user-space buffers.
    Pipe,
    /// Nonblocking zero-copy page handoff into the channel.
    Vmsplice,
}

impl Mode {
    /// The lowercase token naming this mode on a command line.
    pub fn token(&self) -> (s: &'static str)
        ensures
            *self is Pipe ==> s@ == "pipe"@,
            *self is Vmsplice ==> s@ == "vmsplice"@,
    {
        match self {
            Mode::Pipe => "pipe",
            Mode::Vmsplice => "vmsplice",
        }
    }

    /// Resolves a command-line token to a mode. Exactly the two lowercase
    /// tokens are recognized; any other string is rejected.
    pub fn from_str(s: &str) -> (m: Result<Mode, ()>)
        ensures
            m == Ok::<Mode, ()>(Mode::Pipe) <==> s@ == "pipe"@,
            m == Ok::<Mode, ()>(Mode::Vmsplice) <==> s@ == "vmsplice"@,
            m is Err <==> (s@ != "pipe"@ && s@ != "vmsplice"@),
    {
        proof {
            reveal_strlit("pipe");
            reveal_strlit("vmsplice");
        }
        let n = s.unicode_len();
        if n == 4 && s.get_char(0) == 'p' && s.get_char(1) == 'i' && s.get_char(2) == 'p'
            && s.get_char(3) == 'e' {
            proof {
                assert(s@ =~= "pipe"@);
            }
            Ok(Mode::Pipe)
        } else if n == 8 && s.get_char(0) == 'v' && s.get_char(1) == 'm' && s.get_char(2) == 's'
            && s.get_char(3) == 'p' && s.get_char(4) == 'l' && s.get_char(5) == 'i'
            && s.get_char(6) == 'c' && s.get_char(7) == 'e' {
            proof {
                assert(s@ =~= "vmsplice"@);
            }
            Ok(Mode::Vmsplice)
        } else {
            Err(())
        }
    }
}

/// The resolved run configuration: constructed once at startup, read-only
/// thereafter, and shared by both the buffer provisioner and the transfer
/// engine. The writer and the reader must resolve to identical values before
/// the transfer begins.
#[derive(Clone, Copy, Debug, PartialEq, Eq, Structural)]
pub struct TransferConfig {
    /// The transfer mechanism.
    pub mode: Mode,
    /// Bytes moved per transfer unit.
    pub block_size: usize,
    /// The writer's total volume target, in bytes.
    pub volume_bytes: usize,
    /// Diagnostic switch: when set, the reader skips its internal copy step.
    pub disable_memcpy: bool,
    /// Whether buffers are backed by large virtual-memory pages.
    pub use_huge_pages: bool,
}

impl TransferConfig {
    /// A usable configuration: a positive block size, and a volume target
    /// that one extra block cannot push past the machine's address range.
    pub open spec fn wf(self) -> bool {
        &&& self.block_size >= 1
        &&& self.volume_bytes <= usize::MAX - self.block_size
    }

    /// Resolves the command-line values into a configuration; the volume is
    /// given in whole gibibytes and becomes a byte count here.
    pub fn new(
        mode: Mode,
        gibs: usize,
        block_size: usize,
        disable_memcpy: bool,
        use_huge_pages: bool,
    ) -> (cfg: TransferConfig)
        requires
            block_size >= 1,
            gibs * GIB + block_size <= usize::MAX,
        ensures
            cfg.wf(),
            cfg.mode == mode,
            cfg.block_size == block_size,
            cfg.volume_bytes == gibs * GIB,
            cfg.disable_memcpy == disable_memcpy,
            cfg.use_huge_pages == use_huge_pages,
    {
        TransferConfig {
            mode,
            block_size,
            volume_bytes: gibs * GIB,
            disable_memcpy,
            use_huge_pages,
        }
    }
}

} // verus!
