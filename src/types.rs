use vstd::prelude::*;
use std::task::Waker;

verus! {

/// The type of I/O operation requested by the host.
#[derive(Debug, Clone, Copy, PartialEq, Eq, Structural)]
pub enum IoOp {
    /// Read data from the namespace.
    Read,
    /// Write data to the namespace.
    Write,
    /// Flush cached data to persistent media.
    Flush,
    /// Discard blocks without writing them.
    Discard,
}

/// The label of each operation, as used for metrics and logging.
pub open spec fn op_label(op: IoOp) -> Seq<char> {
    match op {
        IoOp::Read => "read"@,
        IoOp::Write => "write"@,
        IoOp::Flush => "flush"@,
        IoOp::Discard => "discard"@,
    }
}

impl IoOp {
    /// Returns the lower-case label used for metrics labels and logging.
    pub fn as_str(&self) -> (r: &'static str)
        ensures
            r@ == op_label(*self),
    {
        match self {
            IoOp::Read => "read",
            IoOp::Write => "write",
            IoOp::Flush => "flush",
            IoOp::Discard => "discard",
        }
    }
}

/// Flags that modify the I/O request semantics.
#[derive(Debug, Clone, Copy, PartialEq, Eq, Structural, Default)]
pub struct IoFlags {
    /// Force unit access: the executor bypasses intermediate caches.
    pub fua: bool,
    /// Order this request after those queued before it on the same namespace.
    pub barrier: bool,
}

/// The completion handle of an I/O request.
pub type IoCompletion = Waker;

/// One I/O request in flight between the submission path and the executor.
///
/// All fields are fixed at construction; the completion handle is the one part
/// that is consumed, at most once, through `take_completion`.
pub struct IoDesc {
    /// Operation type.
    pub op: IoOp,
    /// Namespace identifier the operation targets.
    pub namespace_id: u32,
    /// Starting logical block address.
    pub lba: u64,
    /// Length of the transfer in logical blocks.
    pub length: u32,
    /// Additional I/O flags.
    pub flags: IoFlags,
    /// Completion handle used to resume whoever waits on this I/O.
    pub completion: Option<IoCompletion>,
}

impl IoDesc {
    /// Constructs a descriptor from its parts.
    pub fn new(
        op: IoOp,
        namespace_id: u32,
        lba: u64,
        length: u32,
        flags: IoFlags,
        completion: Option<IoCompletion>,
    ) -> (r: Self)
        ensures
            r.op == op,
            r.namespace_id == namespace_id,
            r.lba == lba,
            r.length == length,
            r.flags == flags,
            r.completion == completion,
    {
        IoDesc { op, namespace_id, lba, length, flags, completion }
    }

    /// Whether the completion handle is still held.
    pub fn has_completion(&self) -> (r: bool)
        ensures
            r == self.completion is Some,
    {
        self.completion.is_some()
    }

    /// Takes the completion handle out of the descriptor; a second take finds
    /// nothing. The other fields are left as they were.
    pub fn take_completion(&mut self) -> (r: Option<IoCompletion>)
        ensures
            r == old(self).completion,
            final(self).completion is None,
            final(self).op == old(self).op,
            final(self).namespace_id == old(self).namespace_id,
            final(self).lba == old(self).lba,
            final(self).length == old(self).length,
            final(self).flags == old(self).flags,
    {
        let mut out: Option<IoCompletion> = None;
        std::mem::swap(&mut out, &mut self.completion);
        out
    }
}

} // verus!
