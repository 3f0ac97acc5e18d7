//! The record that the daemon publishes: its process identifier and version tag.
use vstd::prelude::*;

verus! {

/// Most bytes that a version tag holds.
pub const VERSION_CAPACITY: usize = 11;

/// A process identifier, as the operating system gives it.
#[derive(Clone, Copy, Debug, PartialEq, Eq, Structural)]
pub struct Pid(pub i32);

/// A version tag of at most `VERSION_CAPACITY` bytes.
#[derive(Clone, Debug)]
pub struct VersionTag {
    text: Vec<u8>,
}

impl View for VersionTag {
    type V = Seq<u8>;

    closed spec fn view(&self) -> Seq<u8> {
        self.text@
    }
}

impl VersionTag {
    pub open spec fn wf(&self) -> bool {
        self@.len() <= VERSION_CAPACITY
    }

    /// The tag with the given bytes; `None` where they exceed the capacity.
    pub fn new(text: &[u8]) -> (r: Option<VersionTag>)
        ensures
            r is Some <==> text@.len() <= VERSION_CAPACITY,
            r matches Some(t) ==> t@ == text@ && t.wf(),
    {
        if text.len() > VERSION_CAPACITY {
            return None;
        }
        let mut bytes: Vec<u8> = Vec::new();
        let mut i: usize = 0;
        while i < text.len()
            invariant
                i <= text@.len(),
                bytes@ == text@.subrange(0, i as int),
            decreases text@.len() - i,
        {
            bytes.push(text[i]);
            i = i + 1;
            assert(bytes@ =~= text@.subrange(0, i as int));
        }
        assert(bytes@ =~= text@);
        Some(VersionTag { text: bytes })
    }

    pub fn as_bytes(&self) -> (r: &[u8])
        ensures
            r@ == self@,
    {
        self.text.as_slice()
    }

    /// Whether two tags hold the same bytes.
    pub fn same_as(&self, other: &VersionTag) -> (r: bool)
        ensures
            r == (self@ == other@),
    {
        let a = self.text.as_slice();
        let b = other.text.as_slice();
        if a.len() != b.len() {
            return false;
        }
        let mut i: usize = 0;
        while i < a.len()
            invariant
                a@ == self@,
                b@ == other@,
                a@.len() == b@.len(),
                i <= a@.len(),
                forall|k: int| 0 <= k < i ==> a@[k] == b@[k],
            decreases a@.len() - i,
        {
            if a[i] != b[i] {
                return false;
            }
            i = i + 1;
        }
        assert(a@ =~= b@);
        true
    }
}

/// The liveness and identity record: which process publishes, and its version.
#[derive(Clone, Debug)]
pub struct Heartbeat {
    pub owner_pid: Pid,
    pub version: VersionTag,
}

impl Heartbeat {
    pub fn new(owner_pid: Pid, version: VersionTag) -> (r: Heartbeat)
        ensures
            r.owner_pid == owner_pid,
            r.version@ == version@,
    {
        Heartbeat { owner_pid, version }
    }
}

} // verus!
