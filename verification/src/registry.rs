//! The global registry: the set of server-advertised interfaces and the
//! `bind` operation that turns an advertisement into a client-side handle.
//!
//! The server announces each global as a `GlobalEntry` during initial
//! synchronization and may remove one later; `bind` succeeds exactly when
//! some announced entry matches the requested interface at or above the
//! requested minimum version, and it always picks the earliest such entry.

use vstd::prelude::*;

use crate::error::SessionError;

verus! {

/// The interfaces this client knows how to bind.
#[derive(Clone, Copy, Debug, PartialEq, Eq, Structural)]
pub enum Interface {
    Compositor,
    Shell,
    Shm,
    Seat,
    Output,
}

/// One server-advertised global: a numeric name unique on the wire, the
/// interface it implements, and the highest version the server offers.
#[derive(Clone, Copy, Debug, PartialEq, Eq, Structural)]
pub struct GlobalEntry {
    pub numeric_name: u32,
    pub interface: Interface,
    pub version: u32,
}

/// A client-side handle produced by binding a `GlobalEntry`. Immutable once
/// bound; it records which entry it came from.
#[derive(Clone, Copy, Debug, PartialEq, Eq, Structural)]
pub struct BoundCapability {
    pub numeric_name: u32,
    pub interface: Interface,
    pub version: u32,
}

/// Whether entry `e` satisfies a bind request for `interface` at minimum
/// version `min_version`.
pub open spec fn entry_matches(e: GlobalEntry, interface: Interface, min_version: u32) -> bool {
    e.interface == interface && e.version >= min_version
}

/// Whether some entry of `entries` satisfies the bind request.
pub open spec fn has_matching_entry(
    entries: Seq<GlobalEntry>,
    interface: Interface,
    min_version: u32,
) -> bool {
    exists|i: int| 0 <= i < entries.len() && entry_matches(entries[i], interface, min_version)
}

/// The handle that binding entry `e` produces.
pub open spec fn capability_of(e: GlobalEntry) -> BoundCapability {
    BoundCapability { numeric_name: e.numeric_name, interface: e.interface, version: e.version }
}

/// The index of the earliest entry carrying numeric name `name`, or `-1`
/// if no entry carries it.
pub open spec fn spec_find_name(entries: Seq<GlobalEntry>, name: u32) -> int
    decreases entries.len(),
{
    if entries.len() == 0 {
        -1
    } else if entries[0].numeric_name == name {
        0
    } else {
        let r = spec_find_name(entries.drop_first(), name);
        if r < 0 {
            -1
        } else {
            r + 1
        }
    }
}

/// The registry contents after a removal notification for `name`: the
/// earliest entry carrying it leaves; none carrying it, no change.
pub open spec fn spec_removed(entries: Seq<GlobalEntry>, name: u32) -> Seq<GlobalEntry> {
    let i = spec_find_name(entries, name);
    if i < 0 {
        entries
    } else {
        entries.remove(i)
    }
}

/// `spec_find_name` returns exactly the earliest carrying index: if no
/// entry before `i` carries `name` and entry `i` does (or no entry at all
/// does, with `i` the length), the search lands on `i` (or misses).
proof fn lemma_find_name_at(entries: Seq<GlobalEntry>, name: u32, i: int)
    requires
        0 <= i <= entries.len(),
        forall|j: int| 0 <= j < i ==> entries[j].numeric_name != name,
        i < entries.len() ==> entries[i].numeric_name == name,
    ensures
        i < entries.len() ==> spec_find_name(entries, name) == i,
        i == entries.len() ==> spec_find_name(entries, name) == -1,
    decreases entries.len(),
{
    if entries.len() == 0 {
    } else if entries[0].numeric_name == name {
        assert(i == 0);
    } else {
        let tail = entries.drop_first();
        assert(forall|j: int| 0 <= j < tail.len() ==> tail[j] == entries[j + 1]);
        lemma_find_name_at(tail, name, i - 1);
    }
}

/// The registry of currently announced globals, in announcement order.
pub struct Registry {
    entries: Vec<GlobalEntry>,
}

impl View for Registry {
    type V = Seq<GlobalEntry>;

    closed spec fn view(&self) -> Seq<GlobalEntry> {
        self.entries@
    }
}

impl Registry {
    /// An empty registry: nothing announced yet.
    pub fn new() -> (r: Registry)
        ensures
            r@ == Seq::<GlobalEntry>::empty(),
    {
        Registry { entries: Vec::new() }
    }

    /// How many globals are currently announced.
    pub fn len(&self) -> (n: usize)
        ensures
            n == self@.len(),
    {
        self.entries.len()
    }

    /// The entry at position `i` of the announcement order.
    pub fn entry_at(&self, i: usize) -> (e: GlobalEntry)
        requires
            i < self@.len(),
        ensures
            e == self@[i as int],
    {
        self.entries[i]
    }

    /// Record a server announcement. Entries are kept in announcement order.
    pub fn announce(&mut self, entry: GlobalEntry)
        ensures
            final(self)@ == old(self)@.push(entry),
    {
        self.entries.push(entry);
    }

    /// Handle a server removal notification for numeric name `numeric_name`:
    /// the earliest entry carrying that name leaves the registry and is
    /// returned; if no entry carries it, the registry is unchanged.
    pub fn remove(&mut self, numeric_name: u32) -> (removed: Option<GlobalEntry>)
        ensures
            final(self)@ == spec_removed(old(self)@, numeric_name),
            removed == (if spec_find_name(old(self)@, numeric_name) >= 0 {
                Some(old(self)@[spec_find_name(old(self)@, numeric_name)])
            } else {
                None::<GlobalEntry>
            }),
    {
        let mut i: usize = 0;
        while i < self.entries.len()
            invariant
                i <= self.entries.len(),
                self.entries@ == old(self)@,
                forall|j: int| 0 <= j < i ==> self.entries@[j].numeric_name != numeric_name,
            decreases self.entries.len() - i,
        {
            if self.entries[i].numeric_name == numeric_name {
                proof {
                    lemma_find_name_at(old(self)@, numeric_name, i as int);
                }
                let e = self.entries.remove(i);
                return Some(e);
            }
            i = i + 1;
        }
        proof {
            lemma_find_name_at(old(self)@, numeric_name, old(self)@.len() as int);
        }
        None
    }

    /// Bind the requested interface at minimum version `min_version`.
    ///
    /// Succeeds if and only if some announced entry offers `interface` at
    /// version `min_version` or above, and then returns the handle of the
    /// earliest such entry; otherwise fails with `CapabilityUnavailable`.
    pub fn bind(&self, interface: Interface, min_version: u32) -> (r: Result<
        BoundCapability,
        SessionError,
    >)
        ensures
            r is Ok <==> has_matching_entry(self@, interface, min_version),
            match r {
                Ok(cap) => exists|i: int|
                    0 <= i < self@.len() && entry_matches(#[trigger] self@[i], interface, min_version)
                        && cap == capability_of(self@[i])
                        && (forall|j: int| 0 <= j < i
                            ==> !entry_matches(self@[j], interface, min_version)),
                Err(e) => e == SessionError::CapabilityUnavailable,
            },
    {
        let mut i: usize = 0;
        while i < self.entries.len()
            invariant
                i <= self.entries.len(),
                forall|j: int| 0 <= j < i ==> !entry_matches(self@[j], interface, min_version),
            decreases self.entries.len() - i,
        {
            let e = self.entries[i];
            if e.interface == interface && e.version >= min_version {
                let cap = BoundCapability {
                    numeric_name: e.numeric_name,
                    interface: e.interface,
                    version: e.version,
                };
                proof {
                    assert(entry_matches(self@[i as int], interface, min_version));
                    assert(cap == capability_of(self@[i as int]));
                    assert(exists|k: int|
                        0 <= k < self@.len() && entry_matches(
                            #[trigger] self@[k],
                            interface,
                            min_version,
                        ) && cap == capability_of(self@[k]) && (forall|j: int|
                            0 <= j < k ==> !entry_matches(self@[j], interface, min_version)))
                        by {
                        assert(0 <= i < self@.len() && entry_matches(
                            self@[i as int],
                            interface,
                            min_version,
                        ) && cap == capability_of(self@[i as int]) && (forall|j: int|
                            0 <= j < i ==> !entry_matches(self@[j], interface, min_version)));
                    }
                }
                return Ok(cap);
            }
            i = i + 1;
        }
        Err(SessionError::CapabilityUnavailable)
    }
}

} // verus!
