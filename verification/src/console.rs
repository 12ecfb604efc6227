//! Reference-counted console connection table.
//!
//! A console connection between two VMs is a pair of fixed-size directional
//! shared buffers.  The table stores the two mirrored directional views of a
//! connection as one atomic record addressable from either endpoint, so the
//! mirror entries can never diverge; every operation states its effect as a
//! pure step function over the table's abstract sequence and the allocator
//! model, and the laws at the end of this module are proved over those
//! step functions.

use vstd::prelude::*;

use crate::HvError;
use crate::PAGE_SIZE;
use crate::palloc::AllocModel;
use crate::palloc::PageAllocator;
use crate::palloc::alloc_step;
use crate::palloc::alloc_wf;
use crate::palloc::can_alloc;
use crate::palloc::free_step;
use crate::palloc::live_idx;
use crate::palloc::lemma_live_idx;
use crate::palloc::lemma_live_idx_push;

verus! {

/// A page-aligned, exclusively owned host memory region tagged with the
/// VM that owns it and the VM it is shared with.  Immutable after
/// allocation.
#[derive(Clone, Copy, PartialEq, Eq, Structural, Debug)]
pub struct ConsoleBuffer {
    pub owner_vm_id: usize,
    pub peer_vm_id: usize,
    pub buffer_base: usize,
    pub buffer_size: usize,
}

/// Number of pages that cover `size` bytes.
pub open spec fn frames_of(size: usize) -> int {
    (size as int) / (PAGE_SIZE as int) + if (size as int) % (PAGE_SIZE as int) == 0 {
        0int
    } else {
        1int
    }
}

/// The allocator state and outcome of allocating one console buffer of
/// `size` bytes for `owner` shared with `peer`: the buffer takes the
/// page-rounded range cut at the allocator's watermark, or the request
/// fails with [`HvError::OutOfMemory`] and the allocator is unchanged.
pub open spec fn cb_alloc_step(al: AllocModel, size: usize, owner: usize, peer: usize) -> (
    AllocModel,
    Result<ConsoleBuffer, HvError>,
) {
    if !can_alloc(al, frames_of(size) as usize) {
        (al, Err(HvError::OutOfMemory))
    } else {
        (
            alloc_step(al, frames_of(size) as usize),
            Ok(
                ConsoleBuffer {
                    owner_vm_id: owner,
                    peer_vm_id: peer,
                    buffer_base: al.next,
                    buffer_size: (frames_of(size) * PAGE_SIZE) as usize,
                },
            ),
        )
    }
}

impl ConsoleBuffer {
    /// Allocate a buffer of at least `buffer_size` bytes, rounded up to
    /// the page granularity, owned by `owner_vm_id` and shared with
    /// `peer_vm_id`.  No partial allocation is retained on failure.
    pub fn allocate(
        pal: &mut PageAllocator,
        buffer_size: usize,
        owner_vm_id: usize,
        peer_vm_id: usize,
    ) -> (r: Result<ConsoleBuffer, HvError>)
        requires
            alloc_wf(old(pal)@),
        ensures
            alloc_wf(final(pal)@),
            final(pal)@ == cb_alloc_step(old(pal)@, buffer_size, owner_vm_id, peer_vm_id).0,
            r == cb_alloc_step(old(pal)@, buffer_size, owner_vm_id, peer_vm_id).1,
    {
        proof {
            assert(buffer_size as int / (PAGE_SIZE as int) <= buffer_size) by (nonlinear_arith);
        }
        let num_frames: usize = buffer_size / PAGE_SIZE + if buffer_size % PAGE_SIZE == 0 {
            0
        } else {
            1
        };
        let base = match pal.allocate(num_frames) {
            Ok(b) => b,
            Err(e) => {
                return Err(e);
            },
        };
        Ok(
            ConsoleBuffer {
                owner_vm_id,
                peer_vm_id,
                buffer_base: base,
                buffer_size: num_frames * PAGE_SIZE,
            },
        )
    }

    /// Return the exact page range computed from `buffer_size` to the
    /// allocator.  The connection table is the only caller, and it erases
    /// the owning entry in the same step, which prevents double release.
    pub fn dealloc(&self, pal: &mut PageAllocator)
        requires
            alloc_wf(old(pal)@),
        ensures
            alloc_wf(final(pal)@),
            final(pal)@ == free_step(old(pal)@, self.buffer_base),
    {
        proof {
            assert(self.buffer_size as int / (PAGE_SIZE as int) <= self.buffer_size)
                by (nonlinear_arith);
        }
        let num_frames: usize = self.buffer_size / PAGE_SIZE + if self.buffer_size % PAGE_SIZE
            == 0 {
            0
        } else {
            1
        };
        pal.free(self.buffer_base, num_frames);
    }
}

/// One console connection: the two mirrored directional entries for a VM
/// pair, kept as a single record so they stay consistent, with one shared
/// reference count.  `buf1` carries bytes from `vm1` to `vm2`, `buf2` the
/// other way.
#[derive(Clone, Copy, PartialEq, Eq, Structural, Debug)]
pub struct ConsoleConnectionEntry {
    pub vm1: usize,
    pub vm2: usize,
    pub buf1: ConsoleBuffer,
    pub buf2: ConsoleBuffer,
    pub ref_count: usize,
}

/// Whether `e` is the connection of the unordered pair `{a, b}`.
pub open spec fn entry_matches(e: ConsoleConnectionEntry, a: usize, b: usize) -> bool {
    (e.vm1 == a && e.vm2 == b) || (e.vm1 == b && e.vm2 == a)
}

/// Index of the connection of `{a, b}` in `s`, or `-1` if none.
pub open spec fn entry_idx(s: Seq<ConsoleConnectionEntry>, a: usize, b: usize) -> int
    decreases s.len(),
{
    if s.len() == 0 {
        -1
    } else if entry_matches(s[0], a, b) {
        0
    } else {
        let t = entry_idx(s.drop_first(), a, b);
        if t < 0 {
            -1
        } else {
            t + 1
        }
    }
}

/// Internal consistency of one record: distinct endpoints, a live
/// reference count, buffers tagged with the two endpoints in both
/// directions, and distinct non-zero bases.
pub open spec fn entry_wf(e: ConsoleConnectionEntry) -> bool {
    &&& e.vm1 != e.vm2
    &&& e.ref_count >= 1
    &&& e.buf1.owner_vm_id == e.vm1
    &&& e.buf1.peer_vm_id == e.vm2
    &&& e.buf2.owner_vm_id == e.vm2
    &&& e.buf2.peer_vm_id == e.vm1
    &&& e.buf1.buffer_base != 0
    &&& e.buf2.buffer_base != 0
    &&& e.buf1.buffer_base != e.buf2.buffer_base
}

/// Well-formedness of the whole table: every record is consistent and no
/// two records claim the same VM pair, in either orientation.
pub open spec fn table_wf(s: Seq<ConsoleConnectionEntry>) -> bool {
    &&& forall|i: int| #![trigger s[i]] 0 <= i < s.len() ==> entry_wf(s[i])
    &&& forall|i: int, j: int| #![trigger s[i], s[j]]
        0 <= i < j < s.len() ==> !entry_matches(s[j], s[i].vm1, s[i].vm2)
}

/// The buffers of `e` as seen from endpoint `a`: first the buffer that
/// carries bytes away from `a`, then the one that carries bytes to `a`.
pub open spec fn oriented_bufs(e: ConsoleConnectionEntry, a: usize) -> (
    ConsoleBuffer,
    ConsoleBuffer,
) {
    if e.vm1 == a {
        (e.buf1, e.buf2)
    } else {
        (e.buf2, e.buf1)
    }
}

/// What a lookup of `(a, b)` observes: the buffer pair oriented from `a`,
/// or nothing.
pub open spec fn lookup_spec(s: Seq<ConsoleConnectionEntry>, a: usize, b: usize) -> Option<
    (ConsoleBuffer, ConsoleBuffer),
> {
    let i = entry_idx(s, a, b);
    if i < 0 {
        None
    } else {
        Some(oriented_bufs(s[i], a))
    }
}

/// A reference count one higher, saturating at the machine limit.
pub open spec fn rc_inc(rc: usize) -> usize {
    if rc == usize::MAX {
        rc
    } else {
        (rc + 1) as usize
    }
}

/// The table, the allocator and the result after `establish(vm1, vm2,
/// size)`: equal endpoints are rejected; an existing connection has its
/// count raised and its buffers returned without any allocation; a new
/// pair gets two fresh buffers and one record with count 1.  When the
/// second of the two fresh allocations fails the first range is released
/// again before the error propagates, so every range the allocator holds
/// is owned by a table entry.
pub open spec fn establish_step(
    s: Seq<ConsoleConnectionEntry>,
    al: AllocModel,
    vm1: usize,
    vm2: usize,
    size: usize,
) -> (Seq<ConsoleConnectionEntry>, AllocModel, Result<(ConsoleBuffer, ConsoleBuffer), HvError>) {
    if vm1 == vm2 {
        (s, al, Err(HvError::InvalidInput))
    } else {
        let i = entry_idx(s, vm1, vm2);
        if i >= 0 {
            let e = s[i];
            let e2 = ConsoleConnectionEntry {
                vm1: e.vm1,
                vm2: e.vm2,
                buf1: e.buf1,
                buf2: e.buf2,
                ref_count: rc_inc(e.ref_count),
            };
            (s.update(i, e2), al, Ok(oriented_bufs(e, vm1)))
        } else {
            let (al1, r1) = cb_alloc_step(al, size, vm1, vm2);
            match r1 {
                Err(e1) => (s, al1, Err(e1)),
                Ok(b1) => {
                    let (al2, r2) = cb_alloc_step(al1, size, vm2, vm1);
                    match r2 {
                        Err(e2) => (s, free_step(al2, b1.buffer_base), Err(e2)),
                        Ok(b2) => {
                            let ent = ConsoleConnectionEntry {
                                vm1,
                                vm2,
                                buf1: b1,
                                buf2: b2,
                                ref_count: 1,
                            };
                            (s.push(ent), al2, Ok((b1, b2)))
                        },
                    }
                },
            }
        }
    }
}

/// The table and the allocator after `remove(vm1, vm2)`: an absent pair
/// is a no-op; a count above one is lowered on the shared record; a count
/// of one releases both buffers to the allocator and erases the record,
/// which removes both mirrored directional entries at once.
pub open spec fn remove_step(
    s: Seq<ConsoleConnectionEntry>,
    al: AllocModel,
    vm1: usize,
    vm2: usize,
) -> (Seq<ConsoleConnectionEntry>, AllocModel) {
    let i = entry_idx(s, vm1, vm2);
    if i < 0 {
        (s, al)
    } else {
        let e = s[i];
        if e.ref_count > 1 {
            let e2 = ConsoleConnectionEntry {
                vm1: e.vm1,
                vm2: e.vm2,
                buf1: e.buf1,
                buf2: e.buf2,
                ref_count: (e.ref_count - 1) as usize,
            };
            (s.update(i, e2), al)
        } else {
            let al1 = free_step(al, e.buf1.buffer_base);
            let al2 = free_step(al1, e.buf2.buffer_base);
            (s.remove(i), al2)
        }
    }
}

/// `entry_idx` finds a valid index exactly when some record matches, the
/// record it finds matches, and no earlier record does.
pub proof fn lemma_entry_idx(s: Seq<ConsoleConnectionEntry>, a: usize, b: usize)
    ensures
        entry_idx(s, a, b) >= 0 <==> exists|i: int| #![trigger s[i]]
            0 <= i < s.len() && entry_matches(s[i], a, b),
        entry_idx(s, a, b) >= 0 ==> {
            &&& entry_idx(s, a, b) < s.len()
            &&& entry_matches(s[entry_idx(s, a, b)], a, b)
            &&& forall|i: int| #![trigger s[i]]
                0 <= i < entry_idx(s, a, b) ==> !entry_matches(s[i], a, b)
        },
    decreases s.len(),
{
    if s.len() > 0 {
        let rest = s.drop_first();
        lemma_entry_idx(rest, a, b);
        assert forall|i: int| #![trigger s[i]]
            0 <= i < s.len() && entry_matches(s[i], a, b) implies entry_idx(s, a, b) >= 0
        by {
            if i > 0 {
                assert(rest[i - 1] == s[i]);
            }
        }
        if !entry_matches(s[0], a, b) {
            let t = entry_idx(rest, a, b);
            if t >= 0 {
                assert(s[t + 1] == rest[t]);
                assert forall|i: int| #![trigger s[i]]
                    0 <= i < entry_idx(s, a, b) implies !entry_matches(s[i], a, b)
                by {
                    if i > 0 {
                        assert(rest[i - 1] == s[i]);
                    }
                }
            }
        }
    }
}

/// The same record answers a query from either endpoint.
pub proof fn lemma_entry_idx_sym(s: Seq<ConsoleConnectionEntry>, a: usize, b: usize)
    ensures
        entry_idx(s, a, b) == entry_idx(s, b, a),
    decreases s.len(),
{
    if s.len() > 0 {
        lemma_entry_idx_sym(s.drop_first(), a, b);
    }
}

/// Appending a record leaves earlier matches where they were; with no
/// earlier match the append is found exactly when it matches.
pub proof fn lemma_entry_idx_push(
    s: Seq<ConsoleConnectionEntry>,
    e: ConsoleConnectionEntry,
    a: usize,
    b: usize,
)
    ensures
        entry_idx(s.push(e), a, b) == if entry_idx(s, a, b) >= 0 {
            entry_idx(s, a, b)
        } else if entry_matches(e, a, b) {
            s.len() as int
        } else {
            -1
        },
    decreases s.len(),
{
    if s.len() == 0 {
        assert(s.push(e)[0] == e);
        assert(s.push(e).drop_first() =~= Seq::<ConsoleConnectionEntry>::empty());
        assert(s.push(e).drop_first() == Seq::<ConsoleConnectionEntry>::empty());
        if entry_matches(e, a, b) {
            assert(entry_idx(s.push(e), a, b) == 0);
        } else {
            assert(entry_idx(s.push(e).drop_first(), a, b) == -1);
            assert(entry_idx(s.push(e), a, b) == -1);
        }
    } else {
        lemma_entry_idx_push(s.drop_first(), e, a, b);
        assert(s.push(e).len() == s.len() + 1);
        assert(s.push(e)[0] == s[0]);
        assert(s.push(e).drop_first() =~= s.drop_first().push(e));
        assert(entry_idx(s.push(e).drop_first(), a, b) == entry_idx(
            s.drop_first().push(e),
            a,
            b,
        ));
        if entry_matches(s[0], a, b) {
            assert(entry_idx(s.push(e), a, b) == 0);
            assert(entry_idx(s, a, b) == 0);
        }
    }
}

/// Replacing a record with one for the same pair moves no query.
pub proof fn lemma_entry_idx_update(
    s: Seq<ConsoleConnectionEntry>,
    i: int,
    e2: ConsoleConnectionEntry,
    a: usize,
    b: usize,
)
    requires
        0 <= i < s.len(),
        e2.vm1 == s[i].vm1,
        e2.vm2 == s[i].vm2,
    ensures
        entry_idx(s.update(i, e2), a, b) == entry_idx(s, a, b),
    decreases s.len(),
{
    if s.len() > 0 {
        if i == 0 {
            assert(s.update(i, e2)[0] == e2);
            assert(s.update(i, e2).drop_first() =~= s.drop_first());
        } else {
            assert(s.update(i, e2)[0] == s[0]);
            assert(s.update(i, e2).drop_first() =~= s.drop_first().update(i - 1, e2));
            lemma_entry_idx_update(s.drop_first(), i - 1, e2, a, b);
        }
    }
}

/// Erasing the only record of a pair leaves the pair absent.
pub proof fn lemma_entry_idx_remove(s: Seq<ConsoleConnectionEntry>, i: int, a: usize, b: usize)
    requires
        0 <= i < s.len(),
        entry_idx(s, a, b) == i,
        forall|k: int| #![trigger s[k]] i < k < s.len() ==> !entry_matches(s[k], a, b),
    ensures
        entry_idx(s.remove(i), a, b) < 0,
{
    lemma_entry_idx(s, a, b);
    s.remove_ensures(i);
    let s2 = s.remove(i);
    lemma_entry_idx(s2, a, b);
    assert forall|k: int| #![trigger s2[k]] 0 <= k < s2.len() implies
        !entry_matches(s2[k], a, b)
    by {
        if k < i {
            assert(s2[k] == s[k]);
        } else {
            assert(s2[k] == s[k + 1]);
        }
    }
}

/// The connection table, an owned service; concurrent callers are meant
/// to serialize behind one lock around the owner, so each operation is
/// one atomic step over the whole table.
pub struct ConsoleConnectionManager {
    entries: Vec<ConsoleConnectionEntry>,
}

impl View for ConsoleConnectionManager {
    type V = Seq<ConsoleConnectionEntry>;

    closed spec fn view(&self) -> Seq<ConsoleConnectionEntry> {
        self.entries@
    }
}

impl ConsoleConnectionManager {
    /// Well-formedness of the table.
    pub open spec fn wf(&self) -> bool {
        table_wf(self@)
    }

    /// An empty table.
    pub fn new() -> (r: Self)
        ensures
            r.wf(),
            r@.len() == 0,
    {
        ConsoleConnectionManager { entries: Vec::new() }
    }

    /// Index of the record of `{vm1, vm2}`, if any.
    fn find_entry(&self, vm1: usize, vm2: usize) -> (r: Option<usize>)
        ensures
            r matches Some(i) ==> {
                &&& i == entry_idx(self@, vm1, vm2)
                &&& i < self@.len()
                &&& entry_matches(self@[i as int], vm1, vm2)
            },
            r is None ==> entry_idx(self@, vm1, vm2) < 0,
    {
        proof {
            lemma_entry_idx(self@, vm1, vm2);
        }
        let n = self.entries.len();
        let mut i: usize = 0;
        while i < n
            invariant
                n == self.entries.len(),
                i <= n,
                forall|k: int| #![trigger self.entries@[k]]
                    0 <= k < i ==> !entry_matches(self.entries@[k], vm1, vm2),
            decreases n - i,
        {
            let e = self.entries[i];
            if (e.vm1 == vm1 && e.vm2 == vm2) || (e.vm1 == vm2 && e.vm2 == vm1) {
                proof {
                    lemma_entry_idx(self@, vm1, vm2);
                    let fi = entry_idx(self@, vm1, vm2);
                    assert(entry_matches(self@[i as int], vm1, vm2));
                    assert(fi >= 0);
                    if fi < i {
                        assert(!entry_matches(self@[fi], vm1, vm2));
                    }
                    if fi > i {
                        assert(!entry_matches(self@[i as int], vm1, vm2));
                    }
                }
                return Some(i);
            }
            i += 1;
        }
        None
    }

    /// Establish a connection between `vm1` and `vm2` and return the
    /// buffer pair as seen from `vm1`; behaves exactly as
    /// [`establish_step`] says.  Reusing an existing pair never allocates
    /// memory.
    pub fn establish_connection(
        &mut self,
        pal: &mut PageAllocator,
        vm1: usize,
        vm2: usize,
        buffer_size: usize,
    ) -> (r: Result<(ConsoleBuffer, ConsoleBuffer), HvError>)
        requires
            old(self).wf(),
            alloc_wf(old(pal)@),
        ensures
            final(self).wf(),
            alloc_wf(final(pal)@),
            final(self)@ == establish_step(old(self)@, old(pal)@, vm1, vm2, buffer_size).0,
            final(pal)@ == establish_step(old(self)@, old(pal)@, vm1, vm2, buffer_size).1,
            r == establish_step(old(self)@, old(pal)@, vm1, vm2, buffer_size).2,
    {
        if vm1 == vm2 {
            return Err(HvError::InvalidInput);
        }
        match self.find_entry(vm1, vm2) {
            Some(i) => {
                let e = self.entries[i];
                let rc = if e.ref_count == usize::MAX {
                    e.ref_count
                } else {
                    e.ref_count + 1
                };
                let e2 = ConsoleConnectionEntry {
                    vm1: e.vm1,
                    vm2: e.vm2,
                    buf1: e.buf1,
                    buf2: e.buf2,
                    ref_count: rc,
                };
                self.entries[i] = e2;
                proof {
                    lemma_entry_idx_update(old(self)@, i as int, e2, vm1, vm2);
                    let oldl = old(self)@;
                    let newl = self@;
                    assert forall|a: int, b: int| #![trigger newl[a], newl[b]]
                        0 <= a < b < newl.len() implies
                        !entry_matches(newl[b], newl[a].vm1, newl[a].vm2)
                    by {
                        assert(newl[a].vm1 == oldl[a].vm1 && newl[a].vm2 == oldl[a].vm2);
                        assert(newl[b].vm1 == oldl[b].vm1 && newl[b].vm2 == oldl[b].vm2);
                    }
                }
                if e.vm1 == vm1 {
                    Ok((e.buf1, e.buf2))
                } else {
                    Ok((e.buf2, e.buf1))
                }
            },
            None => {
                let b1 = match ConsoleBuffer::allocate(pal, buffer_size, vm1, vm2) {
                    Ok(b) => b,
                    Err(er) => {
                        return Err(er);
                    },
                };
                let b2 = match ConsoleBuffer::allocate(pal, buffer_size, vm2, vm1) {
                    Ok(b) => b,
                    Err(er) => {
                        b1.dealloc(pal);
                        return Err(er);
                    },
                };
                let ent = ConsoleConnectionEntry { vm1, vm2, buf1: b1, buf2: b2, ref_count: 1 };
                self.entries.push(ent);
                proof {
                    lemma_entry_idx(old(self)@, vm1, vm2);
                    let oldl = old(self)@;
                    let newl = self@;
                    assert(b2.buffer_base > b1.buffer_base) by {
                        assert(frames_of(buffer_size) >= 1);
                    }
                    assert(entry_wf(ent));
                    assert forall|a: int, b: int| #![trigger newl[a], newl[b]]
                        0 <= a < b < newl.len() implies
                        !entry_matches(newl[b], newl[a].vm1, newl[a].vm2)
                    by {
                        if b + 1 == newl.len() {
                            assert(newl[a] == oldl[a]);
                            assert(!entry_matches(oldl[a], vm1, vm2));
                        } else {
                            assert(newl[a] == oldl[a] && newl[b] == oldl[b]);
                        }
                    }
                }
                Ok((b1, b2))
            },
        }
    }

    /// Remove one reference to the connection of `{vm1, vm2}`; behaves
    /// exactly as [`remove_step`] says.  Removing an absent pair changes
    /// nothing and does not fail, and a repeated remove is therefore a
    /// silent no-op.
    pub fn remove_connection(&mut self, pal: &mut PageAllocator, vm1: usize, vm2: usize)
        requires
            old(self).wf(),
            alloc_wf(old(pal)@),
        ensures
            final(self).wf(),
            alloc_wf(final(pal)@),
            final(self)@ == remove_step(old(self)@, old(pal)@, vm1, vm2).0,
            final(pal)@ == remove_step(old(self)@, old(pal)@, vm1, vm2).1,
    {
        match self.find_entry(vm1, vm2) {
            None => {},
            Some(i) => {
                let e = self.entries[i];
                if e.ref_count > 1 {
                    let e2 = ConsoleConnectionEntry {
                        vm1: e.vm1,
                        vm2: e.vm2,
                        buf1: e.buf1,
                        buf2: e.buf2,
                        ref_count: e.ref_count - 1,
                    };
                    self.entries[i] = e2;
                    proof {
                        lemma_entry_idx_update(old(self)@, i as int, e2, vm1, vm2);
                        let oldl = old(self)@;
                        let newl = self@;
                        assert forall|a: int, b: int| #![trigger newl[a], newl[b]]
                            0 <= a < b < newl.len() implies
                            !entry_matches(newl[b], newl[a].vm1, newl[a].vm2)
                        by {
                            assert(newl[a].vm1 == oldl[a].vm1 && newl[a].vm2 == oldl[a].vm2);
                            assert(newl[b].vm1 == oldl[b].vm1 && newl[b].vm2 == oldl[b].vm2);
                        }
                    }
                } else {
                    e.buf1.dealloc(pal);
                    e.buf2.dealloc(pal);
                    proof {
                        lemma_entry_idx(old(self)@, vm1, vm2);
                        lemma_entry_idx_remove(old(self)@, i as int, vm1, vm2);
                        old(self)@.remove_ensures(i as int);
                    }
                    self.entries.remove(i);
                    proof {
                        let oldl = old(self)@;
                        let newl = self@;
                        assert forall|a: int, b: int| #![trigger newl[a], newl[b]]
                            0 <= a < b < newl.len() implies
                            !entry_matches(newl[b], newl[a].vm1, newl[a].vm2)
                        by {
                            let a0: int = if a < i { a } else { a + 1 };
                            let b0: int = if b < i { b } else { b + 1 };
                            assert(newl[a] == oldl[a0] && newl[b] == oldl[b0]);
                        }
                    }
                }
            },
        }
    }

    /// Look up the connection of `{vm1, vm2}` without mutating anything;
    /// returns the buffer pair as seen from `vm1`, or nothing.
    pub fn get_buffers(&self, vm1: usize, vm2: usize) -> (r: Option<(ConsoleBuffer, ConsoleBuffer)>)
        ensures
            r == lookup_spec(self@, vm1, vm2),
    {
        match self.find_entry(vm1, vm2) {
            None => None,
            Some(i) => {
                let e = self.entries[i];
                if e.vm1 == vm1 {
                    Some((e.buf1, e.buf2))
                } else {
                    Some((e.buf2, e.buf1))
                }
            },
        }
    }
}

/// Symmetry invariant.  In every well-formed table — and every operation
/// of the manager keeps the table well-formed — a lookup of `(a, b)` and
/// a lookup of `(b, a)` are both present or both absent, and their buffer
/// pairs are mirror images of one another.
pub proof fn lemma_lookup_symmetry(s: Seq<ConsoleConnectionEntry>, a: usize, b: usize)
    requires
        table_wf(s),
    ensures
        lookup_spec(s, a, b) is Some <==> lookup_spec(s, b, a) is Some,
        lookup_spec(s, a, b) matches Some(p) ==> lookup_spec(s, b, a) == Some((p.1, p.0)),
{
    lemma_entry_idx_sym(s, a, b);
    let i = entry_idx(s, a, b);
    if i >= 0 {
        lemma_entry_idx(s, a, b);
        let e = s[i];
        assert(entry_wf(e));
    }
}

/// Idempotent remove: removing a pair that has no entry leaves the table
/// and the allocator exactly as they were, and does not fail.
pub proof fn lemma_remove_idempotent(
    s: Seq<ConsoleConnectionEntry>,
    al: AllocModel,
    a: usize,
    b: usize,
)
    requires
        lookup_spec(s, a, b) is None,
    ensures
        remove_step(s, al, a, b).0 == s,
        remove_step(s, al, a, b).1 == al,
{
}

/// No reallocation on reuse: when an establish returns buffers, an
/// establish of the same pair seen from the other endpoint allocates no
/// memory and returns the very same buffers, swapped into the caller's
/// orientation.
pub proof fn lemma_no_reallocation(
    s: Seq<ConsoleConnectionEntry>,
    al: AllocModel,
    a: usize,
    b: usize,
    size: usize,
)
    requires
        table_wf(s),
        alloc_wf(al),
    ensures
        ({
            let (s1, al1, r1) = establish_step(s, al, a, b, size);
            let (s2, al2, r2) = establish_step(s1, al1, b, a, size);
            r1 is Ok ==> {
                &&& al2 == al1
                &&& r2 is Ok
                &&& r2->Ok_0.0 == r1->Ok_0.1
                &&& r2->Ok_0.1 == r1->Ok_0.0
            }
        }),
{
    let (s1, al1, r1) = establish_step(s, al, a, b, size);
    if r1 is Ok {
        assert(a != b);
        let i = entry_idx(s, a, b);
        if i >= 0 {
            lemma_entry_idx(s, a, b);
            let e = s[i];
            assert(entry_wf(e));
            let e2 = s1[i];
            lemma_entry_idx_update(s, i, e2, a, b);
            lemma_entry_idx_sym(s1, b, a);
            assert(entry_idx(s1, b, a) == i);
        } else {
            let ent = s1[s.len() as int];
            lemma_entry_idx_push(s, ent, a, b);
            assert(entry_idx(s1, a, b) == s.len());
            lemma_entry_idx_sym(s1, b, a);
            assert(entry_idx(s1, b, a) == s.len());
        }
    }
}

/// Removing the last reference erases the connection as seen from either
/// endpoint in the same step, and returns exactly the two buffers' page
/// ranges to the allocator, once each.
pub proof fn lemma_remove_last_reference(
    s: Seq<ConsoleConnectionEntry>,
    al: AllocModel,
    a: usize,
    b: usize,
)
    requires
        table_wf(s),
        lookup_spec(s, a, b) is Some,
        s[entry_idx(s, a, b)].ref_count == 1,
    ensures
        ({
            let (s2, al2) = remove_step(s, al, a, b);
            let e = s[entry_idx(s, a, b)];
            &&& lookup_spec(s2, a, b) is None
            &&& lookup_spec(s2, b, a) is None
            &&& s2 == s.remove(entry_idx(s, a, b))
            &&& al2 == free_step(free_step(al, e.buf1.buffer_base), e.buf2.buffer_base)
        }),
{
    let i = entry_idx(s, a, b);
    lemma_entry_idx(s, a, b);
    assert(i >= 0);
    let e = s[i];
    assert forall|k: int| #![trigger s[k]] i < k < s.len() implies !entry_matches(s[k], a, b) by {
        assert(!entry_matches(s[k], e.vm1, e.vm2));
    }
    lemma_entry_idx_remove(s, i, a, b);
    lemma_entry_idx_sym(s.remove(i), a, b);
}

/// Refcount correctness: on a pair with no entry, establishing twice and
/// removing once keeps the connection visible with the same buffers;
/// removing a second time erases it, restores the table, and returns both
/// buffer ranges to the allocator, whose outstanding list is exactly what
/// it was at the start.
pub proof fn lemma_refcount_correctness(
    s: Seq<ConsoleConnectionEntry>,
    al: AllocModel,
    a: usize,
    b: usize,
    size: usize,
)
    requires
        table_wf(s),
        alloc_wf(al),
        lookup_spec(s, a, b) is None,
    ensures
        ({
            let (s1, al1, r1) = establish_step(s, al, a, b, size);
            let (s2, al2, r2) = establish_step(s1, al1, a, b, size);
            let (s3, al3) = remove_step(s2, al2, a, b);
            let (s4, al4) = remove_step(s3, al3, a, b);
            r1 is Ok ==> {
                &&& r2 == r1
                &&& lookup_spec(s3, a, b) == Some(r1->Ok_0)
                &&& lookup_spec(s4, a, b) is None
                &&& s4 == s
                &&& al4.live == al.live
            }
        }),
{
    let (s1, al1, r1) = establish_step(s, al, a, b, size);
    if r1 is Ok {
        assert(a != b);
        let n = s.len() as int;
        let b1 = r1->Ok_0.0;
        let b2 = r1->Ok_0.1;
        let bytes = (frames_of(size) * PAGE_SIZE) as usize;
        let ent = ConsoleConnectionEntry { vm1: a, vm2: b, buf1: b1, buf2: b2, ref_count: 1 };
        assert(s1 == s.push(ent));
        lemma_entry_idx_push(s, ent, a, b);
        assert(entry_idx(s1, a, b) == n);

        // Second establish: reuse, count 1 -> 2, same buffers, no allocation.
        let (s2, al2, r2) = establish_step(s1, al1, a, b, size);
        let ent2 = ConsoleConnectionEntry { vm1: a, vm2: b, buf1: b1, buf2: b2, ref_count: 2 };
        assert(s2 == s1.update(n, ent2));
        lemma_entry_idx_update(s1, n, ent2, a, b);
        assert(entry_idx(s2, a, b) == n);
        assert(al2 == al1);
        assert(r2 == r1);

        // First remove: count 2 -> 1, connection still visible.
        let (s3, al3) = remove_step(s2, al2, a, b);
        assert(s3 == s2.update(n, ent));
        lemma_entry_idx_update(s2, n, ent, a, b);
        assert(entry_idx(s3, a, b) == n);
        assert(al3 == al2);
        assert(lookup_spec(s3, a, b) == Some((b1, b2)));

        // Second remove: count 1, both buffers released, record erased.
        let (s4, al4) = remove_step(s3, al3, a, b);
        assert(s3 =~= s.push(ent));
        assert(s4 == s3.remove(n));
        s3.remove_ensures(n);
        assert(s4 =~= s);
        lemma_entry_idx(s, a, b);
        assert(lookup_spec(s4, a, b) is None);

        // The allocator's outstanding list returns to its initial value.
        let e1 = (al.next, bytes);
        let anext1 = (al.next + frames_of(size) * PAGE_SIZE) as usize;
        let e2 = (anext1, bytes);
        assert(al1.live == al.live.push(e1).push(e2));
        assert(b1.buffer_base == e1.0 && b2.buffer_base == e2.0);
        assert(e2.0 > e1.0) by {
            assert(frames_of(size) >= 1);
        }
        lemma_live_idx(al.live, e1.0);
        assert forall|k: int| #![trigger al.live[k]] 0 <= k < al.live.len() implies
            al.live[k].0 != e1.0 && al.live[k].0 != e2.0
        by {
            assert(al.live[k].0 + al.live[k].1 <= al.next);
        }
        assert(live_idx(al.live, e1.0) < 0);
        lemma_live_idx_push(al.live, e1, e1.0);
        assert(live_idx(al.live.push(e1), e1.0) == al.live.len());
        lemma_live_idx_push(al.live.push(e1), e2, e1.0);
        assert(live_idx(al1.live, e1.0) == al.live.len());
        let alx = free_step(al1, b1.buffer_base);
        al1.live.remove_ensures(al.live.len() as int);
        assert(alx.live =~= al.live.push(e2));
        lemma_live_idx(al.live, e2.0);
        assert(live_idx(al.live, e2.0) < 0);
        lemma_live_idx_push(al.live, e2, e2.0);
        assert(live_idx(alx.live, e2.0) == al.live.len());
        alx.live.remove_ensures(al.live.len() as int);
        assert(al4.live =~= al.live);
    }
}

} // verus!
