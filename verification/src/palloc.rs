//! Model of the page allocator that backs the console buffers.
//!
//! The real allocator is an external collaborator of which this subsystem
//! only consumes the contract `allocate(page_count) -> host_address` /
//! `free(host_address, page_count)`.  The model hands out page-aligned,
//! pairwise disjoint host ranges from a watermark and records every
//! outstanding range, so that contracts and tests can say exactly which
//! memory a table operation acquired or returned.

use vstd::prelude::*;

use crate::HvError;
use crate::PAGE_SIZE;

verus! {

/// Abstract state of the allocator: the watermark from which the next
/// range is cut, and the outstanding ranges `(base, bytes)` in the order
/// they were handed out.
pub ghost struct AllocModel {
    pub next: usize,
    pub live: Seq<(usize, usize)>,
}

/// Well-formedness of the allocator state: every outstanding range is
/// page-aligned, non-empty, below the watermark, and no two ranges share
/// a base.
pub open spec fn alloc_wf(al: AllocModel) -> bool {
    &&& al.next >= PAGE_SIZE
    &&& (al.next as int) % (PAGE_SIZE as int) == 0
    &&& forall|i: int| #![trigger al.live[i]]
        0 <= i < al.live.len() ==> {
            &&& al.live[i].0 >= PAGE_SIZE
            &&& (al.live[i].0 as int) % (PAGE_SIZE as int) == 0
            &&& al.live[i].1 >= PAGE_SIZE
            &&& (al.live[i].1 as int) % (PAGE_SIZE as int) == 0
            &&& al.live[i].0 + al.live[i].1 <= al.next
        }
    &&& forall|i: int, j: int| #![trigger al.live[i], al.live[j]]
        0 <= i < j < al.live.len() ==> al.live[i].0 != al.live[j].0
}

/// Whether a request for `num_pages` pages can be satisfied from `al`.
pub open spec fn can_alloc(al: AllocModel, num_pages: usize) -> bool {
    &&& num_pages >= 1
    &&& num_pages * PAGE_SIZE <= usize::MAX
    &&& al.next + num_pages * PAGE_SIZE <= usize::MAX
}

/// The allocator state after a successful request for `num_pages` pages;
/// the base of the new range is the old watermark.
pub open spec fn alloc_step(al: AllocModel, num_pages: usize) -> AllocModel {
    AllocModel {
        next: (al.next + num_pages * PAGE_SIZE) as usize,
        live: al.live.push((al.next, (num_pages * PAGE_SIZE) as usize)),
    }
}

/// Index of the outstanding range with base `base`, or `-1` if none.
pub open spec fn live_idx(live: Seq<(usize, usize)>, base: usize) -> int
    decreases live.len(),
{
    if live.len() == 0 {
        -1
    } else if live[0].0 == base {
        0
    } else {
        let t = live_idx(live.drop_first(), base);
        if t < 0 {
            -1
        } else {
            t + 1
        }
    }
}

/// The allocator state after returning the range at `base`: that range
/// leaves the outstanding list; a base the allocator does not hold is
/// ignored.
pub open spec fn free_step(al: AllocModel, base: usize) -> AllocModel {
    let i = live_idx(al.live, base);
    if i < 0 {
        al
    } else {
        AllocModel { next: al.next, live: al.live.remove(i) }
    }
}

/// `live_idx` finds a valid index exactly when some range has that base,
/// and the index it finds is the first one.
pub proof fn lemma_live_idx(live: Seq<(usize, usize)>, base: usize)
    ensures
        live_idx(live, base) >= 0 <==> exists|i: int| #![trigger live[i]]
            0 <= i < live.len() && live[i].0 == base,
        live_idx(live, base) >= 0 ==> {
            &&& live_idx(live, base) < live.len()
            &&& live[live_idx(live, base)].0 == base
            &&& forall|i: int| #![trigger live[i]] 0 <= i < live_idx(live, base) ==> live[i].0 != base
        },
    decreases live.len(),
{
    if live.len() > 0 {
        let rest = live.drop_first();
        lemma_live_idx(rest, base);
        assert forall|i: int| #![trigger live[i]] 0 <= i < live.len() && live[i].0 == base implies
            live_idx(live, base) >= 0
        by {
            if i > 0 {
                assert(rest[i - 1] == live[i]);
            }
        }
        if live[0].0 != base {
            let t = live_idx(rest, base);
            if t >= 0 {
                assert(live[t + 1] == rest[t]);
                assert forall|i: int| #![trigger live[i]]
                    0 <= i < live_idx(live, base) implies live[i].0 != base
                by {
                    if i > 0 {
                        assert(rest[i - 1] == live[i]);
                    }
                }
            }
        }
    }
}

/// Appending a range leaves earlier matches where they were; with no
/// earlier match the append is found exactly when its base matches.
pub proof fn lemma_live_idx_push(live: Seq<(usize, usize)>, e: (usize, usize), base: usize)
    ensures
        live_idx(live.push(e), base) == if live_idx(live, base) >= 0 {
            live_idx(live, base)
        } else if e.0 == base {
            live.len() as int
        } else {
            -1
        },
    decreases live.len(),
{
    if live.len() == 0 {
        assert(live.push(e)[0] == e);
        assert(live.push(e).drop_first() =~= Seq::<(usize, usize)>::empty());
        assert(live.push(e).drop_first() == Seq::<(usize, usize)>::empty());
        if e.0 == base {
            assert(live_idx(live.push(e), base) == 0);
        } else {
            assert(live_idx(live.push(e).drop_first(), base) == -1);
            assert(live_idx(live.push(e), base) == -1);
        }
    } else {
        lemma_live_idx_push(live.drop_first(), e, base);
        assert(live.push(e).len() == live.len() + 1);
        assert(live.push(e)[0] == live[0]);
        assert(live.push(e).drop_first() =~= live.drop_first().push(e));
        assert(live_idx(live.push(e).drop_first(), base) == live_idx(
            live.drop_first().push(e),
            base,
        ));
        if live[0].0 == base {
            assert(live_idx(live.push(e), base) == 0);
            assert(live_idx(live, base) == 0);
        }
    }
}

/// The page allocator, as an owned service with an exact contract.
pub struct PageAllocator {
    next: usize,
    live: Vec<(usize, usize)>,
}

impl View for PageAllocator {
    type V = AllocModel;

    closed spec fn view(&self) -> AllocModel {
        AllocModel { next: self.next, live: self.live@ }
    }
}

impl PageAllocator {
    /// A fresh allocator with no outstanding range.  The watermark starts
    /// one page in, so that no handed-out base is ever zero.
    pub fn new() -> (r: Self)
        ensures
            alloc_wf(r@),
            r@.next == PAGE_SIZE,
            r@.live.len() == 0,
    {
        PageAllocator { next: PAGE_SIZE, live: Vec::new() }
    }

    /// A fresh allocator whose first range will be cut at `base`: the
    /// seam for an embedding that hands it a real host arena.  The
    /// watermark never revisits a freed range, so every range handed out
    /// is previously untouched arena memory — an arena zeroed when it was
    /// reserved yields zero-filled buffers by construction.
    pub fn with_base(base: usize) -> (r: Self)
        requires
            base >= PAGE_SIZE,
            (base as int) % (PAGE_SIZE as int) == 0,
        ensures
            alloc_wf(r@),
            r@.next == base,
            r@.live.len() == 0,
    {
        PageAllocator { next: base, live: Vec::new() }
    }

    /// Hand out `num_pages` fresh pages.  Succeeds exactly when the
    /// request is non-empty and the watermark does not overflow; on
    /// success the new range starts at the old watermark and joins the
    /// outstanding list.
    pub fn allocate(&mut self, num_pages: usize) -> (r: Result<usize, HvError>)
        requires
            alloc_wf(old(self)@),
        ensures
            alloc_wf(final(self)@),
            r matches Ok(base) ==> {
                &&& can_alloc(old(self)@, num_pages)
                &&& base == old(self)@.next
                &&& final(self)@ == alloc_step(old(self)@, num_pages)
            },
            r matches Err(e) ==> {
                &&& !can_alloc(old(self)@, num_pages)
                &&& e == HvError::OutOfMemory
                &&& final(self)@ == old(self)@
            },
    {
        if num_pages == 0 {
            return Err(HvError::OutOfMemory);
        }
        let bytes = match num_pages.checked_mul(PAGE_SIZE) {
            Some(b) => b,
            None => {
                return Err(HvError::OutOfMemory);
            },
        };
        let new_next = match self.next.checked_add(bytes) {
            Some(n) => n,
            None => {
                return Err(HvError::OutOfMemory);
            },
        };
        let base = self.next;
        self.live.push((base, bytes));
        self.next = new_next;
        proof {
            vstd::arithmetic::div_mod::lemma_mod_multiples_basic(
                num_pages as int,
                PAGE_SIZE as int,
            );
            vstd::arithmetic::div_mod::lemma_add_mod_noop(
                base as int,
                bytes as int,
                PAGE_SIZE as int,
            );
            let oldl = old(self)@.live;
            let newl = self@.live;
            assert forall|a: int, b: int| #![trigger newl[a], newl[b]]
                0 <= a < b < newl.len() implies newl[a].0 != newl[b].0
            by {
                if b + 1 == newl.len() {
                    assert(oldl[a].0 + oldl[a].1 <= old(self)@.next);
                }
            }
        }
        Ok(base)
    }

    /// Return the outstanding range that starts at `base` to the
    /// allocator.  A base the allocator does not hold is ignored; the
    /// page count is the caller's statement of the range it computed and
    /// does not select the range.
    pub fn free(&mut self, base: usize, _num_pages: usize)
        requires
            alloc_wf(old(self)@),
        ensures
            alloc_wf(final(self)@),
            final(self)@ == free_step(old(self)@, base),
    {
        proof {
            lemma_live_idx(self@.live, base);
        }
        let n = self.live.len();
        let mut i: usize = 0;
        while i < n
            invariant
                n == self.live.len(),
                i <= n,
                alloc_wf(self@),
                self@ == old(self)@,
                forall|k: int| #![trigger self.live@[k]] 0 <= k < i ==> self.live@[k].0 != base,
            decreases n - i,
        {
            if self.live[i].0 == base {
                proof {
                    lemma_live_idx(self@.live, base);
                    let fi = live_idx(self@.live, base);
                    assert(self@.live[i as int].0 == base);
                    assert(fi >= 0);
                    if fi < i {
                        assert(self@.live[fi].0 != base);
                    }
                    if fi > i {
                        assert(self@.live[i as int].0 != base);
                    }
                    assert(fi == i);
                    old(self)@.live.remove_ensures(i as int);
                }
                self.live.remove(i);
                proof {
                    let oldl = old(self)@.live;
                    let newl = self@.live;
                    assert forall|k: int| #![trigger newl[k]] 0 <= k < newl.len() implies {
                        &&& newl[k].0 >= PAGE_SIZE
                        &&& (newl[k].0 as int) % (PAGE_SIZE as int) == 0
                        &&& newl[k].1 >= PAGE_SIZE
                        &&& (newl[k].1 as int) % (PAGE_SIZE as int) == 0
                        &&& newl[k].0 + newl[k].1 <= self@.next
                    } by {
                        let k0: int = if k < i { k } else { k + 1 };
                        assert(newl[k] == oldl[k0]);
                    }
                    assert forall|a: int, b: int| #![trigger newl[a], newl[b]]
                        0 <= a < b < newl.len() implies newl[a].0 != newl[b].0
                    by {
                        let a0: int = if a < i { a } else { a + 1 };
                        let b0: int = if b < i { b } else { b + 1 };
                        assert(newl[a] == oldl[a0] && newl[b] == oldl[b0]);
                    }
                }
                return;
            }
            i += 1;
        }
    }

    /// How many ranges are outstanding.
    pub fn live_count(&self) -> (n: usize)
        ensures
            n == self@.live.len(),
    {
        self.live.len()
    }

    /// Whether the allocator currently holds a range starting at `base`.
    pub fn holds(&self, base: usize) -> (b: bool)
        ensures
            b == (live_idx(self@.live, base) >= 0),
    {
        proof {
            lemma_live_idx(self@.live, base);
        }
        let n = self.live.len();
        let mut i: usize = 0;
        while i < n
            invariant
                n == self.live.len(),
                i <= n,
                forall|k: int| #![trigger self.live@[k]] 0 <= k < i ==> self.live@[k].0 != base,
            decreases n - i,
        {
            if self.live[i].0 == base {
                proof {
                    assert(self@.live[i as int].0 == base);
                    assert(exists|k: int| #![trigger self@.live[k]]
                        0 <= k < self@.live.len() && self@.live[k].0 == base);
                    lemma_live_idx(self@.live, base);
                }
                return true;
            }
            i += 1;
        }
        false
    }
}

} // verus!
