//! Hypercall decoding and dispatch.
//!
//! A trap hands over an opcode word and six fixed-width argument words.
//! Construction decodes and validates only; `execute` then runs one of the
//! protocols.  The console protocols run to completion here against the
//! connection table; every interaction with an external collaborator — guest
//! memory, the owning VM's address space, the IVC registry, the VM directory
//! — is surfaced as an [`HvcEffect`] that the surrounding runtime performs,
//! feeding the outcome back through [`HyperCall::step`] until the dispatch
//! reaches a terminal result code.  Each transition is pinned exactly by
//! [`step_spec`], so the dispatcher's decisions are verified for every
//! possible collaborator outcome.

use vstd::prelude::*;

use crate::HvError;
use crate::PAGE_SIZE;
use crate::console::ConsoleConnectionManager;
use crate::console::establish_step;
use crate::console::lookup_spec;
use crate::console::remove_step;
use crate::palloc::AllocModel;
use crate::palloc::PageAllocator;
use crate::palloc::alloc_wf;

verus! {

/// The most peer ids one console request can carry: the argument vector
/// has six words, two of which are the subcode and the count.
pub const MAX_CONSOLE_PEERS: usize = 4;

/// Width of the per-VM interrupt target mask: the highest vCPU index an
/// interrupt can be aimed at is one below this.
pub const VCPU_MASK_BITS: usize = 64;

/// A per-VM interrupt target mask.  The mask itself is
/// `cpumask::CpuMask`, whose definition Verus cannot take (it carries a
/// bound on an outside trait), so the value rides in a hidden field and
/// the contracts speak of its bits through [`mask_bits`].
#[verifier::external_body]
pub struct VcpuMask {
    inner: cpumask::CpuMask<VCPU_MASK_BITS>,
}

/// The set of vCPU indices a target mask selects.
pub uninterp spec fn mask_bits(m: VcpuMask) -> Set<int>;

/// Relies on cpumask::CpuMask::one_shot: the returned mask has exactly
/// the bit at `index` set; it panics on an index at or past the width,
/// which the precondition rules out.
#[verifier::external_body]
fn single_vcpu_mask(index: usize) -> (r: VcpuMask)
    requires
        index < VCPU_MASK_BITS,
    ensures
        mask_bits(r) == Set::empty().insert(index as int),
{
    VcpuMask { inner: cpumask::CpuMask::one_shot(index) }
}

impl VcpuMask {
    /// Relies on cpumask::CpuMask::get: whether the bit at `index` is
    /// set.  The runtime around the library reads the mask through this.
    #[verifier::external_body]
    pub fn bit(&self, index: usize) -> (r: bool)
        requires
            index < VCPU_MASK_BITS,
        ensures
            r == mask_bits(*self).contains(index as int),
    {
        self.inner.get(index)
    }
}

/// Hypercall operation codes.  The wire encoding is an unsigned 32-bit
/// value: 0 to 2 are hypervisor-control operations that decode but are
/// not served by this subsystem, 3 to 6 are the IVC channel operations,
/// 7 to 9 the console and interrupt operations.
#[derive(Clone, Copy, PartialEq, Eq, Structural, Debug)]
pub enum HyperCallCode {
    HypervisorDisable,
    HypervisorPrepareDisable,
    HypervisorDebug,
    PublishChannel,
    SubscribeChannel,
    UnpublishChannel,
    UnsubscribeChannel,
    EstablishConsoleConnection,
    UnEstablishConsoleConnection,
    SendIpi,
}

/// The opcode a 32-bit wire value names, if any.
pub open spec fn decode_spec(w: u32) -> Option<HyperCallCode> {
    if w == 0 {
        Some(HyperCallCode::HypervisorDisable)
    } else if w == 1 {
        Some(HyperCallCode::HypervisorPrepareDisable)
    } else if w == 2 {
        Some(HyperCallCode::HypervisorDebug)
    } else if w == 3 {
        Some(HyperCallCode::PublishChannel)
    } else if w == 4 {
        Some(HyperCallCode::SubscribeChannel)
    } else if w == 5 {
        Some(HyperCallCode::UnpublishChannel)
    } else if w == 6 {
        Some(HyperCallCode::UnsubscribeChannel)
    } else if w == 7 {
        Some(HyperCallCode::EstablishConsoleConnection)
    } else if w == 8 {
        Some(HyperCallCode::UnEstablishConsoleConnection)
    } else if w == 9 {
        Some(HyperCallCode::SendIpi)
    } else {
        None
    }
}

/// A request the dispatcher makes of an external collaborator.  The
/// runtime performs it and feeds the outcome back as an [`HvcReply`].
/// Region mappings are always requested with read and write permission.
pub enum HvcEffect {
    /// Read one `usize` from the calling VM's memory.
    ReadGuestUsize { addr: usize },
    /// Write one `usize` into the calling VM's memory.
    WriteGuestUsize { addr: usize, value: usize },
    /// Reserve a guest-physical window of at least `size` bytes.
    ReserveWindow { size: usize },
    /// Create the IVC channel `(vm_id, key)` of `size` bytes at `gpa`.
    CreateChannel { vm_id: usize, key: usize, size: usize, gpa: usize },
    /// Register the created channel `(vm_id, key)` with the IVC registry.
    InsertChannel { vm_id: usize, key: usize },
    /// Map `size` bytes of host memory at `hpa` into the guest at `gpa`.
    MapRegion { gpa: usize, hpa: usize, size: usize },
    /// Unmap `size` bytes of guest-physical space at `gpa`.
    UnmapRegion { gpa: usize, size: usize },
    /// Remove the calling VM's channel `key`; yields its window.
    Unpublish { vm_id: usize, key: usize },
    /// Ask the registry for the size of `(publisher_vm_id, key)`.
    QueryChannelSize { publisher_vm_id: usize, key: usize },
    /// Register a subscription; yields the channel's host base and size.
    Subscribe { publisher_vm_id: usize, key: usize, subscriber_vm_id: usize, gpa: usize },
    /// Remove a subscription; yields the subscriber's window.
    Unsubscribe { publisher_vm_id: usize, key: usize, subscriber_vm_id: usize },
    /// Hand the accumulated console buffer triples to the calling VM's
    /// console device, two per peer, in order.
    UpdateConsole { owner_vm_ids: Vec<usize>, peer_vm_ids: Vec<usize>, buffer_addrs: Vec<usize> },
    /// Hand the collected console teardown pairs to the device.
    RemoveConsole { owner_vm_ids: Vec<usize>, peer_vm_ids: Vec<usize> },
    /// Deliver interrupt `vector` to the vCPUs of the target VM that
    /// `mask` selects; the mask holds exactly the target vCPU's bit.
    InjectInterrupt { target_vm_id: usize, target_vcpu_id: usize, vector: usize, mask: VcpuMask },
}

/// The collaborator's answer to an effect.
pub enum HvcReply {
    /// The effect completed and carries no value.
    Unit,
    /// One value: a size read from guest memory or from the registry.
    Size(usize),
    /// Two values: an address and a size.
    Pair(usize, usize),
    /// The collaborator failed; the error propagates unless the protocol
    /// swallows it.
    Failed(HvError),
}

/// Where a dispatch stands between two collaborator interactions.
pub enum HvcState {
    PubAwaitSize { vm_id: usize, key: usize, base_ptr: usize, size_ptr: usize },
    PubAwaitWindow { vm_id: usize, key: usize, base_ptr: usize, size_ptr: usize },
    PubAwaitChannel { vm_id: usize, key: usize, base_ptr: usize, size_ptr: usize, gpa: usize },
    PubAwaitMap {
        vm_id: usize,
        key: usize,
        base_ptr: usize,
        size_ptr: usize,
        gpa: usize,
        size: usize,
    },
    PubAwaitBaseWrite { vm_id: usize, key: usize, size_ptr: usize, size: usize },
    PubAwaitSizeWrite { vm_id: usize, key: usize },
    SubAwaitSize {
        vm_id: usize,
        publisher_vm_id: usize,
        key: usize,
        base_ptr: usize,
        size_ptr: usize,
    },
    SubAwaitWindow {
        vm_id: usize,
        publisher_vm_id: usize,
        key: usize,
        base_ptr: usize,
        size_ptr: usize,
    },
    SubAwaitRegistry { base_ptr: usize, size_ptr: usize, gpa: usize },
    SubAwaitMap { base_ptr: usize, size_ptr: usize, gpa: usize, size: usize },
    SubAwaitBaseWrite { size_ptr: usize, size: usize },
    /// Waiting for the registry to yield a `(gpa, size)` window to unmap.
    AwaitRegionInfo,
    /// Waiting for the last effect of a protocol that then succeeds.
    AwaitFinal,
    /// The protocol's outcome no longer depends on the reply: a device
    /// update or an interrupt injection whose failure is logged and
    /// swallowed, so the call reports success either way.
    FireAndForget,
}

/// The dispatcher's verdict after a step: a terminal result code for the
/// guest, or the next effect to perform.
pub enum HvcStatus {
    Done { result: Result<usize, HvError> },
    Next { state: HvcState, effect: HvcEffect },
}

/// The exact transition of [`HyperCall::step`]: what follows from each
/// waiting state for each possible reply.  A failed reply ends the
/// dispatch with that error, except in the fire-and-forget state; a reply
/// of the wrong shape is a protocol violation and ends it with
/// [`HvError::InvalidInput`].
pub open spec fn step_spec(s: HvcState, r: HvcReply) -> HvcStatus {
    match (s, r) {
        (HvcState::FireAndForget, _) => HvcStatus::Done { result: Ok(0) },
        (_, HvcReply::Failed(e)) => HvcStatus::Done { result: Err(e) },
        (HvcState::PubAwaitSize { vm_id, key, base_ptr, size_ptr }, HvcReply::Size(sz)) => {
            HvcStatus::Next {
                state: HvcState::PubAwaitWindow { vm_id, key, base_ptr, size_ptr },
                effect: HvcEffect::ReserveWindow { size: sz },
            }
        },
        (HvcState::PubAwaitWindow { vm_id, key, base_ptr, size_ptr }, HvcReply::Pair(gpa, wsz)) => {
            HvcStatus::Next {
                state: HvcState::PubAwaitChannel { vm_id, key, base_ptr, size_ptr, gpa },
                effect: HvcEffect::CreateChannel { vm_id, key, size: wsz, gpa },
            }
        },
        (
            HvcState::PubAwaitChannel { vm_id, key, base_ptr, size_ptr, gpa },
            HvcReply::Pair(hpa, actual),
        ) => {
            HvcStatus::Next {
                state: HvcState::PubAwaitMap { vm_id, key, base_ptr, size_ptr, gpa, size: actual },
                effect: HvcEffect::MapRegion { gpa, hpa, size: actual },
            }
        },
        (HvcState::PubAwaitMap { vm_id, key, base_ptr, size_ptr, gpa, size }, HvcReply::Unit) => {
            HvcStatus::Next {
                state: HvcState::PubAwaitBaseWrite { vm_id, key, size_ptr, size },
                effect: HvcEffect::WriteGuestUsize { addr: base_ptr, value: gpa },
            }
        },
        (HvcState::PubAwaitBaseWrite { vm_id, key, size_ptr, size }, HvcReply::Unit) => {
            HvcStatus::Next {
                state: HvcState::PubAwaitSizeWrite { vm_id, key },
                effect: HvcEffect::WriteGuestUsize { addr: size_ptr, value: size },
            }
        },
        (HvcState::PubAwaitSizeWrite { vm_id, key }, HvcReply::Unit) => {
            HvcStatus::Next {
                state: HvcState::AwaitFinal,
                effect: HvcEffect::InsertChannel { vm_id, key },
            }
        },
        (
            HvcState::SubAwaitSize { vm_id, publisher_vm_id, key, base_ptr, size_ptr },
            HvcReply::Size(sz),
        ) => {
            HvcStatus::Next {
                state: HvcState::SubAwaitWindow { vm_id, publisher_vm_id, key, base_ptr, size_ptr },
                effect: HvcEffect::ReserveWindow { size: sz },
            }
        },
        (
            HvcState::SubAwaitWindow { vm_id, publisher_vm_id, key, base_ptr, size_ptr },
            HvcReply::Pair(gpa, _wsz),
        ) => {
            HvcStatus::Next {
                state: HvcState::SubAwaitRegistry { base_ptr, size_ptr, gpa },
                effect: HvcEffect::Subscribe {
                    publisher_vm_id,
                    key,
                    subscriber_vm_id: vm_id,
                    gpa,
                },
            }
        },
        (HvcState::SubAwaitRegistry { base_ptr, size_ptr, gpa }, HvcReply::Pair(hpa, actual)) => {
            HvcStatus::Next {
                state: HvcState::SubAwaitMap { base_ptr, size_ptr, gpa, size: actual },
                effect: HvcEffect::MapRegion { gpa, hpa, size: actual },
            }
        },
        (HvcState::SubAwaitMap { base_ptr, size_ptr, gpa, size }, HvcReply::Unit) => {
            HvcStatus::Next {
                state: HvcState::SubAwaitBaseWrite { size_ptr, size },
                effect: HvcEffect::WriteGuestUsize { addr: base_ptr, value: gpa },
            }
        },
        (HvcState::SubAwaitBaseWrite { size_ptr, size }, HvcReply::Unit) => {
            HvcStatus::Next {
                state: HvcState::AwaitFinal,
                effect: HvcEffect::WriteGuestUsize { addr: size_ptr, value: size },
            }
        },
        (HvcState::AwaitRegionInfo, HvcReply::Pair(gpa, size)) => {
            HvcStatus::Next {
                state: HvcState::AwaitFinal,
                effect: HvcEffect::UnmapRegion { gpa, size },
            }
        },
        (HvcState::AwaitFinal, HvcReply::Unit) => HvcStatus::Done { result: Ok(0) },
        _ => HvcStatus::Done { result: Err(HvError::InvalidInput) },
    }
}

/// The peer VM ids of a console request, read from the argument words
/// after the subcode and the count.
pub open spec fn console_ids(args: Seq<u64>) -> Seq<usize> {
    Seq::new((args[1] as usize) as nat, |i: int| args[2 + i] as usize)
}

/// The table, the allocator and the accumulated reporting triples after
/// establishing a console connection to each peer in `ids`, in order: for
/// each peer, first the send buffer's triple, then the receive buffer's.
/// A failed establishment stops the walk and surfaces as the allocator
/// exhaustion the guest is told about.
pub open spec fn console_establish_rec(
    s: Seq<crate::console::ConsoleConnectionEntry>,
    al: AllocModel,
    self_id: usize,
    ids: Seq<usize>,
) -> (
    Seq<crate::console::ConsoleConnectionEntry>,
    AllocModel,
    Result<(Seq<usize>, Seq<usize>, Seq<usize>), HvError>,
)
    decreases ids.len(),
{
    if ids.len() == 0 {
        (s, al, Ok((Seq::empty(), Seq::empty(), Seq::empty())))
    } else {
        let (s1, al1, r1) = establish_step(s, al, self_id, ids[0], PAGE_SIZE);
        match r1 {
            Err(_) => (s1, al1, Err(HvError::OutOfMemory)),
            Ok(bufs) => {
                let (s2, al2, r2) = console_establish_rec(s1, al1, self_id, ids.drop_first());
                match r2 {
                    Err(e) => (s2, al2, Err(e)),
                    Ok(t) => (
                        s2,
                        al2,
                        Ok(
                            (
                                seq![bufs.0.owner_vm_id, bufs.1.owner_vm_id] + t.0,
                                seq![bufs.0.peer_vm_id, bufs.1.peer_vm_id] + t.1,
                                seq![bufs.0.buffer_base, bufs.1.buffer_base] + t.2,
                            ),
                        ),
                    ),
                }
            },
        }
    }
}

/// The table, the allocator and the collected reporting pairs after
/// tearing down the console connection to each peer in `ids`, in order.
/// An absent pair contributes no report but is still removed, silently.
pub open spec fn console_remove_rec(
    s: Seq<crate::console::ConsoleConnectionEntry>,
    al: AllocModel,
    self_id: usize,
    ids: Seq<usize>,
) -> (Seq<crate::console::ConsoleConnectionEntry>, AllocModel, Seq<usize>, Seq<usize>)
    decreases ids.len(),
{
    if ids.len() == 0 {
        (s, al, Seq::empty(), Seq::empty())
    } else {
        let looked = lookup_spec(s, self_id, ids[0]);
        let (s1, al1) = remove_step(s, al, self_id, ids[0]);
        let (s2, al2, owners, peers) = console_remove_rec(s1, al1, self_id, ids.drop_first());
        match looked {
            None => (s2, al2, owners, peers),
            Some(p) => (
                s2,
                al2,
                seq![p.0.owner_vm_id, p.1.owner_vm_id] + owners,
                seq![p.0.peer_vm_id, p.1.peer_vm_id] + peers,
            ),
        }
    }
}

/// Whether a console establishment request is malformed: a peer count
/// that would index past the six-word argument vector, or the calling VM
/// among its own peers.
pub open spec fn console_est_invalid(args: Seq<u64>, self_id: usize) -> bool {
    ||| args[1] > MAX_CONSOLE_PEERS
    ||| exists|k: int| #![trigger console_ids(args)[k]]
        0 <= k < console_ids(args).len() && console_ids(args)[k] == self_id
}

/// [`console_establish_rec`] on `rest`, started from `(s, al)`, with the
/// triples already accumulated prepended to its lists.
pub open spec fn est_continue(
    s: Seq<crate::console::ConsoleConnectionEntry>,
    al: AllocModel,
    self_id: usize,
    rest: Seq<usize>,
    owners: Seq<usize>,
    peers: Seq<usize>,
    addrs: Seq<usize>,
) -> (
    Seq<crate::console::ConsoleConnectionEntry>,
    AllocModel,
    Result<(Seq<usize>, Seq<usize>, Seq<usize>), HvError>,
) {
    let (sf, alf, rr) = console_establish_rec(s, al, self_id, rest);
    match rr {
        Err(e) => (sf, alf, Err(e)),
        Ok(t) => (sf, alf, Ok((owners + t.0, peers + t.1, addrs + t.2))),
    }
}

/// [`console_remove_rec`] on `rest`, started from `(s, al)`, with the
/// pairs already collected prepended to its lists.
pub open spec fn rem_continue(
    s: Seq<crate::console::ConsoleConnectionEntry>,
    al: AllocModel,
    self_id: usize,
    rest: Seq<usize>,
    owners: Seq<usize>,
    peers: Seq<usize>,
) -> (Seq<crate::console::ConsoleConnectionEntry>, AllocModel, Seq<usize>, Seq<usize>) {
    let (sf, alf, o2, p2) = console_remove_rec(s, al, self_id, rest);
    (sf, alf, owners + o2, peers + p2)
}

/// One decoded hypercall: the trapping vCPU and its VM, the opcode, and
/// the six argument words.  Ephemeral: built per trap, dispatched once,
/// never persisted.
pub struct HyperCall {
    pub vcpu_id: usize,
    pub vm_id: usize,
    pub code: HyperCallCode,
    pub args: [u64; 6],
}

impl HyperCall {
    /// Decode a trap's opcode word.  Only the low 32 bits carry the
    /// opcode; a value that names no opcode is rejected with
    /// [`HvError::InvalidInput`] before any side effect.
    pub fn new(vcpu_id: usize, vm_id: usize, code: u64, args: [u64; 6]) -> (r: Result<
        HyperCall,
        HvError,
    >)
        ensures
            r is Ok <==> decode_spec(code as u32) is Some,
            r matches Ok(h) ==> {
                &&& Some(h.code) == decode_spec(code as u32)
                &&& h.vcpu_id == vcpu_id
                &&& h.vm_id == vm_id
                &&& h.args@ == args@
            },
            r matches Err(e) ==> e == HvError::InvalidInput,
    {
        let w = code as u32;
        let decoded = if w == 0 {
            HyperCallCode::HypervisorDisable
        } else if w == 1 {
            HyperCallCode::HypervisorPrepareDisable
        } else if w == 2 {
            HyperCallCode::HypervisorDebug
        } else if w == 3 {
            HyperCallCode::PublishChannel
        } else if w == 4 {
            HyperCallCode::SubscribeChannel
        } else if w == 5 {
            HyperCallCode::UnpublishChannel
        } else if w == 6 {
            HyperCallCode::UnsubscribeChannel
        } else if w == 7 {
            HyperCallCode::EstablishConsoleConnection
        } else if w == 8 {
            HyperCallCode::UnEstablishConsoleConnection
        } else if w == 9 {
            HyperCallCode::SendIpi
        } else {
            return Err(HvError::InvalidInput);
        };
        Ok(HyperCall { vcpu_id, vm_id, code: decoded, args })
    }

    /// Advance a pending dispatch with the collaborator's reply; the
    /// outcome is exactly [`step_spec`].
    pub fn step(&self, state: HvcState, reply: HvcReply) -> (r: HvcStatus)
        ensures
            r == step_spec(state, reply),
    {
        match (state, reply) {
            (HvcState::FireAndForget, _) => HvcStatus::Done { result: Ok(0) },
            (_, HvcReply::Failed(e)) => HvcStatus::Done { result: Err(e) },
            (HvcState::PubAwaitSize { vm_id, key, base_ptr, size_ptr }, HvcReply::Size(sz)) => {
                HvcStatus::Next {
                    state: HvcState::PubAwaitWindow { vm_id, key, base_ptr, size_ptr },
                    effect: HvcEffect::ReserveWindow { size: sz },
                }
            },
            (
                HvcState::PubAwaitWindow { vm_id, key, base_ptr, size_ptr },
                HvcReply::Pair(gpa, wsz),
            ) => {
                HvcStatus::Next {
                    state: HvcState::PubAwaitChannel { vm_id, key, base_ptr, size_ptr, gpa },
                    effect: HvcEffect::CreateChannel { vm_id, key, size: wsz, gpa },
                }
            },
            (
                HvcState::PubAwaitChannel { vm_id, key, base_ptr, size_ptr, gpa },
                HvcReply::Pair(hpa, actual),
            ) => {
                HvcStatus::Next {
                    state: HvcState::PubAwaitMap {
                        vm_id,
                        key,
                        base_ptr,
                        size_ptr,
                        gpa,
                        size: actual,
                    },
                    effect: HvcEffect::MapRegion { gpa, hpa, size: actual },
                }
            },
            (
                HvcState::PubAwaitMap { vm_id, key, base_ptr, size_ptr, gpa, size },
                HvcReply::Unit,
            ) => {
                HvcStatus::Next {
                    state: HvcState::PubAwaitBaseWrite { vm_id, key, size_ptr, size },
                    effect: HvcEffect::WriteGuestUsize { addr: base_ptr, value: gpa },
                }
            },
            (HvcState::PubAwaitBaseWrite { vm_id, key, size_ptr, size }, HvcReply::Unit) => {
                HvcStatus::Next {
                    state: HvcState::PubAwaitSizeWrite { vm_id, key },
                    effect: HvcEffect::WriteGuestUsize { addr: size_ptr, value: size },
                }
            },
            (HvcState::PubAwaitSizeWrite { vm_id, key }, HvcReply::Unit) => {
                HvcStatus::Next {
                    state: HvcState::AwaitFinal,
                    effect: HvcEffect::InsertChannel { vm_id, key },
                }
            },
            (
                HvcState::SubAwaitSize { vm_id, publisher_vm_id, key, base_ptr, size_ptr },
                HvcReply::Size(sz),
            ) => {
                HvcStatus::Next {
                    state: HvcState::SubAwaitWindow {
                        vm_id,
                        publisher_vm_id,
                        key,
                        base_ptr,
                        size_ptr,
                    },
                    effect: HvcEffect::ReserveWindow { size: sz },
                }
            },
            (
                HvcState::SubAwaitWindow { vm_id, publisher_vm_id, key, base_ptr, size_ptr },
                HvcReply::Pair(gpa, _wsz),
            ) => {
                HvcStatus::Next {
                    state: HvcState::SubAwaitRegistry { base_ptr, size_ptr, gpa },
                    effect: HvcEffect::Subscribe {
                        publisher_vm_id,
                        key,
                        subscriber_vm_id: vm_id,
                        gpa,
                    },
                }
            },
            (
                HvcState::SubAwaitRegistry { base_ptr, size_ptr, gpa },
                HvcReply::Pair(hpa, actual),
            ) => {
                HvcStatus::Next {
                    state: HvcState::SubAwaitMap { base_ptr, size_ptr, gpa, size: actual },
                    effect: HvcEffect::MapRegion { gpa, hpa, size: actual },
                }
            },
            (HvcState::SubAwaitMap { base_ptr, size_ptr, gpa, size }, HvcReply::Unit) => {
                HvcStatus::Next {
                    state: HvcState::SubAwaitBaseWrite { size_ptr, size },
                    effect: HvcEffect::WriteGuestUsize { addr: base_ptr, value: gpa },
                }
            },
            (HvcState::SubAwaitBaseWrite { size_ptr, size }, HvcReply::Unit) => {
                HvcStatus::Next {
                    state: HvcState::AwaitFinal,
                    effect: HvcEffect::WriteGuestUsize { addr: size_ptr, value: size },
                }
            },
            (HvcState::AwaitRegionInfo, HvcReply::Pair(gpa, size)) => {
                HvcStatus::Next {
                    state: HvcState::AwaitFinal,
                    effect: HvcEffect::UnmapRegion { gpa, size },
                }
            },
            (HvcState::AwaitFinal, HvcReply::Unit) => HvcStatus::Done { result: Ok(0) },
            _ => HvcStatus::Done { result: Err(HvError::InvalidInput) },
        }
    }

    /// Dispatch the call: run the matching protocol.  Console protocols
    /// complete their table work here and leave only the fire-and-forget
    /// device update pending; the channel and interrupt protocols emit
    /// their first effect.  Single-shot and synchronous: the caller
    /// performs each effect and feeds the reply to [`HyperCall::step`]
    /// until a terminal status.
    pub fn execute(&self, mgr: &mut ConsoleConnectionManager, pal: &mut PageAllocator) -> (r:
        HvcStatus)
        requires
            old(mgr).wf(),
            alloc_wf(old(pal)@),
        ensures
            final(mgr).wf(),
            alloc_wf(final(pal)@),
            !(self.code is EstablishConsoleConnection || self.code
                is UnEstablishConsoleConnection) ==> {
                &&& final(mgr)@ == old(mgr)@
                &&& final(pal)@ == old(pal)@
            },
            (self.code is HypervisorDisable || self.code is HypervisorPrepareDisable || self.code
                is HypervisorDebug) ==> r == (HvcStatus::Done {
                result: Err(HvError::Unsupported),
            }),
            self.code is PublishChannel ==> r == (HvcStatus::Next {
                state: HvcState::PubAwaitSize {
                    vm_id: self.vm_id,
                    key: self.args@[0] as usize,
                    base_ptr: self.args@[1] as usize,
                    size_ptr: self.args@[2] as usize,
                },
                effect: HvcEffect::ReadGuestUsize { addr: self.args@[2] as usize },
            }),
            self.code is UnpublishChannel ==> r == (HvcStatus::Next {
                state: HvcState::AwaitRegionInfo,
                effect: HvcEffect::Unpublish { vm_id: self.vm_id, key: self.args@[0] as usize },
            }),
            self.code is SubscribeChannel ==> r == (HvcStatus::Next {
                state: HvcState::SubAwaitSize {
                    vm_id: self.vm_id,
                    publisher_vm_id: self.args@[0] as usize,
                    key: self.args@[1] as usize,
                    base_ptr: self.args@[2] as usize,
                    size_ptr: self.args@[3] as usize,
                },
                effect: HvcEffect::QueryChannelSize {
                    publisher_vm_id: self.args@[0] as usize,
                    key: self.args@[1] as usize,
                },
            }),
            self.code is UnsubscribeChannel ==> r == (HvcStatus::Next {
                state: HvcState::AwaitRegionInfo,
                effect: HvcEffect::Unsubscribe {
                    publisher_vm_id: self.args@[0] as usize,
                    key: self.args@[1] as usize,
                    subscriber_vm_id: self.vm_id,
                },
            }),
            self.code is SendIpi ==> {
                if self.args@[2] as usize >= VCPU_MASK_BITS {
                    r == (HvcStatus::Done { result: Ok(0) })
                } else {
                    r matches HvcStatus::Next { state, effect } && ({
                        &&& state is FireAndForget
                        &&& (effect matches HvcEffect::InjectInterrupt {
                            target_vm_id,
                            target_vcpu_id,
                            vector,
                            mask,
                        } && target_vm_id == self.args@[1] as usize && target_vcpu_id
                            == self.args@[2] as usize && vector == self.args@[3] as usize
                            && mask_bits(mask) == Set::empty().insert(
                            self.args@[2] as usize as int,
                        ))
                    })
                }
            },
            self.code is EstablishConsoleConnection ==> {
                if console_est_invalid(self.args@, self.vm_id) {
                    &&& r == (HvcStatus::Done { result: Err(HvError::InvalidInput) })
                    &&& final(mgr)@ == old(mgr)@
                    &&& final(pal)@ == old(pal)@
                } else {
                    let (s2, al2, res) = console_establish_rec(
                        old(mgr)@,
                        old(pal)@,
                        self.vm_id,
                        console_ids(self.args@),
                    );
                    &&& final(mgr)@ == s2
                    &&& final(pal)@ == al2
                    &&& match res {
                        Err(e) => r == (HvcStatus::Done { result: Err(e) }),
                        Ok(t) => r matches HvcStatus::Next { state, effect } && ({
                            &&& state is FireAndForget
                            &&& (effect matches HvcEffect::UpdateConsole {
                                owner_vm_ids,
                                peer_vm_ids,
                                buffer_addrs,
                            } && owner_vm_ids@ == t.0 && peer_vm_ids@ == t.1 && buffer_addrs@
                                == t.2)
                        }),
                    }
                }
            },
            self.code is UnEstablishConsoleConnection ==> {
                if self.args@[1] > MAX_CONSOLE_PEERS {
                    &&& r == (HvcStatus::Done { result: Err(HvError::InvalidInput) })
                    &&& final(mgr)@ == old(mgr)@
                    &&& final(pal)@ == old(pal)@
                } else {
                    let (s2, al2, owners, peers) = console_remove_rec(
                        old(mgr)@,
                        old(pal)@,
                        self.vm_id,
                        console_ids(self.args@),
                    );
                    &&& final(mgr)@ == s2
                    &&& final(pal)@ == al2
                    &&& r matches HvcStatus::Next { state, effect } && ({
                        &&& state is FireAndForget
                        &&& (effect matches HvcEffect::RemoveConsole { owner_vm_ids, peer_vm_ids }
                            && owner_vm_ids@ == owners && peer_vm_ids@ == peers)
                    })
                }
            },
    {
        match self.code {
            HyperCallCode::HypervisorDisable | HyperCallCode::HypervisorPrepareDisable
                | HyperCallCode::HypervisorDebug => {
                HvcStatus::Done { result: Err(HvError::Unsupported) }
            },
            HyperCallCode::PublishChannel => {
                let key = self.args[0] as usize;
                let base_ptr = self.args[1] as usize;
                let size_ptr = self.args[2] as usize;
                HvcStatus::Next {
                    state: HvcState::PubAwaitSize { vm_id: self.vm_id, key, base_ptr, size_ptr },
                    effect: HvcEffect::ReadGuestUsize { addr: size_ptr },
                }
            },
            HyperCallCode::UnpublishChannel => {
                HvcStatus::Next {
                    state: HvcState::AwaitRegionInfo,
                    effect: HvcEffect::Unpublish {
                        vm_id: self.vm_id,
                        key: self.args[0] as usize,
                    },
                }
            },
            HyperCallCode::SubscribeChannel => {
                let publisher_vm_id = self.args[0] as usize;
                let key = self.args[1] as usize;
                let base_ptr = self.args[2] as usize;
                let size_ptr = self.args[3] as usize;
                HvcStatus::Next {
                    state: HvcState::SubAwaitSize {
                        vm_id: self.vm_id,
                        publisher_vm_id,
                        key,
                        base_ptr,
                        size_ptr,
                    },
                    effect: HvcEffect::QueryChannelSize { publisher_vm_id, key },
                }
            },
            HyperCallCode::UnsubscribeChannel => {
                HvcStatus::Next {
                    state: HvcState::AwaitRegionInfo,
                    effect: HvcEffect::Unsubscribe {
                        publisher_vm_id: self.args[0] as usize,
                        key: self.args[1] as usize,
                        subscriber_vm_id: self.vm_id,
                    },
                }
            },
            HyperCallCode::SendIpi => {
                let target_vcpu_id = self.args[2] as usize;
                if target_vcpu_id >= VCPU_MASK_BITS {
                    // No mask can select this vCPU; a bad target is
                    // swallowed like any other injection failure.
                    return HvcStatus::Done { result: Ok(0) };
                }
                let mask = single_vcpu_mask(target_vcpu_id);
                HvcStatus::Next {
                    state: HvcState::FireAndForget,
                    effect: HvcEffect::InjectInterrupt {
                        target_vm_id: self.args[1] as usize,
                        target_vcpu_id,
                        vector: self.args[3] as usize,
                        mask,
                    },
                }
            },
            HyperCallCode::EstablishConsoleConnection => self.run_console_establish(mgr, pal),
            HyperCallCode::UnEstablishConsoleConnection => self.run_console_remove(mgr, pal),
        }
    }

    /// The console establishment protocol: validate the peer list, then
    /// establish a connection to each peer and accumulate two reporting
    /// triples per peer — the send buffer's, then the receive buffer's.
    fn run_console_establish(
        &self,
        mgr: &mut ConsoleConnectionManager,
        pal: &mut PageAllocator,
    ) -> (r: HvcStatus)
        requires
            old(mgr).wf(),
            alloc_wf(old(pal)@),
        ensures
            final(mgr).wf(),
            alloc_wf(final(pal)@),
            ({
                if console_est_invalid(self.args@, self.vm_id) {
                    &&& r == (HvcStatus::Done { result: Err(HvError::InvalidInput) })
                    &&& final(mgr)@ == old(mgr)@
                    &&& final(pal)@ == old(pal)@
                } else {
                    let (s2, al2, res) = console_establish_rec(
                        old(mgr)@,
                        old(pal)@,
                        self.vm_id,
                        console_ids(self.args@),
                    );
                    &&& final(mgr)@ == s2
                    &&& final(pal)@ == al2
                    &&& match res {
                        Err(e) => r == (HvcStatus::Done { result: Err(e) }),
                        Ok(t) => r matches HvcStatus::Next { state, effect } && ({
                            &&& state is FireAndForget
                            &&& (effect matches HvcEffect::UpdateConsole {
                                owner_vm_ids,
                                peer_vm_ids,
                                buffer_addrs,
                            } && owner_vm_ids@ == t.0 && peer_vm_ids@ == t.1 && buffer_addrs@
                                == t.2)
                        }),
                    }
                }
            }),
    {
        let ghost idseq = console_ids(self.args@);
        if self.args[1] > MAX_CONSOLE_PEERS as u64 {
            proof {
                assert(console_est_invalid(self.args@, self.vm_id));
            }
            return HvcStatus::Done { result: Err(HvError::InvalidInput) };
        }
        let count = self.args[1] as usize;
        proof {
            assert(idseq.len() == count);
        }
        let mut ids: Vec<usize> = Vec::new();
        let mut i: usize = 0;
        while i < count
            invariant
                mgr.wf(),
                alloc_wf(pal@),
                mgr@ == old(mgr)@,
                pal@ == old(pal)@,
                count <= MAX_CONSOLE_PEERS,
                count == self.args@[1] as usize,
                i <= count,
                idseq == console_ids(self.args@),
                idseq.len() == count,
                ids@ == idseq.take(i as int),
                forall|k: int| #![trigger idseq[k]] 0 <= k < i ==> idseq[k] != self.vm_id,
            decreases count - i,
        {
            let id = self.args[2 + i] as usize;
            proof {
                assert(idseq[i as int] == id);
                assert(idseq.take(i as int + 1) =~= idseq.take(i as int).push(id));
            }
            if id == self.vm_id {
                proof {
                    assert(idseq[i as int] == self.vm_id);
                    assert(console_est_invalid(self.args@, self.vm_id));
                }
                return HvcStatus::Done { result: Err(HvError::InvalidInput) };
            }
            ids.push(id);
            i += 1;
        }
        proof {
            assert(ids@ =~= idseq);
            assert(!console_est_invalid(self.args@, self.vm_id));
        }
        let mut owner_vm_ids: Vec<usize> = Vec::new();
        let mut peer_vm_ids: Vec<usize> = Vec::new();
        let mut buffer_addrs: Vec<usize> = Vec::new();
        proof {
            assert(idseq.skip(0) =~= idseq);
            let rec_all = console_establish_rec(mgr@, pal@, self.vm_id, idseq);
            match rec_all.2 {
                Err(_) => {},
                Ok(t) => {
                    assert(Seq::<usize>::empty() + t.0 =~= t.0);
                    assert(Seq::<usize>::empty() + t.1 =~= t.1);
                    assert(Seq::<usize>::empty() + t.2 =~= t.2);
                },
            }
        }
        let mut k: usize = 0;
        while k < count
            invariant
                old(mgr).wf(),
                alloc_wf(old(pal)@),
                mgr.wf(),
                alloc_wf(pal@),
                k <= count,
                count <= MAX_CONSOLE_PEERS,
                self.args@[1] <= MAX_CONSOLE_PEERS,
                count == ids@.len(),
                idseq == console_ids(self.args@),
                ids@ == idseq,
                forall|j: int| #![trigger idseq[j]] 0 <= j < count ==> idseq[j] != self.vm_id,
                est_continue(
                    mgr@,
                    pal@,
                    self.vm_id,
                    idseq.skip(k as int),
                    owner_vm_ids@,
                    peer_vm_ids@,
                    buffer_addrs@,
                ) == console_establish_rec(old(mgr)@, old(pal)@, self.vm_id, idseq),
            decreases count - k,
        {
            let ghost s_pre = mgr@;
            let ghost al_pre = pal@;
            let ghost rest = idseq.skip(k as int);
            let ghost o_pre = owner_vm_ids@;
            let ghost p_pre = peer_vm_ids@;
            let ghost a_pre = buffer_addrs@;
            let dst = ids[k];
            proof {
                assert(rest.len() == count - k);
                assert(rest[0] == idseq[k as int]);
            }
            let pair = match mgr.establish_connection(pal, self.vm_id, dst, PAGE_SIZE) {
                Ok(p) => p,
                Err(_) => {
                    proof {
                        let rec_here = console_establish_rec(s_pre, al_pre, self.vm_id, rest);
                        assert(rec_here.0 == mgr@ && rec_here.1 == pal@);
                        assert(rec_here.2 == Err::<(Seq<usize>, Seq<usize>, Seq<usize>), HvError>(
                            HvError::OutOfMemory,
                        ));
                    }
                    return HvcStatus::Done { result: Err(HvError::OutOfMemory) };
                },
            };
            owner_vm_ids.push(pair.0.owner_vm_id);
            peer_vm_ids.push(pair.0.peer_vm_id);
            buffer_addrs.push(pair.0.buffer_base);
            owner_vm_ids.push(pair.1.owner_vm_id);
            peer_vm_ids.push(pair.1.peer_vm_id);
            buffer_addrs.push(pair.1.buffer_base);
            proof {
                assert(rest.drop_first() =~= idseq.skip(k as int + 1));
                let step1 = establish_step(s_pre, al_pre, self.vm_id, dst, PAGE_SIZE);
                assert(mgr@ == step1.0 && pal@ == step1.1);
                let rec_next = console_establish_rec(mgr@, pal@, self.vm_id, idseq.skip(
                    k as int + 1,
                ));
                let rec_here = console_establish_rec(s_pre, al_pre, self.vm_id, rest);
                match rec_next.2 {
                    Err(_) => {},
                    Ok(t) => {
                        let d1 = pair.0.owner_vm_id;
                        let d2 = pair.1.owner_vm_id;
                        assert(o_pre.push(d1).push(d2) + t.0 =~= o_pre + (seq![d1, d2] + t.0));
                        let e1 = pair.0.peer_vm_id;
                        let e2 = pair.1.peer_vm_id;
                        assert(p_pre.push(e1).push(e2) + t.1 =~= p_pre + (seq![e1, e2] + t.1));
                        let f1 = pair.0.buffer_base;
                        let f2 = pair.1.buffer_base;
                        assert(a_pre.push(f1).push(f2) + t.2 =~= a_pre + (seq![f1, f2] + t.2));
                    },
                }
            }
            k += 1;
        }
        proof {
            assert(idseq.skip(count as int) =~= Seq::<usize>::empty());
            assert(owner_vm_ids@ + Seq::<usize>::empty() =~= owner_vm_ids@);
            assert(peer_vm_ids@ + Seq::<usize>::empty() =~= peer_vm_ids@);
            assert(buffer_addrs@ + Seq::<usize>::empty() =~= buffer_addrs@);
        }
        HvcStatus::Next {
            state: HvcState::FireAndForget,
            effect: HvcEffect::UpdateConsole { owner_vm_ids, peer_vm_ids, buffer_addrs },
        }
    }

    /// The console teardown protocol: collect the reporting pairs of
    /// every peer that still has a connection, remove each connection
    /// unconditionally, and hand the collected pairs to the device.
    fn run_console_remove(&self, mgr: &mut ConsoleConnectionManager, pal: &mut PageAllocator) -> (r:
        HvcStatus)
        requires
            old(mgr).wf(),
            alloc_wf(old(pal)@),
        ensures
            final(mgr).wf(),
            alloc_wf(final(pal)@),
            ({
                if self.args@[1] > MAX_CONSOLE_PEERS {
                    &&& r == (HvcStatus::Done { result: Err(HvError::InvalidInput) })
                    &&& final(mgr)@ == old(mgr)@
                    &&& final(pal)@ == old(pal)@
                } else {
                    let (s2, al2, owners, peers) = console_remove_rec(
                        old(mgr)@,
                        old(pal)@,
                        self.vm_id,
                        console_ids(self.args@),
                    );
                    &&& final(mgr)@ == s2
                    &&& final(pal)@ == al2
                    &&& r matches HvcStatus::Next { state, effect } && ({
                        &&& state is FireAndForget
                        &&& (effect matches HvcEffect::RemoveConsole { owner_vm_ids, peer_vm_ids }
                            && owner_vm_ids@ == owners && peer_vm_ids@ == peers)
                    })
                }
            }),
    {
        let ghost idseq = console_ids(self.args@);
        if self.args[1] > MAX_CONSOLE_PEERS as u64 {
            return HvcStatus::Done { result: Err(HvError::InvalidInput) };
        }
        let count = self.args[1] as usize;
        proof {
            assert(idseq.len() == count);
        }
        let mut owner_vm_ids: Vec<usize> = Vec::new();
        let mut peer_vm_ids: Vec<usize> = Vec::new();
        proof {
            assert(idseq.skip(0) =~= idseq);
            let rec_all = console_remove_rec(mgr@, pal@, self.vm_id, idseq);
            assert(Seq::<usize>::empty() + rec_all.2 =~= rec_all.2);
            assert(Seq::<usize>::empty() + rec_all.3 =~= rec_all.3);
        }
        let mut k: usize = 0;
        while k < count
            invariant
                old(mgr).wf(),
                alloc_wf(old(pal)@),
                mgr.wf(),
                alloc_wf(pal@),
                k <= count,
                count <= MAX_CONSOLE_PEERS,
                self.args@[1] <= MAX_CONSOLE_PEERS,
                count == self.args@[1] as usize,
                idseq == console_ids(self.args@),
                idseq.len() == count,
                rem_continue(
                    mgr@,
                    pal@,
                    self.vm_id,
                    idseq.skip(k as int),
                    owner_vm_ids@,
                    peer_vm_ids@,
                ) == console_remove_rec(old(mgr)@, old(pal)@, self.vm_id, idseq),
            decreases count - k,
        {
            let ghost s_pre = mgr@;
            let ghost al_pre = pal@;
            let ghost rest = idseq.skip(k as int);
            let ghost o_pre = owner_vm_ids@;
            let ghost p_pre = peer_vm_ids@;
            let dst = self.args[2 + k] as usize;
            proof {
                assert(rest.len() == count - k);
                assert(rest[0] == idseq[k as int]);
                assert(idseq[k as int] == dst);
            }
            let looked = mgr.get_buffers(self.vm_id, dst);
            match looked {
                Some(p) => {
                    owner_vm_ids.push(p.0.owner_vm_id);
                    owner_vm_ids.push(p.1.owner_vm_id);
                    peer_vm_ids.push(p.0.peer_vm_id);
                    peer_vm_ids.push(p.1.peer_vm_id);
                },
                None => {},
            }
            mgr.remove_connection(pal, self.vm_id, dst);
            proof {
                assert(rest.drop_first() =~= idseq.skip(k as int + 1));
                let rec_next = console_remove_rec(mgr@, pal@, self.vm_id, idseq.skip(k as int + 1));
                match lookup_spec(s_pre, self.vm_id, dst) {
                    None => {},
                    Some(p) => {
                        let d1 = p.0.owner_vm_id;
                        let d2 = p.1.owner_vm_id;
                        assert(o_pre.push(d1).push(d2) + rec_next.2 =~= o_pre + (seq![d1, d2]
                            + rec_next.2));
                        let e1 = p.0.peer_vm_id;
                        let e2 = p.1.peer_vm_id;
                        assert(p_pre.push(e1).push(e2) + rec_next.3 =~= p_pre + (seq![e1, e2]
                            + rec_next.3));
                    },
                }
            }
            k += 1;
        }
        proof {
            assert(idseq.skip(count as int) =~= Seq::<usize>::empty());
            assert(owner_vm_ids@ + Seq::<usize>::empty() =~= owner_vm_ids@);
            assert(peer_vm_ids@ + Seq::<usize>::empty() =~= peer_vm_ids@);
        }
        HvcStatus::Next {
            state: HvcState::FireAndForget,
            effect: HvcEffect::RemoveConsole { owner_vm_ids, peer_vm_ids },
        }
    }
}

} // verus!
