use vmm_ivc::HvError;
use vmm_ivc::console::ConsoleConnectionManager;
use vmm_ivc::hvc::HvcEffect;
use vmm_ivc::hvc::HvcReply;
use vmm_ivc::hvc::HvcState;
use vmm_ivc::hvc::HvcStatus;
use vmm_ivc::hvc::HyperCall;
use vmm_ivc::hvc::HyperCallCode;
use vmm_ivc::palloc::PageAllocator;

fn next_of(status: HvcStatus) -> (HvcState, HvcEffect) {
    match status {
        HvcStatus::Next { state, effect } => (state, effect),
        HvcStatus::Done { result } => panic!("dispatch ended early: {:?}", result),
    }
}

fn done_of(status: HvcStatus) -> Result<usize, HvError> {
    match status {
        HvcStatus::Done { result } => result,
        HvcStatus::Next { .. } => panic!("dispatch still pending"),
    }
}

#[test]
fn opcode_validation_rejects_out_of_range_values() {
    let args = [0u64; 6];
    for bad in [10u64, 999, 0x8400_0000, u32::MAX as u64] {
        match HyperCall::new(0, 1, bad, args) {
            Err(e) => assert_eq!(e, HvError::InvalidInput),
            Ok(_) => panic!("opcode {bad:#x} must not decode"),
        }
    }
    // Construction performs no side effect: a fresh table and allocator
    // stay empty whatever was decoded or rejected.
    let pal = PageAllocator::new();
    let mgr = ConsoleConnectionManager::new();
    let _ = HyperCall::new(0, 1, 999, args);
    assert_eq!(pal.live_count(), 0);
    assert!(mgr.get_buffers(1, 2).is_none());
}

#[test]
fn decode_matches_published_wire_values() {
    // The published hypercall ABI assigns 3..=6 to the channel operations
    // and 0 to hypervisor disable; the decoder must agree with it.
    assert!(matches!(axhvc::HyperCallCode::try_from(3u32), Ok(axhvc::HyperCallCode::HIVCPublishChannel)));
    assert!(matches!(axhvc::HyperCallCode::try_from(4u32), Ok(axhvc::HyperCallCode::HIVCSubscribChannel)));
    assert!(matches!(axhvc::HyperCallCode::try_from(5u32), Ok(axhvc::HyperCallCode::HIVCUnPublishChannel)));
    assert!(matches!(axhvc::HyperCallCode::try_from(6u32), Ok(axhvc::HyperCallCode::HIVCUnSubscribChannel)));
    let args = [0u64; 6];
    assert_eq!(HyperCall::new(0, 1, 3, args).unwrap().code, HyperCallCode::PublishChannel);
    assert_eq!(HyperCall::new(0, 1, 4, args).unwrap().code, HyperCallCode::SubscribeChannel);
    assert_eq!(HyperCall::new(0, 1, 5, args).unwrap().code, HyperCallCode::UnpublishChannel);
    assert_eq!(HyperCall::new(0, 1, 6, args).unwrap().code, HyperCallCode::UnsubscribeChannel);
    assert_eq!(HyperCall::new(0, 1, 0, args).unwrap().code, HyperCallCode::HypervisorDisable);
}

#[test]
fn decode_uses_low_32_bits_only() {
    let args = [0u64; 6];
    let call = HyperCall::new(0, 1, (1u64 << 32) | 3, args).unwrap();
    assert_eq!(call.code, HyperCallCode::PublishChannel);
}

#[test]
fn hypervisor_control_codes_are_unsupported_here() {
    let mut pal = PageAllocator::new();
    let mut mgr = ConsoleConnectionManager::new();
    for code in 0u64..=2 {
        let call = HyperCall::new(0, 1, code, [0u64; 6]).unwrap();
        let r = done_of(call.execute(&mut mgr, &mut pal));
        assert_eq!(r, Err(HvError::Unsupported));
    }
}

#[test]
fn publish_channel_scenario() {
    // VM 3 publishes channel key 0x10 with a requested size of 8192.
    let mut pal = PageAllocator::new();
    let mut mgr = ConsoleConnectionManager::new();
    let base_ptr = 0x9000u64;
    let size_ptr = 0x9008u64;
    let call = HyperCall::new(0, 3, 3, [0x10, base_ptr, size_ptr, 0, 0, 0]).unwrap();

    let (st, eff) = next_of(call.execute(&mut mgr, &mut pal));
    assert!(matches!(eff, HvcEffect::ReadGuestUsize { addr: 0x9008 }));

    // The guest asked for 8192 bytes.
    let (st, eff) = next_of(call.step(st, HvcReply::Size(8192)));
    assert!(matches!(eff, HvcEffect::ReserveWindow { size: 8192 }));

    // The VM reserves a page-aligned window of the page-rounded size.
    let window_gpa = 0x4000_0000usize;
    let (st, eff) = next_of(call.step(st, HvcReply::Pair(window_gpa, 8192)));
    match eff {
        HvcEffect::CreateChannel { vm_id, key, size, gpa } => {
            assert_eq!((vm_id, key, size, gpa), (3, 0x10, 8192, window_gpa));
        },
        _ => panic!("expected channel creation"),
    }

    // The registry created the channel at some host base.
    let host_base = 0x8880_0000usize;
    let (st, eff) = next_of(call.step(st, HvcReply::Pair(host_base, 8192)));
    assert!(
        matches!(eff, HvcEffect::MapRegion { gpa, hpa, size } if gpa == window_gpa && hpa == host_base && size == 8192)
    );

    // The guest-visible base is page-aligned, the size covers the request.
    let (st, eff) = next_of(call.step(st, HvcReply::Unit));
    match eff {
        HvcEffect::WriteGuestUsize { addr, value } => {
            assert_eq!(addr, 0x9000);
            assert_eq!(value % 4096, 0);
            assert_eq!(value, window_gpa);
        },
        _ => panic!("expected base write-back"),
    }
    let (st, eff) = next_of(call.step(st, HvcReply::Unit));
    match eff {
        HvcEffect::WriteGuestUsize { addr, value } => {
            assert_eq!(addr, 0x9008);
            assert!(value >= 8192);
            assert_eq!(value % 4096, 0);
        },
        _ => panic!("expected size write-back"),
    }

    let (st, eff) = next_of(call.step(st, HvcReply::Unit));
    assert!(matches!(eff, HvcEffect::InsertChannel { vm_id: 3, key: 0x10 }));
    assert_eq!(done_of(call.step(st, HvcReply::Unit)), Ok(0));
}

#[test]
fn publish_propagates_window_exhaustion() {
    let mut pal = PageAllocator::new();
    let mut mgr = ConsoleConnectionManager::new();
    let call = HyperCall::new(0, 3, 3, [0x10, 0x9000, 0x9008, 0, 0, 0]).unwrap();
    let (st, _) = next_of(call.execute(&mut mgr, &mut pal));
    let (st, _) = next_of(call.step(st, HvcReply::Size(8192)));
    let r = done_of(call.step(st, HvcReply::Failed(HvError::OutOfMemory)));
    assert_eq!(r, Err(HvError::OutOfMemory));
}

#[test]
fn subscribe_channel_walks_registry_and_maps() {
    let mut pal = PageAllocator::new();
    let mut mgr = ConsoleConnectionManager::new();
    // VM 5 subscribes to channel (publisher 3, key 0x10).
    let call = HyperCall::new(0, 5, 4, [3, 0x10, 0xa000, 0xa008, 0, 0]).unwrap();
    let (st, eff) = next_of(call.execute(&mut mgr, &mut pal));
    assert!(matches!(eff, HvcEffect::QueryChannelSize { publisher_vm_id: 3, key: 0x10 }));
    let (st, eff) = next_of(call.step(st, HvcReply::Size(8192)));
    assert!(matches!(eff, HvcEffect::ReserveWindow { size: 8192 }));
    let (st, eff) = next_of(call.step(st, HvcReply::Pair(0x5000_0000, 8192)));
    assert!(matches!(
        eff,
        HvcEffect::Subscribe { publisher_vm_id: 3, key: 0x10, subscriber_vm_id: 5, gpa: 0x5000_0000 }
    ));
    let (st, eff) = next_of(call.step(st, HvcReply::Pair(0x8880_0000, 8192)));
    assert!(
        matches!(eff, HvcEffect::MapRegion { gpa, hpa, size } if gpa == 0x5000_0000 && hpa == 0x8880_0000 && size == 8192)
    );
    let (st, eff) = next_of(call.step(st, HvcReply::Unit));
    assert!(matches!(eff, HvcEffect::WriteGuestUsize { addr: 0xa000, value: 0x5000_0000 }));
    let (st, eff) = next_of(call.step(st, HvcReply::Unit));
    assert!(matches!(eff, HvcEffect::WriteGuestUsize { addr: 0xa008, value: 8192 }));
    assert_eq!(done_of(call.step(st, HvcReply::Unit)), Ok(0));
}

#[test]
fn unpublish_missing_channel_is_not_found() {
    let mut pal = PageAllocator::new();
    let mut mgr = ConsoleConnectionManager::new();
    let call = HyperCall::new(0, 3, 5, [0x10, 0, 0, 0, 0, 0]).unwrap();
    let (st, eff) = next_of(call.execute(&mut mgr, &mut pal));
    assert!(matches!(eff, HvcEffect::Unpublish { vm_id: 3, key: 0x10 }));
    let r = done_of(call.step(st, HvcReply::Failed(HvError::NotFound)));
    assert_eq!(r, Err(HvError::NotFound));
}

#[test]
fn unpublish_unmaps_the_returned_window() {
    let mut pal = PageAllocator::new();
    let mut mgr = ConsoleConnectionManager::new();
    let call = HyperCall::new(0, 3, 5, [0x10, 0, 0, 0, 0, 0]).unwrap();
    let (st, _) = next_of(call.execute(&mut mgr, &mut pal));
    let (st, eff) = next_of(call.step(st, HvcReply::Pair(0x4000_0000, 8192)));
    assert!(matches!(eff, HvcEffect::UnmapRegion { gpa: 0x4000_0000, size: 8192 }));
    assert_eq!(done_of(call.step(st, HvcReply::Unit)), Ok(0));
}

#[test]
fn unsubscribe_unmaps_the_returned_window() {
    let mut pal = PageAllocator::new();
    let mut mgr = ConsoleConnectionManager::new();
    let call = HyperCall::new(0, 5, 6, [3, 0x10, 0, 0, 0, 0]).unwrap();
    let (st, eff) = next_of(call.execute(&mut mgr, &mut pal));
    assert!(matches!(
        eff,
        HvcEffect::Unsubscribe { publisher_vm_id: 3, key: 0x10, subscriber_vm_id: 5 }
    ));
    let (st, eff) = next_of(call.step(st, HvcReply::Pair(0x5000_0000, 8192)));
    assert!(matches!(eff, HvcEffect::UnmapRegion { gpa: 0x5000_0000, size: 8192 }));
    assert_eq!(done_of(call.step(st, HvcReply::Unit)), Ok(0));
}

#[test]
fn send_ipi_reports_success_even_when_injection_fails() {
    let mut pal = PageAllocator::new();
    let mut mgr = ConsoleConnectionManager::new();
    let call = HyperCall::new(0, 1, 9, [0, 4, 2, 33, 0, 0]).unwrap();
    let (st, eff) = next_of(call.execute(&mut mgr, &mut pal));
    match eff {
        HvcEffect::InjectInterrupt { target_vm_id, target_vcpu_id, vector, mask } => {
            assert_eq!((target_vm_id, target_vcpu_id, vector), (4, 2, 33));
            // The mask selects exactly the target vCPU.
            assert!(mask.bit(2));
            for other in [0, 1, 3, 4, 63] {
                assert!(!mask.bit(other));
            }
        },
        _ => panic!("expected an interrupt injection"),
    }
    assert_eq!(done_of(call.step(st, HvcReply::Failed(HvError::NotFound))), Ok(0));
    // A successful injection reports the same success.
    let (st2, _) = next_of(call.execute(&mut mgr, &mut pal));
    assert_eq!(done_of(call.step(st2, HvcReply::Unit)), Ok(0));
}

#[test]
fn send_ipi_to_unmaskable_vcpu_is_swallowed() {
    let mut pal = PageAllocator::new();
    let mut mgr = ConsoleConnectionManager::new();
    let call = HyperCall::new(0, 1, 9, [0, 4, 64, 33, 0, 0]).unwrap();
    assert_eq!(done_of(call.execute(&mut mgr, &mut pal)), Ok(0));
}

#[test]
fn console_establish_scenario() {
    // VM 1 connects to peers 2 and 3: exactly four reporting triples, in
    // order send 1->2, receive 2->1, send 1->3, receive 3->1.
    let mut pal = PageAllocator::new();
    let mut mgr = ConsoleConnectionManager::new();
    let call = HyperCall::new(0, 1, 7, [0, 2, 2, 3, 0, 0]).unwrap();
    let (st, eff) = next_of(call.execute(&mut mgr, &mut pal));
    let (owners, peers, addrs) = match eff {
        HvcEffect::UpdateConsole { owner_vm_ids, peer_vm_ids, buffer_addrs } => {
            (owner_vm_ids, peer_vm_ids, buffer_addrs)
        },
        _ => panic!("expected a console device update"),
    };
    assert_eq!(owners, vec![1, 2, 1, 3]);
    assert_eq!(peers, vec![2, 1, 3, 1]);
    assert_eq!(addrs.len(), 4);
    let (b12, b21) = mgr.get_buffers(1, 2).unwrap();
    let (b13, b31) = mgr.get_buffers(1, 3).unwrap();
    assert_eq!(addrs, vec![b12.buffer_base, b21.buffer_base, b13.buffer_base, b31.buffer_base]);
    // The device update is fire-and-forget: failure still reports success.
    assert_eq!(done_of(call.step(st, HvcReply::Failed(HvError::NotFound))), Ok(0));
}

#[test]
fn console_establish_rejects_oversized_peer_count() {
    let mut pal = PageAllocator::new();
    let mut mgr = ConsoleConnectionManager::new();
    let call = HyperCall::new(0, 1, 7, [0, 5, 2, 3, 4, 5]).unwrap();
    let r = done_of(call.execute(&mut mgr, &mut pal));
    assert_eq!(r, Err(HvError::InvalidInput));
    assert_eq!(pal.live_count(), 0);
    assert!(mgr.get_buffers(1, 2).is_none());
}

#[test]
fn console_establish_rejects_self_as_peer() {
    let mut pal = PageAllocator::new();
    let mut mgr = ConsoleConnectionManager::new();
    let call = HyperCall::new(0, 1, 7, [0, 2, 2, 1, 0, 0]).unwrap();
    let r = done_of(call.execute(&mut mgr, &mut pal));
    assert_eq!(r, Err(HvError::InvalidInput));
    assert_eq!(pal.live_count(), 0);
}

#[test]
fn console_teardown_collects_pairs_and_removes() {
    let mut pal = PageAllocator::new();
    let mut mgr = ConsoleConnectionManager::new();
    let establish = HyperCall::new(0, 1, 7, [0, 2, 2, 3, 0, 0]).unwrap();
    let (est_st, _) = next_of(establish.execute(&mut mgr, &mut pal));
    assert_eq!(done_of(establish.step(est_st, HvcReply::Unit)), Ok(0));

    let teardown = HyperCall::new(0, 1, 8, [0, 2, 2, 3, 0, 0]).unwrap();
    let (st, eff) = next_of(teardown.execute(&mut mgr, &mut pal));
    match eff {
        HvcEffect::RemoveConsole { owner_vm_ids, peer_vm_ids } => {
            assert_eq!(owner_vm_ids, vec![1, 2, 1, 3]);
            assert_eq!(peer_vm_ids, vec![2, 1, 3, 1]);
        },
        _ => panic!("expected a console device removal"),
    }
    assert!(mgr.get_buffers(1, 2).is_none());
    assert!(mgr.get_buffers(3, 1).is_none());
    assert_eq!(pal.live_count(), 0);
    assert_eq!(done_of(teardown.step(st, HvcReply::Unit)), Ok(0));
}

#[test]
fn console_teardown_of_absent_peers_reports_nothing() {
    let mut pal = PageAllocator::new();
    let mut mgr = ConsoleConnectionManager::new();
    let teardown = HyperCall::new(0, 1, 8, [0, 2, 2, 3, 0, 0]).unwrap();
    let (st, eff) = next_of(teardown.execute(&mut mgr, &mut pal));
    match eff {
        HvcEffect::RemoveConsole { owner_vm_ids, peer_vm_ids } => {
            assert!(owner_vm_ids.is_empty());
            assert!(peer_vm_ids.is_empty());
        },
        _ => panic!("expected a console device removal"),
    }
    assert_eq!(done_of(teardown.step(st, HvcReply::Unit)), Ok(0));
}

#[test]
fn wrong_reply_shape_is_a_protocol_violation() {
    let mut pal = PageAllocator::new();
    let mut mgr = ConsoleConnectionManager::new();
    let call = HyperCall::new(0, 3, 3, [0x10, 0x9000, 0x9008, 0, 0, 0]).unwrap();
    let (st, _) = next_of(call.execute(&mut mgr, &mut pal));
    let r = done_of(call.step(st, HvcReply::Unit));
    assert_eq!(r, Err(HvError::InvalidInput));
}
