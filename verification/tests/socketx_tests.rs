use msnchat_rs::reloc::PatchContext;
use msnchat_rs::socketx::{
    connect_accepted, dual_stack_hints, init, is_supported_family, recv_reported_count,
    send_succeeded, SocketHooks, AF_INET6_FAMILY, V4_MAPPED_FLAG, WOULD_BLOCK_ERROR,
};

#[test]
fn mapped_v4_resolution_stays_supported() {
    // Under dual-stack resolution a v4-only literal like "127.0.0.1"
    // resolves to a mapped address that still carries the IPv6 family; the
    // family check must not spuriously reject it.
    let hints = dual_stack_hints();
    assert_eq!(hints.family, AF_INET6_FAMILY);
    assert_eq!(hints.flags & V4_MAPPED_FLAG, V4_MAPPED_FLAG);
    assert!(is_supported_family(AF_INET6_FAMILY));
}

#[test]
fn other_families_are_rejected() {
    assert!(!is_supported_family(2)); // plain IPv4
    assert!(!is_supported_family(1)); // local
    assert!(!is_supported_family(0)); // unspecified
}

#[test]
fn connect_result_interpretation() {
    assert!(connect_accepted(0, 0)); // immediate success
    assert!(connect_accepted(-1, WOULD_BLOCK_ERROR)); // pending
    assert!(!connect_accepted(-1, 10061)); // refused
}

#[test]
fn send_result_interpretation() {
    assert!(send_succeeded(42, 0));
    assert!(send_succeeded(-1, WOULD_BLOCK_ERROR));
    assert!(!send_succeeded(-1, 10054));
}

#[test]
fn recv_result_interpretation() {
    assert_eq!(recv_reported_count(128, 0), 128);
    assert_eq!(recv_reported_count(0, 0), 0); // orderly close stays 0
    assert_eq!(recv_reported_count(-1, WOULD_BLOCK_ERROR), 0); // pending, not an error
    assert_eq!(recv_reported_count(-1, 10054), -1); // a true error stays an error
    assert_eq!(recv_reported_count(-1, 10061), -1);
}

#[test]
fn socket_plan_rewrites_all_five_entry_points() {
    let ctx = PatchContext::new(0x37200000);
    let hooks = SocketHooks {
        socket_ctor: 0x00401000,
        recv: 0x00402000,
        send: 0x00403000,
        connect: 0x00404000,
        validate_address: 0x00405000,
    };
    let plan = init(&ctx, &hooks);
    assert_eq!(plan.len(), 5);
    let addresses: Vec<usize> = plan.iter().map(|p| p.address).collect();
    assert_eq!(
        addresses,
        vec![0x37232EB9, 0x37232FDD, 0x37233000, 0x37232F1D, 0x3722C405]
    );
    for p in plan.iter() {
        assert_eq!(p.bytes.len(), 5);
        assert_eq!(p.bytes[0], 0xE9); // every entry point becomes a jump
    }
    // spot-check one displacement: 0x00401000 - (0x37232EB9 + 5)
    let disp = (0x00401000u32).wrapping_sub(0x37232EBE);
    assert_eq!(&plan[0].bytes[1..5], &disp.to_le_bytes());
}
