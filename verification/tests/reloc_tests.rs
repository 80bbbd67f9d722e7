use msnchat_rs::reloc::{find_module_base, module_name_matches, ModuleEntry, PatchContext, DLL_NAME};

#[test]
fn adjust_at_preferred_base_is_identity() {
    let ctx = PatchContext::new(0x37200000);
    assert_eq!(ctx.adjust(0x37218743), 0x37218743);
}

#[test]
fn adjust_shifts_forward() {
    let ctx = PatchContext::new(0x50000000);
    assert_eq!(ctx.adjust(0x37201234), 0x50001234);
}

#[test]
fn adjust_wraps_when_runtime_base_below_static_base() {
    // runtime base below the preferred base: the delta underflows before the
    // addition, and the adjusted address must still come out right.
    let ctx = PatchContext::new(0x10000000);
    assert_eq!(ctx.adjust(0x37201234), 0x10001234);
}

#[test]
fn adjust_many_pairs_exact() {
    let statics = [0x37200000usize, 0x37218743, 0x3722C405, 0x372FFFFF];
    let bases = [0x00010000usize, 0x10000000, 0x37200000, 0x7FFE0000];
    for &b in bases.iter() {
        let ctx = PatchContext::new(b);
        for &s in statics.iter() {
            let expected = s.wrapping_add(b.wrapping_sub(0x37200000));
            assert_eq!(ctx.adjust(s), expected);
        }
    }
}

#[test]
fn module_name_matching_is_case_insensitive() {
    assert!(module_name_matches(
        &b"MSNCHAT45.OCX".to_vec(),
        &b"MSNChat45.ocx".to_vec()
    ));
    assert!(module_name_matches(
        &b"msnchat45.ocx".to_vec(),
        &b"MSNChat45.ocx".to_vec()
    ));
}

#[test]
fn module_name_matching_trims_trailing_nuls() {
    let mut padded = b"MSNChat45.ocx".to_vec();
    padded.extend_from_slice(&[0, 0, 0]);
    assert!(module_name_matches(&padded, &b"MSNChat45.ocx".to_vec()));
}

#[test]
fn module_name_mismatch() {
    assert!(!module_name_matches(
        &b"kernel32.dll".to_vec(),
        &b"MSNChat45.ocx".to_vec()
    ));
    assert!(!module_name_matches(
        &b"MSNChat45.ocx.bak".to_vec(),
        &b"MSNChat45.ocx".to_vec()
    ));
}

#[test]
fn find_module_base_returns_first_match() {
    let modules = vec![
        ModuleEntry {
            name: b"ntdll.dll\0\0".to_vec(),
            base: 0x7C900000,
        },
        ModuleEntry {
            name: b"msnchat45.OCX\0".to_vec(),
            base: 0x37300000,
        },
        ModuleEntry {
            name: b"MSNChat45.ocx".to_vec(),
            base: 0x44440000,
        },
    ];
    assert_eq!(
        find_module_base(&modules, &b"MSNChat45.ocx".to_vec()),
        Some(0x37300000)
    );
}

#[test]
fn configured_module_name_is_found() {
    let modules = vec![ModuleEntry {
        name: b"msnchat45.ocx\0\0\0".to_vec(),
        base: 0x37200000,
    }];
    assert_eq!(
        find_module_base(&modules, &DLL_NAME.as_bytes().to_vec()),
        Some(0x37200000)
    );
}

#[test]
fn name_of_only_padding_matches_nothing() {
    assert!(!module_name_matches(
        &vec![0u8; 8],
        &b"MSNChat45.ocx".to_vec()
    ));
    assert!(module_name_matches(&vec![0u8; 8], &b"".to_vec()));
}

#[test]
fn find_module_base_absent() {
    let modules = vec![ModuleEntry {
        name: b"ntdll.dll".to_vec(),
        base: 0x7C900000,
    }];
    assert_eq!(find_module_base(&modules, &b"MSNChat45.ocx".to_vec()), None);
}
