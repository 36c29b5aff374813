use std::collections::HashSet;

use elfo_addr::addr::{Addr, GroupNo, NodeLaunchId, NodeNo};

const SLOT_KEY_MASK: usize = (1 << 40) - 1;

#[test]
fn node_launch_id_generate() {
    let count = 10;
    let set: HashSet<_> = (0..count).map(|_| NodeLaunchId::generate()).collect();
    assert_eq!(set.len(), count);
}

#[test]
fn group_no() {
    let launch_ids = (0..5)
        .map(|_| NodeLaunchId::generate())
        .chain(Some(NodeLaunchId::from_bits(0)))
        .collect::<Vec<_>>();

    for launch_id in launch_ids {
        // no = 0 is always invalid.
        assert_eq!(GroupNo::new(0, launch_id), None);

        // `GroupNo` is unique for any `NodeLaunchId`.
        let set = (1..=u8::MAX)
            .map(|no| GroupNo::new(no, launch_id).unwrap())
            .collect::<HashSet<_>>();

        assert_eq!(set.len(), usize::from(u8::MAX));
    }
}

#[test]
fn group_no_stored_form() {
    let launch_id = NodeLaunchId::from_bits(0xE1F0_E1F0_E1F0_E1F0);
    assert_eq!(GroupNo::new(3, launch_id).unwrap().into_bits(), 3 ^ 0xE1);
    // The number equal to the launch byte is stored as that byte.
    assert_eq!(GroupNo::new(0xE1, launch_id).unwrap().into_bits(), 0xE1);
    assert_eq!(GroupNo::new(3, NodeLaunchId::from_bits(0)).unwrap().into_bits(), 3);
    assert_eq!(GroupNo::new(3, launch_id).unwrap().to_string(), "226");
}

#[test]
fn node_no_bits() {
    assert_eq!(NodeNo::from_bits(0), None);
    let node_no = NodeNo::from_bits(42).unwrap();
    assert_eq!(node_no.into_bits(), 42);
    assert_eq!(node_no.to_string(), "42");
    assert_eq!(NodeLaunchId::from_bits(7).into_bits(), 7);
    assert_eq!(NodeLaunchId::from_bits(7).to_string(), "7");
}

#[test]
fn local_addr_plain_layout() {
    let launch_id = NodeLaunchId::from_bits(0);
    let group_no = GroupNo::new(3, launch_id).unwrap();
    let addr = Addr::new_local(0x1234, group_no, launch_id);
    assert_eq!(addr.into_bits(), (3u64 << 40) | 0x1234);
    assert_eq!(addr.to_string(), "3/4660");
}

#[test]
fn local_addr_obfuscated() {
    let launch_id = NodeLaunchId::from_bits(0xE1F0_E1F0_E1F0_E1F0);
    let group_no = GroupNo::new(3, launch_id).unwrap();
    let addr = Addr::new_local(0x1234, group_no, launch_id);
    assert_eq!(addr.into_bits(), 249524210693060);
    assert_eq!(addr.to_string(), "226/1034582815684");
    let text = addr.to_string();
    let parts: Vec<&str> = text.split('/').collect();
    assert_eq!(parts.len(), 2);
    assert_eq!(parts[0], group_no.into_bits().to_string());
    assert_eq!(addr.slot_key(launch_id) & SLOT_KEY_MASK, 0x1234);
}

#[test]
fn remote_addr_display() {
    let launch_id = NodeLaunchId::from_bits(0);
    let group_no = GroupNo::new(3, launch_id).unwrap();
    let addr = Addr::new_local(0x1234, group_no, launch_id);
    let remote = addr.into_remote(NodeNo::from_bits(42).unwrap());
    assert_eq!(remote.to_string(), "42/3/4660");
    assert_eq!(remote.into_bits(), (42u64 << 48) | (3u64 << 40) | 0x1234);
}

#[test]
fn null_into_remote() {
    let node_no = NodeNo::from_bits(7).unwrap();
    assert!(Addr::null().into_remote(node_no).is_null());
}

#[test]
fn addr_null() {
    let null = Addr::null();
    assert_eq!(null.to_string(), "null");
    assert!(null.is_null());
    assert_eq!(null.into_local(), null);
    assert_eq!(null.group_no(), None);
    assert_eq!(null.node_no(), None);
    assert!(!null.is_remote());
    assert_eq!(null.into_remote(NodeNo::from_bits(42).unwrap()), null);
    assert_eq!(null.node_no_group_no(), 0);
}

#[test]
fn addr_invalid() {
    assert_eq!(Addr::from_bits(1), None);
}

#[test]
fn addr_from_bits_accepts_valid_words() {
    assert_eq!(Addr::from_bits(0), Some(Addr::null()));
    let addr = Addr::from_bits((5u64 << 40) | 9).unwrap();
    assert_eq!(addr.group_no().unwrap().into_bits(), 5);
    assert_eq!(Addr::from_bits(42u64 << 48), None);
}

#[test]
fn addr_local_and_remote() {
    let slot_keys = [0usize, 1, 0x1234, 0xAB_CDEF_0123, SLOT_KEY_MASK];
    let group_nos = [1u8, 2, 77, 255];
    let launch_ids = [0u64, 1, 0xE1F0_E1F0_E1F0_E1F0, u64::MAX, 0x0123_4567_89AB_CDEF];
    let node_no = NodeNo::from_bits(42).unwrap();

    for launch_id in launch_ids {
        let launch_id = NodeLaunchId::from_bits(launch_id);
        let mut set = HashSet::new();
        for slot_key in slot_keys {
            for no in group_nos {
                let group_no = GroupNo::new(no, launch_id).unwrap();
                let addr = Addr::new_local(slot_key, group_no, launch_id);
                set.insert(addr);

                assert!(!addr.is_null());
                assert!(addr.is_local());
                assert!(!addr.is_remote());
                assert_eq!(addr.group_no(), Some(group_no));
                assert_eq!(addr.node_no(), None);
                assert_eq!(addr.slot_key(launch_id) & SLOT_KEY_MASK, slot_key);
                assert_eq!(addr.into_local(), addr);
                assert_eq!(Addr::from_bits(addr.into_bits()), Some(addr));
                assert_eq!(addr.to_string().split('/').count(), 2);
                assert!(addr.to_string().starts_with(&group_no.to_string()));

                let remote = addr.into_remote(node_no);
                assert!(!remote.is_null());
                assert!(!remote.is_local());
                assert!(remote.is_remote());
                assert_eq!(remote.group_no(), Some(group_no));
                assert_eq!(remote.node_no(), Some(node_no));
                assert_eq!(remote.into_local(), addr);
                assert_eq!(remote.into_remote(NodeNo::from_bits(7).unwrap()), remote);
                assert_eq!(remote.node_no_group_no() >> 8, u32::from(node_no.into_bits()));
                assert_eq!(remote.node_no_group_no() & 0xff, u32::from(group_no.into_bits()));
                assert_eq!(remote.to_string().split('/').count(), 3);
                assert!(remote.to_string().starts_with(&node_no.to_string()));
            }
        }
        assert_eq!(set.len(), slot_keys.len() * group_nos.len());
    }
}
