use dnslr::config::ConfigHandle;
use dnslr::config::ConfigSnapshot;
use dnslr::handler::prepare_with_current;
use dnslr::handler::Dispatch;
use dnslr::types::DomainName;
use dnslr::types::Header;
use dnslr::types::IpAddress;
use dnslr::types::MessageKind;
use dnslr::types::OpCode;
use dnslr::types::Query;
use dnslr::types::RecordType;
use dnslr::types::Request;
use dnslr::types::ResponseCode;
use dnslr::types::SocketAddress;

#[test]
fn load_returns_the_initial_snapshot() {
    let handle = ConfigHandle::new(ConfigSnapshot {
        forwarders: vec![SocketAddress { ip: IpAddress::V4(0x7F000001), port: 53 }],
        is_filtering: false,
    });
    let snap = handle.load();
    assert!(!snap.is_filtering);
    assert_eq!(snap.forwarders.len(), 1);
    assert_eq!(snap.forwarders[0].port, 53);
    assert_eq!(snap.forwarders[0].ip, IpAddress::V4(0x7F000001));
}

#[test]
fn store_replaces_the_whole_snapshot() {
    let handle = ConfigHandle::new(ConfigSnapshot {
        forwarders: vec![SocketAddress { ip: IpAddress::V4(0x7F000001), port: 53 }],
        is_filtering: false,
    });
    handle.store(ConfigSnapshot {
        forwarders: vec![
            SocketAddress { ip: IpAddress::V4(0x01010101), port: 53 },
            SocketAddress { ip: IpAddress::V6(1), port: 5353 },
        ],
        is_filtering: true,
    });
    let snap = handle.load();
    assert!(snap.is_filtering);
    assert_eq!(snap.forwarders.len(), 2);
    assert_eq!(snap.forwarders[1].port, 5353);
}

#[test]
fn shared_handles_see_the_same_store() {
    let handle = ConfigHandle::new(ConfigSnapshot { forwarders: vec![], is_filtering: false });
    let other = handle.share();
    handle.store(ConfigSnapshot { forwarders: vec![], is_filtering: true });
    assert!(other.load().is_filtering);
}

#[test]
fn preparing_follows_the_stored_snapshot() {
    let request = Request {
        query: Query {
            name: DomainName {
                labels: vec![b"www".to_vec(), b"example".to_vec(), b"com".to_vec()],
                fqdn: true,
            },
            rtype: RecordType::A,
            id: 9,
        },
        header: Header {
            id: 9,
            op_code: OpCode::Query,
            message_kind: MessageKind::Query,
            authoritative: false,
            recursion_desired: true,
            recursion_available: false,
            response_code: ResponseCode::NoError,
        },
    };
    let handle = ConfigHandle::new(ConfigSnapshot { forwarders: vec![], is_filtering: false });
    let before = prepare_with_current(&request, &handle).unwrap();
    assert!(matches!(before.dispatch, Dispatch::Upstream(_)));
    handle.store(ConfigSnapshot { forwarders: vec![], is_filtering: true });
    let after = prepare_with_current(&request, &handle).unwrap();
    assert_eq!(after.dispatch, Dispatch::Filter);
}

#[test]
fn a_loaded_snapshot_outlives_a_later_store() {
    let handle = ConfigHandle::new(ConfigSnapshot { forwarders: vec![], is_filtering: false });
    let before = handle.load();
    handle.store(ConfigSnapshot { forwarders: vec![], is_filtering: true });
    assert!(!before.is_filtering);
    assert!(handle.load().is_filtering);
}
