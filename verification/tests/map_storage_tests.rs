use sn_node::map_storage::{
    MapAddress, MapChunk, MapEntry, MapEntryAction, MapPermissionSet, MapRead, MapStorage,
    MapWrite, NdError,
};
use sn_node::node_msgs::{
    CmdError, ElderMsgWrapping, Message, MessagingDuty, MsgSender, QueryResponse,
};
use sn_node::table::Table;
use sn_node::types::{MessageId, PublicKey, XorName};

fn storage() -> MapStorage {
    MapStorage::new(ElderMsgWrapping::new(PublicKey(900))).unwrap()
}

fn owner() -> MsgSender {
    MsgSender { id: PublicKey(1) }
}

fn stranger() -> MsgSender {
    MsgSender { id: PublicKey(2) }
}

fn chunk_at(name: u64) -> MapChunk {
    MapChunk {
        name: XorName(name),
        tag: 10,
        owner: PublicKey(1),
        version: 0,
        entries: Vec::new(),
        permissions: Table::new(),
    }
}

fn address(name: u64) -> MapAddress {
    MapAddress { name: XorName(name), tag: 10 }
}

fn read_all_permissions() -> MapPermissionSet {
    MapPermissionSet { read: true, insert: false, update: false, delete: false, manage_permissions: false }
}

fn expect_error(duty: Option<MessagingDuty>, expected: NdError, correlation: MessageId) {
    match duty {
        Some(MessagingDuty::Send(Message::CmdError { error, correlation_id, .. })) => {
            assert_eq!(error, CmdError::Data(expected));
            assert_eq!(correlation_id, correlation);
        },
        other => panic!("expected a command error, got {:?}", other),
    }
}

fn read_response(duty: Option<MessagingDuty>) -> QueryResponse {
    match duty {
        Some(MessagingDuty::Send(Message::QueryResponse { response, .. })) => response,
        other => panic!("expected a query response, got {:?}", other),
    }
}

#[test]
fn create_then_get_round_trip() {
    let mut s = storage();
    let duty = s.create(chunk_at(7), MessageId(1), &owner(), MessageId(2));
    assert!(duty.is_none());
    let duty = s.read(&MapRead::Get(address(7)), MessageId(3), &owner(), MessageId(4));
    match read_response(duty) {
        QueryResponse::GetMap(Ok(c)) => {
            assert_eq!(c.name, XorName(7));
            assert_eq!(c.version, 0);
            assert_eq!(c.owner, PublicKey(1));
        },
        other => panic!("expected the stored map, got {:?}", other),
    }
}

#[test]
fn create_conflict_leaves_the_stored_chunk_unchanged() {
    let mut s = storage();
    let mut first = chunk_at(7);
    first.version = 0;
    assert!(s.create(first, MessageId(1), &owner(), MessageId(2)).is_none());
    // A second create at the occupied address is a conflict...
    let mut second = chunk_at(7);
    second.version = 99;
    second.owner = PublicKey(2);
    let duty = s.create(second, MessageId(3), &owner(), MessageId(4));
    expect_error(duty, NdError::DataExists, MessageId(3));
    // ...and a get afterwards still returns the original value.
    let duty = s.read(&MapRead::Get(address(7)), MessageId(5), &owner(), MessageId(6));
    match read_response(duty) {
        QueryResponse::GetMap(Ok(c)) => {
            assert_eq!(c.version, 0);
            assert_eq!(c.owner, PublicKey(1));
        },
        other => panic!("expected the original map, got {:?}", other),
    }
}

#[test]
fn missing_address_reports_no_such_data() {
    let mut s = storage();
    let duty = s.read(&MapRead::Get(address(7)), MessageId(1), &owner(), MessageId(2));
    match read_response(duty) {
        QueryResponse::GetMap(Err(e)) => assert_eq!(e, NdError::NoSuchData),
        other => panic!("expected an error, got {:?}", other),
    }
    let duty = s.write(MapWrite::Delete(address(7)), MessageId(3), &owner(), MessageId(4));
    expect_error(duty, NdError::NoSuchData, MessageId(3));
}

#[test]
fn permissions_guard_reads_and_owner_always_may() {
    let mut s = storage();
    assert!(s.create(chunk_at(7), MessageId(1), &owner(), MessageId(2)).is_none());
    // A stranger without a permission set is denied.
    let duty = s.read(&MapRead::GetVersion(address(7)), MessageId(3), &stranger(), MessageId(4));
    match read_response(duty) {
        QueryResponse::GetMapVersion(Err(e)) => assert_eq!(e, NdError::AccessDenied),
        other => panic!("expected denial, got {:?}", other),
    }
    // The owner grants the stranger read access at version 1.
    let duty = s.write(
        MapWrite::SetUserPermissions {
            address: address(7),
            user: PublicKey(2),
            permissions: read_all_permissions(),
            version: 1,
        },
        MessageId(5),
        &owner(),
        MessageId(6),
    );
    assert!(duty.is_none());
    let duty = s.read(&MapRead::GetVersion(address(7)), MessageId(7), &stranger(), MessageId(8));
    match read_response(duty) {
        QueryResponse::GetMapVersion(Ok(v)) => assert_eq!(v, 1),
        other => panic!("expected the version, got {:?}", other),
    }
    // A stale version number is refused, naming the current version.
    let duty = s.write(
        MapWrite::DelUserPermissions { address: address(7), user: PublicKey(2), version: 1 },
        MessageId(9),
        &owner(),
        MessageId(10),
    );
    expect_error(duty, NdError::InvalidSuccessor(1), MessageId(9));
    // Withdrawing an unknown user's permissions is refused.
    let duty = s.write(
        MapWrite::DelUserPermissions { address: address(7), user: PublicKey(3), version: 2 },
        MessageId(11),
        &owner(),
        MessageId(12),
    );
    expect_error(duty, NdError::NoSuchKey, MessageId(11));
    // Withdrawing the granted set at the next version succeeds.
    let duty = s.write(
        MapWrite::DelUserPermissions { address: address(7), user: PublicKey(2), version: 2 },
        MessageId(13),
        &owner(),
        MessageId(14),
    );
    assert!(duty.is_none());
    let duty = s.read(&MapRead::GetVersion(address(7)), MessageId(15), &stranger(), MessageId(16));
    match read_response(duty) {
        QueryResponse::GetMapVersion(Err(e)) => assert_eq!(e, NdError::AccessDenied),
        other => panic!("expected denial, got {:?}", other),
    }
}

#[test]
fn entry_edits_apply_all_or_nothing() {
    let mut s = storage();
    assert!(s.create(chunk_at(7), MessageId(1), &owner(), MessageId(2)).is_none());
    // Insert two entries.
    let duty = s.write(
        MapWrite::Edit {
            address: address(7),
            changes: vec![
                MapEntryAction::Ins(vec![1], vec![10]),
                MapEntryAction::Ins(vec![2], vec![20]),
            ],
        },
        MessageId(3),
        &owner(),
        MessageId(4),
    );
    assert!(duty.is_none());
    let duty = s.read(
        &MapRead::GetValue { address: address(7), key: vec![2] },
        MessageId(5),
        &owner(),
        MessageId(6),
    );
    match read_response(duty) {
        QueryResponse::GetMapValue(Ok(v)) => assert_eq!(v, vec![20]),
        other => panic!("expected the value, got {:?}", other),
    }
    // A batch whose later action fails changes nothing at all.
    let duty = s.write(
        MapWrite::Edit {
            address: address(7),
            changes: vec![
                MapEntryAction::Update(vec![1], vec![11]),
                MapEntryAction::Ins(vec![2], vec![99]),
            ],
        },
        MessageId(7),
        &owner(),
        MessageId(8),
    );
    expect_error(duty, NdError::EntryExists, MessageId(7));
    let duty = s.read(
        &MapRead::GetValue { address: address(7), key: vec![1] },
        MessageId(9),
        &owner(),
        MessageId(10),
    );
    match read_response(duty) {
        QueryResponse::GetMapValue(Ok(v)) => assert_eq!(v, vec![10]),
        other => panic!("expected the untouched value, got {:?}", other),
    }
    // Update and delete apply in order.
    let duty = s.write(
        MapWrite::Edit {
            address: address(7),
            changes: vec![
                MapEntryAction::Update(vec![1], vec![11]),
                MapEntryAction::Del(vec![2]),
            ],
        },
        MessageId(11),
        &owner(),
        MessageId(12),
    );
    assert!(duty.is_none());
    let duty = s.read(
        &MapRead::GetValue { address: address(7), key: vec![2] },
        MessageId(13),
        &owner(),
        MessageId(14),
    );
    match read_response(duty) {
        QueryResponse::GetMapValue(Err(e)) => assert_eq!(e, NdError::NoSuchEntry),
        other => panic!("expected a missing entry, got {:?}", other),
    }
    let duty = s.read(&MapRead::ListKeys(address(7)), MessageId(15), &owner(), MessageId(16));
    match read_response(duty) {
        QueryResponse::ListMapKeys(Ok(keys)) => assert_eq!(keys, vec![vec![1u8]]),
        other => panic!("expected the keys, got {:?}", other),
    }
    // A stranger may not edit entries.
    let duty = s.write(
        MapWrite::Edit {
            address: address(7),
            changes: vec![MapEntryAction::Del(vec![1])],
        },
        MessageId(17),
        &stranger(),
        MessageId(18),
    );
    expect_error(duty, NdError::AccessDenied, MessageId(17));
}

#[test]
fn delete_is_owner_only() {
    let mut s = storage();
    assert!(s.create(chunk_at(7), MessageId(1), &owner(), MessageId(2)).is_none());
    let duty = s.write(MapWrite::Delete(address(7)), MessageId(3), &stranger(), MessageId(4));
    expect_error(duty, NdError::AccessDenied, MessageId(3));
    let duty = s.write(MapWrite::Delete(address(7)), MessageId(5), &owner(), MessageId(6));
    assert!(duty.is_none());
    let duty = s.read(&MapRead::Get(address(7)), MessageId(7), &owner(), MessageId(8));
    match read_response(duty) {
        QueryResponse::GetMap(Err(e)) => assert_eq!(e, NdError::NoSuchData),
        other => panic!("expected no data, got {:?}", other),
    }
}

#[test]
fn shell_and_listings_report_the_stored_state() {
    let mut s = storage();
    assert!(s.create(chunk_at(7), MessageId(1), &owner(), MessageId(2)).is_none());
    let duty = s.write(
        MapWrite::Edit {
            address: address(7),
            changes: vec![MapEntryAction::Ins(vec![1], vec![10])],
        },
        MessageId(3),
        &owner(),
        MessageId(4),
    );
    assert!(duty.is_none());
    let duty = s.read(&MapRead::GetShell(address(7)), MessageId(5), &owner(), MessageId(6));
    match read_response(duty) {
        QueryResponse::GetMapShell(Ok(c)) => assert!(c.entries.is_empty()),
        other => panic!("expected the shell, got {:?}", other),
    }
    let duty = s.read(&MapRead::ListEntries(address(7)), MessageId(7), &owner(), MessageId(8));
    match read_response(duty) {
        QueryResponse::ListMapEntries(Ok(entries)) => {
            assert_eq!(entries, vec![MapEntry { key: vec![1], value: vec![10] }]);
        },
        other => panic!("expected the entries, got {:?}", other),
    }
    let duty = s.read(&MapRead::ListValues(address(7)), MessageId(9), &owner(), MessageId(10));
    match read_response(duty) {
        QueryResponse::ListMapValues(Ok(values)) => assert_eq!(values, vec![vec![10u8]]),
        other => panic!("expected the values, got {:?}", other),
    }
    let duty = s.read(
        &MapRead::ListUserPermissions { address: address(7), user: PublicKey(2) },
        MessageId(11),
        &owner(),
        MessageId(12),
    );
    match read_response(duty) {
        QueryResponse::ListMapUserPermissions(Err(e)) => assert_eq!(e, NdError::NoSuchKey),
        other => panic!("expected no permission set, got {:?}", other),
    }
}
