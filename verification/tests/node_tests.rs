use sn_node::adult_duties::{AdultDuties, NodeKeys};
use sn_node::key_section::{ClientMsgAnalysis, Error as KeySectionError, KeySection, Signer};
use sn_node::mock_routing::{
    Authority, Data, DataIdentifier, Event, ImmutableData, MockRoutingNode, RequestContent,
};
use sn_node::mpid_manager::MailBox;
use sn_node::mpid_messaging::MpidHeader;
use sn_node::node_msgs::{
    BlobRead, BlobWrite, Cmd, DataRead, DataWrite, GatewayDuty, KeySectionDuty, Message,
    MessagingDuty, MsgEnvelope, MsgSender, NetworkCmd, NetworkEvent, NodeOperation, Query,
    QueryResponse, TransferCmd, TransferDuty, TransferQuery,
};
use sn_node::section_funds::{ActorError, ElderMsgDecisions, SectionFunds, TransferActor};
use sn_node::transfers::{
    ClientSignature, KeySet, SignedTransfer, Transfer, TransferValidated,
};
use sn_node::types::{MessageId, PublicKey, SecretKey, XorName};

fn key_set() -> KeySet {
    KeySet { public_key: PublicKey(999), threshold: 3, share_count: 5 }
}

fn signed(from: u64, to: u64, amount: u64, seq: u64) -> SignedTransfer {
    SignedTransfer {
        transfer: Transfer { from: PublicKey(from), to: PublicKey(to), amount, seq },
        client_signature: ClientSignature { signer: PublicKey(from) },
    }
}

fn new_key_section() -> KeySection {
    KeySection::new(PublicKey(100), 0, key_set(), vec![key_set()]).unwrap()
}

#[test]
fn classifier_routes_each_message_kind() {
    let analysis = ClientMsgAnalysis::new();
    let origin = MsgSender { id: PublicKey(50) };
    let st = signed(1, 2, 10, 1);
    // A transfer command becomes a transfers duty.
    let msg = MsgEnvelope {
        message: Message::Cmd {
            cmd: Cmd::Transfer(TransferCmd::ProposeTransfer(st)),
            id: MessageId(1),
        },
        origin,
    };
    match analysis.evaluate(msg) {
        Ok(NodeOperation::RunAsTransfers(TransferDuty::ProcessCmd { cmd, msg_id, origin: o })) => {
            assert_eq!(cmd, TransferCmd::ProposeTransfer(st));
            assert_eq!(msg_id, MessageId(1));
            assert_eq!(o, origin);
        },
        other => panic!("expected a transfers duty, got {:?}", other),
    }
    // A transfer query becomes a transfers query duty.
    let msg = MsgEnvelope {
        message: Message::Query {
            query: Query::Transfer(TransferQuery::GetBalance(PublicKey(1))),
            id: MessageId(2),
        },
        origin,
    };
    assert!(matches!(
        analysis.evaluate(msg),
        Ok(NodeOperation::RunAsTransfers(TransferDuty::ProcessQuery { .. }))
    ));
    // A data read becomes a metadata duty.
    let msg = MsgEnvelope {
        message: Message::Query {
            query: Query::Data(DataRead::Blob(BlobRead::Get(XorName(5)))),
            id: MessageId(3),
        },
        origin,
    };
    assert!(matches!(analysis.evaluate(msg), Ok(NodeOperation::RunAsMetadata(_))));
    // Anything else is a classification failure, reported locally.
    let msg = MsgEnvelope {
        message: Message::NetworkEvent {
            event: NetworkEvent::SectionSplit(sn_node::types::Prefix { bits: 0, len: 0 }),
            id: MessageId(4),
        },
        origin,
    };
    assert!(matches!(analysis.evaluate(msg), Err(KeySectionError::InvalidMessage)));
}

#[test]
fn key_section_runs_a_transfer_to_finalization() {
    let mut ks = new_key_section();
    ks.init_genesis_node(PublicKey(1), 100).unwrap();
    let st = signed(1, 2, 30, 1);
    // The proposal earns this Elder's validation share.
    let duty = KeySectionDuty::RunAsTransfers(TransferDuty::ProcessCmd {
        cmd: TransferCmd::ProposeTransfer(st),
        msg_id: MessageId(1),
        origin: MsgSender { id: PublicKey(1) },
    });
    let own_share = match ks.process_key_section_duty(duty, MessageId(2)) {
        Ok(NodeOperation::SendToSection(Message::Cmd {
            cmd: Cmd::Transfer(TransferCmd::ReceiveValidation(v)),
            id,
        })) => {
            assert_eq!(id, MessageId(2));
            assert_eq!(v.signed_transfer, st);
            assert_eq!(v.key_index, 0);
            assert_eq!(v.signer_index, 0);
            v
        },
        other => panic!("expected our validation share, got {:?}", other),
    };
    // Shares accumulate; the third finalizes and announces the event.
    let receive = |ks: &mut KeySection, v: TransferValidated, reply: u64| {
        ks.process_key_section_duty(
            KeySectionDuty::RunAsTransfers(TransferDuty::ProcessCmd {
                cmd: TransferCmd::ReceiveValidation(v),
                msg_id: MessageId(reply),
                origin: MsgSender { id: PublicKey(1) },
            }),
            MessageId(reply + 1),
        )
    };
    assert!(matches!(receive(&mut ks, own_share, 3), Ok(NodeOperation::NoOp)));
    let peer1 = TransferValidated { signed_transfer: st, key_index: 0, signer_index: 1 };
    assert!(matches!(receive(&mut ks, peer1, 5), Ok(NodeOperation::NoOp)));
    let peer2 = TransferValidated { signed_transfer: st, key_index: 0, signer_index: 2 };
    match receive(&mut ks, peer2, 7) {
        Ok(NodeOperation::SendToSection(Message::NetworkEvent {
            event: NetworkEvent::TransferFinalised(proof),
            ..
        })) => {
            assert_eq!(proof.signed_transfer, st);
            assert_eq!(proof.signers.len(), 3);
        },
        other => panic!("expected finalization, got {:?}", other),
    }
    // A balance query reads the settled state.
    let duty = KeySectionDuty::RunAsTransfers(TransferDuty::ProcessQuery {
        query: TransferQuery::GetBalance(PublicKey(1)),
        msg_id: MessageId(9),
        origin: MsgSender { id: PublicKey(1) },
    });
    match ks.process_key_section_duty(duty, MessageId(10)) {
        Ok(NodeOperation::SendToSection(Message::QueryResponse {
            response: QueryResponse::GetBalance(Ok(balance)),
            correlation_id,
            ..
        })) => {
            assert_eq!(balance, 70);
            assert_eq!(correlation_id, MessageId(9));
        },
        other => panic!("expected the balance, got {:?}", other),
    }
}

#[test]
fn key_section_churn_and_split() {
    let mut ks = new_key_section();
    ks.init_genesis_node(PublicKey(1u64 << 63 | 5), 100).unwrap();
    // Rotating to a longer proof chain succeeds; the old chain is refused.
    assert!(matches!(
        ks.elders_changed(1, key_set(), vec![key_set()]),
        Err(KeySectionError::InvalidReplicaInfo)
    ));
    assert!(matches!(
        ks.elders_changed(1, key_set(), vec![key_set(), key_set()]),
        Ok(NodeOperation::NoOp)
    ));
    // Splitting keeps exactly our prefix's accounts.
    let prefix = sn_node::types::Prefix { bits: 1u64 << 63, len: 1 };
    assert!(matches!(ks.section_split(prefix), Ok(NodeOperation::NoOp)));
    // Flag flips and catch-up both become operations for the host to run.
    assert!(matches!(
        ks.set_node_join_flag(true),
        Ok(NodeOperation::SetJoinsAllowed(true))
    ));
    assert!(matches!(ks.catchup_with_section(), Ok(NodeOperation::CatchUpWithSection)));
    assert!(ks.increase_full_node_count(PublicKey(77)).is_ok());
    // The gateway routes a message back toward its client.
    let reply = Message::Query {
        query: Query::Transfer(TransferQuery::GetBalance(PublicKey(1))),
        id: MessageId(1),
    };
    match ks.process_key_section_duty(
        KeySectionDuty::RunAsGateway(GatewayDuty::FindClientFor(reply)),
        MessageId(2),
    ) {
        Ok(NodeOperation::SendToClient(_)) => (),
        other => panic!("expected a client-bound message, got {:?}", other),
    }
}

#[test]
fn reward_payout_drives_the_actor_to_finalization() {
    let actor = TransferActor::new(PublicKey(10), key_set(), 0, 100, 1).unwrap();
    let mut funds = SectionFunds::new(actor, ElderMsgDecisions::new());
    // Initiating announces the signed payout transfer.
    let st = match funds.initiate_reward_payout(40, PublicKey(20)) {
        Some(MessagingDuty::Send(Message::NetworkCmd {
            cmd: NetworkCmd::InitiateRewardPayout(st),
            ..
        })) => {
            assert_eq!(st.transfer.from, PublicKey(10));
            assert_eq!(st.transfer.to, PublicKey(20));
            assert_eq!(st.transfer.amount, 40);
            assert_eq!(st.transfer.seq, 1);
            st
        },
        other => panic!("expected the payout announcement, got {:?}", other),
    };
    // A second initiation while one is in flight announces nothing.
    assert!(funds.initiate_reward_payout(5, PublicKey(21)).is_none());
    // Validations accumulate; the third finalizes the payout.
    let v0 = TransferValidated { signed_transfer: st, key_index: 0, signer_index: 0 };
    let v1 = TransferValidated { signed_transfer: st, key_index: 0, signer_index: 1 };
    let v2 = TransferValidated { signed_transfer: st, key_index: 0, signer_index: 2 };
    assert!(funds.receive(v0).is_none());
    assert!(funds.receive(v1).is_none());
    match funds.receive(v2) {
        Some(MessagingDuty::Send(Message::NetworkCmd {
            cmd: NetworkCmd::FinaliseRewardPayout(proof),
            ..
        })) => {
            assert_eq!(proof.signed_transfer, st);
            assert_eq!(proof.signers, vec![0u64, 1, 2]);
        },
        other => panic!("expected the finalized payout, got {:?}", other),
    }
    assert_eq!(funds.actor.balance, 60);
    assert_eq!(funds.actor.next_seq, 2);
    // A stale-epoch validation is dropped silently.
    let stale = TransferValidated { signed_transfer: st, key_index: 1, signer_index: 3 };
    assert!(funds.receive(stale).is_none());
}

#[test]
fn actor_rejects_bad_payouts() {
    let actor = TransferActor::new(PublicKey(10), key_set(), 0, 100, 1).unwrap();
    assert!(matches!(
        actor.transfer(10, PublicKey(10)),
        Err(ActorError::SameSenderAndRecipient)
    ));
    assert!(matches!(actor.transfer(0, PublicKey(20)), Err(ActorError::ZeroValueTransfer)));
    assert!(matches!(actor.transfer(101, PublicKey(20)), Err(ActorError::InsufficientBalance)));
}

#[test]
fn adult_serves_blob_chunks() {
    let mut adult = AdultDuties::new(NodeKeys::new(PublicKey(7))).unwrap();
    let origin = MsgSender { id: PublicKey(50) };
    let blob = ImmutableData { name: XorName(5), value: vec![1, 2, 3] };
    let put = MsgEnvelope {
        message: Message::Cmd {
            cmd: Cmd::Data(DataWrite::Blob(BlobWrite::New(blob.clone()))),
            id: MessageId(1),
        },
        origin,
    };
    assert!(adult.receive_msg(&put, MessageId(2)).is_none());
    // A second store at the occupied address is a conflict.
    assert!(adult.receive_msg(&put, MessageId(3)).is_some());
    // The chunk reads back unchanged.
    let get = MsgEnvelope {
        message: Message::Query {
            query: Query::Data(DataRead::Blob(BlobRead::Get(XorName(5)))),
            id: MessageId(4),
        },
        origin,
    };
    match adult.receive_msg(&get, MessageId(5)) {
        Some(MessagingDuty::Send(Message::QueryResponse {
            response: QueryResponse::GetBlob(Ok(b)),
            ..
        })) => assert_eq!(b, blob),
        other => panic!("expected the chunk, got {:?}", other),
    }
    // Deleting it makes the next read report missing data.
    let del = MsgEnvelope {
        message: Message::Cmd {
            cmd: Cmd::Data(DataWrite::Blob(BlobWrite::DeletePrivate(XorName(5)))),
            id: MessageId(6),
        },
        origin,
    };
    assert!(adult.receive_msg(&del, MessageId(7)).is_none());
    match adult.receive_msg(&get, MessageId(8)) {
        Some(MessagingDuty::Send(Message::QueryResponse {
            response: QueryResponse::GetBlob(Err(_)),
            ..
        })) => (),
        other => panic!("expected missing data, got {:?}", other),
    }
}

#[test]
fn mock_routing_records_what_it_is_given() {
    let mut node = MockRoutingNode::new(false).unwrap();
    assert_eq!(node.quorum_size(), Ok(5));
    let src = Authority::ClientManager(XorName(1));
    let dst = Authority::ClientManager(XorName(2));
    node.send_get_request(src, dst, DataIdentifier::Immutable(XorName(3)), MessageId(1)).unwrap();
    assert_eq!(node.get_requests_given().len(), 1);
    assert!(node.put_requests_given().is_empty());
    node.client_get(XorName(9), PublicKey(8), DataIdentifier::Immutable(XorName(3)));
    node.node_added_event(XorName(30));
    node.node_lost_event(XorName(31));
    let events = node.get_client_receiver();
    assert_eq!(events.len(), 3);
    match &events[0] {
        Event::Request(r) => {
            assert!(matches!(r.content, RequestContent::Get(_, _)));
        },
        other => panic!("expected the client's request, got {:?}", other),
    }
    assert_eq!(events[1], Event::NodeAdded(XorName(30)));
    assert_eq!(events[2], Event::NodeLost(XorName(31)));
    // The receiver drains.
    assert!(node.get_client_receiver().is_empty());
    // The routing table remembers joined nodes once and forgets lost ones;
    // the node added above is still known.
    node.node_added_event(XorName(40));
    node.node_added_event(XorName(41));
    node.node_added_event(XorName(40));
    assert_eq!(node.get_routing_table(), &vec![XorName(30), XorName(40), XorName(41)]);
    node.node_lost_event(XorName(40));
    assert_eq!(node.get_routing_table(), &vec![XorName(30), XorName(41)]);
    match node.close_group(XorName(9)) {
        Ok(Some(group)) => assert_eq!(group, vec![XorName(30), XorName(41)]),
        other => panic!("expected the close group, got {:?}", other),
    }
    assert!(node.name().is_ok());
}

#[test]
fn mailbox_accounts_for_space() {
    let mut mailbox = MailBox::new(100);
    assert!(mailbox.put(60, &XorName(1), &None));
    // Re-announcing an entry is rejected and not charged again.
    assert!(!mailbox.put(60, &XorName(1), &None));
    // An entry over the remaining space is rejected.
    assert!(!mailbox.put(60, &XorName(2), &None));
    assert!(mailbox.put(40, &XorName(2), &None));
    assert!(mailbox.contains_key(&XorName(2)));
    let names = mailbox.names();
    assert_eq!(names, vec![XorName(1), XorName(2)]);
    // Removing releases the charge; a missing entry releases nothing.
    assert!(mailbox.remove(60, &XorName(1)));
    assert!(!mailbox.remove(60, &XorName(1)));
    assert!(mailbox.put(60, &XorName(3), &None));
}

#[test]
fn header_names_bind_to_content() {
    let secret_key = SecretKey(5);
    let a = MpidHeader::new(XorName(1), vec![1, 2, 3], &secret_key).unwrap();
    let b = MpidHeader::new(XorName(1), vec![1, 2, 3], &secret_key).unwrap();
    let c = MpidHeader::new(XorName(1), vec![1, 2, 4], &secret_key).unwrap();
    let d = MpidHeader::new(XorName(2), vec![1, 2, 3], &secret_key).unwrap();
    // Equal announcements collide; different content is told apart.
    assert_eq!(a.name(), b.name());
    assert_ne!(a.name(), c.name());
    assert_ne!(a.name(), d.name());
    // Oversized metadata is refused at creation.
    assert!(MpidHeader::new(XorName(1), vec![0; 129], &secret_key).is_err());
}

#[test]
fn signer_shares_carry_their_provenance() {
    let signer = Signer::new(4);
    let st = signed(1, 2, 10, 1);
    let share = signer.sign_with_secret_key_share(st, 6);
    assert_eq!(share.signed_transfer, st);
    assert_eq!(share.key_index, 6);
    assert_eq!(share.signer_index, 4);
}
