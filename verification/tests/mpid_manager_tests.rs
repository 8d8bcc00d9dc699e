use sn_node::mock_routing::{
    Authority, Data, MockRoutingNode, PlainData, RequestContent, RequestMessage, ResponseContent,
};
use sn_node::mpid_manager::{ClientError, InternalError, MpidManager};
use sn_node::mpid_messaging::{MpidHeader, MpidMessage, MpidMessageWrapper};
use sn_node::types::{MessageId, PublicKey, SecretKey, XorName};

struct Environment {
    our_authority: Authority,
    client: Authority,
    routing: MockRoutingNode,
    mpid_manager: MpidManager,
}

fn environment_setup() -> Environment {
    let from = XorName(11);
    let keys = PublicKey(21);
    Environment {
        our_authority: Authority::ClientManager(from),
        client: Authority::Client { client_key: keys, proxy_node_name: from },
        routing: MockRoutingNode::new(false).unwrap(),
        mpid_manager: MpidManager::new(),
    }
}

fn sample_vec_u8(fill: u8, len: usize) -> Vec<u8> {
    vec![fill; len]
}

#[test]
fn put_message() {
    let mut env = environment_setup();
    let secret_key = SecretKey(5);
    let sender = XorName(1);
    let metadata: Vec<u8> = sample_vec_u8(3, 128);
    let body: Vec<u8> = sample_vec_u8(7, 128);
    let receiver = XorName(2);
    let mpid_message =
        MpidMessage::new(sender, metadata, receiver, body, &secret_key).unwrap();
    let mpid_message_wrapper = MpidMessageWrapper::PutMessage(mpid_message.clone());
    let name = mpid_message.header().name();
    let plain_data = PlainData { name, value: mpid_message_wrapper };
    let message_id = MessageId(1);
    let request = RequestMessage {
        src: env.client,
        dst: env.our_authority,
        content: RequestContent::Put(Data::Plain(plain_data.clone()), message_id),
    };

    match env.mpid_manager.handle_put(&mut env.routing, &request) {
        Ok(()) => (),
        Err(error) => panic!("Error: {:?}", error),
    }

    let put_failures = env.routing.put_failures_given();
    assert!(put_failures.is_empty());
    let put_requests = env.routing.put_requests_given();
    assert_eq!(put_requests.len(), 1);
    assert_eq!(put_requests[0].src, env.our_authority);
    assert_eq!(put_requests[0].dst, Authority::ClientManager(receiver));
    match &put_requests[0].content {
        RequestContent::Put(data, id) => {
            let mpid_header = mpid_message.header().clone();
            let wrapper = MpidMessageWrapper::PutHeader(mpid_header);
            let expected_data = Data::Plain(PlainData { name, value: wrapper });
            assert_eq!(*data, expected_data);
            assert_eq!(*id, message_id);
        },
        _ => unreachable!(),
    }
}

#[test]
fn put_header() {
    let mut env = environment_setup();
    let secret_key = SecretKey(5);
    let sender = XorName(1);
    let metadata: Vec<u8> = sample_vec_u8(3, 128);
    let mpid_header = MpidHeader::new(sender, metadata, &secret_key).unwrap();
    let name = mpid_header.name();
    let mpid_header_wrapper = MpidMessageWrapper::PutHeader(mpid_header);
    let plain_data = PlainData { name, value: mpid_header_wrapper };
    let message_id = MessageId(2);
    let request = RequestMessage {
        src: env.our_authority,
        dst: Authority::ClientManager(XorName(42)),
        content: RequestContent::Put(Data::Plain(plain_data.clone()), message_id),
    };

    match env.mpid_manager.handle_put(&mut env.routing, &request) {
        Ok(()) => (),
        Err(error) => panic!("Error: {:?}", error),
    }

    let put_failures = env.routing.put_failures_given();
    assert!(put_failures.is_empty());
    let put_requests = env.routing.put_requests_given();
    assert!(put_requests.is_empty());
}

#[test]
fn put_message_and_header_twice() {
    let mut env = environment_setup();
    let secret_key = SecretKey(5);
    let sender = XorName(1);
    let metadata: Vec<u8> = sample_vec_u8(3, 128);
    let body: Vec<u8> = sample_vec_u8(7, 128);
    let receiver = XorName(2);
    let mpid_message =
        MpidMessage::new(sender, metadata, receiver, body, &secret_key).unwrap();
    let mpid_header = mpid_message.header().clone();
    let mpid_message_wrapper = MpidMessageWrapper::PutMessage(mpid_message.clone());
    let name = mpid_message.header().name();
    let plain_data = PlainData { name, value: mpid_message_wrapper };
    let message_id = MessageId(3);
    let request = RequestMessage {
        src: env.client,
        dst: env.our_authority,
        content: RequestContent::Put(Data::Plain(plain_data.clone()), message_id),
    };

    match env.mpid_manager.handle_put(&mut env.routing, &request) {
        Ok(()) => (),
        Err(error) => panic!("Error: {:?}", error),
    }

    {
        let put_failures = env.routing.put_failures_given();
        assert!(put_failures.is_empty());
        let put_requests = env.routing.put_requests_given();
        assert_eq!(put_requests.len(), 1);
        assert_eq!(put_requests[0].src, env.our_authority);
        assert_eq!(put_requests[0].dst, Authority::ClientManager(receiver));
        match &put_requests[0].content {
            RequestContent::Put(data, id) => {
                let wrapper = MpidMessageWrapper::PutHeader(mpid_header.clone());
                let expected_data = Data::Plain(PlainData { name, value: wrapper });
                assert_eq!(*data, expected_data);
                assert_eq!(*id, message_id);
            },
            _ => unreachable!(),
        }
    }

    match env.mpid_manager.handle_put(&mut env.routing, &request) {
        Ok(_) => panic!("Expected an error."),
        Err(InternalError::Client(ClientError::DataExists)) => (),
        Err(_) => panic!("Unexpected error."),
    }

    let mpid_header_wrapper = MpidMessageWrapper::PutHeader(mpid_header.clone());
    let name = mpid_header.name();
    let plain_data = PlainData { name, value: mpid_header_wrapper };
    let request = RequestMessage {
        src: env.client,
        dst: env.our_authority,
        content: RequestContent::Put(Data::Plain(plain_data.clone()), MessageId(4)),
    };

    match env.mpid_manager.handle_put(&mut env.routing, &request) {
        Ok(()) => (),
        Err(error) => panic!("Error: {:?}", error),
    }

    {
        let put_failures = env.routing.put_failures_given();
        assert!(put_failures.is_empty());
        let put_requests = env.routing.put_requests_given();
        assert_eq!(put_requests.len(), 1);
        assert_eq!(put_requests[0].src, env.our_authority);
        assert_eq!(put_requests[0].dst, Authority::ClientManager(receiver));
        match &put_requests[0].content {
            RequestContent::Put(data, id) => {
                let wrapper = MpidMessageWrapper::PutHeader(mpid_header.clone());
                let expected_data = Data::Plain(PlainData { name, value: wrapper });
                assert_eq!(*data, expected_data);
                assert_eq!(*id, message_id);
            },
            _ => unreachable!(),
        }
    }

    match env.mpid_manager.handle_put(&mut env.routing, &request) {
        Ok(_) => panic!("Expected an error."),
        Err(InternalError::Client(ClientError::DataExists)) => (),
        Err(_) => panic!("Unexpected error."),
    }
}

#[test]
fn get_message() {
    let mut env = environment_setup();
    let secret_key = SecretKey(5);
    let sender = XorName(1);
    let metadata: Vec<u8> = sample_vec_u8(3, 128);
    let body: Vec<u8> = sample_vec_u8(7, 128);
    let receiver = XorName(2);
    let mpid_message =
        MpidMessage::new(sender, metadata, receiver, body, &secret_key).unwrap();
    let mpid_message_wrapper = MpidMessageWrapper::PutMessage(mpid_message.clone());
    let name = mpid_message.header().name();
    let plain_data = PlainData { name, value: mpid_message_wrapper };
    let message_id = MessageId(5);
    let request = RequestMessage {
        src: env.client,
        dst: env.our_authority,
        content: RequestContent::Put(Data::Plain(plain_data.clone()), message_id),
    };

    match env.mpid_manager.handle_put(&mut env.routing, &request) {
        Ok(()) => (),
        Err(error) => panic!("Error: {:?}", error),
    }

    {
        let put_failures = env.routing.put_failures_given();
        assert!(put_failures.is_empty());
        let put_requests = env.routing.put_requests_given();
        assert_eq!(put_requests.len(), 1);
        assert_eq!(put_requests[0].src, env.our_authority);
        assert_eq!(put_requests[0].dst, Authority::ClientManager(receiver));
        match &put_requests[0].content {
            RequestContent::Put(data, id) => {
                let mpid_header = mpid_message.header().clone();
                let wrapper = MpidMessageWrapper::PutHeader(mpid_header);
                let expected_data = Data::Plain(PlainData { name, value: wrapper });
                assert_eq!(*data, expected_data);
                assert_eq!(*id, message_id);
            },
            _ => unreachable!(),
        }
    }

    let mpid_header = mpid_message.header().clone();
    let get_message_wrapper = MpidMessageWrapper::GetMessage(mpid_header.clone());
    let plain_data = PlainData { name, value: get_message_wrapper };
    let message_id = MessageId(6);
    let request = RequestMessage {
        src: Authority::ClientManager(receiver),
        dst: env.our_authority,
        content: RequestContent::Post(Data::Plain(plain_data.clone()), message_id),
    };

    match env.mpid_manager.handle_post(&mut env.routing, &request) {
        Ok(()) => (),
        Err(error) => panic!("Error: {:?}", error),
    }

    let post_requests = env.routing.post_requests_given();
    assert_eq!(post_requests.len(), 1);
    assert_eq!(post_requests[0].src, env.our_authority);
    assert_eq!(post_requests[0].dst, Authority::ClientManager(receiver));
    match &post_requests[0].content {
        RequestContent::Post(data, id) => {
            let wrapper = MpidMessageWrapper::PutMessage(mpid_message);
            let expected_data = Data::Plain(PlainData { name, value: wrapper });
            assert_eq!(*data, expected_data);
            assert_eq!(*id, message_id);
        },
        _ => unreachable!(),
    }
}

#[test]
fn outbox_has() {
    let mut env = environment_setup();
    let online_wrapper = MpidMessageWrapper::Online;
    let name = *env.our_authority.name();
    let plain_data = PlainData { name, value: online_wrapper };
    let message_id = MessageId(7);
    let request = RequestMessage {
        src: env.client,
        dst: env.our_authority,
        content: RequestContent::Post(Data::Plain(plain_data.clone()), message_id),
    };

    match env.mpid_manager.handle_post(&mut env.routing, &request) {
        Ok(()) => (),
        Err(error) => panic!("Error: {:?}", error),
    }

    let secret_key = SecretKey(5);
    let sender = XorName(1);
    let metadata: Vec<u8> = sample_vec_u8(3, 128);
    let body: Vec<u8> = sample_vec_u8(7, 128);
    let receiver = XorName(2);
    let mpid_message =
        MpidMessage::new(sender, metadata, receiver, body, &secret_key).unwrap();
    let mpid_message_wrapper = MpidMessageWrapper::PutMessage(mpid_message.clone());
    let name = mpid_message.header().name();
    let plain_data = PlainData { name, value: mpid_message_wrapper };
    let message_id = MessageId(8);
    let request = RequestMessage {
        src: env.client,
        dst: env.our_authority,
        content: RequestContent::Put(Data::Plain(plain_data.clone()), message_id),
    };

    match env.mpid_manager.handle_put(&mut env.routing, &request) {
        Ok(()) => (),
        Err(error) => panic!("Error: {:?}", error),
    }

    {
        let put_failures = env.routing.put_failures_given();
        assert!(put_failures.is_empty());
        let put_requests = env.routing.put_requests_given();
        assert_eq!(put_requests.len(), 1);
        assert_eq!(put_requests[0].src, env.our_authority);
        assert_eq!(put_requests[0].dst, Authority::ClientManager(receiver));
        match &put_requests[0].content {
            RequestContent::Put(data, id) => {
                let mpid_header = mpid_message.header().clone();
                let wrapper = MpidMessageWrapper::PutHeader(mpid_header);
                let expected_data = Data::Plain(PlainData { name, value: wrapper });
                assert_eq!(*data, expected_data);
                assert_eq!(*id, message_id);
            },
            _ => unreachable!(),
        }
    }

    let mpid_header = mpid_message.header().clone();
    let mpid_header_name = mpid_header.name();
    let outbox_has_wrapper = MpidMessageWrapper::OutboxHas(vec![mpid_header_name]);
    let name = *env.our_authority.name();
    let plain_data = PlainData { name, value: outbox_has_wrapper };
    let message_id = MessageId(9);
    let request = RequestMessage {
        src: env.client,
        dst: env.our_authority,
        content: RequestContent::Post(Data::Plain(plain_data.clone()), message_id),
    };

    match env.mpid_manager.handle_post(&mut env.routing, &request) {
        Ok(()) => (),
        Err(error) => panic!("Error: {:?}", error),
    }

    let post_requests = env.routing.post_requests_given();
    assert_eq!(post_requests.len(), 1);
    assert_eq!(post_requests[0].src, env.our_authority);
    assert_eq!(post_requests[0].dst, env.client);
    match &post_requests[0].content {
        RequestContent::Post(data, id) => {
            let wrapper = MpidMessageWrapper::OutboxHasResponse(vec![mpid_header]);
            let expected_data = Data::Plain(PlainData { name, value: wrapper });
            assert_eq!(*data, expected_data);
            assert_eq!(*id, message_id);
        },
        _ => unreachable!(),
    }
}

#[test]
fn get_outbox_headers() {
    let mut env = environment_setup();
    let online_wrapper = MpidMessageWrapper::Online;
    let name = *env.our_authority.name();
    let plain_data = PlainData { name, value: online_wrapper };
    let message_id = MessageId(10);
    let request = RequestMessage {
        src: env.client,
        dst: env.our_authority,
        content: RequestContent::Post(Data::Plain(plain_data.clone()), message_id),
    };

    match env.mpid_manager.handle_post(&mut env.routing, &request) {
        Ok(()) => (),
        Err(error) => panic!("Error: {:?}", error),
    }

    let secret_key = SecretKey(5);
    let sender = XorName(1);
    let metadata: Vec<u8> = sample_vec_u8(3, 128);
    let body: Vec<u8> = sample_vec_u8(7, 128);
    let receiver = XorName(2);
    let mpid_message =
        MpidMessage::new(sender, metadata, receiver, body, &secret_key).unwrap();
    let mpid_message_wrapper = MpidMessageWrapper::PutMessage(mpid_message.clone());
    let name = mpid_message.header().name();
    let plain_data = PlainData { name, value: mpid_message_wrapper };
    let message_id = MessageId(11);
    let request = RequestMessage {
        src: env.client,
        dst: env.our_authority,
        content: RequestContent::Put(Data::Plain(plain_data.clone()), message_id),
    };

    match env.mpid_manager.handle_put(&mut env.routing, &request) {
        Ok(()) => (),
        Err(error) => panic!("Error: {:?}", error),
    }

    {
        let put_failures = env.routing.put_failures_given();
        assert!(put_failures.is_empty());
        let put_requests = env.routing.put_requests_given();
        assert_eq!(put_requests.len(), 1);
        assert_eq!(put_requests[0].src, env.our_authority);
        assert_eq!(put_requests[0].dst, Authority::ClientManager(receiver));
        match &put_requests[0].content {
            RequestContent::Put(data, id) => {
                let mpid_header = mpid_message.header().clone();
                let wrapper = MpidMessageWrapper::PutHeader(mpid_header);
                let expected_data = Data::Plain(PlainData { name, value: wrapper });
                assert_eq!(*data, expected_data);
                assert_eq!(*id, message_id);
            },
            _ => unreachable!(),
        }
    }

    let get_outbox_headers_wrapper = MpidMessageWrapper::GetOutboxHeaders;
    let name = *env.our_authority.name();
    let plain_data = PlainData { name, value: get_outbox_headers_wrapper };
    let message_id = MessageId(12);
    let request = RequestMessage {
        src: env.client,
        dst: env.our_authority,
        content: RequestContent::Post(Data::Plain(plain_data.clone()), message_id),
    };

    match env.mpid_manager.handle_post(&mut env.routing, &request) {
        Ok(()) => (),
        Err(error) => panic!("Error: {:?}", error),
    }

    let post_requests = env.routing.post_requests_given();
    assert_eq!(post_requests.len(), 1);
    assert_eq!(post_requests[0].src, env.our_authority);
    assert_eq!(post_requests[0].dst, env.client);
    match &post_requests[0].content {
        RequestContent::Post(data, id) => {
            let mpid_header = mpid_message.header().clone();
            let wrapper = MpidMessageWrapper::GetOutboxHeadersResponse(vec![mpid_header]);
            let expected_data = Data::Plain(PlainData { name, value: wrapper });
            assert_eq!(*data, expected_data);
            assert_eq!(*id, message_id);
        },
        _ => unreachable!(),
    }
}

#[test]
fn put_failure_is_forwarded_to_registered_clients() {
    let mut env = environment_setup();
    // The account owner's client comes online.
    let online_wrapper = MpidMessageWrapper::Online;
    let account_name = *env.our_authority.name();
    let plain_data = PlainData { name: account_name, value: online_wrapper };
    let request = RequestMessage {
        src: env.client,
        dst: env.our_authority,
        content: RequestContent::Post(Data::Plain(plain_data), MessageId(20)),
    };
    env.mpid_manager.handle_post(&mut env.routing, &request).unwrap();

    // A message whose sender is this account is stored in its outbox.
    let secret_key = SecretKey(5);
    let sender = account_name;
    let mpid_message = MpidMessage::new(
        sender,
        sample_vec_u8(3, 128),
        XorName(2),
        sample_vec_u8(7, 128),
        &secret_key,
    )
    .unwrap();
    let name = mpid_message.header().name();
    let put = RequestMessage {
        src: env.client,
        dst: env.our_authority,
        content: RequestContent::Put(
            Data::Plain(PlainData {
                name,
                value: MpidMessageWrapper::PutMessage(mpid_message.clone()),
            }),
            MessageId(21),
        ),
    };
    env.mpid_manager.handle_put(&mut env.routing, &put).unwrap();
    assert_eq!(env.routing.put_failures_given().len(), 0);

    // The recipient's managers report their inbox full: the failure comes
    // back and is forwarded to the one registered client.
    let failure_report = RequestMessage {
        src: Authority::ClientManager(account_name),
        dst: env.our_authority,
        content: RequestContent::Put(
            Data::Plain(PlainData {
                name,
                value: MpidMessageWrapper::PutHeader(mpid_message.header().clone()),
            }),
            MessageId(22),
        ),
    };
    env.mpid_manager.handle_put_failure(&mut env.routing, &failure_report).unwrap();
    let put_failures = env.routing.put_failures_given();
    assert_eq!(put_failures.len(), 1);
    assert_eq!(put_failures[0].src, Authority::ClientManager(account_name));
    assert_eq!(put_failures[0].dst, env.client);
    match &put_failures[0].content {
        ResponseContent::PutFailure { id, request, external_error_indicator } => {
            assert_eq!(*id, MessageId(22));
            assert_eq!(*request, failure_report);
            assert_eq!(*external_error_indicator, vec![]);
        },
        _ => unreachable!(),
    }
}

#[test]
fn wrong_request_kinds_are_classification_failures() {
    let mut env = environment_setup();
    // A put handler given a get request reports the misrouting locally.
    let request = RequestMessage {
        src: env.client,
        dst: env.our_authority,
        content: RequestContent::Get(
            sn_node::mock_routing::DataIdentifier::Plain(XorName(5)),
            MessageId(30),
        ),
    };
    assert_eq!(
        env.mpid_manager.handle_put(&mut env.routing, &request),
        Err(InternalError::UnexpectedRequest)
    );
    assert_eq!(
        env.mpid_manager.handle_post(&mut env.routing, &request),
        Err(InternalError::UnexpectedRequest)
    );
    assert_eq!(
        env.mpid_manager.handle_delete(&mut env.routing, &request),
        Err(InternalError::UnexpectedRequest)
    );
    assert!(env.routing.put_failures_given().is_empty());
    assert!(env.routing.post_failures_given().is_empty());
    assert!(env.routing.delete_failures_given().is_empty());
}

#[test]
fn delete_message() {
    let mut env = environment_setup();
    let online_wrapper = MpidMessageWrapper::Online;
    let name = *env.our_authority.name();
    let plain_data = PlainData { name, value: online_wrapper };
    let message_id = MessageId(13);
    let request = RequestMessage {
        src: env.client,
        dst: env.our_authority,
        content: RequestContent::Post(Data::Plain(plain_data.clone()), message_id),
    };

    match env.mpid_manager.handle_post(&mut env.routing, &request) {
        Ok(()) => (),
        Err(error) => panic!("Error: {:?}", error),
    }

    let secret_key = SecretKey(5);
    let sender = XorName(1);
    let metadata: Vec<u8> = sample_vec_u8(3, 128);
    let body: Vec<u8> = sample_vec_u8(7, 128);
    let receiver = XorName(2);
    let mpid_message =
        MpidMessage::new(sender, metadata, receiver, body, &secret_key).unwrap();
    let mpid_message_wrapper = MpidMessageWrapper::PutMessage(mpid_message.clone());
    let name = mpid_message.header().name();
    let plain_data = PlainData { name, value: mpid_message_wrapper };
    let message_id = MessageId(14);
    let request = RequestMessage {
        src: env.client,
        dst: env.our_authority,
        content: RequestContent::Put(Data::Plain(plain_data.clone()), message_id),
    };

    match env.mpid_manager.handle_put(&mut env.routing, &request) {
        Ok(()) => (),
        Err(error) => panic!("Error: {:?}", error),
    }

    {
        let put_failures = env.routing.put_failures_given();
        assert!(put_failures.is_empty());
        let put_requests = env.routing.put_requests_given();
        assert_eq!(put_requests.len(), 1);
        assert_eq!(put_requests[0].src, env.our_authority);
        assert_eq!(put_requests[0].dst, Authority::ClientManager(receiver));
        match &put_requests[0].content {
            RequestContent::Put(data, id) => {
                let mpid_header = mpid_message.header().clone();
                let wrapper = MpidMessageWrapper::PutHeader(mpid_header);
                let expected_data = Data::Plain(PlainData { name, value: wrapper });
                assert_eq!(*data, expected_data);
                assert_eq!(*id, message_id);
            },
            _ => unreachable!(),
        }
    }

    let mpid_header_name = mpid_message.header().name();
    let delete_message_wrapper = MpidMessageWrapper::DeleteMessage(mpid_header_name);
    let name = *env.our_authority.name();
    let plain_data = PlainData { name, value: delete_message_wrapper };
    let message_id = MessageId(15);
    let request = RequestMessage {
        src: env.client,
        dst: env.our_authority,
        content: RequestContent::Delete(Data::Plain(plain_data.clone()), message_id),
    };

    match env.mpid_manager.handle_delete(&mut env.routing, &request) {
        Ok(()) => (),
        Err(error) => panic!("Error: {:?}", error),
    }

    let mpid_header = mpid_message.header().clone();
    let get_message_wrapper = MpidMessageWrapper::GetMessage(mpid_header.clone());
    let plain_data = PlainData { name: mpid_header_name, value: get_message_wrapper };
    let message_id = MessageId(16);
    let get_request = RequestMessage {
        src: Authority::ClientManager(receiver),
        dst: env.our_authority,
        content: RequestContent::Post(Data::Plain(plain_data.clone()), message_id),
    };

    match env.mpid_manager.handle_post(&mut env.routing, &get_request) {
        Ok(()) => (),
        Err(error) => panic!("Error: {:?}", error),
    }

    let post_failures = env.routing.post_failures_given();
    assert_eq!(post_failures.len(), 1);
    assert_eq!(post_failures[0].src, env.our_authority);
    assert_eq!(post_failures[0].dst, Authority::ClientManager(receiver));
    match &post_failures[0].content {
        ResponseContent::PostFailure { id, request, external_error_indicator } => {
            assert_eq!(*id, message_id);
            assert_eq!(*request, get_request);
            assert_eq!(*external_error_indicator, vec![]);
        },
        _ => unreachable!(),
    }
}
