use autopush::protocol::{ClientMessage, HelloResponse, ServerMessage};
use autopush::unidentified::{hello_request, ClientStateError, UnidentifiedClient};

const UA: &str =
    "Mozilla/5.0 (Macintosh; Intel Mac OS X 10.15; rv:95.0) Gecko/20100101 Firefox/95.0";
const DUMMY_UAID: &str = "deadbeef-0000-0000-abad-1dea00000000";
const DUMMY_CHID: &str = "deadbeef00000000decafbad00000000";
const DUMMY_UAID_VALUE: u128 = 0xdeadbeef_0000_0000_abad_1dea00000000;

fn hello(uaid: Option<&str>, use_webpush: Option<bool>) -> ClientMessage {
    ClientMessage::Hello {
        uaid: uaid.map(|s| s.to_owned()),
        channel_ids: None,
        use_webpush,
        broadcasts: None,
    }
}

fn store_answer(uaid: Option<u128>) -> HelloResponse {
    HelloResponse {
        uaid,
        message_month: String::new(),
        check_storage: false,
        reset_uaid: false,
        rotate_message_table: false,
        connected_at: 0,
    }
}

#[test]
fn reject_not_hello() {
    let client = UnidentifiedClient::new(UA);
    assert!(client.on_client_message(ClientMessage::Ping).is_err());
    assert!(client
        .on_client_message(ClientMessage::Register {
            channel_id: DUMMY_CHID.to_owned(),
            key: None,
        })
        .is_err());
}

#[test]
fn hello_existing_user() {
    let client = UnidentifiedClient::new(UA);
    let req = client
        .on_client_message(hello(Some(DUMMY_UAID), Some(true)))
        .unwrap();
    assert_eq!(req.uaid, Some(DUMMY_UAID_VALUE));
    assert!(!req.defer_registration);
    let result = client.on_hello_response(&store_answer(Some(DUMMY_UAID_VALUE)));
    assert!(result.is_ok());
}

#[test]
fn hello_new_user() {
    let client = UnidentifiedClient::new(UA);
    let req = client.on_client_message(hello(None, Some(true))).unwrap();
    // Ensure no write to the db
    assert!(req.defer_registration);
    assert_eq!(req.uaid, None);
    let result = client.on_hello_response(&store_answer(Some(DUMMY_UAID_VALUE)));
    assert!(result.is_ok());
}

#[test]
fn new_client_keeps_user_agent() {
    let client = UnidentifiedClient::new(UA);
    assert_eq!(client.ua, UA);
}

#[test]
fn reject_hello_without_webpush() {
    let client = UnidentifiedClient::new(UA);
    match client.on_client_message(hello(None, None)) {
        Err(ClientStateError::InvalidClientMessage(m)) => assert_eq!(m, ""),
        other => panic!("unexpected {:?}", other),
    }
    match client.on_client_message(hello(Some(DUMMY_UAID), Some(false))) {
        Err(ClientStateError::InvalidClientMessage(m)) => assert_eq!(m, ""),
        other => panic!("unexpected {:?}", other),
    }
}

#[test]
fn reject_malformed_uaid() {
    let client = UnidentifiedClient::new(UA);
    match client.on_client_message(hello(Some("not-a-uaid"), Some(true))) {
        Err(ClientStateError::InvalidClientMessage(m)) => assert_eq!(m, "XXX"),
        other => panic!("unexpected {:?}", other),
    }
}

#[test]
fn hello_request_records_router_url() {
    let req = hello_request(None).unwrap();
    assert_eq!(req.router_url, "https://cnn.com/");
    assert!(req.defer_registration);
    let req = hello_request(Some(Some(7))).unwrap();
    assert_eq!(req.uaid, Some(7));
    assert!(!req.defer_registration);
    assert!(matches!(
        hello_request(Some(None)),
        Err(ClientStateError::InvalidClientMessage(_))
    ));
}

#[test]
fn hello_answer_has_simple_uaid() {
    let client = UnidentifiedClient::new(UA);
    match client.on_hello_response(&store_answer(Some(DUMMY_UAID_VALUE))) {
        Ok(ServerMessage::Hello {
            uaid,
            status,
            use_webpush,
            broadcasts,
        }) => {
            assert_eq!(uaid, "deadbeef00000000abad1dea00000000");
            assert_eq!(status, 200);
            assert_eq!(use_webpush, Some(true));
            assert!(broadcasts.is_empty());
        }
        other => panic!("unexpected {:?}", other),
    }
}

#[test]
fn hello_answer_pads_small_uaid() {
    let client = UnidentifiedClient::new(UA);
    match client.on_hello_response(&store_answer(Some(0xab))) {
        Ok(ServerMessage::Hello { uaid, .. }) => {
            assert_eq!(uaid, "000000000000000000000000000000ab")
        }
        other => panic!("unexpected {:?}", other),
    }
}

#[test]
fn already_connected_elsewhere() {
    let client = UnidentifiedClient::new(UA);
    assert!(matches!(
        client.on_hello_response(&store_answer(None)),
        Err(ClientStateError::AlreadyConnected)
    ));
}

#[test]
fn reconnect_with_assigned_uaid() {
    let client = UnidentifiedClient::new(UA);
    let assigned = match client.on_hello_response(&store_answer(Some(DUMMY_UAID_VALUE))) {
        Ok(ServerMessage::Hello { uaid, .. }) => uaid,
        other => panic!("unexpected {:?}", other),
    };
    let req = client
        .on_client_message(hello(Some(&assigned), Some(true)))
        .unwrap();
    assert_eq!(req.uaid, Some(DUMMY_UAID_VALUE));
    assert!(!req.defer_registration);
}
