use elfo_addr::addr::{Addr, GroupNo, NodeLaunchId, NodeNo};
use elfo_addr::envelope::{
    AddressBook, AnyMessage, AnyMessageBorrowed, AnyMessageOwned, Envelope, EnvelopeBorrowed,
    EnvelopeOwned, MessageKind, ResponseToken, TraceId, Value,
};
use elfo_addr::network::{GroupInfo, HandleConnection, UpdateConfig};

fn some_addr(slot_key: usize) -> Addr {
    let launch_id = NodeLaunchId::from_bits(0);
    Addr::new_local(slot_key, GroupNo::new(2, launch_id).unwrap(), launch_id)
}

fn connection() -> HandleConnection {
    HandleConnection {
        local: GroupInfo {
            node_no: NodeNo::from_bits(1).unwrap(),
            group_no: GroupNo::from_bits(4).unwrap(),
            group_name: "gateway".to_string(),
        },
        remote: GroupInfo {
            node_no: NodeNo::from_bits(9).unwrap(),
            group_no: GroupNo::from_bits(6).unwrap(),
            group_name: "storage".to_string(),
        },
    }
}

struct Book {
    issue: bool,
}

impl AddressBook for Book {
    fn clone_token(&self, token: &ResponseToken) -> Option<ResponseToken> {
        if self.issue {
            Some(ResponseToken { sender: token.sender, request_id: token.request_id + 100 })
        } else {
            None
        }
    }
}

#[test]
fn trace_id_is_nonzero() {
    assert_eq!(TraceId::new(0), None);
    assert_eq!(TraceId::new(5).unwrap().into_bits(), 5);
}

#[test]
fn envelope_new_and_sender() {
    let sender = some_addr(10);
    let envelope = Envelope::new(UpdateConfig {}, MessageKind::Regular { sender });
    assert_eq!(envelope.trace_id().into_bits(), 1);
    assert_eq!(envelope.sender(), sender);

    let token = ResponseToken { sender: some_addr(11), request_id: 3 };
    let any = Envelope::new(UpdateConfig {}, MessageKind::RequestAny(token));
    assert_eq!(any.sender(), some_addr(11));
    let all = Envelope::new(UpdateConfig {}, MessageKind::RequestAll(token));
    assert_eq!(all.sender(), some_addr(11));
}

#[test]
fn envelope_trace_id_can_be_set() {
    let mut envelope = Envelope::new(UpdateConfig {}, MessageKind::Regular { sender: some_addr(1) });
    envelope.set_trace_id(TraceId::new(77).unwrap());
    assert_eq!(envelope.trace_id().into_bits(), 77);
    assert_eq!(envelope.kind(), MessageKind::Regular { sender: some_addr(1) });
}

#[test]
fn upcast_and_downcast() {
    let mut typed = Envelope::new(connection(), MessageKind::Regular { sender: some_addr(5) });
    typed.set_trace_id(TraceId::new(9).unwrap());
    let erased = typed.upcast();
    assert!(erased.is::<HandleConnection>());
    assert!(!erased.is::<UpdateConfig>());
    assert_eq!(erased.trace_id().into_bits(), 9);
    let back = erased.do_downcast::<HandleConnection>();
    assert_eq!(back.trace_id().into_bits(), 9);
    assert_eq!(back.sender(), some_addr(5));
    assert_eq!(back.into_message(), connection());
}

#[test]
fn any_message_downcast() {
    let message = AnyMessage::new(connection());
    assert!(message.is::<HandleConnection>());
    assert_eq!(AnyMessageBorrowed::downcast2::<HandleConnection>(&message), connection());
    assert_eq!(message.duplicate().downcast::<UpdateConfig>(), None);
    assert_eq!(AnyMessageOwned::downcast2::<HandleConnection>(message), connection());
}

#[test]
fn duplicate_regular() {
    let envelope =
        Envelope::new(connection(), MessageKind::Regular { sender: some_addr(5) }).upcast();
    let copy = envelope.duplicate(&Book { issue: false }).unwrap();
    assert_eq!(copy.kind(), envelope.kind());
    assert_eq!(copy.do_downcast::<HandleConnection>().into_message(), connection());
}

#[test]
fn duplicate_request() {
    let token = ResponseToken { sender: some_addr(8), request_id: 1 };
    let envelope = Envelope::new(UpdateConfig {}, MessageKind::RequestAll(token)).upcast();
    let copy = envelope.duplicate(&Book { issue: true }).unwrap();
    assert_eq!(
        copy.kind(),
        MessageKind::RequestAll(ResponseToken { sender: some_addr(8), request_id: 101 })
    );
    assert!(copy.is::<UpdateConfig>());
    assert!(envelope.duplicate(&Book { issue: false }).is_none());
}

struct StrangerBook;

impl AddressBook for StrangerBook {
    fn clone_token(&self, token: &ResponseToken) -> Option<ResponseToken> {
        Some(ResponseToken { sender: some_addr(99), request_id: token.request_id })
    }
}

#[test]
fn duplicate_refuses_token_of_another_requester() {
    let token = ResponseToken { sender: some_addr(8), request_id: 1 };
    let envelope = Envelope::new(UpdateConfig {}, MessageKind::RequestAny(token)).upcast();
    assert!(envelope.duplicate(&StrangerBook).is_none());
}

#[test]
fn duplicate_with_token() {
    let token = ResponseToken { sender: some_addr(8), request_id: 1 };
    let fresh = ResponseToken { sender: some_addr(8), request_id: 2 };
    let envelope = Envelope::new(UpdateConfig {}, MessageKind::RequestAny(token)).upcast();
    assert!(envelope.duplicate_with(None).is_none());
    let copy = envelope.duplicate_with(Some(fresh)).unwrap();
    assert_eq!(copy.kind(), MessageKind::RequestAny(fresh));
    let stranger = ResponseToken { sender: some_addr(9), request_id: 2 };
    assert!(envelope.duplicate_with(Some(stranger)).is_none());

    let regular =
        Envelope::new(UpdateConfig {}, MessageKind::Regular { sender: some_addr(4) }).upcast();
    let copy = regular.duplicate_with(Some(stranger)).unwrap();
    assert_eq!(copy.kind(), MessageKind::Regular { sender: some_addr(4) });
}

#[test]
fn set_message_and_unpack() {
    let token = ResponseToken { sender: some_addr(3), request_id: 4 };
    let mut envelope = Envelope::new(UpdateConfig {}, MessageKind::RequestAny(token)).upcast();
    envelope.set_message(connection());
    assert!(envelope.is::<HandleConnection>());
    assert_eq!(envelope.kind(), MessageKind::RequestAny(token));
    assert!(EnvelopeBorrowed::unpack_regular(&envelope).is::<HandleConnection>());
    let (message, unpacked) = envelope.unpack_request();
    assert_eq!(unpacked, token);
    assert_eq!(message.downcast::<HandleConnection>(), Some(connection()));

    let regular =
        Envelope::new(UpdateConfig {}, MessageKind::Regular { sender: some_addr(3) }).upcast();
    assert!(EnvelopeOwned::unpack_regular(regular).is::<UpdateConfig>());
}

#[test]
fn values_are_duplicated() {
    let text = Value::Text("abc".to_string());
    assert_eq!(text.duplicate(), text);
    assert_eq!(Value::Int(4).duplicate(), Value::Int(4));
}
