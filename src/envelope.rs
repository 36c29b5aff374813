//! Envelopes: a message with its trace identifier, its sender and, for a
//! request, the token that routes the response back.
//!
//! A type-erased message is a tag naming its type and the values that carry
//! it; a message type says how it is carried and proves that it reads back
//! what it wrote.

use crate::addr::Addr;
use vstd::prelude::*;

verus! {

// === Trace identifiers ===

/// A nonzero identifier that correlates work across actors.
#[derive(Debug, Clone, Copy, PartialEq, Eq, Hash, Structural)]
pub struct TraceId(u64);

impl View for TraceId {
    type V = u64;

    closed spec fn view(&self) -> u64 {
        self.0
    }
}

impl TraceId {
    #[verifier::type_invariant]
    spec fn inv(self) -> bool {
        self.0 != 0
    }

    /// `None` iff `value` is zero.
    pub fn new(value: u64) -> (r: Option<TraceId>)
        ensures
            r is None <==> value == 0,
            r matches Some(t) ==> t@ == value,
    {
        if value == 0 {
            None
        } else {
            Some(TraceId(value))
        }
    }

    pub fn into_bits(self) -> (r: u64)
        ensures
            r == self@,
            r != 0,
    {
        proof {
            use_type_invariant(&self);
        }
        self.0
    }
}

// === Request tokens and kinds ===

/// The handle that correlates a response with a request: the address of the
/// requesting actor and an identifier issued by that actor's request table.
#[derive(Debug, Clone, Copy, PartialEq, Eq, Hash, Structural)]
pub struct ResponseToken {
    pub sender: Addr,
    pub request_id: u64,
}

/// How an envelope is to be answered.
#[derive(Debug, Clone, Copy, PartialEq, Eq, Hash, Structural)]
pub enum MessageKind {
    /// No answer is expected.
    Regular { sender: Addr },
    /// A request answered by any one of its receivers.
    RequestAny(ResponseToken),
    /// A request answered by all of its receivers.
    RequestAll(ResponseToken),
}

/// The sender of an envelope of kind `kind`.
pub open spec fn kind_sender(kind: MessageKind) -> Addr {
    match kind {
        MessageKind::Regular { sender } => sender,
        MessageKind::RequestAny(token) => token.sender,
        MessageKind::RequestAll(token) => token.sender,
    }
}

/// The kind `kind` with its response token replaced by `token`; a regular
/// kind is kept as it is.
pub open spec fn kind_with_token(kind: MessageKind, token: ResponseToken) -> MessageKind {
    match kind {
        MessageKind::Regular { sender } => MessageKind::Regular { sender },
        MessageKind::RequestAny(_) => MessageKind::RequestAny(token),
        MessageKind::RequestAll(_) => MessageKind::RequestAll(token),
    }
}

// === Erased messages ===

/// One value carried by an erased message.
#[derive(Debug, PartialEq, Eq)]
pub enum Value {
    Int(u64),
    Text(String),
}

impl Value {
    /// A copy of this value.
    pub fn duplicate(&self) -> (r: Value)
        ensures
            r == *self,
    {
        match self {
            Value::Int(n) => Value::Int(*n),
            Value::Text(s) => Value::Text(s.clone()),
        }
    }
}

/// A message type that can travel erased.
pub trait Message: Sized {
    /// The tag that names this type among erased messages. It must differ
    /// from the tag of every other message type: `is` and the downcasts tell
    /// types apart by the tag alone.
    spec fn type_tag() -> u64;

    /// The values that carry `self`.
    spec fn encoded(&self) -> Seq<Value>;

    /// The message that `values` carry, if they carry one of this type.
    spec fn decoded(values: Seq<Value>) -> Option<Self>;

    /// Whether `self` meets the invariants of the types it is made of; every
    /// value built by executable code does.
    spec fn well_formed(&self) -> bool;

    fn tag() -> (r: u64)
        ensures
            r == Self::type_tag(),
    ;

    /// The values that carry `self`; `self`, being built by executable code,
    /// is well formed.
    fn encode(self) -> (r: Vec<Value>)
        ensures
            r@ == self.encoded(),
            self.well_formed(),
    ;

    fn decode(values: Vec<Value>) -> (r: Option<Self>)
        ensures
            r == Self::decoded(values@),
    ;

    /// What is encoded decodes to itself.
    proof fn lemma_decode_encode(m: Self)
        requires
            m.well_formed(),
        ensures
            Self::decoded(m.encoded()) == Some(m),
    ;
}

/// A message whose type is known only at run time: a type tag and the values
/// that carry it.
#[derive(Debug)]
pub struct AnyMessage {
    tag: u64,
    values: Vec<Value>,
}

impl View for AnyMessage {
    type V = (u64, Seq<Value>);

    closed spec fn view(&self) -> (u64, Seq<Value>) {
        (self.tag, self.values@)
    }
}

/// The message of type `M` that an erased message of view `v` holds, if any.
pub open spec fn erased_as<M: Message>(v: (u64, Seq<Value>)) -> Option<M> {
    if v.0 == M::type_tag() {
        M::decoded(v.1)
    } else {
        None
    }
}

impl AnyMessage {
    /// Erases the type of `message`.
    pub fn new<M: Message>(message: M) -> (r: AnyMessage)
        ensures
            r@ == (M::type_tag(), message.encoded()),
            erased_as::<M>(r@) == Some(message),
    {
        let r = AnyMessage { tag: M::tag(), values: message.encode() };
        proof {
            M::lemma_decode_encode(message);
        }
        r
    }

    /// Whether this message is of type `M`.
    pub fn is<M: Message>(&self) -> (r: bool)
        ensures
            r == (self@.0 == M::type_tag()),
    {
        self.tag == M::tag()
    }

    /// The message of type `M` held here, if it is one.
    pub fn downcast<M: Message>(self) -> (r: Option<M>)
        ensures
            r == erased_as::<M>(self@),
    {
        if self.tag == M::tag() {
            M::decode(self.values)
        } else {
            None
        }
    }

    /// A copy of this message.
    pub fn duplicate(&self) -> (r: AnyMessage)
        ensures
            r@ == self@,
    {
        let mut values: Vec<Value> = Vec::new();
        let n = self.values.len();
        for i in 0..n
            invariant
                n == self.values@.len(),
                values@ == self.values@.take(i as int),
        {
            values.push(self.values[i].duplicate());
            assert(values@ =~= self.values@.take(i + 1));
        }
        assert(values@ =~= self.values@);
        AnyMessage { tag: self.tag, values }
    }
}

// === Envelopes ===

/// Resolves the sender of a request token and asks its request table for a
/// sibling token; `None` when the sender is gone or its table refuses.
pub trait AddressBook {
    fn clone_token(&self, token: &ResponseToken) -> Option<ResponseToken>;
}

/// A message in transit with its trace identifier and kind.
#[derive(Debug)]
pub struct Envelope<M = AnyMessage> {
    trace_id: TraceId,
    kind: MessageKind,
    message: M,
}

impl<M> Envelope<M> {
    pub closed spec fn spec_trace_id(&self) -> TraceId {
        self.trace_id
    }

    pub closed spec fn spec_kind(&self) -> MessageKind {
        self.kind
    }

    pub closed spec fn spec_message(&self) -> M {
        self.message
    }

    /// A new envelope; its trace identifier is 1 until it is set.
    pub fn new(message: M, kind: MessageKind) -> (r: Envelope<M>)
        ensures
            r.spec_trace_id()@ == 1,
            r.spec_kind() == kind,
            r.spec_message() == message,
    {
        Envelope { trace_id: TraceId(1), kind, message }
    }

    /// The sender: the regular sender, or the requester named in the token.
    pub fn sender(&self) -> (r: Addr)
        ensures
            r == kind_sender(self.spec_kind()),
    {
        match &self.kind {
            MessageKind::Regular { sender } => *sender,
            MessageKind::RequestAny(token) => token.sender,
            MessageKind::RequestAll(token) => token.sender,
        }
    }

    pub fn trace_id(&self) -> (r: TraceId)
        ensures
            r == self.spec_trace_id(),
    {
        self.trace_id
    }

    pub fn set_trace_id(&mut self, trace_id: TraceId)
        ensures
            final(self).spec_trace_id() == trace_id,
            final(self).spec_kind() == old(self).spec_kind(),
            final(self).spec_message() == old(self).spec_message(),
    {
        self.trace_id = trace_id;
    }

    pub fn kind(&self) -> (r: MessageKind)
        ensures
            r == self.spec_kind(),
    {
        self.kind
    }

    /// The message, dropping the rest.
    pub fn into_message(self) -> (r: M)
        ensures
            r == self.spec_message(),
    {
        self.message
    }
}

impl<M: Message> Envelope<M> {
    /// The same envelope with its message erased.
    pub fn upcast(self) -> (r: Envelope<AnyMessage>)
        ensures
            r.spec_trace_id() == self.spec_trace_id(),
            r.spec_kind() == self.spec_kind(),
            r.spec_message()@ == (M::type_tag(), self.spec_message().encoded()),
            erased_as::<M>(r.spec_message()@) == Some(self.spec_message()),
    {
        Envelope { trace_id: self.trace_id, kind: self.kind, message: AnyMessage::new(self.message) }
    }
}

impl Envelope<AnyMessage> {
    /// Whether the message is of type `M`.
    pub fn is<M: Message>(&self) -> (r: bool)
        ensures
            r == (self.spec_message()@.0 == M::type_tag()),
    {
        self.message.is::<M>()
    }

    /// The same envelope with its message of type `M` recovered; the message
    /// must be one.
    pub fn do_downcast<M: Message>(self) -> (r: Envelope<M>)
        requires
            erased_as::<M>(self.spec_message()@) is Some,
        ensures
            r.spec_trace_id() == self.spec_trace_id(),
            r.spec_kind() == self.spec_kind(),
            Some(r.spec_message()) == erased_as::<M>(self.spec_message()@),
    {
        let message = self.message.downcast::<M>().unwrap();
        Envelope { trace_id: self.trace_id, kind: self.kind, message }
    }

    /// A copy of this envelope, given `issued`, the address book's answer to
    /// a request for a sibling of this envelope's response token. A regular
    /// envelope is copied as it is, whatever `issued` holds. A request is
    /// copied, carrying the issued token, only when a token was issued and it
    /// names the same requester; a token for another requester counts as a
    /// refusal.
    pub fn duplicate_with(&self, issued: Option<ResponseToken>) -> (r: Option<
        Envelope<AnyMessage>,
    >)
        ensures
            r is Some <==> (self.spec_kind() is Regular || (issued matches Some(t) && t.sender
                == kind_sender(self.spec_kind()))),
            r matches Some(e) ==> e.spec_trace_id() == self.spec_trace_id() && e.spec_message()@
                == self.spec_message()@ && kind_sender(e.spec_kind()) == kind_sender(
                self.spec_kind(),
            ),
            r matches Some(e) ==> (self.spec_kind() is Regular ==> e.spec_kind()
                == self.spec_kind()),
            r matches Some(e) ==> (issued matches Some(t) ==> e.spec_kind() == kind_with_token(
                self.spec_kind(),
                t,
            )),
    {
        let sender = self.sender();
        let kind = match (&self.kind, issued) {
            (MessageKind::Regular { sender }, _) => MessageKind::Regular { sender: *sender },
            (MessageKind::RequestAny(_), Some(t)) => {
                if t.sender != sender {
                    return None;
                }
                MessageKind::RequestAny(t)
            },
            (MessageKind::RequestAll(_), Some(t)) => {
                if t.sender != sender {
                    return None;
                }
                MessageKind::RequestAll(t)
            },
            (_, None) => {
                return None;
            },
        };
        Some(Envelope { trace_id: self.trace_id, kind, message: self.message.duplicate() })
    }

    /// A copy of this envelope. A request asks `book` for a sibling of its own
    /// response token and is copied as `duplicate_with` says of the answer;
    /// a regular envelope is always copied.
    pub fn duplicate<B: AddressBook>(&self, book: &B) -> (r: Option<Envelope<AnyMessage>>)
        ensures
            self.spec_kind() is Regular ==> (r matches Some(e) && e.spec_trace_id()
                == self.spec_trace_id() && e.spec_kind() == self.spec_kind() && e.spec_message()@
                == self.spec_message()@),
            r matches Some(e) ==> e.spec_trace_id() == self.spec_trace_id() && e.spec_message()@
                == self.spec_message()@ && kind_sender(e.spec_kind()) == kind_sender(
                self.spec_kind(),
            ) && (exists|t: ResponseToken|
                e.spec_kind() == kind_with_token(self.spec_kind(), t)),
    {
        let issued = match &self.kind {
            MessageKind::Regular { .. } => None,
            MessageKind::RequestAny(token) => book.clone_token(token),
            MessageKind::RequestAll(token) => book.clone_token(token),
        };
        let r = self.duplicate_with(issued);
        proof {
            if r is Some {
                let e = r->Some_0;
                if self.spec_kind() is Regular {
                    assert(e.spec_kind() == kind_with_token(self.spec_kind(), arbitrary()));
                } else {
                    let t = issued->Some_0;
                    assert(e.spec_kind() == kind_with_token(self.spec_kind(), t));
                }
            }
        }
        r
    }

    /// Replaces the message, erasing its type; trace identifier and kind stay.
    pub fn set_message<M: Message>(&mut self, message: M)
        ensures
            final(self).spec_trace_id() == old(self).spec_trace_id(),
            final(self).spec_kind() == old(self).spec_kind(),
            final(self).spec_message()@ == (M::type_tag(), message.encoded()),
    {
        self.message = AnyMessage::new(message);
    }
}

/// A message erased and read back as its own type is the same message.
pub proof fn lemma_erase_recover<M: Message>(m: M)
    requires
        m.well_formed(),
    ensures
        erased_as::<M>((M::type_tag(), m.encoded())) == Some(m),
{
    M::lemma_decode_encode(m);
}

// === Unpacking ===

/// Unpacking an owned envelope.
pub trait EnvelopeOwned: Sized {
    /// Whether the envelope holds a request.
    spec fn holds_request(&self) -> bool;

    /// The erased message held.
    spec fn held_message(&self) -> (u64, Seq<Value>);

    /// The response token of a request.
    spec fn held_token(&self) -> ResponseToken;

    /// The message of a regular envelope.
    fn unpack_regular(self) -> (r: AnyMessage)
        requires
            !self.holds_request(),
        ensures
            r@ == self.held_message(),
    ;

    /// The message of a request and the token to answer it with.
    fn unpack_request(self) -> (r: (AnyMessage, ResponseToken))
        requires
            self.holds_request(),
        ensures
            r.0@ == self.held_message(),
            r.1 == self.held_token(),
    ;
}

/// Unpacking a borrowed envelope.
pub trait EnvelopeBorrowed {
    /// The erased message held.
    spec fn lent_message(&self) -> (u64, Seq<Value>);

    /// The message of a regular envelope.
    fn unpack_regular(&self) -> (r: &AnyMessage)
        ensures
            r@ == self.lent_message(),
    ;
}

impl EnvelopeOwned for Envelope<AnyMessage> {
    open spec fn holds_request(&self) -> bool {
        !(self.spec_kind() is Regular)
    }

    open spec fn held_message(&self) -> (u64, Seq<Value>) {
        self.spec_message()@
    }

    open spec fn held_token(&self) -> ResponseToken {
        match self.spec_kind() {
            MessageKind::RequestAny(token) => token,
            MessageKind::RequestAll(token) => token,
            MessageKind::Regular { .. } => arbitrary(),
        }
    }

    fn unpack_regular(self) -> (r: AnyMessage) {
        self.message
    }

    fn unpack_request(self) -> (r: (AnyMessage, ResponseToken)) {
        match self.kind {
            MessageKind::RequestAny(token) => (self.message, token),
            MessageKind::RequestAll(token) => (self.message, token),
            MessageKind::Regular { .. } => {
                proof {
                    assert(false);
                }
                (self.message, ResponseToken { sender: Addr::null(), request_id: 0 })
            },
        }
    }
}

impl EnvelopeBorrowed for Envelope<AnyMessage> {
    open spec fn lent_message(&self) -> (u64, Seq<Value>) {
        self.spec_message()@
    }

    fn unpack_regular(&self) -> (r: &AnyMessage) {
        &self.message
    }
}

/// Recovering the type of an owned erased message.
pub trait AnyMessageOwned: Sized {
    /// The type tag and values held.
    spec fn held_values(&self) -> (u64, Seq<Value>);

    /// The message of type `M` held; it must be one.
    fn downcast2<M: Message>(self) -> (r: M)
        requires
            erased_as::<M>(self.held_values()) is Some,
        ensures
            Some(r) == erased_as::<M>(self.held_values()),
    ;
}

/// Recovering the type of a borrowed erased message.
pub trait AnyMessageBorrowed {
    /// The type tag and values held.
    spec fn lent_values(&self) -> (u64, Seq<Value>);

    /// A copy of the message of type `M` held; it must be one. The values
    /// are read back into a new message, so it is returned by value.
    fn downcast2<M: Message>(&self) -> (r: M)
        requires
            erased_as::<M>(self.lent_values()) is Some,
        ensures
            Some(r) == erased_as::<M>(self.lent_values()),
    ;
}

impl AnyMessageOwned for AnyMessage {
    open spec fn held_values(&self) -> (u64, Seq<Value>) {
        self@
    }

    fn downcast2<M: Message>(self) -> (r: M) {
        self.downcast::<M>().unwrap()
    }
}

impl AnyMessageBorrowed for AnyMessage {
    open spec fn lent_values(&self) -> (u64, Seq<Value>) {
        self@
    }

    fn downcast2<M: Message>(&self) -> (r: M) {
        self.duplicate().downcast::<M>().unwrap()
    }
}

} // verus!
