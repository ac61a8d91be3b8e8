//! Request identifiers, one-shot response slots, and the store that routes a
//! response event to the slot of the request it answers.
use vstd::prelude::*;
use vstd::string::*;
use tokio::sync::oneshot::Sender;

verus! {

/// Event published to ask the front end for the password.
pub const REQUEST_EVENT: &'static str = "sudo-password-request";

/// Prefix of the event on which the answer to one request arrives; the
/// request identifier follows it.
pub const RESPONSE_EVENT_PREFIX: &'static str = "sudo-password-response-";

#[verifier::external_type_specification]
#[verifier::external_body]
#[verifier::reject_recursive_types(T)]
pub struct ExOneshotSender<T>(tokio::sync::oneshot::Sender<T>);

/// Relies on tokio's `oneshot::Sender::send`, which consumes the sender and
/// never blocks or panics; nothing is assumed of its outcome.
pub assume_specification<T>[ tokio::sync::oneshot::Sender::<T>::send ](s: Sender<T>, t: T) -> (r: Result<(), T>);

/// Name of the event that carries the answer to request `id`.
pub open spec fn response_event_spec(id: Seq<char>) -> Seq<char> {
    RESPONSE_EVENT_PREFIX@ + id
}

/// Builds the response event name for a request identifier.
pub fn response_event_name(request_id: &str) -> (r: String)
    ensures
        r@ == response_event_spec(request_id@),
{
    let prefix = String::from_str(RESPONSE_EVENT_PREFIX);
    prefix.concat(request_id)
}

/// Distinct requests listen on distinct response events.
pub proof fn lemma_response_event_injective(a: Seq<char>, b: Seq<char>)
    ensures
        response_event_spec(a) == response_event_spec(b) ==> a == b,
{
    let p = RESPONSE_EVENT_PREFIX@;
    if response_event_spec(a) == response_event_spec(b) {
        assert(a =~= response_event_spec(a).subrange(p.len() as int, response_event_spec(a).len() as int));
        assert(b =~= response_event_spec(b).subrange(p.len() as int, response_event_spec(b).len() as int));
    }
}

/// What became of one attempt to fill a slot.
#[derive(PartialEq, Eq, Structural, Clone, Copy, Debug)]
pub enum Delivery {
    /// The value went to the waiting receiver.
    Delivered,
    /// The slot was open but its receiver had stopped waiting; the value is dropped.
    ReceiverGone,
    /// The slot was already resolved: the attempt changes nothing.
    AlreadyResolved,
    /// No outstanding request listens on that event.
    NoSuchRequest,
}

/// What a send into an open slot amounts to: the receiver took the value,
/// or it had stopped waiting and the value came back.
pub fn delivery_of_send(sent: &Result<(), String>) -> (r: Delivery)
    ensures
        r == (match sent {
            Ok(()) => Delivery::Delivered,
            Err(_) => Delivery::ReceiverGone,
        }),
{
    match sent {
        Ok(()) => Delivery::Delivered,
        Err(_) => Delivery::ReceiverGone,
    }
}

/// A single-use handoff from the event callback to the waiting caller: it
/// accepts at most one value.
pub struct CorrelationSlot {
    sender: Option<Sender<String>>,
}

impl CorrelationSlot {
    /// Whether the slot can still accept its one value.
    pub closed spec fn is_open(&self) -> bool {
        self.sender is Some
    }

    /// A slot that forwards its value to the receiver of `sender`.
    pub fn new(sender: Sender<String>) -> (r: Self)
        ensures
            r.is_open(),
    {
        CorrelationSlot { sender: Some(sender) }
    }

    /// Whether the slot is still open.
    pub fn is_pending(&self) -> (r: bool)
        ensures
            r == self.is_open(),
    {
        self.sender.is_some()
    }

    /// Hands `secret` over if no value was handed over before; a later
    /// attempt is a no-op.
    pub fn deliver(&mut self, secret: String) -> (r: Delivery)
        ensures
            !final(self).is_open(),
            old(self).is_open() ==> (r == Delivery::Delivered || r == Delivery::ReceiverGone),
            !old(self).is_open() ==> r == Delivery::AlreadyResolved,
    {
        match self.sender.take() {
            Some(tx) => {
                let sent = tx.send(secret);
                delivery_of_send(&sent)
            },
            None => Delivery::AlreadyResolved,
        }
    }
}


/// A lowercase hexadecimal digit.
pub open spec fn is_lower_hex_digit(c: char) -> bool {
    ('0' <= c && c <= '9') || ('a' <= c && c <= 'f')
}

/// The hyphenated text form of a UUID: 36 characters, hyphens at offsets
/// 8, 13, 18 and 23, lowercase hexadecimal digits elsewhere.
pub open spec fn is_hyphenated_uuid(s: Seq<char>) -> bool {
    &&& s.len() == 36
    &&& forall|i: int|
        0 <= i < 36 ==> if i == 8 || i == 13 || i == 18 || i == 23 {
            s[i] == '-'
        } else {
            is_lower_hex_digit(#[trigger] s[i])
        }
}

/// Relies on `uuid::Uuid::new_v4` and the `Display` impl of `Uuid`, which
/// writes the hyphenated lowercase form.
#[verifier::external_body]
fn new_request_id() -> (r: String)
    ensures
        is_hyphenated_uuid(r@),
{
    uuid::Uuid::new_v4().to_string()
}

/// Identifiers are pairwise distinct.
pub open spec fn ids_unique(v: Seq<(Seq<char>, bool)>) -> bool {
    forall|i: int, j: int| 0 <= i < v.len() && 0 <= j < v.len() && i != j ==> v[i].0 != v[j].0
}

/// Whether request `id` is outstanding.
pub open spec fn has_request(v: Seq<(Seq<char>, bool)>, id: Seq<char>) -> bool {
    exists|i: int| 0 <= i < v.len() && v[i].0 == id
}

/// Whether some outstanding request listens on `event`.
pub open spec fn listens_on(v: Seq<(Seq<char>, bool)>, event: Seq<char>) -> bool {
    exists|i: int| 0 <= i < v.len() && response_event_spec(v[i].0) == event
}

/// The requests after a response arrived on `event`: the slot of the
/// request that listens on it is resolved, every other one is left as it was.
pub open spec fn after_delivery(v: Seq<(Seq<char>, bool)>, event: Seq<char>) -> Seq<(Seq<char>, bool)> {
    v.map_values(|e: (Seq<char>, bool)| if response_event_spec(e.0) == event { (e.0, false) } else { e })
}

/// One outstanding secret prompt: its identifier and its slot.
pub struct PendingRequest {
    request_id: String,
    slot: CorrelationSlot,
}

/// The outstanding secret prompts, each with its own single-use slot.
///
/// Its view lists, in order of registration, each request identifier with
/// whether its slot is still open.
pub struct CorrelationStore {
    requests: Vec<PendingRequest>,
}

impl View for CorrelationStore {
    type V = Seq<(Seq<char>, bool)>;

    closed spec fn view(&self) -> Seq<(Seq<char>, bool)> {
        self.requests@.map_values(|p: PendingRequest| (p.request_id@, p.slot.is_open()))
    }
}

impl CorrelationStore {
    /// No identifier is registered twice.
    pub open spec fn wf(&self) -> bool {
        ids_unique(self@)
    }

    /// A store with no outstanding request.
    pub fn new() -> (r: Self)
        ensures
            r.wf(),
            r@ == Seq::<(Seq<char>, bool)>::empty(),
    {
        let r = CorrelationStore { requests: Vec::new() };
        assert(r@ =~= Seq::<(Seq<char>, bool)>::empty());
        r
    }

    /// Number of outstanding requests.
    pub fn len(&self) -> (r: usize)
        ensures
            r == self@.len(),
    {
        self.requests.len()
    }

    /// Position of request `id`, if it is outstanding.
    fn position_of(&self, request_id: &str) -> (r: Option<usize>)
        requires
            self.wf(),
        ensures
            match r {
                Some(i) => i < self@.len() && self@[i as int].0 == request_id@,
                None => !has_request(self@, request_id@),
            },
    {
        let wanted = String::from_str(request_id);
        let mut i: usize = 0;
        while i < self.requests.len()
            invariant
                i <= self.requests@.len(),
                wanted@ == request_id@,
                forall|j: int| 0 <= j < i ==> self@[j].0 != request_id@,
            decreases self.requests@.len() - i,
        {
            if self.requests[i].request_id == wanted {
                return Some(i);
            }
            i = i + 1;
        }
        None
    }

    /// Whether the slot of request `id` is still open; `None` when no such
    /// request is outstanding.
    pub fn request_state(&self, request_id: &str) -> (r: Option<bool>)
        requires
            self.wf(),
        ensures
            match r {
                Some(open) => exists|i: int|
                    0 <= i < self@.len() && self@[i].0 == request_id@ && self@[i].1 == open,
                None => !has_request(self@, request_id@),
            },
    {
        match self.position_of(request_id) {
            Some(i) => Some(self.requests[i].slot.is_pending()),
            None => None,
        }
    }

    /// Routes a response that arrived on `event` to the request listening on
    /// it. Only that request's slot can change, and a slot takes one value:
    /// any later response for it is a no-op.
    pub fn deliver(&mut self, event: &str, secret: String) -> (r: Delivery)
        requires
            old(self).wf(),
        ensures
            final(self).wf(),
            final(self)@ == after_delivery(old(self)@, event@),
            !listens_on(old(self)@, event@) <==> r == Delivery::NoSuchRequest,
            forall|i: int|
                0 <= i < old(self)@.len() && response_event_spec(old(self)@[i].0) == event@ ==> {
                    &&& !old(self)@[i].1 ==> r == Delivery::AlreadyResolved
                    &&& old(self)@[i].1 ==> (r == Delivery::Delivered || r == Delivery::ReceiverGone)
                },
    {
        let wanted = String::from_str(event);
        let mut i: usize = 0;
        while i < self.requests.len()
            invariant
                i <= self.requests@.len(),
                wanted@ == event@,
                self@ == old(self)@,
                self.wf(),
                forall|j: int| 0 <= j < i ==> response_event_spec(self@[j].0) != event@,
            decreases self.requests@.len() - i,
        {
            let name = response_event_name(self.requests[i].request_id.as_str());
            if name == wanted {
                let ghost before = self@;
                assert(before[i as int].0 == self.requests@[i as int].request_id@);
                assert(response_event_spec(before[i as int].0) == event@);
                let mut entry = self.requests.remove(i);
                let r = entry.slot.deliver(secret);
                self.requests.insert(i, entry);
                assert forall|j: int| 0 <= j < before.len() && j != i implies
                    response_event_spec(before[j].0) != event@ by {
                    lemma_response_event_injective(before[j].0, before[i as int].0);
                }
                assert(self@ =~= after_delivery(before, event@));
                assert(ids_unique(self@));
                return r;
            }
            i = i + 1;
        }
        assert(self@ =~= after_delivery(old(self)@, event@));
        Delivery::NoSuchRequest
    }

    /// Removes request `id`, so that no response for it is accepted any
    /// more. Returns whether it was outstanding.
    pub fn close(&mut self, request_id: &str) -> (r: bool)
        requires
            old(self).wf(),
        ensures
            final(self).wf(),
            r == has_request(old(self)@, request_id@),
            !has_request(final(self)@, request_id@),
            r ==> exists|i: int|
                0 <= i < old(self)@.len() && old(self)@[i].0 == request_id@
                    && final(self)@ == old(self)@.remove(i),
            !r ==> final(self)@ == old(self)@,
    {
        match self.position_of(request_id) {
            Some(i) => {
                let ghost before = self@;
                let _removed = self.requests.remove(i);
                assert(self@ =~= before.remove(i as int));
                assert(!has_request(self@, request_id@)) by {
                    if has_request(self@, request_id@) {
                        let k = choose|k: int| 0 <= k < self@.len() && self@[k].0 == request_id@;
                        if k < i {
                            assert(before[k] == self@[k]);
                        } else {
                            assert(before[k + 1] == self@[k]);
                        }
                    }
                }
                true
            },
            None => false,
        }
    }

    /// Registers request `id` with a slot that forwards to the receiver of
    /// `sender`, unless `id` is already outstanding; returns whether it did.
    pub fn register(&mut self, request_id: String, sender: Sender<String>) -> (r: bool)
        requires
            old(self).wf(),
        ensures
            final(self).wf(),
            r == !has_request(old(self)@, request_id@),
            r ==> final(self)@ == old(self)@.push((request_id@, true)),
            !r ==> final(self)@ == old(self)@,
    {
        match self.position_of(request_id.as_str()) {
            Some(_) => false,
            None => {
                let ghost id = request_id@;
                let slot = CorrelationSlot::new(sender);
                self.requests.push(PendingRequest { request_id, slot });
                assert(self@ =~= old(self)@.push((id, true)));
                true
            },
        }
    }

    /// Registers a fresh request whose answer goes to the receiver of
    /// `sender`, and returns its identifier. On an empty store this always
    /// succeeds; otherwise, in the unlikely case that the generated
    /// identifier is already outstanding, nothing is registered.
    pub fn open_request(&mut self, sender: Sender<String>) -> (r: Option<String>)
        requires
            old(self).wf(),
        ensures
            final(self).wf(),
            old(self)@.len() == 0 ==> r is Some,
            match r {
                Some(id) => {
                    &&& is_hyphenated_uuid(id@)
                    &&& !has_request(old(self)@, id@)
                    &&& final(self)@ == old(self)@.push((id@, true))
                },
                None => final(self)@ == old(self)@,
            },
    {
        let id = new_request_id();
        let returned = id.clone();
        if self.register(id, sender) {
            Some(returned)
        } else {
            None
        }
    }
}

/// What `serde_json` reads from a payload when asked for a JSON string:
/// the string's contents, or nothing when the text is not a JSON string.
pub uninterp spec fn json_string_of(payload: Seq<char>) -> Option<Seq<char>>;

/// Relies on `serde_json::from_str::<String>`: its outcome depends on the text
/// alone, and an empty text holds no JSON value at all.
#[verifier::external_body]
fn parse_json_string(payload: &str) -> (r: Option<String>)
    ensures
        match r {
            Some(s) => json_string_of(payload@) == Some(s@),
            None => json_string_of(payload@) is None,
        },
        payload@.len() == 0 ==> r is None,
{
    serde_json::from_str::<String>(payload).ok()
}

/// The secret carried by a response payload; a payload that is not a JSON
/// string carries the empty secret.
pub open spec fn secret_of_payload(payload: Seq<char>) -> Seq<char> {
    match json_string_of(payload) {
        Some(s) => s,
        None => Seq::empty(),
    }
}

/// The secret once the payload has been read: what was read, or the empty
/// string when reading failed.
pub fn secret_or_empty(parsed: Option<String>) -> (r: String)
    ensures
        r@ == match parsed {
            Some(s) => s@,
            None => Seq::<char>::empty(),
        },
{
    match parsed {
        Some(s) => s,
        None => String::new(),
    }
}

/// Reads the secret out of a response payload. A malformed payload yields
/// the empty secret rather than an error.
pub fn decode_secret_payload(payload: &str) -> (r: String)
    ensures
        r@ == secret_of_payload(payload@),
{
    secret_or_empty(parse_json_string(payload))
}

/// A response to one request never touches the slot of another: only the
/// request whose identifier derives the event name can be resolved by it.
pub proof fn lemma_response_reaches_only_its_request(v: Seq<(Seq<char>, bool)>, id: Seq<char>)
    ensures
        after_delivery(v, response_event_spec(id)).len() == v.len(),
        forall|i: int|
            0 <= i < v.len() && v[i].0 != id ==> #[trigger] after_delivery(v, response_event_spec(id))[i]
                == v[i],
{
    assert forall|i: int| 0 <= i < v.len() && v[i].0 != id implies #[trigger] after_delivery(
        v,
        response_event_spec(id),
    )[i] == v[i] by {
        lemma_response_event_injective(v[i].0, id);
    }
}

/// A slot resolves at most once: a second response on the same event
/// changes nothing.
pub proof fn lemma_second_delivery_is_noop(v: Seq<(Seq<char>, bool)>, event: Seq<char>)
    ensures
        after_delivery(after_delivery(v, event), event) == after_delivery(v, event),
        forall|i: int|
            0 <= i < v.len() && response_event_spec(v[i].0) == event ==> !(#[trigger] after_delivery(
                v,
                event,
            )[i]).1,
{
    assert(after_delivery(after_delivery(v, event), event) =~= after_delivery(v, event));
}

/// Once a request is closed, a response on its event reaches no slot and
/// changes nothing.
pub proof fn lemma_closed_request_ignores_responses(v: Seq<(Seq<char>, bool)>, id: Seq<char>)
    requires
        !has_request(v, id),
    ensures
        !listens_on(v, response_event_spec(id)),
        after_delivery(v, response_event_spec(id)) == v,
{
    assert forall|i: int| 0 <= i < v.len() implies response_event_spec(v[i].0)
        != response_event_spec(id) by {
        lemma_response_event_injective(v[i].0, id);
    }
    assert(after_delivery(v, response_event_spec(id)) =~= v);
}

/// A payload that is not a JSON string resolves to the empty secret.
pub proof fn lemma_malformed_payload_gives_empty_secret(payload: Seq<char>)
    requires
        json_string_of(payload) is None,
    ensures
        secret_of_payload(payload) == Seq::<char>::empty(),
{
}

} // verus!
