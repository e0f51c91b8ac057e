//! Bookkeeping of a streamable HTTP session: event ids, the replay cache of each
//! outbound stream, and the routing of server messages to the HTTP request that
//! is waiting for them.
use vstd::prelude::*;

use std::collections::{HashMap, VecDeque};

use crate::assoc::{AssocList, KeyEq};
use crate::model::{NumberOrString, NumberOrStringView, ProgressToken, RequestId};
use crate::text::{
    chars_of, decimal, decimal_chars, extend_chars, is_digit, lemma_decimal_digits,
    lemma_parse_decimal, parse_unsigned, parse_unsigned_chars, parse_unsigned_range,
    string_from_chars, IntErrorKind,
};

verus! {

broadcast use vstd::std_specs::hash::group_hash_axioms;

/// Identifier of one HTTP request of a session.
pub type HttpRequestId = u64;

/// `<index>/<http request id>`, or `<index>` on the common stream.
#[derive(Debug, Clone, Copy, PartialEq, Eq, Hash, Structural)]
pub struct EventId {
    pub http_request_id: Option<HttpRequestId>,
    pub index: usize,
}

/// Why the text of an event id was rejected.
#[derive(Debug, Clone, Copy, PartialEq, Eq, Structural)]
pub enum EventIdParseError {
    InvalidIndex(IntErrorKind),
    InvalidNumericRequestId(IntErrorKind),
    InvalidRequestIdType,
    MissingRequestId,
}

/// The text of an event id error.
pub open spec fn event_id_error_text(e: EventIdParseError) -> Seq<char> {
    match e {
        EventIdParseError::InvalidIndex(k) => "Invalid index: "@ + crate::text::int_error_text(k),
        EventIdParseError::InvalidNumericRequestId(k) => "Invalid numeric request id: "@
            + crate::text::int_error_text(k),
        EventIdParseError::InvalidRequestIdType => "Missing request id type"@,
        EventIdParseError::MissingRequestId => "Missing request id"@,
    }
}

impl EventIdParseError {
    /// The text of the error (what `Display` writes).
    pub fn to_string(&self) -> (r: String)
        ensures
            r@ == event_id_error_text(*self),
    {
        match self {
            EventIdParseError::InvalidIndex(k) => crate::text::concat("Invalid index: ", k.to_string().as_str()),
            EventIdParseError::InvalidNumericRequestId(k) => crate::text::concat(
                "Invalid numeric request id: ",
                k.to_string().as_str(),
            ),
            EventIdParseError::InvalidRequestIdType => "Missing request id type".to_owned(),
            EventIdParseError::MissingRequestId => "Missing request id".to_owned(),
        }
    }
}

/// The text of an event id: its index, then `/` and the request id when there is one.
pub open spec fn event_id_text(e: EventId) -> Seq<char> {
    decimal(e.index as nat) + match e.http_request_id {
        Some(r) => seq!['/'] + decimal(r as nat),
        None => Seq::<char>::empty(),
    }
}

/// `i` is the position of the first `/` in `s`.
pub open spec fn first_slash_at(s: Seq<char>, i: int) -> bool {
    &&& 0 <= i < s.len()
    &&& s[i] == '/'
    &&& forall|j: int| 0 <= j < i ==> s[j] != '/'
}

/// What parsing the text `s` of an event id gives.
pub open spec fn parse_event_id(s: Seq<char>) -> Result<EventId, EventIdParseError> {
    if exists|i: int| first_slash_at(s, i) {
        let i = choose|i: int| first_slash_at(s, i);
        match parse_unsigned(s.take(i), usize::MAX as nat) {
            Err(e) => Err(EventIdParseError::InvalidIndex(e)),
            Ok(index) => match parse_unsigned(s.skip(i + 1), u64::MAX as nat) {
                Err(e) => Err(EventIdParseError::InvalidNumericRequestId(e)),
                Ok(r) => Ok(EventId { http_request_id: Some(r as u64), index: index as usize }),
            },
        }
    } else {
        match parse_unsigned(s, usize::MAX as nat) {
            Err(e) => Err(EventIdParseError::InvalidIndex(e)),
            Ok(index) => Ok(EventId { http_request_id: None, index: index as usize }),
        }
    }
}

impl EventId {
    /// The request id part, if the event belongs to a request-wise stream.
    pub fn http_request_id(&self) -> (r: Option<HttpRequestId>)
        ensures
            r == self.http_request_id,
    {
        self.http_request_id
    }

    /// The position of the event in its stream.
    pub fn index(&self) -> (r: usize)
        ensures
            r == self.index,
    {
        self.index
    }

    /// The text of the event id, as `Display` would write it.
    pub fn to_string(&self) -> (r: String)
        ensures
            r@ == event_id_text(*self),
    {
        let mut v = decimal_chars(self.index as u64);
        match self.http_request_id {
            Some(r) => {
                v.push('/');
                let tail = decimal_chars(r);
                extend_chars(&mut v, tail.as_slice());
            },
            None => {},
        }
        let r = string_from_chars(v.as_slice());
        assert(r@ =~= event_id_text(*self));
        r
    }

    /// Parses the text of an event id.
    pub fn from_str(s: &str) -> (r: Result<EventId, EventIdParseError>)
        ensures
            r == parse_event_id(s@),
    {
        let chars = chars_of(s);
        let n = chars.len();
        let mut i: usize = 0;
        while i < n
            invariant
                n == chars@.len(),
                chars@ == s@,
                i <= n,
                forall|j: int| 0 <= j < i ==> chars@[j] != '/',
            decreases n - i,
        {
            if chars[i] == '/' {
                assert(first_slash_at(s@, i as int));
                proof {
                    lemma_first_slash_unique(s@, i as int);
                }
                assert(s@.take(i as int) =~= chars@.subrange(0, i as int));
                assert(s@.skip(i + 1) =~= chars@.subrange(i + 1, n as int));
                let index = match parse_unsigned_range(chars.as_slice(), 0, i, usize::MAX as u64) {
                    Ok(v) => v,
                    Err(e) => return Err(EventIdParseError::InvalidIndex(e)),
                };
                let request_id = match parse_unsigned_range(chars.as_slice(), i + 1, n, u64::MAX) {
                    Ok(v) => v,
                    Err(e) => return Err(EventIdParseError::InvalidNumericRequestId(e)),
                };
                return Ok(EventId { http_request_id: Some(request_id), index: index as usize });
            }
            i = i + 1;
        }
        assert(!exists|j: int| first_slash_at(s@, j));
        match parse_unsigned_chars(chars.as_slice(), usize::MAX as u64) {
            Ok(index) => Ok(EventId { http_request_id: None, index: index as usize }),
            Err(e) => Err(EventIdParseError::InvalidIndex(e)),
        }
    }
}

proof fn lemma_first_slash_unique(s: Seq<char>, i: int)
    requires
        first_slash_at(s, i),
    ensures
        (choose|j: int| first_slash_at(s, j)) == i,
{
    let j = choose|j: int| first_slash_at(s, j);
    assert(first_slash_at(s, j));
    if j < i {
        assert(s[j] != '/');
    } else if j > i {
        assert(s[i] != '/');
    }
}

/// Reading back the text of an event id gives the same event id.
pub proof fn lemma_event_id_round_trip(e: EventId)
    ensures
        parse_event_id(event_id_text(e)) == Ok::<EventId, EventIdParseError>(e),
{
    let d = decimal(e.index as nat);
    lemma_decimal_digits(e.index as nat);
    lemma_parse_decimal(e.index as nat, usize::MAX as nat);
    let t = event_id_text(e);
    match e.http_request_id {
        Some(r) => {
            let n = d.len() as int;
            lemma_decimal_digits(r as nat);
            lemma_parse_decimal(r as nat, u64::MAX as nat);
            assert(t[n] == '/');
            assert forall|j: int| 0 <= j < n implies t[j] != '/' by {
                assert(t[j] == d[j]);
                assert(is_digit(d[j]));
            }
            assert(first_slash_at(t, n));
            lemma_first_slash_unique(t, n);
            assert(t.take(n) =~= d);
            assert(t.skip(n + 1) =~= decimal(r as nat));
        },
        None => {
            assert(t =~= d);
            assert forall|j: int| !first_slash_at(t, j) by {
                if 0 <= j < t.len() {
                    assert(is_digit(d[j]));
                }
            }
        },
    }
}

/// A message as it goes out on a stream, with the id of its event.
pub struct SessionMessage<M> {
    pub event_id: EventId,
    pub message: M,
}

/// Errors of a session.
#[derive(Debug, Clone, PartialEq, Eq)]
pub enum SessionError {
    DuplicatedRequestId(HttpRequestId),
    ChannelClosed(Option<HttpRequestId>),
    EventIdParseError(String),
    SessionServiceTerminated,
    InvalidEventId,
    TransportClosed,
}

/// The event index that the next message of a stream whose cache is `cache` gets.
pub open spec fn next_index<M>(cache: Seq<SessionMessage<M>>) -> int {
    if cache.len() == 0 {
        0
    } else {
        cache.last().event_id.index + 1
    }
}

/// The cache after a message is sent: the oldest entry leaves when the cache is full.
pub open spec fn cache_after_send<M>(
    cache: Seq<SessionMessage<M>>,
    capacity: usize,
    http_request_id: Option<HttpRequestId>,
    message: M,
) -> Seq<SessionMessage<M>> {
    let kept = if cache.len() >= capacity {
        cache.drop_first()
    } else {
        cache
    };
    kept.push(
        SessionMessage {
            event_id: EventId { http_request_id, index: next_index(cache) as usize },
            message,
        },
    )
}

/// Where a resumed stream starts again: the position in the cache of the first message
/// whose index is at least `index`, or an error when `index` lies beyond the stream.
pub open spec fn sync_start<M>(cache: Seq<SessionMessage<M>>, index: usize) -> Result<int, SessionError> {
    if cache.len() == 0 {
        Ok(0)
    } else {
        let front = cache[0].event_id.index;
        let k = if index >= front {
            index - front
        } else {
            0
        };
        if k > cache.len() {
            Err(SessionError::InvalidEventId)
        } else {
            Ok(k)
        }
    }
}

/// The cache holds consecutive event indices of one stream.
pub open spec fn cache_wf<M>(
    cache: Seq<SessionMessage<M>>,
    capacity: usize,
    http_request_id: Option<HttpRequestId>,
) -> bool {
    &&& capacity >= 1
    &&& cache.len() <= capacity
    &&& forall|j: int|
        0 <= j < cache.len() ==> (#[trigger] cache[j]).event_id.index == cache[0].event_id.index + j
            && cache[j].event_id.http_request_id == http_request_id
}

/// The outbound side of one stream: the messages kept for a replay.
pub struct CachedTx<M> {
    cache: VecDeque<SessionMessage<M>>,
    http_request_id: Option<HttpRequestId>,
    capacity: usize,
}

impl<M> CachedTx<M> {
    pub closed spec fn cached(&self) -> Seq<SessionMessage<M>> {
        self.cache@
    }

    pub closed spec fn spec_http_request_id(&self) -> Option<HttpRequestId> {
        self.http_request_id
    }

    pub closed spec fn spec_capacity(&self) -> usize {
        self.capacity
    }

    pub open spec fn wf(&self) -> bool {
        cache_wf(self.cached(), self.spec_capacity(), self.spec_http_request_id())
    }

    /// The next event index of this stream fits a `usize`.
    pub open spec fn can_send(&self) -> bool {
        next_index(self.cached()) < usize::MAX
    }

    /// An empty stream that keeps at most `capacity` messages.
    pub fn new(capacity: usize, http_request_id: Option<HttpRequestId>) -> (r: Self)
        requires
            capacity >= 1,
        ensures
            r.wf(),
            r.cached() == Seq::<SessionMessage<M>>::empty(),
            r.spec_capacity() == capacity,
            r.spec_http_request_id() == http_request_id,
    {
        CachedTx { cache: VecDeque::new(), http_request_id, capacity }
    }

    /// The messages kept for a replay, oldest first.
    pub fn cache(&self) -> (r: &VecDeque<SessionMessage<M>>)
        ensures
            r@ == self.cached(),
    {
        &self.cache
    }

    pub fn can_send_exec(&self) -> (r: bool)
        ensures
            r == self.can_send(),
    {
        let n = self.cache.len();
        n == 0 || self.cache[n - 1].event_id.index < usize::MAX - 1
    }

    /// Records a message sent on this stream and gives back the id of its event.
    pub fn send(&mut self, message: M) -> (r: EventId)
        requires
            old(self).wf(),
            old(self).can_send(),
        ensures
            final(self).wf(),
            r == (EventId { http_request_id: old(self).spec_http_request_id(), index: next_index(old(self).cached()) as usize }),
            final(self).cached() == cache_after_send(
                old(self).cached(),
                old(self).spec_capacity(),
                old(self).spec_http_request_id(),
                message,
            ),
            final(self).spec_capacity() == old(self).spec_capacity(),
            final(self).spec_http_request_id() == old(self).spec_http_request_id(),
    {
        let ghost old_cache = self.cache@;
        let n = self.cache.len();
        let index = if n == 0 {
            0
        } else {
            self.cache[n - 1].event_id.index + 1
        };
        let event_id = EventId { http_request_id: self.http_request_id, index };
        if n >= self.capacity {
            self.cache.pop_front();
        }
        self.cache.push_back(SessionMessage { event_id, message });
        proof {
            let c = self.cache@;
            assert(c =~= cache_after_send(old_cache, self.capacity, self.http_request_id, message));
            assert forall|j: int| 0 <= j < c.len() implies (#[trigger] c[j]).event_id.index
                == c[0].event_id.index + j && c[j].event_id.http_request_id == self.http_request_id by {
                if n >= self.capacity {
                    if j + 1 < n {
                        assert(c[j] == old_cache[j + 1]);
                        assert(c[0] == old_cache[1]);
                    } else {
                        assert(c[0] == old_cache[1] || n == 1);
                    }
                }
            }
        }
        event_id
    }

    /// Where a replay of this stream from event `index` starts in the cache.
    pub fn sync(&self, index: usize) -> (r: Result<usize, SessionError>)
        requires
            self.wf(),
        ensures
            r matches Ok(k) ==> sync_start(self.cached(), index) == Ok::<int, SessionError>(k as int),
            r matches Err(e) ==> sync_start(self.cached(), index) == Err::<int, SessionError>(e),
    {
        if self.cache.len() == 0 {
            return Ok(0);
        }
        let front = self.cache[0].event_id.index;
        let k = index.saturating_sub(front);
        if k > self.cache.len() {
            Err(SessionError::InvalidEventId)
        } else {
            Ok(k)
        }
    }
}

/// A replay from event `index` gives back exactly the cached messages whose index is at
/// least `index`, and fails only when `index` lies past the next event of the stream.
pub proof fn lemma_sync_replays_from_index<M>(
    cache: Seq<SessionMessage<M>>,
    capacity: usize,
    http_request_id: Option<HttpRequestId>,
    index: usize,
)
    requires
        cache_wf(cache, capacity, http_request_id),
    ensures
        sync_start(cache, index) is Err <==> (cache.len() > 0 && index > next_index(cache)),
        sync_start(cache, index) matches Ok(k) ==> forall|j: int|
            0 <= j < cache.len() ==> (j >= k <==> (#[trigger] cache[j]).event_id.index >= index),
{
    if cache.len() > 0 {
        assert(cache.last() == cache[cache.len() - 1]);
    }
}

/// Sending keeps the cache within its capacity and its indices consecutive, and the new
/// message comes last with the next index.
pub proof fn lemma_send_appends<M>(
    cache: Seq<SessionMessage<M>>,
    capacity: usize,
    http_request_id: Option<HttpRequestId>,
    message: M,
)
    requires
        cache_wf(cache, capacity, http_request_id),
        next_index(cache) < usize::MAX,
    ensures
        cache_wf(cache_after_send(cache, capacity, http_request_id, message), capacity, http_request_id),
        cache_after_send(cache, capacity, http_request_id, message).last().message == message,
        cache_after_send(cache, capacity, http_request_id, message).last().event_id.index == next_index(cache),
        next_index(cache_after_send(cache, capacity, http_request_id, message)) == next_index(cache) + 1,
{
    let c = cache_after_send(cache, capacity, http_request_id, message);
    let n = cache.len() as int;
    assert forall|j: int| 0 <= j < c.len() implies (#[trigger] c[j]).event_id.index == c[0].event_id.index
        + j && c[j].event_id.http_request_id == http_request_id by {
        if n >= capacity {
            if j + 1 < n {
                assert(c[j] == cache[j + 1]);
                assert(c[0] == cache[1]);
            } else if n > 1 {
                assert(c[0] == cache[1]);
                assert(cache.last() == cache[n - 1]);
            }
        } else if j < n {
            assert(c[j] == cache[j]);
        } else if n > 0 {
            assert(cache.last() == cache[n - 1]);
        }
    }
}

/// What a request of a session is tracked by.
#[derive(Debug, PartialEq, Eq, Hash)]
pub enum ResourceKey {
    McpRequestId(RequestId),
    ProgressToken(ProgressToken),
}

impl Clone for ResourceKey {
    fn clone(&self) -> (r: Self)
        ensures
            r == *self,
    {
        match self {
            ResourceKey::McpRequestId(id) => ResourceKey::McpRequestId(id.clone()),
            ResourceKey::ProgressToken(t) => ResourceKey::ProgressToken(t.clone()),
        }
    }
}

pub enum ResourceKeyView {
    McpRequestId(NumberOrStringView),
    ProgressToken(NumberOrStringView),
}

impl View for ResourceKey {
    type V = ResourceKeyView;

    open spec fn view(&self) -> ResourceKeyView {
        match self {
            ResourceKey::McpRequestId(id) => ResourceKeyView::McpRequestId(id@),
            ResourceKey::ProgressToken(t) => ResourceKeyView::ProgressToken(t@),
        }
    }
}

impl KeyEq for ResourceKey {
    fn key_eq(&self, other: &Self) -> (r: bool) {
        match (self, other) {
            (ResourceKey::McpRequestId(a), ResourceKey::McpRequestId(b)) => a.key_eq(b),
            (ResourceKey::ProgressToken(a), ResourceKey::ProgressToken(b)) => a.key_eq(b),
            _ => false,
        }
    }
}

/// Which stream a server message goes out on.
#[derive(Debug, Clone, Copy, PartialEq, Eq, Structural)]
pub enum OutboundChannel {
    RequestWise { id: HttpRequestId, close: bool },
    Common,
}

/// What the routing of a server message depends on.
#[derive(Debug, Clone, PartialEq, Eq)]
pub enum ServerMessageKind {
    Request,
    ProgressNotification(ProgressToken),
    CancelledNotification(RequestId),
    Notification,
    Response(RequestId),
    Error(RequestId),
    BatchRequest,
    BatchResponse(Vec<RequestId>),
}

/// One item of a batch sent by the client.
#[derive(Debug, Clone, PartialEq, Eq)]
pub enum ClientBatchItem {
    Request { id: RequestId, progress_token: Option<ProgressToken> },
    CancelledNotification(RequestId),
    Notification,
}

/// What the bookkeeping of a client message depends on.
#[derive(Debug, Clone, PartialEq, Eq)]
pub enum ClientMessageKind {
    Request { id: RequestId, progress_token: Option<ProgressToken> },
    CancelledNotification(RequestId),
    Notification,
    BatchRequest(Vec<ClientBatchItem>),
    Other,
}

/// Settings of a session.
#[derive(Debug, Clone, Copy, PartialEq, Eq)]
pub struct SessionConfig {
    channel_capacity: usize,
}

impl SessionConfig {
    pub const DEFAULT_CHANNEL_CAPACITY: usize = 16;

    pub closed spec fn capacity(&self) -> usize {
        self.channel_capacity
    }

    /// The default configuration: streams of the default capacity.
    pub fn default() -> (r: Self)
        ensures
            r.capacity() == Self::DEFAULT_CHANNEL_CAPACITY,
    {
        SessionConfig { channel_capacity: Self::DEFAULT_CHANNEL_CAPACITY }
    }

    /// How many messages each stream of the session holds.
    pub fn channel_capacity(&self) -> (r: usize)
        ensures
            r == self.capacity(),
    {
        self.channel_capacity
    }
}

/// Why a session ended.
#[derive(Debug, Clone, Copy, PartialEq, Eq)]
pub enum SessionQuitReason {
    ServiceTerminated,
    ClientTerminated,
    ExpectInitializeRequest,
    ExpectInitializeResponse,
    Cancelled,
}

/// The next event index of every stream fits a `usize`.
pub open spec fn view_can_send<M>(v: SessionView<M>) -> bool {
    &&& next_index(v.common) < usize::MAX
    &&& forall|id: HttpRequestId| #[trigger] v.channels.contains_key(id) ==> next_index(v.channels[id].cache)
        < usize::MAX
}

proof fn lemma_unregister_can_send<M>(v: SessionView<M>, k: ResourceKeyView)
    requires
        view_can_send(v),
    ensures
        view_can_send(v.unregister_resource(k)),
{
    let w = v.unregister_resource(k);
    assert forall|id: HttpRequestId| #[trigger] w.channels.contains_key(id) implies next_index(w.channels[id].cache)
        < usize::MAX by {
        assert(v.channels.contains_key(id));
    }
}

/// The stream of one HTTP request: the resources routed to it and its replay cache.
pub struct HttpRequestWise<M> {
    pub resources: AssocList<ResourceKey, ()>,
    pub tx: CachedTx<M>,
}

/// The abstract state of one request-wise stream.
pub struct ChannelView<M> {
    pub resources: Set<ResourceKeyView>,
    pub cache: Seq<SessionMessage<M>>,
}

/// The abstract state of a session.
pub struct SessionView<M> {
    pub next_http_request_id: u64,
    pub channels: Map<HttpRequestId, ChannelView<M>>,
    pub routes: Map<ResourceKeyView, HttpRequestId>,
    pub common: Seq<SessionMessage<M>>,
    pub capacity: usize,
}

impl<M> SessionView<M> {
    /// Route `k` to the stream `id`, if that stream is open.
    pub open spec fn register_resource(self, k: ResourceKeyView, id: HttpRequestId) -> Self {
        if self.channels.contains_key(id) {
            SessionView {
                next_http_request_id: self.next_http_request_id,
                channels: self.channels.insert(
                    id,
                    ChannelView { resources: self.channels[id].resources.insert(k), cache: self.channels[id].cache },
                ),
                routes: self.routes.insert(k, id),
                common: self.common,
                capacity: self.capacity,
            }
        } else {
            self
        }
    }

    /// Forget the route of `k`; a stream left with no resource closes.
    pub open spec fn unregister_resource(self, k: ResourceKeyView) -> Self {
        if self.routes.contains_key(k) {
            let id = self.routes[k];
            let routes = self.routes.remove(k);
            if self.channels.contains_key(id) {
                let res = self.channels[id].resources.remove(k);
                let channels = if res == Set::<ResourceKeyView>::empty() {
                    self.channels.remove(id)
                } else {
                    self.channels.insert(id, ChannelView { resources: res, cache: self.channels[id].cache })
                };
                SessionView {
                    next_http_request_id: self.next_http_request_id,
                    channels,
                    routes,
                    common: self.common,
                    capacity: self.capacity,
                }
            } else {
                SessionView {
                    next_http_request_id: self.next_http_request_id,
                    channels: self.channels,
                    routes,
                    common: self.common,
                    capacity: self.capacity,
                }
            }
        } else {
            self
        }
    }

    /// Track a request (and its progress token) on the stream `id`.
    pub open spec fn register_request(
        self,
        id: NumberOrStringView,
        progress_token: Option<NumberOrStringView>,
        http_request_id: HttpRequestId,
    ) -> Self {
        let s = self.register_resource(ResourceKeyView::McpRequestId(id), http_request_id);
        match progress_token {
            Some(t) => s.register_resource(ResourceKeyView::ProgressToken(t), http_request_id),
            None => s,
        }
    }

    /// The stream a routed key goes to.
    pub open spec fn route(self, k: ResourceKeyView) -> OutboundChannel {
        if self.routes.contains_key(k) {
            OutboundChannel::RequestWise { id: self.routes[k], close: false }
        } else {
            OutboundChannel::Common
        }
    }
}

/// The abstract kind of a server message.
pub open spec fn server_kind_key(kind: ServerMessageKind) -> Option<ResourceKeyView> {
    match kind {
        ServerMessageKind::ProgressNotification(t) => Some(ResourceKeyView::ProgressToken(t@)),
        ServerMessageKind::CancelledNotification(id) => Some(ResourceKeyView::McpRequestId(id@)),
        ServerMessageKind::Response(id) => Some(ResourceKeyView::McpRequestId(id@)),
        ServerMessageKind::Error(id) => Some(ResourceKeyView::McpRequestId(id@)),
        _ => None,
    }
}

pub open spec fn is_batch(kind: ServerMessageKind) -> bool {
    kind is BatchRequest || kind is BatchResponse
}

/// The stream that a server message goes out on.
pub open spec fn resolve<M>(v: SessionView<M>, kind: ServerMessageKind) -> OutboundChannel {
    match server_kind_key(kind) {
        Some(k) => v.route(k),
        None => OutboundChannel::Common,
    }
}

/// The state of a streamable HTTP session.
pub struct SessionWorker<M> {
    id: String,
    next_http_request_id: HttpRequestId,
    tx_router: HashMap<HttpRequestId, HttpRequestWise<M>>,
    resource_router: AssocList<ResourceKey, HttpRequestId>,
    common: CachedTx<M>,
    session_config: SessionConfig,
}

/// The streams a value iterator yields are the streams of the map, each stream's
/// replay cache can take one more message in one exactly when it can in the other.
proof fn lemma_streams_cover<M>(m: Map<HttpRequestId, HttpRequestWise<M>>, s: Seq<HttpRequestWise<M>>)
    requires
        s.to_set() == m.values(),
    ensures
        forall|j: int| 0 <= j < s.len() ==> #[trigger] m.values().contains(s[j]),
        (forall|j: int| 0 <= j < s.len() ==> #[trigger] s[j].tx.can_send()) <==> (forall|id: HttpRequestId|
            #[trigger] m.contains_key(id) ==> m[id].tx.can_send()),
{
    assert forall|j: int| 0 <= j < s.len() implies #[trigger] m.values().contains(s[j]) by {
        assert(s.to_set().contains(s[j]));
    }
    if forall|j: int| 0 <= j < s.len() ==> #[trigger] s[j].tx.can_send() {
        assert forall|id: HttpRequestId| #[trigger] m.contains_key(id) implies m[id].tx.can_send() by {
            assert(m.values().contains(m[id]));
            assert(s.to_set().contains(m[id]));
            assert(s.contains(m[id]));
        }
    }
    if forall|id: HttpRequestId| #[trigger] m.contains_key(id) ==> m[id].tx.can_send() {
        assert forall|j: int| 0 <= j < s.len() implies #[trigger] s[j].tx.can_send() by {
            assert(m.values().contains(s[j]));
        }
    }
}

pub open spec fn channel_view<M>(c: HttpRequestWise<M>) -> ChannelView<M> {
    ChannelView { resources: c.resources.view().dom(), cache: c.tx.cached() }
}

impl<M> SessionWorker<M> {
    pub closed spec fn view(&self) -> SessionView<M> {
        SessionView {
            next_http_request_id: self.next_http_request_id,
            channels: self.tx_router@.map_values(|c: HttpRequestWise<M>| channel_view(c)),
            routes: self.resource_router.view(),
            common: self.common.cached(),
            capacity: self.session_config.channel_capacity,
        }
    }

    pub closed spec fn wf(&self) -> bool {
        &&& self.resource_router.wf()
        &&& self.common.wf()
        &&& self.common.spec_http_request_id() is None
        &&& self.common.spec_capacity() == self.session_config.channel_capacity
        &&& self.session_config.channel_capacity >= 1
        &&& forall|id: HttpRequestId| #[trigger] self.tx_router@.contains_key(id) ==> {
            let c = self.tx_router@[id];
            &&& c.resources.wf()
            &&& c.tx.wf()
            &&& c.tx.spec_http_request_id() == Some(id)
            &&& c.tx.spec_capacity() == self.session_config.channel_capacity
        }
    }

    pub closed spec fn spec_id(&self) -> Seq<char> {
        self.id@
    }

    /// The next event index of every stream fits a `usize`.
    pub open spec fn can_send(&self) -> bool {
        view_can_send(self.view())
    }
}

/// A lowercase hexadecimal digit.
pub open spec fn is_lower_hex_digit(c: char) -> bool {
    ('0' <= c && c <= '9') || ('a' <= c && c <= 'f')
}

/// The text of a random (version 4, RFC 9562 variant) UUID: 32 lowercase hex
/// digits in groups of 8, 4, 4, 4 and 12 joined by hyphens, the version digit
/// `4` first in the third group, and `8`, `9`, `a` or `b` first in the fourth.
pub open spec fn is_uuid_v4_text(s: Seq<char>) -> bool {
    &&& s.len() == 36
    &&& forall|i: int| 0 <= i < 36 ==> (if i == 8 || i == 13 || i == 18 || i == 23 {
        s[i] == '-'
    } else {
        is_lower_hex_digit(#[trigger] s[i])
    })
    &&& s[14] == '4'
    &&& (s[19] == '8' || s[19] == '9' || s[19] == 'a' || s[19] == 'b')
}

/// Calls `uuid::Uuid::new_v4` and writes the UUID with its `Display`, which
/// writes the lowercase hyphenated form; `new_v4` sets the version and variant
/// bits of a random 128-bit number. Which UUID comes out is left to chance; the
/// call panics only where the system gives it no random bytes.
#[verifier::external_body]
fn new_uuid_v4_text() -> (r: String)
    ensures
        is_uuid_v4_text(r@),
{
    uuid::Uuid::new_v4().to_string()
}

/// A fresh session id: the text of a random version-4 UUID.
pub fn session_id() -> (r: String)
    ensures
        is_uuid_v4_text(r@),
{
    new_uuid_v4_text()
}

/// Creates the state of a new session: no request stream, nothing routed, an empty common stream.
pub fn create_session<M>(id: String, config: SessionConfig) -> (r: SessionWorker<M>)
    requires
        config.capacity() >= 1,
    ensures
        r.wf(),
        r.spec_id() == id@,
        r.view() == (SessionView::<M> {
            next_http_request_id: 0,
            channels: Map::empty(),
            routes: Map::empty(),
            common: Seq::empty(),
            capacity: config.capacity(),
        }),
{
    let r = SessionWorker {
        id,
        next_http_request_id: 0,
        tx_router: HashMap::new(),
        resource_router: AssocList::new(),
        common: CachedTx::new(config.channel_capacity, None),
        session_config: config,
    };
    assert(r.view().channels =~= Map::empty());
    r
}

proof fn lemma_map_values_insert<K, V, W>(m: Map<K, V>, k: K, v: V, f: spec_fn(V) -> W)
    ensures
        m.insert(k, v).map_values(f) == m.map_values(f).insert(k, f(v)),
{
    assert(m.insert(k, v).map_values(f) =~= m.map_values(f).insert(k, f(v)));
}

proof fn lemma_map_values_remove<K, V, W>(m: Map<K, V>, k: K, f: spec_fn(V) -> W)
    ensures
        m.remove(k).map_values(f) == m.map_values(f).remove(k),
{
    assert(m.remove(k).map_values(f) =~= m.map_values(f).remove(k));
}

proof fn lemma_empty_dom<K, V>(m: Map<K, V>)
    ensures
        (m == Map::<K, V>::empty()) == (m.dom() == Set::<K>::empty()),
{
    if m.dom() == Set::<K>::empty() {
        assert(m =~= Map::<K, V>::empty());
    }
    if m == Map::<K, V>::empty() {
        assert(m.dom() =~= Set::<K>::empty());
    }
}

/// The abstract outcome of sending `message` on the stream that `kind` resolves to:
/// the stream it went to and the new state, or the error.
pub open spec fn deliver<M>(v: SessionView<M>, kind: ServerMessageKind, message: M) -> Result<
    (Option<HttpRequestId>, SessionView<M>),
    SessionError,
> {
    match resolve(v, kind) {
        OutboundChannel::RequestWise { id, close } => if v.channels.contains_key(id) {
            let c = v.channels[id];
            let channels = if close {
                v.channels.remove(id)
            } else {
                v.channels.insert(
                    id,
                    ChannelView {
                        resources: c.resources,
                        cache: cache_after_send(c.cache, v.capacity, Some(id), message),
                    },
                )
            };
            Ok(
                (
                    Some(id),
                    SessionView {
                        next_http_request_id: v.next_http_request_id,
                        channels,
                        routes: v.routes,
                        common: v.common,
                        capacity: v.capacity,
                    },
                ),
            )
        } else {
            Err(SessionError::ChannelClosed(Some(id)))
        },
        OutboundChannel::Common => Ok(
            (
                None,
                SessionView {
                    next_http_request_id: v.next_http_request_id,
                    channels: v.channels,
                    routes: v.routes,
                    common: cache_after_send(v.common, v.capacity, None, message),
                    capacity: v.capacity,
                },
            ),
        ),
    }
}

/// The event id that a message sent to stream `target` gets.
pub open spec fn delivered_event_id<M>(v: SessionView<M>, target: Option<HttpRequestId>) -> EventId {
    match target {
        Some(id) => EventId { http_request_id: Some(id), index: next_index(v.channels[id].cache) as usize },
        None => EventId { http_request_id: None, index: next_index(v.common) as usize },
    }
}

/// The abstract outcome of resuming from `last_event_id`: the stream and where the replay starts.
pub open spec fn resume_result<M>(v: SessionView<M>, last_event_id: EventId) -> Result<
    (Option<HttpRequestId>, int),
    SessionError,
> {
    match last_event_id.http_request_id {
        Some(id) => if v.channels.contains_key(id) {
            match sync_start(v.channels[id].cache, last_event_id.index) {
                Ok(k) => Ok((Some(id), k)),
                Err(e) => Err(e),
            }
        } else {
            Err(SessionError::ChannelClosed(Some(id)))
        },
        None => match sync_start(v.common, last_event_id.index) {
            Ok(k) => Ok((None, k)),
            Err(e) => Err(e),
        },
    }
}

/// The bookkeeping of one client batch item.
pub open spec fn apply_client_item<M>(
    v: SessionView<M>,
    item: ClientBatchItem,
    http_request_id: Option<HttpRequestId>,
) -> SessionView<M> {
    match item {
        ClientBatchItem::Request { id, progress_token } => match http_request_id {
            Some(h) => v.register_request(
                id@,
                match progress_token {
                    Some(t) => Some(t@),
                    None => None,
                },
                h,
            ),
            None => v,
        },
        ClientBatchItem::CancelledNotification(id) => v.unregister_resource(
            ResourceKeyView::McpRequestId(id@),
        ),
        ClientBatchItem::Notification => v,
    }
}

pub open spec fn apply_client_items<M>(
    v: SessionView<M>,
    items: Seq<ClientBatchItem>,
    http_request_id: Option<HttpRequestId>,
) -> SessionView<M>
    decreases items.len(),
{
    if items.len() == 0 {
        v
    } else {
        apply_client_item(apply_client_items(v, items.drop_last(), http_request_id), items.last(), http_request_id)
    }
}

/// The bookkeeping of a client message: requests are tracked on their stream,
/// cancellations forget the cancelled request.
pub open spec fn apply_client_message<M>(
    v: SessionView<M>,
    kind: ClientMessageKind,
    http_request_id: Option<HttpRequestId>,
) -> SessionView<M> {
    match kind {
        ClientMessageKind::Request { id, progress_token } => apply_client_item(
            v,
            ClientBatchItem::Request { id, progress_token },
            http_request_id,
        ),
        ClientMessageKind::CancelledNotification(id) => v.unregister_resource(
            ResourceKeyView::McpRequestId(id@),
        ),
        ClientMessageKind::BatchRequest(items) => apply_client_items(v, items@, http_request_id),
        _ => v,
    }
}

/// Once a response or error from the handler has gone out, the request it answers
/// is forgotten; its stream closes when nothing else is routed to it.
pub open spec fn after_handler_message<M>(v: SessionView<M>, kind: ServerMessageKind) -> SessionView<M> {
    match kind {
        ServerMessageKind::Response(id) => v.unregister_resource(ResourceKeyView::McpRequestId(id@)),
        ServerMessageKind::Error(id) => v.unregister_resource(ResourceKeyView::McpRequestId(id@)),
        _ => v,
    }
}

impl<M> SessionWorker<M> {
    pub fn id(&self) -> (r: &String)
        ensures
            r@ == self.spec_id(),
    {
        &self.id
    }

    /// Whether the request-wise stream `id` is open.
    pub fn has_channel(&self, id: HttpRequestId) -> (r: bool)
        requires
            self.wf(),
        ensures
            r == self.view().channels.contains_key(id),
    {
        self.tx_router.contains_key(&id)
    }

    /// The replay cache of the common stream.
    pub fn common_cache(&self) -> (r: &VecDeque<SessionMessage<M>>)
        ensures
            r@ == self.view().common,
    {
        self.common.cache()
    }

    /// The replay cache of the request-wise stream `id`.
    pub fn channel_cache(&self, id: HttpRequestId) -> (r: Option<&VecDeque<SessionMessage<M>>>)
        requires
            self.wf(),
        ensures
            r matches Some(c) ==> self.view().channels.contains_key(id) && c@ == self.view().channels[id].cache,
            r is None <==> !self.view().channels.contains_key(id),
    {
        match self.tx_router.get(&id) {
            Some(c) => Some(c.tx.cache()),
            None => None,
        }
    }

    /// How many messages each stream of the session keeps.
    pub fn config(&self) -> (r: SessionConfig)
        ensures
            r.capacity() == self.view().capacity,
    {
        self.session_config
    }

    /// Whether every stream can take one more message.
    pub fn can_send_exec(&self) -> (r: bool)
        requires
            self.wf(),
        ensures
            r == self.can_send(),
    {
        if !self.common.can_send_exec() {
            return false;
        }
        let ghost m = self.tx_router@;
        for c in it: self.tx_router.values()
            invariant
                self.wf(),
                m == self.tx_router@,
                it.seq().unref().to_set() == m.values(),
                forall|j: int| 0 <= j < it.index() ==> #[trigger] it.seq().unref()[j].tx.can_send(),
                it.index() == it.seq().len() ==> forall|id: HttpRequestId| #[trigger] m.contains_key(id)
                    ==> m[id].tx.can_send(),
        {
            proof {
                lemma_streams_cover(m, it.seq().unref());
            }
            assert(*c == it.seq().unref()[it.index() as int]);
            if !c.tx.can_send_exec() {
                proof {
                    assert(m.values().contains(*c));
                    let id = choose|id: HttpRequestId| #[trigger] m.contains_key(id) && m[id] == *c;
                    assert(self.view().channels.contains_key(id));
                    assert(self.view().channels[id].cache == c.tx.cached());
                }
                return false;
            }
        }
        proof {
            assert forall|id: HttpRequestId| #[trigger] self.view().channels.contains_key(id)
                implies next_index(self.view().channels[id].cache) < usize::MAX by {
                assert(m.contains_key(id));
                assert(m[id].tx.can_send());
            }
        }
        true
    }

    /// Routes `resource` to the stream `http_request_id`, if that stream is open.
    pub fn register_resource(&mut self, resource: ResourceKey, http_request_id: HttpRequestId)
        requires
            old(self).wf(),
        ensures
            final(self).wf(),
            final(self).spec_id() == old(self).spec_id(),
            final(self).view() == old(self).view().register_resource(resource@, http_request_id),
    {
        let ghost old_v = self.view();
        let ghost f = |c: HttpRequestWise<M>| channel_view(c);
        match self.tx_router.remove(&http_request_id) {
            Some(mut channel) => {
                let ghost old_tx = self.tx_router@;
                assert(old_tx == old(self).tx_router@.remove(http_request_id));
                channel.resources.insert(resource.clone(), ());
                let ghost nc = channel;
                self.tx_router.insert(http_request_id, channel);
                self.resource_router.insert(resource, http_request_id);
                proof {
                    let m = old(self).tx_router@;
                    assert(self.tx_router@ =~= m.insert(http_request_id, nc));
                    lemma_map_values_insert(m, http_request_id, nc, f);
                    assert(channel_view(nc).resources =~= old_v.channels[http_request_id].resources.insert(resource@));
                    assert(self.view().channels =~= old_v.channels.insert(
                        http_request_id,
                        ChannelView {
                            resources: old_v.channels[http_request_id].resources.insert(resource@),
                            cache: old_v.channels[http_request_id].cache,
                        },
                    ));
                    assert(self.view() == old_v.register_resource(resource@, http_request_id));
                }
            },
            None => {
                assert(self.view().channels =~= old_v.channels);
            },
        }
    }

    /// Forgets the route of `resource`; a stream left with no resource closes.
    pub fn unregister_resource(&mut self, resource: &ResourceKey)
        requires
            old(self).wf(),
        ensures
            final(self).wf(),
            final(self).spec_id() == old(self).spec_id(),
            final(self).view() == old(self).view().unregister_resource(resource@),
    {
        let ghost old_v = self.view();
        let ghost f = |c: HttpRequestWise<M>| channel_view(c);
        if let Some(http_request_id) = self.resource_router.remove(resource) {
            let ghost m = self.tx_router@;
            if let Some(mut channel) = self.tx_router.remove(&http_request_id) {
                channel.resources.remove(resource);
                proof {
                    lemma_empty_dom(channel.resources.view());
                    assert(channel.resources.view().dom() =~= old_v.channels[http_request_id].resources.remove(resource@));
                }
                if !channel.resources.is_empty() {
                    let ghost nc = channel;
                    self.tx_router.insert(http_request_id, channel);
                    proof {
                        assert(self.tx_router@ =~= m.insert(http_request_id, nc));
                        lemma_map_values_insert(m, http_request_id, nc, f);
                    }
                } else {
                    proof {
                        lemma_map_values_remove(m, http_request_id, f);
                    }
                }
                assert(self.view() == old_v.unregister_resource(resource@));
            } else {
                assert(self.tx_router@ =~= m);
                assert(self.view().channels =~= old_v.channels);
                assert(self.view() == old_v.unregister_resource(resource@));
            }
        } else {
            assert(self.resource_router.view() =~= old_v.routes);
            assert(self.view() == old_v);
        }
    }

    /// Tracks a request and its progress token on the stream `http_request_id`.
    pub fn register_request(
        &mut self,
        id: &RequestId,
        progress_token: &Option<ProgressToken>,
        http_request_id: HttpRequestId,
    )
        requires
            old(self).wf(),
        ensures
            final(self).wf(),
            final(self).spec_id() == old(self).spec_id(),
            final(self).view() == old(self).view().register_request(
                id@,
                match progress_token {
                    Some(t) => Some(t@),
                    None => None,
                },
                http_request_id,
            ),
    {
        self.register_resource(ResourceKey::McpRequestId(id.clone()), http_request_id);
        if let Some(progress_token) = progress_token {
            self.register_resource(ResourceKey::ProgressToken(progress_token.clone()), http_request_id);
        }
    }

    /// A cancellation from the client forgets the cancelled request.
    pub fn catch_cancellation_notification(&mut self, request_id: &RequestId)
        requires
            old(self).wf(),
        ensures
            final(self).wf(),
            final(self).spec_id() == old(self).spec_id(),
            final(self).view() == old(self).view().unregister_resource(
                ResourceKeyView::McpRequestId(request_id@),
            ),
    {
        self.unregister_resource(&ResourceKey::McpRequestId(request_id.clone()));
    }

    /// Takes the next HTTP request id; ids wrap around.
    fn next_http_request_id(&mut self) -> (r: HttpRequestId)
        ensures
            r == old(self).next_http_request_id,
            final(self).next_http_request_id == old(self).next_http_request_id.wrapping_add(1),
            final(self).id == old(self).id,
            final(self).tx_router == old(self).tx_router,
            final(self).resource_router == old(self).resource_router,
            final(self).common == old(self).common,
            final(self).session_config == old(self).session_config,
    {
        let id = self.next_http_request_id;
        self.next_http_request_id = self.next_http_request_id.wrapping_add(1);
        id
    }

    /// Opens the stream of a new HTTP request and gives back its id.
    pub fn establish_request_wise_channel(&mut self) -> (r: HttpRequestId)
        requires
            old(self).wf(),
        ensures
            final(self).wf(),
            final(self).spec_id() == old(self).spec_id(),
            r == old(self).view().next_http_request_id,
            final(self).view() == (SessionView {
                next_http_request_id: old(self).view().next_http_request_id.wrapping_add(1),
                channels: old(self).view().channels.insert(
                    r,
                    ChannelView { resources: Set::empty(), cache: Seq::empty() },
                ),
                routes: old(self).view().routes,
                common: old(self).view().common,
                capacity: old(self).view().capacity,
            }),
    {
        let ghost f = |c: HttpRequestWise<M>| channel_view(c);
        let ghost m = self.tx_router@;
        let http_request_id = self.next_http_request_id();
        let channel = HttpRequestWise {
            resources: AssocList::new(),
            tx: CachedTx::new(self.session_config.channel_capacity, Some(http_request_id)),
        };
        let ghost nc = channel;
        self.tx_router.insert(http_request_id, channel);
        proof {
            lemma_map_values_insert(m, http_request_id, nc, f);
            assert(channel_view(nc).resources =~= Set::<ResourceKeyView>::empty());
        }
        http_request_id
    }

    /// Closes the stream of an HTTP request.
    pub fn close_request_wise_channel(&mut self, id: HttpRequestId)
        requires
            old(self).wf(),
        ensures
            final(self).wf(),
            final(self).spec_id() == old(self).spec_id(),
            final(self).view() == (SessionView {
                next_http_request_id: old(self).view().next_http_request_id,
                channels: old(self).view().channels.remove(id),
                routes: old(self).view().routes,
                common: old(self).view().common,
                capacity: old(self).view().capacity,
            }),
    {
        let ghost f = |c: HttpRequestWise<M>| channel_view(c);
        let ghost m = self.tx_router@;
        self.tx_router.remove(&id);
        proof {
            lemma_map_values_remove(m, id, f);
        }
    }

    /// The stream that a server message goes out on.
    pub fn resolve_outbound_channel(&self, kind: &ServerMessageKind) -> (r: OutboundChannel)
        requires
            self.wf(),
            !is_batch(*kind),
        ensures
            r == resolve(self.view(), *kind),
    {
        let key = match kind {
            ServerMessageKind::Request => None,
            ServerMessageKind::ProgressNotification(t) => Some(ResourceKey::ProgressToken(t.clone())),
            ServerMessageKind::CancelledNotification(id) => Some(ResourceKey::McpRequestId(id.clone())),
            ServerMessageKind::Notification => None,
            ServerMessageKind::Response(id) => Some(ResourceKey::McpRequestId(id.clone())),
            ServerMessageKind::Error(id) => Some(ResourceKey::McpRequestId(id.clone())),
            _ => None,
        };
        match key {
            Some(k) => match self.resource_router.get(&k) {
                Some(id) => OutboundChannel::RequestWise { id: *id, close: false },
                None => OutboundChannel::Common,
            },
            None => OutboundChannel::Common,
        }
    }

    /// Sends a server message on the stream it resolves to; gives back that stream
    /// (`None` for the common one) and the id of the event.
    pub fn handle_server_message(&mut self, message: M, kind: &ServerMessageKind) -> (r: Result<
        (Option<HttpRequestId>, EventId),
        SessionError,
    >)
        requires
            old(self).wf(),
            old(self).can_send(),
            !is_batch(*kind),
        ensures
            final(self).wf(),
            final(self).spec_id() == old(self).spec_id(),
            r matches Ok((target, e)) ==> deliver(old(self).view(), *kind, message) == Ok::<
                (Option<HttpRequestId>, SessionView<M>),
                SessionError,
            >((target, final(self).view())) && e == delivered_event_id(old(self).view(), target),
            r matches Err(e) ==> deliver(old(self).view(), *kind, message) == Err::<
                (Option<HttpRequestId>, SessionView<M>),
                SessionError,
            >(e) && final(self).view() == old(self).view(),
    {
        let ghost f = |c: HttpRequestWise<M>| channel_view(c);
        let ghost old_v = self.view();
        let outbound = self.resolve_outbound_channel(kind);
        match outbound {
            OutboundChannel::RequestWise { id, close } => {
                let ghost m = self.tx_router@;
                match self.tx_router.remove(&id) {
                    Some(mut request_wise) => {
                        assert(old_v.channels.contains_key(id));
                        let e = request_wise.tx.send(message);
                        if !close {
                            let ghost nc = request_wise;
                            self.tx_router.insert(id, request_wise);
                            proof {
                                assert(self.tx_router@ =~= m.insert(id, nc));
                                lemma_map_values_insert(m, id, nc, f);
                            }
                        } else {
                            proof {
                                lemma_map_values_remove(m, id, f);
                            }
                        }
                        Ok((Some(id), e))
                    },
                    None => {
                        assert(self.tx_router@ =~= m);
                        Err(SessionError::ChannelClosed(Some(id)))
                    },
                }
            },
            OutboundChannel::Common => {
                let e = self.common.send(message);
                Ok((None, e))
            },
        }
    }

    /// Where a stream resumed after `last_event_id` starts its replay.
    pub fn resume(&self, last_event_id: EventId) -> (r: Result<(Option<HttpRequestId>, usize), SessionError>)
        requires
            self.wf(),
        ensures
            r matches Ok((t, k)) ==> resume_result(self.view(), last_event_id) == Ok::<
                (Option<HttpRequestId>, int),
                SessionError,
            >((t, k as int)),
            r matches Err(e) ==> resume_result(self.view(), last_event_id) == Err::<
                (Option<HttpRequestId>, int),
                SessionError,
            >(e),
    {
        match last_event_id.http_request_id {
            Some(http_request_id) => {
                match self.tx_router.get(&http_request_id) {
                    Some(request_wise) => {
                        match request_wise.tx.sync(last_event_id.index) {
                            Ok(k) => Ok((Some(http_request_id), k)),
                            Err(e) => Err(e),
                        }
                    },
                    None => Err(SessionError::ChannelClosed(Some(http_request_id))),
                }
            },
            None => {
                match self.common.sync(last_event_id.index) {
                    Ok(k) => Ok((None, k)),
                    Err(e) => Err(e),
                }
            },
        }
    }

    fn apply_client_item_exec(&mut self, item: &ClientBatchItem, http_request_id: Option<HttpRequestId>)
        requires
            old(self).wf(),
        ensures
            final(self).wf(),
            final(self).spec_id() == old(self).spec_id(),
            final(self).view() == apply_client_item(old(self).view(), *item, http_request_id),
    {
        match item {
            ClientBatchItem::Request { id, progress_token } => {
                if let Some(h) = http_request_id {
                    self.register_request(id, progress_token, h);
                }
            },
            ClientBatchItem::CancelledNotification(id) => {
                self.catch_cancellation_notification(id);
            },
            ClientBatchItem::Notification => {},
        }
    }

    /// Bookkeeping of a message from the client before it is handed to the service.
    pub fn handle_client_message(&mut self, kind: &ClientMessageKind, http_request_id: Option<HttpRequestId>)
        requires
            old(self).wf(),
        ensures
            final(self).wf(),
            final(self).spec_id() == old(self).spec_id(),
            final(self).view() == apply_client_message(old(self).view(), *kind, http_request_id),
    {
        match kind {
            ClientMessageKind::Request { id, progress_token } => {
                if let Some(h) = http_request_id {
                    self.register_request(id, progress_token, h);
                }
            },
            ClientMessageKind::CancelledNotification(id) => {
                self.catch_cancellation_notification(id);
            },
            ClientMessageKind::BatchRequest(items) => {
                let n = items.len();
                let ghost start = self.view();
                assert(items@.take(0) =~= Seq::<ClientBatchItem>::empty());
                for i in 0..n
                    invariant
                        n == items@.len(),
                        self.wf(),
                        self.spec_id() == old(self).spec_id(),
                        self.view() == apply_client_items(start, items@.take(i as int), http_request_id),
                {
                    self.apply_client_item_exec(&items[i], http_request_id);
                    assert(items@.take(i + 1).drop_last() =~= items@.take(i as int));
                }
                assert(items@.take(n as int) =~= items@);
            },
            _ => {},
        }
    }

    /// A message from the service goes out on the stream it resolves to; then a
    /// response or error forgets the request it answers, closing that request's
    /// stream when nothing else is routed to it.
    pub fn handle_handler_message(&mut self, message: M, kind: &ServerMessageKind) -> (r: Result<
        (Option<HttpRequestId>, EventId),
        SessionError,
    >)
        requires
            old(self).wf(),
            old(self).can_send(),
            !is_batch(*kind),
        ensures
            final(self).wf(),
            final(self).spec_id() == old(self).spec_id(),
            r matches Ok((target, e)) ==> deliver(old(self).view(), *kind, message) matches Ok((t, w)) && t
                == target && final(self).view() == after_handler_message(w, *kind) && e == delivered_event_id(
                old(self).view(),
                target,
            ),
            r matches Err(e) ==> deliver(old(self).view(), *kind, message) == Err::<
                (Option<HttpRequestId>, SessionView<M>),
                SessionError,
            >(e) && final(self).view() == after_handler_message(old(self).view(), *kind),
    {
        let r = self.handle_server_message(message, kind);
        match kind {
            ServerMessageKind::Response(id) => {
                self.unregister_resource(&ResourceKey::McpRequestId(id.clone()));
            },
            ServerMessageKind::Error(id) => {
                self.unregister_resource(&ResourceKey::McpRequestId(id.clone()));
            },
            _ => {},
        }
        r
    }
}

/// Once a request is tracked on an open stream, every message about it (its response,
/// its error, a cancellation) and every progress notification with its token resolve
/// to that stream.
pub proof fn lemma_registered_request_routes_to_its_stream<M>(
    v: SessionView<M>,
    id: NumberOrStringView,
    progress_token: Option<NumberOrStringView>,
    h: HttpRequestId,
)
    requires
        v.channels.contains_key(h),
    ensures
        v.register_request(id, progress_token, h).route(ResourceKeyView::McpRequestId(id))
            == (OutboundChannel::RequestWise { id: h, close: false }),
        progress_token matches Some(t) ==> v.register_request(id, progress_token, h).route(
            ResourceKeyView::ProgressToken(t),
        ) == (OutboundChannel::RequestWise { id: h, close: false }),
{
}

/// The stream of a server message is the route of the request it is about.
pub proof fn lemma_resolve_by_route<M>(v: SessionView<M>, kind: ServerMessageKind, k: ResourceKeyView)
    requires
        server_kind_key(kind) == Some(k),
    ensures
        resolve(v, kind) == v.route(k),
{
}

/// After a cancellation from the client, nothing about the cancelled request is routed
/// to a request-wise stream any more.
pub proof fn lemma_cancellation_forgets_route<M>(v: SessionView<M>, id: RequestId, h: Option<HttpRequestId>)
    ensures
        apply_client_message(v, ClientMessageKind::CancelledNotification(id), h).route(
            ResourceKeyView::McpRequestId(id@),
        ) == OutboundChannel::Common,
{
}

/// An answer goes out on the stream of the request it answers, and only then is the
/// request forgotten: its stream closes when nothing else was routed to it, and
/// later messages about the request resolve to the common stream.
pub proof fn lemma_answer_reaches_its_stream<M>(v: SessionView<M>, id: RequestId, message: M)
    requires
        v.routes.contains_key(ResourceKeyView::McpRequestId(id@)),
        v.channels.contains_key(v.routes[ResourceKeyView::McpRequestId(id@)]),
        v.channels[v.routes[ResourceKeyView::McpRequestId(id@)]].resources == Set::<ResourceKeyView>::empty().insert(
            ResourceKeyView::McpRequestId(id@),
        ),
    ensures
        ({
            let h = v.routes[ResourceKeyView::McpRequestId(id@)];
            &&& deliver(v, ServerMessageKind::Response(id), message) matches Ok((t, w)) && t == Some(h) && {
                let u = after_handler_message(w, ServerMessageKind::Response(id));
                &&& w.channels[h].cache == cache_after_send(v.channels[h].cache, v.capacity, Some(h), message)
                &&& !u.channels.contains_key(h)
                &&& u.route(ResourceKeyView::McpRequestId(id@)) == OutboundChannel::Common
            }
        }),
{
    let k = ResourceKeyView::McpRequestId(id@);
    let h = v.routes[k];
    assert(v.channels[h].resources.remove(k) =~= Set::<ResourceKeyView>::empty());
}

/// What the HTTP service asks of a session worker.
#[derive(Debug, Clone, Copy, PartialEq, Eq, Structural)]
pub enum SessionEventKind {
    ClientMessage,
    EstablishRequestWiseChannel,
    CloseRequestWiseChannel,
    Resume,
    InitializeRequest,
    Close,
}

/// Why a session worker stops.
#[derive(Debug, PartialEq)]
pub enum WorkerQuit {
    Fatal { error: String, context: String },
    TransportClosed,
    /// The worker's cancellation token fired.
    Cancelled,
}

/// What a session worker does with an event from the HTTP service.
#[derive(Debug, PartialEq)]
pub enum WorkerStep {
    /// Hand the initialize request to the handler and answer with its response.
    Initialize,
    /// Record the message's routes, then hand it to the handler.
    ClientMessage,
    OpenRequestStream,
    CloseRequestStream,
    Resume,
    /// Unregister what a response or error answers, then send the handler's
    /// message on its stream.
    HandlerMessage,
    /// Nothing to do.
    Ignore,
    Quit(WorkerQuit),
}

/// The first event must be the initialize request; the service gone, or
/// any other event, ends the session.
pub fn first_event_step(event: Option<SessionEventKind>) -> (r: WorkerStep)
    ensures
        match event {
            None => r matches WorkerStep::Quit(WorkerQuit::Fatal { error, context }) && error@
                == "transport terminated"@ && context@ == "get initialize request"@,
            Some(SessionEventKind::InitializeRequest) => r == WorkerStep::Initialize,
            Some(_) => r matches WorkerStep::Quit(WorkerQuit::Fatal { error, context }) && error@
                == "unexpected message"@ && context@ == "get initialize request"@,
        },
{
    match event {
        None => WorkerStep::Quit(
            WorkerQuit::Fatal { error: "transport terminated".to_owned(), context: "get initialize request".to_owned() },
        ),
        Some(SessionEventKind::InitializeRequest) => WorkerStep::Initialize,
        Some(_) => WorkerStep::Quit(
            WorkerQuit::Fatal { error: "unexpected message".to_owned(), context: "get initialize request".to_owned() },
        ),
    }
}

/// What an initialized worker does on an event from the HTTP service.
pub open spec fn is_next_event_step(event: Option<SessionEventKind>, r: WorkerStep) -> bool {
    match event {
        None => r matches WorkerStep::Quit(WorkerQuit::Fatal { error, context }) && error@ == "session dropped"@
            && context@ == "waiting next session event"@,
        Some(SessionEventKind::ClientMessage) => r == WorkerStep::ClientMessage,
        Some(SessionEventKind::EstablishRequestWiseChannel) => r == WorkerStep::OpenRequestStream,
        Some(SessionEventKind::CloseRequestWiseChannel) => r == WorkerStep::CloseRequestStream,
        Some(SessionEventKind::Resume) => r == WorkerStep::Resume,
        Some(SessionEventKind::InitializeRequest) => r == WorkerStep::Ignore,
        Some(SessionEventKind::Close) => r == WorkerStep::Quit(WorkerQuit::TransportClosed),
    }
}

/// Once initialized, each event is served; a second initialize request is
/// ignored; closing, or the service gone, ends the session.
pub fn next_event_step(event: Option<SessionEventKind>) -> (r: WorkerStep)
    ensures
        is_next_event_step(event, r),
{
    match event {
        None => WorkerStep::Quit(
            WorkerQuit::Fatal { error: "session dropped".to_owned(), context: "waiting next session event".to_owned() },
        ),
        Some(SessionEventKind::ClientMessage) => WorkerStep::ClientMessage,
        Some(SessionEventKind::EstablishRequestWiseChannel) => WorkerStep::OpenRequestStream,
        Some(SessionEventKind::CloseRequestWiseChannel) => WorkerStep::CloseRequestStream,
        Some(SessionEventKind::Resume) => WorkerStep::Resume,
        Some(SessionEventKind::InitializeRequest) => WorkerStep::Ignore,
        Some(SessionEventKind::Close) => WorkerStep::Quit(WorkerQuit::TransportClosed),
    }
}

/// What wakes an initialized session worker: an event from the HTTP service
/// (`None` once the service is gone), a message from the handler, or the
/// cancellation of the worker.
#[derive(Debug, Clone, Copy, PartialEq, Eq, Structural)]
pub enum WorkerWake {
    Service(Option<SessionEventKind>),
    Handler,
    Cancelled,
}

/// The step of an initialized worker on whatever woke it: service events as
/// `next_event_step` says, a handler message sent on, and cancellation ends the
/// session with `Cancelled`.
pub fn wake_step(wake: WorkerWake) -> (r: WorkerStep)
    ensures
        match wake {
            WorkerWake::Service(event) => is_next_event_step(event, r),
            WorkerWake::Handler => r == WorkerStep::HandlerMessage,
            WorkerWake::Cancelled => r == WorkerStep::Quit(WorkerQuit::Cancelled),
        },
{
    match wake {
        WorkerWake::Service(event) => next_event_step(event),
        WorkerWake::Handler => WorkerStep::HandlerMessage,
        WorkerWake::Cancelled => WorkerStep::Quit(WorkerQuit::Cancelled),
    }
}


/// The streams of a well-formed session keep consecutive event indices.
proof fn lemma_worker_caches_consecutive<M>(w: SessionWorker<M>)
    requires
        w.wf(),
    ensures
        forall|j: int|
            0 <= j < w.view().common.len() ==> (#[trigger] w.view().common[j]).event_id.index
                == w.view().common[0].event_id.index + j,
        forall|h: HttpRequestId, j: int|
            w.view().channels.contains_key(h) && 0 <= j < w.view().channels[h].cache.len() ==> (
            #[trigger] w.view().channels[h].cache[j]).event_id.index == w.view().channels[h].cache[0].event_id.index
                + j,
{
    assert forall|h: HttpRequestId, j: int|
        w.view().channels.contains_key(h) && 0 <= j < w.view().channels[h].cache.len() implies (
        #[trigger] w.view().channels[h].cache[j]).event_id.index == w.view().channels[h].cache[0].event_id.index
            + j by {
        assert(w.tx_router@.contains_key(h));
        assert(w.tx_router@[h].tx.wf());
    }
}

/// Resuming after `last` replays the stream that `last` names, from the first
/// cached message whose index is at least `last.index`: a request-wise stream
/// from its own cache, the common stream from the common cache. It fails when
/// the named request stream is closed, or when `last.index` lies past the
/// stream's next event.
pub proof fn lemma_resume_replays_the_named_stream<M>(w: SessionWorker<M>, last: EventId)
    requires
        w.wf(),
    ensures
        ({
            let v = w.view();
            match last.http_request_id {
                Some(h) => if v.channels.contains_key(h) {
                    resume_replays_from(resume_result(v, last), Some(h), v.channels[h].cache, last.index)
                } else {
                    resume_result(v, last) == Err::<(Option<HttpRequestId>, int), SessionError>(
                        SessionError::ChannelClosed(Some(h)),
                    )
                },
                None => resume_replays_from(resume_result(v, last), None, v.common, last.index),
            }
        }),
{
    lemma_worker_caches_consecutive(w);
}

/// `r` is a replay of `cache` on stream `target` from the first message whose
/// index is at least `index`; it is refused, as an invalid event id, exactly when
/// the cache is not empty and `index` lies past the stream's next event.
pub open spec fn resume_replays_from<M>(
    r: Result<(Option<HttpRequestId>, int), SessionError>,
    target: Option<HttpRequestId>,
    cache: Seq<SessionMessage<M>>,
    index: usize,
) -> bool {
    &&& (r is Ok) <==> (cache.len() == 0 || index <= cache[0].event_id.index + cache.len())
    &&& r matches Err(e) ==> e == SessionError::InvalidEventId
    &&& r matches Ok((t, k)) ==> {
        &&& t == target
        &&& 0 <= k <= cache.len()
        &&& forall|j: int| 0 <= j < k ==> (#[trigger] cache[j]).event_id.index < index
        &&& forall|j: int| k <= j < cache.len() ==> (#[trigger] cache[j]).event_id.index >= index
    }
}

proof fn lemma_batch_items_route_to_stream<M>(v: SessionView<M>, items: Seq<ClientBatchItem>, h: HttpRequestId)
    requires
        v.channels.contains_key(h),
        forall|i: int| 0 <= i < items.len() ==> !(#[trigger] items[i] is CancelledNotification),
    ensures
        apply_client_items(v, items, Some(h)).channels.contains_key(h),
        forall|i: int|
            0 <= i < items.len() && (#[trigger] items[i]) is Request ==> {
                &&& apply_client_items(v, items, Some(h)).route(ResourceKeyView::McpRequestId(items[i]->Request_id@))
                    == (OutboundChannel::RequestWise { id: h, close: false })
                &&& items[i]->Request_progress_token matches Some(t) ==> apply_client_items(v, items, Some(h)).route(
                    ResourceKeyView::ProgressToken(t@),
                ) == (OutboundChannel::RequestWise { id: h, close: false })
            },
    decreases items.len(),
{
    if items.len() > 0 {
        let init = items.drop_last();
        assert forall|i: int| 0 <= i < init.len() implies !(#[trigger] init[i] is CancelledNotification) by {
            assert(init[i] == items[i]);
        }
        lemma_batch_items_route_to_stream(v, init, h);
        let u = apply_client_items(v, init, Some(h));
        let w = apply_client_items(v, items, Some(h));
        assert(!(items[items.len() - 1] is CancelledNotification));
        assert forall|i: int|
            0 <= i < items.len() && (#[trigger] items[i]) is Request implies {
                &&& w.route(ResourceKeyView::McpRequestId(items[i]->Request_id@)) == (OutboundChannel::RequestWise { id: h, close: false })
                &&& items[i]->Request_progress_token matches Some(t) ==> w.route(ResourceKeyView::ProgressToken(t@))
                    == (OutboundChannel::RequestWise { id: h, close: false })
            } by {
            if i < items.len() - 1 {
                assert(init[i] == items[i]);
            }
        }
    }
}

/// Every request of a batch that arrives on the request stream `h` is answered
/// on `h`: its response, error and progress resolve to `h`, and `h` stays open.
/// (Cancellations in the batch are left out: a cancelled request is forgotten.)
pub proof fn lemma_batch_requests_route_to_their_stream<M>(
    v: SessionView<M>,
    items: Vec<ClientBatchItem>,
    h: HttpRequestId,
)
    requires
        v.channels.contains_key(h),
        forall|i: int| 0 <= i < items@.len() ==> !(#[trigger] items@[i] is CancelledNotification),
    ensures
        ({
            let w = apply_client_message(v, ClientMessageKind::BatchRequest(items), Some(h));
            &&& w.channels.contains_key(h)
            &&& forall|i: int|
                0 <= i < items@.len() && (#[trigger] items@[i]) is Request
                    ==> {
                    &&& resolve(w, ServerMessageKind::Response(items@[i]->Request_id)) == (OutboundChannel::RequestWise { id: h, close: false })
                    &&& resolve(w, ServerMessageKind::Error(items@[i]->Request_id)) == (OutboundChannel::RequestWise { id: h, close: false })
                    &&& items@[i]->Request_progress_token matches Some(t) ==> resolve(w, ServerMessageKind::ProgressNotification(t))
                        == (OutboundChannel::RequestWise { id: h, close: false })
                }
        }),
{
    lemma_batch_items_route_to_stream(v, items@, h);
}


proof fn lemma_batch_cancellations_forget<M>(v: SessionView<M>, items: Seq<ClientBatchItem>, h: Option<HttpRequestId>)
    ensures
        forall|i: int|
            0 <= i < items.len() && (#[trigger] items[i]) is CancelledNotification && (forall|j: int|
                i < j < items.len() ==> !(items[j] is Request && items[j]->Request_id@ == items[i]->CancelledNotification_0@))
                ==> apply_client_items(v, items, h).route(
                ResourceKeyView::McpRequestId(items[i]->CancelledNotification_0@),
            ) == OutboundChannel::Common,
    decreases items.len(),
{
    if items.len() > 0 {
        let init = items.drop_last();
        lemma_batch_cancellations_forget(v, init, h);
        let w = apply_client_items(v, items, h);
        assert forall|i: int|
            0 <= i < items.len() && (#[trigger] items[i]) is CancelledNotification && (forall|j: int|
                i < j < items.len() ==> !(items[j] is Request && items[j]->Request_id@ == items[i]->CancelledNotification_0@))
                implies w.route(ResourceKeyView::McpRequestId(items[i]->CancelledNotification_0@)) == OutboundChannel::Common by {
            if i < items.len() - 1 {
                assert(init[i] == items[i]);
                assert forall|j: int| i < j < init.len() implies !(init[j] is Request && init[j]->Request_id@
                    == init[i]->CancelledNotification_0@) by {
                    assert(init[j] == items[j]);
                }
                let last = items[items.len() - 1];
                if last is Request {
                    assert(last->Request_id@ != items[i]->CancelledNotification_0@);
                }
            }
        }
    }
}

/// A batch that cancels a request forgets it: once the batch is handled, an
/// answer to a request cancelled in the batch (and not sent again later in the
/// batch) goes out on the common stream.
pub proof fn lemma_batch_cancellation_forgets_request<M>(
    v: SessionView<M>,
    items: Vec<ClientBatchItem>,
    h: Option<HttpRequestId>,
    i: int,
)
    requires
        0 <= i < items@.len(),
        items@[i] is CancelledNotification,
        forall|j: int|
            i < j < items@.len() ==> !(#[trigger] items@[j] is Request && items@[j]->Request_id@
                == items@[i]->CancelledNotification_0@),
    ensures
        resolve(
            apply_client_message(v, ClientMessageKind::BatchRequest(items), h),
            ServerMessageKind::Response(items@[i]->CancelledNotification_0),
        ) == OutboundChannel::Common,
{
    lemma_batch_cancellations_forget(v, items@, h);
    assert(items@[i] is CancelledNotification);
}

} // verus!
