//! What a server handler decides around its tools and prompts: the routes a
//! prompt router holds, where a request goes, and how handler results and
//! parameter failures are turned into protocol values.
use vstd::prelude::*;

use crate::assoc::{AssocList, KeyEq};
use crate::json::JsonValue;
use crate::macros::ResolvedToolAttribute;
use crate::mcp_core::prompt::{Prompt, PromptArgument, PromptMessage};
use crate::mcp_core::protocol::GetPromptResult;
use crate::model::content::{is_structured_result, CallToolResult};
use crate::model::{ErrorCode, ErrorData, NumberOrStringView, ProgressToken};
use crate::text::concat;

verus! {

/// A wrapper marking a tool's result as structured JSON content.
pub struct Json<T>(pub T);

/// A wrapper marking a handler argument as the request's parameters.
pub struct Parameters<P>(pub P);

/// The name of the prompt a request asks for.
#[derive(Debug, Clone, PartialEq)]
pub struct PromptName(pub String);

/// The name of the tool a request calls.
#[derive(Debug, Clone, PartialEq)]
pub struct ToolName(pub String);

impl Clone for PromptArgument {
    fn clone(&self) -> (r: Self)
        ensures
            r == *self,
    {
        PromptArgument {
            name: self.name.clone(),
            description: match &self.description {
                Some(d) => Some(d.clone()),
                None => None,
            },
            required: self.required,
        }
    }
}

fn clone_arguments(v: &Vec<PromptArgument>) -> (r: Vec<PromptArgument>)
    ensures
        r@ == v@,
{
    let mut r: Vec<PromptArgument> = Vec::new();
    let n = v.len();
    for i in 0..n
        invariant
            n == v@.len(),
            r@ == v@.take(i as int),
    {
        r.push(v[i].clone());
        assert(v@.take(i + 1) =~= v@.take(i as int).push(v@[i as int]));
    }
    assert(v@.take(n as int) =~= v@);
    r
}

/// Two argument lists hold the same arguments.
pub open spec fn same_arguments(a: Option<Vec<PromptArgument>>, b: Option<Vec<PromptArgument>>) -> bool {
    match (a, b) {
        (Some(x), Some(y)) => x@ == y@,
        (None, None) => true,
        _ => false,
    }
}

/// A copy of a prompt's description.
pub fn clone_prompt(p: &Prompt) -> (r: Prompt)
    ensures
        r.name == p.name,
        r.description == p.description,
        same_arguments(r.arguments, p.arguments),
{
    Prompt {
        name: p.name.clone(),
        description: match &p.description {
            Some(d) => Some(d.clone()),
            None => None,
        },
        arguments: match &p.arguments {
            Some(a) => Some(clone_arguments(a)),
            None => None,
        },
    }
}

/// A prompt and the handler that produces it.
pub struct PromptRoute<H> {
    pub attr: Prompt,
    pub handler: H,
}

/// The prompts a server offers, each under its name once.
pub struct PromptRouter<H> {
    pub routes: AssocList<String, PromptRoute<H>>,
}

impl<H> PromptRouter<H> {
    pub open spec fn wf(&self) -> bool {
        self.routes.wf()
    }

    /// The routes by prompt name.
    pub open spec fn view(&self) -> Map<Seq<char>, PromptRoute<H>> {
        self.routes.view()
    }

    /// A router without routes.
    pub fn new() -> (r: Self)
        ensures
            r.wf(),
            r@ == Map::<Seq<char>, PromptRoute<H>>::empty(),
    {
        PromptRouter { routes: AssocList::new() }
    }

    /// Adds a route under its prompt's name, replacing any route of that name.
    pub fn with_route(self, route: PromptRoute<H>) -> (r: Self)
        requires
            self.wf(),
        ensures
            r.wf(),
            r@ == self@.insert(route.attr.name@, route),
    {
        let mut routes = self.routes;
        let name = route.attr.name.clone();
        routes.insert(name, route);
        PromptRouter { routes }
    }

    /// Whether a prompt of this name is routed.
    pub fn has_route(&self, name: &str) -> (r: bool)
        requires
            self.wf(),
        ensures
            r == self@.contains_key(name@),
    {
        let k = name.to_owned();
        self.routes.contains_key(&k)
    }

    /// Removes the route of this name, if any.
    pub fn remove_route(&mut self, name: &str)
        requires
            old(self).wf(),
        ensures
            final(self).wf(),
            final(self)@ == old(self)@.remove(name@),
    {
        let k = name.to_owned();
        self.routes.remove(&k);
    }

    /// The routed prompts, one per route.
    pub fn list_all(&self) -> (r: Vec<Prompt>)
        ensures
            r@.len() == self.routes.entries@.len(),
            forall|i: int|
                #![trigger r@[i]]
                0 <= i < r@.len() ==> r@[i].name == self.routes.entries@[i].1.attr.name && r@[i].description
                    == self.routes.entries@[i].1.attr.description && same_arguments(
                    r@[i].arguments,
                    self.routes.entries@[i].1.attr.arguments,
                ),
    {
        let mut out: Vec<Prompt> = Vec::new();
        let n = self.routes.entries.len();
        for i in 0..n
            invariant
                n == self.routes.entries@.len(),
                out@.len() == i,
                forall|j: int|
                    #![trigger out@[j]]
                    0 <= j < i ==> out@[j].name == self.routes.entries@[j].1.attr.name && out@[j].description
                        == self.routes.entries@[j].1.attr.description && same_arguments(
                        out@[j].arguments,
                        self.routes.entries@[j].1.attr.arguments,
                    ),
        {
            out.push(clone_prompt(&self.routes.entries[i].1.attr));
        }
        out
    }
}

/// Messages a prompt handler returns, as a prompt result without description.
pub fn messages_into_prompt_result(messages: Vec<PromptMessage>) -> (r: GetPromptResult)
    ensures
        r.description is None,
        r.messages == messages,
{
    GetPromptResult { description: None, messages }
}

/// The error for prompt arguments that did not parse into the handler's
/// parameters: when arguments were given, they failed to parse; when none
/// were, an empty object failed, so required parameters are missing.
pub fn prompt_parameters_error(had_arguments: bool, cause: &str) -> (r: ErrorData)
    ensures
        r.code == ErrorCode(ErrorCode::INVALID_PARAMS),
        r.data is None,
        had_arguments ==> r.message@ == "Failed to parse parameters: "@ + cause@,
        !had_arguments ==> r.message@ == "Missing required parameters: "@ + cause@,
{
    let message = if had_arguments {
        concat("Failed to parse parameters: ", cause)
    } else {
        concat("Missing required parameters: ", cause)
    };
    ErrorData::invalid_params(message.as_str(), None)
}

/// The error for tool arguments that did not parse into the handler's parameters.
pub fn tool_parameters_error(cause: &str) -> (r: ErrorData)
    ensures
        r.code == ErrorCode(ErrorCode::INVALID_PARAMS),
        r.data is None,
        r.message@ == "failed to deserialize parameters: "@ + cause@,
{
    let message = concat("failed to deserialize parameters: ", cause);
    ErrorData::invalid_params(message.as_str(), None)
}

/// A structured tool result from the serialised value, or the error for a
/// value that did not serialise.
pub fn structured_tool_result(serialized: Result<JsonValue, String>) -> (r: Result<CallToolResult, ErrorData>)
    ensures
        match serialized {
            Ok(v) => r matches Ok(c) && is_structured_result(c, v, false),
            Err(e) => r matches Err(d) && d.code == ErrorCode(ErrorCode::INTERNAL_ERROR) && d.message@
                == "Failed to serialize structured content: "@ + e@ && d.data is None,
        },
{
    match serialized {
        Ok(v) => Ok(CallToolResult::structured(v)),
        Err(e) => {
            let message = concat("Failed to serialize structured content: ", e.as_str());
            Err(ErrorData::internal_error(message.as_str(), None))
        },
    }
}

/// The kinds of request a router tells apart.
#[derive(Debug, Clone, Copy, PartialEq, Eq, Structural)]
pub enum RequestKind {
    CallTool,
    ListTools,
    Other,
}

/// Who answers a request.
#[derive(Debug, Clone, Copy, PartialEq, Eq, Structural)]
pub enum RouteTarget {
    /// The router calls the tool.
    ToolRouter,
    /// The router lists its tools.
    ListTools,
    /// The wrapped service answers.
    Service,
}

/// Where a router sends a request: a tool call goes to its routes when the
/// tool is routed or the router is not transparent, else to the service; a
/// tool listing is answered by the router; the rest go to the service.
pub fn route_target(kind: RequestKind, has_route: bool, transparent_when_not_found: bool) -> (r: RouteTarget)
    ensures
        r == match kind {
            RequestKind::CallTool => if has_route || !transparent_when_not_found {
                RouteTarget::ToolRouter
            } else {
                RouteTarget::Service
            },
            RequestKind::ListTools => RouteTarget::ListTools,
            RequestKind::Other => RouteTarget::Service,
        },
{
    match kind {
        RequestKind::CallTool => if has_route || !transparent_when_not_found {
            RouteTarget::ToolRouter
        } else {
            RouteTarget::Service
        },
        RequestKind::ListTools => RouteTarget::ListTools,
        RequestKind::Other => RouteTarget::Service,
    }
}

/// A router lists exactly the prompts it routes: after adding a route,
/// the prompt is routed under its name and the other routes stay.
pub proof fn lemma_with_route_keeps_others<H>(router: PromptRouter<H>, route: PromptRoute<H>, name: Seq<char>)
    requires
        router.wf(),
        name != route.attr.name@,
    ensures
        router@.insert(route.attr.name@, route).contains_key(route.attr.name@),
        router@.insert(route.attr.name@, route).contains_key(name) == router@.contains_key(name),
{
}

/// Where progress notifications go: one subscriber per progress token.
pub struct ProgressDispatcher<S> {
    pub subscribers: AssocList<ProgressToken, S>,
}

impl<S> ProgressDispatcher<S> {
    pub open spec fn wf(&self) -> bool {
        self.subscribers.wf()
    }

    /// The subscriber of each token.
    pub open spec fn view(&self) -> Map<NumberOrStringView, S> {
        self.subscribers.view()
    }

    /// A dispatcher without subscribers.
    pub fn new() -> (r: Self)
        ensures
            r.wf(),
            r@ == Map::<NumberOrStringView, S>::empty(),
    {
        ProgressDispatcher { subscribers: AssocList::new() }
    }

    /// Subscribes to the progress of `token`, replacing an earlier subscriber.
    pub fn subscribe(&mut self, token: ProgressToken, subscriber: S)
        requires
            old(self).wf(),
        ensures
            final(self).wf(),
            final(self)@ == old(self)@.insert(token@, subscriber),
    {
        self.subscribers.insert(token, subscriber);
    }

    /// The subscriber a notification of `token` goes to, if any.
    pub fn route(&self, token: &ProgressToken) -> (r: Option<&S>)
        requires
            self.wf(),
        ensures
            match r {
                Some(s) => self@.contains_key(token@) && *s == self@[token@],
                None => !self@.contains_key(token@),
            },
    {
        self.subscribers.get(token)
    }

    /// Stops sending the progress of `token`.
    pub fn unsubscribe(&mut self, token: &ProgressToken)
        requires
            old(self).wf(),
        ensures
            final(self).wf(),
            final(self)@ == old(self)@.remove(token@),
    {
        self.subscribers.remove(token);
    }

    /// Forgets every subscriber.
    pub fn clear(&mut self)
        ensures
            final(self).wf(),
            final(self)@ == Map::<NumberOrStringView, S>::empty(),
    {
        self.subscribers = AssocList::new();
    }
}

/// The pending notifications of each subscriber whose subscriber is its inbox.
pub open spec fn inboxes<N>(m: Map<NumberOrStringView, Vec<N>>) -> Map<NumberOrStringView, Seq<N>> {
    m.map_values(|v: Vec<N>| v@)
}

/// A notification of token `t` delivered: appended to the inbox of `t` when
/// `t` has a subscriber, dropped otherwise.
pub open spec fn deliver_one<N>(m: Map<NumberOrStringView, Seq<N>>, t: NumberOrStringView, n: N) -> Map<
    NumberOrStringView,
    Seq<N>,
> {
    if m.contains_key(t) {
        m.insert(t, m[t].push(n))
    } else {
        m
    }
}

/// Notifications delivered one after another, in order.
pub open spec fn deliver_all<N>(m: Map<NumberOrStringView, Seq<N>>, ns: Seq<(NumberOrStringView, N)>) -> Map<
    NumberOrStringView,
    Seq<N>,
>
    decreases ns.len(),
{
    if ns.len() == 0 {
        m
    } else {
        deliver_one(deliver_all(m, ns.drop_last()), ns.last().0, ns.last().1)
    }
}

/// The notifications of token `t` among `ns`, in their order.
pub open spec fn of_token<N>(ns: Seq<(NumberOrStringView, N)>, t: NumberOrStringView) -> Seq<N>
    decreases ns.len(),
{
    if ns.len() == 0 {
        Seq::empty()
    } else if ns.last().0 == t {
        of_token(ns.drop_last(), t).push(ns.last().1)
    } else {
        of_token(ns.drop_last(), t)
    }
}

impl<N> ProgressDispatcher<Vec<N>> {
    /// Sends a notification of `token` to its subscriber, after those it was
    /// sent before; a notification of a token without subscriber goes nowhere.
    pub fn handle_notification(&mut self, token: &ProgressToken, notification: N)
        requires
            old(self).wf(),
        ensures
            final(self).wf(),
            inboxes(final(self)@) == deliver_one(inboxes(old(self)@), token@, notification),
    {
        let ghost before = self@;
        match self.subscribers.remove(token) {
            Some(mut inbox) => {
                inbox.push(notification);
                let ghost after = inbox;
                self.subscribers.insert(token.clone(), inbox);
                proof {
                    assert(self@ == before.remove(token@).insert(token@, after));
                    assert(inboxes(self@) =~= inboxes(before).insert(token@, inboxes(before)[token@].push(notification)));
                }
            },
            None => {
                assert(before.remove(token@) =~= before);
            },
        }
    }

    /// Takes the notifications sent to the subscriber of `token` so far, in the
    /// order they were sent; `None` when `token` has no subscriber.
    pub fn receive(&mut self, token: &ProgressToken) -> (r: Option<Vec<N>>)
        requires
            old(self).wf(),
        ensures
            final(self).wf(),
            match r {
                Some(v) => old(self)@.contains_key(token@) && v@ == inboxes(old(self)@)[token@] && inboxes(
                    final(self)@,
                ) == inboxes(old(self)@).insert(token@, Seq::empty()),
                None => !old(self)@.contains_key(token@) && inboxes(final(self)@) == inboxes(old(self)@),
            },
    {
        let ghost before = self@;
        match self.subscribers.remove(token) {
            Some(inbox) => {
                self.subscribers.insert(token.clone(), Vec::new());
                proof {
                    assert(inboxes(self@) =~= inboxes(before).insert(token@, Seq::empty()));
                }
                Some(inbox)
            },
            None => {
                assert(before.remove(token@) =~= before);
                None
            },
        }
    }
}

/// A subscriber receives every notification of its token, in the order they
/// were sent, and no other: delivering notifications one after another to a
/// subscribed token appends exactly those of that token to its inbox, and a
/// token without subscriber receives nothing.
pub proof fn lemma_progress_delivered_in_order<N>(
    m: Map<NumberOrStringView, Seq<N>>,
    ns: Seq<(NumberOrStringView, N)>,
    t: NumberOrStringView,
)
    ensures
        deliver_all(m, ns).contains_key(t) == m.contains_key(t),
        m.contains_key(t) ==> deliver_all(m, ns)[t] == m[t] + of_token(ns, t),
    decreases ns.len(),
{
    if ns.len() == 0 {
        assert(m[t] + Seq::<N>::empty() =~= m[t]);
    } else {
        lemma_progress_delivered_in_order(m, ns.drop_last(), t);
        if m.contains_key(t) && ns.last().0 == t {
            assert(m[t] + of_token(ns.drop_last(), t).push(ns.last().1) =~= (m[t] + of_token(ns.drop_last(), t)).push(
                ns.last().1,
            ));
        }
    }
}

/// Progress reaches the latest subscriber of its token and no other: after a
/// subscription to `t`, notifications of `t` go to it, those of other tokens
/// go where they went before; after unsubscribing, notifications of `t` go nowhere.
pub proof fn lemma_progress_reaches_subscriber<S>(m: Map<NumberOrStringView, S>, t: NumberOrStringView, u: NumberOrStringView, s: S)
    requires
        u != t,
    ensures
        m.insert(t, s).contains_key(t) && m.insert(t, s)[t] == s,
        m.insert(t, s).contains_key(u) == m.contains_key(u),
        m.contains_key(u) ==> m.insert(t, s)[u] == m[u],
        !m.insert(t, s).remove(t).contains_key(t),
{
}

/// A tool and the handler that runs it.
pub struct ToolRoute<H> {
    pub attr: ResolvedToolAttribute,
    pub handler: H,
}

/// The tools a server offers, each under its name once. A transparent router
/// lets calls of tools it does not route through to the service it wraps.
pub struct ToolRouter<H> {
    pub routes: AssocList<String, ToolRoute<H>>,
    pub transparent_when_not_found: bool,
}

impl<H> ToolRouter<H> {
    pub open spec fn wf(&self) -> bool {
        self.routes.wf()
    }

    /// The routes by tool name.
    pub open spec fn view(&self) -> Map<Seq<char>, ToolRoute<H>> {
        self.routes.view()
    }

    /// A router without routes, not transparent.
    pub fn new() -> (r: Self)
        ensures
            r.wf(),
            r@ == Map::<Seq<char>, ToolRoute<H>>::empty(),
            !r.transparent_when_not_found,
    {
        ToolRouter { routes: AssocList::new(), transparent_when_not_found: false }
    }

    /// Adds a route under its tool's name, replacing any route of that name.
    pub fn with_route(self, route: ToolRoute<H>) -> (r: Self)
        requires
            self.wf(),
        ensures
            r.wf(),
            r@ == self@.insert(route.attr.name@, route),
            r.transparent_when_not_found == self.transparent_when_not_found,
    {
        let mut routes = self.routes;
        let name = route.attr.name.clone();
        routes.insert(name, route);
        ToolRouter { routes, transparent_when_not_found: self.transparent_when_not_found }
    }

    /// Adds every route of `other`, in its order; a route of `other` replaces
    /// one of the same name.
    pub fn merge(self, other: Self) -> (r: Self)
        requires
            self.wf(),
            other.wf(),
        ensures
            r.wf(),
            r@ == self@.union_prefer_right(other@),
            r.transparent_when_not_found == self.transparent_when_not_found,
    {
        let mut router = self;
        let mut rest = other.routes.entries;
        let ghost s = rest@;
        let ghost start = router@;
        let ghost mut i: int = 0;
        proof {
            assert(s.take(0) =~= Seq::<(String, ToolRoute<H>)>::empty());
            assert(crate::assoc::assoc_view(s.take(0)) =~= Map::<Seq<char>, ToolRoute<H>>::empty());
            assert(start.union_prefer_right(Map::<Seq<char>, ToolRoute<H>>::empty()) =~= start);
        }
        while rest.len() > 0
            invariant
                router.wf(),
                router.transparent_when_not_found == self.transparent_when_not_found,
                crate::assoc::unique_keys(s),
                s == other.routes.entries@,
                0 <= i <= s.len(),
                rest@ == s.skip(i),
                router@ == start.union_prefer_right(crate::assoc::assoc_view(s.take(i))),
            decreases rest@.len(),
        {
            let (k, v) = rest.remove(0);
            proof {
                assert(s[i] == (k, v));
                assert(s.take(i + 1) =~= s.take(i).push((k, v)));
                crate::assoc::lemma_assoc_push(s.take(i), (k, v));
                assert(rest@ =~= s.skip(i + 1));
                assert(start.union_prefer_right(crate::assoc::assoc_view(s.take(i))).insert(k@, v)
                    =~= start.union_prefer_right(crate::assoc::assoc_view(s.take(i)).insert(k@, v)));
                i = i + 1;
            }
            router.routes.insert(k, v);
        }
        proof {
            assert(s.take(i) =~= s);
        }
        router
    }

    /// Whether a tool of this name is routed.
    pub fn has_route(&self, name: &str) -> (r: bool)
        requires
            self.wf(),
        ensures
            r == self@.contains_key(name@),
    {
        let k = name.to_owned();
        self.routes.contains_key(&k)
    }

    /// The routed tools' attributes, one per route.
    pub fn list_all(&self) -> (r: Vec<&ResolvedToolAttribute>)
        ensures
            r@.len() == self.routes.entries@.len(),
            forall|i: int| 0 <= i < r@.len() ==> *r@[i] == self.routes.entries@[i].1.attr,
    {
        let mut out: Vec<&ResolvedToolAttribute> = Vec::new();
        let n = self.routes.entries.len();
        for i in 0..n
            invariant
                n == self.routes.entries@.len(),
                out@.len() == i,
                forall|j: int| 0 <= j < i ==> *out@[j] == self.routes.entries@[j].1.attr,
        {
            out.push(&self.routes.entries[i].1.attr);
        }
        out
    }
}

} // verus!
