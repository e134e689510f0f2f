//! A running server: what it serves, how updates change that, and what it answers.

use crate::apps::App;
use crate::headers::copy_headers;
use crate::operation::compile_operations;
use crate::operation::compiles_to;
use crate::operation::copy_raw_operations;
use crate::operation::raw_operations;
use crate::operation::Operation;
use crate::operation::OperationSettings;
use crate::operation::RawOperation;
use crate::platform::Platform;
use crate::schema::ApiSchema;
use crate::server_info::offers;
use crate::server_info::presents;
use crate::server_info::server_info;
use crate::server_info::ServerInfo;
use crate::server_info::ServerInfoConfig;
use reqwest::header::HeaderMap;
use reqwest::header::HeaderValue;
use rmcp::model::Tool;
use url::Url;
use vstd::prelude::*;

verus! {

/// `url::Url`: a URL.
#[verifier::external_type_specification]
#[verifier::external_body]
pub struct ExUrl(url::Url);

/// A running server.
pub struct Running<P: Platform> {
    pub schema: ApiSchema,
    pub operations: Vec<Operation>,
    pub operation_settings: OperationSettings<P>,
    pub apps: Vec<App<P>>,
    pub headers: HeaderMap<HeaderValue>,
    pub forward_headers: P::ForwardHeaders,
    pub endpoint: Url,
    pub execute_tool: Option<Tool>,
    pub introspect_tool: Option<Tool>,
    pub search_tool: Option<Tool>,
    pub explorer_tool: Option<Tool>,
    pub validate_tool: Option<Tool>,
    pub peers: Vec<P::Peer>,
    pub cancellation_token: P::CancellationToken,
    pub disable_auth_token_passthrough: bool,
    pub header_transform: Option<P::HeaderTransform>,
    pub health_check: Option<P::HealthCheck>,
    pub server_info: ServerInfoConfig,
}

/// What came of telling a client that the list of tools has changed.
pub enum PeerReport {
    /// The transport was closed, so nothing was sent.
    Closed,
    /// The client was told.
    Notified,
    /// Sending failed in the transport.
    TransportSend,
    /// The transport was closed while sending.
    TransportClosed,
    /// Sending failed for another reason.
    OtherError,
}

impl PeerReport {
    /// Whether the client can still be reached.
    pub open spec fn reachable(self) -> bool {
        self is Notified || self is OtherError
    }

    /// Tells whether the client can still be reached.
    pub fn is_reachable(&self) -> (r: bool)
        ensures
            r == self.reachable(),
    {
        match self {
            PeerReport::Notified => true,
            PeerReport::OtherError => true,
            PeerReport::Closed => false,
            PeerReport::TransportSend => false,
            PeerReport::TransportClosed => false,
        }
    }
}

/// A round of telling the clients, one after another, that the list of tools has changed.
pub struct NotifyRound {
    /// What came of it for the clients that were dealt with so far, in order.
    pub reports: Vec<PeerReport>,
}

impl NotifyRound {
    /// Whether dealing with the next client takes the round to another, given whether the transport
    /// of the client was closed and, where it was not, what came of telling the client.
    pub open spec fn moves(self, closed: bool, outcome: PeerReport, next: NotifyRound) -> bool {
        next.reports@ == self.reports@.push(
            if closed {
                PeerReport::Closed
            } else {
                outcome
            },
        )
    }

    /// The place of the client that is to be dealt with next, where one is left.
    pub open spec fn next_client(self, count: nat) -> Option<int> {
        if self.reports@.len() < count {
            Some(self.reports@.len() as int)
        } else {
            None
        }
    }

    /// Begins a round.
    pub fn begin() -> (r: NotifyRound)
        ensures
            r.reports@.len() == 0,
    {
        NotifyRound { reports: Vec::new() }
    }

    /// Gives the place of the client that is to be dealt with next, out of a number of clients.
    pub fn next(&self, count: usize) -> (r: Option<usize>)
        ensures
            match r {
                Some(place) => self.next_client(count as nat) == Some(place as int),
                None => self.next_client(count as nat) is None,
            },
    {
        if self.reports.len() < count {
            Some(self.reports.len())
        } else {
            None
        }
    }

    /// Decides whether the next client is to be told. One whose transport is closed is not, and is
    /// thereby dealt with.
    pub fn tells(&mut self, closed: bool) -> (r: bool)
        ensures
            r == !closed,
            closed ==> old(self).moves(true, PeerReport::Closed, *final(self)),
            !closed ==> *final(self) == *old(self),
    {
        if closed {
            self.reports.push(PeerReport::Closed);
        }
        !closed
    }

    /// Notes what came of telling the next client.
    pub fn told(&mut self, outcome: PeerReport)
        ensures
            old(self).moves(false, outcome, *final(self)),
    {
        self.reports.push(outcome);
    }
}

/// The clients that can still be reached, in order, given a report on each client.
pub open spec fn reachable_peers<T>(peers: Seq<T>, reports: Seq<PeerReport>) -> Seq<T>
    decreases peers.len(),
{
    if peers.len() == 0 {
        Seq::empty()
    } else {
        let before = reachable_peers(peers.drop_last(), reports.drop_last());
        if reports.last().reachable() {
            before.push(peers.last())
        } else {
            before
        }
    }
}

/// Keeps the clients that can still be reached, given a report on each client.
pub fn retain_peers<T>(peers: Vec<T>, reports: &Vec<PeerReport>) -> (r: Vec<T>)
    requires
        reports@.len() == peers@.len(),
    ensures
        r@ == reachable_peers(peers@, reports@),
{
    let count: usize = reports.len();
    let mut retained: Vec<T> = Vec::new();
    let mut i: usize = 0;
    for peer in iter: peers
        invariant
            iter.seq() == peers@,
            reports@.len() == peers@.len(),
            count == peers@.len(),
            i == iter.index(),
            retained@ == reachable_peers(peers@.take(i as int), reports@.take(i as int)),
    {
        proof {
            assert(peers@.take(i + 1).drop_last() =~= peers@.take(i as int));
            assert(reports@.take(i + 1).drop_last() =~= reports@.take(i as int));
        }
        if reports[i].is_reachable() {
            retained.push(peer);
        }
        i = i + 1;
    }
    proof {
        assert(peers@.take(i as int) =~= peers@);
        assert(reports@.take(i as int) =~= reports@);
    }
    retained
}

impl<P: Platform> Running<P> {
    /// Whether nothing but the schema and the operations differs.
    pub open spec fn serves_as(self, other: Self) -> bool {
        self == (Running { schema: self.schema, operations: self.operations, ..other })
    }

    /// Gives a running server a new schema. The operations become tools anew, since a tool's
    /// input schema and description come from the schema.
    pub fn update_schema<E, F>(&mut self, schema: ApiSchema, compile: F) where
        F: Fn(RawOperation, &ApiSchema, &OperationSettings<P>) -> Result<Option<Operation>, E>,

        requires
            forall|args| #[trigger] call_requires(compile, args),
        ensures
            final(self).schema == schema,
            compiles_to(
                compile,
                raw_operations(old(self).operations@),
                schema,
                old(self).operation_settings,
                final(self).operations@,
            ),
            final(self).serves_as(*old(self)),
    {
        let raw = copy_raw_operations(&self.operations);
        self.operations = compile_operations(raw, &schema, &self.operation_settings, compile);
        self.schema = schema;
    }

    /// Gives a running server new operations, which replace those it had.
    pub fn update_operations<E, F>(&mut self, operations: Vec<RawOperation>, compile: F) where
        F: Fn(RawOperation, &ApiSchema, &OperationSettings<P>) -> Result<Option<Operation>, E>,

        requires
            forall|args| #[trigger] call_requires(compile, args),
        ensures
            final(self).schema == old(self).schema,
            compiles_to(
                compile,
                operations@,
                old(self).schema,
                old(self).operation_settings,
                final(self).operations@,
            ),
            final(self).serves_as(*old(self)),
    {
        self.operations =
        compile_operations(operations, &self.schema, &self.operation_settings, compile);
    }

    /// Whether a round of telling the clients, given its reports, leaves this server: nothing but
    /// the clients differs, and those that can still be reached stay.
    pub open spec fn drops_unreachable(self, reports: Seq<PeerReport>, after: Self) -> bool {
        &&& after.peers@ == reachable_peers(self.peers@, reports)
        &&& after == (Running { peers: after.peers, ..self })
    }

    /// Ends a round of telling the clients that the list of tools has changed, given a report on
    /// each client: clients that cannot be reached any more are dropped.
    pub fn notify_tool_list_changed(&mut self, reports: &Vec<PeerReport>)
        requires
            reports@.len() == old(self).peers@.len(),
        ensures
            old(self).drops_unreachable(reports@, *final(self)),
    {
        let mut peers: Vec<P::Peer> = Vec::new();
        std::mem::swap(&mut peers, &mut self.peers);
        self.peers = retain_peers(peers, reports);
    }

    /// Whether welcoming a client leaves this server: nothing but the clients differs, and the new
    /// one is the last of them.
    pub open spec fn welcomes(self, peer: P::Peer, after: Self) -> bool {
        &&& after.peers@ == self.peers@.push(peer)
        &&& after == (Running { peers: after.peers, ..self })
    }

    /// Welcomes a new client, which from then on is told when the list of tools changes.
    pub fn initialize(&mut self, peer: P::Peer) -> (r: ServerInfo)
        ensures
            old(self).welcomes(peer, *final(self)),
            old(self).is_described_by(r),
    {
        self.peers.push(peer);
        self.get_info()
    }

    /// Whether this is what the server tells a client of itself.
    pub open spec fn is_described_by(self, info: ServerInfo) -> bool {
        &&& presents(self.server_info, info.server_info)
        &&& offers(self.apps@.len() > 0, info.capabilities)
    }

    /// What the server tells a client of itself.
    pub fn get_info(&self) -> (r: ServerInfo)
        ensures
            self.is_described_by(r),
    {
        server_info(&self.server_info, self.apps.len() > 0)
    }

    /// Whether these are the headers for an outgoing request. Where a client's HTTP request led to
    /// it, they are built from the configured headers and that request; otherwise they are the
    /// configured headers, changed by the transform where there is one.
    pub open spec fn sends_headers<B, T>(
        self,
        request: Option<&P::RequestParts>,
        build: B,
        transform: T,
        headers: HeaderMap<HeaderValue>,
    ) -> bool where
        B: Fn(
            &HeaderMap<HeaderValue>,
            &P::ForwardHeaders,
            &P::RequestParts,
            bool,
            Option<&P::HeaderTransform>,
        ) -> HeaderMap<HeaderValue>,
        T: Fn(&P::HeaderTransform, HeaderMap<HeaderValue>) -> HeaderMap<HeaderValue>,
     {
        match request {
            Some(parts) => call_ensures(
                build,
                (
                    &self.headers,
                    &self.forward_headers,
                    parts,
                    self.disable_auth_token_passthrough,
                    by_ref(self.header_transform),
                ),
                headers,
            ),
            None => match self.header_transform {
                Some(change) => call_ensures(transform, (&change, self.headers), headers),
                None => headers == self.headers,
            },
        }
    }

    /// Assembles the headers for an outgoing request.
    pub fn request_headers<B, T>(
        &self,
        request: Option<&P::RequestParts>,
        build: B,
        transform: T,
    ) -> (r: HeaderMap<HeaderValue>) where
        B: Fn(
            &HeaderMap<HeaderValue>,
            &P::ForwardHeaders,
            &P::RequestParts,
            bool,
            Option<&P::HeaderTransform>,
        ) -> HeaderMap<HeaderValue>,
        T: Fn(&P::HeaderTransform, HeaderMap<HeaderValue>) -> HeaderMap<HeaderValue>,

        requires
            forall|args| #[trigger] call_requires(build, args),
            forall|args| #[trigger] call_requires(transform, args),
        ensures
            self.sends_headers(request, build, transform, r),
    {
        match request {
            Some(parts) => build(
                &self.headers,
                &self.forward_headers,
                parts,
                self.disable_auth_token_passthrough,
                self.header_transform.as_ref(),
            ),
            None => {
                let configured = copy_headers(&self.headers);
                match &self.header_transform {
                    Some(change) => transform(change, configured),
                    None => configured,
                }
            },
        }
    }
}

/// An optional value, by reference.
pub open spec fn by_ref<T>(value: Option<T>) -> Option<&'static T> {
    match value {
        Some(value) => Some(&value),
        None => None,
    }
}

} // verus!
