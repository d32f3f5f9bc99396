//! What a client of a node keeps on its own side: the pricing of a session,
//! the counter of its request ids and the configuration of its event
//! listener.

use vstd::prelude::*;
use crate::node_address::{normalize_node_address, spec_normalize, spec_trim, trim_text};

verus! {

/// How a session transaction is paid for.
#[derive(Debug, Clone, Copy, PartialEq, Eq, Structural)]
pub struct SessionPricing {
    pub payment_amount: u64,
    pub gas_price_tolerance: u8,
    pub standard_payment: bool,
}

impl Default for SessionPricing {
    fn default() -> (r: SessionPricing)
        ensures
            r == (SessionPricing {
                payment_amount: 750_000_000_000,
                gas_price_tolerance: 1,
                standard_payment: true,
            }),
    {
        SessionPricing {
            payment_amount: 750_000_000_000,
            gas_price_tolerance: 1,
            standard_payment: true,
        }
    }
}

/// The counter from which the ids of requests are taken, one after the
/// other.
#[derive(Debug, Clone, Copy, PartialEq, Eq, Structural)]
pub struct RequestCounter {
    pub next: u16,
}

impl RequestCounter {
    /// A counter that starts at zero.
    pub fn new() -> (r: RequestCounter)
        ensures
            r.next == 0,
    {
        RequestCounter { next: 0 }
    }

    /// Hands out the next id. After the highest id the counter starts over
    /// at zero.
    pub fn next_id(&mut self) -> (r: u16)
        ensures
            r == old(self).next,
            final(self).next == (if old(self).next == u16::MAX {
                0u16
            } else {
                (old(self).next + 1) as u16
            }),
    {
        let id = self.next;
        self.next = if id == u16::MAX {
            0
        } else {
            id + 1
        };
        id
    }
}

/// Sets the counter of request ids: the next request gets the id `id`,
/// and the ones after it follow in order.
pub fn initialize_request_id(counter: &mut RequestCounter, id: u16)
    ensures
        final(counter).next == id,
{
    counter.next = id;
}

/// Why a listener cannot be configured.
#[derive(Debug, Clone, Copy, PartialEq, Eq, Structural)]
pub enum ListenerConfigError {
    MissingEndpoint,
}

impl ListenerConfigError {
    /// The error in words.
    pub fn message(&self) -> (r: String)
        ensures
            r@ == "missing SSE endpoint URL"@,
    {
        "missing SSE endpoint URL".to_owned()
    }
}

/// What a listener configuration holds, seen from a contract.
pub struct ListenerConfigView {
    pub endpoint: Seq<char>,
    pub timestamp_path: Option<Seq<char>>,
}

/// The configuration of an event listener.
#[derive(Clone, Debug)]
pub struct ListenerConfig {
    endpoint: String,
    timestamp_path: Option<String>,
}

/// The view of an optional text.
pub open spec fn text_view(t: Option<String>) -> Option<Seq<char>> {
    match t {
        Some(s) => Some(s@),
        None => None,
    }
}

impl View for ListenerConfig {
    type V = ListenerConfigView;

    closed spec fn view(&self) -> ListenerConfigView {
        ListenerConfigView {
            endpoint: self.endpoint@,
            timestamp_path: text_view(self.timestamp_path),
        }
    }
}

impl ListenerConfig {
    /// A builder with nothing set.
    pub fn builder() -> (r: ListenerConfigBuilder)
        ensures
            r@ == (ListenerConfigBuilderView { endpoint: None, timestamp_path: None }),
    {
        ListenerConfigBuilder::new()
    }

    /// The address of the event stream.
    pub fn endpoint(&self) -> (r: &str)
        ensures
            r@ == self@.endpoint,
    {
        self.endpoint.as_str()
    }

    /// The path of the file that keeps the time of the last event, if one
    /// was set.
    pub fn timestamp_path(&self) -> (r: Option<&str>)
        ensures
            r is Some <==> self@.timestamp_path is Some,
            r is Some ==> r.unwrap()@ == self@.timestamp_path.unwrap(),
    {
        match &self.timestamp_path {
            Some(p) => Some(p.as_str()),
            None => None,
        }
    }
}

/// What a builder holds, seen from a contract.
pub struct ListenerConfigBuilderView {
    pub endpoint: Option<Seq<char>>,
    pub timestamp_path: Option<Seq<char>>,
}

/// Builds a listener configuration.
#[derive(Debug)]
pub struct ListenerConfigBuilder {
    endpoint: Option<String>,
    timestamp_path: Option<String>,
}

impl View for ListenerConfigBuilder {
    type V = ListenerConfigBuilderView;

    closed spec fn view(&self) -> ListenerConfigBuilderView {
        ListenerConfigBuilderView {
            endpoint: text_view(self.endpoint),
            timestamp_path: text_view(self.timestamp_path),
        }
    }
}

/// The endpoint that a builder's endpoint stands for: the text without
/// white space around it, where anything is left of it.
pub open spec fn spec_endpoint(endpoint: Option<Seq<char>>) -> Option<Seq<char>> {
    match endpoint {
        Some(e) => if spec_trim(e).len() == 0 {
            None
        } else {
            Some(spec_trim(e))
        },
        None => None,
    }
}

impl ListenerConfigBuilder {
    /// A builder with nothing set.
    pub fn new() -> (r: ListenerConfigBuilder)
        ensures
            r@ == (ListenerConfigBuilderView { endpoint: None, timestamp_path: None }),
    {
        ListenerConfigBuilder { endpoint: None, timestamp_path: None }
    }

    /// Sets the address of the event stream.
    pub fn with_endpoint(self, endpoint: &str) -> (r: ListenerConfigBuilder)
        ensures
            r@ == (ListenerConfigBuilderView { endpoint: Some(endpoint@), ..self@ }),
    {
        let mut b = self;
        b.endpoint = Some(endpoint.to_owned());
        b
    }

    /// Sets the path of the file that keeps the time of the last event.
    pub fn with_timestamp_path(self, path: &str) -> (r: ListenerConfigBuilder)
        ensures
            r@ == (ListenerConfigBuilderView { timestamp_path: Some(path@), ..self@ }),
    {
        let mut b = self;
        b.timestamp_path = Some(path.to_owned());
        b
    }

    /// The configuration that was described, or the error of a missing
    /// endpoint where none was set or the one that was set is blank.
    pub fn build(self) -> (r: Result<ListenerConfig, ListenerConfigError>)
        ensures
            r is Ok <==> spec_endpoint(self@.endpoint) is Some,
            r is Ok ==> r.unwrap()@ == (ListenerConfigView {
                endpoint: spec_endpoint(self@.endpoint).unwrap(),
                timestamp_path: self@.timestamp_path,
            }),
            r is Err ==> r == Err::<ListenerConfig, ListenerConfigError>(
                ListenerConfigError::MissingEndpoint,
            ),
    {
        let endpoint = match self.endpoint {
            Some(value) => trim_text(value.as_str()),
            None => {
                return Err(ListenerConfigError::MissingEndpoint);
            },
        };
        if endpoint.as_str().is_empty() {
            return Err(ListenerConfigError::MissingEndpoint);
        }
        Ok(ListenerConfig { endpoint, timestamp_path: self.timestamp_path })
    }
}

/// Why a node client cannot do what it was asked to.
#[derive(Debug, Clone, Copy, PartialEq, Eq, Structural)]
pub enum CasperClientError {
    MissingRpcEndpoints,
    BalanceOverflow,
    MissingStateRootHash,
    MissingNetworkName,
}

impl CasperClientError {
    /// The error in words.
    pub fn message(&self) -> (r: String)
        ensures
            r@ == (match self {
                CasperClientError::MissingRpcEndpoints => "no RPC endpoints configured"@,
                CasperClientError::BalanceOverflow => "balance value exceeds u64 range"@,
                CasperClientError::MissingStateRootHash => "missing state root hash in response"@,
                CasperClientError::MissingNetworkName => "missing network name in chainspec"@,
            }),
    {
        match self {
            CasperClientError::MissingRpcEndpoints => "no RPC endpoints configured".to_owned(),
            CasperClientError::BalanceOverflow => "balance value exceeds u64 range".to_owned(),
            CasperClientError::MissingStateRootHash => "missing state root hash in response".to_owned(),
            CasperClientError::MissingNetworkName => "missing network name in chainspec".to_owned(),
        }
    }
}

/// The views of a sequence of texts.
pub open spec fn text_views(s: Seq<String>) -> Seq<Seq<char>> {
    s.map_values(|t: String| t@)
}

/// The plain forms of the addresses that have one, in their order.
pub open spec fn spec_normalized(endpoints: Seq<Seq<char>>) -> Seq<Seq<char>>
    decreases endpoints.len(),
{
    if endpoints.len() == 0 {
        Seq::empty()
    } else {
        let front = spec_normalized(endpoints.drop_last());
        match spec_normalize(endpoints.last()) {
            Some(plain) => front.push(plain),
            None => front,
        }
    }
}

/// What a node client holds, seen from a contract.
pub struct CasperClientView {
    pub network_name: Seq<char>,
    pub rpc_endpoints: Seq<Seq<char>>,
}

/// A client of a node: the name of the network and the addresses of the
/// nodes that it asks, the first one first.
#[derive(Debug)]
pub struct CasperClient {
    network_name: String,
    rpc_endpoints: Vec<String>,
}

impl View for CasperClient {
    type V = CasperClientView;

    closed spec fn view(&self) -> CasperClientView {
        CasperClientView {
            network_name: self.network_name@,
            rpc_endpoints: text_views(self.rpc_endpoints@),
        }
    }
}

impl CasperClient {
    /// A client has at least one address to ask.
    #[verifier::type_invariant]
    pub open spec fn inv(&self) -> bool {
        self@.rpc_endpoints.len() > 0
    }

    /// A client for the network `network_name` that asks the nodes at
    /// `rpc_endpoints`, each in its plain form. Addresses without a plain
    /// form are left out; where none is left, there is no client.
    pub fn new(network_name: &str, rpc_endpoints: &Vec<String>) -> (r: Result<
        CasperClient,
        CasperClientError,
    >)
        ensures
            r is Ok <==> spec_normalized(text_views(rpc_endpoints@)).len() > 0,
            r is Ok ==> r.unwrap()@ == (CasperClientView {
                network_name: network_name@,
                rpc_endpoints: spec_normalized(text_views(rpc_endpoints@)),
            }),
            r is Err ==> r == Err::<CasperClient, CasperClientError>(
                CasperClientError::MissingRpcEndpoints,
            ),
    {
        let mut endpoints: Vec<String> = Vec::new();
        let mut i: usize = 0;
        while i < rpc_endpoints.len()
            invariant
                i <= rpc_endpoints.len(),
                text_views(endpoints@) == spec_normalized(text_views(rpc_endpoints@).take(i as int)),
            decreases rpc_endpoints.len() - i,
        {
            let ghost before = endpoints@;
            proof {
                let all = text_views(rpc_endpoints@);
                assert(all.take(i + 1).drop_last() == all.take(i as int));
                assert(all.take(i + 1).last() == rpc_endpoints@[i as int]@);
            }
            match normalize_node_address(rpc_endpoints[i].as_str()) {
                Some(plain) => {
                    endpoints.push(plain);
                    assert(text_views(endpoints@) == text_views(before).push(plain@));
                },
                None => {},
            }
            i += 1;
        }
        proof {
            let all = text_views(rpc_endpoints@);
            assert(all.take(i as int) == all);
        }
        if endpoints.len() == 0 {
            return Err(CasperClientError::MissingRpcEndpoints);
        }
        Ok(CasperClient { network_name: network_name.to_owned(), rpc_endpoints: endpoints })
    }

    /// The address of the node that is asked first.
    pub fn rpc_endpoint(&self) -> (r: &str)
        ensures
            self@.rpc_endpoints.len() > 0,
            r@ == self@.rpc_endpoints[0],
    {
        proof {
            use_type_invariant(self);
        }
        self.rpc_endpoints[0].as_str()
    }

    /// The name of the network.
    pub fn network_name(&self) -> (r: &str)
        ensures
            r@ == self@.network_name,
    {
        self.network_name.as_str()
    }
}

} // verus!
