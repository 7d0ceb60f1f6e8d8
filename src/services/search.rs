use vstd::prelude::*;

use crate::services::query::{query_for, query_json};
use crate::views::logs::{LogResponse, LogResponseModel, LogsQueryParameters, Message, MessageModel};

verus! {

#[verifier::external_type_specification]
#[verifier::external_body]
pub struct ExElasticsearch(elasticsearch::Elasticsearch);

#[verifier::external_type_specification]
#[verifier::external_body]
pub struct ExTransport(elasticsearch::http::transport::Transport);

#[verifier::external_type_specification]
#[verifier::external_body]
pub struct ExEsError(elasticsearch::Error);

/// Relies on Transport::single_node: a transport to the one node at the
/// address, or the error met while parsing it or building the HTTP client.
pub assume_specification[ elasticsearch::http::transport::Transport::single_node ](url: &str) -> (r: Result<
    elasticsearch::http::transport::Transport,
    elasticsearch::Error,
>);

/// Relies on Elasticsearch::new: a client that sends over the transport.
pub assume_specification[ elasticsearch::Elasticsearch::new ](
    transport: elasticsearch::http::transport::Transport,
) -> (r: elasticsearch::Elasticsearch);

/// The body of one hit as the backend stores it.
#[derive(Clone, Debug)]
pub struct EsSource {
    pub message: String,
    pub host: String,
    pub timestamp: String,
}

/// One hit: the document's identifier, the index it lives in, and its body.
#[derive(Clone, Debug)]
pub struct EsHit {
    pub id: String,
    pub index: String,
    pub source: EsSource,
}

/// The number of documents that matched, and how exact that number is.
#[derive(Clone, Debug)]
pub struct EsHitsTotal {
    pub value: u64,
    pub relation: String,
}

/// The hits of a search, in the backend's order, with the total.
#[derive(Clone, Debug)]
pub struct EsHits {
    pub hits: Vec<EsHit>,
    pub total: EsHitsTotal,
}

/// The part of a search response that the log search reads.
#[derive(Clone, Debug)]
pub struct EsResponse {
    pub hits: EsHits,
}

/// Why the backend could not serve a search or a health check.
#[derive(Clone, Debug)]
pub enum BackendFailure {
    /// The backend answered with this status, which is not a success.
    Status(u16),
    /// The request or the reading of the answer failed; the text says how.
    Transport(String),
}

/// A client of the backend, made once and shared by every request.
pub struct ElasticsearchService {
    client: elasticsearch::Elasticsearch,
}

/// An HTTP status in the 2xx range.
pub open spec fn is_success_status(status: u16) -> bool {
    200 <= status && status < 300
}

impl EsHit {
    /// The log entry that a hit becomes: every field copied as it is.
    pub open spec fn message_model(self) -> MessageModel {
        MessageModel {
            message: self.source.message@,
            host: self.source.host@,
            index: self.index@,
            timestamp: self.source.timestamp@,
            id: self.id@,
        }
    }
}

impl EsResponse {
    /// The response reported to clients: one entry per hit, in the same
    /// order, and the backend's total.
    pub open spec fn log_model(self) -> LogResponseModel {
        LogResponseModel {
            messages: self.hits.hits@.map_values(|h: EsHit| h.message_model()),
            total: self.hits.total.value,
        }
    }
}

/// What a search yields for the backend's status and the parsed body (or the
/// text of the failure to read it).
pub open spec fn search_outcome_model(status: u16, body: Result<EsResponse, String>) -> Result<
    LogResponseModel,
    BackendFailure,
> {
    if !is_success_status(status) {
        Err(BackendFailure::Status(status))
    } else {
        match body {
            Ok(es) => Ok(es.log_model()),
            Err(e) => Err(BackendFailure::Transport(e)),
        }
    }
}

/// The content of a search result, or its failure.
pub open spec fn outcome_model(r: Result<LogResponse, BackendFailure>) -> Result<
    LogResponseModel,
    BackendFailure,
> {
    match r {
        Ok(resp) => Ok(resp@),
        Err(e) => Err(e),
    }
}

impl ElasticsearchService {
    /// Creates a client for the single node at `elasticsearch_url`, or the
    /// error met while parsing the address or building the client. Which of
    /// the two comes is the transport's decision.
    pub fn new(elasticsearch_url: &str) -> (r: Result<Self, elasticsearch::Error>) {
        match elasticsearch::http::transport::Transport::single_node(elasticsearch_url) {
            Ok(transport) => Ok(ElasticsearchService { client: elasticsearch::Elasticsearch::new(transport) }),
            Err(e) => Err(e),
        }
    }

    /// The client that this service sends through.
    pub closed spec fn client(&self) -> elasticsearch::Elasticsearch {
        self.client
    }

    /// The client through which requests are sent.
    pub fn es_client(&self) -> (r: &elasticsearch::Elasticsearch)
        ensures
            *r == self.client(),
    {
        &self.client
    }
}

/// The decision on a status that the backend answered with: success for
/// a 2xx status, else a failure that carries it.
pub fn check_status(status: u16) -> (r: Result<(), BackendFailure>)
    ensures
        r is Ok <==> is_success_status(status),
        !is_success_status(status) ==> r == Err::<(), BackendFailure>(BackendFailure::Status(status)),
{
    if 200 <= status && status < 300 {
        Ok(())
    } else {
        Err(BackendFailure::Status(status))
    }
}

/// The log entry for one hit.
pub fn message_from_hit(hit: &EsHit) -> (r: Message)
    ensures
        r@ == hit.message_model(),
{
    Message {
        message: hit.source.message.clone(),
        host: hit.source.host.clone(),
        index: hit.index.clone(),
        timestamp: hit.source.timestamp.clone(),
        id: hit.id.clone(),
    }
}

/// Maps a search response to the response reported to clients: each hit
/// becomes one entry, in the backend's order, and the total is kept.
pub fn map_response(es: &EsResponse) -> (r: LogResponse)
    ensures
        r@ == es.log_model(),
{
    let hits = &es.hits.hits;
    let mut messages: Vec<Message> = Vec::new();
    let mut i: usize = 0;
    while i < hits.len()
        invariant
            i <= hits@.len(),
            messages@.len() == i,
            forall|j: int| 0 <= j < i ==> #[trigger] messages@[j]@ == hits@[j].message_model(),
        decreases hits@.len() - i,
    {
        let m = message_from_hit(&hits[i]);
        messages.push(m);
        i = i + 1;
    }
    let r = LogResponse { messages, total: es.hits.total.value };
    assert(r@.messages =~= es.log_model().messages);
    r
}

/// Completes a search from the status the backend answered with and its
/// body: a non-success status is a failure whatever the body holds, and no
/// entry is returned with it; on success a body that could not be read is a
/// failure, and a read one is mapped whole.
pub fn search_outcome(status: u16, body: Result<EsResponse, String>) -> (r: Result<
    LogResponse,
    BackendFailure,
>)
    ensures
        outcome_model(r) == search_outcome_model(status, body),
{
    match check_status(status) {
        Err(e) => Err(e),
        Ok(()) => match body {
            Ok(es) => Ok(map_response(&es)),
            Err(diagnostic) => Err(BackendFailure::Transport(diagnostic)),
        },
    }
}

/// A search that the backend answers with a non-success status fails with
/// that status, whatever body came with it: no entry is returned.
pub proof fn lemma_failed_status_returns_nothing(status: u16, body: Result<EsResponse, String>)
    requires
        !is_success_status(status),
    ensures
        search_outcome_model(status, body) == Err::<LogResponseModel, BackendFailure>(
            BackendFailure::Status(status),
        ),
{
}

/// Repeating a search is harmless: the same parameters give, once their
/// defaults are applied, the same query document, and two searches that the
/// backend answers alike give the same result. Nothing of one search carries
/// over to the next.
pub proof fn lemma_search_repeatable(
    first: LogsQueryParameters,
    second: LogsQueryParameters,
    status: u16,
    body: Result<EsResponse, String>,
    first_result: Result<LogResponse, BackendFailure>,
    second_result: Result<LogResponse, BackendFailure>,
)
    requires
        first@ == second@,
        outcome_model(first_result) == search_outcome_model(status, body),
        outcome_model(second_result) == search_outcome_model(status, body),
    ensures
        query_for(first@.with_defaults()) == query_for(second@.with_defaults()),
        query_json(query_for(first@.with_defaults())) == query_json(
            query_for(second@.with_defaults()),
        ),
        outcome_model(first_result) == outcome_model(second_result),
{
}

} // verus!
