use vstd::prelude::*;

use crate::config::SanityConfig;
use crate::error::RequestError;
use crate::url::{
    lemma_standard_parts_wf, spec_base_url_parts, spec_encode_query, spec_groq_query,
    spec_query_prefix, spec_wf_host_part, spec_wf_path_part, SanityURL, Url,
};

verus! {

/// The HTTP client type of the reqwest crate, carried opaquely: nothing
/// inside it is read by verified code.
#[verifier::external_type_specification]
#[verifier::external_body]
pub struct ExReqwestClient(reqwest::Client);

/// Relies on reqwest's `Client::new`: builds an HTTP client handle with
/// default settings. Nothing is claimed of the handle. reqwest documents
/// that the call panics when no TLS backend or system resolver can be set
/// up; the configuration used here asks for neither.
pub assume_specification[ reqwest::Client::new ]() -> reqwest::Client;

/// What a client sends: the endpoint URL, an optional raw GROQ body kept
/// for later sends, and the text of the last response.
pub struct RequestPayload {
    /// Root url without the query body
    pub query: Url,
    /// Groq body
    pub body: Option<String>,
    pub query_result: Option<String>,
}

impl Default for RequestPayload {
    /// An empty payload against the live API host.
    fn default() -> (r: RequestPayload)
        ensures
            r.query.base@ == "https://api.sanity.io"@,
            r.query.serialized@ == "https://api.sanity.io"@,
            r.body is None,
            r.query_result is None,
    {
        RequestPayload {
            query: Url {
                base: "https://api.sanity.io".to_owned(),
                serialized: "https://api.sanity.io".to_owned(),
            },
            body: None,
            query_result: None,
        }
    }
}

impl RequestPayload {
    /// Stores `body` as the query body for later sends.
    pub fn set_body(&mut self, body: &str) -> (r: &RequestPayload)
        ensures
            final(self).body is Some && final(self).body->0@ == body@,
            final(self).query == old(self).query,
            final(self).query_result == old(self).query_result,
            *r == *final(self),
    {
        self.body = Some(body.to_owned());
        self
    }
}

/// The host name the client queries: the CDN host when the configuration
/// asks for the CDN, the live API host otherwise. A configured `api_host`
/// is overridden by this choice.
pub open spec fn spec_client_host(config: SanityConfig) -> Seq<char> {
    if config.use_cdn {
        "apicdn.sanity.io"@
    } else {
        "api.sanity.io"@
    }
}

/// A configuration yields a client exactly when its project id is
/// non-empty authority text and its dataset is path text.
pub open spec fn spec_client_ok(config: SanityConfig) -> bool {
    spec_wf_host_part(config.project_id@) && spec_wf_path_part(config.dataset@)
}

/// The endpoint URL text a configuration yields.
pub open spec fn spec_client_base(config: SanityConfig) -> Seq<char> {
    spec_base_url_parts(
        config.project_id@,
        spec_client_host(config),
        "v2022-03-07"@,
        config.dataset@,
    )
}

/// The query string sent by `get_by_id`: a GROQ filter on `_id`.
pub open spec fn spec_id_query(id: Seq<char>) -> Seq<char> {
    "*[_id == '"@ + id + "']"@
}

/// A configured client: the endpoint URL derived from the configuration,
/// and an HTTP handle. Verified code prepares the URL and payload; the
/// sending itself is unverified transport.
pub struct SanityClient {
    pub config: SanityConfig,
    pub client: reqwest::Client,
    pub payload: RequestPayload,
}

impl SanityClient {
    /// Builds a client whose payload URL is the endpoint for the
    /// configuration's project id, dataset and CDN choice. Fails exactly
    /// when the project id or the dataset cannot form a URL.
    pub fn new(config: SanityConfig) -> (r: Result<SanityClient, RequestError>)
        ensures
            r is Ok <==> spec_client_ok(config),
            r is Ok ==> {
                &&& r->Ok_0.config == config
                &&& r->Ok_0.payload.query.base@ == spec_client_base(config)
                &&& r->Ok_0.payload.query.serialized@ == spec_client_base(config)
                &&& r->Ok_0.payload.body is None
                &&& r->Ok_0.payload.query_result is None
            },
            r is Err ==> r->Err_0 is URLParsingError,
    {
        proof {
            lemma_standard_parts_wf();
        }
        let host_name = match &config.api_host {
            Some(host) => host.clone(),
            None => "api.sanity.io".to_owned(),
        };
        let url = SanityURL::new().host(host_name).use_cdn(config.use_cdn).project_id(
            &config.project_id,
        ).dataset(&config.dataset).build();
        match url {
            Ok(url) => {
                let mut payload = RequestPayload::default();
                payload.query = url;
                Ok(SanityClient { config, client: reqwest::Client::new(), payload })
            },
            Err(e) => Err(RequestError::URLParsingError(e)),
        }
    }

    /// Stores `body` as the query body for later sends.
    pub fn body(&mut self, body: &str) -> (r: &mut SanityClient)
        ensures
            (*r).payload.body is Some && (*r).payload.body->0@ == body@,
            (*r).payload.query == old(self).payload.query,
            (*r).payload.query_result == old(self).payload.query_result,
            (*r).config == old(self).config,
            *final(self) == *final(r),
    {
        self.payload.set_body(body);
        self
    }

    /// Installs the GROQ query that selects one document by its `_id` on
    /// the payload URL, normalized and percent-encoded.
    pub fn get_by_id(&mut self, id: &str) -> (r: &mut SanityClient)
        ensures
            (*r).config == old(self).config,
            (*r).payload.body == old(self).payload.body,
            (*r).payload.query_result == old(self).payload.query_result,
            (*r).payload.query.base == old(self).payload.query.base,
            match spec_groq_query(vstd::utf8::encode_utf8(spec_id_query(id@))) {
                Some(nq) => (*r).payload.query.serialized@ == old(self).payload.query.base@ + "?"@
                    + spec_encode_query(spec_query_prefix() + nq),
                None => (*r).payload.query.serialized@ == old(self).payload.query.base@,
            },
            *final(self) == *final(r),
    {
        let mut s = String::new();
        s.append("*[_id == '");
        s.append(id);
        s.append("']");
        proof {
            assert(s@ =~= spec_id_query(id@));
        }
        SanityURL::query(&mut self.payload.query, s.as_str());
        self
    }
}

} // verus!
