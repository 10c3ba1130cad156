use vstd::prelude::*;

verus! {

/// Which view of the content a client reads: published documents only,
/// drafts, or the live view.
pub enum ClientPerspective {
    Raw,
    Draft,
    Live,
}

/// Client configuration. Only the project id and the dataset are required;
/// everything else starts from the defaults of `new`.
pub struct SanityConfig {
    pub project_id: String,
    pub dataset: String,
    pub use_cdn: bool,
    pub token: Option<String>,
    pub perspective: ClientPerspective,
    pub api_host: Option<String>,
    pub api_version: Option<String>,
    pub proxy: Option<String>,
    pub request_tag_prefix: Option<String>,
    pub ignore_browser_token_warning: bool,
    pub with_credentials: bool,
    pub timeout: Option<u64>,
    pub max_retries: Option<u64>,
    pub use_project_hostname: bool,
}

impl SanityConfig {
    /// A configuration for `project_id` and `dataset` with every optional
    /// setting at its default: live API host, raw perspective, no token.
    pub fn new(project_id: String, dataset: String) -> (r: SanityConfig)
        ensures
            r == (SanityConfig {
                project_id: project_id,
                dataset: dataset,
                use_cdn: false,
                token: None,
                perspective: ClientPerspective::Raw,
                api_host: None,
                api_version: None,
                proxy: None,
                request_tag_prefix: None,
                ignore_browser_token_warning: false,
                with_credentials: false,
                timeout: None,
                max_retries: None,
                use_project_hostname: false,
            }),
    {
        SanityConfig {
            project_id,
            dataset,
            use_cdn: false,
            token: None,
            perspective: ClientPerspective::Raw,
            api_host: None,
            api_version: None,
            proxy: None,
            request_tag_prefix: None,
            ignore_browser_token_warning: false,
            with_credentials: false,
            timeout: None,
            max_retries: None,
            use_project_hostname: false,
        }
    }
}

} // verus!
