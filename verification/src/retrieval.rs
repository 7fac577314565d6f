//! Collateral retrieval: which service is asked, within what time, and what
//! is announced before the request goes out.
//!
//! The request itself is a network call and is made by the caller. This
//! module decides everything about it that can be decided beforehand.

use vstd::prelude::*;
use vstd::string::*;

verus! {

/// The name of the environment variable that selects the collateral service.
pub const SOURCE_VARIABLE: &'static str = "PCCS_URL";

/// Seconds after which a retrieval that has not answered has failed.
pub const RETRIEVAL_TIMEOUT_SECS: u64 = 60;

/// Where collateral is fetched from.
#[derive(Debug, PartialEq, Eq)]
pub enum CollateralSource {
    /// The public certification service.
    Default,
    /// A caching service at the given URL.
    Custom(String),
}

/// A `CollateralSource` in specifications.
pub ghost enum SourceView {
    Default,
    Custom(Seq<char>),
}

impl View for CollateralSource {
    type V = SourceView;

    open spec fn view(&self) -> SourceView {
        match self {
            CollateralSource::Default => SourceView::Default,
            CollateralSource::Custom(url) => SourceView::Custom(url@),
        }
    }
}

impl Clone for CollateralSource {
    fn clone(&self) -> (copy: CollateralSource)
        ensures
            copy@ == self@,
    {
        match self {
            CollateralSource::Default => CollateralSource::Default,
            CollateralSource::Custom(url) => CollateralSource::Custom(url.clone()),
        }
    }
}

/// The source that a configured value selects: a value that is absent or
/// empty selects the public service, any other value names the service.
pub open spec fn resolved_source(config: Option<Seq<char>>) -> SourceView {
    match config {
        None => SourceView::Default,
        Some(url) => if url.len() == 0 {
            SourceView::Default
        } else {
            SourceView::Custom(url)
        },
    }
}

/// The configured value as specifications see it.
pub open spec fn config_view(config: Option<String>) -> Option<Seq<char>> {
    match config {
        None => None,
        Some(url) => Some(url@),
    }
}

/// The line that announces a retrieval from `source`.
pub open spec fn status_text(source: SourceView) -> Seq<char> {
    match source {
        SourceView::Default => "Getting collateral from PCS..."@,
        SourceView::Custom(url) => "Getting collateral from "@ + url,
    }
}

/// Chooses the collateral source from the configured value, once per
/// invocation.
pub fn resolve_source(config: Option<String>) -> (source: CollateralSource)
    ensures
        source@ == resolved_source(config_view(config)),
        config is None ==> source@ == SourceView::Default,
        config matches Some(url) ==> (url@.len() == 0 ==> source@ == SourceView::Default),
        config matches Some(url) ==> (url@.len() > 0 ==> source@ == SourceView::Custom(url@)),
{
    match config {
        None => CollateralSource::Default,
        Some(url) => {
            if url.as_str().is_empty() {
                CollateralSource::Default
            } else {
                CollateralSource::Custom(url)
            }
        },
    }
}

/// The line written to the diagnostic stream before the request is issued.
pub fn status_line(source: &CollateralSource) -> (line: String)
    ensures
        line@ == status_text(source@),
{
    match source {
        CollateralSource::Default => "Getting collateral from PCS...".to_owned(),
        CollateralSource::Custom(url) => {
            "Getting collateral from ".to_owned().concat(url.as_str())
        },
    }
}

/// Everything the caller needs to fetch collateral for one quote.
#[derive(Debug, Clone, PartialEq, Eq)]
pub struct RetrievalRequest {
    /// The raw quote.
    pub quote: Vec<u8>,
    /// The service to ask.
    pub source: CollateralSource,
    /// Seconds to wait for the answer; there is no second attempt.
    pub timeout_secs: u64,
    /// The line to write to the diagnostic stream first.
    pub status_line: String,
}

/// A `RetrievalRequest` in specifications.
pub ghost struct RequestView {
    pub quote: Seq<u8>,
    pub source: SourceView,
    pub timeout_secs: u64,
    pub status_line: Seq<char>,
}

impl View for RetrievalRequest {
    type V = RequestView;

    open spec fn view(&self) -> RequestView {
        RequestView {
            quote: self.quote@,
            source: self.source@,
            timeout_secs: self.timeout_secs,
            status_line: self.status_line@,
        }
    }
}

/// The request for `quote` at `source`: the fixed timeout, and the status
/// line that names the source.
pub open spec fn request_for(quote: Seq<u8>, source: SourceView) -> RequestView {
    RequestView {
        quote,
        source,
        timeout_secs: RETRIEVAL_TIMEOUT_SECS,
        status_line: status_text(source),
    }
}

/// Builds the retrieval request for `quote` at `source`.
pub fn retrieval_request(quote: Vec<u8>, source: CollateralSource) -> (request: RetrievalRequest)
    ensures
        request@ == request_for(quote@, source@),
        request.timeout_secs == 60,
{
    let line = status_line(&source);
    RetrievalRequest { quote, source, timeout_secs: RETRIEVAL_TIMEOUT_SECS, status_line: line }
}

/// Every request carries the same timeout of sixty seconds, whichever
/// service it goes to.
pub proof fn theorem_timeout_is_fixed(quote: Seq<u8>, source: SourceView)
    ensures
        request_for(quote, source).timeout_secs == 60,
        request_for(quote, source).source == source,
        request_for(quote, source).quote == quote,
{
}

} // verus!
