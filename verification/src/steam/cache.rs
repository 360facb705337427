//! The store-page resolver: cache paths, page scraping, and the
//! age-gate workflow.
//!
//! The resolver owns the rules — which file caches which page, when a
//! page counts as gated, what the confirmation form says — while the
//! surrounding application performs the file reads and HTTP calls,
//! driven step by step by [`PageFetch`].

use vstd::prelude::*;
use crate::constants;
use crate::text;

verus! {

/// Failures of metadata resolution.  None of them is fatal to the
/// synchronization loop; they surface as a failed update attempt.
#[derive(Debug, Clone, PartialEq, Eq)]
pub enum ResolverError {
    /// The page holds no element matching the selector.
    NotFound,
    /// The page holds more than one element matching the selector.
    Ambiguous,
    /// The URL has no path segment readable as an app id.
    InvalidUrl,
    /// An age gate was met but no session cookie has been captured yet;
    /// the resolver cannot bootstrap a session by itself.
    MissingSessionCookie,
    /// The page was still gated after one confirmation round trip.
    GateNotCleared,
    /// The transport reported a failure; the message is carried along.
    Network(String),
    /// Reading or writing the cache file failed.
    Filesystem(String),
    /// Neither a configured location nor a runtime directory was given.
    NoCacheLocation,
}

/// Names the path segments that `url::Url::parse` reads out of a URL:
/// the same text always parses the same way.
pub uninterp spec fn url_path_segments(s: Seq<char>) -> Option<Seq<Seq<char>>>;

/// Relies on `url::Url::parse` and `url::Url::path_segments`: the path
/// segments of the parsed URL, `None` when the text does not parse or
/// the URL has no segmented path.
#[verifier::external_body]
fn parse_url_segments(s: &str) -> (r: Option<Vec<String>>)
    ensures
        r is Some <==> url_path_segments(s@) is Some,
        r matches Some(v) ==> url_path_segments(s@) == Some(v@.map_values(|e: String| e@)),
{
    let u = url::Url::parse(s).ok()?;
    let segs = u.path_segments()?;
    Some(segs.map(|p| p.to_string()).collect())
}

/// The number a path segment spells, when it spells one: plain digits,
/// no sign, value within `i64`.
pub open spec fn segment_value(s: Seq<char>) -> Option<int> {
    match text::parsed_digits(s) {
        Some(v) => if 0 <= v <= i64::MAX {
            Some(v)
        } else {
            None
        },
        None => None,
    }
}

/// The value of the first numeric path segment, if any.
pub open spec fn first_numeric_segment(segs: Seq<Seq<char>>) -> Option<int>
    decreases segs.len(),
{
    if segs.len() == 0 {
        None
    } else {
        match segment_value(segs.first()) {
            Some(v) => Some(v),
            None => first_numeric_segment(segs.drop_first()),
        }
    }
}

/// The app id a store URL names: the first numeric path segment.
pub open spec fn appid_of_url(u: Seq<char>) -> Option<int> {
    match url_path_segments(u) {
        Some(segs) => first_numeric_segment(segs),
        None => None,
    }
}

proof fn lemma_first_numeric_skip(segs: Seq<Seq<char>>, i: int)
    requires
        0 <= i <= segs.len(),
        forall|j: int| 0 <= j < i ==> segment_value(#[trigger] segs[j]) is None,
    ensures
        first_numeric_segment(segs) == first_numeric_segment(segs.skip(i)),
    decreases i,
{
    if i > 0 {
        assert(segment_value(segs.first()) is None);
        let rest = segs.drop_first();
        assert(forall|j: int| 0 <= j < i - 1 ==> segment_value(#[trigger] rest[j]) is None);
        lemma_first_numeric_skip(rest, i - 1);
        assert(rest.skip(i - 1) =~= segs.skip(i));
    } else {
        assert(segs.skip(0) =~= segs);
    }
}

/// Picks the first numeric segment out of a segment list.
pub fn appid_from_segments(segs: &Vec<String>) -> (r: Option<i64>)
    ensures
        first_numeric_segment(segs@.map_values(|e: String| e@)) is None ==> r is None,
        first_numeric_segment(segs@.map_values(|e: String| e@)) matches Some(v)
            ==> (r matches Some(id) && id as int == v && id >= 0),
{
    let ghost view = segs@.map_values(|e: String| e@);
    let n = segs.len();
    let mut i: usize = 0;
    while i < n
        invariant
            n == segs@.len(),
            view == segs@.map_values(|e: String| e@),
            0 <= i <= n,
            forall|j: int| 0 <= j < i ==> segment_value(#[trigger] view[j]) is None,
        decreases n - i,
    {
        match text::parse_i64_digits(segs[i].as_str()) {
            Some(v) => {
                proof {
                    lemma_first_numeric_skip(view, i as int);
                    assert(view.skip(i as int).first() == view[i as int]);
                    if text::parsed_digits(view[i as int]) matches Some(pv) {
                        text::lemma_digits_val_nonneg(view[i as int]);
                    }
                    assert(segment_value(view[i as int]) == Some(v as int));
                }
                return Some(v);
            }
            None => {
                proof {
                    assert(segment_value(view[i as int]) is None);
                }
            }
        }
        i = i + 1;
    }
    proof {
        lemma_first_numeric_skip(view, n as int);
        assert(view.skip(n as int) =~= Seq::<Seq<char>>::empty());
    }
    None
}

/// File name caching the page of one app id.
pub open spec fn cache_file_name_spec(id: int) -> Seq<char> {
    text::dec_rep(id) + ".html"@
}

/// The on-disk page cache for store documents, keyed by app id.
///
/// A present cache file is authoritative and never re-fetched; the
/// cache is never invalidated or expired.
#[derive(Debug)]
pub struct DocumentCache {
    /// The directory the cache files live in.
    pub location: String,
}

impl DocumentCache {
    /// Creates a new cache rooted at the given location.  Loading the
    /// persisted cookie jar from that location is the application's
    /// part, done beside this call.
    pub fn new(cache_loc: String) -> (r: Self)
        ensures
            r.location@ == cache_loc@,
    {
        DocumentCache { location: cache_loc }
    }

    /// Reads the app id out of a store URL: its first numeric path
    /// segment.  A URL without one is rejected as invalid.
    pub fn get_appid_from_url(url: &str) -> (r: Result<i64, ResolverError>)
        ensures
            appid_of_url(url@) is None ==> r == Err::<i64, ResolverError>(ResolverError::InvalidUrl),
            appid_of_url(url@) matches Some(v) ==> (r matches Ok(id) && id as int == v
                && id >= 0),
    {
        let segs = match parse_url_segments(url) {
            Some(s) => s,
            None => return Err(ResolverError::InvalidUrl),
        };
        match appid_from_segments(&segs) {
            Some(id) => Ok(id),
            None => Err(ResolverError::InvalidUrl),
        }
    }

    /// The cache file path for a store URL: `<location>/<app id>.html`,
    /// or `InvalidUrl` when the URL names no app id.
    pub fn get_cache_path(&self, url: &str) -> (r: Result<String, ResolverError>)
        ensures
            appid_of_url(url@) is None ==> r == Err::<String, ResolverError>(ResolverError::InvalidUrl),
            appid_of_url(url@) matches Some(v) ==> (r matches Ok(p)
                && p@ == text::join_path_spec(self.location@, cache_file_name_spec(v))),
    {
        let id = match Self::get_appid_from_url(url) {
            Ok(id) => id,
            Err(e) => return Err(e),
        };
        let mut name = text::fmt_u64(id as u64);
        name.append(".html");
        let path = text::join_path(self.location.as_str(), name.as_str());
        Ok(path)
    }
}

/// Where the cache directory lands beneath a base directory: the
/// helper's own subdirectory and the page-cache directory are appended,
/// unless the base already is the helper's directory.
pub open spec fn names_app_dir(t: Seq<char>) -> bool {
    t == constants::app_name_spec()
        || text::ends_with_spec(t, seq!['/'] + constants::app_name_spec())
}

pub open spec fn cache_root_spec(base: Seq<char>) -> Seq<char> {
    let t = text::trim_trailing_spec(base);
    if names_app_dir(t) {
        text::join_path_spec(t, constants::cache_dir_spec())
    } else {
        text::join_path_spec(
            text::join_path_spec(t, constants::app_name_spec()),
            constants::cache_dir_spec(),
        )
    }
}

/// Computes the cache directory path beneath `base`.  Checking that
/// `base` exists, and creating the resulting directory, are filesystem
/// work and stay with the application.
pub fn cache_root_path(base: &str) -> (r: String)
    ensures
        r@ == cache_root_spec(base@),
{
    let t = text::trim_trailing_slashes(base);
    proof {
        reveal_strlit("/discord-rpc-helper");
        reveal_strlit("discord-rpc-helper");
        assert("/discord-rpc-helper"@ =~= seq!['/'] + constants::app_name_spec());
    }
    if text::str_eq(t, constants::app_name()) || text::str_ends_with(t, "/discord-rpc-helper") {
        text::join_path(t, constants::cache_dir())
    } else {
        let joined = text::join_path(t, constants::app_name());
        text::join_path(joined.as_str(), constants::cache_dir())
    }
}

/// Builds a [`DocumentCache`].
///
/// Without an explicit location, the platform's per-user runtime
/// directory — read by the application and passed to [`DocumentCacheBuilder::build`] —
/// is used as the base.
pub struct DocumentCacheBuilder {
    /// Explicitly configured base directory, if any.
    pub location: Option<String>,
}

impl DocumentCacheBuilder {
    /// Creates a new builder with default options set.
    pub fn new() -> (r: DocumentCacheBuilder)
        ensures
            r.location is None,
    {
        DocumentCacheBuilder { location: None }
    }

    /// Changes the location of the document cache.
    pub fn with_location(self, path: &str) -> (r: DocumentCacheBuilder)
        ensures
            r.location matches Some(l) && l@ == path@,
    {
        DocumentCacheBuilder { location: Some(String::from_str(path)) }
    }

    /// Builds the document cache, consuming the builder.  The base is
    /// the configured location, else the runtime directory handed in;
    /// with neither, construction fails.
    pub fn build(self, runtime_dir: Option<String>) -> (r: Result<DocumentCache, ResolverError>)
        ensures
            self.location matches Some(l) ==> (r matches Ok(c)
                && c.location@ == cache_root_spec(l@)),
            self.location is None ==> (match runtime_dir {
                Some(d) => r matches Ok(c) && c.location@ == cache_root_spec(d@),
                None => r == Err::<DocumentCache, ResolverError>(ResolverError::NoCacheLocation),
            }),
    {
        match self.location {
            Some(l) => Ok(DocumentCache::new(cache_root_path(l.as_str()))),
            None => match runtime_dir {
                Some(d) => Ok(DocumentCache::new(cache_root_path(d.as_str()))),
                None => Err(ResolverError::NoCacheLocation),
            },
        }
    }
}

// ---------------------------------------------------------------------
// Scraping the page
// ---------------------------------------------------------------------

/// Whether scraper's `Selector::parse` accepts a selector text: fixed
/// by that text alone.
pub uninterp spec fn selector_ok(sel: Seq<char>) -> bool;

/// Names the inner HTML of the elements that scraper's document
/// parsing and selector matching pick out of a document, in document
/// order: a function of the document and selector texts alone.
pub uninterp spec fn selected_inner(doc: Seq<char>, sel: Seq<char>) -> Seq<Seq<char>>;

/// Relies on scraper's `Selector::parse`, `Html::parse_document` and
/// `Html::select`: the inner HTML of every element matching the
/// selector, in document order; `None` exactly when the selector text
/// is rejected.
#[verifier::external_body]
fn select_inner_htmls(doc: &str, sel: &str) -> (r: Option<Vec<String>>)
    ensures
        r is Some <==> selector_ok(sel@),
        r matches Some(v) ==> v@.map_values(|e: String| e@) == selected_inner(doc@, sel@),
{
    let selector = scraper::Selector::parse(sel).ok()?;
    let html = scraper::Html::parse_document(doc);
    Some(html.select(&selector).map(|e| e.inner_html()).collect())
}

/// Names the value of one attribute on each selected element, in
/// document order; again a function of the three texts alone.
pub uninterp spec fn selected_attr(doc: Seq<char>, sel: Seq<char>, attr: Seq<char>) -> Seq<
    Option<Seq<char>>,
>;

/// Relies on scraper's `Selector::parse`, `Html::parse_document`,
/// `Html::select` and `ElementRef::attr`: the given attribute of every
/// matching element; `None` exactly when the selector text is rejected.
#[verifier::external_body]
fn select_attr_values(doc: &str, sel: &str, attr: &str) -> (r: Option<Vec<Option<String>>>)
    ensures
        r is Some <==> selector_ok(sel@),
        r matches Some(v) ==> v.deep_view() == selected_attr(doc@, sel@, attr@),
{
    let selector = scraper::Selector::parse(sel).ok()?;
    let html = scraper::Html::parse_document(doc);
    Some(html.select(&selector).map(|e| e.attr(attr).map(|a| a.to_string())).collect())
}

/// Names what html-escape's entity decoding returns for a text.
pub uninterp spec fn decoded(s: Seq<char>) -> Seq<char>;

/// Relies on `html_escape::decode_html_entities`: the text with its
/// character references decoded, a function of the text alone.
#[verifier::external_body]
fn decode_entities(s: &str) -> (r: String)
    ensures
        r@ == decoded(s@),
{
    html_escape::decode_html_entities(s).into_owned()
}

/// Accepts the matches of a selector that a page must satisfy exactly
/// once: no match and several matches are both rejected.
pub fn extract_unique(found: Vec<String>) -> (r: Result<String, ResolverError>)
    ensures
        found@.len() == 0 ==> r == Err::<String, ResolverError>(ResolverError::NotFound),
        found@.len() == 1 ==> (r matches Ok(s) && s@ == found@[0]@),
        found@.len() > 1 ==> r == Err::<String, ResolverError>(ResolverError::Ambiguous),
{
    let mut found = found;
    if found.len() == 0 {
        Err(ResolverError::NotFound)
    } else if found.len() == 1 {
        match found.pop() {
            Some(s) => Ok(s),
            None => Err(ResolverError::NotFound),
        }
    } else {
        Err(ResolverError::Ambiguous)
    }
}

/// As [`extract_unique`], for attribute values: the one matching
/// element must also carry the attribute.
pub fn extract_unique_attr(found: Vec<Option<String>>) -> (r: Result<String, ResolverError>)
    ensures
        found@.len() == 0 ==> r == Err::<String, ResolverError>(ResolverError::NotFound),
        found@.len() == 1 ==> (match found@[0] {
            Some(s) => r matches Ok(v) && v@ == s@,
            None => r == Err::<String, ResolverError>(ResolverError::NotFound),
        }),
        found@.len() > 1 ==> r == Err::<String, ResolverError>(ResolverError::Ambiguous),
{
    let mut found = found;
    if found.len() == 0 {
        Err(ResolverError::NotFound)
    } else if found.len() == 1 {
        match found.pop() {
            Some(Some(s)) => Ok(s),
            _ => Err(ResolverError::NotFound),
        }
    } else {
        Err(ResolverError::Ambiguous)
    }
}

/// Whether a document is the age-gate interstitial rather than real
/// content: the age-gate selector matches at least once.
pub open spec fn is_gated(doc: Seq<char>) -> bool {
    selector_ok(constants::agegate_selector_spec())
        && selected_inner(doc, constants::agegate_selector_spec()).len() > 0
}

/// Tests a fetched document for the age-gate marker.
pub fn page_is_gated(document: &str) -> (r: bool)
    ensures
        r == is_gated(document@),
{
    match select_inner_htmls(document, constants::agegate_selector()) {
        Some(v) => v.len() > 0,
        None => false,
    }
}

impl DocumentCache {
    /// Gets a game's display name out of its store page document: the
    /// inner HTML of the page's single name element, entities decoded.
    /// `NotFound` without such an element, `Ambiguous` with several.
    pub fn get_name(&self, document: &str) -> (r: Result<String, ResolverError>)
        ensures
            !selector_ok(constants::name_selector_spec())
                ==> r == Err::<String, ResolverError>(ResolverError::NotFound),
            selector_ok(constants::name_selector_spec()) ==> ({
                let els = selected_inner(document@, constants::name_selector_spec());
                &&& els.len() == 0 ==> r == Err::<String, ResolverError>(ResolverError::NotFound)
                &&& els.len() == 1 ==> (r matches Ok(s) && s@ == decoded(els[0]))
                &&& els.len() > 1 ==> r == Err::<String, ResolverError>(ResolverError::Ambiguous)
            }),
    {
        let found = match select_inner_htmls(document, constants::name_selector()) {
            Some(v) => v,
            None => return Err(ResolverError::NotFound),
        };
        match extract_unique(found) {
            Ok(s) => Ok(decode_entities(s.as_str())),
            Err(e) => Err(e),
        }
    }

    /// Gets the URL of a game's app icon out of its store page
    /// document: the source attribute of the page's single icon image.
    pub fn get_appicon(&self, document: &str) -> (r: Result<String, ResolverError>)
        ensures
            !selector_ok(constants::icon_selector_spec())
                ==> r == Err::<String, ResolverError>(ResolverError::NotFound),
            selector_ok(constants::icon_selector_spec()) ==> ({
                let els = selected_attr(document@, constants::icon_selector_spec(), "src"@);
                &&& els.len() == 0 ==> r == Err::<String, ResolverError>(ResolverError::NotFound)
                &&& els.len() == 1 ==> (match els[0] {
                    Some(s) => r matches Ok(v) && v@ == s,
                    None => r == Err::<String, ResolverError>(ResolverError::NotFound),
                })
                &&& els.len() > 1 ==> r == Err::<String, ResolverError>(ResolverError::Ambiguous)
            }),
    {
        let found = match select_attr_values(document, constants::icon_selector(), "src") {
            Some(v) => v,
            None => return Err(ResolverError::NotFound),
        };
        extract_unique_attr(found)
    }
}

// ---------------------------------------------------------------------
// The fetch protocol
// ---------------------------------------------------------------------

/// What the driver must do next while resolving a page.
pub enum FetchAction {
    /// Probe the cache file at `cache_path`; answer `CacheFile`, or
    /// `CacheReadFailed` when the probe or read itself failed.
    CheckCache,
    /// HTTP GET `url` through the cookie-bearing session; answer
    /// `Fetched` or `FetchFailed`.
    Download,
    /// Look the session cookie up in the jar; answer `Cookie`.
    ReadCookie,
    /// POST the age-confirmation form, built from this session id, to
    /// the confirmation endpoint; answer `Confirmed` or `ConfirmFailed`.
    ConfirmGate(String),
    /// Write the pending document to the cache file; answer `Written`
    /// or `WriteFailed`.
    WriteCache,
    /// Resolution finished with this document; no further event.
    Done(String),
    /// Resolution failed; no further event.
    Failed(ResolverError),
}

/// The driver's answer to the last action.
pub enum FetchEvent {
    /// Content of the cache file, `None` when no file exists.
    CacheFile(Option<String>),
    /// Probing or reading the cache file failed.
    CacheReadFailed(String),
    /// Body answered by the HTTP GET.
    Fetched(String),
    /// The HTTP GET failed.
    FetchFailed(String),
    /// The session cookie's value, if the jar holds one.
    Cookie(Option<String>),
    /// The confirmation POST went through.
    Confirmed,
    /// The confirmation POST failed.
    ConfirmFailed(String),
    /// The cache file was written.
    Written,
    /// Writing the cache file failed.
    WriteFailed(String),
}

/// Where a resolution stands.
pub enum FetchPhase {
    /// The cache file is being probed.
    CheckingCache,
    /// The page is being fetched for the first time.
    Downloading,
    /// The page was gated; the session cookie is being looked up.
    AwaitingCookie,
    /// The confirmation POST is under way.
    Confirming,
    /// The page is being fetched once more after confirmation.
    Refetching,
    /// The final document is being written to the cache.
    Writing(String),
    /// Resolution ended, in `Done` or `Failed`.
    Finished,
}

/// Which answers fit which phase: the driver's protocol obligation.
pub open spec fn fetch_expects(phase: FetchPhase, e: FetchEvent) -> bool {
    match (phase, e) {
        (FetchPhase::CheckingCache, FetchEvent::CacheFile(_)) => true,
        (FetchPhase::CheckingCache, FetchEvent::CacheReadFailed(_)) => true,
        (FetchPhase::Downloading, FetchEvent::Fetched(_)) => true,
        (FetchPhase::Downloading, FetchEvent::FetchFailed(_)) => true,
        (FetchPhase::AwaitingCookie, FetchEvent::Cookie(_)) => true,
        (FetchPhase::Confirming, FetchEvent::Confirmed) => true,
        (FetchPhase::Confirming, FetchEvent::ConfirmFailed(_)) => true,
        (FetchPhase::Refetching, FetchEvent::Fetched(_)) => true,
        (FetchPhase::Refetching, FetchEvent::FetchFailed(_)) => true,
        (FetchPhase::Writing(_), FetchEvent::Written) => true,
        (FetchPhase::Writing(_), FetchEvent::WriteFailed(_)) => true,
        _ => false,
    }
}

/// The resolver's transition function.
///
/// A present cache file is authoritative: it finishes the resolution at
/// once, and no download is ever requested for it.  A fresh page that
/// shows the age gate starts the confirmation flow: session cookie,
/// confirmation POST, one re-fetch; only a final non-gated document is
/// written to the cache.  A page still gated after that one round trip
/// fails rather than looping.
pub open spec fn fetch_step(phase: FetchPhase, e: FetchEvent) -> (FetchPhase, FetchAction) {
    match (phase, e) {
        (FetchPhase::CheckingCache, FetchEvent::CacheFile(Some(doc))) => (
            FetchPhase::Finished,
            FetchAction::Done(doc),
        ),
        (FetchPhase::CheckingCache, FetchEvent::CacheFile(None)) => (
            FetchPhase::Downloading,
            FetchAction::Download,
        ),
        (FetchPhase::CheckingCache, FetchEvent::CacheReadFailed(m)) => (
            FetchPhase::Finished,
            FetchAction::Failed(ResolverError::Filesystem(m)),
        ),
        (FetchPhase::Downloading, FetchEvent::Fetched(doc)) => if is_gated(doc@) {
            (FetchPhase::AwaitingCookie, FetchAction::ReadCookie)
        } else {
            (FetchPhase::Writing(doc), FetchAction::WriteCache)
        },
        (FetchPhase::Downloading, FetchEvent::FetchFailed(m)) => (
            FetchPhase::Finished,
            FetchAction::Failed(ResolverError::Network(m)),
        ),
        (FetchPhase::AwaitingCookie, FetchEvent::Cookie(Some(sid))) => (
            FetchPhase::Confirming,
            FetchAction::ConfirmGate(sid),
        ),
        (FetchPhase::AwaitingCookie, FetchEvent::Cookie(None)) => (
            FetchPhase::Finished,
            FetchAction::Failed(ResolverError::MissingSessionCookie),
        ),
        (FetchPhase::Confirming, FetchEvent::Confirmed) => (
            FetchPhase::Refetching,
            FetchAction::Download,
        ),
        (FetchPhase::Confirming, FetchEvent::ConfirmFailed(m)) => (
            FetchPhase::Finished,
            FetchAction::Failed(ResolverError::Network(m)),
        ),
        (FetchPhase::Refetching, FetchEvent::Fetched(doc)) => if is_gated(doc@) {
            (FetchPhase::Finished, FetchAction::Failed(ResolverError::GateNotCleared))
        } else {
            (FetchPhase::Writing(doc), FetchAction::WriteCache)
        },
        (FetchPhase::Refetching, FetchEvent::FetchFailed(m)) => (
            FetchPhase::Finished,
            FetchAction::Failed(ResolverError::Network(m)),
        ),
        (FetchPhase::Writing(doc), FetchEvent::Written) => (
            FetchPhase::Finished,
            FetchAction::Done(doc),
        ),
        (FetchPhase::Writing(_), FetchEvent::WriteFailed(m)) => (
            FetchPhase::Finished,
            FetchAction::Failed(ResolverError::Filesystem(m)),
        ),
        _ => (FetchPhase::Finished, FetchAction::Failed(ResolverError::NotFound)),
    }
}

/// One page resolution in progress, driven by the application: the
/// machine answers each event with the next action to perform.
pub struct PageFetch {
    /// The store URL being resolved.
    pub url: String,
    /// The cache file for this URL's app id.
    pub cache_path: String,
    /// The app id read from the URL.
    pub app_id: i64,
    /// Where the resolution stands.
    pub phase: FetchPhase,
}

impl PageFetch {
    /// Applies the driver's answer to the pending action and yields the
    /// next action.
    pub fn on_event(&mut self, e: FetchEvent) -> (a: FetchAction)
        requires
            fetch_expects(old(self).phase, e),
        ensures
            final(self).url == old(self).url,
            final(self).cache_path == old(self).cache_path,
            final(self).app_id == old(self).app_id,
            (final(self).phase, a) == fetch_step(old(self).phase, e),
    {
        let mut phase = FetchPhase::Finished;
        core::mem::swap(&mut phase, &mut self.phase);
        let (next, action) = match (phase, e) {
            (FetchPhase::CheckingCache, FetchEvent::CacheFile(Some(doc))) => (
                FetchPhase::Finished,
                FetchAction::Done(doc),
            ),
            (FetchPhase::CheckingCache, FetchEvent::CacheFile(None)) => (
                FetchPhase::Downloading,
                FetchAction::Download,
            ),
            (FetchPhase::CheckingCache, FetchEvent::CacheReadFailed(m)) => (
                FetchPhase::Finished,
                FetchAction::Failed(ResolverError::Filesystem(m)),
            ),
            (FetchPhase::Downloading, FetchEvent::Fetched(doc)) => if page_is_gated(
                doc.as_str(),
            ) {
                (FetchPhase::AwaitingCookie, FetchAction::ReadCookie)
            } else {
                (FetchPhase::Writing(doc), FetchAction::WriteCache)
            },
            (FetchPhase::Downloading, FetchEvent::FetchFailed(m)) => (
                FetchPhase::Finished,
                FetchAction::Failed(ResolverError::Network(m)),
            ),
            (FetchPhase::AwaitingCookie, FetchEvent::Cookie(Some(sid))) => (
                FetchPhase::Confirming,
                FetchAction::ConfirmGate(sid),
            ),
            (FetchPhase::AwaitingCookie, FetchEvent::Cookie(None)) => (
                FetchPhase::Finished,
                FetchAction::Failed(ResolverError::MissingSessionCookie),
            ),
            (FetchPhase::Confirming, FetchEvent::Confirmed) => (
                FetchPhase::Refetching,
                FetchAction::Download,
            ),
            (FetchPhase::Confirming, FetchEvent::ConfirmFailed(m)) => (
                FetchPhase::Finished,
                FetchAction::Failed(ResolverError::Network(m)),
            ),
            (FetchPhase::Refetching, FetchEvent::Fetched(doc)) => if page_is_gated(
                doc.as_str(),
            ) {
                (FetchPhase::Finished, FetchAction::Failed(ResolverError::GateNotCleared))
            } else {
                (FetchPhase::Writing(doc), FetchAction::WriteCache)
            },
            (FetchPhase::Refetching, FetchEvent::FetchFailed(m)) => (
                FetchPhase::Finished,
                FetchAction::Failed(ResolverError::Network(m)),
            ),
            (FetchPhase::Writing(doc), FetchEvent::Written) => (
                FetchPhase::Finished,
                FetchAction::Done(doc),
            ),
            (FetchPhase::Writing(_), FetchEvent::WriteFailed(m)) => (
                FetchPhase::Finished,
                FetchAction::Failed(ResolverError::Filesystem(m)),
            ),
            (ph, _) => (ph, FetchAction::Failed(ResolverError::NotFound)),
        };
        self.phase = next;
        action
    }

    /// The document awaiting its cache write, readable by the driver
    /// while it performs the `WriteCache` action.
    pub fn pending_document(&self) -> (r: Option<&String>)
        ensures
            match self.phase {
                FetchPhase::Writing(d) => r matches Some(s) && *s == d,
                _ => r is None,
            },
    {
        match &self.phase {
            FetchPhase::Writing(doc) => Some(doc),
            _ => None,
        }
    }
}

impl DocumentCache {
    /// Starts resolving the page behind a store URL.  The returned
    /// machine first has the driver probe the cache file; a URL naming
    /// no app id is rejected before anything is touched.
    pub fn start_fetch(&self, url: &str) -> (r: Result<(PageFetch, FetchAction), ResolverError>)
        ensures
            appid_of_url(url@) is None ==> r == Err::<(PageFetch, FetchAction), ResolverError>(
                ResolverError::InvalidUrl,
            ),
            appid_of_url(url@) matches Some(v) ==> (r matches Ok(pa)
                && pa.0.url@ == url@
                && pa.0.cache_path@ == text::join_path_spec(
                    self.location@,
                    cache_file_name_spec(v),
                )
                && pa.0.app_id as int == v
                && pa.0.phase is CheckingCache
                && pa.1 is CheckCache),
    {
        let app_id = match Self::get_appid_from_url(url) {
            Ok(id) => id,
            Err(e) => return Err(e),
        };
        let cache_path = match self.get_cache_path(url) {
            Ok(p) => p,
            Err(e) => return Err(e),
        };
        let pf = PageFetch {
            url: String::from_str(url),
            cache_path,
            app_id,
            phase: FetchPhase::CheckingCache,
        };
        Ok((pf, FetchAction::CheckCache))
    }
}

// ---------------------------------------------------------------------
// The age-confirmation form
// ---------------------------------------------------------------------

/// The form submitted to the confirmation endpoint: the session id and
/// a fixed placeholder birth date.
pub struct AgeForm {
    pub session_id: String,
    pub age_day: String,
    pub age_month: String,
    pub age_year: String,
}

/// Builds the confirmation form for a session.
pub fn age_form(session_id: String) -> (r: AgeForm)
    ensures
        r.session_id@ == session_id@,
        r.age_day@ == "1"@,
        r.age_month@ == "January"@,
        r.age_year@ == "1990"@,
{
    AgeForm {
        session_id,
        age_day: String::from_str("1"),
        age_month: String::from_str("January"),
        age_year: String::from_str("1990"),
    }
}

/// The confirmation endpoint for an app id.
pub fn ageset_url(app_id: i64) -> (r: String)
    requires
        app_id >= 0,
    ensures
        r@ == constants::ageset_base_url_spec() + text::dec_rep(app_id as int),
{
    let mut s = String::from_str(constants::ageset_base_url());
    let digits = text::fmt_u64(app_id as u64);
    s.append(digits.as_str());
    s
}

// ---------------------------------------------------------------------
// Cache idempotence
// ---------------------------------------------------------------------

/// Resolving the same app id twice fetches over the network at most
/// once: the first (ungated) resolution performs exactly one download
/// and writes exactly the document it returns to the cache; any later
/// resolution that finds that file is served from it alone — no
/// download — and returns byte-identical content.
pub proof fn lemma_cache_idempotent(doc: String)
    requires
        !is_gated(doc@),
    ensures
        fetch_step(FetchPhase::CheckingCache, FetchEvent::CacheFile(None)) == (
            FetchPhase::Downloading,
            FetchAction::Download,
        ),
        fetch_step(FetchPhase::Downloading, FetchEvent::Fetched(doc)) == (
            FetchPhase::Writing(doc),
            FetchAction::WriteCache,
        ),
        fetch_step(FetchPhase::Writing(doc), FetchEvent::Written) == (
            FetchPhase::Finished,
            FetchAction::Done(doc),
        ),
        fetch_step(FetchPhase::CheckingCache, FetchEvent::CacheFile(Some(doc))) == (
            FetchPhase::Finished,
            FetchAction::Done(doc),
        ),
{
}


} // verus!
