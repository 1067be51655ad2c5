//! Fetchers: where upstream data comes from.
//!
//! The in-memory fetcher serves frozen fixture data. The HTTP and caching
//! fetchers hold their settings and the decisions of their fetch loops
//! (retry and backoff, cache location and freshness); the network and disk
//! work itself is done by the caller.

use crate::decimal::{digits, push_digits};
use crate::evidence::SourceUrl;
use crate::text::{concat2, text_eq, IntoText};
use sha2::Digest;
use vstd::prelude::*;
use vstd::string::*;

verus! {

/// The map of URL to data that a sequence of insertions builds (later
/// insertions win).
pub open spec fn entries_map(s: Seq<(String, String)>) -> Map<Seq<char>, Seq<char>>
    decreases s.len(),
{
    if s.len() == 0 {
        Map::empty()
    } else {
        entries_map(s.drop_last()).insert(s.last().0@, s.last().1@)
    }
}

/// `m` with each pair of `s` inserted in order.
pub open spec fn insert_all(m: Map<Seq<char>, Seq<char>>, s: Seq<(String, String)>) -> Map<
    Seq<char>,
    Seq<char>,
>
    decreases s.len(),
{
    if s.len() == 0 {
        m
    } else {
        insert_all(m, s.drop_last()).insert(s.last().0@, s.last().1@)
    }
}

proof fn lemma_entries_map_append(a: Seq<(String, String)>, b: Seq<(String, String)>)
    ensures
        entries_map(a + b) == insert_all(entries_map(a), b),
    decreases b.len(),
{
    if b.len() == 0 {
        assert(a + b =~= a);
    } else {
        lemma_entries_map_append(a, b.drop_last());
        assert((a + b).drop_last() =~= a + b.drop_last());
    }
}

/// In-memory fetcher for fixture-based testing.
///
/// Stores frozen upstream data snapshots by URL. Performs no I/O; all data
/// is pre-loaded.
#[derive(Debug, Clone)]
pub struct InMemoryFetcher {
    entries: Vec<(String, String)>,
}

impl View for InMemoryFetcher {
    type V = Map<Seq<char>, Seq<char>>;

    /// The stored data by URL.
    closed spec fn view(&self) -> Map<Seq<char>, Seq<char>> {
        entries_map(self.entries@)
    }
}

/// Error for the in-memory fetcher: no fixture for the URL.
#[derive(Debug, Clone)]
pub struct InMemoryFetcherError {
    url: String,
}

impl InMemoryFetcherError {
    /// The URL that had no fixture.
    pub closed spec fn url_view(&self) -> Seq<char> {
        self.url@
    }

    /// Human-readable description: `fixture not found for URL: <url>`.
    pub fn to_string(&self) -> (s: String)
        ensures
            s@ == "fixture not found for URL: "@ + self.url_view(),
    {
        concat2("fixture not found for URL: ", self.url.as_str())
    }
}

impl InMemoryFetcher {
    /// Create a new empty in-memory fetcher.
    pub fn new() -> (f: Self)
        ensures
            f@ == Map::<Seq<char>, Seq<char>>::empty(),
    {
        InMemoryFetcher { entries: Vec::new() }
    }

    /// Insert fixture data for a URL (replacing earlier data for it).
    pub fn insert<U: IntoText, D: IntoText>(&mut self, url: U, data: D)
        ensures
            final(self)@ == old(self)@.insert(url.text_view(), data.text_view()),
    {
        let ghost before = self.entries@;
        self.entries.push((url.into_text(), data.into_text()));
        assert(self.entries@.drop_last() =~= before);
    }

    /// Insert multiple fixture entries at once, in order.
    pub fn with_data(self, entries: Vec<(String, String)>) -> (f: Self)
        ensures
            f@ == insert_all(self@, entries@),
    {
        let mut f = self;
        let ghost start = f.entries@;
        let ghost added = entries@;
        let mut entries = entries;
        f.entries.append(&mut entries);
        proof {
            lemma_entries_map_append(start, added);
        }
        f
    }

    /// Fetch the fixture data stored for `url`.
    pub fn fetch(&self, url: &SourceUrl) -> (r: Result<String, InMemoryFetcherError>)
        ensures
            r is Ok <==> self@.contains_key(url@),
            r matches Ok(s) ==> s@ == self@[url@],
            r matches Err(e) ==> e.url_view() == url@,
    {
        let mut j = self.entries.len();
        assert(self.entries@.take(j as int) =~= self.entries@);
        while j > 0
            invariant
                j <= self.entries@.len(),
                entries_map(self.entries@).contains_key(url@) == entries_map(
                    self.entries@.take(j as int),
                ).contains_key(url@),
                entries_map(self.entries@).contains_key(url@) ==> entries_map(self.entries@)[url@]
                    == entries_map(self.entries@.take(j as int))[url@],
            decreases j,
        {
            let (k, v) = &self.entries[j - 1];
            assert(self.entries@.take(j as int).drop_last() =~= self.entries@.take(j - 1));
            if text_eq(k.as_str(), url.as_str()) {
                return Ok(v.clone());
            }
            j = j - 1;
        }
        assert(self.entries@.take(0) =~= Seq::<(String, String)>::empty());
        Err(InMemoryFetcherError { url: String::from_str(url.as_str()) })
    }
}

impl Default for InMemoryFetcher {
    fn default() -> (f: Self)
        ensures
            f@ == Map::<Seq<char>, Seq<char>>::empty(),
    {
        Self::new()
    }
}

/// HTTP fetcher settings: request timeout and retries with exponential
/// backoff (blocking).
#[derive(Debug, Clone, Copy)]
pub struct HttpFetcher {
    /// Request timeout in seconds.
    timeout_secs: u64,
    /// Maximum number of retry attempts.
    max_retries: u32,
}

/// What the HTTP fetch loop does after a failed request.
#[derive(Debug, Clone, Copy, PartialEq, Eq, Structural)]
pub enum RetryStep {
    /// Wait this many milliseconds, then try again.
    Retry { wait_ms: u64 },
    /// Stop and report the failure.
    GiveUp,
}

/// 2 to the power `n`.
pub open spec fn pow2(n: nat) -> nat
    decreases n,
{
    if n == 0 {
        1
    } else {
        2 * pow2((n - 1) as nat)
    }
}

/// Largest attempt number whose backoff fits in a `u64`.
pub const MAX_BACKOFF_ATTEMPT: u32 = 57;

proof fn lemma_pow2_monotone(a: nat, b: nat)
    requires
        a <= b,
    ensures
        pow2(a) <= pow2(b),
    decreases b,
{
    if a < b {
        lemma_pow2_monotone(a, (b - 1) as nat);
    }
}

/// Backoff before retrying after failed attempt `attempt`: 100 ms times 2^attempt.
pub fn backoff_ms(attempt: u32) -> (ms: u64)
    requires
        attempt <= MAX_BACKOFF_ATTEMPT,
    ensures
        ms == 100 * pow2(attempt as nat),
{
    let mut p: u64 = 1;
    let mut i: u32 = 0;
    assert(pow2(57) == 144115188075855872) by {
        reveal_with_fuel(pow2, 58);
    }
    while i < attempt
        invariant
            i <= attempt,
            attempt <= 57,
            p == pow2(i as nat),
            pow2(57) == 144115188075855872,
        decreases attempt - i,
    {
        proof {
            lemma_pow2_monotone((i + 1) as nat, 57);
        }
        p = p * 2;
        i = i + 1;
    }
    proof {
        lemma_pow2_monotone(attempt as nat, 57);
    }
    100 * p
}

impl HttpFetcher {
    /// Create a new HTTP fetcher with default timeout (30s) and retries (3).
    pub fn new() -> (f: Self)
        ensures
            f.timeout() == 30,
            f.retries() == 3,
    {
        HttpFetcher { timeout_secs: 30, max_retries: 3 }
    }

    /// Create an HTTP fetcher with custom timeout and retries.
    pub fn with_config(timeout_secs: u64, max_retries: u32) -> (f: Self)
        ensures
            f.timeout() == timeout_secs,
            f.retries() == max_retries,
    {
        HttpFetcher { timeout_secs, max_retries }
    }

    /// Request timeout in seconds.
    pub closed spec fn timeout(&self) -> u64 {
        self.timeout_secs
    }

    /// Maximum number of retry attempts.
    pub closed spec fn retries(&self) -> u32 {
        self.max_retries
    }

    /// Request timeout in seconds.
    pub fn timeout_secs(&self) -> (t: u64)
        ensures
            t == self.timeout(),
    {
        self.timeout_secs
    }

    /// Maximum number of retry attempts.
    pub fn max_retries(&self) -> (n: u32)
        ensures
            n == self.retries(),
    {
        self.max_retries
    }

    /// Decide what follows a failed request on attempt `attempt` (attempts
    /// count from 0 up to `max_retries`): retry after the exponential backoff
    /// while retries remain, otherwise give up.
    pub fn after_failure(&self, attempt: u32) -> (s: RetryStep)
        requires
            attempt < self.retries() ==> attempt <= MAX_BACKOFF_ATTEMPT,
        ensures
            attempt < self.retries() ==> s == (RetryStep::Retry {
                wait_ms: (100 * pow2(attempt as nat)) as u64,
            }),
            attempt >= self.retries() ==> s == RetryStep::GiveUp,
    {
        if attempt < self.max_retries {
            RetryStep::Retry { wait_ms: backoff_ms(attempt) }
        } else {
            RetryStep::GiveUp
        }
    }

    /// Message of a request that failed on every attempt.
    pub fn exhausted_message(&self, cause: &str) -> (s: String)
        ensures
            s@ == "request failed after "@ + digits(self.retries() as nat) + " retries: "@ + cause@,
    {
        let mut s = String::from_str("request failed after ");
        push_digits(&mut s, self.max_retries as u64);
        s.append(" retries: ");
        s.append(cause);
        s
    }
}

impl Default for HttpFetcher {
    fn default() -> (f: Self)
        ensures
            f.timeout() == 30,
            f.retries() == 3,
    {
        Self::new()
    }
}

/// Error for HTTP fetcher operations.
#[derive(Debug, Clone)]
pub struct HttpFetcherError {
    url: String,
    message: String,
}

impl HttpFetcherError {
    /// Create an HTTP fetch error for `url`.
    pub fn new(url: &str, message: String) -> (e: Self)
        ensures
            e.url_view() == url@,
            e.message_view() == message@,
    {
        HttpFetcherError { url: String::from_str(url), message }
    }

    /// The URL the error concerns.
    pub closed spec fn url_view(&self) -> Seq<char> {
        self.url@
    }

    /// The error message.
    pub closed spec fn message_view(&self) -> Seq<char> {
        self.message@
    }

    /// Human-readable description: `HTTP fetch failed for <url>: <message>`.
    pub fn to_string(&self) -> (s: String)
        ensures
            s@ == "HTTP fetch failed for "@ + self.url_view() + ": "@ + self.message_view(),
    {
        let mut s = String::from_str("HTTP fetch failed for ");
        s.append(self.url.as_str());
        s.append(": ");
        s.append(self.message.as_str());
        s
    }
}

/// Error for caching fetcher operations.
#[derive(Debug, Clone)]
pub struct CachingFetcherError {
    url: String,
    message: String,
}

impl CachingFetcherError {
    /// Create a caching fetch error for `url`.
    pub fn new(url: &str, message: String) -> (e: Self)
        ensures
            e.url_view() == url@,
            e.message_view() == message@,
    {
        CachingFetcherError { url: String::from_str(url), message }
    }

    /// The URL the error concerns.
    pub closed spec fn url_view(&self) -> Seq<char> {
        self.url@
    }

    /// The error message.
    pub closed spec fn message_view(&self) -> Seq<char> {
        self.message@
    }

    /// Human-readable description: `caching fetch failed for <url>: <message>`.
    pub fn to_string(&self) -> (s: String)
        ensures
            s@ == "caching fetch failed for "@ + self.url_view() + ": "@ + self.message_view(),
    {
        let mut s = String::from_str("caching fetch failed for ");
        s.append(self.url.as_str());
        s.append(": ");
        s.append(self.message.as_str());
        s
    }
}

/// What the SHA-256 digest of the UTF-8 encoding of `text` is, written as
/// 64 lower-case hexadecimal digits.
pub uninterp spec fn sha256_hex_of(text: Seq<char>) -> Seq<char>;

/// Hashes the UTF-8 bytes of `text` with `sha2::Sha256` and formats the
/// digest with `{:x}`. The contract names the result `sha256_hex_of(text)`
/// and states its shape (64 lower-case hexadecimal digits), which the
/// digest's fixed 32-byte output and the `LowerHex` format give.
#[verifier::external_body]
fn sha256_hex(text: &str) -> (h: String)
    ensures
        h@ == sha256_hex_of(text@),
        h@.len() == 64,
        forall|i: int| 0 <= i < 64 ==> ('0' <= #[trigger] h@[i] <= '9' || 'a' <= h@[i] <= 'f'),
{
    let mut hasher = sha2::Sha256::new();
    hasher.update(text.as_bytes());
    format!("{:x}", hasher.finalize())
}

/// `name` placed inside directory `dir`: a `/` separates them unless `dir`
/// is empty or already ends with one.
pub open spec fn path_in(dir: Seq<char>, name: Seq<char>) -> Seq<char> {
    if dir.len() == 0 || dir.last() == '/' {
        dir + name
    } else {
        dir + "/"@ + name
    }
}

/// Place a relative file name inside a directory.
pub fn join_path(dir: &str, name: &str) -> (p: String)
    ensures
        p@ == path_in(dir@, name@),
{
    let mut p = String::from_str(dir);
    let n = dir.unicode_len();
    if n == 0 || dir.get_char(n - 1) == '/' {
        p.append(name);
    } else {
        p.append("/");
        p.append(name);
    }
    p
}

/// Caching fetcher settings: an HTTP fetcher whose responses are cached on
/// disk under a directory, keyed by the SHA-256 of the URL, for a time to live.
#[derive(Debug, Clone)]
pub struct CachingFetcher {
    http_fetcher: HttpFetcher,
    cache_dir: String,
    cache_ttl_secs: u64,
}

/// Time to live of cache entries by default: 24 hours.
pub const DEFAULT_CACHE_TTL_SECS: u64 = 86_400;

impl CachingFetcher {
    /// The HTTP settings.
    pub closed spec fn http(&self) -> HttpFetcher {
        self.http_fetcher
    }

    /// The cache directory.
    pub closed spec fn dir(&self) -> Seq<char> {
        self.cache_dir@
    }

    /// The time to live of cache entries, in seconds.
    pub closed spec fn ttl(&self) -> u64 {
        self.cache_ttl_secs
    }

    /// Settings under the user's cache directory `cache_root`: the `agi4`
    /// directory inside it, default HTTP settings and a 24-hour time to live.
    pub fn under_cache_root(cache_root: &str) -> (f: Self)
        ensures
            f.dir() == path_in(cache_root@, "agi4"@),
            f.http().timeout() == 30,
            f.http().retries() == 3,
            f.ttl() == DEFAULT_CACHE_TTL_SECS,
    {
        CachingFetcher {
            http_fetcher: HttpFetcher::new(),
            cache_dir: join_path(cache_root, "agi4"),
            cache_ttl_secs: DEFAULT_CACHE_TTL_SECS,
        }
    }

    /// Settings with custom HTTP settings, cache directory and time to live.
    pub fn with_config(http_fetcher: HttpFetcher, cache_dir: String, cache_ttl_secs: u64) -> (f:
        Self)
        ensures
            f.http() == http_fetcher,
            f.dir() == cache_dir@,
            f.ttl() == cache_ttl_secs,
    {
        CachingFetcher { http_fetcher, cache_dir, cache_ttl_secs }
    }

    /// The HTTP settings.
    pub fn http_fetcher(&self) -> (h: HttpFetcher)
        ensures
            h == self.http(),
    {
        self.http_fetcher
    }

    /// The cache directory.
    pub fn cache_dir(&self) -> (d: &str)
        ensures
            d@ == self.dir(),
    {
        self.cache_dir.as_str()
    }

    /// The time to live of cache entries, in seconds.
    pub fn cache_ttl_secs(&self) -> (t: u64)
        ensures
            t == self.ttl(),
    {
        self.cache_ttl_secs
    }

    /// Cache file path for a URL: the hex SHA-256 of the URL inside the cache directory.
    pub fn cache_path(&self, url: &SourceUrl) -> (p: String)
        ensures
            p@ == path_in(self.dir(), sha256_hex_of(url@)),
    {
        let hash = sha256_hex(url.as_str());
        join_path(self.cache_dir.as_str(), hash.as_str())
    }

    /// A cache entry of this age (seconds since it was written) is still valid.
    pub fn is_fresh(&self, age_secs: u64) -> (b: bool)
        ensures
            b == (age_secs < self.ttl()),
    {
        age_secs < self.cache_ttl_secs
    }
}

} // verus!
