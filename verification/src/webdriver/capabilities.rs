//! Capability structures of the W3C WebDriver specification.
//!
//! Extension capabilities that are neither W3C nor WebGrid specific are carried as
//! key / JSON text pairs; the logic of this crate never reads their values.

use vstd::prelude::*;
use vstd::std_specs::cmp::PartialEqSpecImpl;
use crate::text::text_equal;

verus! {

/// Timeout values for requests to the browser
#[derive(Debug, Clone, Copy, PartialEq, Eq, Structural)]
pub struct CapabilityTimeouts {
    /// Determines when to interrupt a script that is being evaluated.
    pub script: Option<u32>,
    /// Provides the timeout limit used to interrupt navigation of the browsing context.
    pub page_load: Option<u32>,
    /// Gives the timeout of when to abort locating an element.
    pub implicit: Option<u32>,
}

/// Describes which DOM event is used to determine whether or not a page has finished loading
#[derive(Debug, Clone, Copy, PartialEq, Eq, Structural)]
pub enum CapabilityPageLoadStrategy {
    /// Only page download, no parsing or asset loading (the W3C value `none`)
    NoneStrategy,
    /// Wait until all HTML content has been parsed, discarding assets
    Eager,
    /// Wait until all assets have been parsed and executed
    Normal,
}

/// How popups like alerts or prompts should be handled
#[derive(Debug, Clone, Copy, PartialEq, Eq, Structural)]
pub enum CapabilityUnhandledPromptBehavior {
    /// All simple dialogs encountered should be dismissed.
    Dismiss,
    /// All simple dialogs encountered should be accepted.
    Accept,
    /// Dismiss and report that the dialog was handled.
    DismissAndNotify,
    /// Accept and report that the dialog was handled.
    AcceptAndNotify,
    /// All simple dialogs encountered should be left to the user to handle.
    Ignore,
}

/// HTTP proxy settings
#[derive(Debug, Clone, PartialEq, Eq)]
pub struct CapabilitiesProxy {
    /// Indicates the type of proxy configuration.
    pub proxy_type: String,
    /// URL for a proxy auto-config file if proxy_type is equal to "pac".
    pub proxy_autoconfig_url: Option<String>,
    /// Proxy host for FTP traffic when the proxy_type is "manual".
    pub ftp_proxy: Option<String>,
    /// Proxy host for HTTP traffic when the proxy_type is "manual".
    pub http_proxy: Option<String>,
    /// Addresses for which the proxy should be bypassed when the proxy_type is "manual".
    pub no_proxy: Option<Vec<String>>,
    /// Proxy host for encrypted TLS traffic when the proxy_type is "manual".
    pub ssl_proxy: Option<String>,
    /// Proxy host for a SOCKS proxy when the proxy_type is "manual".
    pub socks_proxy: Option<String>,
    /// SOCKS proxy version when the proxy_type is "manual".
    pub socks_version: Option<u8>,
}

/// Extension capabilities specific to WebGrid
#[derive(Debug, Clone, Eq)]
pub struct WebGridOptions {
    /// Arbitrary metadata which can be set by the client (key / value pairs, keys distinct).
    pub metadata: Option<Vec<(String, String)>>,
    /// Force disables screen recording, defaults to `false`
    pub disable_recording: bool,
}

/// Struct containing information about the browser requested or provided
#[derive(Debug, Clone, Eq)]
pub struct Capabilities {
    /// Strict interactability checks for input type=file elements.
    pub strict_file_interactability: Option<bool>,
    /// Whether untrusted and self-signed TLS certificates are implicitly trusted.
    pub accept_insecure_certs: Option<bool>,
    /// Identifies the user agent.
    pub browser_name: Option<String>,
    /// Identifies the version of the user agent.
    pub browser_version: Option<String>,
    /// Identifies the operating system of the endpoint node.
    pub platform_name: Option<String>,
    /// Defines the current session’s page load strategy.
    pub page_load_strategy: Option<CapabilityPageLoadStrategy>,
    /// Defines the current session’s proxy configuration.
    pub proxy: Option<CapabilitiesProxy>,
    /// Describes the timeouts imposed on certain session operations.
    pub timeouts: Option<CapabilityTimeouts>,
    /// Describes the current session’s user prompt handler.
    pub unhandled_prompt_behavior: Option<CapabilityUnhandledPromptBehavior>,
    /// Extension capabilities specific to WebGrid
    pub webgrid_options: Option<WebGridOptions>,
    /// Additional capabilities, as key and JSON text of the value.
    pub extension_capabilities: Vec<(String, String)>,
}

/// List of requested capabilities by a client
#[derive(Debug, Clone, Eq)]
pub struct CapabilitiesRequest {
    /// List of capabilites where the first matching one will be used
    pub first_match: Option<Vec<Capabilities>>,
    /// Capabilities that always have to be satisfied and will be merged with each of the `first_match` capabilities
    pub always_match: Option<Capabilities>,
}

/// Raw capabilities request JSON string containing all fields
#[derive(Debug, Clone, PartialEq, Eq)]
pub struct RawCapabilitiesRequest(pub String);

/// Error thrown when interacting with Capabilities
#[derive(Debug, Clone, Copy, PartialEq, Eq, Structural)]
pub enum CapabilityError {
    /// A value was defined in both capability sets
    ValueDefinedInBothSets,
}

// ------------------------------------------------------------------ abstract views

/// Characters of an optional string.
pub open spec fn opt_text(o: Option<String>) -> Option<Seq<char>> {
    match o {
        Some(s) => Some(s@),
        None => None,
    }
}

/// Characters of each string of a list.
pub open spec fn texts(v: Seq<String>) -> Seq<Seq<char>> {
    v.map_values(|s: String| s@)
}

/// Characters of each key / value pair of a list.
pub open spec fn text_pairs(v: Seq<(String, String)>) -> Seq<(Seq<char>, Seq<char>)> {
    v.map_values(|p: (String, String)| (p.0@, p.1@))
}

pub struct ProxyView {
    pub proxy_type: Seq<char>,
    pub proxy_autoconfig_url: Option<Seq<char>>,
    pub ftp_proxy: Option<Seq<char>>,
    pub http_proxy: Option<Seq<char>>,
    pub no_proxy: Option<Seq<Seq<char>>>,
    pub ssl_proxy: Option<Seq<char>>,
    pub socks_proxy: Option<Seq<char>>,
    pub socks_version: Option<u8>,
}

impl View for CapabilitiesProxy {
    type V = ProxyView;

    open spec fn view(&self) -> ProxyView {
        ProxyView {
            proxy_type: self.proxy_type@,
            proxy_autoconfig_url: opt_text(self.proxy_autoconfig_url),
            ftp_proxy: opt_text(self.ftp_proxy),
            http_proxy: opt_text(self.http_proxy),
            no_proxy: match self.no_proxy {
                Some(v) => Some(texts(v@)),
                None => None,
            },
            ssl_proxy: opt_text(self.ssl_proxy),
            socks_proxy: opt_text(self.socks_proxy),
            socks_version: self.socks_version,
        }
    }
}

pub struct WebGridOptionsView {
    pub metadata: Option<Seq<(Seq<char>, Seq<char>)>>,
    pub disable_recording: bool,
}

impl View for WebGridOptions {
    type V = WebGridOptionsView;

    open spec fn view(&self) -> WebGridOptionsView {
        WebGridOptionsView {
            metadata: match self.metadata {
                Some(m) => Some(text_pairs(m@)),
                None => None,
            },
            disable_recording: self.disable_recording,
        }
    }
}

pub struct CapabilitiesView {
    pub strict_file_interactability: Option<bool>,
    pub accept_insecure_certs: Option<bool>,
    pub browser_name: Option<Seq<char>>,
    pub browser_version: Option<Seq<char>>,
    pub platform_name: Option<Seq<char>>,
    pub page_load_strategy: Option<CapabilityPageLoadStrategy>,
    pub proxy: Option<ProxyView>,
    pub timeouts: Option<CapabilityTimeouts>,
    pub unhandled_prompt_behavior: Option<CapabilityUnhandledPromptBehavior>,
    pub webgrid_options: Option<WebGridOptionsView>,
    pub extension_capabilities: Seq<(Seq<char>, Seq<char>)>,
}

impl View for Capabilities {
    type V = CapabilitiesView;

    open spec fn view(&self) -> CapabilitiesView {
        CapabilitiesView {
            strict_file_interactability: self.strict_file_interactability,
            accept_insecure_certs: self.accept_insecure_certs,
            browser_name: opt_text(self.browser_name),
            browser_version: opt_text(self.browser_version),
            platform_name: opt_text(self.platform_name),
            page_load_strategy: self.page_load_strategy,
            proxy: match self.proxy {
                Some(p) => Some(p@),
                None => None,
            },
            timeouts: self.timeouts,
            unhandled_prompt_behavior: self.unhandled_prompt_behavior,
            webgrid_options: match self.webgrid_options {
                Some(o) => Some(o@),
                None => None,
            },
            extension_capabilities: text_pairs(self.extension_capabilities@),
        }
    }
}

/// Views of a list of capability sets.
pub open spec fn capability_views(v: Seq<Capabilities>) -> Seq<CapabilitiesView> {
    v.map_values(|c: Capabilities| c@)
}

pub struct CapabilitiesRequestView {
    pub first_match: Option<Seq<CapabilitiesView>>,
    pub always_match: Option<CapabilitiesView>,
}

impl View for CapabilitiesRequest {
    type V = CapabilitiesRequestView;

    open spec fn view(&self) -> CapabilitiesRequestView {
        CapabilitiesRequestView {
            first_match: match self.first_match {
                Some(v) => Some(capability_views(v@)),
                None => None,
            },
            always_match: match self.always_match {
                Some(c) => Some(c@),
                None => None,
            },
        }
    }
}

// ------------------------------------------------------------------ combination rules

/// `Option::xor`: the value present in exactly one of the two, otherwise nothing.
pub open spec fn opt_xor<T>(a: Option<T>, b: Option<T>) -> Option<T> {
    match (a, b) {
        (Some(x), None) => Some(x),
        (None, Some(y)) => Some(y),
        _ => None,
    }
}

/// The capability set without any value.
pub open spec fn empty_capabilities() -> CapabilitiesView {
    CapabilitiesView {
        strict_file_interactability: None,
        accept_insecure_certs: None,
        browser_name: None,
        browser_version: None,
        platform_name: None,
        page_load_strategy: None,
        proxy: None,
        timeouts: None,
        unhandled_prompt_behavior: None,
        webgrid_options: None,
        extension_capabilities: Seq::empty(),
    }
}

/// Combination of two capability sets: each standard field keeps the value that exactly
/// one of them defines (a field defined by both, or by neither, ends up undefined); the
/// extension capabilities are those of the first set.
pub open spec fn merge_capabilities(a: CapabilitiesView, b: CapabilitiesView) -> CapabilitiesView {
    CapabilitiesView {
        strict_file_interactability: opt_xor(a.strict_file_interactability, b.strict_file_interactability),
        accept_insecure_certs: opt_xor(a.accept_insecure_certs, b.accept_insecure_certs),
        browser_name: opt_xor(a.browser_name, b.browser_name),
        browser_version: opt_xor(a.browser_version, b.browser_version),
        platform_name: opt_xor(a.platform_name, b.platform_name),
        page_load_strategy: opt_xor(a.page_load_strategy, b.page_load_strategy),
        proxy: opt_xor(a.proxy, b.proxy),
        timeouts: opt_xor(a.timeouts, b.timeouts),
        unhandled_prompt_behavior: opt_xor(a.unhandled_prompt_behavior, b.unhandled_prompt_behavior),
        webgrid_options: opt_xor(a.webgrid_options, b.webgrid_options),
        extension_capabilities: a.extension_capabilities,
    }
}

/// The distinct capability sets of a request: `always_match` (empty when absent) merged
/// with each `first_match` entry (a single empty entry when absent), in order.
pub open spec fn request_sets(r: CapabilitiesRequestView) -> Seq<CapabilitiesView> {
    let always = match r.always_match {
        Some(a) => a,
        None => empty_capabilities(),
    };
    let first = match r.first_match {
        Some(f) => f,
        None => seq![empty_capabilities()],
    };
    first.map_values(|b: CapabilitiesView| merge_capabilities(always, b))
}

/// Merging with an empty set keeps every value of the other set (and the extension
/// capabilities of the first).
pub proof fn law_merge_with_empty(c: CapabilitiesView)
    ensures
        merge_capabilities(c, empty_capabilities()) == c,
        merge_capabilities(empty_capabilities(), c) == (CapabilitiesView {
            extension_capabilities: Seq::empty(),
            ..c
        }),
{
}

/// A value defined in both sets is dropped from their combination; a value defined in
/// exactly one is kept, whichever side defines it.
pub proof fn law_merge_exclusive(a: CapabilitiesView, b: CapabilitiesView)
    ensures
        (a.browser_name is Some && b.browser_name is Some) ==> merge_capabilities(a, b).browser_name is None,
        merge_capabilities(a, b).browser_name == merge_capabilities(b, a).browser_name,
        merge_capabilities(a, b).browser_version == merge_capabilities(b, a).browser_version,
        merge_capabilities(a, b).webgrid_options == merge_capabilities(b, a).webgrid_options,
{
}

/// `m` is the combination of two optional values that keeps a value defined in exactly
/// one of them and drops a value defined in both.
pub open spec fn keeps_exclusive<T>(m: Option<T>, x: Option<T>, y: Option<T>) -> bool {
    &&& (x is Some && y is None) ==> m == x
    &&& (x is None && y is Some) ==> m == y
    &&& (x is Some && y is Some) ==> m is None
    &&& (x is None && y is None) ==> m is None
}

/// Each standard field of a merge depends on that field of the two sets alone: a value
/// defined in exactly one set is kept, whatever the other fields hold, and a value defined
/// in both is dropped; the extension capabilities are those of the first set.
pub proof fn law_merge_field_by_field(a: CapabilitiesView, b: CapabilitiesView)
    ensures
        keeps_exclusive(merge_capabilities(a, b).strict_file_interactability, a.strict_file_interactability, b.strict_file_interactability),
        keeps_exclusive(merge_capabilities(a, b).accept_insecure_certs, a.accept_insecure_certs, b.accept_insecure_certs),
        keeps_exclusive(merge_capabilities(a, b).browser_name, a.browser_name, b.browser_name),
        keeps_exclusive(merge_capabilities(a, b).browser_version, a.browser_version, b.browser_version),
        keeps_exclusive(merge_capabilities(a, b).platform_name, a.platform_name, b.platform_name),
        keeps_exclusive(merge_capabilities(a, b).page_load_strategy, a.page_load_strategy, b.page_load_strategy),
        keeps_exclusive(merge_capabilities(a, b).proxy, a.proxy, b.proxy),
        keeps_exclusive(merge_capabilities(a, b).timeouts, a.timeouts, b.timeouts),
        keeps_exclusive(merge_capabilities(a, b).unhandled_prompt_behavior, a.unhandled_prompt_behavior, b.unhandled_prompt_behavior),
        keeps_exclusive(merge_capabilities(a, b).webgrid_options, a.webgrid_options, b.webgrid_options),
        merge_capabilities(a, b).extension_capabilities == a.extension_capabilities,
{
}

/// The `i`-th capability set of a request is its `always_match` (empty when absent) merged
/// with the `i`-th `first_match` entry (a single empty entry when absent).
pub proof fn law_request_sets_merge_always_match(r: CapabilitiesRequestView, i: int)
    requires
        0 <= i < request_sets(r).len(),
    ensures
        request_sets(r)[i] == merge_capabilities(
            match r.always_match {
                Some(a) => a,
                None => empty_capabilities(),
            },
            match r.first_match {
                Some(f) => f[i],
                None => empty_capabilities(),
            },
        ),
{
}

/// A request yields one capability set per `first_match` entry, or a single one without
/// `first_match`; each is `always_match` combined with the entry.
pub proof fn law_request_set_count(r: CapabilitiesRequestView)
    ensures
        request_sets(r).len() == match r.first_match {
            Some(f) => f.len(),
            None => 1,
        },
{
}

// ------------------------------------------------------------------ executable code

/// `Option::xor` on values of any type.
pub fn xor_option<T>(a: Option<T>, b: Option<T>) -> (r: Option<T>)
    ensures
        r == opt_xor(a, b),
{
    match (a, b) {
        (Some(x), None) => Some(x),
        (None, Some(y)) => Some(y),
        _ => None,
    }
}

/// Combines two optional values, refusing the combination when both are present.
pub fn exclusive_combination<T>(a: Option<T>, b: Option<T>) -> (r: Result<Option<T>, CapabilityError>)
    ensures
        (a is Some && b is Some) ==> r == Err::<Option<T>, CapabilityError>(CapabilityError::ValueDefinedInBothSets),
        !(a is Some && b is Some) ==> r == Ok::<Option<T>, CapabilityError>(match a {
            Some(x) => Some(x),
            None => b,
        }),
{
    if a.is_some() && b.is_some() {
        return Err(CapabilityError::ValueDefinedInBothSets);
    }
    match a {
        Some(x) => Ok(Some(x)),
        None => Ok(b),
    }
}

/// Copies an optional string.
pub fn copy_opt_text(o: &Option<String>) -> (r: Option<String>)
    ensures
        opt_text(r) == opt_text(*o),
{
    match o {
        Some(s) => Some(s.clone()),
        None => None,
    }
}

/// Copies a list of strings.
pub fn copy_texts(v: &Vec<String>) -> (r: Vec<String>)
    ensures
        texts(r@) == texts(v@),
{
    let mut r: Vec<String> = Vec::new();
    let mut i: usize = 0;
    while i < v.len()
        invariant
            i <= v@.len(),
            r@.len() == i,
            forall|k: int| 0 <= k < i ==> #[trigger] r@[k]@ == v@[k]@,
        decreases v@.len() - i,
    {
        r.push(v[i].clone());
        i = i + 1;
    }
    assert(texts(r@) =~= texts(v@));
    r
}

/// Copies a list of key / value pairs.
pub fn copy_text_pairs(v: &Vec<(String, String)>) -> (r: Vec<(String, String)>)
    ensures
        text_pairs(r@) == text_pairs(v@),
{
    let mut r: Vec<(String, String)> = Vec::new();
    let mut i: usize = 0;
    while i < v.len()
        invariant
            i <= v@.len(),
            r@.len() == i,
            forall|k: int| 0 <= k < i ==> #[trigger] r@[k].0@ == v@[k].0@ && r@[k].1@ == v@[k].1@,
        decreases v@.len() - i,
    {
        let k = v[i].0.clone();
        let val = v[i].1.clone();
        r.push((k, val));
        i = i + 1;
    }
    assert(text_pairs(r@) =~= text_pairs(v@));
    r
}

impl CapabilitiesProxy {
    /// Copies the proxy settings.
    pub fn duplicate(&self) -> (r: CapabilitiesProxy)
        ensures
            r@ == self@,
    {
        CapabilitiesProxy {
            proxy_type: self.proxy_type.clone(),
            proxy_autoconfig_url: copy_opt_text(&self.proxy_autoconfig_url),
            ftp_proxy: copy_opt_text(&self.ftp_proxy),
            http_proxy: copy_opt_text(&self.http_proxy),
            no_proxy: match &self.no_proxy {
                Some(v) => Some(copy_texts(v)),
                None => None,
            },
            ssl_proxy: copy_opt_text(&self.ssl_proxy),
            socks_proxy: copy_opt_text(&self.socks_proxy),
            socks_version: self.socks_version,
        }
    }
}

impl WebGridOptions {
    /// Copies the options.
    pub fn duplicate(&self) -> (r: WebGridOptions)
        ensures
            r@ == self@,
    {
        WebGridOptions {
            metadata: match &self.metadata {
                Some(m) => Some(copy_text_pairs(m)),
                None => None,
            },
            disable_recording: self.disable_recording,
        }
    }
}

impl Default for WebGridOptions {
    fn default() -> (r: WebGridOptions)
        ensures
            r@ == (WebGridOptionsView { metadata: None, disable_recording: false }),
    {
        WebGridOptions { metadata: None, disable_recording: false }
    }
}

impl Capabilities {
    /// Empty capabilities object, containing not even default values
    pub fn empty() -> (r: Capabilities)
        ensures
            r@ == empty_capabilities(),
    {
        let r = Capabilities {
            strict_file_interactability: None,
            accept_insecure_certs: None,
            browser_name: None,
            browser_version: None,
            platform_name: None,
            page_load_strategy: None,
            proxy: None,
            timeouts: None,
            unhandled_prompt_behavior: None,
            webgrid_options: None,
            extension_capabilities: Vec::new(),
        };
        assert(r@.extension_capabilities =~= Seq::<(Seq<char>, Seq<char>)>::empty());
        r
    }

    /// Copies the capability set.
    pub fn duplicate(&self) -> (r: Capabilities)
        ensures
            r@ == self@,
    {
        Capabilities {
            strict_file_interactability: self.strict_file_interactability,
            accept_insecure_certs: self.accept_insecure_certs,
            browser_name: copy_opt_text(&self.browser_name),
            browser_version: copy_opt_text(&self.browser_version),
            platform_name: copy_opt_text(&self.platform_name),
            page_load_strategy: self.page_load_strategy,
            proxy: match &self.proxy {
                Some(p) => Some(p.duplicate()),
                None => None,
            },
            timeouts: self.timeouts,
            unhandled_prompt_behavior: self.unhandled_prompt_behavior,
            webgrid_options: match &self.webgrid_options {
                Some(o) => Some(o.duplicate()),
                None => None,
            },
            extension_capabilities: copy_text_pairs(&self.extension_capabilities),
        }
    }

    /// Combines two capabilities objects
    pub fn merge(&self, other: Capabilities) -> (r: Capabilities)
        ensures
            r@ == merge_capabilities(self@, other@),
    {
        let mine = self.duplicate();
        let proxy = xor_option(mine.proxy, other.proxy);
        let options = xor_option(mine.webgrid_options, other.webgrid_options);
        let r = Capabilities {
            strict_file_interactability: xor_option(mine.strict_file_interactability, other.strict_file_interactability),
            accept_insecure_certs: xor_option(mine.accept_insecure_certs, other.accept_insecure_certs),
            browser_name: xor_option(mine.browser_name, other.browser_name),
            browser_version: xor_option(mine.browser_version, other.browser_version),
            platform_name: xor_option(mine.platform_name, other.platform_name),
            page_load_strategy: xor_option(mine.page_load_strategy, other.page_load_strategy),
            proxy,
            timeouts: xor_option(mine.timeouts, other.timeouts),
            unhandled_prompt_behavior: xor_option(mine.unhandled_prompt_behavior, other.unhandled_prompt_behavior),
            webgrid_options: options,
            extension_capabilities: mine.extension_capabilities,
        };
        r
    }
}

impl CapabilitiesRequest {
    /// Converts the request into a set of possible combinations
    pub fn into_sets(self) -> (r: Vec<Capabilities>)
        ensures
            capability_views(r@) == request_sets(self@),
    {
        let ghost req = self@;
        let always_match = match self.always_match {
            Some(a) => a,
            None => Capabilities::empty(),
        };
        let first_match = match self.first_match {
            Some(f) => f,
            None => {
                let mut v: Vec<Capabilities> = Vec::new();
                v.push(Capabilities::empty());
                assert(capability_views(v@) =~= seq![empty_capabilities()]);
                v
            },
        };
        let ghost always_view = always_match@;
        let ghost firsts = capability_views(first_match@);
        assert(request_sets(req) =~= firsts.map_values(|b: CapabilitiesView| merge_capabilities(always_view, b)));
        let mut sets: Vec<Capabilities> = Vec::new();
        let mut remaining = first_match;
        let ghost n = firsts.len();
        while remaining.len() > 0
            invariant
                always_match@ == always_view,
                firsts.len() == n,
                sets@.len() + remaining@.len() == n,
                forall|k: int| 0 <= k < remaining@.len() ==> #[trigger] remaining@[k]@ == firsts[sets@.len() + k],
                forall|k: int| 0 <= k < sets@.len() ==> #[trigger] sets@[k]@ == merge_capabilities(always_view, firsts[k]),
            decreases remaining@.len(),
        {
            let ghost before = remaining@;
            let b = remaining.remove(0);
            assert(b@ == firsts[sets@.len() as int]);
            let merged = always_match.merge(b);
            sets.push(merged);
            assert forall|k: int| 0 <= k < remaining@.len() implies #[trigger] remaining@[k]@ == firsts[sets@.len() + k] by {
                assert(remaining@[k] == before[k + 1]);
            }
        }
        assert(capability_views(sets@) =~= firsts.map_values(|b: CapabilitiesView| merge_capabilities(always_view, b)));
        sets
    }
}

impl RawCapabilitiesRequest {
    /// Creates a new instance from a raw string
    pub fn new(raw: String) -> (r: RawCapabilitiesRequest)
        ensures
            r.0@ == raw@,
    {
        RawCapabilitiesRequest(raw)
    }

    /// Provides a reference to the underlying request string
    pub fn as_str(&self) -> (r: &str)
        ensures
            r@ == self.0@,
    {
        self.0.as_str()
    }
}


// ------------------------------------------------------------------ equality

/// The two lists hold the same key / value entries in any order: the equality of the
/// maps they stand for, whose keys are unique.
pub open spec fn same_entries(a: Seq<(Seq<char>, Seq<char>)>, b: Seq<(Seq<char>, Seq<char>)>) -> bool {
    &&& forall|i: int| 0 <= i < a.len() ==> b.contains(#[trigger] a[i])
    &&& forall|j: int| 0 <= j < b.len() ==> a.contains(#[trigger] b[j])
}

/// Equality of WebGrid options: the metadata compared as maps.
pub open spec fn options_equivalent(a: WebGridOptionsView, b: WebGridOptionsView) -> bool {
    &&& a.disable_recording == b.disable_recording
    &&& match (a.metadata, b.metadata) {
        (Some(x), Some(y)) => same_entries(x, y),
        (None, None) => true,
        _ => false,
    }
}

/// Equality of capability sets: every field equal, the WebGrid options and the extension
/// capabilities compared as maps.
pub open spec fn capabilities_equivalent(a: CapabilitiesView, b: CapabilitiesView) -> bool {
    &&& a.strict_file_interactability == b.strict_file_interactability
    &&& a.accept_insecure_certs == b.accept_insecure_certs
    &&& a.browser_name == b.browser_name
    &&& a.browser_version == b.browser_version
    &&& a.platform_name == b.platform_name
    &&& a.page_load_strategy == b.page_load_strategy
    &&& a.proxy == b.proxy
    &&& a.timeouts == b.timeouts
    &&& a.unhandled_prompt_behavior == b.unhandled_prompt_behavior
    &&& match (a.webgrid_options, b.webgrid_options) {
        (Some(x), Some(y)) => options_equivalent(x, y),
        (None, None) => true,
        _ => false,
    }
    &&& same_entries(a.extension_capabilities, b.extension_capabilities)
}

/// Equality of capability requests: the sets compared pairwise, in order.
pub open spec fn requests_equivalent(a: CapabilitiesRequestView, b: CapabilitiesRequestView) -> bool {
    &&& match (a.always_match, b.always_match) {
        (Some(x), Some(y)) => capabilities_equivalent(x, y),
        (None, None) => true,
        _ => false,
    }
    &&& match (a.first_match, b.first_match) {
        (Some(x), Some(y)) => x.len() == y.len() && forall|i: int|
            0 <= i < x.len() ==> #[trigger] capabilities_equivalent(x[i], y[i]),
        (None, None) => true,
        _ => false,
    }
}

/// Equality of capability sets is reflexive: every set equals itself.
pub proof fn lemma_capabilities_equivalent_reflexive(c: CapabilitiesView)
    ensures
        capabilities_equivalent(c, c),
{
    assert forall|i: int| 0 <= i < c.extension_capabilities.len() implies c.extension_capabilities.contains(
        #[trigger] c.extension_capabilities[i],
    ) by {}
    match c.webgrid_options {
        Some(o) => match o.metadata {
            Some(m) => {
                assert forall|i: int| 0 <= i < m.len() implies m.contains(#[trigger] m[i]) by {}
            },
            None => {},
        },
        None => {},
    }
}

/// Equality of capability requests is reflexive: every request equals itself.
pub proof fn lemma_requests_equivalent_reflexive(r: CapabilitiesRequestView)
    ensures
        requests_equivalent(r, r),
{
    match r.always_match {
        Some(c) => lemma_capabilities_equivalent_reflexive(c),
        None => {},
    }
    match r.first_match {
        Some(f) => {
            assert forall|i: int| 0 <= i < f.len() implies #[trigger] capabilities_equivalent(f[i], f[i]) by {
                lemma_capabilities_equivalent_reflexive(f[i]);
            }
        },
        None => {},
    }
}

/// Whether two optional strings are equal.
pub fn opt_text_equal(a: &Option<String>, b: &Option<String>) -> (r: bool)
    ensures
        r == (opt_text(*a) == opt_text(*b)),
{
    match (a, b) {
        (Some(x), Some(y)) => text_equal(x.as_str(), y.as_str()),
        (None, None) => true,
        _ => false,
    }
}

/// Whether two lists of strings are equal, element by element.
pub fn texts_equal(a: &Vec<String>, b: &Vec<String>) -> (r: bool)
    ensures
        r == (texts(a@) == texts(b@)),
{
    if a.len() != b.len() {
        proof {
            assert(texts(a@).len() != texts(b@).len());
        }
        return false;
    }
    let mut i: usize = 0;
    while i < a.len()
        invariant
            a@.len() == b@.len(),
            i <= a@.len(),
            forall|k: int| 0 <= k < i ==> #[trigger] a@[k]@ == b@[k]@,
        decreases a@.len() - i,
    {
        if !text_equal(a[i].as_str(), b[i].as_str()) {
            proof {
                assert(texts(a@)[i as int] != texts(b@)[i as int]);
            }
            return false;
        }
        i = i + 1;
    }
    assert(texts(a@) =~= texts(b@));
    true
}

/// Whether the list holds the entry `(key, value)`.
pub fn contains_entry(v: &Vec<(String, String)>, key: &str, value: &str) -> (r: bool)
    ensures
        r == text_pairs(v@).contains((key@, value@)),
{
    let mut i: usize = 0;
    while i < v.len()
        invariant
            i <= v@.len(),
            forall|k: int| 0 <= k < i ==> #[trigger] text_pairs(v@)[k] != (key@, value@),
        decreases v@.len() - i,
    {
        if text_equal(v[i].0.as_str(), key) && text_equal(v[i].1.as_str(), value) {
            proof {
                assert(text_pairs(v@)[i as int] == (key@, value@));
            }
            return true;
        }
        i = i + 1;
    }
    proof {
        if text_pairs(v@).contains((key@, value@)) {
            let k = choose|k: int| 0 <= k < text_pairs(v@).len() && text_pairs(v@)[k] == (key@, value@);
            assert(text_pairs(v@)[k] != (key@, value@));
        }
    }
    false
}

/// Whether every entry of `a` is held by `b`.
pub fn entries_within(a: &Vec<(String, String)>, b: &Vec<(String, String)>) -> (r: bool)
    ensures
        r == (forall|i: int| 0 <= i < text_pairs(a@).len() ==> text_pairs(b@).contains(#[trigger] text_pairs(a@)[i])),
{
    let mut i: usize = 0;
    while i < a.len()
        invariant
            i <= a@.len(),
            forall|k: int| 0 <= k < i ==> text_pairs(b@).contains(#[trigger] text_pairs(a@)[k]),
        decreases a@.len() - i,
    {
        if !contains_entry(b, a[i].0.as_str(), a[i].1.as_str()) {
            proof {
                assert(text_pairs(a@)[i as int] == (a@[i as int].0@, a@[i as int].1@));
            }
            return false;
        }
        proof {
            assert(text_pairs(a@)[i as int] == (a@[i as int].0@, a@[i as int].1@));
        }
        i = i + 1;
    }
    true
}

/// Whether two lists hold the same entries, in any order.
pub fn entries_equal(a: &Vec<(String, String)>, b: &Vec<(String, String)>) -> (r: bool)
    ensures
        r == same_entries(text_pairs(a@), text_pairs(b@)),
{
    let ab = entries_within(a, b);
    let ba = entries_within(b, a);
    ab && ba
}

/// Whether two proxy configurations are equal.
pub fn proxy_equal(a: &CapabilitiesProxy, b: &CapabilitiesProxy) -> (r: bool)
    ensures
        r == (a@ == b@),
{
    let no_proxy = match (&a.no_proxy, &b.no_proxy) {
        (Some(x), Some(y)) => texts_equal(x, y),
        (None, None) => true,
        _ => false,
    };
    let socks_version = match (a.socks_version, b.socks_version) {
        (Some(x), Some(y)) => x == y,
        (None, None) => true,
        _ => false,
    };
    text_equal(a.proxy_type.as_str(), b.proxy_type.as_str())
        && opt_text_equal(&a.proxy_autoconfig_url, &b.proxy_autoconfig_url)
        && opt_text_equal(&a.ftp_proxy, &b.ftp_proxy)
        && opt_text_equal(&a.http_proxy, &b.http_proxy)
        && no_proxy
        && opt_text_equal(&a.ssl_proxy, &b.ssl_proxy)
        && opt_text_equal(&a.socks_proxy, &b.socks_proxy)
        && socks_version
}

/// Whether two sets of WebGrid options are equal, the metadata compared as maps.
pub fn options_equal(a: &WebGridOptions, b: &WebGridOptions) -> (r: bool)
    ensures
        r == options_equivalent(a@, b@),
{
    let metadata = match (&a.metadata, &b.metadata) {
        (Some(x), Some(y)) => entries_equal(x, y),
        (None, None) => true,
        _ => false,
    };
    a.disable_recording == b.disable_recording && metadata
}

/// Whether two optional flags are equal.
fn flag_equal(a: Option<bool>, b: Option<bool>) -> (r: bool)
    ensures
        r == (a == b),
{
    match (a, b) {
        (Some(x), Some(y)) => x == y,
        (None, None) => true,
        _ => false,
    }
}

/// Whether two capability sets are equal.
pub fn capabilities_equal(a: &Capabilities, b: &Capabilities) -> (r: bool)
    ensures
        r == capabilities_equivalent(a@, b@),
{
    let strategy = match (a.page_load_strategy, b.page_load_strategy) {
        (Some(x), Some(y)) => x == y,
        (None, None) => true,
        _ => false,
    };
    let proxy = match (&a.proxy, &b.proxy) {
        (Some(x), Some(y)) => proxy_equal(x, y),
        (None, None) => true,
        _ => false,
    };
    let timeouts = match (a.timeouts, b.timeouts) {
        (Some(x), Some(y)) => x == y,
        (None, None) => true,
        _ => false,
    };
    let prompt = match (a.unhandled_prompt_behavior, b.unhandled_prompt_behavior) {
        (Some(x), Some(y)) => x == y,
        (None, None) => true,
        _ => false,
    };
    let options = match (&a.webgrid_options, &b.webgrid_options) {
        (Some(x), Some(y)) => options_equal(x, y),
        (None, None) => true,
        _ => false,
    };
    flag_equal(a.strict_file_interactability, b.strict_file_interactability)
        && flag_equal(a.accept_insecure_certs, b.accept_insecure_certs)
        && opt_text_equal(&a.browser_name, &b.browser_name)
        && opt_text_equal(&a.browser_version, &b.browser_version)
        && opt_text_equal(&a.platform_name, &b.platform_name)
        && strategy
        && proxy
        && timeouts
        && prompt
        && options
        && entries_equal(&a.extension_capabilities, &b.extension_capabilities)
}

/// Whether two lists of capability sets are equal, set by set in order.
fn capability_lists_equal(a: &Vec<Capabilities>, b: &Vec<Capabilities>) -> (r: bool)
    ensures
        r == (a@.len() == b@.len() && forall|i: int|
            0 <= i < a@.len() ==> #[trigger] capabilities_equivalent(capability_views(a@)[i], capability_views(b@)[i])),
{
    if a.len() != b.len() {
        return false;
    }
    let mut i: usize = 0;
    while i < a.len()
        invariant
            a@.len() == b@.len(),
            i <= a@.len(),
            forall|k: int| 0 <= k < i ==> #[trigger] capabilities_equivalent(capability_views(a@)[k], capability_views(b@)[k]),
        decreases a@.len() - i,
    {
        let same = capabilities_equal(&a[i], &b[i]);
        assert(capability_views(a@)[i as int] == a@[i as int]@);
        assert(capability_views(b@)[i as int] == b@[i as int]@);
        if !same {
            return false;
        }
        i = i + 1;
    }
    true
}

/// Whether two capability requests are equal.
pub fn requests_equal(a: &CapabilitiesRequest, b: &CapabilitiesRequest) -> (r: bool)
    ensures
        r == requests_equivalent(a@, b@),
{
    let always = match (&a.always_match, &b.always_match) {
        (Some(x), Some(y)) => capabilities_equal(x, y),
        (None, None) => true,
        _ => false,
    };
    let first = match (&a.first_match, &b.first_match) {
        (Some(x), Some(y)) => capability_lists_equal(x, y),
        (None, None) => true,
        _ => false,
    };
    always && first
}

impl PartialEq for WebGridOptions {
    fn eq(&self, other: &WebGridOptions) -> (r: bool) {
        options_equal(self, other)
    }
}

impl PartialEqSpecImpl for WebGridOptions {
    open spec fn obeys_eq_spec() -> bool {
        true
    }

    open spec fn eq_spec(&self, other: &WebGridOptions) -> bool {
        options_equivalent(self@, other@)
    }
}

impl PartialEq for Capabilities {
    fn eq(&self, other: &Capabilities) -> (r: bool) {
        capabilities_equal(self, other)
    }
}

impl PartialEqSpecImpl for Capabilities {
    open spec fn obeys_eq_spec() -> bool {
        true
    }

    open spec fn eq_spec(&self, other: &Capabilities) -> bool {
        capabilities_equivalent(self@, other@)
    }
}

impl PartialEq for CapabilitiesRequest {
    fn eq(&self, other: &CapabilitiesRequest) -> (r: bool) {
        requests_equal(self, other)
    }
}

impl PartialEqSpecImpl for CapabilitiesRequest {
    open spec fn obeys_eq_spec() -> bool {
        true
    }

    open spec fn eq_spec(&self, other: &CapabilitiesRequest) -> bool {
        requests_equivalent(self@, other@)
    }
}

} // verus!
