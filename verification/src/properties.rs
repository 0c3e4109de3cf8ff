//! Cloudflare-specific options of an outbound request.

use std::collections::HashMap;

use vstd::prelude::*;

verus! {

/// Configuration options for Cloudflare's minification features.
#[derive(Debug, Clone, Copy, PartialEq, Eq, Structural)]
pub struct MinifyConfig {
    pub js: bool,
    pub html: bool,
    pub css: bool,
}

impl Default for MinifyConfig {
    fn default() -> (m: Self)
        ensures
            m == (MinifyConfig { js: false, html: false, css: false }),
    {
        MinifyConfig { js: false, html: false, css: false }
    }
}

/// Configuration options for Cloudflare's image optimization feature.
#[derive(Debug, Clone, Copy, PartialEq, Eq, Structural)]
pub enum PolishConfig {
    Off,
    Lossy,
    Lossless,
}

impl Default for PolishConfig {
    fn default() -> (p: Self)
        ensures
            p == PolishConfig::Off,
    {
        PolishConfig::Off
    }
}

impl PolishConfig {
    /// The name the runtime expects for the mode.
    pub open spec fn name(self) -> Seq<char> {
        match self {
            PolishConfig::Off => "off"@,
            PolishConfig::Lossy => "lossy"@,
            PolishConfig::Lossless => "lossless"@,
        }
    }

    /// The name the runtime expects for the mode: `off`, `lossy` or `lossless`.
    pub fn as_str(self) -> (s: &'static str)
        ensures
            s@ == self.name(),
    {
        match self {
            PolishConfig::Off => "off",
            PolishConfig::Lossy => "lossy",
            PolishConfig::Lossless => "lossless",
        }
    }
}

/// Cloudflare-specific options of an outbound request; `None` leaves an option
/// at its default.
#[derive(Clone)]
pub struct CfProperties {
    /// Whether Cloudflare Apps should be enabled for this request. Defaults to `true`.
    pub apps: Option<bool>,
    /// Forces Cloudflare to cache the response regardless of its headers. Defaults to `false`.
    pub cache_everything: Option<bool>,
    /// The cache key that decides which requests are "the same" for caching.
    pub cache_key: Option<String>,
    /// Forces the response to be cached for this many seconds.
    pub cache_ttl: Option<u32>,
    /// Cache times by status code range, e.g. `{ "200-299": 86400, "404": 1 }`.
    pub cache_ttl_by_status: Option<HashMap<String, i32>>,
    /// Enables or disables AutoMinify for various file types.
    pub minify: Option<MinifyConfig>,
    /// Whether Mirage should be enabled for this request. Defaults to `true`.
    pub mirage: Option<bool>,
    /// Sets Polish mode.
    pub polish: Option<PolishConfig>,
    /// Directs the request to an alternate origin server by overriding the DNS lookup.
    pub resolve_override: Option<String>,
    /// Whether ScrapeShield should be enabled for this request. Defaults to `true`.
    pub scrape_shield: Option<bool>,
}

/// The value of every option, with defaults filled in, as sent to the runtime.
pub struct ResolvedCfProperties {
    pub apps: bool,
    pub cache_everything: bool,
    pub cache_key: String,
    pub cache_ttl: u32,
    pub cache_ttl_by_status: HashMap<String, i32>,
    pub minify: MinifyConfig,
    pub mirage: bool,
    pub polish: &'static str,
    pub resolve_override: String,
    pub scrape_shield: bool,
}

pub open spec fn bool_or(o: Option<bool>, d: bool) -> bool {
    match o {
        Some(b) => b,
        None => d,
    }
}

impl CfProperties {
    /// Whether every option is the documented default: apps, mirage and scrape
    /// shield on, cache-everything off, and nothing else set.
    pub open spec fn is_default(self) -> bool {
        &&& self.apps == Some(true)
        &&& self.cache_everything == Some(false)
        &&& self.cache_key is None
        &&& self.cache_ttl is None
        &&& self.cache_ttl_by_status is None
        &&& self.minify is None
        &&& self.mirage == Some(true)
        &&& self.polish is None
        &&& self.resolve_override is None
        &&& self.scrape_shield == Some(true)
    }

    /// Whether `r` holds the options of `self`, with every unset option at its default.
    pub open spec fn resolves_to(self, r: ResolvedCfProperties) -> bool {
        &&& r.apps == bool_or(self.apps, true)
        &&& r.cache_everything == bool_or(self.cache_everything, false)
        &&& r.cache_key@ == match self.cache_key {
            Some(k) => k@,
            None => Seq::empty(),
        }
        &&& r.cache_ttl == match self.cache_ttl {
            Some(t) => t,
            None => 0,
        }
        &&& r.cache_ttl_by_status@ == match self.cache_ttl_by_status {
            Some(m) => m@,
            None => Map::empty(),
        }
        &&& r.minify == match self.minify {
            Some(m) => m,
            None => MinifyConfig { js: false, html: false, css: false },
        }
        &&& r.mirage == bool_or(self.mirage, true)
        &&& r.polish@ == match self.polish {
            Some(p) => p.name(),
            None => "off"@,
        }
        &&& r.resolve_override@ == match self.resolve_override {
            Some(o) => o@,
            None => Seq::empty(),
        }
        &&& r.scrape_shield == bool_or(self.scrape_shield, true)
    }

    pub fn new() -> (p: Self)
        ensures
            p.is_default(),
    {
        Self::default()
    }

    /// Every option with its default filled in where it is unset; these are the
    /// properties a request carries to the runtime.
    pub fn resolved(&self) -> (r: ResolvedCfProperties)
        ensures
            self.resolves_to(r),
    {
        let defaults = CfProperties::default();
        ResolvedCfProperties {
            apps: unwrap_bool(self.apps, unwrap_bool(defaults.apps, false)),
            cache_everything: unwrap_bool(
                self.cache_everything,
                unwrap_bool(defaults.cache_everything, false),
            ),
            cache_key: match &self.cache_key {
                Some(k) => k.clone(),
                None => String::new(),
            },
            cache_ttl: match self.cache_ttl {
                Some(t) => t,
                None => 0,
            },
            cache_ttl_by_status: match &self.cache_ttl_by_status {
                Some(m) => m.clone(),
                None => HashMap::new(),
            },
            minify: match self.minify {
                Some(m) => m,
                None => MinifyConfig::default(),
            },
            mirage: unwrap_bool(self.mirage, unwrap_bool(defaults.mirage, false)),
            polish: match self.polish {
                Some(p) => p.as_str(),
                None => PolishConfig::default().as_str(),
            },
            resolve_override: match &self.resolve_override {
                Some(o) => o.clone(),
                None => String::new(),
            },
            scrape_shield: unwrap_bool(self.scrape_shield, unwrap_bool(defaults.scrape_shield, false)),
        }
    }
}

fn unwrap_bool(o: Option<bool>, d: bool) -> (b: bool)
    ensures
        b == bool_or(o, d),
{
    match o {
        Some(b) => b,
        None => d,
    }
}

impl Default for CfProperties {
    fn default() -> (p: Self)
        ensures
            p.is_default(),
    {
        Self {
            apps: Some(true),
            cache_everything: Some(false),
            cache_key: None,
            cache_ttl: None,
            cache_ttl_by_status: None,
            minify: None,
            mirage: Some(true),
            polish: None,
            resolve_override: None,
            scrape_shield: Some(true),
        }
    }
}

/// Options left at their defaults are sent as the documented defaults: apps,
/// mirage and scrape shield on, cache-everything off, no cache key, a cache TTL
/// of 0, no TTLs by status, no minification, polish off and no resolve override.
pub proof fn lemma_defaults_resolve(p: CfProperties, r: ResolvedCfProperties)
    requires
        p.is_default(),
        p.resolves_to(r),
    ensures
        r.apps && r.mirage && r.scrape_shield && !r.cache_everything,
        r.cache_key@ == Seq::<char>::empty(),
        r.cache_ttl == 0,
        r.cache_ttl_by_status@ == Map::<String, i32>::empty(),
        r.minify == (MinifyConfig { js: false, html: false, css: false }),
        r.polish@ == "off"@,
        r.resolve_override@ == Seq::<char>::empty(),
{
}

} // verus!
