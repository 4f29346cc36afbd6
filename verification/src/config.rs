use vstd::prelude::*;
use vstd::string::StringExecFns;
use vstd::string::StrSliceExecFns;
use crate::numfmt::{dec_digits, append_u32_decimal};

verus! {

/// Configuration resolved once at startup: the upstream base URL and an
/// optional telemetry endpoint.
#[derive(Debug, Clone)]
pub struct Config {
    pub upstream_url: String,
    pub telemetry_url: Option<String>,
}

/// `s` with every trailing `/` removed.
pub open spec fn trim_trailing_slashes(s: Seq<char>) -> Seq<char>
    decreases s.len(),
{
    if s.len() > 0 && s.last() == '/' {
        trim_trailing_slashes(s.drop_last())
    } else {
        s
    }
}

proof fn lemma_trim_trailing_slashes_at(s: Seq<char>, cut: int)
    requires
        0 <= cut <= s.len(),
        forall|k: int| cut <= k < s.len() ==> s[k] == '/',
        cut == 0 || s[cut - 1] != '/',
    ensures
        trim_trailing_slashes(s) == s.subrange(0, cut),
    decreases s.len(),
{
    if cut == s.len() {
        assert(s.subrange(0, s.len() as int) =~= s);
    } else {
        assert(s.last() == '/');
        let t = s.drop_last();
        lemma_trim_trailing_slashes_at(t, cut);
        assert(t.subrange(0, cut) =~= s.subrange(0, cut));
    }
}

impl Config {
    /// A configuration from plain values.
    pub fn new(upstream_url: String, telemetry_url: Option<String>) -> (r: Config)
        ensures
            r.upstream_url == upstream_url,
            r.telemetry_url == telemetry_url,
    {
        Config { upstream_url, telemetry_url }
    }

    /// Returns the full URL for a given API path (e.g., "/chat/completions"):
    /// the base URL with trailing slashes trimmed, followed by the path.
    pub fn upstream_url_for_path(&self, path: &str) -> (r: String)
        ensures
            r@ == trim_trailing_slashes(self.upstream_url@) + path@,
    {
        let base = self.upstream_url.as_str();
        let n = base.unicode_len();
        let mut cut: usize = n;
        while cut > 0 && base.get_char(cut - 1) == '/'
            invariant
                n == base@.len(),
                cut <= n,
                forall|k: int| cut <= k < n ==> base@[k] == '/',
            decreases cut,
        {
            cut -= 1;
        }
        proof {
            lemma_trim_trailing_slashes_at(base@, cut as int);
        }
        let prefix = base.substring_char(0, cut);
        let mut out = prefix.to_owned();
        out.append(path);
        out
    }
}

/// Command-line arguments, as plain values.
#[derive(Debug, Clone)]
pub struct Args {
    pub upstream: String,
    pub host: String,
    pub port: u16,
}

impl Args {
    /// Convert arguments to a configuration; no telemetry endpoint is
    /// taken from the command line.
    pub fn into_config(self) -> (r: Config)
        ensures
            r.upstream_url == self.upstream,
            r.telemetry_url is None,
    {
        Config { upstream_url: self.upstream, telemetry_url: None }
    }

    /// The listen address as `host:port`.
    pub fn listen_addr_string(&self) -> (r: String)
        ensures
            r@ == self.host@ + ":"@ + dec_digits(self.port as nat),
    {
        let mut s = self.host.clone();
        s.append(":");
        append_u32_decimal(&mut s, self.port as u32);
        proof {
            assert(s@ =~= self.host@ + ":"@ + dec_digits(self.port as nat));
        }
        s
    }
}

} // verus!
