//! The settings of the file-serving endpoint and the addresses under which
//! clients reach the served repositories.

use vstd::prelude::*;
use crate::text::{decimal, decimal_digits, names_of};

verus! {

/// How the endpoint answers lock and unlock requests.
#[derive(Clone, Copy, Debug, PartialEq, Eq, Structural)]
pub enum Locking {
    /// Locks are not offered.
    Unsupported,
    /// Every lock is granted and none is kept: enough for clients that
    /// will not write without a lock token, and no mutual exclusion.
    CooperativeStub,
    /// Locks are kept and enforced.
    Enforced,
}

/// The port that is served where none is given.
pub const DEFAULT_PORT: u16 = 5005;

/// The settings of the endpoint.
#[derive(Clone, Debug, PartialEq, Eq)]
pub struct ServeConfig {
    /// The directory that is exposed; no request reaches above it.
    pub root: String,
    /// The IPv4 address to listen on.
    pub addr: [u8; 4],
    /// The port to listen on.
    pub port: u16,
    /// Files and directories that clients create are readable by everyone.
    pub public_files: bool,
    /// Names are looked up regardless of case.
    pub case_insensitive: bool,
    /// The metadata files that the file manager of the platform scatters
    /// are kept out of the served directories.
    pub hide_platform_metadata: bool,
    /// The answer to lock requests.
    pub locking: Locking,
}

/// Settles how the repositories below `path` are served on `addr:port`:
/// readable and writable by everyone who reaches the port, names taken as
/// they are written, locks granted without being kept.  `on_macos` says
/// whether the platform is the one whose file manager leaves metadata
/// files behind.
pub fn serve_repos(path: &str, addr: [u8; 4], port: u16, on_macos: bool) -> (config: ServeConfig)
    ensures
        config.root@ == path@,
        config.addr == addr,
        config.port == port,
        config.public_files,
        !config.case_insensitive,
        config.hide_platform_metadata == on_macos,
        config.locking == Locking::CooperativeStub,
{
    ServeConfig {
        root: path.to_owned(),
        addr,
        port,
        public_files: true,
        case_insensitive: false,
        hide_platform_metadata: on_macos,
        locking: Locking::CooperativeStub,
    }
}

/// An IPv4 address in dotted decimal.
pub open spec fn dotted(addr: [u8; 4]) -> Seq<char> {
    decimal(addr[0] as nat) + seq!['.'] + decimal(addr[1] as nat) + seq!['.'] + decimal(
        addr[2] as nat,
    ) + seq!['.'] + decimal(addr[3] as nat)
}

/// The address of a repository for a client: `http://<ip>:<port>/<name>`.
pub open spec fn url_of(ip: [u8; 4], port: u16, repo: Seq<char>) -> Seq<char> {
    "http://"@ + dotted(ip) + seq![':'] + decimal(port as nat) + seq!['/'] + repo
}

/// Writes `n` in decimal behind `out`.
pub fn append_decimal(out: &mut String, n: u16)
    ensures
        final(out)@ == old(out)@ + decimal(n as nat),
    decreases n,
{
    let digits = "0123456789";
    proof {
        reveal_strlit("0123456789");
    }
    if n >= 10 {
        append_decimal(out, n / 10);
    }
    let last: usize = (n % 10) as usize;
    out.append(digits.substring_ascii(last, last + 1));
}

/// The address under which a client reaches the repository `repo` on the
/// machine with the address `ip`.
pub fn repo_url(ip: [u8; 4], port: u16, repo: &str) -> (url: String)
    ensures
        url@ == url_of(ip, port, repo@),
{
    let mut url = "http://".to_owned();
    append_decimal(&mut url, ip[0] as u16);
    url.append(".");
    append_decimal(&mut url, ip[1] as u16);
    url.append(".");
    append_decimal(&mut url, ip[2] as u16);
    url.append(".");
    append_decimal(&mut url, ip[3] as u16);
    url.append(":");
    append_decimal(&mut url, port);
    url.append("/");
    url.append(repo);
    proof {
        reveal_strlit(".");
        reveal_strlit(":");
        reveal_strlit("/");
    }
    url
}

/// The addresses of a list of repositories, one for each, in order.
pub fn repo_urls(ip: [u8; 4], port: u16, repos: &Vec<String>) -> (urls: Vec<String>)
    ensures
        urls@.len() == repos@.len(),
        forall|i: int| 0 <= i < repos@.len() ==> urls@[i]@ == url_of(ip, port, repos@[i]@),
        names_of(urls@) == names_of(repos@).map_values(|n: Seq<char>| url_of(ip, port, n)),
{
    let mut urls: Vec<String> = Vec::new();
    let mut i: usize = 0;
    while i < repos.len()
        invariant
            0 <= i <= repos.len(),
            urls@.len() == i,
            forall|k: int| 0 <= k < i ==> urls@[k]@ == url_of(ip, port, repos@[k]@),
        decreases repos.len() - i,
    {
        let url = repo_url(ip, port, repos[i].as_str());
        urls.push(url);
        i += 1;
    }
    urls
}

} // verus!
