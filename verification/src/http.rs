//! Proxies and http clients, made by the `reqwest` crate.

use vstd::prelude::*;

verus! {

/// The user agent that every request names.
pub const USER_AGENT: &'static str =
    "Mozilla/5.0 (Windows NT 10.0; Win64; x64) AppleWebKit/537.36 (KHTML, like Gecko) Chrome/113.0.0.0 Safari/537.36";

/// How long a connection may take to come up, in seconds.
pub const CONNECT_TIMEOUT_SECS: u64 = 20;

/// How long a request may take as a whole, in seconds.
pub const TIMEOUT_SECS: u64 = 20;

/// A route that requests take, opaque here.
#[verifier::external_type_specification]
#[verifier::external_body]
pub struct ExProxy(reqwest::Proxy);

/// What `reqwest` reports when it cannot do its work, opaque here.
#[verifier::external_type_specification]
#[verifier::external_body]
pub struct ExError(reqwest::Error);

/// An http client, opaque here.
#[verifier::external_type_specification]
#[verifier::external_body]
pub struct ExClient(reqwest::Client);

/// What a client does about redirects, opaque here.
#[verifier::external_type_specification]
#[verifier::external_body]
pub struct ExPolicy(reqwest::redirect::Policy);

/// What `reqwest::Proxy::all` returns for a proxy address.
pub uninterp spec fn proxy_all(url: Seq<char>) -> Result<reqwest::Proxy, reqwest::Error>;

/// Whether a proxy sends the requests for every address straight to their host.
pub uninterp spec fn routes_directly(proxy: reqwest::Proxy) -> bool;

/// Whether a policy ever follows a redirect.
pub uninterp spec fn policy_follows(policy: reqwest::redirect::Policy) -> bool;

/// The line that a `reqwest` error displays as.
pub uninterp spec fn error_text(error: reqwest::Error) -> Seq<char>;

/// What a client was made with.
pub struct ClientConfig {
    pub user_agent: Seq<char>,
    pub gzip: bool,
    pub proxy: reqwest::Proxy,
    pub connect_timeout_secs: u64,
    pub timeout_secs: u64,
    pub follows_redirects: bool,
}

/// The settings with which a client was built.
pub uninterp spec fn client_config(client: reqwest::Client) -> ClientConfig;

/// Whether a text can be the value of a header: a tab is the only control character in it.
pub open spec fn header_text(s: Seq<char>) -> bool {
    forall|i: int|
        0 <= i < s.len() ==> #[trigger] s[i] == '\t' || s[i] as u32 >= 32 && s[i] as u32 != 127
}

/// The settings of every worker's client, for its proxy.
pub open spec fn worker_config(proxy: reqwest::Proxy) -> ClientConfig {
    ClientConfig {
        user_agent: USER_AGENT@,
        gzip: true,
        proxy,
        connect_timeout_secs: CONNECT_TIMEOUT_SECS,
        timeout_secs: TIMEOUT_SECS,
        follows_redirects: false,
    }
}

/// Calls `reqwest::Proxy::all`: a proxy for the requests to every address, or an error where the
/// address cannot be used. What it returns depends on the address alone, as it only parses it (the
/// crate is used without its socks support, so no host name is looked up). A proxy that it returns
/// sends no request directly.
#[verifier::external_body]
pub(crate) fn make_proxy(url: &str) -> (r: Result<reqwest::Proxy, reqwest::Error>)
    ensures
        r == proxy_all(url@),
        r matches Ok(proxy) ==> !routes_directly(proxy),
{
    reqwest::Proxy::all(url)
}

/// The address of the proxy to use, for a worker that uses none.
fn no_upstream() -> (r: Option<&'static str>)
    ensures
        r is None,
{
    None
}

/// Calls `reqwest::Proxy::custom` with a choice that never names a proxy: every request goes
/// straight to its host.
#[verifier::external_body]
fn make_direct() -> (r: reqwest::Proxy)
    ensures
        routes_directly(r),
{
    reqwest::Proxy::custom(|_url| no_upstream())
}

/// Calls `to_string` on a `reqwest::Error`: the line that the error displays as.
#[verifier::external_body]
pub(crate) fn describe(error: &reqwest::Error) -> (r: String)
    ensures
        r@ == error_text(*error),
{
    error.to_string()
}

/// Calls `reqwest::redirect::Policy::none`: no redirect is followed.
#[verifier::external_body]
fn no_redirects() -> (r: reqwest::redirect::Policy)
    ensures
        !policy_follows(r),
{
    reqwest::redirect::Policy::none()
}

/// Calls `reqwest::Client::builder`, sets on the builder what the arguments say, and calls
/// `build`. A client comes out where the user agent can be the value of
/// a header, which is all that `build` can fail on here: the crate is used with `rustls`, its
/// default ciphers and the root certificates that it carries itself. The client was made with those
/// settings. What the error says where none comes out is left open.
#[verifier::external_body]
fn make_client(
    user_agent: &str,
    gzip: bool,
    proxy: reqwest::Proxy,
    connect_timeout_secs: u64,
    timeout_secs: u64,
    redirects: reqwest::redirect::Policy,
) -> (r: Result<reqwest::Client, reqwest::Error>)
    ensures
        r is Ok <==> header_text(user_agent@),
        r matches Ok(client) ==> client_config(client) == (ClientConfig {
            user_agent: user_agent@,
            gzip,
            proxy,
            connect_timeout_secs,
            timeout_secs,
            follows_redirects: policy_follows(redirects),
        }),
{
    reqwest::Client::builder()
        .gzip(gzip)
        .user_agent(user_agent)
        .proxy(proxy)
        .connect_timeout(std::time::Duration::from_secs(connect_timeout_secs))
        .timeout(std::time::Duration::from_secs(timeout_secs))
        .redirect(redirects)
        .build()
}

/// The routes of `count` workers that use no proxy.
pub fn direct_routes(count: usize) -> (r: Vec<reqwest::Proxy>)
    ensures
        r@.len() == count,
        forall|i: int| 0 <= i < count ==> routes_directly(#[trigger] r@[i]),
{
    let mut r: Vec<reqwest::Proxy> = Vec::new();
    for i in 0..count
        invariant
            r@.len() == i,
            forall|k: int| 0 <= k < i ==> routes_directly(#[trigger] r@[k]),
    {
        r.push(make_direct());
    }
    r
}

/// Turns what came of building a client into the client, or the line that says why there is none.
pub fn client_or_reason(made: Result<reqwest::Client, reqwest::Error>) -> (r: Result<
    reqwest::Client,
    String,
>)
    ensures
        made matches Ok(client) ==> r == Ok::<reqwest::Client, String>(client),
        made matches Err(error) ==> r is Err && r->Err_0@ == error_text(error),
{
    match made {
        Ok(client) => Ok(client),
        Err(error) => Err(describe(&error)),
    }
}

/// The client of a worker: it can be built for every proxy.
pub fn worker_client(proxy: reqwest::Proxy) -> (r: Result<reqwest::Client, String>)
    ensures
        r is Ok,
        client_config(r->Ok_0) == worker_config(proxy),
{
    assert(header_text(USER_AGENT@)) by {
        reveal_strlit(
            "Mozilla/5.0 (Windows NT 10.0; Win64; x64) AppleWebKit/537.36 (KHTML, like Gecko) Chrome/113.0.0.0 Safari/537.36",
        );
    }
    client_or_reason(
        make_client(
            USER_AGENT,
            true,
            proxy,
            CONNECT_TIMEOUT_SECS,
            TIMEOUT_SECS,
            no_redirects(),
        ),
    )
}

} // verus!
