//! The proxies of a run: one entry of the proxy list makes one worker.

use vstd::prelude::*;

use crate::http::{describe, direct_routes, error_text, make_proxy, proxy_all, routes_directly};
use crate::messages::{
    bad_proxy_line, bad_proxy_line_text, concurrency_refused_text, malformed_proxy_line,
    malformed_proxy_line_text,
};
use crate::settings::{check_concurrency, too_fast, NO_PROXY_CONC_LIMIT};
use crate::text::{split, split_text, text_of, texts};

verus! {

/// The parts of a proxy line, `HOST:PORT:USER:PASSWORD`.
pub open spec fn parts_of(line: Seq<char>) -> Seq<Seq<char>> {
    split_text(line, ':')
}

/// A part of a proxy line; one that is missing is empty.
pub open spec fn part(line: Seq<char>, i: int) -> Seq<char> {
    if i < parts_of(line).len() {
        parts_of(line)[i]
    } else {
        Seq::empty()
    }
}

/// The address of a proxy with these parts.
pub open spec fn address_text(
    host: Seq<char>,
    port: Seq<char>,
    user: Seq<char>,
    password: Seq<char>,
) -> Seq<char> {
    "http://"@ + user + ":"@ + password + "@"@ + host + ":"@ + port + "/"@
}

/// The address that a proxy line stands for.
pub open spec fn proxy_url_text(line: Seq<char>) -> Seq<char> {
    address_text(part(line, 0), part(line, 1), part(line, 2), part(line, 3))
}

/// A line that names no port.
pub open spec fn malformed(line: Seq<char>) -> bool {
    parts_of(line).len() < 2
}

/// A part of a line that was split.
fn part_or_empty(parts: &Vec<String>, i: usize) -> (r: String)
    ensures
        r@ == (if i < parts@.len() {
            parts@[i as int]@
        } else {
            Seq::<char>::empty()
        }),
{
    if i < parts.len() {
        parts[i].clone()
    } else {
        String::new()
    }
}

/// The address that the parts of a proxy line stand for.
fn address(parts: &Vec<String>) -> (r: String)
    ensures
        forall|line: Seq<char>| #[trigger]
            parts_of(line) == texts(parts@) ==> r@ == proxy_url_text(line),
{
    let host = part_or_empty(parts, 0);
    let port = part_or_empty(parts, 1);
    let user = part_or_empty(parts, 2);
    let password = part_or_empty(parts, 3);
    "http://".to_owned().concat(user.as_str()).concat(":").concat(password.as_str()).concat(
        "@",
    ).concat(host.as_str()).concat(":").concat(port.as_str()).concat("/")
}

/// The address that a proxy line stands for.
pub fn proxy_url(line: &str) -> (r: String)
    ensures
        r@ == proxy_url_text(line@),
{
    address(&split(line, ':'))
}

/// What came of a line of the proxy list.
#[derive(Debug, PartialEq)]
pub struct LineOutcome<S> {
    /// A line to print.
    pub warning: Option<S>,
    /// The line that says why the run cannot start.
    pub error: Option<S>,
}

impl View for LineOutcome<String> {
    type V = LineOutcome<Seq<char>>;

    open spec fn view(&self) -> LineOutcome<Seq<char>> {
        LineOutcome { warning: text_of(self.warning), error: text_of(self.error) }
    }
}

/// What comes of a line of the proxy list, where `made` is what came of its address. An empty line
/// is passed over. A line without a port is named, and its address is tried all the same.
pub open spec fn line_outcome(
    line: Seq<char>,
    made: Result<reqwest::Proxy, reqwest::Error>,
) -> LineOutcome<Seq<char>> {
    if line.len() == 0 {
        LineOutcome { warning: None, error: None }
    } else {
        LineOutcome {
            warning: if malformed(line) {
                Some(malformed_proxy_line_text(line))
            } else {
                None
            },
            error: match made {
                Ok(_) => None,
                Err(error) => Some(
                    bad_proxy_line_text(line, proxy_url_text(line), error_text(error)),
                ),
            },
        }
    }
}

/// The proxies after a line, where `made` is what came of its address.
pub open spec fn with_line(
    proxies: Seq<reqwest::Proxy>,
    line: Seq<char>,
    made: Result<reqwest::Proxy, reqwest::Error>,
) -> Seq<reqwest::Proxy> {
    if line.len() > 0 && made is Ok {
        proxies.push(made->Ok_0)
    } else {
        proxies
    }
}

/// The proxies of a proxy list, in the order of their lines.
pub struct ProxyList {
    proxies: Vec<reqwest::Proxy>,
}

impl View for ProxyList {
    type V = Seq<reqwest::Proxy>;

    closed spec fn view(&self) -> Seq<reqwest::Proxy> {
        self.proxies@
    }
}

impl ProxyList {
    /// No proxy of the list sends a request directly.
    pub open spec fn wf(self) -> bool {
        forall|i: int| 0 <= i < self@.len() ==> !routes_directly(#[trigger] self@[i])
    }

    /// A list without entries.
    pub fn new() -> (r: ProxyList)
        ensures
            r@ == Seq::<reqwest::Proxy>::empty(),
            r.wf(),
    {
        ProxyList { proxies: Vec::new() }
    }

    /// Takes what came of the address of a line.
    pub fn add(&mut self, line: &str, made: Result<reqwest::Proxy, reqwest::Error>) -> (r:
        LineOutcome<String>)
        ensures
            final(self)@ == with_line(old(self)@, line@, made),
            r@ == line_outcome(line@, made),
    {
        if line.is_empty() {
            return LineOutcome { warning: None, error: None };
        }
        let parts = split(line, ':');
        let warning = if parts.len() < 2 {
            Some(malformed_proxy_line(line))
        } else {
            None
        };
        let error = match made {
            Ok(proxy) => {
                self.proxies.push(proxy);
                None
            },
            Err(error) => {
                let url = address(&parts);
                Some(bad_proxy_line(line, url.as_str(), describe(&error).as_str()))
            },
        };
        LineOutcome { warning, error }
    }

    /// Takes a line of the proxy list.
    pub fn add_line(&mut self, line: &str) -> (r: LineOutcome<String>)
        ensures
            final(self)@ == with_line(old(self)@, line@, proxy_all(proxy_url_text(line@))),
            r@ == line_outcome(line@, proxy_all(proxy_url_text(line@))),
            old(self).wf() ==> final(self).wf(),
    {
        if line.is_empty() {
            return LineOutcome { warning: None, error: None };
        }
        let url = proxy_url(line);
        self.add(line, make_proxy(url.as_str()))
    }

    /// The proxies, one for each worker.
    pub fn into_routes(self) -> (r: Vec<reqwest::Proxy>)
        ensures
            r@ == self@,
    {
        self.proxies
    }
}

/// The routes of a run's workers: those of the proxy list where there is one. Without a list, as
/// many direct ones as requests are asked for per second, unless that is too fast.
pub fn worker_routes(
    list: Option<ProxyList>,
    concurrent: usize,
    concurrent_unsafe: bool,
) -> (r: Result<Vec<reqwest::Proxy>, String>)
    ensures
        r is Err <==> list is None && too_fast(concurrent, concurrent_unsafe),
        r matches Err(text) ==> text@ == concurrency_refused_text(NO_PROXY_CONC_LIMIT as nat),
        r matches Ok(routes) ==> match list {
            Some(list) => routes@ == list@,
            None => {
                &&& routes@.len() == concurrent
                &&& forall|i: int| 0 <= i < concurrent ==> routes_directly(#[trigger] routes@[i])
            },
        },
{
    match list {
        Some(list) => Ok(list.into_routes()),
        None => match check_concurrency(concurrent, concurrent_unsafe) {
            Ok(_) => Ok(direct_routes(concurrent)),
            Err(text) => Err(text),
        },
    }
}

} // verus!
