//! Discovery: from the servers that a discovery endpoint lists to the URLs
//! that a client can connect to.

use vstd::prelude::*;
use crate::error::DiscoveryError;
use crate::status::StatusCode;
use crate::text::texts;

verus! {

/// One server of a discovery response.
#[derive(Debug, PartialEq, Eq)]
pub struct DiscoveredServer {
    pub application_name: String,
    /// The URLs that the server advertises, in its order. May be empty.
    pub discovery_urls: Vec<String>,
}

/// What a [`DiscoveredServer`] stands for.
pub struct DiscoveredServerView {
    pub application_name: Seq<char>,
    pub discovery_urls: Seq<Seq<char>>,
}

impl View for DiscoveredServer {
    type V = DiscoveredServerView;

    open spec fn view(&self) -> DiscoveredServerView {
        DiscoveredServerView {
            application_name: self.application_name@,
            discovery_urls: texts(self.discovery_urls@),
        }
    }
}

/// The servers of a response, each by its view.
pub open spec fn server_views(servers: Seq<DiscoveredServer>) -> Seq<DiscoveredServerView> {
    servers.map_values(|s: DiscoveredServer| s@)
}

/// All discovery URLs of the servers, in server order and, within a server,
/// in the server's own order. Nothing is removed, so a URL that two servers
/// advertise occurs twice.
pub open spec fn server_urls(servers: Seq<DiscoveredServerView>) -> Seq<Seq<char>>
    decreases servers.len(),
{
    if servers.len() == 0 {
        Seq::empty()
    } else {
        server_urls(servers.drop_last()) + servers.last().discovery_urls
    }
}

/// The number of URLs that the servers with at least one URL advertise.
pub open spec fn usable_url_count(servers: Seq<DiscoveredServerView>) -> nat
    decreases servers.len(),
{
    if servers.len() == 0 {
        0
    } else if servers.last().discovery_urls.len() >= 1 {
        usable_url_count(servers.drop_last()) + servers.last().discovery_urls.len()
    } else {
        usable_url_count(servers.drop_last())
    }
}

/// What a discovery call returns for a response of the discovery endpoint.
pub open spec fn discovery_result(
    response: Result<Seq<DiscoveredServerView>, StatusCode>,
) -> Result<Seq<Seq<char>>, DiscoveryError> {
    match response {
        Ok(servers) => Ok(server_urls(servers)),
        Err(status) => Err(DiscoveryError { status }),
    }
}

/// The view of a response.
pub open spec fn response_view(
    response: Result<Vec<DiscoveredServer>, StatusCode>,
) -> Result<Seq<DiscoveredServerView>, StatusCode> {
    match response {
        Ok(servers) => Ok(server_views(servers@)),
        Err(status) => Err(status),
    }
}

/// The view of what a discovery call returns.
pub open spec fn urls_view(
    result: Result<Vec<String>, DiscoveryError>,
) -> Result<Seq<Seq<char>>, DiscoveryError> {
    match result {
        Ok(urls) => Ok(texts(urls@)),
        Err(e) => Err(e),
    }
}

/// Flattens the discovery URLs of all servers into one sequence. A server
/// without URLs adds nothing.
pub fn collect_urls(servers: &Vec<DiscoveredServer>) -> (urls: Vec<String>)
    ensures
        texts(urls@) == server_urls(server_views(servers@)),
{
    let mut urls: Vec<String> = Vec::new();
    let mut i: usize = 0;
    assert(server_views(servers@).take(0) =~= Seq::empty());
    while i < servers.len()
        invariant
            i <= servers.len(),
            texts(urls@) == server_urls(server_views(servers@).take(i as int)),
        decreases servers.len() - i,
    {
        let server = &servers[i];
        let ghost before = texts(urls@);
        let mut j: usize = 0;
        while j < server.discovery_urls.len()
            invariant
                j <= server.discovery_urls.len(),
                texts(urls@) == before + texts(server.discovery_urls@).take(j as int),
            decreases server.discovery_urls.len() - j,
        {
            let ghost collected = urls@;
            let url = server.discovery_urls[j].clone();
            urls.push(url);
            proof {
                let advertised = texts(server.discovery_urls@);
                assert(texts(urls@) =~= texts(collected).push(url@));
                assert(advertised.take(j + 1) =~= advertised.take(j as int).push(url@));
            }
            j += 1;
        }
        proof {
            let views = server_views(servers@);
            assert(texts(server.discovery_urls@).take(j as int) =~= server@.discovery_urls);
            assert(views.take(i + 1).drop_last() =~= views.take(i as int));
            assert(views.take(i + 1).last() == server@);
        }
        i += 1;
    }
    assert(server_views(servers@).take(i as int) =~= server_views(servers@));
    urls
}

/// Whether any server advertises a URL, that is, whether a discovery call
/// on these servers returns anything.
pub fn advertises_url(servers: &Vec<DiscoveredServer>) -> (found: bool)
    ensures
        found == (server_urls(server_views(servers@)).len() > 0),
{
    let mut i: usize = 0;
    assert(server_views(servers@).take(0) =~= Seq::empty());
    while i < servers.len()
        invariant
            i <= servers.len(),
            server_urls(server_views(servers@).take(i as int)).len() == 0,
        decreases servers.len() - i,
    {
        if servers[i].discovery_urls.len() > 0 {
            proof {
                lemma_url_order(server_views(servers@), i as int, 0);
            }
            return true;
        }
        proof {
            let views = server_views(servers@);
            assert(views.take(i + 1).drop_last() =~= views.take(i as int));
            assert(views.take(i + 1).last() == servers@[i as int]@);
        }
        i += 1;
    }
    assert(server_views(servers@).take(i as int) =~= server_views(servers@));
    false
}

/// Turns the response of the discovery endpoint into the result of a
/// discovery call: the URLs of the servers, or the error as it came.
pub fn discover(response: Result<Vec<DiscoveredServer>, StatusCode>) -> (result: Result<
    Vec<String>,
    DiscoveryError,
>)
    ensures
        urls_view(result) == discovery_result(response_view(response)),
{
    match response {
        Ok(servers) => Ok(collect_urls(&servers)),
        Err(status) => Err(DiscoveryError { status }),
    }
}

/// A discovery call returns as many URLs as the servers that have any
/// advertise together.
pub proof fn lemma_url_count(servers: Seq<DiscoveredServerView>)
    ensures
        server_urls(servers).len() == usable_url_count(servers),
    decreases servers.len(),
{
    if servers.len() > 0 {
        lemma_url_count(servers.drop_last());
    }
}

/// The URLs of the first `k` servers come first, and the URLs of server `k`
/// follow them in the server's own order.
pub proof fn lemma_url_order(servers: Seq<DiscoveredServerView>, k: int, j: int)
    requires
        0 <= k < servers.len(),
        0 <= j < servers[k].discovery_urls.len(),
    ensures
        server_urls(servers.take(k)).len() + j < server_urls(servers).len(),
        server_urls(servers)[server_urls(servers.take(k)).len() + j]
            == servers[k].discovery_urls[j],
        server_urls(servers).take(server_urls(servers.take(k)).len() as int) == server_urls(
            servers.take(k),
        ),
    decreases servers.len(),
{
    let front = servers.drop_last();
    if k == servers.len() - 1 {
        assert(servers.take(k) =~= front);
        assert(server_urls(servers).take(server_urls(front).len() as int) =~= server_urls(front));
    } else {
        lemma_url_order(front, k, j);
        assert(front.take(k) =~= servers.take(k));
        let n = server_urls(servers.take(k)).len() as int;
        assert(server_urls(servers).take(n) =~= server_urls(front).take(n));
    }
}

/// Leaving out the servers that advertise no URL changes nothing.
pub proof fn lemma_servers_without_urls_add_nothing(servers: Seq<DiscoveredServerView>)
    ensures
        server_urls(servers) == server_urls(
            servers.filter(|s: DiscoveredServerView| s.discovery_urls.len() >= 1),
        ),
    decreases servers.len(),
{
    reveal(Seq::filter);
    let usable = |s: DiscoveredServerView| s.discovery_urls.len() >= 1;
    if servers.len() > 0 {
        let front = servers.drop_last();
        lemma_servers_without_urls_add_nothing(front);
        if usable(servers.last()) {
            let kept = front.filter(usable).push(servers.last());
            assert(kept.drop_last() =~= front.filter(usable));
            assert(kept.last() == servers.last());
        } else {
            assert(servers.last().discovery_urls =~= Seq::empty());
            assert(server_urls(servers) =~= server_urls(front));
        }
    }
}

} // verus!
