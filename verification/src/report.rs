//! The log lines of a run.

use vstd::prelude::*;
use vstd::string::*;
use crate::discovery::{server_views, DiscoveredServer, DiscoveredServerView};
use crate::error::{ConnectError, Failure, MonitorError};
use crate::stack::status_code_text;
use crate::text::{decimal, decimal_text, texts};

verus! {

/// A status code for debugging: its text and, in brackets, its bits in
/// decimal.
pub open spec fn status_debug_text(text: Seq<char>, bits: u32) -> Seq<char> {
    text + " ("@ + decimal(bits as nat) + ")"@
}

/// Writes a status code for debugging from its text and its bits.
pub fn status_debug(text: &str, bits: u32) -> (debug: String)
    ensures
        debug@ == status_debug_text(text@, bits),
{
    let mut debug = String::from_str(text);
    debug.append(" (");
    debug.append(decimal_text(bits as u64).as_str());
    debug.append(")");
    debug
}

/// The line that reports a failure, given the text of its status code. It
/// names the phase that failed.
pub open spec fn failure_line_text(failure: Failure, status: Seq<char>) -> Seq<char> {
    match failure {
        Failure::Discovery(e) => "Discovery Failed: "@ + status_debug_text(status, e.status.bits),
        Failure::Connect(ConnectError::Configuration) => {
            "Connect Failed: the client configuration is not valid"@
        },
        Failure::Connect(ConnectError::Rejected(_)) => "Connect Failed: "@ + status,
        Failure::Connect(ConnectError::Closed) => {
            "Connect Failed: the session closed before it was connected"@
        },
        Failure::Subscription(_) => "Error, got an issue while Subscribing "@ + status,
        Failure::Monitor(MonitorError::Rejected(_)) => "Error, got an issue while Subscribing "@
            + status,
        Failure::Monitor(MonitorError::CountMismatch { expected, received }) => {
            "Error, got an issue while Subscribing: asked for "@ + decimal(expected as nat)
                + " items, got "@ + decimal(received as nat) + " results"@
        },
        Failure::Protocol => "Unexpected event"@,
    }
}

/// The text of the status code of a failure; empty where it has none.
pub open spec fn failure_status_text(failure: Failure) -> Seq<char> {
    match failure.status_spec() {
        Some(status) => status_code_text(status.bits),
        None => Seq::empty(),
    }
}

/// The line that reports a failure.
pub open spec fn failure_text(failure: Failure) -> Seq<char> {
    failure_line_text(failure, failure_status_text(failure))
}

fn prefixed(prefix: &str, text: &str) -> (line: String)
    ensures
        line@ == prefix@ + text@,
{
    let mut line = String::from_str(prefix);
    line.append(text);
    line
}

/// Writes the line that reports `failure` from the text of its status code.
pub fn failure_line(failure: Failure, status: &str) -> (line: String)
    ensures
        line@ == failure_line_text(failure, status@),
{
    match failure {
        Failure::Discovery(e) => {
            let debug = status_debug(status, e.status.bits);
            prefixed("Discovery Failed: ", debug.as_str())
        },
        Failure::Connect(ConnectError::Configuration) => String::from_str(
            "Connect Failed: the client configuration is not valid",
        ),
        Failure::Connect(ConnectError::Rejected(_)) => prefixed("Connect Failed: ", status),
        Failure::Connect(ConnectError::Closed) => String::from_str(
            "Connect Failed: the session closed before it was connected",
        ),
        Failure::Subscription(_) => prefixed("Error, got an issue while Subscribing ", status),
        Failure::Monitor(MonitorError::Rejected(_)) => prefixed(
            "Error, got an issue while Subscribing ",
            status,
        ),
        Failure::Monitor(MonitorError::CountMismatch { expected, received }) => {
            let mut line = String::from_str("Error, got an issue while Subscribing: asked for ");
            line.append(decimal_text(expected as u64).as_str());
            line.append(" items, got ");
            line.append(decimal_text(received as u64).as_str());
            line.append(" results");
            line
        },
        Failure::Protocol => String::from_str("Unexpected event"),
    }
}

impl Failure {
    /// Writes the line that reports the failure.
    pub fn describe(self) -> (line: String)
        ensures
            line@ == failure_text(self),
    {
        match self.status() {
            Some(status) => {
                let text = status.text();
                failure_line(self, text.as_str())
            },
            None => {
                let line = failure_line(self, "");
                proof {
                    reveal_strlit("");
                    assert(""@ =~= Seq::<char>::empty());
                }
                line
            },
        }
    }
}

/// The line that announces a discovery call.
pub open spec fn discovery_started_text(url: Seq<char>) -> Seq<char> {
    "Attempting to connect to discovery server "@ + url + " ..."@
}

/// Writes the line that announces a discovery call.
pub fn discovery_started_line(url: &str) -> (line: String)
    ensures
        line@ == discovery_started_text(url@),
{
    let mut line = String::from_str("Attempting to connect to discovery server ");
    line.append(url);
    line.append(" ...");
    line
}

/// The line that reports a discovery error, given the text of the status
/// and its bits.
pub open spec fn discovery_error_text(status: Seq<char>, bits: u32) -> Seq<char> {
    "ERROR: Cannot find servers on discovery server: "@ + status_debug_text(status, bits)
}

/// Writes the line that reports a discovery error from the text of the
/// status and its bits.
pub fn discovery_error_line(status: &str, bits: u32) -> (line: String)
    ensures
        line@ == discovery_error_text(status@, bits),
{
    let debug = status_debug(status, bits);
    prefixed("ERROR: Cannot find servers on discovery server: ", debug.as_str())
}

/// The line that reports a failed disconnect, given the text of the status.
pub open spec fn disconnect_error_text(status: Seq<char>) -> Seq<char> {
    "Disconnect failed: "@ + status
}

/// Writes the line that reports a failed disconnect from the text of the
/// status.
pub fn disconnect_error_line(status: &str) -> (line: String)
    ensures
        line@ == disconnect_error_text(status@),
{
    prefixed("Disconnect failed: ", status)
}

/// The line that is logged where discovery finds no URL.
pub open spec fn no_servers_text() -> Seq<char> {
    "No servers found at the discovery URL"@
}

/// The line that reports the id of a new subscription.
pub open spec fn subscription_created_text(id: u32) -> Seq<char> {
    "Created PubSub SubscriptionID: "@ + decimal(id as nat)
}

/// Writes the line that reports the id of a new subscription.
pub fn subscription_created_line(id: u32) -> (line: String)
    ensures
        line@ == subscription_created_text(id),
{
    let digits = decimal_text(id as u64);
    prefixed("Created PubSub SubscriptionID: ", digits.as_str())
}

/// The lines for one server of a discovery response: its name, then each of
/// its URLs, or a remark that it has none.
pub open spec fn server_lines(server: DiscoveredServerView) -> Seq<Seq<char>> {
    if server.discovery_urls.len() == 0 {
        seq!["Server: "@ + server.application_name, "  No discovery URLs for this server"@]
    } else {
        seq!["Server: "@ + server.application_name] + server.discovery_urls.map_values(
            |url: Seq<char>| "  Discovery URL: "@ + url,
        )
    }
}

/// The lines for the servers of a discovery response, in order.
pub open spec fn servers_lines(servers: Seq<DiscoveredServerView>) -> Seq<Seq<char>>
    decreases servers.len(),
{
    if servers.len() == 0 {
        Seq::empty()
    } else {
        servers_lines(servers.drop_last()) + server_lines(servers.last())
    }
}

/// The lines that report a discovery response: the number of servers, then
/// the lines of each server.
pub open spec fn discovery_report_text(servers: Seq<DiscoveredServerView>) -> Seq<Seq<char>> {
    seq![
        "Discovery server responded with "@ + decimal(servers.len()) + " servers:"@,
    ] + servers_lines(servers)
}

/// Writes the lines that report a discovery response.
pub fn discovery_report(servers: &Vec<DiscoveredServer>) -> (lines: Vec<String>)
    ensures
        texts(lines@) == discovery_report_text(server_views(servers@)),
{
    let mut head = String::from_str("Discovery server responded with ");
    head.append(decimal_text(servers.len() as u64).as_str());
    head.append(" servers:");
    let ghost head_text = head@;
    let mut lines: Vec<String> = Vec::new();
    lines.push(head);
    assert(texts(lines@) =~= seq![head_text]);
    let mut i: usize = 0;
    assert(server_views(servers@).take(0) =~= Seq::empty());
    while i < servers.len()
        invariant
            i <= servers.len(),
            texts(lines@) == seq![head_text] + servers_lines(
                server_views(servers@).take(i as int),
            ),
        decreases servers.len() - i,
    {
        let server = &servers[i];
        let ghost before = texts(lines@);
        let name = prefixed("Server: ", server.application_name.as_str());
        let ghost name_text = name@;
        lines.push(name);
        assert(texts(lines@) =~= before.push(name_text));
        if server.discovery_urls.len() == 0 {
            let ghost named = texts(lines@);
            lines.push(String::from_str("  No discovery URLs for this server"));
            assert(texts(lines@) =~= named.push("  No discovery URLs for this server"@));
            assert(texts(lines@) =~= before + server_lines(server@));
        } else {
            let mut j: usize = 0;
            let ghost urls = server@.discovery_urls;
            let ghost url_line = |url: Seq<char>| "  Discovery URL: "@ + url;
            while j < server.discovery_urls.len()
                invariant
                    j <= server.discovery_urls.len(),
                    urls == texts(server.discovery_urls@),
                    url_line == |url: Seq<char>| "  Discovery URL: "@ + url,
                    texts(lines@) == before.push(name_text) + urls.map_values(url_line).take(
                        j as int,
                    ),
                decreases server.discovery_urls.len() - j,
            {
                let ghost written = texts(lines@);
                let line = prefixed("  Discovery URL: ", server.discovery_urls[j].as_str());
                let ghost line_text = line@;
                lines.push(line);
                proof {
                    assert(texts(lines@) =~= written.push(line_text));
                    assert(line_text == url_line(urls[j as int]));
                    assert(urls.map_values(url_line).take(j + 1) =~= urls.map_values(
                        url_line,
                    ).take(j as int).push(line_text));
                }
                j += 1;
            }
            assert(urls.map_values(url_line).take(j as int) =~= urls.map_values(url_line));
            assert(texts(lines@) =~= before + server_lines(server@));
        }
        proof {
            let views = server_views(servers@);
            assert(views.take(i + 1).drop_last() =~= views.take(i as int));
            assert(views.take(i + 1).last() == server@);
        }
        i += 1;
    }
    assert(server_views(servers@).take(i as int) =~= server_views(servers@));
    lines
}

} // verus!
