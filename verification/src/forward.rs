//! Sending an allowed request on to GitHub and its answer back.
use crate::proxy::{plain, Reply, ReplyView};
use crate::text::same_text;
use vstd::prelude::*;
use vstd::string::*;

verus! {

/// The most bytes that the body of a request may have.
pub const MAX_BODY_BYTES: usize = 8_388_608;

/// A header. The name is in lower case, as HTTP libraries hand it out.
#[derive(Debug, PartialEq, Eq)]
pub struct Header {
    pub name: String,
    pub value: Vec<u8>,
}

/// What a `Header` says.
pub struct HeaderView {
    pub name: Seq<char>,
    pub value: Seq<u8>,
}

impl View for Header {
    type V = HeaderView;

    open spec fn view(&self) -> HeaderView {
        HeaderView { name: self.name@, value: self.value@ }
    }
}

/// What a list of headers says.
pub open spec fn header_views(headers: Seq<Header>) -> Seq<HeaderView> {
    headers.map_values(|h: Header| h@)
}

/// Whether a header belongs to a single connection.
pub open spec fn is_hop_by_hop(name: Seq<char>) -> bool {
    ||| name == "connection"@
    ||| name == "keep-alive"@
    ||| name == "proxy-authenticate"@
    ||| name == "proxy-authorization"@
    ||| name == "te"@
    ||| name == "trailers"@
    ||| name == "transfer-encoding"@
    ||| name == "upgrade"@
}

/// Whether a header of a request goes on to GitHub.
pub open spec fn goes_on(h: HeaderView) -> bool {
    !is_hop_by_hop(h.name) && h.name != "host"@
}

/// Whether a header of an answer goes back to the client.
pub open spec fn comes_back(h: HeaderView) -> bool {
    !is_hop_by_hop(h.name)
}

/// The headers of a request that go on to GitHub, in their order.
pub open spec fn headers_on(headers: Seq<HeaderView>) -> Seq<HeaderView> {
    headers.filter(|h: HeaderView| goes_on(h))
}

/// The headers of an answer that go back to the client, in their order.
pub open spec fn headers_back(headers: Seq<HeaderView>) -> Seq<HeaderView> {
    headers.filter(|h: HeaderView| comes_back(h))
}

/// Where on GitHub a request goes.
pub open spec fn target(path_and_query: Option<Seq<char>>) -> Seq<char> {
    "https://github.com"@ + (match path_and_query {
        Some(pq) => pq,
        None => "/"@,
    })
}

/// Whether a header belongs to a single connection.
fn hop_by_hop(name: &str) -> (yes: bool)
    ensures
        yes == is_hop_by_hop(name@),
{
    same_text(name, "connection") || same_text(name, "keep-alive") || same_text(
        name,
        "proxy-authenticate",
    ) || same_text(name, "proxy-authorization") || same_text(name, "te") || same_text(
        name,
        "trailers",
    ) || same_text(name, "transfer-encoding") || same_text(name, "upgrade")
}

/// Copies a header.
fn copy_header(header: &Header) -> (copy: Header)
    ensures
        copy@ == header@,
{
    let value = header.value.clone();
    assert(value@ =~= header.value@);
    Header { name: header.name.clone(), value }
}

/// The headers of a request that go on to GitHub.
fn select_on(headers: &Vec<Header>) -> (kept: Vec<Header>)
    ensures
        header_views(kept@) == headers_on(header_views(headers@)),
{
    let mut kept: Vec<Header> = Vec::new();
    let ghost all = header_views(headers@);
    let ghost pred = |h: HeaderView| goes_on(h);
    let mut i: usize = 0;
    proof {
        reveal(Seq::filter);
        assert(header_views(kept@) =~= all.take(0).filter(pred));
    }
    while i < headers.len()
        invariant
            i <= headers.len(),
            all == header_views(headers@),
            pred == |h: HeaderView| goes_on(h),
            header_views(kept@) == all.take(i as int).filter(pred),
        decreases headers.len() - i,
    {
        proof {
            reveal(Seq::filter);
            assert(all.take(i + 1).drop_last() =~= all.take(i as int));
            assert(all.take(i + 1).last() == headers@[i as int]@);
        }
        let ghost before = kept@;
        if !hop_by_hop(headers[i].name.as_str()) && !same_text(headers[i].name.as_str(), "host") {
            kept.push(copy_header(&headers[i]));
            assert(header_views(kept@) =~= header_views(before).push(headers@[i as int]@));
        }
        i = i + 1;
    }
    assert(all.take(all.len() as int) =~= all);
    kept
}

/// The headers of an answer that go back to the client.
fn select_back(headers: &Vec<Header>) -> (kept: Vec<Header>)
    ensures
        header_views(kept@) == headers_back(header_views(headers@)),
{
    let mut kept: Vec<Header> = Vec::new();
    let ghost all = header_views(headers@);
    let ghost pred = |h: HeaderView| comes_back(h);
    let mut i: usize = 0;
    proof {
        reveal(Seq::filter);
        assert(header_views(kept@) =~= all.take(0).filter(pred));
    }
    while i < headers.len()
        invariant
            i <= headers.len(),
            all == header_views(headers@),
            pred == |h: HeaderView| comes_back(h),
            header_views(kept@) == all.take(i as int).filter(pred),
        decreases headers.len() - i,
    {
        proof {
            reveal(Seq::filter);
            assert(all.take(i + 1).drop_last() =~= all.take(i as int));
            assert(all.take(i + 1).last() == headers@[i as int]@);
        }
        let ghost before = kept@;
        if !hop_by_hop(headers[i].name.as_str()) {
            kept.push(copy_header(&headers[i]));
            assert(header_views(kept@) =~= header_views(before).push(headers@[i as int]@));
        }
        i = i + 1;
    }
    assert(all.take(all.len() as int) =~= all);
    kept
}

/// A request to GitHub; method and body are those of the client's request.
#[derive(Debug, PartialEq, Eq)]
pub struct Outgoing {
    pub url: String,
    pub headers: Vec<Header>,
}

/// The head of an answer to the client; the body is that of GitHub's answer, as
/// it arrives.
#[derive(Debug, PartialEq, Eq)]
pub struct Incoming {
    pub status: u16,
    pub headers: Vec<Header>,
}

/// The reply to a request whose body could not be read.
pub open spec fn unreadable_body() -> ReplyView {
    ReplyView { status: 400, body: "could not read request body\n"@ }
}

/// The reply when GitHub does not answer.
pub open spec fn no_answer(why: Seq<char>) -> ReplyView {
    ReplyView { status: 502, body: "GitGate: upstream error — "@ + why + "\n"@ }
}

/// An allowed request is to be sent on. Its body could be read, or not; if not,
/// it is answered at once.
pub fn forward_request(
    path_and_query: Option<&str>,
    headers: &Vec<Header>,
    body_read: bool,
) -> (outgoing: Result<Outgoing, Reply>)
    ensures
        match outgoing {
            Ok(request) => {
                &&& body_read
                &&& request.url@ == target(
                    match path_and_query {
                        Some(pq) => Some(pq@),
                        None => None,
                    },
                )
                &&& header_views(request.headers@) == headers_on(header_views(headers@))
            },
            Err(reply) => !body_read && reply@ == unreadable_body(),
        },
{
    if !body_read {
        return Err(plain(400, "could not read request body\n"));
    }
    let pq = match path_and_query {
        Some(pq) => pq,
        None => "/",
    };
    let url = "https://github.com".to_owned().concat(pq);
    Ok(Outgoing { url, headers: select_on(headers) })
}

/// GitHub has answered with a status and headers, or could not be asked.
pub fn forward_answer(answer: Result<(u16, Vec<Header>), String>) -> (incoming: Result<
    Incoming,
    Reply,
>)
    ensures
        match answer {
            Ok((status, headers)) => incoming matches Ok(head) && head.status == status
                && header_views(head.headers@) == headers_back(header_views(headers@)),
            Err(why) => incoming matches Err(reply) && reply@ == no_answer(why@),
        },
{
    match answer {
        Ok((status, headers)) => Ok(Incoming { status, headers: select_back(&headers) }),
        Err(why) => {
            let msg = "GitGate: upstream error — ".to_owned().concat(why.as_str()).concat("\n");
            Err(plain(502, msg.as_str()))
        },
    }
}

/// The reply when GitHub's answer could not be passed on.
pub fn unusable_answer(why: &str) -> (reply: Reply)
    ensures
        reply@ == (ReplyView { status: 500, body: why@ }),
{
    plain(500, why)
}

} // verus!
