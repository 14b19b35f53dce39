//! What the provider HTTP APIs share: the bearer header, the request URL,
//! the failure of a request, and joined error messages. Sending requests is
//! the daemon's own edge; this module only computes what it sends and reads.
use vstd::prelude::*;

verus! {

/// The `Authorization` header value for a token.
pub fn bearer(token: &str) -> (authorization: String)
    ensures
        authorization@ == "Bearer "@ + token@,
{
    let mut authorization = String::new();
    authorization.append("Bearer ");
    authorization.append(token);
    proof {
        reveal_strlit("Bearer ");
    }
    authorization
}

/// The URL of a path under an API root.
pub fn join_url(base: &String, path: &str) -> (url: String)
    ensures
        url@ == base@ + path@,
{
    let mut url = base.clone();
    url.append(path);
    url
}

/// A request that failed: the HTTP status it was answered with, if it got
/// that far, and the message that came with the failure.
#[derive(Debug, PartialEq, Eq)]
pub struct TransportFailure {
    pub status: Option<u16>,
    pub message: String,
}

/// Messages joined with a separator between each two.
pub open spec fn joined(parts: Seq<Seq<char>>, separator: Seq<char>) -> Seq<char>
    decreases parts.len(),
{
    if parts.len() == 0 {
        Seq::empty()
    } else if parts.len() == 1 {
        parts[0]
    } else {
        joined(parts.drop_last(), separator) + separator + parts.last()
    }
}

/// Joins messages with a separator between each two.
pub fn join_messages(messages: &Vec<String>, separator: &str) -> (text: String)
    ensures
        text@ == joined(messages.deep_view(), separator@),
{
    let ghost parts = messages.deep_view();
    let mut text = String::new();
    let mut index: usize = 0;
    while index < messages.len()
        invariant
            parts == messages.deep_view(),
            index <= messages.len(),
            text@ == joined(parts.take(index as int), separator@),
        decreases messages.len() - index,
    {
        if index > 0 {
            text.append(separator);
        }
        text.append(messages[index].as_str());
        proof {
            let next = parts.take(index + 1);
            assert(next.drop_last() =~= parts.take(index as int));
            assert(next.last() == parts[index as int]);
            if index == 0 {
                assert(parts.take(0) =~= Seq::<Seq<char>>::empty());
                assert(text@ =~= parts[0]);
            }
        }
        index = index + 1;
    }
    assert(parts.take(parts.len() as int) =~= parts);
    text
}

} // verus!
