//! The command-line client: which sockets it talks to, and how its single
//! argument names the request (inline request text, or a file holding it).
use vstd::prelude::*;

use crate::text::{char_is_white_space, has_prefix, owned, starts_with, white_space};

verus! {

pub open spec fn default_ordinary_socket() -> Seq<char> {
    "/run/cloud/cloud.sock"@
}

pub open spec fn default_meta_socket() -> Seq<char> {
    "/run/cloud/cloud-meta.sock"@
}

/// The two daemon sockets a client sends to.
#[derive(Debug, PartialEq, Eq)]
pub struct Client {
    ordinary_socket_path: String,
    meta_socket_path: String,
}

impl Client {
    pub closed spec fn ordinary_path(&self) -> Seq<char> {
        self.ordinary_socket_path@
    }

    pub closed spec fn meta_path(&self) -> Seq<char> {
        self.meta_socket_path@
    }

    pub fn with_sockets(ordinary_socket_path: String, meta_socket_path: String) -> (client: Self)
        ensures
            client.ordinary_path() == ordinary_socket_path@,
            client.meta_path() == meta_socket_path@,
    {
        Client { ordinary_socket_path, meta_socket_path }
    }

    /// The client for the socket paths the environment names, each falling
    /// back to the daemon's default socket.
    pub fn from_environment_values(ordinary: Option<String>, meta: Option<String>) -> (client: Self)
        ensures
            client.ordinary_path() == match ordinary {
                Some(path) => path@,
                None => default_ordinary_socket(),
            },
            client.meta_path() == match meta {
                Some(path) => path@,
                None => default_meta_socket(),
            },
    {
        let ordinary_socket_path = match ordinary {
            Some(path) => path,
            None => owned("/run/cloud/cloud.sock"),
        };
        let meta_socket_path = match meta {
            Some(path) => path,
            None => owned("/run/cloud/cloud-meta.sock"),
        };
        Self::with_sockets(ordinary_socket_path, meta_socket_path)
    }

    pub fn ordinary_socket_path(&self) -> (path: &String)
        ensures
            path@ == self.ordinary_path(),
    {
        &self.ordinary_socket_path
    }

    pub fn meta_socket_path(&self) -> (path: &String)
        ensures
            path@ == self.meta_path(),
    {
        &self.meta_socket_path
    }
}

/// Why a command line names no request.
#[derive(Debug, PartialEq, Eq)]
pub enum ClientError {
    ExpectedSingleArgument,
    FlagArgument(String),
}

/// Where a command line's request text is.
#[derive(Debug, PartialEq, Eq)]
pub enum ArgumentSource {
    Inline(String),
    File(String),
}

/// The first character that is not white space, if any.
pub open spec fn first_visible(text: Seq<char>) -> Option<char>
    decreases text.len(),
{
    if text.len() == 0 {
        None
    } else if white_space(text[0]) {
        first_visible(text.drop_first())
    } else {
        Some(text[0])
    }
}

/// Request text starts, after leading white space, with `(` or `[`.
pub open spec fn opens_inline(text: Seq<char>) -> bool {
    first_visible(text) == Some('(') || first_visible(text) == Some('[')
}

fn first_visible_char(text: &str) -> (found: Option<char>)
    ensures
        found == first_visible(text@),
{
    let length = text.unicode_len();
    let mut index: usize = 0;
    assert(text@.subrange(0, length as int) =~= text@);
    while index < length
        invariant
            length == text@.len(),
            index <= length,
            first_visible(text@) == first_visible(text@.subrange(index as int, length as int)),
        decreases length - index,
    {
        let c = text.get_char(index);
        let ghost rest = text@.subrange(index as int, length as int);
        assert(rest[0] == c);
        if !char_is_white_space(c) {
            return Some(c);
        }
        assert(rest.drop_first() =~= text@.subrange(index + 1, length as int));
        index = index + 1;
    }
    assert(text@.subrange(length as int, length as int) =~= Seq::<char>::empty());
    None
}

/// How a command line's arguments name the request: exactly one argument,
/// not a flag, holding the request text when it opens like one and naming a
/// file otherwise.
pub fn argument_source(arguments: Vec<String>) -> (source: Result<ArgumentSource, ClientError>)
    ensures
        arguments.len() != 1 ==> source == Err::<ArgumentSource, ClientError>(ClientError::ExpectedSingleArgument),
        arguments.len() == 1 ==> {
            let argument = arguments@[0]@;
            if has_prefix(argument, "--"@) {
                source matches Err(ClientError::FlagArgument(flag)) && flag@ == argument
            } else if opens_inline(argument) {
                source matches Ok(ArgumentSource::Inline(text)) && text@ == argument
            } else {
                source matches Ok(ArgumentSource::File(path)) && path@ == argument
            }
        },
{
    if arguments.len() != 1 {
        return Err(ClientError::ExpectedSingleArgument);
    }
    let mut arguments = arguments;
    let argument = arguments.remove(0);
    if starts_with(argument.as_str(), "--") {
        return Err(ClientError::FlagArgument(argument));
    }
    let first = first_visible_char(argument.as_str());
    if first == Some('(') || first == Some('[') {
        Ok(ArgumentSource::Inline(argument))
    } else {
        Ok(ArgumentSource::File(argument))
    }
}

/// The request text a command line carries.
#[derive(Debug, PartialEq, Eq)]
pub struct CommandLineInput {
    text: String,
}

impl CommandLineInput {
    pub closed spec fn source_text(&self) -> Seq<char> {
        self.text@
    }

    pub fn from_nota(text: &str) -> (input: Self)
        ensures
            input.source_text() == text@,
    {
        CommandLineInput { text: owned(text) }
    }

    pub fn text(&self) -> (text: &String)
        ensures
            text@ == self.source_text(),
    {
        &self.text
    }
}

} // verus!
