use vstd::prelude::*;
use vstd::string::*;

verus! {

/// Status sent back for a request whose title is missing or too long.
pub const BAD_REQUEST: u16 = 400;

/// Status sent back when the upstream service could not be reached or read.
pub const BAD_GATEWAY: u16 = 502;

/// Why a search did not produce results.
#[derive(Clone, Debug, PartialEq, Eq)]
pub enum Failure {
    /// The title was absent or empty.
    TitleRequired,
    /// The title was 500 characters long or longer.
    TitleTooLong,
    /// The upstream service answered with a status it should not have.
    UpstreamStatus(u16),
    /// The upstream service could not be reached; carries a diagnostic.
    Transport(String),
    /// The upstream answer did not have the expected shape; carries a diagnostic.
    Decode(String),
}

pub open spec fn required_message() -> Seq<char> {
    "Title is required"@
}

pub open spec fn too_long_message() -> Seq<char> {
    "Title is too long (500 characters or more)"@
}

pub open spec fn upstream_message() -> Seq<char> {
    "External API error"@
}

pub open spec fn decode_prefix() -> Seq<char> {
    "Failed to parse upstream response: "@
}

impl Failure {
    pub open spec fn status_spec(&self) -> u16 {
        match self {
            Failure::TitleRequired => BAD_REQUEST,
            Failure::TitleTooLong => BAD_REQUEST,
            Failure::UpstreamStatus(s) => *s,
            Failure::Transport(_) => BAD_GATEWAY,
            Failure::Decode(_) => BAD_GATEWAY,
        }
    }

    pub open spec fn message_spec(&self) -> Seq<char> {
        match self {
            Failure::TitleRequired => required_message(),
            Failure::TitleTooLong => too_long_message(),
            Failure::UpstreamStatus(_) => upstream_message(),
            Failure::Transport(d) => d@,
            Failure::Decode(d) => decode_prefix() + d@,
        }
    }

    /// The HTTP status that answers the inbound request.
    pub fn status(&self) -> (r: u16)
        ensures
            r == self.status_spec(),
    {
        match self {
            Failure::TitleRequired => BAD_REQUEST,
            Failure::TitleTooLong => BAD_REQUEST,
            Failure::UpstreamStatus(s) => *s,
            Failure::Transport(_) => BAD_GATEWAY,
            Failure::Decode(_) => BAD_GATEWAY,
        }
    }

    /// The text of the `error` field sent back to the client.
    pub fn message(&self) -> (r: String)
        ensures
            r@ == self.message_spec(),
    {
        proof {
            reveal_strlit("Title is required");
            reveal_strlit("Title is too long (500 characters or more)");
            reveal_strlit("External API error");
            reveal_strlit("Failed to parse upstream response: ");
        }
        match self {
            Failure::TitleRequired => String::from_str("Title is required"),
            Failure::TitleTooLong => String::from_str("Title is too long (500 characters or more)"),
            Failure::UpstreamStatus(_) => String::from_str("External API error"),
            Failure::Transport(d) => d.clone(),
            Failure::Decode(d) => {
                let mut m = String::from_str("Failed to parse upstream response: ");
                m.append(d.as_str());
                m
            },
        }
    }
}

} // verus!
