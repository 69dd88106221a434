use vstd::prelude::*;

verus! {

/// What can go wrong between asking for projects and holding the records.
///
/// Each variant carries a message for people to read; no contract speaks of
/// the message's wording.
#[derive(Debug)]
pub enum QueryError {
    /// The transport could not deliver a response body.
    Transport(String),
    /// The access token cannot stand in a request header.
    HeaderEncoding(String),
    /// The response body is not JSON, or is JSON of another shape than a list
    /// of project records.
    Deserialization(String),
}

impl QueryError {
    /// The message that the error carries, whatever its variant.
    pub fn message(&self) -> (text: &String)
        ensures
            *text == match *self {
                QueryError::Transport(m) => m,
                QueryError::HeaderEncoding(m) => m,
                QueryError::Deserialization(m) => m,
            },
    {
        match self {
            QueryError::Transport(m) => m,
            QueryError::HeaderEncoding(m) => m,
            QueryError::Deserialization(m) => m,
        }
    }

    /// True for an error of the response body's content.
    pub fn is_deserialization(&self) -> (yes: bool)
        ensures
            yes == (*self is Deserialization),
    {
        match self {
            QueryError::Deserialization(_) => true,
            _ => false,
        }
    }

    /// True for an error of the transport.
    pub fn is_transport(&self) -> (yes: bool)
        ensures
            yes == (*self is Transport),
    {
        match self {
            QueryError::Transport(_) => true,
            _ => false,
        }
    }

    /// True where the access token was refused as a header value.
    pub fn is_header_encoding(&self) -> (yes: bool)
        ensures
            yes == (*self is HeaderEncoding),
    {
        match self {
            QueryError::HeaderEncoding(_) => true,
            _ => false,
        }
    }
}

} // verus!
