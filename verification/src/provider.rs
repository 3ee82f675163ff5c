use crate::config::ProviderKind;
use vstd::prelude::*;
use vstd::string::*;
use vstd::utf8::encode_utf8;

verus! {

/// Why one request gave no metrics. Not fatal: the request is dropped.
#[derive(Clone, Copy, Debug, PartialEq, Eq, Structural)]
pub enum ProviderError {
    Network,
    HttpStatus(u16),
    MalformedResponse,
    MissingUsage,
}

impl ProviderError {
    pub open spec fn spec_message(self) -> Seq<char> {
        match self {
            ProviderError::Network => "Request failed"@,
            ProviderError::HttpStatus(_) => "Unsuccessful response status"@,
            ProviderError::MalformedResponse => "Malformed response"@,
            ProviderError::MissingUsage => "Missing usage data"@,
        }
    }

    pub fn message(&self) -> (s: String)
        ensures
            s@ == self.spec_message(),
    {
        match self {
            ProviderError::Network => String::from_str("Request failed"),
            ProviderError::HttpStatus(_) => String::from_str("Unsuccessful response status"),
            ProviderError::MalformedResponse => String::from_str("Malformed response"),
            ProviderError::MissingUsage => String::from_str("Missing usage data"),
        }
    }
}

/// The identity under which metrics are reported: kind and endpoint,
/// so that two endpoints of one kind stay apart.
pub fn composite_name(kind: ProviderKind, base_url: &str) -> (name: String)
    ensures
        name@ == kind.spec_name() + ":"@ + base_url@,
{
    String::from_str(kind.name()).concat(":").concat(base_url)
}

/// The length in bytes of a text, as the machine reports it.
pub open spec fn byte_len(text: Seq<char>) -> nat {
    (encode_utf8(text).len() as usize) as nat
}

} // verus!
