use vstd::prelude::*;

verus! {

/// Classified failures surfaced by the remote query gateway.
pub enum DealveError {
    /// Non-success HTTP status, with the response body.
    Api(String),
    /// Transport or connection failure.
    Network(String),
    /// Response did not match the expected shape.
    Parse(String),
    /// Missing or unusable configuration, such as an absent credential.
    Config(String),
}

impl DealveError {
    /// The detail text carried by the error.
    pub open spec fn spec_detail(&self) -> Seq<char> {
        match self {
            DealveError::Api(s) => s@,
            DealveError::Network(s) => s@,
            DealveError::Parse(s) => s@,
            DealveError::Config(s) => s@,
        }
    }

    /// The prefix that names the error's class in its display text.
    pub open spec fn spec_prefix(&self) -> Seq<char> {
        match self {
            DealveError::Api(_) => "API error: "@,
            DealveError::Network(_) => "Network error: "@,
            DealveError::Parse(_) => "Parse error: "@,
            DealveError::Config(_) => "Configuration error: "@,
        }
    }

    /// Full display text of the error: a class prefix followed by the detail.
    pub fn message(&self) -> (r: String)
        ensures
            r@ == self.spec_prefix() + self.spec_detail(),
    {
        let prefix = match self {
            DealveError::Api(_) => "API error: ",
            DealveError::Network(_) => "Network error: ",
            DealveError::Parse(_) => "Parse error: ",
            DealveError::Config(_) => "Configuration error: ",
        };
        let detail = match self {
            DealveError::Api(s) => s,
            DealveError::Network(s) => s,
            DealveError::Parse(s) => s,
            DealveError::Config(s) => s,
        };
        let mut r = String::from_str(prefix);
        r.append(detail.as_str());
        r
    }
}

} // verus!
