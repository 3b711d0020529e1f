//! The failures that the connector reports.

use vstd::prelude::*;

verus! {

/// A failure, by the part of the connector that met it, with a message.
#[derive(Debug, Clone)]
pub enum ExchangeError {
    /// Bad key material, or a request that cannot be signed.
    Authentication(String),
    /// A transport failure, a status outside 2xx, or a body that cannot be decoded.
    RestApi(String),
    /// A broken business rule: an unsupported method, an empty answer.
    Trading(String),
    /// A failure of the push channel.
    WebSocket(String),
    /// A value outside the exchange's known vocabulary.
    InvalidData(String),
}

impl ExchangeError {
    /// The message that the failure carries.
    pub open spec fn spec_message(&self) -> Seq<char> {
        match self {
            ExchangeError::Authentication(m) => m@,
            ExchangeError::RestApi(m) => m@,
            ExchangeError::Trading(m) => m@,
            ExchangeError::WebSocket(m) => m@,
            ExchangeError::InvalidData(m) => m@,
        }
    }

    /// The name of the failure's kind.
    pub open spec fn spec_kind(&self) -> Seq<char> {
        match self {
            ExchangeError::Authentication(_) => "Authentication"@,
            ExchangeError::RestApi(_) => "RestApi"@,
            ExchangeError::Trading(_) => "Trading"@,
            ExchangeError::WebSocket(_) => "WebSocket"@,
            ExchangeError::InvalidData(_) => "InvalidData"@,
        }
    }

    /// The failure as text: its kind, then its message in double quotes
    /// between round brackets.
    pub open spec fn spec_describe(&self) -> Seq<char> {
        self.spec_kind() + "(\""@ + self.spec_message() + "\")"@
    }

    /// The message that the failure carries.
    pub fn message(&self) -> (m: &str)
        ensures
            m@ == self.spec_message(),
    {
        match self {
            ExchangeError::Authentication(m) => m.as_str(),
            ExchangeError::RestApi(m) => m.as_str(),
            ExchangeError::Trading(m) => m.as_str(),
            ExchangeError::WebSocket(m) => m.as_str(),
            ExchangeError::InvalidData(m) => m.as_str(),
        }
    }

    /// The name of the failure's kind.
    pub fn kind(&self) -> (k: &'static str)
        ensures
            k@ == self.spec_kind(),
    {
        match self {
            ExchangeError::Authentication(_) => "Authentication",
            ExchangeError::RestApi(_) => "RestApi",
            ExchangeError::Trading(_) => "Trading",
            ExchangeError::WebSocket(_) => "WebSocket",
            ExchangeError::InvalidData(_) => "InvalidData",
        }
    }

    /// The failure as text.
    pub fn describe(&self) -> (out: String)
        ensures
            out@ == self.spec_describe(),
    {
        let mut out = String::from_str(self.kind());
        out.append("(\"");
        out.append(self.message());
        out.append("\")");
        out
    }
}

} // verus!
