//! The trading client's credentials and the requests it signs.

use crate::crypto::{
    base64_bytes, base64_text, decode_base64, decode_error_text, ed25519_public_key,
    encode_base64, public_key_of, SECRET_KEY_LENGTH,
};
use crate::error::ExchangeError;
use crate::json::{json_error_text, parse_body, parsed_body, JsonBody};
use crate::params::{Pair, ParamList};
use crate::signing::{
    add_body, add_path, build_message, instruction_for, lookup_instruction, sign_message,
    signature_text, signing_message, with_body, with_path, Instruction, SIGNATURE_TEXT_LENGTH,
    SIGNING_WINDOW_MS,
};
use crate::text::{decimal, decimal_chars, from_chars, has_prefix, labelled, str_eq};
use vstd::prelude::*;

verus! {

/// The key pair of an account and the base address of the REST interface.
#[derive(Debug, Clone)]
pub struct BackpackCredentials {
    /// The Ed25519 secret key, in base64.
    pub private_key: String,
    /// The Ed25519 public key, in base64.
    pub public_key: String,
    /// The base address of the REST interface.
    pub api_url: String,
}

/// The HTTP methods that the exchange's interface uses.
#[derive(Clone, Copy, Debug, PartialEq, Eq, Structural)]
pub enum HttpMethod {
    Get,
    Post,
    Delete,
}

/// A request ready to be sent.
#[derive(Debug, Clone)]
pub struct SignedRequest {
    pub method: HttpMethod,
    pub url: String,
    /// The headers, as names with their values.
    pub headers: Vec<(String, String)>,
    pub body: Option<String>,
}

/// A client whose key pair was checked when it was made.
pub struct BackpackTradingClient {
    credentials: BackpackCredentials,
    secret: Vec<u8>,
}

/// The secret key that the credentials spell, where it has the right length
/// and the public key beside it is the one that belongs to it.
pub open spec fn valid_secret(private_key: Seq<char>, public_key: Seq<char>) -> Option<Seq<u8>> {
    match base64_bytes(private_key) {
        Some(secret) => if secret.len() == SECRET_KEY_LENGTH && base64_text(
            ed25519_public_key(secret),
        ) == public_key {
            Some(secret)
        } else {
            None
        },
        None => None,
    }
}

/// The method that a method name stands for.
pub open spec fn method_of(name: Seq<char>) -> Option<HttpMethod> {
    if name == "GET"@ {
        Some(HttpMethod::Get)
    } else if name == "POST"@ {
        Some(HttpMethod::Post)
    } else if name == "DELETE"@ {
        Some(HttpMethod::Delete)
    } else {
        None
    }
}

/// The parameters of a request whose body was read as `body`.
pub open spec fn request_params(path: Seq<char>, body: Option<JsonBody>) -> Seq<Pair> {
    let from_path = with_path(Seq::<Pair>::empty(), path);
    match body {
        Some(b) => with_body(from_path, b),
        None => from_path,
    }
}

/// Whether the body of a request is signed: only the non-empty body of a
/// request that writes, a POST or a DELETE.
pub open spec fn body_is_signed(method: Seq<char>, body: Seq<char>) -> bool {
    body.len() > 0 && (method == "POST"@ || method == "DELETE"@)
}

/// The headers of a signed request, in the order in which they are set.
pub open spec fn request_headers(
    public_key: Seq<char>,
    timestamp: u64,
    window: u64,
    signature: Seq<char>,
) -> Seq<Pair> {
    seq![
        ("X-Timestamp"@, decimal(timestamp as nat)),
        ("X-Window"@, decimal(window as nat)),
        ("X-API-Key"@, public_key),
        ("X-Signature"@, signature),
        ("Content-Type"@, "application/json"@),
    ]
}

/// The headers as pairs of texts.
pub open spec fn headers_view(headers: Seq<(String, String)>) -> Seq<Pair> {
    Seq::new(headers.len(), |i: int| (headers[i].0@, headers[i].1@))
}

/// The method that a method name stands for.
pub fn parse_method(name: &str) -> (r: Option<HttpMethod>)
    ensures
        r == method_of(name@),
{
    if str_eq(name, "GET") {
        Some(HttpMethod::Get)
    } else if str_eq(name, "POST") {
        Some(HttpMethod::Post)
    } else if str_eq(name, "DELETE") {
        Some(HttpMethod::Delete)
    } else {
        None
    }
}

impl BackpackTradingClient {
    /// The client's invariant: its secret key is the one that its
    /// credentials spell, and the public key beside it belongs to it.
    pub closed spec fn wf(&self) -> bool {
        valid_secret(self.credentials.private_key@, self.credentials.public_key@) == Some(
            self.secret@,
        )
    }

    /// The secret key.
    pub closed spec fn spec_secret(&self) -> Seq<u8> {
        self.secret@
    }

    /// The credentials that the client was made with.
    pub closed spec fn spec_credentials(&self) -> BackpackCredentials {
        self.credentials
    }

    /// A client for `credentials`, if its keys are a pair.
    ///
    /// Fails with `Authentication` where the private key is not base64
    /// ("Invalid private key format: " and what the decoder says of it), is
    /// not 32 bytes long ("Private key must be 32 bytes"), or has another
    /// public key than the one given ("Public key doesn't match private
    /// key").
    pub fn new(credentials: BackpackCredentials) -> (r: Result<Self, ExchangeError>)
        ensures
            match r {
                Ok(client) => {
                    &&& client.wf()
                    &&& client.spec_credentials() == credentials
                    &&& valid_secret(credentials.private_key@, credentials.public_key@) == Some(
                        client.spec_secret(),
                    )
                },
                Err(ExchangeError::Authentication(m)) => {
                    &&& valid_secret(credentials.private_key@, credentials.public_key@) is None
                    &&& match base64_bytes(credentials.private_key@) {
                        None => has_prefix(m@, "Invalid private key format: "@),
                        Some(secret) => m@ == if secret.len() != SECRET_KEY_LENGTH {
                            "Private key must be 32 bytes"@
                        } else {
                            "Public key doesn't match private key"@
                        },
                    }
                },
                Err(_) => false,
            },
    {
        let secret = match decode_base64(credentials.private_key.as_str()) {
            Ok(bytes) => bytes,
            Err(e) => {
                return Err(
                    ExchangeError::Authentication(
                        labelled("Invalid private key format: ", decode_error_text(&e).as_str()),
                    ),
                );
            },
        };
        if secret.len() != SECRET_KEY_LENGTH {
            return Err(
                ExchangeError::Authentication(String::from_str("Private key must be 32 bytes")),
            );
        }
        let public = public_key_of(&secret);
        let expected = encode_base64(&public);
        if !str_eq(expected.as_str(), credentials.public_key.as_str()) {
            return Err(
                ExchangeError::Authentication(
                    String::from_str("Public key doesn't match private key"),
                ),
            );
        }
        Ok(BackpackTradingClient { credentials, secret })
    }

    /// The credentials that the client was made with.
    pub fn credentials(&self) -> (c: &BackpackCredentials)
        ensures
            *c == self.spec_credentials(),
    {
        &self.credentials
    }

    /// The signature that opens the private push channel: over the
    /// instruction `subscribe`, without parameters.
    pub fn ws_signature(&self, timestamp: u64, window: u64) -> (signature: String)
        requires
            self.wf(),
        ensures
            signature@.len() == SIGNATURE_TEXT_LENGTH,
            signature@ == signature_text(
                self.spec_secret(),
                signing_message("subscribe"@, Seq::<Pair>::empty(), timestamp, window),
            ),
    {
        let params = ParamList::new();
        let message = build_message("subscribe", &params, timestamp, window);
        sign_message(&self.secret, &message)
    }

    /// The signature that opens the private push channel; it never fails.
    pub fn generate_ws_signature(&self, timestamp: u64, window: u64) -> (r: Result<
        String,
        ExchangeError,
    >)
        requires
            self.wf(),
        ensures
            r is Ok,
            r->Ok_0@ == signature_text(
                self.spec_secret(),
                signing_message("subscribe"@, Seq::<Pair>::empty(), timestamp, window),
            ),
    {
        Ok(self.ws_signature(timestamp, window))
    }

    /// The signature of a request whose body, if it is signed, was read as
    /// `body`.
    pub fn sign_request(
        &self,
        instruction: Instruction,
        path: &str,
        body: Option<&JsonBody>,
        timestamp: u64,
        window: u64,
    ) -> (signature: String)
        requires
            self.wf(),
        ensures
            signature@.len() == SIGNATURE_TEXT_LENGTH,
            signature@ == signature_text(
                self.spec_secret(),
                signing_message(
                    instruction.spec_tag(),
                    request_params(
                        path@,
                        match body {
                            Some(b) => Some(*b),
                            None => None,
                        },
                    ),
                    timestamp,
                    window,
                ),
            ),
    {
        let mut params = ParamList::new();
        add_path(&mut params, path);
        match body {
            Some(b) => {
                add_body(&mut params, b);
            },
            None => {},
        }
        let message = build_message(instruction.tag(), &params, timestamp, window);
        sign_message(&self.secret, &message)
    }

    /// The signature of a request.
    ///
    /// Fails with `Authentication` where method and path name no operation
    /// ("Unsupported endpoint: " and the path), or where the body of a POST
    /// or a DELETE is not JSON ("Invalid JSON body: " and what the parser
    /// says of it). The signature takes 88 characters.
    pub fn generate_signature(
        &self,
        timestamp: u64,
        window: u64,
        method: &str,
        path: &str,
        body: &str,
    ) -> (r: Result<String, ExchangeError>)
        requires
            self.wf(),
        ensures
            match instruction_for(method@, path@) {
                None => r matches Err(ExchangeError::Authentication(m)) && m@
                    == "Unsupported endpoint: "@ + path@,
                Some(instruction) => if body_is_signed(method@, body@) && parsed_body(body@)
                    is None {
                    r matches Err(ExchangeError::Authentication(m)) && has_prefix(
                        m@,
                        "Invalid JSON body: "@,
                    )
                } else {
                    r matches Ok(signature) && signature@.len() == SIGNATURE_TEXT_LENGTH
                        && signature@ == signature_text(
                        self.spec_secret(),
                        signing_message(
                            instruction.spec_tag(),
                            request_params(
                                path@,
                                if body_is_signed(method@, body@) {
                                    parsed_body(body@)
                                } else {
                                    None
                                },
                            ),
                            timestamp,
                            window,
                        ),
                    )
                },
            },
    {
        let instruction = match lookup_instruction(method, path) {
            Some(i) => i,
            None => {
                return Err(ExchangeError::Authentication(labelled("Unsupported endpoint: ", path)));
            },
        };
        if !body.is_empty() && (str_eq(method, "POST") || str_eq(method, "DELETE")) {
            match parse_body(body) {
                Ok(parsed) => Ok(
                    self.sign_request(instruction, path, Some(&parsed), timestamp, window),
                ),
                Err(e) => Err(
                    ExchangeError::Authentication(
                        labelled("Invalid JSON body: ", json_error_text(&e).as_str()),
                    ),
                ),
            }
        } else {
            Ok(self.sign_request(instruction, path, None, timestamp, window))
        }
    }

    /// The request for `endpoint`, signed at `timestamp` for the fixed
    /// window.
    ///
    /// The path is `/api/v1` and the endpoint. Fails as `generate_signature`
    /// does and, where that succeeds, with `Trading` for a method other than
    /// GET, POST and DELETE ("Unsupported HTTP method: " and the method).
    pub fn prepare_request(&self, method: &str, endpoint: &str, body: Option<&str>, timestamp: u64) -> (r:
        Result<SignedRequest, ExchangeError>)
        requires
            self.wf(),
        ensures
            ({
                let path = "/api/v1"@ + endpoint@;
                let text = match body {
                    Some(b) => b@,
                    None => Seq::<char>::empty(),
                };
                match instruction_for(method@, path) {
                    None => r matches Err(ExchangeError::Authentication(m)) && m@
                        == "Unsupported endpoint: "@ + path,
                    Some(instruction) => if body_is_signed(method@, text) && parsed_body(text)
                        is None {
                        r matches Err(ExchangeError::Authentication(m)) && has_prefix(
                            m@,
                            "Invalid JSON body: "@,
                        )
                    } else {
                        match method_of(method@) {
                            None => r matches Err(ExchangeError::Trading(m)) && m@
                                == "Unsupported HTTP method: "@ + method@,
                            Some(http) => r matches Ok(request) && {
                                &&& request.method == http
                                &&& request.url@ == self.spec_credentials().api_url@ + path
                                &&& match (request.body, body) {
                                    (Some(sent), Some(given)) => sent@ == given@,
                                    (None, None) => true,
                                    _ => false,
                                }
                                &&& headers_view(request.headers@) == request_headers(
                                    self.spec_credentials().public_key@,
                                    timestamp,
                                    SIGNING_WINDOW_MS,
                                    signature_text(
                                        self.spec_secret(),
                                        signing_message(
                                            instruction.spec_tag(),
                                            request_params(
                                                path,
                                                if body_is_signed(method@, text) {
                                                    parsed_body(text)
                                                } else {
                                                    None
                                                },
                                            ),
                                            timestamp,
                                            SIGNING_WINDOW_MS,
                                        ),
                                    ),
                                )
                            },
                        }
                    },
                }
            }),
    {
        let path = labelled("/api/v1", endpoint);
        let text: &str = match body {
            Some(b) => b,
            None => "",
        };
        proof {
            reveal_strlit("");
            if body is None {
                assert(text@ =~= Seq::<char>::empty());
            }
        }
        let signature = match self.generate_signature(
            timestamp,
            SIGNING_WINDOW_MS,
            method,
            path.as_str(),
            text,
        ) {
            Ok(s) => s,
            Err(e) => {
                return Err(e);
            },
        };
        let http = match parse_method(method) {
            Some(m) => m,
            None => {
                return Err(ExchangeError::Trading(labelled("Unsupported HTTP method: ", method)));
            },
        };
        let mut headers: Vec<(String, String)> = Vec::new();
        headers.push((String::from_str("X-Timestamp"), from_chars(&decimal_chars(timestamp))));
        headers.push(
            (String::from_str("X-Window"), from_chars(&decimal_chars(SIGNING_WINDOW_MS))),
        );
        headers.push((String::from_str("X-API-Key"), self.credentials.public_key.clone()));
        headers.push((String::from_str("X-Signature"), signature));
        headers.push((String::from_str("Content-Type"), String::from_str("application/json")));
        let sent = match body {
            Some(b) => Some(String::from_str(b)),
            None => None,
        };
        let url = labelled(self.credentials.api_url.as_str(), path.as_str());
        assert(headers_view(headers@) =~= request_headers(
            self.spec_credentials().public_key@,
            timestamp,
            SIGNING_WINDOW_MS,
            headers@[3].1@,
        ));
        Ok(SignedRequest { method: http, url, headers, body: sent })
    }
}

/// The outcome of a request by its status: the body of an answer in the
/// range 200 to 299, and `RestApi` with the status line and the body for any
/// other ("HTTP error ", the status line, ": ", the body). The status line
/// is the status as the transport writes it, such as `404 Not Found`.
pub fn check_response(status: u16, status_line: &str, body: String) -> (r: Result<
    String,
    ExchangeError,
>)
    ensures
        match r {
            Ok(text) => 200 <= status < 300 && text == body,
            Err(ExchangeError::RestApi(m)) => !(200 <= status < 300) && m@ == "HTTP error "@
                + status_line@ + ": "@ + body@,
            Err(_) => false,
        },
{
    if 200 <= status && status < 300 {
        Ok(body)
    } else {
        let mut m = String::from_str("HTTP error ");
        m.append(status_line);
        m.append(": ");
        m.append(body.as_str());
        Err(ExchangeError::RestApi(m))
    }
}

} // verus!
