use vstd::prelude::*;
use crate::text::{decimal_string, decimal_text};

verus! {

/// The address of the production API.
pub const BASE_URL: &'static str = "https://api.nowpayments.io/v1/";

/// The address of the sandbox API.
pub const BASE_SANDBOX_URL: &'static str = "https://api-sandbox.nowpayments.io/v1/";

/// The user agent that requests carry.
pub const USER_AGENT: &'static str = "rust/nowpayments/0.2.3";

/// What goes wrong on the client's side of a request.
#[derive(Debug, Clone, PartialEq, Eq)]
pub enum ClientError {
    /// A JWT was asked for, but the email or the password is not set.
    MissingCredentials,
    /// The request needs a JWT, and there is none that is valid.
    ExpiredJwt,
    /// The reply of the API is no JSON document; the text is `serde_json`'s message.
    InvalidJson(String),
    /// The API refused the request; the text says why.
    Api(String),
}

/// The message of an error of the client.
pub open spec fn error_message(e: ClientError) -> Seq<char> {
    match e {
        ClientError::MissingCredentials => "You did not set an email or a password."@,
        ClientError::ExpiredJwt => "Expired jwt"@,
        ClientError::InvalidJson(m) => m@,
        ClientError::Api(m) => m@,
    }
}

impl ClientError {
    /// The message of the error.
    pub fn message(&self) -> (res: String)
        ensures
            res@ == error_message(*self),
    {
        match self {
            ClientError::MissingCredentials => String::from_str(
                "You did not set an email or a password.",
            ),
            ClientError::ExpiredJwt => String::from_str("Expired jwt"),
            ClientError::InvalidJson(m) => m.clone(),
            ClientError::Api(m) => m.clone(),
        }
    }
}

/// The state a client keeps between requests: which API it talks to, the credentials
/// that obtain a JWT, and the JWT once issued.
pub struct Session {
    pub base_url: &'static str,
    pub email: Option<String>,
    pub password: Option<String>,
    pub token: Option<String>,
}

/// The body of the request for a JWT: the email, then the password.
pub open spec fn auth_fields(email: Seq<char>, password: Seq<char>) -> Seq<(Seq<char>, Seq<char>)> {
    seq![("email"@, email), ("password"@, password)]
}

/// What `serde_json` reads as a JSON document.
pub uninterp spec fn is_json_document(text: Seq<char>) -> bool;

/// The message of `serde_json`'s error on a text that is no JSON document.
pub uninterp spec fn json_error_text(text: Seq<char>) -> Seq<char>;

/// Calls `serde_json::from_str` into a `serde_json::Value` and writes out its error.
/// Claimed: whether it fails, and the error's message, are functions of the text.
#[verifier::external_body]
fn json_error(text: &str) -> (res: Option<String>)
    ensures
        res is None <==> is_json_document(text@),
        res matches Some(m) ==> m@ == json_error_text(text@),
{
    match serde_json::from_str::<serde_json::Value>(text) {
        Ok(_) => None,
        Err(e) => Some(e.to_string()),
    }
}

/// Accepts a reply of the API only if it is a JSON document, and hands it back
/// unchanged; otherwise the error carries `serde_json`'s message.
pub fn check_json_reply(body: String) -> (res: Result<String, ClientError>)
    ensures
        is_json_document(body@) ==> res == Ok::<String, ClientError>(body),
        !is_json_document(body@) ==> (res matches Err(ClientError::InvalidJson(m)) && m@
            == json_error_text(body@)),
{
    match json_error(body.as_str()) {
        None => Ok(body),
        Some(m) => Err(ClientError::InvalidJson(m)),
    }
}

impl Session {
    /// A session with the given credentials and no JWT, on the sandbox API when
    /// `sandbox` is `Some(true)` and on the production API otherwise.
    pub fn new(email: Option<String>, password: Option<String>, sandbox: Option<bool>) -> (res:
        Session)
        ensures
            res.base_url@ == (if sandbox == Some(true) {
                BASE_SANDBOX_URL@
            } else {
                BASE_URL@
            }),
            res.email == email,
            res.password == password,
            res.token is None,
    {
        let base_url = match sandbox {
            Some(true) => BASE_SANDBOX_URL,
            _ => BASE_URL,
        };
        Session { base_url, email, password, token: None }
    }

    /// Sets the credentials that obtain a JWT.
    pub fn set_credentials(&mut self, email: Option<String>, password: Option<String>)
        ensures
            final(self).email == email,
            final(self).password == password,
            final(self).base_url == old(self).base_url,
            final(self).token == old(self).token,
    {
        self.email = email;
        self.password = password;
    }

    /// The body of the request for a JWT; an error when the email or the password is
    /// not set.
    pub fn auth_body(&self) -> (res: Result<Vec<(String, String)>, ClientError>)
        ensures
            (self.email is None || self.password is None) <==> res is Err,
            res matches Err(e) ==> e == ClientError::MissingCredentials,
            res matches Ok(body) ==> body@.map_values(|f: (String, String)| (f.0@, f.1@))
                == auth_fields(self.email->0@, self.password->0@),
    {
        match (&self.email, &self.password) {
            (Some(email), Some(password)) => {
                let mut body: Vec<(String, String)> = Vec::new();
                body.push((String::from_str("email"), email.clone()));
                body.push((String::from_str("password"), password.clone()));
                assert(body@.map_values(|f: (String, String)| (f.0@, f.1@)) =~= auth_fields(
                    email@,
                    password@,
                ));
                Ok(body)
            },
            _ => Err(ClientError::MissingCredentials),
        }
    }

    /// Keeps the JWT that the API issued.
    pub fn set_token(&mut self, token: String)
        ensures
            final(self).token == Some(token),
            final(self).base_url == old(self).base_url,
            final(self).email == old(self).email,
            final(self).password == old(self).password,
    {
        self.token = Some(token);
    }

    /// The token that requests carry as bearer: the JWT, or an empty text without one.
    pub fn bearer_token(&self) -> (res: String)
        ensures
            res@ == (match self.token {
                Some(t) => t@,
                None => Seq::empty(),
            }),
    {
        match &self.token {
            Some(t) => t.clone(),
            None => String::new(),
        }
    }

    /// Requests that need privileges go out only with a JWT.
    pub fn require_jwt(&self) -> (res: Result<(), ClientError>)
        ensures
            self.token is Some <==> res is Ok,
            res matches Err(e) ==> e == ClientError::ExpiredJwt,
    {
        match &self.token {
            Some(_) => Ok(()),
            None => Err(ClientError::ExpiredJwt),
        }
    }

    /// The address of an endpoint of the API.
    pub fn endpoint_url(&self, endpoint: &str) -> (res: String)
        ensures
            res@ == self.base_url@ + endpoint@,
    {
        let mut url = String::from_str(self.base_url);
        url.append(endpoint);
        url
    }
}

/// A reply of the API that reports an error.
#[derive(Debug, Clone, PartialEq, Eq)]
pub struct ApiError {
    pub status: bool,
    pub status_code: Option<u16>,
    pub code: Option<String>,
    pub message: String,
}

/// How `Debug` writes an optional status code: `Some(400)` or `None`.
pub open spec fn debug_status_code(code: Option<u16>) -> Seq<char> {
    match code {
        Some(c) => "Some("@ + decimal_text(c as nat) + ")"@,
        None => "None"@,
    }
}

/// The message of an error reply: its code (`UNKNOWN` without one), its message and
/// its status code.
pub open spec fn api_error_text(e: ApiError) -> Seq<char> {
    let code = match e.code {
        Some(c) => c@,
        None => "UNKNOWN"@,
    };
    "NowPayments API error: ["@ + code + "] "@ + e.message@ + " (statusCode: "@
        + debug_status_code(e.status_code) + ")"@
}

impl ApiError {
    /// The error that a reply in the shape of an error report stands for: none when its
    /// status is true, else the API's refusal with the reply's code and message.
    pub fn to_error(&self) -> (res: Option<ClientError>)
        ensures
            self.status <==> res is None,
            res matches Some(e) ==> e matches ClientError::Api(m) && m@ == api_error_text(*self),
    {
        if self.status {
            return None;
        }
        let mut text = String::from_str("NowPayments API error: [");
        match &self.code {
            Some(c) => text.append(c.as_str()),
            None => text.append("UNKNOWN"),
        }
        text.append("] ");
        text.append(self.message.as_str());
        text.append(" (statusCode: ");
        match self.status_code {
            Some(c) => {
                text.append("Some(");
                let digits = decimal_string(c as u64);
                text.append(digits.as_str());
                text.append(")");
            },
            None => text.append("None"),
        }
        text.append(")");
        Some(ClientError::Api(text))
    }
}

} // verus!
