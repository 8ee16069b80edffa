//! Credentials for the marketplace's token exchange.

use crate::text::{concat2, concat3, copy_str, join, join_spec, texts};
use base64::Engine;
use vstd::prelude::*;
use vstd::utf8::encode_utf8;

verus! {

/// Why no token was obtained.
#[derive(Debug)]
pub enum EbayAuthError {
    MissingCredentials,
    Request(String),
}

impl EbayAuthError {
    /// The text of the failure.
    pub open spec fn message_spec(self) -> Seq<char> {
        match self {
            EbayAuthError::MissingCredentials => "missing ebay app credentials in env"@,
            EbayAuthError::Request(detail) => "oauth request failed: "@ + detail@,
        }
    }

    /// The text of the failure.
    pub fn message(&self) -> (out: String)
        ensures
            out@ == self.message_spec(),
    {
        match self {
            EbayAuthError::MissingCredentials => {
                let e = String::new();
                let out = concat2(e.as_str(), "missing ebay app credentials in env");
                assert(Seq::<char>::empty() + "missing ebay app credentials in env"@
                    =~= "missing ebay app credentials in env"@);
                out
            },
            EbayAuthError::Request(detail) => concat2("oauth request failed: ", detail.as_str()),
        }
    }
}

/// What the standard base64 alphabet with padding makes of `bytes`.
pub uninterp spec fn base64_standard(bytes: Seq<u8>) -> Seq<char>;

/// `Engine::encode` of the base64 crate on its `STANDARD` engine: the result
/// depends on the bytes alone.
#[verifier::external_body]
fn encode_base64(raw: &str) -> (out: String)
    ensures
        out@ == base64_standard(encode_utf8(raw@)),
{
    base64::engine::general_purpose::STANDARD.encode(raw)
}

/// One field of a form: its name and its value.
#[derive(Debug)]
pub struct FormField {
    pub name: &'static str,
    pub value: String,
}

/// The credentials `app_id:app_secret` in base64, as a basic authorization
/// carries them. Both parts must be present.
pub fn basic_auth_header(app_id: &str, app_secret: &str) -> (out: Result<String, EbayAuthError>)
    ensures
        (app_id@.len() == 0 || app_secret@.len() == 0) ==> out == Err::<String, EbayAuthError>(
            EbayAuthError::MissingCredentials,
        ),
        (app_id@.len() > 0 && app_secret@.len() > 0) ==> out is Ok && out->Ok_0@
            == base64_standard(encode_utf8(app_id@ + ":"@ + app_secret@)),
{
    if app_id.is_empty() || app_secret.is_empty() {
        return Err(EbayAuthError::MissingCredentials);
    }
    let raw = concat3(app_id, ":", app_secret);
    Ok(encode_base64(raw.as_str()))
}

/// The form of a token request for the application itself.
pub fn app_token_form(scopes: &Vec<String>) -> (out: Vec<FormField>)
    ensures
        out@.len() == 2,
        out@[0].name@ == "grant_type"@,
        out@[0].value@ == "client_credentials"@,
        out@[1].name@ == "scope"@,
        out@[1].value@ == join_spec(texts(scopes@), " "@),
{
    let mut out: Vec<FormField> = Vec::new();
    out.push(FormField { name: "grant_type", value: copy_str("client_credentials") });
    out.push(FormField { name: "scope", value: join(scopes, " ") });
    out
}

/// The form of a token request that presents a refresh token.
pub fn refresh_token_form(refresh_token: &str, scopes: &Vec<String>) -> (out: Vec<FormField>)
    ensures
        out@.len() == 3,
        out@[0].name@ == "grant_type"@,
        out@[0].value@ == "refresh_token"@,
        out@[1].name@ == "refresh_token"@,
        out@[1].value@ == refresh_token@,
        out@[2].name@ == "scope"@,
        out@[2].value@ == join_spec(texts(scopes@), " "@),
{
    let mut out: Vec<FormField> = Vec::new();
    out.push(FormField { name: "grant_type", value: copy_str("refresh_token") });
    out.push(FormField { name: "refresh_token", value: copy_str(refresh_token) });
    out.push(FormField { name: "scope", value: join(scopes, " ") });
    out
}

} // verus!
