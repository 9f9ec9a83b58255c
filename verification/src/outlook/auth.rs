//! The token lifecycle against the Microsoft identity platform: the
//! authorisation URL, the code in the redirect request, the token request
//! and what the token endpoint's reply amounts to.

use crate::text::{chars_of, find, first_occurrence, same_chars, slice_of, string_of};
use crate::transport::{Reply, ReplyError};
use vstd::prelude::*;
use vstd::string::StringExecFns;

verus! {

/// The scopes asked for: offline access, profile read, mail read/write and
/// calendar read/write.
pub const SCOPE_STR: &'static str = "offline_access user.read mail.readwrite calendars.readwrite";

/// Where the provider sends the browser back to.
pub const REDIRECT_URI: &'static str = "http://localhost:6767";

/// The host of the identity platform.
pub const API_HOST: &'static str = "https://login.microsoftonline.com";

/// The path of the token endpoint on [`API_HOST`].
pub const TOKEN_ENDPOINT: &'static str = "/common/oauth2/v2.0/token";

/// The content type of a token request.
pub const FORM_CONTENT_TYPE: &'static str = "application/x-www-form-urlencoded";

/// The path of the authorisation endpoint on [`API_HOST`].
pub const AUTHORISE_ENDPOINT: &'static str = "/common/oauth2/v2.0/authorize";

/// The token that starts the protocol version in a request line.
pub const VERSION_TOKEN: &'static str = "HTTP/";

/// The marker that the authorisation code follows in the redirect request.
pub const CODE_MARKER: &'static str = "?code=";

/// The method and path of the redirect request, up to the code marker.
pub const REDIRECT_TARGET: &'static str = "GET /";

/// How a further `code` parameter would be written in the request line.
pub const NEXT_CODE: &'static str = "&code=";

/// What ends the code: the space before the protocol version.
pub const DELIMITER: &'static str = " ";

/// What a token is asked for with.
#[derive(Debug, PartialEq, Eq)]
pub enum AccessTokenRequestType {
    /// The one-time code of the consent redirect.
    AuthorizationCode(String),
    /// The refresh token of an earlier access token.
    RefreshToken(String),
}

/// The mathematical value of an [`AccessTokenRequestType`].
pub enum AccessTokenRequestTypeView {
    AuthorizationCode(Seq<char>),
    RefreshToken(Seq<char>),
}

impl View for AccessTokenRequestType {
    type V = AccessTokenRequestTypeView;

    open spec fn view(&self) -> AccessTokenRequestTypeView {
        match *self {
            AccessTokenRequestType::AuthorizationCode(code) => {
                AccessTokenRequestTypeView::AuthorizationCode(code@)
            },
            AccessTokenRequestType::RefreshToken(token) => {
                AccessTokenRequestTypeView::RefreshToken(token@)
            },
        }
    }
}

/// The fields of the form that is posted to the token endpoint. A field
/// that is `None` is not sent.
#[derive(Debug, PartialEq, Eq)]
pub struct AccessTokenRequest {
    pub client_id: String,
    pub redirect_uri: String,
    pub scope: String,
    pub code: Option<String>,
    pub refresh_token: Option<String>,
    pub grant_type: String,
}

/// The mathematical value of an [`AccessTokenRequest`].
pub struct AccessTokenRequestView {
    pub client_id: Seq<char>,
    pub redirect_uri: Seq<char>,
    pub scope: Seq<char>,
    pub code: Option<Seq<char>>,
    pub refresh_token: Option<Seq<char>>,
    pub grant_type: Seq<char>,
}

/// The characters of an optional string.
pub open spec fn optional_text(text: Option<String>) -> Option<Seq<char>> {
    match text {
        Some(t) => Some(t@),
        None => None,
    }
}

impl View for AccessTokenRequest {
    type V = AccessTokenRequestView;

    open spec fn view(&self) -> AccessTokenRequestView {
        AccessTokenRequestView {
            client_id: self.client_id@,
            redirect_uri: self.redirect_uri@,
            scope: self.scope@,
            code: optional_text(self.code),
            refresh_token: optional_text(self.refresh_token),
            grant_type: self.grant_type@,
        }
    }
}

/// A bearer credential with its refresh token and its lifetime in seconds.
#[derive(Debug, PartialEq, Eq)]
pub struct AccessTokenResponse {
    pub access_token: String,
    pub token_type: String,
    pub expires_in: u32,
    pub scope: String,
    pub refresh_token: String,
}

/// The mathematical value of an [`AccessTokenResponse`].
pub struct AccessTokenResponseView {
    pub access_token: Seq<char>,
    pub token_type: Seq<char>,
    pub expires_in: u32,
    pub scope: Seq<char>,
    pub refresh_token: Seq<char>,
}

impl View for AccessTokenResponse {
    type V = AccessTokenResponseView;

    open spec fn view(&self) -> AccessTokenResponseView {
        AccessTokenResponseView {
            access_token: self.access_token@,
            token_type: self.token_type@,
            expires_in: self.expires_in,
            scope: self.scope@,
            refresh_token: self.refresh_token@,
        }
    }
}

impl Clone for AccessTokenResponse {
    fn clone(&self) -> (copy: AccessTokenResponse)
        ensures
            copy@ == self@,
    {
        AccessTokenResponse {
            access_token: self.access_token.clone(),
            token_type: self.token_type.clone(),
            expires_in: self.expires_in,
            scope: self.scope.clone(),
            refresh_token: self.refresh_token.clone(),
        }
    }
}

/// One call to the token endpoint: where the form goes and what it holds.
#[derive(Debug, PartialEq, Eq)]
pub struct AccessTokenCall {
    /// The address that the form is posted to.
    pub url: String,
    /// The value of the `Content-Type` header.
    pub content_type: String,
    /// The fields of the form.
    pub form: AccessTokenRequest,
}

/// The form that asks for a token for `client_id` with `request_type`: the
/// form holds the client id, the redirect URI and the scopes, and beside
/// them either the authorisation code as `code` with
/// `grant_type=authorization_code`, or the refresh token as `refresh_token`
/// with `grant_type=refresh_token`.
pub open spec fn access_token_form(
    client_id: Seq<char>,
    request_type: AccessTokenRequestTypeView,
) -> AccessTokenRequestView {
    AccessTokenRequestView {
        client_id,
        redirect_uri: REDIRECT_URI@,
        scope: SCOPE_STR@,
        code: match request_type {
            AccessTokenRequestTypeView::AuthorizationCode(code) => Some(code),
            AccessTokenRequestTypeView::RefreshToken(_) => None,
        },
        refresh_token: match request_type {
            AccessTokenRequestTypeView::AuthorizationCode(_) => None,
            AccessTokenRequestTypeView::RefreshToken(token) => Some(token),
        },
        grant_type: match request_type {
            AccessTokenRequestTypeView::AuthorizationCode(_) => "authorization_code"@,
            AccessTokenRequestTypeView::RefreshToken(_) => "refresh_token"@,
        },
    }
}

/// The form that asks for a token for `client_id` with `request_type`.
pub fn access_token_request(client_id: &str, request_type: &AccessTokenRequestType) -> (request:
    AccessTokenRequest)
    ensures
        request@ == access_token_form(client_id@, request_type@),
{
    AccessTokenRequest {
        client_id: String::from_str(client_id),
        redirect_uri: String::from_str(REDIRECT_URI),
        scope: String::from_str(SCOPE_STR),
        code: match request_type {
            AccessTokenRequestType::AuthorizationCode(code) => Some(code.clone()),
            AccessTokenRequestType::RefreshToken(_) => None,
        },
        refresh_token: match request_type {
            AccessTokenRequestType::AuthorizationCode(_) => None,
            AccessTokenRequestType::RefreshToken(token) => Some(token.clone()),
        },
        grant_type: match request_type {
            AccessTokenRequestType::AuthorizationCode(_) => String::from_str("authorization_code"),
            AccessTokenRequestType::RefreshToken(_) => String::from_str("refresh_token"),
        },
    }
}

/// The call that asks the token endpoint for a token: the form of
/// [`access_token_request`], posted to [`TOKEN_ENDPOINT`] on [`API_HOST`] as
/// [`FORM_CONTENT_TYPE`].
pub fn access_token_call(client_id: &str, request_type: &AccessTokenRequestType) -> (call:
    AccessTokenCall)
    ensures
        call.url@ == API_HOST@ + TOKEN_ENDPOINT@,
        call.content_type@ == FORM_CONTENT_TYPE@,
        call.form@ == access_token_form(client_id@, request_type@),
{
    let mut url = String::from_str(API_HOST);
    url.append(TOKEN_ENDPOINT);
    AccessTokenCall {
        url,
        content_type: String::from_str(FORM_CONTENT_TYPE),
        form: access_token_request(client_id, request_type),
    }
}

/// Why no token came out of a call to the token endpoint.
#[derive(Debug, PartialEq, Eq, Structural, Clone, Copy)]
pub enum ExchangeError {
    /// The endpoint could not be reached or did not answer.
    NoResponse,
    /// The endpoint answered with a status other than 200.
    NonOkCode(u16),
    /// The endpoint answered 200 with a body that is not a token.
    MalformedBody,
}

/// The exchange error that stands for a reply error.
pub open spec fn exchange_error(error: ReplyError) -> ExchangeError {
    match error {
        ReplyError::NoResponse => ExchangeError::NoResponse,
        ReplyError::NonOkCode(status) => ExchangeError::NonOkCode(status),
        ReplyError::MalformedBody => ExchangeError::MalformedBody,
    }
}

/// What a reply of the token endpoint amounts to: the token of a reply with
/// status 200 and a decoded body, and an error for every other reply.
pub open spec fn access_token_of(reply: Reply<AccessTokenResponse>) -> Result<
    AccessTokenResponse,
    ExchangeError,
> {
    match reply.spec_accept() {
        Ok(token) => Ok(token),
        Err(error) => Err(exchange_error(error)),
    }
}

/// Takes the token out of the token endpoint's reply. A reply with status
/// 200 and a decoded body gives that body; no reply, another status, and an
/// undecodable body each give their own error.
pub fn get_access_token(reply: Reply<AccessTokenResponse>) -> (outcome: Result<
    AccessTokenResponse,
    ExchangeError,
>)
    ensures
        outcome == access_token_of(reply),
{
    match reply.accept() {
        Ok(token) => Ok(token),
        Err(ReplyError::NoResponse) => Err(ExchangeError::NoResponse),
        Err(ReplyError::NonOkCode(status)) => Err(ExchangeError::NonOkCode(status)),
        Err(ReplyError::MalformedBody) => Err(ExchangeError::MalformedBody),
    }
}

/// A token issued at `issued_at` is expired at `now` when more than its
/// lifetime has passed since; a token that is exactly its lifetime old is
/// not expired, nor is one issued after `now`.
pub open spec fn expired(expires_in: u32, issued_at: u64, now: u64) -> bool {
    now - issued_at > expires_in
}

/// Whether `access_token`, issued at `issued_at`, is expired at `now`.
pub fn is_expired(access_token: &AccessTokenResponse, issued_at: u64, now: u64) -> (due: bool)
    ensures
        due == expired(access_token.expires_in, issued_at, now),
        due == (now - issued_at > access_token.expires_in),
{
    now > issued_at && now - issued_at > access_token.expires_in as u64
}

/// A refresh sends the refresh token and never a code.
pub proof fn lemma_refresh_sends_no_code(client_id: Seq<char>, refresh_token: Seq<char>)
    ensures
        access_token_form(
            client_id,
            AccessTokenRequestTypeView::RefreshToken(refresh_token),
        ).code is None,
        access_token_form(
            client_id,
            AccessTokenRequestTypeView::RefreshToken(refresh_token),
        ).refresh_token == Some(refresh_token),
        access_token_form(
            client_id,
            AccessTokenRequestTypeView::RefreshToken(refresh_token),
        ).grant_type == "refresh_token"@,
{
}

/// The text of the authorisation URL for `client_id` as it is written
/// before it is parsed: the endpoint, then the client id, the response type
/// `code`, the redirect URI and the scopes as query parameters.
pub open spec fn authorisation_url_text(client_id: Seq<char>) -> Seq<char> {
    API_HOST@ + AUTHORISE_ENDPOINT@ + "?client_id="@ + client_id + "&response_type=code"@
        + "&redirect_uri="@ + REDIRECT_URI@ + "&scope="@ + SCOPE_STR@
}

/// The text of the authorisation URL for `client_id`, not yet parsed.
pub fn authorisation_code_request_text(client_id: &str) -> (text: String)
    ensures
        text@ == authorisation_url_text(client_id@),
{
    let mut text = String::from_str(API_HOST);
    text.append(AUTHORISE_ENDPOINT);
    text.append("?client_id=");
    text.append(client_id);
    text.append("&response_type=code");
    text.append("&redirect_uri=");
    text.append(REDIRECT_URI);
    text.append("&scope=");
    text.append(SCOPE_STR);
    text
}

/// `url::ParseError`, the error of `reqwest::Url::from_str`; nothing is
/// known of a value of it.
#[verifier::external_type_specification]
#[verifier::external_body]
pub struct ExUrlParseError(url::ParseError);

/// The serialization of the URL that `input` parses to, or `None` where
/// `input` does not parse as a URL.
pub uninterp spec fn url_serialization(input: Seq<char>) -> Option<Seq<char>>;

/// Parses `input` with `reqwest::Url::from_str` and gives the parsed URL's
/// serialization back as text. Parsing reads nothing but `input`, so the
/// outcome is named by [`url_serialization`]; nothing more is claimed of it.
#[verifier::external_body]
fn parse_url(input: &str) -> (parsed: Result<String, url::ParseError>)
    ensures
        match parsed {
            Ok(text) => url_serialization(input@) == Some(text@),
            Err(_) => url_serialization(input@) is None,
        },
{
    match <reqwest::Url as std::str::FromStr>::from_str(input) {
        Ok(url) => Ok(url.to_string()),
        Err(error) => Err(error),
    }
}

/// The text for a client id does not parse as a URL.
#[derive(Debug, PartialEq, Eq, Structural, Clone, Copy)]
pub struct InvalidUrl;

/// The URL that the user visits to grant access: the parsed and serialized
/// form of [`authorisation_url_text`].
pub fn get_authorisation_code_request_url(client_id: &str) -> (url: Result<String, InvalidUrl>)
    ensures
        match url {
            Ok(text) => url_serialization(authorisation_url_text(client_id@)) == Some(text@),
            Err(_) => url_serialization(authorisation_url_text(client_id@)) is None,
        },
{
    let text = authorisation_code_request_text(client_id);
    match parse_url(text.as_str()) {
        Ok(url) => Ok(url),
        Err(_) => Err(InvalidUrl),
    }
}

/// Why a redirect request yields no authorisation code.
#[derive(Debug, PartialEq, Eq, Structural, Clone, Copy)]
pub enum AuthorisationCodeError {
    /// The request holds no protocol version, or the code is not ended by
    /// the one delimiter that stands directly before the protocol version.
    MalformedRequestLine,
    /// The request line holds no code marker, or nothing stands between
    /// the marker and the delimiter.
    MissingCode,
    /// The request line holds the `code` parameter more than once.
    DuplicatedCode,
    /// The code marker does not follow `GET /`.
    UnexpectedRequest,
}

/// The authorisation code in a redirect request of the form
/// `GET /?code=VALUE HTTP/...`, and an error for every other request.
///
/// The request line is what precedes the first [`VERSION_TOKEN`]. It holds
/// [`CODE_MARKER`] once, directly after [`REDIRECT_TARGET`], and no further
/// `code` parameter ([`NEXT_CODE`]). The code is what stands between the
/// marker and the first [`DELIMITER`] after it; that delimiter is the last
/// character before the protocol version, and the code is not empty.
pub open spec fn authorisation_code_in(request: Seq<char>) -> Result<
    Seq<char>,
    AuthorisationCodeError,
> {
    match first_occurrence(request, VERSION_TOKEN@) {
        None => Err(AuthorisationCodeError::MalformedRequestLine),
        Some(end) => {
            let line = request.take(end);
            match first_occurrence(line, CODE_MARKER@) {
                None => Err(AuthorisationCodeError::MissingCode),
                Some(at) => {
                    let value = line.skip(at + CODE_MARKER@.len());
                    if first_occurrence(value, CODE_MARKER@) is Some || first_occurrence(
                        value,
                        NEXT_CODE@,
                    ) is Some {
                        Err(AuthorisationCodeError::DuplicatedCode)
                    } else if line.take(at) != REDIRECT_TARGET@ {
                        Err(AuthorisationCodeError::UnexpectedRequest)
                    } else {
                        match first_occurrence(value, DELIMITER@) {
                            None => Err(AuthorisationCodeError::MalformedRequestLine),
                            Some(stop) => if stop + DELIMITER@.len() != value.len() {
                                Err(AuthorisationCodeError::MalformedRequestLine)
                            } else if stop == 0 {
                                Err(AuthorisationCodeError::MissingCode)
                            } else {
                                Ok(value.take(stop))
                            },
                        }
                    }
                },
            }
        },
    }
}

/// Reads the authorisation code out of the redirect request that the
/// listener received. A request that is not of the expected form yields an
/// error and never a guess at the code.
pub fn get_authorisation_code(redirect_request: &str) -> (outcome: Result<
    String,
    AuthorisationCodeError,
>)
    ensures
        match outcome {
            Ok(code) => authorisation_code_in(redirect_request@) == Ok::<
                Seq<char>,
                AuthorisationCodeError,
            >(code@),
            Err(error) => authorisation_code_in(redirect_request@) == Err::<
                Seq<char>,
                AuthorisationCodeError,
            >(error),
        },
        outcome matches Ok(code) ==> code@.len() > 0,
{
    let request = chars_of(redirect_request);
    let version_token = chars_of(VERSION_TOKEN);
    let marker = chars_of(CODE_MARKER);
    let next_code = chars_of(NEXT_CODE);
    let target = chars_of(REDIRECT_TARGET);
    let delimiter = chars_of(DELIMITER);
    let line = match find(&request, &version_token) {
        Some(end) => slice_of(&request, 0, end),
        None => {
            return Err(AuthorisationCodeError::MalformedRequestLine);
        },
    };
    match find(&line, &marker) {
        None => Err(AuthorisationCodeError::MissingCode),
        Some(at) => {
            let end: usize = line.len();
            let value = slice_of(&line, at + marker.len(), end);
            let before = slice_of(&line, 0, at);
            if find(&value, &marker).is_some() || find(&value, &next_code).is_some() {
                return Err(AuthorisationCodeError::DuplicatedCode);
            }
            if !same_chars(&before, &target) {
                return Err(AuthorisationCodeError::UnexpectedRequest);
            }
            match find(&value, &delimiter) {
                None => Err(AuthorisationCodeError::MalformedRequestLine),
                Some(stop) => {
                    if value.len() - stop != delimiter.len() {
                        Err(AuthorisationCodeError::MalformedRequestLine)
                    } else if stop == 0 {
                        Err(AuthorisationCodeError::MissingCode)
                    } else {
                        let code = slice_of(&value, 0, stop);
                        Ok(string_of(&code))
                    }
                },
            }
        },
    }
}

} // verus!
