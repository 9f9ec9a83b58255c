use dashboard::outlook::auth::{
    access_token_call, access_token_request, authorisation_code_request_text,
    get_access_token, get_authorisation_code, get_authorisation_code_request_url, is_expired,
    AccessTokenRequestType, AccessTokenResponse, AuthorisationCodeError, ExchangeError,
};
use dashboard::transport::{Reply, ReplyError};

fn token(expires_in: u32) -> AccessTokenResponse {
    AccessTokenResponse {
        access_token: "T".to_string(),
        token_type: "Bearer".to_string(),
        expires_in,
        scope: "mail.readwrite".to_string(),
        refresh_token: "R".to_string(),
    }
}

#[test]
fn code_is_read_from_redirect_request() {
    let request = "GET /?code=XYZ123 HTTP/1.1\r\nHost: localhost:6767\r\n\r\n";
    assert_eq!(get_authorisation_code(request), Ok("XYZ123".to_string()));
}

#[test]
fn code_is_read_from_a_zero_padded_buffer() {
    let mut request = "GET /?code=0.AAA_bbb-ccc HTTP/1.1\r\nAccept: */*\r\n\r\n".to_string();
    while request.len() < 1024 {
        request.push('\0');
    }
    assert_eq!(get_authorisation_code(&request), Ok("0.AAA_bbb-ccc".to_string()));
}

#[test]
fn code_ends_at_the_space_before_the_version() {
    assert_eq!(get_authorisation_code("GET /?code=abc HTTP/1.1"), Ok("abc".to_string()));
    assert_eq!(get_authorisation_code("GET /?code=a HTTP/"), Ok("a".to_string()));
}

#[test]
fn other_parameters_after_the_code_belong_to_it() {
    assert_eq!(
        get_authorisation_code("GET /?code=A&session_state=xyz HTTP/1.1\r\n"),
        Ok("A&session_state=xyz".to_string())
    );
    assert_eq!(
        get_authorisation_code("GET /?code=A&barcode=7 HTTP/1.1\r\n"),
        Ok("A&barcode=7".to_string())
    );
}

#[test]
fn request_without_version_token_is_rejected() {
    assert_eq!(
        get_authorisation_code("GET /?code=abcd"),
        Err(AuthorisationCodeError::MalformedRequestLine)
    );
    assert_eq!(
        get_authorisation_code("GET /?code=abcd \r\n"),
        Err(AuthorisationCodeError::MalformedRequestLine)
    );
    assert_eq!(get_authorisation_code(""), Err(AuthorisationCodeError::MalformedRequestLine));
    assert_eq!(
        get_authorisation_code("GET /?code="),
        Err(AuthorisationCodeError::MalformedRequestLine)
    );
}

#[test]
fn code_without_the_delimiter_is_rejected() {
    assert_eq!(
        get_authorisation_code("GET /?code=abcHTTP/1.1"),
        Err(AuthorisationCodeError::MalformedRequestLine)
    );
    assert_eq!(
        get_authorisation_code("GET /?code=abc\tHTTP/1.1"),
        Err(AuthorisationCodeError::MalformedRequestLine)
    );
    assert_eq!(
        get_authorisation_code("GET /?code=HTTP/1.1"),
        Err(AuthorisationCodeError::MalformedRequestLine)
    );
}

#[test]
fn delimiter_inside_the_value_is_rejected() {
    assert_eq!(
        get_authorisation_code("GET /?code=abc def HTTP/1.1"),
        Err(AuthorisationCodeError::MalformedRequestLine)
    );
    assert_eq!(
        get_authorisation_code("GET /?code=abc  HTTP/1.1"),
        Err(AuthorisationCodeError::MalformedRequestLine)
    );
    assert_eq!(
        get_authorisation_code("GET /?code= abc HTTP/1.1"),
        Err(AuthorisationCodeError::MalformedRequestLine)
    );
}

#[test]
fn empty_code_is_rejected() {
    assert_eq!(
        get_authorisation_code("GET /?code= HTTP/1.1"),
        Err(AuthorisationCodeError::MissingCode)
    );
}

#[test]
fn request_without_code_is_rejected() {
    assert_eq!(
        get_authorisation_code("GET /favicon.ico HTTP/1.1\r\n\r\n"),
        Err(AuthorisationCodeError::MissingCode)
    );
    assert_eq!(
        get_authorisation_code("GET /?error=access_denied HTTP/1.1\r\n\r\n"),
        Err(AuthorisationCodeError::MissingCode)
    );
    assert_eq!(get_authorisation_code("HTTP/"), Err(AuthorisationCodeError::MissingCode));
}

#[test]
fn code_after_the_version_token_does_not_count() {
    assert_eq!(
        get_authorisation_code("GET / HTTP/1.1\r\nReferer: http://x/?code=A \r\n"),
        Err(AuthorisationCodeError::MissingCode)
    );
}

#[test]
fn request_with_two_codes_is_rejected() {
    assert_eq!(
        get_authorisation_code("GET /?code=A&code=B HTTP/1.1\r\n\r\n"),
        Err(AuthorisationCodeError::DuplicatedCode)
    );
    assert_eq!(
        get_authorisation_code("GET /?code=A&state=s&code=B HTTP/1.1\r\n"),
        Err(AuthorisationCodeError::DuplicatedCode)
    );
    assert_eq!(
        get_authorisation_code("GET /?code=A&code= HTTP/1.1\r\n"),
        Err(AuthorisationCodeError::DuplicatedCode)
    );
    assert_eq!(
        get_authorisation_code("GET /?code=A?code=B HTTP/1.1\r\n"),
        Err(AuthorisationCodeError::DuplicatedCode)
    );
}

#[test]
fn other_method_or_path_is_rejected() {
    assert_eq!(
        get_authorisation_code("POST /?code=A HTTP/1.1\r\n"),
        Err(AuthorisationCodeError::UnexpectedRequest)
    );
    assert_eq!(
        get_authorisation_code("GET /callback?code=A HTTP/1.1\r\n"),
        Err(AuthorisationCodeError::UnexpectedRequest)
    );
    assert_eq!(
        get_authorisation_code(" GET /?code=A HTTP/1.1\r\n"),
        Err(AuthorisationCodeError::UnexpectedRequest)
    );
}

#[test]
fn two_codes_are_reported_before_the_path() {
    assert_eq!(
        get_authorisation_code("POST /?code=A&code=B HTTP/1.1\r\n"),
        Err(AuthorisationCodeError::DuplicatedCode)
    );
}

#[test]
fn path_is_reported_before_the_delimiter() {
    assert_eq!(
        get_authorisation_code("POST /?code=A\tHTTP/1.1\r\n"),
        Err(AuthorisationCodeError::UnexpectedRequest)
    );
}

#[test]
fn authorisation_text_for_abc() {
    assert_eq!(
        authorisation_code_request_text("abc"),
        "https://login.microsoftonline.com/common/oauth2/v2.0/authorize?client_id=abc\
         &response_type=code&redirect_uri=http://localhost:6767\
         &scope=offline_access user.read mail.readwrite calendars.readwrite"
    );
}

#[test]
fn authorisation_url_for_abc() {
    let url = get_authorisation_code_request_url("abc").unwrap();
    assert_eq!(url.matches("client_id=abc").count(), 1);
    assert_eq!(url.matches("http://localhost:6767").count(), 1);
    assert!(url.contains("response_type=code"));
    for scope in ["offline_access", "user.read", "mail.readwrite", "calendars.readwrite"] {
        assert_eq!(url.matches(scope).count(), 1);
    }
    assert_eq!(
        url,
        "https://login.microsoftonline.com/common/oauth2/v2.0/authorize?client_id=abc\
         &response_type=code&redirect_uri=http://localhost:6767\
         &scope=offline_access%20user.read%20mail.readwrite%20calendars.readwrite"
    );
}

#[test]
fn authorisation_url_is_the_parsed_form_of_the_text() {
    let url = get_authorisation_code_request_url("a b").unwrap();
    assert!(url.contains("client_id=a%20b&"));
    assert_ne!(url, authorisation_code_request_text("a b"));
}

#[test]
fn code_request_sends_the_code() {
    let kind = AccessTokenRequestType::AuthorizationCode("XYZ123".to_string());
    let request = access_token_request("abc", &kind);
    assert_eq!(request.client_id, "abc");
    assert_eq!(request.redirect_uri, "http://localhost:6767");
    assert_eq!(request.scope, "offline_access user.read mail.readwrite calendars.readwrite");
    assert_eq!(request.code, Some("XYZ123".to_string()));
    assert_eq!(request.refresh_token, None);
    assert_eq!(request.grant_type, "authorization_code");
}

#[test]
fn refresh_request_sends_only_the_refresh_token() {
    let kind = AccessTokenRequestType::RefreshToken("R".to_string());
    let request = access_token_request("abc", &kind);
    assert_eq!(request.client_id, "abc");
    assert_eq!(request.redirect_uri, "http://localhost:6767");
    assert_eq!(request.scope, "offline_access user.read mail.readwrite calendars.readwrite");
    assert_eq!(request.code, None);
    assert_eq!(request.refresh_token, Some("R".to_string()));
    assert_eq!(request.grant_type, "refresh_token");
}

#[test]
fn token_call_goes_to_the_token_endpoint() {
    let kind = AccessTokenRequestType::RefreshToken("R".to_string());
    let call = access_token_call("abc", &kind);
    assert_eq!(call.url, "https://login.microsoftonline.com/common/oauth2/v2.0/token");
    assert_eq!(call.content_type, "application/x-www-form-urlencoded");
    assert_eq!(call.form, access_token_request("abc", &kind));
}

#[test]
fn exchange_returns_the_token_of_the_reply() {
    let reply = Reply::Answered { status: 200, body: Some(token(3600)) };
    let exchanged = get_access_token(reply).unwrap();
    assert_eq!(exchanged.expires_in, 3600);
    assert_eq!(exchanged.refresh_token, "R");
    assert_eq!(exchanged.access_token, "T");
    assert_eq!(exchanged.token_type, "Bearer");
    assert_eq!(exchanged, token(3600));
}

#[test]
fn exchange_fails_on_another_status() {
    let reply = Reply::Answered { status: 400, body: Some(token(3600)) };
    assert_eq!(get_access_token(reply), Err(ExchangeError::NonOkCode(400)));
    let reply = Reply::Answered { status: 201, body: Some(token(3600)) };
    assert_eq!(get_access_token(reply), Err(ExchangeError::NonOkCode(201)));
    let reply: Reply<AccessTokenResponse> = Reply::Answered { status: 500, body: None };
    assert_eq!(get_access_token(reply), Err(ExchangeError::NonOkCode(500)));
}

#[test]
fn exchange_fails_on_an_undecodable_body() {
    let reply: Reply<AccessTokenResponse> = Reply::Answered { status: 200, body: None };
    assert_eq!(get_access_token(reply), Err(ExchangeError::MalformedBody));
}

#[test]
fn exchange_fails_without_a_response() {
    let reply: Reply<AccessTokenResponse> = Reply::Unreachable;
    assert_eq!(get_access_token(reply), Err(ExchangeError::NoResponse));
}

#[test]
fn reply_status_and_accept() {
    let reply: Reply<u8> = Reply::Answered { status: 204, body: Some(7) };
    assert_eq!(reply.status(), Some(204));
    assert_eq!(reply.accept(), Err(ReplyError::NonOkCode(204)));
    let reply: Reply<u8> = Reply::Answered { status: 200, body: Some(7) };
    assert_eq!(reply.status(), Some(200));
    assert_eq!(reply.accept(), Ok(7));
    let reply: Reply<u8> = Reply::Answered { status: 200, body: None };
    assert_eq!(reply.accept(), Err(ReplyError::MalformedBody));
    let reply: Reply<u8> = Reply::Unreachable;
    assert_eq!(reply.status(), None);
    assert_eq!(reply.accept(), Err(ReplyError::NoResponse));
}

#[test]
fn token_is_not_expired_at_exactly_its_lifetime() {
    assert!(!is_expired(&token(3600), 1_000, 4_600));
}

#[test]
fn token_is_expired_one_second_after_its_lifetime() {
    assert!(is_expired(&token(3600), 1_000, 4_601));
}

#[test]
fn token_is_not_expired_before_its_lifetime() {
    assert!(!is_expired(&token(3600), 1_000, 1_000));
    assert!(!is_expired(&token(3600), 1_000, 4_599));
}

#[test]
fn token_issued_after_now_is_not_expired() {
    assert!(!is_expired(&token(0), 1_000, 999));
    assert!(!is_expired(&token(3600), u64::MAX, 0));
}

#[test]
fn token_without_lifetime_expires_after_one_second() {
    assert!(!is_expired(&token(0), 1_000, 1_000));
    assert!(is_expired(&token(0), 1_000, 1_001));
}

#[test]
fn expiry_holds_at_the_ends_of_the_range() {
    assert!(is_expired(&token(u32::MAX), 0, u64::MAX));
    assert!(!is_expired(&token(u32::MAX), 0, u32::MAX as u64));
    assert!(is_expired(&token(u32::MAX), 0, u32::MAX as u64 + 1));
}
