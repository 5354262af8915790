use serde_json::Value;
use terrabad::auth::{get_token, login_request, session_from, Session, Token, TokenData};
use terrabad::json::Json;
use terrabad::request::{Method, Role};

#[test]
fn login_request_posts_the_pam_user() {
    let request = login_request("https://pve:8006", "root", "secret");
    assert_eq!(request.role, Role::Login);
    assert_eq!(request.method, Method::Post);
    assert_eq!(request.url, "https://pve:8006/api2/json/access/ticket");
    assert_eq!(request.session, None);
    let body = request.body.unwrap();
    assert_eq!(body.len(), 2);
    assert_eq!(body.get("username"), Some(&Value::String("root@pam".to_string())));
    assert_eq!(body.get("password"), Some(&Value::String("secret".to_string())));
}

#[test]
fn get_token_reads_ticket_and_csrf() {
    let answer = "{\"data\":{\"username\":\"root@pam\",\"ticket\":\"PVE:T\",\"CSRFPreventionToken\":\"C:1\"}}";
    let session = get_token(answer);
    assert_eq!(session, Some(Session { ticket: "PVE:T".to_string(), csrf: "C:1".to_string() }));
}

#[test]
fn get_token_refuses_answers_without_both_strings() {
    assert_eq!(get_token(""), None);
    assert_eq!(get_token("{\"data\":null}"), None);
    assert_eq!(get_token("{\"data\":{\"ticket\":\"T\"}}"), None);
    assert_eq!(get_token("{\"data\":{\"CSRFPreventionToken\":\"C\"}}"), None);
    assert_eq!(get_token("{\"data\":{\"ticket\":1,\"CSRFPreventionToken\":\"C\"}}"), None);
    assert_eq!(get_token("{\"ticket\":\"T\",\"CSRFPreventionToken\":\"C\"}"), None);
    assert_eq!(get_token("[]"), None);
}

#[test]
fn token_data_decodes_from_a_document() {
    let doc = Json::Object(vec![(
        "data".to_string(),
        Json::Object(vec![
            ("ticket".to_string(), Json::Text("T".to_string())),
            ("CSRFPreventionToken".to_string(), Json::Text("C".to_string())),
        ]),
    )]);
    let expected = TokenData { data: Token { ticket: "T".to_string(), csrf: "C".to_string() } };
    assert_eq!(TokenData::from_json(&doc), Some(expected));
    assert_eq!(TokenData::from_json(&Json::Null), None);
    assert_eq!(session_from(None), None);
    assert_eq!(
        session_from(Some(doc)),
        Some(Session { ticket: "T".to_string(), csrf: "C".to_string() })
    );
}

#[test]
fn session_gives_the_header_values() {
    let session = Session::from_token(Token { ticket: "PVE:T".to_string(), csrf: "C:1".to_string() });
    assert_eq!(session.cookie(), "AuthCookie=PVE:T");
    assert_eq!(
        session.headers(),
        vec![
            ("Cookie".to_string(), "AuthCookie=PVE:T".to_string()),
            ("Csrfpreventiontoken".to_string(), "C:1".to_string()),
        ]
    );
    assert!(session.is_usable());
    assert_eq!(session.csrf, "C:1");
    assert_eq!(Session::csrf_header(), "Csrfpreventiontoken");
    assert_eq!(session.clone(), session);
}

#[test]
fn login_scenario_gives_the_two_headers() {
    let request = login_request("https://h", "root", "pw");
    assert_eq!(request.method, Method::Post);
    assert_eq!(request.url, "https://h/api2/json/access/ticket");
    let body = serde_json::to_string(&request.body.unwrap()).unwrap();
    assert_eq!(body, "{\"password\":\"pw\",\"username\":\"root@pam\"}");
    let session = get_token("{\"data\":{\"ticket\":\"T\",\"CSRFPreventionToken\":\"C\"}}").unwrap();
    let headers = session.headers();
    assert_eq!(headers.len(), 2);
    assert_eq!(headers[0], ("Cookie".to_string(), "AuthCookie=T".to_string()));
    assert_eq!(headers[1], ("Csrfpreventiontoken".to_string(), "C".to_string()));
}

#[test]
fn get_token_refuses_what_cannot_be_a_header_value() {
    let answer = |ticket: &str, csrf: &str| {
        format!("{{\"data\":{{\"ticket\":\"{}\",\"CSRFPreventionToken\":\"{}\"}}}}", ticket, csrf)
    };
    assert_eq!(get_token(&answer("T\\n", "C")), None);
    assert_eq!(get_token(&answer("T", "C\\r\\nX: y")), None);
    assert_eq!(get_token(&answer("T\\u007f", "C")), None);
    assert_eq!(get_token(&answer("T\\u0000", "C")), None);
    assert_eq!(get_token(&answer("T", "\\u001f")), None);
    assert_eq!(
        get_token(&answer("a\\tb c~", "\u{e9}\u{20ac}")),
        Some(Session { ticket: "a\tb c~".to_string(), csrf: "\u{e9}\u{20ac}".to_string() })
    );
    assert_eq!(
        get_token(&answer("", "")),
        Some(Session { ticket: String::new(), csrf: String::new() })
    );
}

#[test]
fn session_tells_whether_it_can_be_sent() {
    let session = |ticket: &str, csrf: &str| Session { ticket: ticket.to_string(), csrf: csrf.to_string() };
    assert!(session("T", "C").is_usable());
    assert!(!session("T\n", "C").is_usable());
    assert!(!session("T", "C\u{7f}").is_usable());
    assert!(session("T\t", " C").is_usable());
}
