use eterpix_vrc_uploader::uploader::{
    format_error, ApiResponse, JsonValue, RequestFailure, UploaderClient, HEALTH_PATH, LOGIN_PATH,
};

fn failure(connect: bool, timeout: bool, status: Option<u16>) -> RequestFailure {
    RequestFailure {
        is_connect: connect,
        is_timeout: timeout,
        status,
        status_text: match status {
            Some(500) => "500 Internal Server Error".to_string(),
            Some(s) => format!("{} X", s),
            None => String::new(),
        },
        description: "boom".to_string(),
    }
}

fn obj(members: Vec<(&str, JsonValue)>) -> JsonValue {
    JsonValue::Object(members.into_iter().map(|(k, v)| (k.to_string(), v)).collect())
}

#[test]
fn base_url_loses_trailing_slashes() {
    assert_eq!(UploaderClient::new("https://a.example//".to_string()).base_url, "https://a.example");
    assert_eq!(UploaderClient::new("https://a.example".to_string()).base_url, "https://a.example");
    assert_eq!(UploaderClient::new("///".to_string()).base_url, "");
    let c = UploaderClient::new("https://x.jp/".to_string());
    assert!(c.token.is_none());
    assert_eq!(c.url(LOGIN_PATH), "https://x.jp/vrc/api/auth/login");
    assert_eq!(c.url(HEALTH_PATH), "https://x.jp/vrc/api/health");
}

#[test]
fn bearer_header() {
    let mut c = UploaderClient::new("u".to_string());
    assert_eq!(c.auth_header_value(), None);
    c.token = Some("abc".to_string());
    assert_eq!(c.auth_header_value(), Some("Bearer abc".to_string()));
}

#[test]
fn responses() {
    let e = ApiResponse::error("bad".to_string());
    assert_eq!(e.status, "error");
    assert_eq!(e.message, Some("bad".to_string()));
    assert!(e.data.is_none());
    assert!(!e.is_success());
    let ok = ApiResponse {
        status: "success".to_string(),
        message: None,
        data: Some(obj(vec![
            ("token", JsonValue::Text("t1".to_string())),
            ("photo_uuid", JsonValue::Text("p1".to_string())),
            ("n", JsonValue::Number("3".to_string())),
        ])),
    };
    assert!(ok.is_success());
    assert_eq!(ok.data_str("photo_uuid"), Some("p1".to_string()));
    assert_eq!(ok.data_str("n"), None);
    assert_eq!(ok.data_str("missing"), None);
}

#[test]
fn login_token_is_taken_from_successful_reply() {
    let mut c = UploaderClient::new("u".to_string());
    let reply = ApiResponse {
        status: "success".to_string(),
        message: None,
        data: Some(obj(vec![("token", JsonValue::Text("tok".to_string()))])),
    };
    c.absorb_auth_response(&reply);
    assert_eq!(c.token, Some("tok".to_string()));
    let failed = ApiResponse {
        status: "error".to_string(),
        message: None,
        data: Some(obj(vec![("token", JsonValue::Text("other".to_string()))])),
    };
    c.absorb_auth_response(&failed);
    assert_eq!(c.token, Some("tok".to_string()));
    let no_token = ApiResponse { status: "success".to_string(), message: None, data: Some(JsonValue::Null) };
    c.absorb_auth_response(&no_token);
    assert_eq!(c.token, Some("tok".to_string()));
}

#[test]
fn json_get_and_as_str() {
    let v = obj(vec![("a", JsonValue::Bool(true)), ("b", JsonValue::Text("x".to_string()))]);
    assert!(matches!(v.get("a"), Some(JsonValue::Bool(true))));
    assert_eq!(v.get("b").and_then(|b| b.as_str()), Some(&"x".to_string()));
    assert!(v.get("c").is_none());
    assert!(JsonValue::Array(vec![]).get("a").is_none());
}

#[test]
fn error_messages() {
    assert_eq!(
        format_error(&failure(true, false, None)),
        "サーバーに接続できません。ネットワークとサーバーURLを確認してください。"
    );
    assert_eq!(format_error(&failure(false, true, None)), "接続がタイムアウトしました。");
    assert_eq!(
        format_error(&failure(false, false, Some(522))),
        "サーバーに接続できません。しばらく待ってから再試行してください。"
    );
    assert_eq!(
        format_error(&failure(false, false, Some(530))),
        "サーバーに接続できません。しばらく待ってから再試行してください。"
    );
    assert_eq!(
        format_error(&failure(false, false, Some(500))),
        "サーバーエラーが発生しました (500 Internal Server Error)。"
    );
    assert_eq!(format_error(&failure(false, false, Some(401))), "ユーザー名またはパスワードが正しくありません。");
    assert_eq!(format_error(&failure(false, false, Some(403))), "アクセスが拒否されました。");
    assert_eq!(
        format_error(&failure(false, false, Some(404))),
        "サーバーのエンドポイントが見つかりません。サーバーURLを確認してください。"
    );
    assert_eq!(
        format_error(&failure(false, false, Some(429))),
        "リクエストが多すぎます。しばらく待ってから再試行してください。"
    );
    assert_eq!(format_error(&failure(false, false, Some(418))), "HTTPエラー (418)");
    assert_eq!(format_error(&failure(false, false, None)), "boom");
}
