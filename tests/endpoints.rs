use pinepods_web::endpoint::{api_url, id_to_decimal, nextcloud_login_url, ApiCall, HttpMethod};

#[test]
fn decimal_ids() {
    assert_eq!(id_to_decimal(0), "0");
    assert_eq!(id_to_decimal(7), "7");
    assert_eq!(id_to_decimal(1205), "1205");
    assert_eq!(id_to_decimal(-31), "-31");
    assert_eq!(id_to_decimal(i32::MAX), "2147483647");
    assert_eq!(id_to_decimal(i32::MIN), "-2147483648");
}

#[test]
fn login_url_appends_login_path() {
    assert_eq!(
        nextcloud_login_url("https://cloud.example.com"),
        "https://cloud.example.com/index.php/login/v2"
    );
}

#[test]
fn urls_of_calls() {
    let s = "http://localhost:8040";
    assert_eq!(api_url(s, &ApiCall::GetTheme { user_id: 3 }), "http://localhost:8040/api/data/get_theme/3");
    assert_eq!(api_url(s, &ApiCall::SetTheme), "http://localhost:8040/api/data/user/set_theme");
    assert_eq!(
        api_url(s, &ApiCall::SetFullname { user_id: 12, new_name: "Ann Lee".to_string() }),
        "http://localhost:8040/api/data/set_fullname/12?new_name=Ann Lee"
    );
    assert_eq!(
        api_url(s, &ApiCall::CheckGpodderSettings { user_id: 42 }),
        "http://localhost:8040/api/data/check_gpodder_settings/42"
    );
    assert_eq!(api_url(s, &ApiCall::DeleteApiKey), "http://localhost:8040/api/data/delete_api_key");
}

#[test]
fn methods_of_calls() {
    assert_eq!(ApiCall::GetUserInfo.method(), HttpMethod::Get);
    assert_eq!(ApiCall::SetEmail.method(), HttpMethod::Put);
    assert_eq!(ApiCall::AddNextcloudServer.method(), HttpMethod::Post);
    assert_eq!(ApiCall::DeleteApiKey.method(), HttpMethod::Delete);
    assert_eq!(ApiCall::SetPassword { user_id: 1 }.method(), HttpMethod::Put);
}
