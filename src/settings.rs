//! Messages exchanged with the backend's settings API.

use std::collections::HashMap;
use vstd::prelude::*;

verus! {

/// Reply carrying a user's theme.
#[derive(Debug, Clone, PartialEq)]
pub struct GetThemeResponse {
    pub theme: String,
}

/// Request that sets a user's theme.
#[derive(Debug, Clone, PartialEq)]
pub struct SetThemeRequest {
    pub user_id: i32,
    pub new_theme: String,
}

/// Reply to a theme change.
#[derive(Debug, Clone, PartialEq)]
pub struct SetThemeResponse {
    pub message: String,
}

/// Reply carrying the users' details by field name.
#[derive(Debug, Clone, PartialEq)]
pub struct UserInfoResponse {
    pub user_info: HashMap<String, String>,
}

#[allow(non_snake_case)]
/// A user as the administration page lists it.
#[derive(Debug, Clone, PartialEq)]
pub struct SettingsUser {
    pub UserID: i32,
    pub Fullname: String,
    pub Username: String,
    pub Email: String,
    pub IsAdmin: i32,
}

/// Request that adds a user.
#[derive(Debug, Clone, PartialEq)]
pub struct AddSettingsUserRequest {
    pub fullname: String,
    pub username: String,
    pub email: String,
    pub hash_pw: String,
}

/// Reply to adding a user.
#[derive(Debug, Clone, PartialEq)]
pub struct AddUserResponse {
    pub detail: String,
}

/// Reply of the calls that change one field of a user.
#[derive(Debug, Clone, PartialEq)]
pub struct DetailResponse {
    pub detail: String,
}

/// A user's details as the edit form holds them.
#[derive(Debug, Clone, PartialEq)]
pub struct EditSettingsUserRequest {
    pub fullname: String,
    pub new_username: String,
    pub email: String,
    pub hash_pw: String,
    pub admin_status: bool,
}

/// Reply to editing a user.
#[derive(Debug, Clone, PartialEq)]
pub struct EditUserResponse {
    pub detail: String,
}

/// Reply of the calls that switch a server option.
#[derive(Debug, Clone, Copy, PartialEq, Eq)]
pub struct SuccessResponse {
    pub success: bool,
}

/// Whether guest access is on.
#[derive(Debug, Clone, Copy, PartialEq, Eq)]
pub struct GuestStatusResponse {
    pub guest_status: bool,
}

/// Whether downloads are on.
#[derive(Debug, Clone, Copy, PartialEq, Eq)]
pub struct DownloadStatusResponse {
    pub download_status: bool,
}

/// Whether users may sign themselves up.
#[derive(Debug, Clone, Copy, PartialEq, Eq)]
pub struct SelfServiceStatusResponse {
    pub status: bool,
}

/// Request that saves the mail server settings.
#[derive(Debug, Clone)]
pub struct EmailSettingsRequest {
    pub email_settings: EmailSettings,
}

/// The mail server settings.
#[derive(Debug, Clone)]
pub struct EmailSettings {
    pub server_name: String,
    pub server_port: String,
    pub from_email: String,
    pub send_mode: String,
    pub encryption: String,
    pub auth_required: bool,
    pub email_username: String,
    pub email_password: String,
}

/// Mail server settings with a test message to send through them.
#[derive(Debug, Clone)]
pub struct TestEmailSettings {
    pub server_name: String,
    pub server_port: String,
    pub from_email: String,
    pub send_mode: String,
    pub encryption: String,
    pub auth_required: bool,
    pub email_username: String,
    pub email_password: String,
    pub to_email: String,
    pub message: String,
}

/// Reply to sending a mail.
#[derive(Debug)]
pub struct EmailSendResponse {
    pub email_status: String,
}

/// A mail to send.
#[derive(Debug, Clone)]
pub struct SendEmailSettings {
    pub to_email: String,
    pub subject: String,
    pub message: String,
}

#[allow(non_snake_case)]
/// The stored mail server settings.
#[derive(Debug, PartialEq, Clone, Default)]
pub struct EmailSettingsResponse {
    pub EmailSettingsID: i32,
    pub Server_Name: String,
    pub Server_Port: i32,
    pub From_Email: String,
    pub Send_Mode: String,
    pub Encryption: String,
    pub Auth_Required: i32,
    pub Username: String,
    pub Password: String,
}

#[allow(non_snake_case)]
/// One API key of a user, of which only the last four digits are shown.
#[derive(Debug, Clone, PartialEq)]
pub struct APIInfo {
    pub APIKeyID: i32,
    pub UserID: i32,
    pub Username: String,
    pub LastFourDigits: String,
    pub Created: String,
}

/// Reply listing a user's API keys.
#[derive(Debug, Clone, PartialEq)]
pub struct APIInfoResponse {
    pub api_info: Vec<APIInfo>,
}

/// Reply carrying a new API key.
#[derive(Debug, Clone, PartialEq)]
pub struct CreateAPIKeyResponse {
    pub api_key: String,
}

/// Reply to deleting an API key.
#[derive(Debug, Clone, PartialEq)]
pub struct DeleteAPIKeyResponse {
    pub detail: String,
}

/// Request that deletes an API key.
#[derive(Debug, PartialEq)]
pub struct DeleteAPIRequest {
    pub api_id: String,
    pub user_id: String,
}

/// Request for a backup of a user's subscriptions.
#[derive(Debug, Clone, Copy, PartialEq, Eq)]
pub struct BackupUserRequest {
    pub user_id: i32,
}

/// Whether a user has two-factor sign-in on.
#[derive(Debug, Clone, Copy, PartialEq, Eq)]
pub struct GetMFAResponse {
    pub mfa_enabled: bool,
}

/// Request that saves a user's TOTP secret.
#[derive(Debug)]
pub struct SaveMFASecretRequest {
    pub user_id: i32,
    pub mfa_secret: String,
}

/// Reply to saving a TOTP secret.
#[derive(Debug, Clone, PartialEq)]
pub struct SaveMFASecretResponse {
    pub status: String,
}

/// Body of the request that registers a pending Nextcloud login with the
/// backend, which then polls Nextcloud itself.
#[derive(Debug, Clone, PartialEq)]
pub struct NextcloudAuthRequest {
    pub user_id: i32,
    pub token: String,
    pub poll_endpoint: String,
    pub nextcloud_url: String,
}

/// Reply of the backend to a Nextcloud registration.
#[derive(Debug, Clone, PartialEq)]
pub struct NextcloudAuthResponse {
    pub status: String,
}

/// Reply of the backend to a link check: `data` is true once the account is linked.
#[derive(Debug, Clone, Copy, PartialEq, Eq)]
pub struct NextcloudCheckResponse {
    pub data: bool,
}

fn is_success_text(s: &String) -> (r: bool)
    ensures
        r == (s@ == "Success"@),
{
    let expected = String::from_str("Success");
    s.eq(&expected)
}

impl SetThemeResponse {
    /// Whether the backend reports the theme as set.
    pub fn is_success(&self) -> (r: bool)
        ensures
            r == (self.message@ == "Success"@),
    {
        is_success_text(&self.message)
    }
}

impl AddUserResponse {
    /// Whether the backend reports the user as added.
    pub fn is_success(&self) -> (r: bool)
        ensures
            r == (self.detail@ == "Success"@),
    {
        is_success_text(&self.detail)
    }
}

} // verus!
