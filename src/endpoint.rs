//! Addresses of the backend API and of the Nextcloud login service.

use vstd::prelude::*;
use vstd::string::*;

verus! {

/// The decimal digit `d` (`d < 10`) as a character.
pub open spec fn digit_char(d: nat) -> char {
    seq!['0', '1', '2', '3', '4', '5', '6', '7', '8', '9'][d as int]
}

/// Decimal notation of a natural number, without leading zeros.
pub open spec fn nat_decimal(n: nat) -> Seq<char>
    decreases n,
{
    if n < 10 {
        seq![digit_char(n)]
    } else {
        nat_decimal(n / 10).push(digit_char(n % 10))
    }
}

/// Decimal notation of an integer, with a leading `-` when it is negative.
pub open spec fn int_decimal(n: int) -> Seq<char> {
    if n < 0 {
        seq!['-'] + nat_decimal((-n) as nat)
    } else {
        nat_decimal(n as nat)
    }
}

fn digit_str(d: u64) -> (r: &'static str)
    requires
        d < 10,
    ensures
        r@ == seq![digit_char(d as nat)],
{
    proof {
        reveal_strlit("0");
        reveal_strlit("1");
        reveal_strlit("2");
        reveal_strlit("3");
        reveal_strlit("4");
        reveal_strlit("5");
        reveal_strlit("6");
        reveal_strlit("7");
        reveal_strlit("8");
        reveal_strlit("9");
    }
    let r = match d {
        0 => "0",
        1 => "1",
        2 => "2",
        3 => "3",
        4 => "4",
        5 => "5",
        6 => "6",
        7 => "7",
        8 => "8",
        _ => "9",
    };
    assert(r@ =~= seq![digit_char(d as nat)]);
    r
}

fn nat_to_decimal(n: u64) -> (r: String)
    ensures
        r@ == nat_decimal(n as nat),
    decreases n,
{
    if n < 10 {
        String::from_str(digit_str(n))
    } else {
        let mut s = nat_to_decimal(n / 10);
        s.append(digit_str(n % 10));
        proof {
            assert(s@ =~= nat_decimal((n / 10) as nat).push(digit_char((n % 10) as nat)));
        }
        s
    }
}

/// Renders a user id in decimal, as it appears in a path of the API.
pub fn id_to_decimal(n: i32) -> (r: String)
    ensures
        r@ == int_decimal(n as int),
{
    if n < 0 {
        let m: u64 = (-(n as i64)) as u64;
        let digits = nat_to_decimal(m);
        let mut s = String::from_str("-");
        proof {
            reveal_strlit("-");
        }
        s.append(digits.as_str());
        proof {
            assert(s@ =~= seq!['-'] + nat_decimal((-n) as nat));
        }
        s
    } else {
        nat_to_decimal(n as u64)
    }
}

/// `base` followed by `path`.
pub open spec fn joined(base: Seq<char>, path: Seq<char>) -> Seq<char> {
    base + path
}

fn join(base: &str, path: &str) -> (r: String)
    ensures
        r@ == joined(base@, path@),
{
    let mut s = String::from_str(base);
    s.append(path);
    s
}

/// Address of the Nextcloud login service of the server at `server_url`.
pub open spec fn nextcloud_login_url_of(server_url: Seq<char>) -> Seq<char> {
    joined(server_url, "/index.php/login/v2"@)
}

/// The address that starts a Nextcloud login on `server_url`.
pub fn nextcloud_login_url(server_url: &str) -> (r: String)
    ensures
        r@ == nextcloud_login_url_of(server_url@),
{
    join(server_url, "/index.php/login/v2")
}

/// The HTTP method of a call.
#[derive(Debug, Clone, Copy, PartialEq, Eq)]
pub enum HttpMethod {
    Get,
    Post,
    Put,
    Delete,
}

/// A call of the backend API, with what its address holds.
#[derive(Debug, Clone, PartialEq)]
pub enum ApiCall {
    /// Read a user's theme.
    GetTheme { user_id: i32 },
    /// Set a user's theme.
    SetTheme,
    /// List the users.
    GetUserInfo,
    /// Add a user.
    AddUser,
    /// Set a user's full name; the new name goes in the query.
    SetFullname { user_id: i32, new_name: String },
    /// Set a user's password hash.
    SetPassword { user_id: i32 },
    /// Set a user's mail address.
    SetEmail,
    /// Set a user's name.
    SetUsername,
    /// Grant or withdraw administration rights.
    SetIsAdmin,
    /// Switch guest access.
    EnableDisableGuest,
    /// Switch downloads.
    EnableDisableDownloads,
    /// Switch self sign-up.
    EnableDisableSelfService,
    /// Whether guest access is on.
    GuestStatus,
    /// Whether downloads are on.
    DownloadStatus,
    /// Whether self sign-up is on.
    SelfServiceStatus,
    /// Save the mail server settings.
    SaveEmailSettings,
    /// Send a test mail.
    SendTestEmail,
    /// Send a mail.
    SendEmail,
    /// Read the mail server settings.
    GetEmailSettings,
    /// List a user's API keys.
    GetApiInfo { user_id: i32 },
    /// Create an API key.
    CreateApiKey,
    /// Delete an API key.
    DeleteApiKey,
    /// Export a user's subscriptions.
    BackupUser,
    /// Whether a user has two-factor sign-in on.
    CheckMfaEnabled { user_id: i32 },
    /// Save a user's TOTP secret.
    SaveMfaSecret,
    /// Register a pending Nextcloud login.
    AddNextcloudServer,
    /// Whether a user's Nextcloud link is established.
    CheckGpodderSettings { user_id: i32 },
}

impl ApiCall {
    /// The path of the call under the server's address.
    pub open spec fn path_of(&self) -> Seq<char> {
        match self {
            ApiCall::GetTheme { user_id } => "/api/data/get_theme/"@ + int_decimal(*user_id as int),
            ApiCall::SetTheme => "/api/data/user/set_theme"@,
            ApiCall::GetUserInfo => "/api/data/get_user_info"@,
            ApiCall::AddUser => "/api/data/add_user"@,
            ApiCall::SetFullname { user_id, new_name } => "/api/data/set_fullname/"@ + int_decimal(*user_id as int) + "?new_name="@
                + new_name@,
            ApiCall::SetPassword { user_id } => "/api/data/set_password/"@ + int_decimal(*user_id as int),
            ApiCall::SetEmail => "/api/data/user/set_email"@,
            ApiCall::SetUsername => "/api/data/user/set_username"@,
            ApiCall::SetIsAdmin => "/api/data/user/set_isadmin"@,
            ApiCall::EnableDisableGuest => "/api/data/enable_disable_guest"@,
            ApiCall::EnableDisableDownloads => "/api/data/enable_disable_downloads"@,
            ApiCall::EnableDisableSelfService => "/api/data/enable_disable_self_service"@,
            ApiCall::GuestStatus => "/api/data/guest_status"@,
            ApiCall::DownloadStatus => "/api/data/download_status"@,
            ApiCall::SelfServiceStatus => "/api/data/self_service_status"@,
            ApiCall::SaveEmailSettings => "/api/data/save_email_settings"@,
            ApiCall::SendTestEmail => "/api/data/send_test_email"@,
            ApiCall::SendEmail => "/api/data/send_email"@,
            ApiCall::GetEmailSettings => "/api/data/get_email_settings"@,
            ApiCall::GetApiInfo { user_id } => "/api/data/get_api_info/"@ + int_decimal(*user_id as int),
            ApiCall::CreateApiKey => "/api/data/create_api_key"@,
            ApiCall::DeleteApiKey => "/api/data/delete_api_key"@,
            ApiCall::BackupUser => "/api/data/backup_user"@,
            ApiCall::CheckMfaEnabled { user_id } => "/api/data/check_mfa_enabled/"@ + int_decimal(*user_id as int),
            ApiCall::SaveMfaSecret => "/api/data/save_mfa_secret"@,
            ApiCall::AddNextcloudServer => "/api/data/add_nextcloud_server"@,
            ApiCall::CheckGpodderSettings { user_id } => "/api/data/check_gpodder_settings/"@ + int_decimal(*user_id as int),
        }
    }

    /// The HTTP method of the call.
    pub open spec fn method_of(&self) -> HttpMethod {
        match self {
            ApiCall::GetTheme { .. } | ApiCall::GetUserInfo | ApiCall::GuestStatus | ApiCall::DownloadStatus | ApiCall::SelfServiceStatus | ApiCall::GetEmailSettings | ApiCall::GetApiInfo { .. } | ApiCall::CheckMfaEnabled { .. } | ApiCall::CheckGpodderSettings { .. } => HttpMethod::Get,
            ApiCall::SetTheme | ApiCall::SetFullname { .. } | ApiCall::SetPassword { .. } | ApiCall::SetEmail | ApiCall::SetUsername | ApiCall::SetIsAdmin => HttpMethod::Put,
            ApiCall::AddUser | ApiCall::EnableDisableGuest | ApiCall::EnableDisableDownloads | ApiCall::EnableDisableSelfService | ApiCall::SaveEmailSettings | ApiCall::SendTestEmail | ApiCall::SendEmail | ApiCall::CreateApiKey | ApiCall::BackupUser | ApiCall::SaveMfaSecret | ApiCall::AddNextcloudServer => HttpMethod::Post,
            ApiCall::DeleteApiKey => HttpMethod::Delete,
        }
    }

    /// The HTTP method of the call.
    pub fn method(&self) -> (r: HttpMethod)
        ensures
            r == self.method_of(),
    {
        match self {
            ApiCall::GetTheme { .. } | ApiCall::GetUserInfo | ApiCall::GuestStatus | ApiCall::DownloadStatus | ApiCall::SelfServiceStatus | ApiCall::GetEmailSettings | ApiCall::GetApiInfo { .. } | ApiCall::CheckMfaEnabled { .. } | ApiCall::CheckGpodderSettings { .. } => HttpMethod::Get,
            ApiCall::SetTheme | ApiCall::SetFullname { .. } | ApiCall::SetPassword { .. } | ApiCall::SetEmail | ApiCall::SetUsername | ApiCall::SetIsAdmin => HttpMethod::Put,
            ApiCall::AddUser | ApiCall::EnableDisableGuest | ApiCall::EnableDisableDownloads | ApiCall::EnableDisableSelfService | ApiCall::SaveEmailSettings | ApiCall::SendTestEmail | ApiCall::SendEmail | ApiCall::CreateApiKey | ApiCall::BackupUser | ApiCall::SaveMfaSecret | ApiCall::AddNextcloudServer => HttpMethod::Post,
            ApiCall::DeleteApiKey => HttpMethod::Delete,
        }
    }

    /// The path of the call under the server's address.
    pub fn path(&self) -> (r: String)
        ensures
            r@ == self.path_of(),
    {
        match self {
            ApiCall::GetTheme { user_id } => with_id("/api/data/get_theme/", *user_id),
            ApiCall::SetTheme => String::from_str("/api/data/user/set_theme"),
            ApiCall::GetUserInfo => String::from_str("/api/data/get_user_info"),
            ApiCall::AddUser => String::from_str("/api/data/add_user"),
            ApiCall::SetFullname { user_id, new_name } => {
                let mut s = with_id("/api/data/set_fullname/", *user_id);
                s.append("?new_name=");
                s.append(new_name.as_str());
                s
            },
            ApiCall::SetPassword { user_id } => with_id("/api/data/set_password/", *user_id),
            ApiCall::SetEmail => String::from_str("/api/data/user/set_email"),
            ApiCall::SetUsername => String::from_str("/api/data/user/set_username"),
            ApiCall::SetIsAdmin => String::from_str("/api/data/user/set_isadmin"),
            ApiCall::EnableDisableGuest => String::from_str("/api/data/enable_disable_guest"),
            ApiCall::EnableDisableDownloads => String::from_str("/api/data/enable_disable_downloads"),
            ApiCall::EnableDisableSelfService => String::from_str("/api/data/enable_disable_self_service"),
            ApiCall::GuestStatus => String::from_str("/api/data/guest_status"),
            ApiCall::DownloadStatus => String::from_str("/api/data/download_status"),
            ApiCall::SelfServiceStatus => String::from_str("/api/data/self_service_status"),
            ApiCall::SaveEmailSettings => String::from_str("/api/data/save_email_settings"),
            ApiCall::SendTestEmail => String::from_str("/api/data/send_test_email"),
            ApiCall::SendEmail => String::from_str("/api/data/send_email"),
            ApiCall::GetEmailSettings => String::from_str("/api/data/get_email_settings"),
            ApiCall::GetApiInfo { user_id } => with_id("/api/data/get_api_info/", *user_id),
            ApiCall::CreateApiKey => String::from_str("/api/data/create_api_key"),
            ApiCall::DeleteApiKey => String::from_str("/api/data/delete_api_key"),
            ApiCall::BackupUser => String::from_str("/api/data/backup_user"),
            ApiCall::CheckMfaEnabled { user_id } => with_id("/api/data/check_mfa_enabled/", *user_id),
            ApiCall::SaveMfaSecret => String::from_str("/api/data/save_mfa_secret"),
            ApiCall::AddNextcloudServer => String::from_str("/api/data/add_nextcloud_server"),
            ApiCall::CheckGpodderSettings { user_id } => with_id("/api/data/check_gpodder_settings/", *user_id),
        }
    }
}

fn with_id(prefix: &str, user_id: i32) -> (r: String)
    ensures
        r@ == prefix@ + int_decimal(user_id as int),
{
    let mut s = String::from_str(prefix);
    let id = id_to_decimal(user_id);
    s.append(id.as_str());
    s
}

/// Address of `call` on the backend at `server_name`.
pub open spec fn api_url_of(server_name: Seq<char>, call: ApiCall) -> Seq<char> {
    joined(server_name, call.path_of())
}

/// The address of `call` on the backend at `server_name`.
pub fn api_url(server_name: &str, call: &ApiCall) -> (r: String)
    ensures
        r@ == api_url_of(server_name@, *call),
{
    let path = call.path();
    join(server_name, path.as_str())
}

} // verus!
