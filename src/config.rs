//! The settings that a watch needs, checked all at once before it starts.
use vstd::prelude::*;
use crate::error::{Setting, WatchError};

verus! {

/// The account used to sign in to the shop.
pub struct Credentials {
    pub email: String,
    pub password: String,
}

/// What the messaging service needs to send the notification.
pub struct MessagingSettings {
    pub account_sid: String,
    pub auth_token: String,
    pub to_number: String,
    pub from_number: String,
}

/// Every setting of a watch.
pub struct Settings {
    pub credentials: Credentials,
    pub messaging: MessagingSettings,
}

/// The first absent setting, in the order of the parameters, if any.
pub open spec fn first_missing(
    email: Option<String>,
    password: Option<String>,
    account_sid: Option<String>,
    auth_token: Option<String>,
    to_number: Option<String>,
    from_number: Option<String>,
) -> Option<Setting> {
    if email is None {
        Some(Setting::Email)
    } else if password is None {
        Some(Setting::Password)
    } else if account_sid is None {
        Some(Setting::AccountSid)
    } else if auth_token is None {
        Some(Setting::AuthToken)
    } else if to_number is None {
        Some(Setting::ToNumber)
    } else if from_number is None {
        Some(Setting::FromNumber)
    } else {
        None
    }
}

/// Gathers the settings. Succeeds exactly when all six are present, and then
/// holds them unchanged; otherwise names the first one that is absent.
pub fn settings_from(
    email: Option<String>,
    password: Option<String>,
    account_sid: Option<String>,
    auth_token: Option<String>,
    to_number: Option<String>,
    from_number: Option<String>,
) -> (r: Result<Settings, WatchError>)
    ensures
        match first_missing(email, password, account_sid, auth_token, to_number, from_number) {
            Some(k) => r == Err::<Settings, WatchError>(WatchError::Config(k)),
            None => r is Ok,
        },
        r is Ok ==> {
            &&& r->Ok_0.credentials.email == email->Some_0
            &&& r->Ok_0.credentials.password == password->Some_0
            &&& r->Ok_0.messaging.account_sid == account_sid->Some_0
            &&& r->Ok_0.messaging.auth_token == auth_token->Some_0
            &&& r->Ok_0.messaging.to_number == to_number->Some_0
            &&& r->Ok_0.messaging.from_number == from_number->Some_0
        },
{
    let email = match email {
        Some(v) => v,
        None => return Err(WatchError::Config(Setting::Email)),
    };
    let password = match password {
        Some(v) => v,
        None => return Err(WatchError::Config(Setting::Password)),
    };
    let account_sid = match account_sid {
        Some(v) => v,
        None => return Err(WatchError::Config(Setting::AccountSid)),
    };
    let auth_token = match auth_token {
        Some(v) => v,
        None => return Err(WatchError::Config(Setting::AuthToken)),
    };
    let to_number = match to_number {
        Some(v) => v,
        None => return Err(WatchError::Config(Setting::ToNumber)),
    };
    let from_number = match from_number {
        Some(v) => v,
        None => return Err(WatchError::Config(Setting::FromNumber)),
    };
    Ok(
        Settings {
            credentials: Credentials { email, password },
            messaging: MessagingSettings { account_sid, auth_token, to_number, from_number },
        },
    )
}

} // verus!
