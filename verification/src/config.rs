//! The configuration of a run, and how a secret that the raw configuration
//! gives either inline or by the name of a file becomes one concrete value.
use crate::text::{trim, trimmed};
use vstd::prelude::*;

verus! {

/// Everything that a run is told: where the seen-set is kept, how the
/// backend is reached, which feeds are polled and who is notified.
#[derive(Debug, Clone, PartialEq)]
pub struct Config {
    pub persistence: Persistence,
    pub transmission: Transmission,
    pub rss_list: Vec<RssList>,
    pub notification: Notification,
}

/// Where the seen-set is kept on disk.
#[derive(Debug, Clone, PartialEq)]
pub struct Persistence {
    pub path: String,
}

/// How the backend is reached, with the password in hand.
#[derive(Debug, Clone, PartialEq)]
pub struct Transmission {
    pub url: String,
    pub username: String,
    pub password: String,
}

/// How the backend is reached, as the configuration file says it: the
/// password may be kept in a file.
#[derive(Debug, Clone, PartialEq)]
pub struct RawTransmission {
    pub url: String,
    pub username: String,
    pub password: TransmissionPassword,
}

/// The password of the backend, given inline or by the file that holds it.
#[derive(Debug, Clone, PartialEq)]
pub enum TransmissionPassword {
    Raw { password: String },
    File { password_file: String },
}

/// One feed to poll: where it is, which titles to take from it (no filter
/// takes every title) and where the backend is to put the downloads.
#[derive(Debug, Clone, PartialEq)]
pub struct RssList {
    pub title: String,
    pub url: String,
    pub filters: Vec<String>,
    pub download_dir: String,
}

/// The channels that are notified; a channel that is not set is left out.
#[derive(Debug, Clone, PartialEq)]
pub struct Notification {
    pub telegram: Option<TelegramNotification>,
    pub feishu: Option<FeishuNotification>,
}

/// The Telegram chat that is notified, with the token of the bot in hand.
#[derive(Debug, Clone, PartialEq)]
pub struct TelegramNotification {
    pub bot_token: String,
    pub chat_id: i64,
}

/// The Telegram chat that is notified, as the configuration file says it:
/// the token of the bot may be kept in a file.
#[derive(Debug, Clone, PartialEq)]
pub struct RawTelegramNotification {
    pub bot_token: TelegramToken,
    pub chat_id: i64,
}

/// The token of the Telegram bot, given inline or by the file that holds it.
#[derive(Debug, Clone, PartialEq)]
pub enum TelegramToken {
    Raw { bot_token: String },
    File { bot_token_file: String },
}

/// The Feishu webhook that is notified.
#[derive(Debug, Clone, PartialEq)]
pub struct FeishuNotification {
    pub webhook: String,
}

/// The Feishu webhook that is notified, as the configuration file says it:
/// its URL may be kept in a file.
#[derive(Debug, Clone, PartialEq)]
pub struct RawFeishuNotification {
    pub webhook: FeishuWebhook,
}

/// The URL of the Feishu webhook, given inline or by the file that holds it.
#[derive(Debug, Clone, PartialEq)]
pub enum FeishuWebhook {
    Raw { webhook: String },
    File { webhook_file: String },
}

/// A secret is kept in a file, and the text of that file was not supplied.
#[derive(Clone, Debug, PartialEq)]
pub struct MissingSecret {
    /// The file that holds the secret.
    pub path: String,
}

/// Whether `secret` is what the file `path` gives, `text` being the content
/// that was read from it: the content without the white space around it, or
/// `MissingSecret` for that path where there is no content.
pub open spec fn is_file_secret(
    secret: Result<String, MissingSecret>,
    path: String,
    text: Option<String>,
) -> bool {
    match text {
        Some(text) => secret matches Ok(value) && value@ == trimmed(text@),
        None => secret == Err::<String, MissingSecret>(MissingSecret { path }),
    }
}

fn file_secret(path: String, text: Option<String>) -> (secret: Result<String, MissingSecret>)
    ensures
        is_file_secret(secret, path, text),
{
    match text {
        Some(text) => Ok(trim(text.as_str())),
        None => Err(MissingSecret { path }),
    }
}

impl TransmissionPassword {
    /// The file whose content has to be read to know the password, if any.
    pub fn file(&self) -> (path: Option<&String>)
        ensures
            path == match *self {
                TransmissionPassword::Raw { .. } => None::<&String>,
                TransmissionPassword::File { password_file } => Some(&password_file),
            },
    {
        match self {
            TransmissionPassword::Raw { .. } => None,
            TransmissionPassword::File { password_file } => Some(password_file),
        }
    }
}

impl TelegramToken {
    /// The file whose content has to be read to know the token, if any.
    pub fn file(&self) -> (path: Option<&String>)
        ensures
            path == match *self {
                TelegramToken::Raw { .. } => None::<&String>,
                TelegramToken::File { bot_token_file } => Some(&bot_token_file),
            },
    {
        match self {
            TelegramToken::Raw { .. } => None,
            TelegramToken::File { bot_token_file } => Some(bot_token_file),
        }
    }
}

impl FeishuWebhook {
    /// The file whose content has to be read to know the webhook, if any.
    pub fn file(&self) -> (path: Option<&String>)
        ensures
            path == match *self {
                FeishuWebhook::Raw { .. } => None::<&String>,
                FeishuWebhook::File { webhook_file } => Some(&webhook_file),
            },
    {
        match self {
            FeishuWebhook::Raw { .. } => None,
            FeishuWebhook::File { webhook_file } => Some(webhook_file),
        }
    }
}

impl Transmission {
    /// The backend settings that `value` stands for. `secret_file` is the
    /// content of the file that `value.password` names, where it names one.
    /// An inline password is taken as it is; one from a file is the file's
    /// content without the white space around it.
    pub fn try_from(value: RawTransmission, secret_file: Option<String>) -> (r: Result<
        Transmission,
        MissingSecret,
    >)
        ensures
            match value.password {
                TransmissionPassword::Raw { password } => r == Ok::<Transmission, MissingSecret>(
                    Transmission { url: value.url, username: value.username, password },
                ),
                TransmissionPassword::File { password_file } => match secret_file {
                    Some(text) => r matches Ok(t) && t.url == value.url && t.username
                        == value.username && t.password@ == trimmed(text@),
                    None => r == Err::<Transmission, MissingSecret>(
                        MissingSecret { path: password_file },
                    ),
                },
            },
    {
        let password = match value.password {
            TransmissionPassword::Raw { password } => password,
            TransmissionPassword::File { password_file } => {
                match file_secret(password_file, secret_file) {
                    Ok(password) => password,
                    Err(e) => {
                        return Err(e);
                    },
                }
            },
        };
        Ok(Transmission { url: value.url, username: value.username, password })
    }
}

impl TelegramNotification {
    /// The Telegram settings that `value` stands for. `secret_file` is the
    /// content of the file that `value.bot_token` names, where it names one.
    pub fn try_from(value: RawTelegramNotification, secret_file: Option<String>) -> (r: Result<
        TelegramNotification,
        MissingSecret,
    >)
        ensures
            match value.bot_token {
                TelegramToken::Raw { bot_token } => r == Ok::<TelegramNotification, MissingSecret>(
                    TelegramNotification { bot_token, chat_id: value.chat_id },
                ),
                TelegramToken::File { bot_token_file } => match secret_file {
                    Some(text) => r matches Ok(t) && t.chat_id == value.chat_id && t.bot_token@
                        == trimmed(text@),
                    None => r == Err::<TelegramNotification, MissingSecret>(
                        MissingSecret { path: bot_token_file },
                    ),
                },
            },
    {
        let bot_token = match value.bot_token {
            TelegramToken::Raw { bot_token } => bot_token,
            TelegramToken::File { bot_token_file } => {
                match file_secret(bot_token_file, secret_file) {
                    Ok(bot_token) => bot_token,
                    Err(e) => {
                        return Err(e);
                    },
                }
            },
        };
        Ok(TelegramNotification { bot_token, chat_id: value.chat_id })
    }
}

impl FeishuNotification {
    /// The Feishu settings that `value` stands for. `secret_file` is the
    /// content of the file that `value.webhook` names, where it names one.
    pub fn try_from(value: RawFeishuNotification, secret_file: Option<String>) -> (r: Result<
        FeishuNotification,
        MissingSecret,
    >)
        ensures
            match value.webhook {
                FeishuWebhook::Raw { webhook } => r == Ok::<FeishuNotification, MissingSecret>(
                    FeishuNotification { webhook },
                ),
                FeishuWebhook::File { webhook_file } => match secret_file {
                    Some(text) => r matches Ok(t) && t.webhook@ == trimmed(text@),
                    None => r == Err::<FeishuNotification, MissingSecret>(
                        MissingSecret { path: webhook_file },
                    ),
                },
            },
    {
        let webhook = match value.webhook {
            FeishuWebhook::Raw { webhook } => webhook,
            FeishuWebhook::File { webhook_file } => {
                match file_secret(webhook_file, secret_file) {
                    Ok(webhook) => webhook,
                    Err(e) => {
                        return Err(e);
                    },
                }
            },
        };
        Ok(FeishuNotification { webhook })
    }
}

} // verus!
