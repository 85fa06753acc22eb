//! Notifications: which messages go to which configured channel.
pub mod feishu;

use crate::config::{Config, FeishuNotification, Notification, TelegramNotification};
use crate::notification::feishu::{FeiShu, FeiShuMessage};
use vstd::prelude::*;

verus! {

/// The base URL of the Telegram bot API.
pub const TELEGRAM_API: &'static str = "https://api.telegram.org";

/// What a channel answered when it refused a message.
#[derive(Clone, Debug, PartialEq)]
pub struct Error {
    message: String,
}

impl Error {
    /// The answer of the channel.
    pub closed spec fn text(&self) -> Seq<char> {
        self.message@
    }

    /// The error that says `message`.
    pub fn new(message: String) -> (e: Self)
        ensures
            e.text() == message@,
    {
        Self { message }
    }

    /// The answer of the channel, as it is shown to the operator.
    pub fn to_string(&self) -> (s: String)
        ensures
            s@ == self.text(),
    {
        self.message.clone()
    }
}

/// One message on its way to one channel.
#[derive(Clone, Debug, PartialEq)]
pub enum Delivery {
    /// To the Telegram bot API at `api_base`, for the chat `chat_id`.
    Telegram { api_base: String, bot_token: String, chat_id: i64, text: String },
    /// To a Feishu webhook.
    Feishu { webhook: String, message: FeiShuMessage },
}

/// Whether `delivery` carries `message` to the Telegram chat of `telegram`.
pub open spec fn is_telegram_delivery(
    delivery: Delivery,
    telegram: TelegramNotification,
    message: String,
) -> bool {
    &&& delivery matches Delivery::Telegram { api_base, bot_token, chat_id, text }
    &&& api_base@ == TELEGRAM_API@
    &&& bot_token == telegram.bot_token
    &&& chat_id == telegram.chat_id
    &&& text == message
}

/// Whether `delivery` carries `message` to the webhook of `feishu`.
pub open spec fn is_feishu_delivery(
    delivery: Delivery,
    feishu: FeishuNotification,
    message: String,
) -> bool {
    &&& delivery matches Delivery::Feishu { webhook, message: body }
    &&& webhook == feishu.webhook
    &&& body.is_text(message@)
}

/// Whether `deliveries` is `message` sent once to each channel that
/// `notification` configures, Telegram before Feishu, and to nothing else.
pub open spec fn is_notification_of(
    deliveries: Seq<Delivery>,
    notification: Notification,
    message: String,
) -> bool {
    match (notification.telegram, notification.feishu) {
        (None, None) => deliveries.len() == 0,
        (Some(telegram), None) => deliveries.len() == 1 && is_telegram_delivery(
            deliveries[0],
            telegram,
            message,
        ),
        (None, Some(feishu)) => deliveries.len() == 1 && is_feishu_delivery(
            deliveries[0],
            feishu,
            message,
        ),
        (Some(telegram), Some(feishu)) => deliveries.len() == 2 && is_telegram_delivery(
            deliveries[0],
            telegram,
            message,
        ) && is_feishu_delivery(deliveries[1], feishu, message),
    }
}

/// The deliveries that send `message` to every channel that `cfg` enables.
/// Each is attempted by the caller on its own: a channel that fails does not
/// keep the message from the next one.
pub fn notify_all(cfg: Config, message: String) -> (deliveries: Vec<Delivery>)
    ensures
        is_notification_of(deliveries@, cfg.notification, message),
{
    let mut deliveries: Vec<Delivery> = Vec::new();
    if let Some(bot_cfg) = cfg.notification.telegram {
        deliveries.push(
            Delivery::Telegram {
                api_base: TELEGRAM_API.to_owned(),
                bot_token: bot_cfg.bot_token,
                chat_id: bot_cfg.chat_id,
                text: message.clone(),
            },
        );
    }
    if let Some(feishu_cfg) = cfg.notification.feishu {
        let notifier = FeiShu::new(feishu_cfg.webhook);
        let body = notifier.send(message.clone());
        deliveries.push(Delivery::Feishu { webhook: notifier.into_webhook(), message: body });
    }
    deliveries
}

} // verus!
