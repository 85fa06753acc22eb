use transmission_rss::config::{
    Config, FeishuNotification, Notification, Persistence, TelegramNotification, Transmission,
};
use transmission_rss::notification::feishu::{FeiShu, FeiShuContent, FeiShuMessage};
use transmission_rss::notification::{notify_all, Delivery, Error};

fn config(notification: Notification) -> Config {
    Config {
        persistence: Persistence { path: "./db".to_string() },
        transmission: Transmission {
            url: "http://localhost:9091/transmission/rpc".to_string(),
            username: "admin".to_string(),
            password: "pw".to_string(),
        },
        rss_list: Vec::new(),
        notification,
    }
}

fn telegram() -> TelegramNotification {
    TelegramNotification { bot_token: "123:abc".to_string(), chat_id: 99 }
}

fn feishu() -> FeishuNotification {
    FeishuNotification { webhook: "https://open.feishu.cn/hook/1".to_string() }
}

fn text_message(text: &str) -> FeiShuMessage {
    FeiShuMessage {
        msg_type: "text".to_string(),
        content: FeiShuContent::Text { text: text.to_string() },
    }
}

#[test]
fn test_message() {
    let notifier = FeiShu::new("https://open.feishu.cn/hook/1".to_string());
    let msg = notifier.send("test".to_string());
    assert!(msg.msg_type == "text");
    assert!(msg.content == FeiShuContent::Text { text: "test".to_owned() });
}

#[test]
fn feishu_keeps_its_webhook() {
    let notifier = FeiShu::new("https://open.feishu.cn/hook/1".to_string());
    assert_eq!(notifier.webhook(), "https://open.feishu.cn/hook/1");
    assert_eq!(notifier.into_webhook(), "https://open.feishu.cn/hook/1");
}

#[test]
fn feishu_answer_other_than_200_with_text_is_an_error() {
    let err = FeiShu::received(400, Some("{\"code\":19001}".to_string())).unwrap_err();
    assert_eq!(err.to_string(), "{\"code\":19001}");
    let err = FeiShu::received(500, Some(String::new())).unwrap_err();
    assert_eq!(err.to_string(), "");
}

#[test]
fn feishu_answer_200_is_success() {
    assert_eq!(FeiShu::received(200, Some("{\"code\":0}".to_string())), Ok(()));
    assert_eq!(FeiShu::received(200, None), Ok(()));
}

#[test]
fn feishu_answer_that_cannot_be_read_is_success() {
    assert_eq!(FeiShu::received(502, None), Ok(()));
}

#[test]
fn error_shows_its_message() {
    let err = Error::new("webhook refused".to_string());
    assert_eq!(err.to_string(), "webhook refused");
}

#[test]
fn no_channel_no_delivery() {
    let cfg = config(Notification { telegram: None, feishu: None });
    assert_eq!(notify_all(cfg, "hello".to_string()), Vec::new());
}

#[test]
fn telegram_alone() {
    let cfg = config(Notification { telegram: Some(telegram()), feishu: None });
    assert_eq!(
        notify_all(cfg, "hello".to_string()),
        vec![Delivery::Telegram {
            api_base: "https://api.telegram.org".to_string(),
            bot_token: "123:abc".to_string(),
            chat_id: 99,
            text: "hello".to_string(),
        }]
    );
}

#[test]
fn feishu_alone() {
    let cfg = config(Notification { telegram: None, feishu: Some(feishu()) });
    assert_eq!(
        notify_all(cfg, "hello".to_string()),
        vec![Delivery::Feishu {
            webhook: "https://open.feishu.cn/hook/1".to_string(),
            message: text_message("hello"),
        }]
    );
}

#[test]
fn both_channels_telegram_first() {
    let cfg = config(Notification { telegram: Some(telegram()), feishu: Some(feishu()) });
    assert_eq!(
        notify_all(cfg, "Downloading: Show".to_string()),
        vec![
            Delivery::Telegram {
                api_base: "https://api.telegram.org".to_string(),
                bot_token: "123:abc".to_string(),
                chat_id: 99,
                text: "Downloading: Show".to_string(),
            },
            Delivery::Feishu {
                webhook: "https://open.feishu.cn/hook/1".to_string(),
                message: text_message("Downloading: Show"),
            },
        ]
    );
}
