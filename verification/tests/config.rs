use transmission_rss::config::{
    FeishuNotification, FeishuWebhook, MissingSecret, RawFeishuNotification,
    RawTelegramNotification, RawTransmission, TelegramNotification, TelegramToken, Transmission,
    TransmissionPassword,
};

fn raw_transmission(password: TransmissionPassword) -> RawTransmission {
    RawTransmission {
        url: "http://localhost:9091/transmission/rpc".to_string(),
        username: "admin".to_string(),
        password,
    }
}

#[test]
fn inline_password_is_taken_as_it_is() {
    let raw = raw_transmission(TransmissionPassword::Raw { password: " pass word ".to_string() });
    let cfg = Transmission::try_from(raw, None).unwrap();
    assert_eq!(cfg.url, "http://localhost:9091/transmission/rpc");
    assert_eq!(cfg.username, "admin");
    assert_eq!(cfg.password, " pass word ");
}

#[test]
fn inline_password_ignores_a_file_text() {
    let raw = raw_transmission(TransmissionPassword::Raw { password: "inline".to_string() });
    let cfg = Transmission::try_from(raw, Some("from file".to_string())).unwrap();
    assert_eq!(cfg.password, "inline");
}

#[test]
fn password_from_file_is_trimmed() {
    let raw = raw_transmission(
        TransmissionPassword::File { password_file: "/run/secrets/pw".to_string() },
    );
    let cfg = Transmission::try_from(raw, Some("  s3cret\t\n".to_string())).unwrap();
    assert_eq!(cfg.url, "http://localhost:9091/transmission/rpc");
    assert_eq!(cfg.username, "admin");
    assert_eq!(cfg.password, "s3cret");
}

#[test]
fn password_file_without_text_is_missing() {
    let raw = raw_transmission(
        TransmissionPassword::File { password_file: "/run/secrets/pw".to_string() },
    );
    let err = Transmission::try_from(raw, None).unwrap_err();
    assert_eq!(err, MissingSecret { path: "/run/secrets/pw".to_string() });
}

#[test]
fn password_file_is_named() {
    let inline = TransmissionPassword::Raw { password: "p".to_string() };
    let file = TransmissionPassword::File { password_file: "/pw".to_string() };
    assert_eq!(inline.file(), None);
    assert_eq!(file.file(), Some(&"/pw".to_string()));
}

#[test]
fn telegram_token_inline_and_from_file() {
    let raw = RawTelegramNotification {
        bot_token: TelegramToken::Raw { bot_token: "123:abc".to_string() },
        chat_id: -42,
    };
    let cfg = TelegramNotification::try_from(raw, None).unwrap();
    assert_eq!(cfg, TelegramNotification { bot_token: "123:abc".to_string(), chat_id: -42 });

    let raw = RawTelegramNotification {
        bot_token: TelegramToken::File { bot_token_file: "/token".to_string() },
        chat_id: 7,
    };
    let cfg = TelegramNotification::try_from(raw, Some("\n123:abc \n".to_string())).unwrap();
    assert_eq!(cfg, TelegramNotification { bot_token: "123:abc".to_string(), chat_id: 7 });
}

#[test]
fn telegram_token_file_without_text_is_missing() {
    let token = TelegramToken::File { bot_token_file: "/token".to_string() };
    assert_eq!(token.file(), Some(&"/token".to_string()));
    let raw = RawTelegramNotification { bot_token: token, chat_id: 7 };
    let err = TelegramNotification::try_from(raw, None).unwrap_err();
    assert_eq!(err.path, "/token");
}

#[test]
fn feishu_webhook_inline_and_from_file() {
    let raw = RawFeishuNotification {
        webhook: FeishuWebhook::Raw { webhook: "https://open.feishu.cn/hook/1".to_string() },
    };
    let cfg = FeishuNotification::try_from(raw, None).unwrap();
    assert_eq!(cfg.webhook, "https://open.feishu.cn/hook/1");

    let raw = RawFeishuNotification {
        webhook: FeishuWebhook::File { webhook_file: "/hook".to_string() },
    };
    let cfg =
        FeishuNotification::try_from(raw, Some(" https://open.feishu.cn/hook/2\r\n".to_string()))
            .unwrap();
    assert_eq!(cfg.webhook, "https://open.feishu.cn/hook/2");
}

#[test]
fn feishu_webhook_file_without_text_is_missing() {
    let hook = FeishuWebhook::File { webhook_file: "/hook".to_string() };
    assert_eq!(hook.file(), Some(&"/hook".to_string()));
    assert_eq!(FeishuWebhook::Raw { webhook: "w".to_string() }.file(), None);
    let err = FeishuNotification::try_from(RawFeishuNotification { webhook: hook }, None)
        .unwrap_err();
    assert_eq!(err, MissingSecret { path: "/hook".to_string() });
}

#[test]
fn secret_of_white_space_only_is_empty() {
    let raw = raw_transmission(TransmissionPassword::File { password_file: "/pw".to_string() });
    let cfg = Transmission::try_from(raw, Some(" \n\t".to_string())).unwrap();
    assert_eq!(cfg.password, "");
}
