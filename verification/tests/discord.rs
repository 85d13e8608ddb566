use synaplan_qdrant_service::alerts::AlertLevel;
use synaplan_qdrant_service::discord::DiscordAlerts;

fn alerts() -> DiscordAlerts {
    DiscordAlerts::new(Some("https://discord.example/api/webhooks/1".to_string()))
}

#[test]
fn discord_alerts_without_webhook_post_nothing() {
    let quiet = DiscordAlerts::new(None);
    assert!(!quiet.is_enabled());
    assert_eq!(quiet.send_alert(AlertLevel::Critical, "Test", "Message"), None);
    assert_eq!(quiet.alert_service_started("1.0.0"), None);
    assert_eq!(quiet.alert_service_stopping(), None);
    assert_eq!(quiet.alert_qdrant_connection_failed("x"), None);
    assert_eq!(quiet.alert_collection_high_usage(1), None);
    assert_eq!(quiet.alert_panic("x"), None);
}

#[test]
fn only_a_critical_alert_calls_on_everyone() {
    let alerts = alerts();
    assert!(alerts.is_enabled());
    for level in [AlertLevel::Info, AlertLevel::Warning, AlertLevel::Error] {
        assert_eq!(alerts.send_alert(level, "T", "M").unwrap().content, None);
    }
    assert_eq!(
        alerts.send_alert(AlertLevel::Critical, "T", "M").unwrap().content,
        Some("@here **CRITICAL ALERT**".to_string())
    );
}

#[test]
fn a_discord_alert_carries_title_message_colour_and_footer() {
    let message = alerts().send_alert(AlertLevel::Warning, "Disk", "Nearly full").unwrap();
    assert_eq!(message.embed.title, format!("{} Disk", AlertLevel::Warning.emoji()));
    assert_eq!(message.embed.description, "Nearly full");
    assert_eq!(message.embed.color, 0xf39c12);
    assert_eq!(message.embed.footer, "Synaplan Qdrant Microservice");
    assert!(chrono::DateTime::parse_from_rfc3339(&message.embed.timestamp).is_ok());
}

#[test]
fn each_discord_alert_has_its_words() {
    let alerts = alerts();
    let started = alerts.alert_service_started("0.3.1").unwrap();
    assert!(started.embed.title.ends_with(" Service Started"));
    assert_eq!(started.embed.description, "Qdrant microservice v0.3.1 is now online");
    assert_eq!(started.embed.color, 0x3498db);

    let stopping = alerts.alert_service_stopping().unwrap();
    assert!(stopping.embed.title.ends_with(" Service Stopping"));
    assert_eq!(stopping.embed.description, "Qdrant microservice is shutting down");
    assert_eq!(stopping.embed.color, 0xf39c12);

    let failed = alerts.alert_qdrant_connection_failed("refused").unwrap();
    assert!(failed.embed.title.ends_with(" Qdrant Connection Failed"));
    assert_eq!(failed.embed.description, "Cannot connect to Qdrant database: refused");
    assert_eq!(failed.embed.color, 0x992d22);
    assert!(failed.content.is_some());

    let usage = alerts.alert_collection_high_usage(1500000).unwrap();
    assert!(usage.embed.title.ends_with(" High Collection Usage"));
    assert_eq!(
        usage.embed.description,
        "Collection has 1500000 points. Consider monitoring growth."
    );

    let panic = alerts.alert_panic("index out of bounds").unwrap();
    assert!(panic.embed.title.ends_with(" Service Panic"));
    assert_eq!(panic.embed.description, "PANIC: index out of bounds");
    assert!(panic.content.is_some());
}
