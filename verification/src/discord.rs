//! Alerts for a Discord webhook: what each alert says. A critical alert
//! also calls on everyone present. Posting an alert is the caller's part.

use crate::alerts::AlertEmbed;
use crate::alerts::AlertLevel;
use crate::alerts::level_color;
use crate::alerts::level_emoji;
use crate::alerts::timestamp_now;
use crate::text::decimal;
use crate::text::join2;
use crate::text::join3;
use crate::text::push_decimal;
use vstd::prelude::*;
use vstd::string::*;

verus! {

/// Where Discord alerts go, if anywhere.
#[derive(Debug, Clone)]
pub struct DiscordAlerts {
    pub webhook_url: Option<String>,
}

/// A Discord message as it is posted: a line of text, if any, and the alert.
#[derive(Debug, Clone, PartialEq, Eq)]
pub struct DiscordMessage {
    pub content: Option<String>,
    pub embed: AlertEmbed,
}

/// The line of text that goes with an alert of a level: a call on everyone
/// present for a critical alert, nothing for any other.
pub open spec fn level_content(level: AlertLevel) -> Option<Seq<char>> {
    if level == AlertLevel::Critical {
        Some("@here **CRITICAL ALERT**"@)
    } else {
        None
    }
}

/// Whether `message` is the Discord message of an alert of this level,
/// title and text.
pub open spec fn is_discord_alert(
    message: DiscordMessage,
    level: AlertLevel,
    title: Seq<char>,
    text: Seq<char>,
) -> bool {
    &&& crate::text::optional_text(message.content) == level_content(level)
    &&& message.embed.title@ == level_emoji(level) + " "@ + title
    &&& message.embed.description@ == text
    &&& message.embed.color == level_color(level)
    &&& message.embed.footer@ == "Synaplan Qdrant Microservice"@
}

impl DiscordAlerts {
    /// Alerts for a webhook, or for none.
    pub fn new(webhook_url: Option<String>) -> (alerts: DiscordAlerts)
        ensures
            alerts.webhook_url == webhook_url,
    {
        DiscordAlerts { webhook_url }
    }

    /// Whether alerts go anywhere.
    pub fn is_enabled(&self) -> (enabled: bool)
        ensures
            enabled == self.webhook_url is Some,
    {
        self.webhook_url.is_some()
    }

    /// The message to post, or none where alerts go nowhere.
    pub fn send_alert(&self, level: AlertLevel, title: &str, message: &str) -> (alert: Option<
        DiscordMessage,
    >)
        ensures
            alert is Some == self.webhook_url is Some,
            alert matches Some(m) ==> is_discord_alert(m, level, title@, message@),
    {
        if !self.is_enabled() {
            return None;
        }
        let content = match level {
            AlertLevel::Critical => Some(String::from_str("@here **CRITICAL ALERT**")),
            _ => None,
        };
        Some(
            DiscordMessage {
                content,
                embed: AlertEmbed {
                    title: join3(level.emoji(), " ", title),
                    description: String::from_str(message),
                    color: level.color(),
                    timestamp: timestamp_now(),
                    footer: String::from_str("Synaplan Qdrant Microservice"),
                },
            },
        )
    }

    /// The alert that the service has started.
    pub fn alert_service_started(&self, version: &str) -> (alert: Option<DiscordMessage>)
        ensures
            alert is Some == self.webhook_url is Some,
            alert matches Some(m) ==> is_discord_alert(
                m,
                AlertLevel::Info,
                "Service Started"@,
                "Qdrant microservice v"@ + version@ + " is now online"@,
            ),
    {
        let message = join3("Qdrant microservice v", version, " is now online");
        self.send_alert(AlertLevel::Info, "Service Started", message.as_str())
    }

    /// The alert that the service is stopping.
    pub fn alert_service_stopping(&self) -> (alert: Option<DiscordMessage>)
        ensures
            alert is Some == self.webhook_url is Some,
            alert matches Some(m) ==> is_discord_alert(
                m,
                AlertLevel::Warning,
                "Service Stopping"@,
                "Qdrant microservice is shutting down"@,
            ),
    {
        self.send_alert(
            AlertLevel::Warning,
            "Service Stopping",
            "Qdrant microservice is shutting down",
        )
    }

    /// The alert that the vector engine cannot be reached.
    pub fn alert_qdrant_connection_failed(&self, error: &str) -> (alert: Option<DiscordMessage>)
        ensures
            alert is Some == self.webhook_url is Some,
            alert matches Some(m) ==> is_discord_alert(
                m,
                AlertLevel::Critical,
                "Qdrant Connection Failed"@,
                "Cannot connect to Qdrant database: "@ + error@,
            ),
    {
        let message = join2("Cannot connect to Qdrant database: ", error);
        self.send_alert(AlertLevel::Critical, "Qdrant Connection Failed", message.as_str())
    }

    /// The alert that a collection holds many points.
    pub fn alert_collection_high_usage(&self, points: u64) -> (alert: Option<DiscordMessage>)
        ensures
            alert is Some == self.webhook_url is Some,
            alert matches Some(m) ==> is_discord_alert(
                m,
                AlertLevel::Warning,
                "High Collection Usage"@,
                "Collection has "@ + decimal(points as nat)
                    + " points. Consider monitoring growth."@,
            ),
    {
        let mut message = String::from_str("Collection has ");
        push_decimal(&mut message, points);
        message.append(" points. Consider monitoring growth.");
        self.send_alert(AlertLevel::Warning, "High Collection Usage", message.as_str())
    }

    /// The alert that the service has met an error that it cannot mend.
    pub fn alert_panic(&self, error: &str) -> (alert: Option<DiscordMessage>)
        ensures
            alert is Some == self.webhook_url is Some,
            alert matches Some(m) ==> is_discord_alert(
                m,
                AlertLevel::Critical,
                "Service Panic"@,
                "PANIC: "@ + error@,
            ),
    {
        let message = join2("PANIC: ", error);
        self.send_alert(AlertLevel::Critical, "Service Panic", message.as_str())
    }
}

} // verus!
