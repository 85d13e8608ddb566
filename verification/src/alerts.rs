//! Alerts for a webhook: what each alert says. Posting an alert is the
//! caller's part.

use crate::stats::StatsSnapshot;
use crate::stats::uptime_text;
use crate::text::decimal;
use crate::text::digit_char;
use crate::text::join2;
use crate::text::join3;
use crate::text::push_decimal;
use vstd::prelude::*;
use vstd::string::*;

verus! {

/// How grave an alert is.
#[derive(Debug, Clone, Copy, PartialEq, Eq, Structural)]
pub enum AlertLevel {
    Info,
    Warning,
    Error,
    Critical,
}

/// Where alerts go, if anywhere.
#[derive(Debug, Clone)]
pub struct WebhookAlerts {
    pub webhook_url: Option<String>,
}

/// An alert as it is posted.
#[derive(Debug, Clone, PartialEq, Eq)]
pub struct AlertEmbed {
    pub title: String,
    pub description: String,
    pub color: u32,
    /// When the alert was composed, as RFC 3339 says to write it.
    pub timestamp: String,
    pub footer: String,
}

/// One line of a report.
#[derive(Debug, Clone, PartialEq, Eq)]
pub struct EmbedField {
    pub name: String,
    pub value: String,
    pub inline: bool,
}

/// A report of the counters as it is posted.
#[derive(Debug, Clone, PartialEq, Eq)]
pub struct StatsReport {
    pub title: String,
    pub description: String,
    pub color: u32,
    pub fields: Vec<EmbedField>,
    /// When the report was composed, as RFC 3339 says to write it.
    pub timestamp: String,
    pub footer: String,
}

/// `Utc::now` of the chrono crate, written out by `to_rfc3339`: the time of
/// the system clock in UTC. What the clock reads is not for a contract to
/// say.
#[verifier::external_body]
pub(crate) fn timestamp_now() -> String {
    chrono::Utc::now().to_rfc3339()
}

/// The colour of an alert: blue, orange, red, dark red.
pub open spec fn level_color(level: AlertLevel) -> u32 {
    match level {
        AlertLevel::Info => 0x3498db,
        AlertLevel::Warning => 0xf39c12,
        AlertLevel::Error => 0xe74c3c,
        AlertLevel::Critical => 0x992d22,
    }
}

/// The sign that an alert's title begins with.
pub open spec fn level_emoji(level: AlertLevel) -> Seq<char> {
    match level {
        AlertLevel::Info => "ℹ️"@,
        AlertLevel::Warning => "⚠️"@,
        AlertLevel::Error => "❌"@,
        AlertLevel::Critical => "🚨"@,
    }
}

/// The three digits of a number under a thousand, with leading zeros.
pub open spec fn three_digits(n: nat) -> Seq<char> {
    seq![digit_char(n / 100), digit_char((n / 10) % 10), digit_char(n % 10)]
}

/// A number in decimal with a comma before every group of three digits,
/// counted from the right: `1,234,567`.
pub open spec fn grouped(n: nat) -> Seq<char>
    decreases n,
{
    if n < 1000 {
        decimal(n)
    } else {
        grouped(n / 1000) + seq![','] + three_digits(n % 1000)
    }
}

/// A count in bold, grouped by thousands.
pub open spec fn bold_count(n: nat) -> Seq<char> {
    "**"@ + grouped(n) + "**"@
}

impl AlertLevel {
    /// The colour of alerts of this level.
    pub fn color(self) -> (color: u32)
        ensures
            color == level_color(self),
    {
        match self {
            AlertLevel::Info => 0x3498db,
            AlertLevel::Warning => 0xf39c12,
            AlertLevel::Error => 0xe74c3c,
            AlertLevel::Critical => 0x992d22,
        }
    }

    /// The sign of alerts of this level.
    pub fn emoji(self) -> (emoji: &'static str)
        ensures
            emoji@ == level_emoji(self),
    {
        match self {
            AlertLevel::Info => "ℹ️",
            AlertLevel::Warning => "⚠️",
            AlertLevel::Error => "❌",
            AlertLevel::Critical => "🚨",
        }
    }
}

fn push_grouped(out: &mut String, n: u64)
    ensures
        final(out)@ == old(out)@ + grouped(n as nat),
    decreases n,
{
    if n < 1000 {
        push_decimal(out, n);
    } else {
        push_grouped(out, n / 1000);
        out.push(',');
        let low = n % 1000;
        out.push((48u8 + (low / 100) as u8) as char);
        out.push((48u8 + ((low / 10) % 10) as u8) as char);
        out.push((48u8 + (low % 10) as u8) as char);
        assert(final(out)@ =~= old(out)@ + grouped(n as nat));
    }
}

/// Writes a number with thousands separators.
pub fn format_number(n: u64) -> (text: String)
    ensures
        text@ == grouped(n as nat),
{
    let mut text = String::new();
    push_grouped(&mut text, n);
    assert(text@ =~= grouped(n as nat));
    text
}

fn bold(n: u64) -> (text: String)
    ensures
        text@ == bold_count(n as nat),
{
    let mut text = String::from_str("**");
    push_grouped(&mut text, n);
    text.append("**");
    text
}

impl WebhookAlerts {
    /// Alerts for a webhook, or for none.
    pub fn new(webhook_url: Option<String>) -> (alerts: WebhookAlerts)
        ensures
            alerts.webhook_url == webhook_url,
    {
        WebhookAlerts { webhook_url }
    }

    /// Whether alerts go anywhere.
    pub fn is_enabled(&self) -> (enabled: bool)
        ensures
            enabled == self.webhook_url is Some,
    {
        self.webhook_url.is_some()
    }

    /// The alert to post, or none where alerts go nowhere: the title after
    /// the sign of the level, the message, the colour of the level, stamped
    /// with the time of composing.
    pub fn send_alert(&self, level: AlertLevel, title: &str, message: &str) -> (alert: Option<
        AlertEmbed,
    >)
        ensures
            alert is Some == self.webhook_url is Some,
            alert matches Some(embed) ==> {
                &&& embed.title@ == level_emoji(level) + " "@ + title@
                &&& embed.description@ == message@
                &&& embed.color == level_color(level)
                &&& embed.footer@ == "Synaplan Qdrant Service"@
            },
    {
        if !self.is_enabled() {
            return None;
        }
        Some(
            AlertEmbed {
                title: join3(level.emoji(), " ", title),
                description: String::from_str(message),
                color: level.color(),
                timestamp: timestamp_now(),
                footer: String::from_str("Synaplan Qdrant Service"),
            },
        )
    }

    /// The alert that the service has started.
    pub fn alert_service_started(&self, version: &str) -> (alert: Option<AlertEmbed>)
        ensures
            alert is Some == self.webhook_url is Some,
            alert matches Some(embed) ==> {
                &&& embed.title@ == level_emoji(AlertLevel::Info) + " "@ + "Service Started"@
                &&& embed.description@ == "Qdrant microservice v"@ + version@ + " is now online"@
                &&& embed.color == level_color(AlertLevel::Info)
                &&& embed.footer@ == "Synaplan Qdrant Service"@
            },
    {
        let message = join3("Qdrant microservice v", version, " is now online");
        self.send_alert(AlertLevel::Info, "Service Started", message.as_str())
    }

    /// The alert that the vector engine cannot be reached.
    pub fn alert_qdrant_connection_failed(&self, error: &str) -> (alert: Option<AlertEmbed>)
        ensures
            alert is Some == self.webhook_url is Some,
            alert matches Some(embed) ==> {
                &&& embed.title@ == level_emoji(AlertLevel::Critical) + " "@
                    + "Qdrant Connection Failed"@
                &&& embed.description@ == "Cannot connect to Qdrant database: "@ + error@
                &&& embed.color == level_color(AlertLevel::Critical)
                &&& embed.footer@ == "Synaplan Qdrant Service"@
            },
    {
        let message = join2("Cannot connect to Qdrant database: ", error);
        self.send_alert(AlertLevel::Critical, "Qdrant Connection Failed", message.as_str())
    }

    /// The report of the counters to post, or none where alerts go nowhere:
    /// upserts, searches and deletes, each grouped by thousands, in one row,
    /// and the uptime below.
    pub fn send_daily_stats(&self, stats: &StatsSnapshot, collection_name: &str) -> (report:
        Option<StatsReport>)
        ensures
            report is Some == self.webhook_url is Some,
            report matches Some(r) ==> {
                &&& r.title@ == "📊 Daily Statistics Report"@
                &&& r.description@ == "Statistics for collection `"@ + collection_name@ + "`"@
                &&& r.color == 0x2ecc71
                &&& r.footer@ == "Synaplan Qdrant Service · Daily Report"@
                &&& r.fields@.len() == 4
                &&& r.fields@[0].name@ == "⬆️ Vectors Upserted"@
                &&& r.fields@[0].value@ == bold_count(stats.upserts as nat)
                &&& r.fields@[0].inline
                &&& r.fields@[1].name@ == "🔍 Searches Performed"@
                &&& r.fields@[1].value@ == bold_count(stats.searches as nat)
                &&& r.fields@[1].inline
                &&& r.fields@[2].name@ == "🗑️ Vectors Deleted"@
                &&& r.fields@[2].value@ == bold_count(stats.deletes as nat)
                &&& r.fields@[2].inline
                &&& r.fields@[3].name@ == "⏱️ Uptime"@
                &&& r.fields@[3].value@ == "`"@ + uptime_text(stats.uptime_seconds as nat) + "`"@
                &&& !r.fields@[3].inline
            },
    {
        if !self.is_enabled() {
            return None;
        }
        let uptime = stats.format_uptime();
        let mut fields: Vec<EmbedField> = Vec::new();
        fields.push(
            EmbedField {
                name: String::from_str("⬆️ Vectors Upserted"),
                value: bold(stats.upserts),
                inline: true,
            },
        );
        fields.push(
            EmbedField {
                name: String::from_str("🔍 Searches Performed"),
                value: bold(stats.searches),
                inline: true,
            },
        );
        fields.push(
            EmbedField {
                name: String::from_str("🗑️ Vectors Deleted"),
                value: bold(stats.deletes),
                inline: true,
            },
        );
        fields.push(
            EmbedField {
                name: String::from_str("⏱️ Uptime"),
                value: join3("`", uptime.as_str(), "`"),
                inline: false,
            },
        );
        Some(
            StatsReport {
                title: String::from_str("📊 Daily Statistics Report"),
                description: join3("Statistics for collection `", collection_name, "`"),
                color: 0x2ecc71,
                fields,
                timestamp: timestamp_now(),
                footer: String::from_str("Synaplan Qdrant Service · Daily Report"),
            },
        )
    }
}

} // verus!
