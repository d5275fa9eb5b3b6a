//! The notification integrations (e-mail, Slack, Telegram, Discord): their
//! settings, the forms that edit them, and where they are kept.

use vstd::prelude::*;
use crate::numeric::{decimal, decimal_string, lemma_decimal_round_trip, parse_unsigned, parse_usize};
use crate::operations_helpers::opt_view;
use crate::text_lines::{non_empty, non_empty_text};

verus! {

/// E-mail notifications.
pub struct EmailIntegrationConfig {
    pub enabled: bool,
    pub smtp_server: String,
    pub smtp_port: u16,
    pub sender_email: String,
    pub sender_password: String,
    pub recipient_email: String,
    pub use_tls: bool,
}

/// Slack notifications.
pub struct SlackIntegrationConfig {
    pub enabled: bool,
    pub webhook_url: String,
    pub mention_user: Option<String>,
}

/// Telegram notifications.
pub struct TelegramIntegrationConfig {
    pub enabled: bool,
    pub bot_token: String,
    pub chat_id: String,
}

/// Discord notifications.
pub struct DiscordIntegrationConfig {
    pub enabled: bool,
    pub webhook_url: String,
}

/// The integrations kept next to a profile, each one absent until configured.
pub struct IntegrationConfig {
    pub email: Option<EmailIntegrationConfig>,
    pub slack: Option<SlackIntegrationConfig>,
    pub telegram: Option<TelegramIntegrationConfig>,
    pub discord: Option<DiscordIntegrationConfig>,
}

/// The name of the file that holds the integrations, in the profile's folder.
pub fn integrations_file_name() -> (r: &'static str)
    ensures
        r@ == "integrations.json"@,
{
    "integrations.json"
}

impl IntegrationConfig {
    /// No integration configured.
    pub fn empty() -> (r: IntegrationConfig)
        ensures
            r.email is None,
            r.slack is None,
            r.telegram is None,
            r.discord is None,
    {
        IntegrationConfig { email: None, slack: None, telegram: None, discord: None }
    }

    /// The folder of the integrations file: the profile's folder, or the
    /// current one when the profile path has none.
    pub fn config_dir(profile_parent: Option<&str>) -> (r: String)
        ensures
            r@ == match profile_parent {
                Some(p) => p@,
                None => "."@,
            },
    {
        match profile_parent {
            Some(p) => p.to_string(),
            None => ".".to_string(),
        }
    }

    /// The integrations as loaded: those read from the file, or none when the
    /// file is missing or cannot be read as integrations.
    pub fn loaded(read: Option<IntegrationConfig>) -> (r: IntegrationConfig)
        ensures
            match read {
                Some(c) => r == c,
                None => r.email is None && r.slack is None && r.telegram is None
                    && r.discord is None,
            },
    {
        match read {
            Some(c) => c,
            None => IntegrationConfig::empty(),
        }
    }

    /// Keeps the e-mail settings of the form.
    pub fn set_email(&mut self, email: EmailIntegrationConfig)
        ensures
            final(self).email == Some(email),
            final(self).slack == old(self).slack,
            final(self).telegram == old(self).telegram,
            final(self).discord == old(self).discord,
    {
        self.email = Some(email);
    }

    /// Keeps the Slack settings of the form.
    pub fn set_slack(&mut self, slack: SlackIntegrationConfig)
        ensures
            final(self).slack == Some(slack),
            final(self).email == old(self).email,
            final(self).telegram == old(self).telegram,
            final(self).discord == old(self).discord,
    {
        self.slack = Some(slack);
    }

    /// Keeps the Telegram settings of the form.
    pub fn set_telegram(&mut self, telegram: TelegramIntegrationConfig)
        ensures
            final(self).telegram == Some(telegram),
            final(self).email == old(self).email,
            final(self).slack == old(self).slack,
            final(self).discord == old(self).discord,
    {
        self.telegram = Some(telegram);
    }

    /// Keeps the Discord settings of the form.
    pub fn set_discord(&mut self, discord: DiscordIntegrationConfig)
        ensures
            final(self).discord == Some(discord),
            final(self).email == old(self).email,
            final(self).slack == old(self).slack,
            final(self).telegram == old(self).telegram,
    {
        self.discord = Some(discord);
    }
}

/// The fields of the e-mail form, as typed.
pub struct EmailFields {
    pub enabled: bool,
    pub smtp_server: String,
    pub smtp_port: String,
    pub sender_email: String,
    pub sender_password: String,
    pub recipient_email: String,
    pub use_tls: bool,
}

/// The SMTP port of the form: the number typed when it is a port, else 587.
pub open spec fn port_or_default(text: Seq<char>) -> u16 {
    match parse_unsigned(text, 65535) {
        Some(p) => p as u16,
        None => 587,
    }
}

/// The e-mail form for `cfg`: its e-mail settings, or Gmail's SMTP server
/// on port 587 with TLS and nothing else filled in.
pub fn email_fields(cfg: &IntegrationConfig) -> (r: EmailFields)
    ensures
        match cfg.email {
            Some(e) => {
                &&& r.enabled == e.enabled
                &&& r.smtp_server == e.smtp_server
                &&& r.smtp_port@ == decimal(e.smtp_port as nat)
                &&& r.sender_email == e.sender_email
                &&& r.sender_password == e.sender_password
                &&& r.recipient_email == e.recipient_email
                &&& r.use_tls == e.use_tls
            },
            None => {
                &&& !r.enabled
                &&& r.smtp_server@ == "smtp.gmail.com"@
                &&& r.smtp_port@ == "587"@
                &&& r.sender_email@.len() == 0
                &&& r.sender_password@.len() == 0
                &&& r.recipient_email@.len() == 0
                &&& r.use_tls
            },
        },
{
    match &cfg.email {
        Some(e) => EmailFields {
            enabled: e.enabled,
            smtp_server: e.smtp_server.clone(),
            smtp_port: decimal_string(e.smtp_port as u64),
            sender_email: e.sender_email.clone(),
            sender_password: e.sender_password.clone(),
            recipient_email: e.recipient_email.clone(),
            use_tls: e.use_tls,
        },
        None => EmailFields {
            enabled: false,
            smtp_server: "smtp.gmail.com".to_string(),
            smtp_port: "587".to_string(),
            sender_email: String::new(),
            sender_password: String::new(),
            recipient_email: String::new(),
            use_tls: true,
        },
    }
}

/// The e-mail settings of the form.
pub fn email_from_fields(f: &EmailFields) -> (r: EmailIntegrationConfig)
    ensures
        r.enabled == f.enabled,
        r.smtp_server == f.smtp_server,
        r.smtp_port == port_or_default(f.smtp_port@),
        r.sender_email == f.sender_email,
        r.sender_password == f.sender_password,
        r.recipient_email == f.recipient_email,
        r.use_tls == f.use_tls,
{
    let port: u16 = match parse_usize(f.smtp_port.as_str()) {
        Some(p) => if p <= 65535 {
            p as u16
        } else {
            587
        },
        None => 587,
    };
    EmailIntegrationConfig {
        enabled: f.enabled,
        smtp_server: f.smtp_server.clone(),
        smtp_port: port,
        sender_email: f.sender_email.clone(),
        sender_password: f.sender_password.clone(),
        recipient_email: f.recipient_email.clone(),
        use_tls: f.use_tls,
    }
}

/// Opening the e-mail form and keeping it unchanged keeps the e-mail
/// settings: the port shown reads back as the same port.
pub proof fn law_email_port_round_trip(port: u16)
    ensures
        port_or_default(decimal(port as nat)) == port,
{
    lemma_decimal_round_trip(port as nat, 65535);
}

/// The fields of the Slack form, as typed.
pub struct SlackFields {
    pub enabled: bool,
    pub webhook_url: String,
    pub mention_user: String,
}

/// The Slack form for `cfg`: its Slack settings (no mention shown as an
/// empty field), or an empty, disabled form.
pub fn slack_fields(cfg: &IntegrationConfig) -> (r: SlackFields)
    ensures
        match cfg.slack {
            Some(s) => r.enabled == s.enabled && r.webhook_url == s.webhook_url
                && r.mention_user@ == match s.mention_user {
                Some(m) => m@,
                None => seq![],
            },
            None => !r.enabled && r.webhook_url@.len() == 0 && r.mention_user@.len() == 0,
        },
{
    match &cfg.slack {
        Some(s) => SlackFields {
            enabled: s.enabled,
            webhook_url: s.webhook_url.clone(),
            mention_user: match &s.mention_user {
                Some(m) => m.clone(),
                None => String::new(),
            },
        },
        None => SlackFields { enabled: false, webhook_url: String::new(), mention_user: String::new() },
    }
}

/// The Slack settings of the form: an empty mention field mentions nobody.
pub fn slack_from_fields(f: &SlackFields) -> (r: SlackIntegrationConfig)
    ensures
        r.enabled == f.enabled,
        r.webhook_url == f.webhook_url,
        opt_view(r.mention_user) == non_empty_text(f.mention_user@),
{
    SlackIntegrationConfig {
        enabled: f.enabled,
        webhook_url: f.webhook_url.clone(),
        mention_user: non_empty(f.mention_user.as_str()),
    }
}

/// The Telegram form for `cfg`: its Telegram settings, or an empty, disabled form.
pub fn telegram_fields(cfg: &IntegrationConfig) -> (r: TelegramIntegrationConfig)
    ensures
        match cfg.telegram {
            Some(t) => r == t,
            None => !r.enabled && r.bot_token@.len() == 0 && r.chat_id@.len() == 0,
        },
{
    match &cfg.telegram {
        Some(t) => TelegramIntegrationConfig {
            enabled: t.enabled,
            bot_token: t.bot_token.clone(),
            chat_id: t.chat_id.clone(),
        },
        None => TelegramIntegrationConfig {
            enabled: false,
            bot_token: String::new(),
            chat_id: String::new(),
        },
    }
}

/// The Discord form for `cfg`: its Discord settings, or an empty, disabled form.
pub fn discord_fields(cfg: &IntegrationConfig) -> (r: DiscordIntegrationConfig)
    ensures
        match cfg.discord {
            Some(d) => r == d,
            None => !r.enabled && r.webhook_url@.len() == 0,
        },
{
    match &cfg.discord {
        Some(d) => DiscordIntegrationConfig { enabled: d.enabled, webhook_url: d.webhook_url.clone() },
        None => DiscordIntegrationConfig { enabled: false, webhook_url: String::new() },
    }
}

/// The status shown after the integrations were saved, or saving failed.
pub fn save_message(saved: bool) -> (r: String)
    ensures
        r@ == (if saved {
            "✅ Configurações salvas com sucesso!"@
        } else {
            "❌ Erro ao salvar configurações"@
        }),
{
    if saved {
        "✅ Configurações salvas com sucesso!".to_string()
    } else {
        "❌ Erro ao salvar configurações".to_string()
    }
}

} // verus!
