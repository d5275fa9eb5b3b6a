use rs_shield::integrations::{
    discord_fields, email_fields, email_from_fields, integrations_file_name, save_message,
    slack_fields, slack_from_fields, telegram_fields, EmailIntegrationConfig, IntegrationConfig,
    SlackIntegrationConfig,
};

#[test]
fn empty_forms_have_defaults() {
    let cfg = IntegrationConfig::empty();
    let e = email_fields(&cfg);
    assert!(!e.enabled && e.use_tls);
    assert_eq!((e.smtp_server.as_str(), e.smtp_port.as_str()), ("smtp.gmail.com", "587"));
    assert_eq!(slack_fields(&cfg).mention_user, "");
    assert!(!telegram_fields(&cfg).enabled);
    assert_eq!(discord_fields(&cfg).webhook_url, "");
    assert_eq!(integrations_file_name(), "integrations.json");
    assert_eq!(IntegrationConfig::config_dir(None), ".");
    assert_eq!(IntegrationConfig::config_dir(Some("/home/a/.rs-shield")), "/home/a/.rs-shield");
    assert!(IntegrationConfig::loaded(None).email.is_none());
}

#[test]
fn email_form_round_trip() {
    let mut cfg = IntegrationConfig::empty();
    cfg.set_email(EmailIntegrationConfig {
        enabled: true,
        smtp_server: "mail.x".to_string(),
        smtp_port: 2525,
        sender_email: "a@x".to_string(),
        sender_password: "pw".to_string(),
        recipient_email: "b@x".to_string(),
        use_tls: false,
    });
    let mut fields = email_fields(&cfg);
    assert_eq!(fields.smtp_port, "2525");
    let back = email_from_fields(&fields);
    assert_eq!(back.smtp_port, 2525);
    assert_eq!(back.recipient_email, "b@x");
    fields.smtp_port = "not a port".to_string();
    assert_eq!(email_from_fields(&fields).smtp_port, 587);
    fields.smtp_port = "70000".to_string();
    assert_eq!(email_from_fields(&fields).smtp_port, 587);
}

#[test]
fn slack_mention_and_messages() {
    let mut cfg = IntegrationConfig::empty();
    cfg.set_slack(SlackIntegrationConfig { enabled: true, webhook_url: "https://hooks".to_string(), mention_user: Some("@ana".to_string()) });
    let mut f = slack_fields(&cfg);
    assert_eq!(f.mention_user, "@ana");
    assert_eq!(slack_from_fields(&f).mention_user, Some("@ana".to_string()));
    f.mention_user = String::new();
    assert_eq!(slack_from_fields(&f).mention_user, None);
    assert_eq!(save_message(true), "✅ Configurações salvas com sucesso!");
    assert_eq!(save_message(false), "❌ Erro ao salvar configurações");
}
