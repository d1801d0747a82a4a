use scrape_engine::email::{attachment_content_type, EmailError, EmailService, SmtpPresets};
use scrape_engine::models::EmailConfig;

fn valid_config() -> EmailConfig {
    EmailConfig {
        smtp_server: "smtp.gmail.com".to_string(),
        smtp_port: 587,
        username: "user@gmail.com".to_string(),
        password: "password".to_string(),
        sender_email: "sender@gmail.com".to_string(),
        receiver_email: "receiver@gmail.com".to_string(),
        use_tls: true,
    }
}

#[test]
fn test_email_validation() {
    assert!(EmailService::validate_email_address("test@example.com").is_ok());
    assert!(EmailService::validate_email_address("user.name+tag@domain.co.uk").is_ok());

    assert!(EmailService::validate_email_address("invalid-email").is_err());
    assert!(EmailService::validate_email_address("@domain.com").is_err());
    assert!(EmailService::validate_email_address("user@").is_err());
}

#[test]
fn test_config_validation() {
    let valid_config = EmailConfig {
        smtp_server: "smtp.gmail.com".to_string(),
        smtp_port: 587,
        username: "user@gmail.com".to_string(),
        password: "password".to_string(),
        sender_email: "sender@gmail.com".to_string(),
        receiver_email: "receiver@gmail.com".to_string(),
        use_tls: true,
    };

    assert!(EmailService::validate_config(&valid_config).is_ok());

    let invalid_config = EmailConfig {
        smtp_server: "".to_string(),
        smtp_port: 0,
        username: "".to_string(),
        password: "".to_string(),
        sender_email: "invalid-email".to_string(),
        receiver_email: "invalid-email".to_string(),
        use_tls: true,
    };

    assert!(EmailService::validate_config(&invalid_config).is_err());
}

#[test]
fn test_smtp_presets() {
    let (server, port, tls) = SmtpPresets::gmail();
    assert_eq!(server, "smtp.gmail.com");
    assert_eq!(port, 587);
    assert!(tls);

    let (server, port, tls) = SmtpPresets::outlook();
    assert_eq!(server, "smtp-mail.outlook.com");
    assert_eq!(port, 587);
    assert!(tls);
}

#[test]
fn smtp_preset_yahoo_and_custom() {
    let (server, port, tls) = SmtpPresets::yahoo();
    assert_eq!(server, "smtp.mail.yahoo.com");
    assert_eq!(port, 587);
    assert!(tls);

    let (server, port, tls) = SmtpPresets::custom("mail.local", 2525, false);
    assert_eq!(server, "mail.local");
    assert_eq!(port, 2525);
    assert!(!tls);
}

#[test]
fn config_validation_reports_first_failure() {
    let mut config = valid_config();
    config.sender_email = "broken".to_string();
    match EmailService::validate_config(&config) {
        Err(EmailError::InvalidAddress(a)) => assert_eq!(a, "broken"),
        other => panic!("unexpected: {other:?}"),
    }

    let mut config = valid_config();
    config.receiver_email = "also broken".to_string();
    match EmailService::validate_config(&config) {
        Err(EmailError::InvalidAddress(a)) => assert_eq!(a, "also broken"),
        other => panic!("unexpected: {other:?}"),
    }

    let mut config = valid_config();
    config.smtp_server = "".to_string();
    assert!(matches!(
        EmailService::validate_config(&config),
        Err(EmailError::EmptyServer)
    ));

    let mut config = valid_config();
    config.smtp_port = 0;
    assert!(matches!(
        EmailService::validate_config(&config),
        Err(EmailError::InvalidPort)
    ));

    let mut config = valid_config();
    config.username = "".to_string();
    assert!(matches!(
        EmailService::validate_config(&config),
        Err(EmailError::EmptyUsername)
    ));

    let mut config = valid_config();
    config.password = "".to_string();
    assert!(matches!(
        EmailService::validate_config(&config),
        Err(EmailError::EmptyPassword)
    ));
}

#[test]
fn email_service_holds_configuration() {
    let mut service = EmailService::new();
    assert!(service.get_config().is_none());

    service.set_config(valid_config());
    let held = service.get_config().expect("config should be held");
    assert_eq!(held.smtp_server, "smtp.gmail.com");

    let service = EmailService::with_config(valid_config());
    assert!(service.get_config().is_some());

    let service = EmailService::default();
    assert!(service.get_config().is_none());
}

#[test]
fn email_error_messages() {
    let err = EmailService::validate_email_address("nope").unwrap_err();
    assert_eq!(err.message(), "Invalid email address: nope");
    assert_eq!(EmailError::EmptyServer.message(), "SMTP server cannot be empty");
    assert_eq!(EmailError::InvalidPort.message(), "Invalid SMTP port");
    assert_eq!(EmailError::EmptyUsername.message(), "Username cannot be empty");
    assert_eq!(EmailError::EmptyPassword.message(), "Password cannot be empty");
}

#[test]
fn attachment_content_types() {
    assert_eq!(attachment_content_type("csv"), "text/csv");
    assert_eq!(attachment_content_type("CSV"), "text/csv");
    assert_eq!(attachment_content_type("json"), "application/json");
    assert_eq!(attachment_content_type("Pdf"), "application/pdf");
    assert_eq!(attachment_content_type("html"), "application/octet-stream");
}
