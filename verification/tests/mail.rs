use backend::mail::{
    chargelog_month, chargelog_subject, monitoring_enabled, MONITORING_INTERVAL_SECS, MONITORING_SUBJECT, delivery_address, lang_from_headers, mail_is_german, month_names_german,
    recovery_link, verification_link, verification_subject, verified_redirect, Lang, MAIL_SENDER,
    RECOVERY_SUBJECT, REGISTRATION_SUBJECT,
};

fn headers(list: &[(&str, Option<&str>)]) -> Vec<(String, Option<String>)> {
    list.iter().map(|(n, v)| (n.to_string(), v.map(|v| v.to_string()))).collect()
}

#[test]
fn lang_comes_from_the_first_x_lang_header() {
    let h = headers(&[("accept", Some("*/*")), ("X-Lang", Some("de")), ("x-lang", Some("en"))]);
    assert_eq!(lang_from_headers(&h).into_string(), "de");
    let h = headers(&[("x-LANG", Some("de-DE"))]);
    assert_eq!(lang_from_headers(&h).into_string(), "de-DE");
}

#[test]
fn lang_is_empty_without_a_text_header() {
    assert_eq!(lang_from_headers(&Vec::new()).into_string(), "");
    let h = headers(&[("x-lang", None), ("x-lang", Some("de"))]);
    assert_eq!(lang_from_headers(&h).into_string(), "");
    let h = headers(&[("x-language", Some("de"))]);
    assert_eq!(lang_from_headers(&h).into_string(), "");
    assert_eq!(Lang("fr".to_string()).into_string(), "fr");
}

#[test]
fn german_mails_for_de_and_de_de() {
    assert!(mail_is_german("de"));
    assert!(mail_is_german("de-DE"));
    assert!(!mail_is_german("DE"));
    assert!(!mail_is_german("en"));
    assert!(!mail_is_german(""));
    assert!(month_names_german("de"));
    assert!(!month_names_german("de-DE"));
}

#[test]
fn links_point_at_the_frontend() {
    let id = uuid::Uuid::from_u128(0x1234);
    assert_eq!(
        verification_link("https://example.org", 0x1234),
        format!("https://example.org/api/auth/verify?id={id}")
    );
    assert_eq!(verified_redirect("https://example.org"), "https://example.org?verified=true");
    assert_eq!(
        recovery_link("https://example.org", 0x1234, "a@b.c"),
        format!("https://example.org/recovery?token={id}&email=a@b.c")
    );
}

#[test]
fn subjects_follow_the_language() {
    assert_eq!(verification_subject("de"), "Email verifizieren");
    assert_eq!(verification_subject("de-DE"), "Email verifizieren");
    assert_eq!(verification_subject("en"), "Verify email");
    assert_eq!(REGISTRATION_SUBJECT, "Verify email");
    assert_eq!(RECOVERY_SUBJECT, "Password Recovery");
    assert_eq!(MAIL_SENDER, "Warp <warp@tinkerforge.com>");
    assert_eq!(chargelog_subject("de", "Mai 2024", "Garage", true), "Dein Ladelog für Mai 2024 von Garage");
    assert_eq!(chargelog_subject("de-DE", "Mai 2024", "Garage", false), "Dein Ladelog von Garage");
    assert_eq!(chargelog_subject("en", "May 2024", "Garage", true), "Your Charge Log for May 2024 from Garage");
    assert_eq!(chargelog_subject("", "May 2024", "Garage", false), "Your Charge Log from Garage");
}

#[test]
fn mails_go_to_the_delivery_address_if_set() {
    assert_eq!(delivery_address(Some("d@x".to_string()), "e@x".to_string()), "d@x");
    assert_eq!(delivery_address(None, "e@x".to_string()), "e@x");
}

#[test]
fn charge_logs_cover_the_month_before() {
    assert_eq!(chargelog_month(2024, 6, "en"), Some("May 2024".to_string()));
    assert_eq!(chargelog_month(2024, 1, "en"), Some("December 2023".to_string()));
    assert_eq!(chargelog_month(2024, 1, "de"), Some("Dezember 2023".to_string()));
    assert_eq!(chargelog_month(2024, 4, "de"), Some("März 2024".to_string()));
    // Only `de` writes German month names.
    assert_eq!(chargelog_month(2024, 3, "de-DE"), Some("February 2024".to_string()));
    assert_eq!(chargelog_month(2024, 13, "en"), None);
    assert_eq!(chargelog_month(2024, 0, "en"), None);
    assert_eq!(chargelog_month(-262143, 1, "en"), None);
    assert_eq!(chargelog_month(-262143, 2, "en"), Some("January -262143".to_string()));
}

#[test]
fn monitoring_needs_name_and_address() {
    assert!(monitoring_enabled(&Some("srv".to_string()), &Some("a@b".to_string())));
    assert!(!monitoring_enabled(&None, &Some("a@b".to_string())));
    assert!(!monitoring_enabled(&Some("srv".to_string()), &None));
    assert_eq!(MONITORING_SUBJECT, "Monitoring mail");
    assert_eq!(MONITORING_INTERVAL_SECS, 86400);
}
