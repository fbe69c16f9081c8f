//! The JSON request bodies: exact text, agreement with serde_json's string
//! escaping, and round trips through a real JSON parser.

use nodesty_api::json::append_quoted;
use nodesty_api::json::fmt_u64;
use nodesty_api::models::dedicated::DedicatedServerAction;
use nodesty_api::models::firewall::AttackNotificationSettings;
use nodesty_api::models::firewall::FirewallCreateRuleData;
use nodesty_api::models::firewall::FirewallReverseDns;
use nodesty_api::models::vps::VpsAction;
use nodesty_api::models::vps::VpsChangePasswordData;
use nodesty_api::models::vps::VpsReinstallData;

#[test]
fn decimal_rendering() {
    assert_eq!(fmt_u64(0), "0");
    assert_eq!(fmt_u64(7), "7");
    assert_eq!(fmt_u64(10), "10");
    assert_eq!(fmt_u64(405), "405");
    assert_eq!(fmt_u64(18_446_744_073_709_551_615), "18446744073709551615");
}

#[test]
fn action_bodies() {
    assert_eq!(VpsAction::Start.to_json(), "{\"action\":\"start\"}");
    assert_eq!(VpsAction::Stop.to_json(), "{\"action\":\"stop\"}");
    assert_eq!(VpsAction::Restart.to_json(), "{\"action\":\"restart\"}");
    assert_eq!(VpsAction::PowerOff.to_json(), "{\"action\":\"poweroff\"}");
    assert_eq!(DedicatedServerAction::Start.to_json(), "{\"action\":\"setPowerOn\"}");
    assert_eq!(DedicatedServerAction::Stop.to_json(), "{\"action\":\"setPowerOff\"}");
    assert_eq!(DedicatedServerAction::Restart.to_json(), "{\"action\":\"setPowerReset\"}");
}

#[test]
fn quoting_agrees_with_serde_json() {
    let samples = [
        "plain",
        "",
        "with \"quotes\" and \\backslash\\",
        "line\nbreak\ttab\rreturn",
        "control \u{1} \u{8} \u{c} \u{1f} chars",
        "unicode ü ☃ passthrough",
        "/slashes are not escaped/",
    ];
    for s in samples {
        let mut quoted = String::new();
        append_quoted(&mut quoted, s);
        let reference = serde_json::to_string(&serde_json::Value::String(s.to_string())).unwrap();
        assert_eq!(quoted, reference);
    }
}

#[test]
fn quoted_strings_parse_back() {
    let samples = ["", "a\"b", "back\\slash", "nl\n nul\u{0} high\u{1f}", "ascii only"];
    for s in samples {
        let mut quoted = String::new();
        append_quoted(&mut quoted, s);
        let parsed: serde_json::Value = serde_json::from_str(&quoted).unwrap();
        assert_eq!(parsed.as_str(), Some(s));
    }
}

#[test]
fn change_password_body_parses_back() {
    let data = VpsChangePasswordData {
        username: "ro\"ot".to_string(),
        password: "p\\w\n".to_string(),
    };
    let body = data.to_json();
    let v: serde_json::Value = serde_json::from_str(&body).unwrap();
    assert_eq!(v.get("username").and_then(|x| x.as_str()), Some("ro\"ot"));
    assert_eq!(v.get("password").and_then(|x| x.as_str()), Some("p\\w\n"));
    assert_eq!(v.as_object().unwrap().len(), 2);
}

#[test]
fn reinstall_body_parses_back() {
    let data = VpsReinstallData { password: "pw".to_string(), os_id: 4_294_967_295 };
    let body = data.to_json();
    let v: serde_json::Value = serde_json::from_str(&body).unwrap();
    assert_eq!(v.get("password").and_then(|x| x.as_str()), Some("pw"));
    assert_eq!(v.get("osId").and_then(|x| x.as_u64()), Some(4_294_967_295));
}

#[test]
fn create_rule_body_parses_back() {
    let data = FirewallCreateRuleData { port: 65_535, app_id: 0 };
    let body = data.to_json();
    let v: serde_json::Value = serde_json::from_str(&body).unwrap();
    assert_eq!(v.get("port").and_then(|x| x.as_u64()), Some(65_535));
    assert_eq!(v.get("appId").and_then(|x| x.as_u64()), Some(0));
}

#[test]
fn notification_settings_round_trip() {
    // Serializing the request payload and reading the same shape back, as a
    // response body would carry it, keeps every field value.
    let with_webhook = AttackNotificationSettings {
        email_notification: true,
        discord_webhook_url: Some("https://discord.example/hook?id=1&x=\"y\"".to_string()),
    };
    let v: serde_json::Value = serde_json::from_str(&with_webhook.to_json()).unwrap();
    let back = AttackNotificationSettings {
        email_notification: v.get("emailNotification").and_then(|x| x.as_bool()).unwrap(),
        discord_webhook_url: v
            .get("discordWebhookUrl")
            .and_then(|x| x.as_str())
            .map(|s| s.to_string()),
    };
    assert_eq!(back, with_webhook);

    let without_webhook =
        AttackNotificationSettings { email_notification: false, discord_webhook_url: None };
    let v: serde_json::Value = serde_json::from_str(&without_webhook.to_json()).unwrap();
    assert_eq!(v.get("emailNotification").and_then(|x| x.as_bool()), Some(false));
    assert!(v.get("discordWebhookUrl").is_none());
    let back = AttackNotificationSettings {
        email_notification: false,
        discord_webhook_url: v
            .get("discordWebhookUrl")
            .and_then(|x| x.as_str())
            .map(|s| s.to_string()),
    };
    assert_eq!(back, without_webhook);
}

#[test]
fn reverse_dns_round_trip() {
    let set = FirewallReverseDns { rdns: Some("mail.example".to_string()) };
    let v: serde_json::Value = serde_json::from_str(&set.to_json()).unwrap();
    let back = FirewallReverseDns {
        rdns: v.get("rdns").and_then(|x| x.as_str()).map(|s| s.to_string()),
    };
    assert_eq!(back, set);

    let unset = FirewallReverseDns { rdns: None };
    assert_eq!(unset.to_json(), "{}");
    let v: serde_json::Value = serde_json::from_str(&unset.to_json()).unwrap();
    assert!(v.as_object().unwrap().is_empty());
}
