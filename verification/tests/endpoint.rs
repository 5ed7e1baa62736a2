use autopush::fcm::{FcmCredential, FcmSettings};
use autopush::routers::{RouterType, Routers};

#[test]
fn fcm_settings_default() {
    let s = FcmSettings::default();
    assert_eq!(s.ttl, 60);
    assert_eq!(s.credentials, "{}");
    assert_eq!(s.max_data, 4096);
}

#[test]
fn fcm_credential_fields() {
    let c = FcmCredential {
        project_id: "proj".to_owned(),
        auth_file: std::path::PathBuf::from("/tmp/auth.json"),
    };
    assert_eq!(c.project_id, "proj");
    assert_eq!(c.auth_file.to_str(), Some("/tmp/auth.json"));
}

#[test]
fn routers_get_webpush() {
    let routers = Routers { webpush: 17u32 };
    assert_eq!(*routers.get(RouterType::WebPush), 17);
    assert!(std::ptr::eq(routers.get(RouterType::WebPush), &routers.webpush));
}
