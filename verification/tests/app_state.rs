use autopush::app_state::{crypto_keys, AppState, AppStateError, Settings};

fn settings(crypto_key: &str) -> Settings {
    Settings {
        port: 8080,
        crypto_key: crypto_key.to_owned(),
        statsd_host: None,
        statsd_port: 8125,
        db_dsn: None,
        db_settings: String::new(),
        router_url: "http://127.0.0.1:8081".to_owned(),
        endpoint_url: "http://127.0.0.1:8082".to_owned(),
    }
}

#[test]
fn crypto_key_list() {
    let keys = crypto_keys("[ one ,two,\tthree ]").ok().unwrap();
    assert_eq!(keys, vec!["one", "two", "three"]);
    let keys = crypto_keys("[]").ok().unwrap();
    assert_eq!(keys, vec![""]);
    let keys = crypto_keys("[a,,b,]").ok().unwrap();
    assert_eq!(keys, vec!["a", "", "b", ""]);
    let keys = crypto_keys("[\u{3000}k\u{a0}]").ok().unwrap();
    assert_eq!(keys, vec!["k"]);
}

#[test]
fn crypto_key_needs_brackets() {
    for bad in ["", "[", "]", "key", "[key", "key]", "(key)"] {
        match crypto_keys(bad) {
            Err(AppStateError::Config(m)) => assert_eq!(m, "Invalid autoconnect_CRYPTO_KEY"),
            Ok(k) => panic!("accepted {:?}: {:?}", bad, k),
        }
    }
}

#[test]
fn from_settings_with_valid_keys() {
    let k1 = fernet::Fernet::generate_key();
    let k2 = fernet::Fernet::generate_key();
    let s = settings(&format!("[{}, {}]", k1, k2));
    let state = AppState::from_settings(s.clone()).ok().unwrap();
    assert_eq!(state.settings.crypto_key, s.crypto_key);
    assert_eq!(state.router_url, "http://127.0.0.1:8081");
    assert_eq!(state.endpoint_url, "http://127.0.0.1:8082");
    let token = state.fernet.encrypt(b"endpoint");
    let f2 = fernet::MultiFernet::new(vec![fernet::Fernet::new(&k1).unwrap()]);
    assert_eq!(f2.decrypt(&token).unwrap(), b"endpoint");
}

#[test]
fn from_settings_rejects_unbracketed_key() {
    let k1 = fernet::Fernet::generate_key();
    match AppState::from_settings(settings(&k1)) {
        Err(AppStateError::Config(m)) => assert_eq!(m, "Invalid autoconnect_CRYPTO_KEY"),
        Ok(_) => panic!("accepted a key without brackets"),
    }
}

#[test]
fn try_from_settings_rejects_bad_fernet_key() {
    assert!(AppState::try_from_settings(settings("[not a key]")).is_none());
    let k1 = fernet::Fernet::generate_key();
    assert!(AppState::try_from_settings(settings(&format!("[{},short]", k1))).is_none());
    assert!(matches!(
        AppState::try_from_settings(settings(&format!("[{}]", k1))),
        Some(Ok(_))
    ));
    assert!(matches!(
        AppState::try_from_settings(settings("nokey")),
        Some(Err(AppStateError::Config(_)))
    ));
}

#[test]
fn from_settings_ignores_space_around_keys() {
    let k1 = fernet::Fernet::generate_key();
    let k2 = fernet::Fernet::generate_key();
    let s1 = AppState::from_settings(settings(&format!("[{},{}]", k1, k2)))
        .ok()
        .unwrap();
    let s2 = AppState::from_settings(settings(&format!("[ {} , {} ]", k1, k2)))
        .ok()
        .unwrap();
    let only_k1 = fernet::Fernet::new(&k1).unwrap();
    let only_k2 = fernet::Fernet::new(&k2).unwrap();
    for state in [&s1, &s2] {
        // The first key encrypts; either key decrypts.
        let token = state.fernet.encrypt(b"url");
        assert_eq!(only_k1.decrypt(&token).unwrap(), b"url");
        assert!(only_k2.decrypt(&token).is_err());
        assert_eq!(state.fernet.decrypt(&only_k2.encrypt(b"x")).unwrap(), b"x");
    }
    assert_eq!(s1.router_url, s2.router_url);
    assert_eq!(s1.endpoint_url, s2.endpoint_url);
}
