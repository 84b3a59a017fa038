use matryriska::config::{connection_settings, web_port, Config};
use matryriska::pool::{PoolSlot, HEALTH_RETRY_SECS, REFRESH_INTERVAL_SECS};

#[test]
fn ensure_ready_installs_only_when_empty() {
    let mut slot: PoolSlot<u32> = PoolSlot::new();
    assert!(slot.needs_build());
    assert!(!slot.is_ready());
    assert!(slot.current().is_none());
    assert!(slot.install_if_absent(1));
    assert!(!slot.install_if_absent(2));
    assert_eq!(slot.current(), Some(&1));
    assert!(!slot.needs_build());
}

#[test]
fn refresh_replaces_and_never_empties() {
    let mut slot: PoolSlot<u32> = PoolSlot::new();
    assert_eq!(slot.replace(7), None);
    for n in 0..10u32 {
        let previous = slot.replace(100 + n);
        assert!(previous.is_some());
        assert!(slot.is_ready());
        assert_eq!(slot.current(), Some(&(100 + n)));
        assert!(!slot.install_if_absent(999));
        assert_eq!(slot.current(), Some(&(100 + n)));
    }
}

#[test]
fn refresh_hands_back_previous_handle() {
    let mut slot: PoolSlot<String> = PoolSlot::new();
    slot.install_if_absent("first".to_string());
    assert_eq!(slot.replace("second".to_string()), Some("first".to_string()));
    assert_eq!(slot.current().map(|s| s.as_str()), Some("second"));
}

#[test]
fn intervals() {
    assert_eq!(REFRESH_INTERVAL_SECS, 300);
    assert_eq!(HEALTH_RETRY_SECS, 2);
}

#[test]
fn default_config_values() {
    let c = Config::default();
    assert_eq!(c.db_host, "127.0.0.1");
    assert_eq!(c.db_port, 3306);
    assert_eq!(c.db_username, "matryriska");
    assert_eq!(c.db_password, "");
    assert_eq!(c.web_port, 8080);
}

#[test]
fn host_depends_on_production_flag() {
    let c = Config {
        db_host: "db.internal".to_string(),
        db_port: 3307,
        db_username: "u".to_string(),
        db_password: "p".to_string(),
        web_port: 9000,
    };
    let local = connection_settings(&c, false);
    assert_eq!(local.host, "127.0.0.1");
    assert_eq!(local.port, 3307);
    assert_eq!(local.database, "matryriska");
    assert_eq!(local.user, "u");
    assert_eq!(local.password, "p");
    let prod = connection_settings(&c, true);
    assert_eq!(prod.host, "db.internal");
    assert_eq!(web_port(&c), 9000);
}

#[test]
fn port_keeps_low_sixteen_bits() {
    let mut c = Config::default();
    c.db_port = 65536 + 3306;
    assert_eq!(connection_settings(&c, false).port, 3306);
    c.web_port = 65535;
    assert_eq!(web_port(&c), 65535);
}
