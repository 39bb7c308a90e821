use dbh_insights_helper::config::{Config, VcenterEntry, DEFAULT_PORT, KEYRING_SERVICE};
use dbh_insights_helper::ids;
use serde_json::Value;

fn text_of(object: &Value, name: &str) -> Option<String> {
    object[name].as_str().map(str::to_owned)
}

/// The settings that a file holds, with the defaults for what it leaves out.
fn config_of(text: &str) -> Config {
    let value: Value = serde_json::from_str(text).unwrap();
    let mut config = Config::default();
    if let Some(vcenters) = value["vcenters"].as_array() {
        config.vcenters = vcenters
            .iter()
            .map(|v| VcenterEntry {
                id: text_of(v, "id").unwrap_or_default(),
                name: text_of(v, "name").unwrap_or_default(),
                host: text_of(v, "host").unwrap_or_default(),
                username: text_of(v, "username").unwrap_or_default(),
                accept_invalid_certs: v["acceptInvalidCerts"].as_bool().unwrap_or_default(),
            })
            .collect();
    }
    if let Some(port) = value["port"].as_u64() {
        config.port = port as u16;
    }
    if let Some(origins) = value["allowedOrigins"].as_array() {
        config.allowed_origins = origins.iter().map(|o| o.as_str().unwrap().to_owned()).collect();
    }
    config.allow_local_files = value["allowLocalFiles"].as_bool().unwrap_or_default();
    config.vcenter_host = text_of(&value, "vcenterHost");
    config.username = text_of(&value, "username");
    config.accept_invalid_certs = value["acceptInvalidCerts"].as_bool();
    config
}

/// The settings of a version 0.1 file that are still there, as they would be written.
fn legacy_settings(config: &Config) -> String {
    let mut object = serde_json::Map::new();
    if let Some(host) = &config.vcenter_host {
        object.insert("vcenterHost".to_owned(), Value::from(host.as_str()));
    }
    if let Some(username) = &config.username {
        object.insert("username".to_owned(), Value::from(username.as_str()));
    }
    if let Some(accept) = config.accept_invalid_certs {
        object.insert("acceptInvalidCerts".to_owned(), Value::from(accept));
    }
    serde_json::to_string(&Value::Object(object)).unwrap()
}

fn entry(id: &str, host: &str, username: &str) -> VcenterEntry {
    VcenterEntry {
        id: id.to_owned(),
        name: host.to_owned(),
        host: host.to_owned(),
        username: username.to_owned(),
        accept_invalid_certs: false,
    }
}

#[test]
fn migrates_single_vcenter_file() {
    let old = r#"{"vcenterHost":"https://vc.lab/","username":"admin","acceptInvalidCerts":true,
                  "port":8765,"allowedOrigins":["http://localhost:5500"],"allowWriteMethods":false}"#;
    let config = config_of(old).normalized();
    assert_eq!(config.vcenters.len(), 1);
    let vc = &config.vcenters[0];
    assert_eq!(vc.host, "vc.lab");
    assert_eq!(vc.name, "vc.lab");
    assert_eq!(vc.keyring_account(), "admin@vc.lab");
    assert!(!vc.id.is_empty());

    let saved = legacy_settings(&config);
    assert!(!saved.contains("vcenterHost"));
    assert_eq!(saved, "{}");
}

#[test]
fn new_settings_allow_the_published_website() {
    let config = Config::default().normalized();
    assert!(config.origin_allowed("https://dbh-insights.github.io"));
    assert!(config.origin_allowed("https://dbh-insights.github.io/"));
    assert!(config.origin_allowed("http://localhost:5500"));
    assert!(!config.origin_allowed("https://evil.github.io"));
}

#[test]
fn local_files_are_refused_unless_opted_in() {
    let config = Config::default().normalized();
    assert!(!config.allow_local_files);
    assert!(!config.origin_allowed("null"));

    // A "null" in the list alone never allows it without the setting.
    let mut raw = Config::default();
    raw.allowed_origins.push("null".into());
    assert!(!raw.origin_allowed("null"));

    let mut opted_in = Config::default();
    opted_in.allow_local_files = true;
    assert!(opted_in.origin_allowed("null"));
    assert!(!opted_in.origin_allowed("https://evil.example.com"));
}

#[test]
fn null_in_the_list_becomes_the_local_files_setting() {
    let text = r#"{"allowedOrigins":["https://dbh-insights.github.io","null"," NULL "]}"#;
    let config = config_of(text).normalized();
    assert_eq!(config.allowed_origins, vec!["https://dbh-insights.github.io".to_string()]);
    assert!(config.allow_local_files);
    assert!(config.origin_allowed("null"));
}

#[test]
fn fixes_missing_and_duplicate_ids() {
    let text = r#"{"vcenters":[{"id":"a","host":"one"},{"id":"a","host":"two"},{"host":"three"}]}"#;
    let config = config_of(text).normalized();
    let ids: Vec<_> = config.vcenters.iter().map(|v| v.id.as_str()).collect();
    assert_eq!(ids[0], "a");
    assert!(ids[1] != "a" && !ids[1].is_empty());
    assert!(!ids[2].is_empty() && ids[2] != ids[1]);
}

#[test]
fn default_settings_are_those_of_a_new_helper() {
    let config = Config::default();
    assert_eq!(DEFAULT_PORT, 8765);
    assert_eq!(KEYRING_SERVICE, "dbh-insights-helper");
    assert!(config.vcenters.is_empty());
    assert_eq!(config.port, 8765);
    assert_eq!(
        config.allowed_origins,
        vec!["https://dbh-insights.github.io", "http://localhost:5500", "http://127.0.0.1:5500"]
    );
    let empty = VcenterEntry::default();
    assert_eq!((empty.id.as_str(), empty.host.as_str(), empty.accept_invalid_certs), ("", "", false));
}

#[test]
fn entries_are_cleaned_up() {
    let messy = VcenterEntry {
        id: " keep ".to_owned(),
        name: " \u{3000}".to_owned(),
        host: "\t https://vc.lab:8443// ".to_owned(),
        username: " admin\u{a0}".to_owned(),
        accept_invalid_certs: true,
    };
    let clean = messy.normalized();
    assert_eq!(clean.id, " keep ");
    assert_eq!(clean.name, "vc.lab:8443");
    assert_eq!(clean.host, "vc.lab:8443");
    assert_eq!(clean.username, "admin");
    assert!(clean.accept_invalid_certs);

    let named = VcenterEntry { name: " Lab ".to_owned(), ..entry("x", "http://vc", "u") }.normalized();
    assert_eq!(named.name, "Lab");
    assert_eq!(named.host, "vc");

    // Only one scheme is taken off, and only in lower case.
    assert_eq!(entry("x", "https://http://vc", "u").normalized().host, "http://vc");
    assert_eq!(entry("x", "HTTPS://vc", "u").normalized().host, "HTTPS://vc");
}

#[test]
fn cleaning_up_twice_is_cleaning_up_once() {
    let once = entry("x", " https://vc.lab/ ", " admin ").normalized();
    let twice = once.clone().normalized();
    assert_eq!(
        (&once.name, &once.host, &once.username),
        (&twice.name, &twice.host, &twice.username)
    );
}

#[test]
fn an_entry_needs_a_host_and_a_user() {
    assert!(entry("a", "vc", "u").is_complete());
    assert!(!entry("a", "", "u").is_complete());
    assert!(!entry("a", "vc", "").is_complete());
}

#[test]
fn an_entry_names_its_url_account_and_connection() {
    let vc = entry("a", "vc.lab:8443", "admin");
    assert_eq!(vc.base_url(), "https://vc.lab:8443");
    assert_eq!(vc.keyring_account(), "admin@vc.lab:8443");
    assert_eq!(vc.connection_fingerprint(), "vc.lab:8443|admin|false");
    let insecure = VcenterEntry { accept_invalid_certs: true, ..vc.clone() };
    assert_eq!(insecure.connection_fingerprint(), "vc.lab:8443|admin|true");
}

#[test]
fn fingerprints_tell_connections_apart() {
    let vc = entry("a", "vc", "admin");
    assert_ne!(vc.connection_fingerprint(), entry("a", "vc2", "admin").connection_fingerprint());
    assert_ne!(vc.connection_fingerprint(), entry("a", "vc", "root").connection_fingerprint());
    assert_eq!(vc.connection_fingerprint(), entry("b", "vc", "admin").connection_fingerprint());
    // A host never has a bar in it; if it did, two connections could be mixed up.
    assert_eq!(
        entry("a", "a|b", "c").connection_fingerprint(),
        entry("a", "a", "b|c").connection_fingerprint()
    );
}

#[test]
fn accounts_tell_logins_apart() {
    let vc = entry("a", "vc", "admin@vsphere.local");
    assert_eq!(vc.keyring_account(), "admin@vsphere.local@vc");
    assert_ne!(vc.keyring_account(), entry("a", "vc", "admin").keyring_account());
    assert_ne!(vc.keyring_account(), entry("a", "vc2", "admin@vsphere.local").keyring_account());
}

#[test]
fn ids_are_made_from_the_time() {
    let times = vec![0xab, 0xcd, 0xef];
    let text = r#"{"vcenters":[{"id":"vc-cd","host":"one"},{"host":"two"},{"id":"vc-cd","host":"three"}]}"#;
    let config = config_of(text).normalized_at(&times);
    let ids: Vec<_> = config.vcenters.iter().map(|v| v.id.as_str()).collect();
    // "vc-cd" is taken, so the entry looked at at that time gets the next one.
    assert_eq!(ids, vec!["vc-cd", "vc-ce", "vc-ef"]);
}

#[test]
fn a_migrated_vcenter_gets_an_id_and_no_certificate_check() {
    let config = config_of(r#"{"vcenterHost":" vc ","port":0}"#).normalized_at(&vec![0x1234]);
    assert_eq!(config.vcenters.len(), 1);
    assert_eq!(config.vcenters[0].id, "vc-1234");
    assert_eq!(config.vcenters[0].name, "vc");
    assert_eq!(config.vcenters[0].username, "");
    assert!(config.vcenters[0].accept_invalid_certs);
    assert_eq!(config.port, 8765);

    // A blank host is nothing to migrate, and neither is one beside other vCenters.
    assert!(config_of(r#"{"vcenterHost":"  "}"#).normalized_at(&vec![1]).vcenters.is_empty());
    let both = config_of(r#"{"vcenterHost":"old","vcenters":[{"id":"n","host":"new"}]}"#);
    let both = both.normalized_at(&vec![1]);
    assert_eq!(both.vcenters.len(), 1);
    assert_eq!(both.vcenters[0].host, "new");
}

#[test]
fn new_ids_wrap_around_and_skip_those_taken() {
    let none: Vec<VcenterEntry> = Vec::new();
    assert_eq!(ids::new_id_at(&none, 0), "vc-0");
    assert_eq!(ids::new_id_at(&none, 0xffff_ffff_fffe), "vc-fffffffffffe");
    assert_eq!(ids::new_id_at(&none, 0xffff_ffff_ffff), "vc-0");
    assert_eq!(ids::new_id_at(&none, u128::MAX), "vc-ffffffff");
    let taken = vec![entry("vc-fffffffffffe", "a", "u"), entry("vc-0", "b", "u")];
    assert_eq!(ids::new_id_at(&taken, 0xffff_ffff_fffe), "vc-1");
}

#[test]
fn new_ids_are_free() {
    let mut config = Config::default();
    for _ in 0..20 {
        let id = config.new_id();
        assert!(id.starts_with("vc-") && id.len() > 3);
        assert!(config.find(&id).is_none());
        config.vcenters.push(entry(&id, "vc", "u"));
    }
}

#[test]
fn the_clock_makes_the_ids() {
    // The first id of an empty configuration is the time itself, so it lies between two readings.
    let space: u128 = 0xffff_ffff_ffff;
    let before = dbh_insights_helper::clock::nanos_since_epoch();
    let id = Config::default().new_id();
    let after = dbh_insights_helper::clock::nanos_since_epoch();
    assert!(before > 1_600_000_000_000_000_000 && before <= after);
    let n = u128::from_str_radix(id.strip_prefix("vc-").unwrap(), 16).unwrap();
    assert!((n + space - before % space) % space <= after - before);
}

#[test]
fn finds_the_first_entry_with_an_id() {
    let mut config = Config::default();
    config.vcenters = vec![entry("a", "one", "u"), entry("b", "two", "u"), entry("a", "three", "u")];
    assert_eq!(config.find("a").unwrap().host, "one");
    assert_eq!(config.find("b").unwrap().host, "two");
    assert!(config.find("c").is_none());
}

#[test]
fn origins_are_kept_once_in_one_form() {
    let text = r#"{"allowedOrigins":[" HTTPS://A.example/ ","https://a.example//","","///","https://b.example"]}"#;
    let config = config_of(text).normalized();
    assert_eq!(config.allowed_origins, vec!["https://a.example", "https://b.example"]);
    assert!(config.origin_allowed("https://A.EXAMPLE/"));
    assert!(!config.origin_allowed(" https://a.example"));
    assert!(!config.origin_allowed(""));
    assert!(!config.origin_allowed("/"));
    assert!(!config.allow_local_files);
}

#[test]
fn letter_case_and_slashes_do_not_decide() {
    let config = Config::default();
    for origin in ["https://dbh-insights.github.io", "HTTPS://DBH-Insights.GitHub.io", "https://dbh-insights.github.io//"] {
        assert!(config.origin_allowed(origin), "{origin}");
    }
    for origin in ["https://evil.github.io", "HTTPS://EVIL.github.io/", "NULL", "null/"] {
        assert!(!config.origin_allowed(origin), "{origin}");
    }
}

#[test]
fn settled_settings_stay_as_they_are() {
    let config = config_of(r#"{"vcenters":[{"id":"a","host":"one","username":"u"}],"port":9000}"#);
    let once = config.normalized_at(&vec![1, 2]);
    let twice = once.clone().normalized_at(&vec![3, 4]);
    assert_eq!(twice.vcenters[0].id, "a");
    assert_eq!(twice.vcenters[0].host, "one");
    assert_eq!(twice.port, 9000);
    assert_eq!(twice.allowed_origins, once.allowed_origins);
}

#[test]
fn a_file_without_settings_loads_as_the_default() {
    let config = Config::load(None);
    assert!(config.vcenters.is_empty());
    assert_eq!(config.allowed_origins.len(), 3);

    let read = Config::load(Some(config_of(r#"{"port":0,"allowedOrigins":["null"]}"#)));
    assert_eq!(read.port, 8765);
    assert!(read.allowed_origins.is_empty());
    assert!(read.allow_local_files);
}

#[test]
fn an_account_is_unused_once_no_entry_has_it() {
    let mut config = Config::default();
    config.vcenters = vec![entry("a", "vc", "u")];
    assert_eq!(config.unused_account(&entry("b", "vc", "u")), None);
    assert_eq!(config.unused_account(&entry("b", "vc", "v")), Some("v@vc".to_owned()));
}
