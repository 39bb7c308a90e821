use dbh_insights_helper::config::{Config, VcenterEntry};
use dbh_insights_helper::listener::ServerStatus;
use dbh_insights_helper::settings::{
    check_general, commit, delete_vcenter, get_settings, opens_window, save_general, save_general_at, save_vcenter,
    save_vcenter_at, test_vcenter, GeneralSettings, PasswordAction, VcenterChange,
};

fn entry(id: &str, host: &str, username: &str) -> VcenterEntry {
    VcenterEntry {
        id: id.to_owned(),
        name: host.to_owned(),
        host: host.to_owned(),
        username: username.to_owned(),
        accept_invalid_certs: false,
    }
}

fn config(vcenters: Vec<VcenterEntry>) -> Config {
    Config { vcenters, ..Config::default() }
}

fn ids(config: &Config) -> Vec<&str> {
    config.vcenters.iter().map(|v| v.id.as_str()).collect()
}

fn saved(config: &Config, vcenter: VcenterEntry, typed: Option<&str>) -> VcenterChange {
    match save_vcenter_at(config, vcenter, typed.map(str::to_owned), 0x99) {
        Ok(change) => change,
        Err(message) => panic!("{message}"),
    }
}

#[test]
fn the_window_shows_which_passwords_are_saved() {
    let config = config(vec![entry("a", "one", "u"), entry("b", "two", "u"), entry("c", "three", "u")]);
    let stored = vec![Ok(Some("pw".to_owned())), Ok(None), Err("locked".to_owned())];
    let settings = get_settings(config, &stored, ServerStatus::idle(9000));
    let shown: Vec<(&str, bool)> =
        settings.vcenters.iter().map(|v| (v.entry.id.as_str(), v.has_password)).collect();
    assert_eq!(shown, vec![("a", true), ("b", false), ("c", false)]);
    assert_eq!(settings.port, 8765);
    assert_eq!(settings.allowed_origins.len(), 3);
    assert!(!settings.allow_local_files);
    assert_eq!(settings.server.port, 9000);
}

fn general(port: u16) -> GeneralSettings {
    GeneralSettings { port, allowed_origins: vec!["HTTPS://A/".to_owned()], allow_local_files: true }
}

#[test]
fn the_window_opens_where_nothing_is_configured() {
    assert!(opens_window(&Config::default()));
    assert!(!opens_window(&config(vec![entry("a", "one", "u")])));
}

#[test]
fn low_ports_are_refused() {
    let running = ServerStatus::idle(1023);
    for port in [0, 80, 1023] {
        assert_eq!(
            check_general(&general(port), &running),
            Err("Choose a port from 1024 to 65535.".to_owned())
        );
    }
    assert_eq!(check_general(&general(1024), &running), Ok(true));
    assert_eq!(check_general(&general(65535), &running), Ok(true));
}

#[test]
fn the_server_starts_again_only_where_it_has_to() {
    let mut running = ServerStatus::default();
    assert_eq!(check_general(&general(9000), &running), Ok(true));
    assert_eq!(running.start(9000, Ok(())), Ok(()));
    assert_eq!(check_general(&general(9000), &running), Ok(false));
    assert_eq!(check_general(&general(9001), &running), Ok(true));
    running.stop(9000, "gone");
    assert_eq!(check_general(&general(9000), &running), Ok(true));
}

#[test]
fn general_settings_keep_the_vcenters() {
    let before = config(vec![entry("a", "one", "u"), entry("b", "two", "u")]);
    for next in [
        save_general_at(&before, general(9000), &vec![1, 2]),
        save_general(&before, general(9000)),
    ] {
        assert_eq!(ids(&next), vec!["a", "b"]);
        assert_eq!(next.vcenters[1].host, "two");
        assert_eq!(next.port, 9000);
        assert_eq!(next.allowed_origins, vec!["https://a"]);
        assert!(next.allow_local_files);
    }
}

#[test]
fn a_failed_write_changes_nothing() {
    let mut current = config(vec![entry("a", "one", "u")]);
    let next = config(vec![]);
    assert_eq!(
        commit(&mut current, next.clone(), Err("disk full".to_owned())),
        Err("Could not write settings file: disk full".to_owned())
    );
    assert_eq!(ids(&current), vec!["a"]);
    assert_eq!(commit(&mut current, next, Ok(())), Ok(()));
    assert!(current.vcenters.is_empty());
}

#[test]
fn a_new_vcenter_is_added() {
    let before = config(vec![entry("a", "one", "u")]);
    let change = saved(&before, entry("", " https://two/ ", "admin"), Some("pw"));
    assert_eq!(change.id, "vc-99");
    assert_eq!(ids(&change.config), vec!["a", "vc-99"]);
    assert_eq!(change.config.vcenters[1].host, "two");
    assert_eq!(change.retired, None);
    match change.password {
        PasswordAction::Store(account, password) => {
            assert_eq!((account.as_str(), password.as_str()), ("admin@two", "pw"))
        }
        _ => panic!("not stored"),
    }
    // An id that is not there is not kept.
    let change = saved(&before, entry("gone", "two", "admin"), Some(""));
    assert_eq!(change.id, "vc-99");
    assert!(matches!(change.password, PasswordAction::Keep));
}

#[test]
fn a_vcenter_is_replaced_in_place() {
    let before = config(vec![entry("a", "one", "u"), entry("b", "two", "u"), entry("c", "three", "u")]);
    let change = saved(&before, VcenterEntry { name: "New".to_owned(), ..entry("b", "two", "u") }, None);
    assert_eq!(change.id, "b");
    assert_eq!(ids(&change.config), vec!["a", "b", "c"]);
    assert_eq!(change.config.vcenters[1].name, "New");
    assert_eq!(change.config.vcenters[2].host, "three");
    assert_eq!(change.retired, None);
    assert!(matches!(change.password, PasswordAction::Keep));
}

#[test]
fn a_changed_login_carries_its_password_over() {
    let before = config(vec![entry("a", "one", "u")]);
    let change = saved(&before, entry("a", "two", "u"), None);
    assert_eq!(change.retired, Some("u@one".to_owned()));
    match &change.password {
        PasswordAction::CarryOver(from, to) => assert_eq!((from.as_str(), to.as_str()), ("u@one", "u@two")),
        _ => panic!("not carried over"),
    }
    let change = change.loaded(Ok(Some("pw".to_owned())));
    match &change.password {
        PasswordAction::Store(account, password) => {
            assert_eq!((account.as_str(), password.as_str()), ("u@two", "pw"))
        }
        _ => panic!("not stored"),
    }
    match change.stored(Ok(())) {
        Ok(change) => {
            assert!(matches!(change.password, PasswordAction::Keep));
            assert_eq!(change.retired, Some("u@one".to_owned()));
            assert_eq!(change.config.vcenters[0].host, "two");
        }
        Err(message) => panic!("{message}"),
    }

    // Nothing to carry over.
    for stored in [Ok(None), Err("locked".to_owned())] {
        let change = saved(&before, entry("a", "two", "u"), None).loaded(stored);
        assert!(matches!(change.password, PasswordAction::Keep));
    }
    // A new password is kept as it is.
    let change = saved(&before, entry("a", "two", "u"), Some("new")).loaded(Ok(Some("pw".to_owned())));
    match change.password {
        PasswordAction::Store(_, password) => assert_eq!(password, "new"),
        _ => panic!("not stored"),
    }
}

#[test]
fn a_password_that_cannot_be_kept_stops_the_change() {
    let change = saved(&config(vec![]), entry("", "one", "u"), Some("pw"));
    match change.stored(Err("locked".to_owned())) {
        Err(message) => assert_eq!(message, "Could not save the password to the OS keychain: locked"),
        Ok(_) => panic!("kept"),
    }
}

#[test]
fn passwords_in_use_are_not_deleted() {
    let shared = config(vec![entry("a", "one", "u"), entry("b", "one", "u")]);
    assert_eq!(saved(&shared, entry("a", "two", "u"), None).retired, None);
    assert_eq!(delete_vcenter(&shared, "a".to_owned()).unwrap().retired, None);
    let single = config(vec![entry("a", "one", "u")]);
    assert_eq!(delete_vcenter(&single, "a".to_owned()).unwrap().retired, Some("u@one".to_owned()));
}

#[test]
fn incomplete_vcenters_are_refused() {
    for vcenter in [entry("", "https://", "u"), entry("", "one", "  ")] {
        match save_vcenter_at(&config(vec![]), vcenter, None, 1) {
            Err(message) => assert_eq!(message, "Address and username are required."),
            Ok(_) => panic!("saved"),
        }
    }
}

#[test]
fn saving_by_the_clock_gives_a_free_id() {
    let mut current = config(vec![]);
    for _ in 0..5 {
        let change = save_vcenter(&current, entry("", "one", "u"), None);
        let change = change.unwrap_or_else(|message| panic!("{message}"));
        assert!(current.find(&change.id).is_none());
        current = change.config;
    }
    assert_eq!(current.vcenters.len(), 5);
}

#[test]
fn deleting_undoes_adding() {
    let before = config(vec![entry("a", "one", "u"), entry("b", "two", "u")]);
    let added = saved(&before, entry("", "three", "u"), None);
    let deleted = delete_vcenter(&added.config, added.id).unwrap();
    assert_eq!(ids(&deleted.config), vec!["a", "b"]);
    assert!(delete_vcenter(&deleted.config, "vc-99".to_owned()).is_none());
    let middle = delete_vcenter(&before, "a".to_owned()).unwrap();
    assert_eq!((middle.id.as_str(), ids(&middle.config)), ("a", vec!["b"]));
    assert!(matches!(middle.password, PasswordAction::Keep));
}

#[test]
fn only_a_vcenter_that_is_there_is_tested() {
    let config = config(vec![entry("a", "one", "u")]);
    assert_eq!(test_vcenter(&config, "a").unwrap().host, "one");
    assert_eq!(test_vcenter(&config, "b").unwrap_err(), "That vCenter no longer exists.");
}
