use types_editor::remote::{is_dir, RemoteConfig, RemoteForm};
use types_editor::text::{decimal_string, str_equal};

#[test]
fn decimal_of_small_and_large_numbers() {
    assert_eq!(decimal_string(0), "0");
    assert_eq!(decimal_string(7), "7");
    assert_eq!(decimal_string(10), "10");
    assert_eq!(decimal_string(409), "409");
    assert_eq!(decimal_string(65535), "65535");
    assert_eq!(decimal_string(usize::MAX), usize::MAX.to_string());
}

#[test]
fn str_equal_compares_characters() {
    assert!(str_equal("type", "type"));
    assert!(!str_equal("type", "types"));
    assert!(!str_equal("", "x"));
    assert!(str_equal("", ""));
}

fn form() -> RemoteForm {
    RemoteForm::new(&RemoteConfig::fallback(String::from("ops")))
}

#[test]
fn form_starts_from_the_fallback_settings() {
    let form = form();
    assert_eq!(form.host, "");
    assert_eq!(form.user, "ops");
    assert_eq!(form.port, "22");
    assert_eq!(form.password, "");
    assert_eq!(form.key_path, "");
    assert_eq!(form.passphrase, "");
    assert_eq!(form.field_index, 0);
}

#[test]
fn form_lines_wrap_in_both_directions() {
    let mut form = form();
    form.prev_field();
    assert_eq!(form.field_index, 5);
    form.next_field();
    assert_eq!(form.field_index, 0);
    form.next_field();
    form.next_field();
    assert_eq!(form.field_index, 2);
    form.prev_field();
    assert_eq!(form.field_index, 1);
}

#[test]
fn typing_goes_to_the_active_line() {
    let mut form = form();
    form.push_char('h');
    form.push_char('q');
    assert_eq!(form.host, "hq");
    form.next_field();
    form.pop_char();
    assert_eq!(form.user, "op");
    form.next_field();
    form.pop_char();
    form.pop_char();
    form.pop_char();
    assert_eq!(form.port, "");
    form.push_char('8');
    assert_eq!(form.port, "8");
    form.next_field();
    form.push_char('s');
    assert_eq!(form.password, "s");
    form.next_field();
    form.push_char('k');
    assert_eq!(form.key_path, "k");
    form.next_field();
    form.push_char('p');
    assert_eq!(form.passphrase, "p");
    assert_eq!(form.host, "hq");
}

#[test]
fn active_line_of_an_index_beyond_the_last_is_the_host() {
    let mut form = form();
    form.field_index = 9;
    form.active_mut().push('x');
    assert_eq!(form.host, "x");
}

#[test]
fn config_of_a_form_reads_the_port_and_drops_empty_lines() {
    let mut form = form();
    form.host = String::from("example.org");
    form.port = String::from("8022");
    form.password = String::from("secret");
    let config = form.to_config();
    assert_eq!(
        config,
        RemoteConfig {
            host: String::from("example.org"),
            port: 8022,
            username: String::from("ops"),
            password: Some(String::from("secret")),
            key_path: None,
            passphrase: None,
        }
    );
}

#[test]
fn config_of_a_form_falls_back_to_port_22() {
    let mut form = form();
    form.port = String::from("not a port");
    assert_eq!(form.to_config().port, 22);
    form.port = String::from("70000");
    assert_eq!(form.to_config().port, 22);
    form.port = String::new();
    assert_eq!(form.to_config().port, 22);
}

#[test]
fn settings_from_values_need_host_and_user() {
    let text = |s: &str| Some(s.to_string());
    assert_eq!(RemoteConfig::from_values(None, text("u"), None, None, None, None), None);
    assert_eq!(RemoteConfig::from_values(text("h"), None, None, None, None, None), None);
    assert_eq!(
        RemoteConfig::from_values(text("h"), text("u"), None, None, None, None),
        Some(RemoteConfig {
            host: String::from("h"),
            port: 22,
            username: String::from("u"),
            password: None,
            key_path: None,
            passphrase: None,
        })
    );
    assert_eq!(
        RemoteConfig::from_values(text("h"), text("u"), text("2222"), text("pw"), text("/k"), text("pp")),
        Some(RemoteConfig {
            host: String::from("h"),
            port: 2222,
            username: String::from("u"),
            password: text("pw"),
            key_path: text("/k"),
            passphrase: text("pp"),
        })
    );
    assert_eq!(
        RemoteConfig::from_values(text("h"), text("u"), text("x"), None, None, None).map(|c| c.port),
        Some(22)
    );
}

#[test]
fn form_from_settings_writes_the_port_in_decimal() {
    let config = RemoteConfig {
        host: String::from("h"),
        port: 2222,
        username: String::from("u"),
        password: Some(String::from("pw")),
        key_path: Some(String::from("/home/u/.ssh/id")),
        passphrase: None,
    };
    let form = RemoteForm::new(&config);
    assert_eq!(form.port, "2222");
    assert_eq!(form.password, "pw");
    assert_eq!(form.key_path, "/home/u/.ssh/id");
    assert_eq!(form.passphrase, "");
    assert_eq!(form.to_config(), config);
}

#[test]
fn directory_bit_of_the_mode() {
    assert!(is_dir(Some(0o040755)));
    assert!(!is_dir(Some(0o100644)));
    assert!(!is_dir(Some(0o120777)));
    assert!(!is_dir(None));
}
