use jsonsql::jsondoc::{is_readable, MAX_DIGIT_RUN};
use jsonsql::pool::options::{
    basic_pool_options, json_pool_options, pool_options_from_json, pool_options_from_members,
    OptionsError,
};

fn some(text: &str) -> Option<String> {
    Some(String::from(text))
}

fn member(name: &str, text: &str) -> (String, String) {
    (String::from(name), String::from(text))
}

#[test]
fn basic_options_with_everything_set() {
    let options = basic_pool_options("10.0.0.5", "shop", "ann", "secret", 3306);
    assert_eq!(options.hostname, some("10.0.0.5"));
    assert_eq!(options.port, Some(3306));
    assert_eq!(options.db_name, some("shop"));
    assert_eq!(options.user, some("ann"));
    assert_eq!(options.password, some("secret"));
    assert_eq!(options.socket, None);
}

#[test]
fn basic_options_leave_out_what_is_empty() {
    let options = basic_pool_options("", "", "", "", 0);
    assert_eq!(options.hostname, None);
    assert_eq!(options.port, None);
    assert_eq!(options.db_name, None);
    assert_eq!(options.user, None);
    assert_eq!(options.password, None);
    assert_eq!(options.socket, None);
    let options = basic_pool_options("", "shop", "", " ", 1);
    assert_eq!(options.hostname, None);
    assert_eq!(options.port, Some(1));
    assert_eq!(options.db_name, some("shop"));
    assert_eq!(options.user, None);
    assert_eq!(options.password, some(" "));
}

#[test]
fn json_options_with_everything_set() {
    let options = pool_options_from_json(
        "{\"hostname\": \"10.0.0.5\", \"port\": 3306, \"db\": \"shop\", \"user\": \"ann\", \
         \"password\": \"secret\", \"socket\": \"/tmp/mysql.sock\"}",
    )
    .unwrap();
    assert_eq!(options.hostname, some("10.0.0.5"));
    assert_eq!(options.port, Some(3306));
    assert_eq!(options.db_name, some("shop"));
    assert_eq!(options.user, some("ann"));
    assert_eq!(options.password, some("secret"));
    assert_eq!(options.socket, some("/tmp/mysql.sock"));
}

#[test]
fn json_options_of_a_text_known_to_be_good() {
    let options = json_pool_options("{\"hostname\": \"10.0.0.5\", \"port\": \"3307\"}");
    assert_eq!(options.hostname, some("10.0.0.5"));
    assert_eq!(options.port, Some(3307));
    assert_eq!(options.user, None);
}

#[test]
fn json_options_from_text_with_too_long_a_number() {
    assert_eq!(MAX_DIGIT_RUN, 32767);
    let text = format!("{{\"port\": 0.{}}}", "0".repeat(32768));
    assert_eq!(pool_options_from_json(&text).err(), Some(OptionsError::Unreadable));
    let text = format!("{{\"user\": \"{}\"}}", "7".repeat(32768));
    assert_eq!(pool_options_from_json(&text).err(), Some(OptionsError::Unreadable));
    let text = format!("{{\"user\": \"{}\"}}", "7".repeat(32767));
    assert_eq!(pool_options_from_json(&text).unwrap().user, Some("7".repeat(32767)));
}

#[test]
fn text_is_readable_up_to_the_longest_run_of_digits() {
    assert!(is_readable(""));
    assert!(is_readable("no digits"));
    assert!(is_readable(&"1".repeat(32767)));
    assert!(!is_readable(&"1".repeat(32768)));
    assert!(is_readable(&format!("{}a{}", "1".repeat(32767), "2".repeat(32767))));
    assert!(is_readable(&format!("{}{}{}", "1".repeat(20000), "\u{0663}", "2".repeat(20000))));
    assert!(!is_readable(&format!("x{}y", "0123456789".repeat(3277))));
}

#[test]
fn json_options_leave_out_what_is_missing_null_or_empty() {
    let options =
        pool_options_from_json("{\"hostname\": null, \"db\": \"\", \"user\": \"ann\"}").unwrap();
    assert_eq!(options.hostname, None);
    assert_eq!(options.port, None);
    assert_eq!(options.db_name, None);
    assert_eq!(options.user, some("ann"));
    assert_eq!(options.password, None);
    assert_eq!(options.socket, None);
}

#[test]
fn json_options_take_the_word_null_for_nothing() {
    let options = pool_options_from_json("{\"user\": \"null\", \"password\": \"Null\"}").unwrap();
    assert_eq!(options.user, None);
    assert_eq!(options.password, some("Null"));
}

#[test]
fn json_options_read_the_port_as_number_or_text() {
    assert_eq!(pool_options_from_json("{\"port\": \"3307\"}").unwrap().port, Some(3307));
    assert_eq!(pool_options_from_json("{\"port\": 0}").unwrap().port, Some(0));
    assert_eq!(pool_options_from_json("{\"port\": 65535}").unwrap().port, Some(65535));
    assert_eq!(pool_options_from_json("{\"port\": \"+0080\"}").unwrap().port, Some(80));
}

#[test]
fn json_options_with_a_port_that_is_none() {
    for text in [
        "{\"port\": 65536}",
        "{\"port\": -1}",
        "{\"port\": 3306.5}",
        "{\"port\": \"mysql\"}",
        "{\"port\": \" 3306\"}",
        "{\"port\": true}",
        "{\"port\": [3306]}",
        "{\"port\": {\"n\": 3306}}",
    ] {
        assert_eq!(pool_options_from_json(text).err(), Some(OptionsError::InvalidPort), "{}", text);
    }
}

#[test]
fn json_options_from_text_that_is_no_json() {
    for text in ["", "{", "hostname", "{\"port\": 3306", "{'port': 3306}"] {
        assert_eq!(pool_options_from_json(text).err(), Some(OptionsError::NotJson), "{}", text);
    }
}

#[test]
fn json_options_from_a_document_that_is_no_object() {
    for text in ["[]", "3306", "\"hostname\"", "null", "[{\"user\": \"ann\"}]"] {
        let options = pool_options_from_json(text).unwrap();
        assert_eq!(options.hostname, None);
        assert_eq!(options.port, None);
        assert_eq!(options.db_name, None);
        assert_eq!(options.user, None);
        assert_eq!(options.password, None);
        assert_eq!(options.socket, None);
    }
}

#[test]
fn json_options_show_values_that_are_no_strings_as_json_writes_them() {
    let options =
        pool_options_from_json("{\"user\": 42, \"password\": false, \"db\": [1, \"a\"]}").unwrap();
    assert_eq!(options.user, some("42"));
    assert_eq!(options.password, some("false"));
    assert_eq!(options.db_name, some("[1,\"a\"]"));
}

#[test]
fn options_from_members_take_the_first_of_a_name() {
    let members = vec![
        member("user", "ann"),
        member("other", "x"),
        member("user", "bob"),
        member("port", "12"),
    ];
    let options = pool_options_from_members(&members).unwrap();
    assert_eq!(options.user, some("ann"));
    assert_eq!(options.port, Some(12));
    assert_eq!(options.hostname, None);
}

#[test]
fn options_from_members_with_a_bad_port() {
    let members = vec![member("user", "ann"), member("port", "70000")];
    assert_eq!(pool_options_from_members(&members).err(), Some(OptionsError::InvalidPort));
    let members = vec![member("port", "null"), member("port", "70000")];
    assert_eq!(pool_options_from_members(&members).unwrap().port, None);
}
