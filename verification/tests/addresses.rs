use jsonsql::pool::address::{is_numeric, parse_dotted_quad, AddressError, TCP_TEST_PORT};
use jsonsql::pool::conntest::{Action, ConnectionError, State, TargetAddress};
use jsonsql::pool::timeout::Timeout;
use jsonsql::pool::{begin_tcp_test, pool_failure_message};

#[test]
fn dotted_quad_of_four_numbers() {
    assert_eq!(parse_dotted_quad("127.0.0.1"), Ok([127, 0, 0, 1]));
    assert_eq!(parse_dotted_quad("10.255.255.1"), Ok([10, 255, 255, 1]));
    assert_eq!(parse_dotted_quad("0.0.0.0"), Ok([0, 0, 0, 0]));
    assert_eq!(parse_dotted_quad("255.255.255.255"), Ok([255, 255, 255, 255]));
}

#[test]
fn dotted_quad_allows_plus_and_leading_zeros() {
    assert_eq!(parse_dotted_quad("+1.02.003.0004"), Ok([1, 2, 3, 4]));
    assert_eq!(parse_dotted_quad("0000000000000000000000255.0.0.1"), Ok([255, 0, 0, 1]));
}

#[test]
fn dotted_quad_with_the_wrong_number_of_pieces() {
    assert_eq!(parse_dotted_quad("1.2.3"), Err(AddressError::WrongComponentCount));
    assert_eq!(parse_dotted_quad("1.2.3.4.5"), Err(AddressError::WrongComponentCount));
    assert_eq!(parse_dotted_quad("1"), Err(AddressError::WrongComponentCount));
}

#[test]
fn dotted_quad_with_a_piece_that_is_no_octet() {
    let invalid = [
        "",
        ".",
        "1.2.3.",
        ".1.2.3",
        "1..2.3",
        "1.2.3.256",
        "1.2.3.4294967297",
        "1.2.3.-4",
        "1.2.3.+",
        "1.2.3.++4",
        "a.b.c.d",
        "localhost",
        " 1.2.3.4",
        "1.2.3.4 ",
        "1.2 .3.4",
        "1.2.3.4\n",
        "1.2.3.0x4",
        "\u{0663}.1.1.1",
        "1.2.3.4.x",
        "x",
    ];
    for host in invalid {
        assert_eq!(parse_dotted_quad(host), Err(AddressError::InvalidComponent), "{:?}", host);
    }
}

#[test]
fn address_errors_as_text() {
    assert_eq!(
        AddressError::WrongComponentCount.message(),
        "Invalid tcp address: wrong number of integer breaks"
    );
    assert_eq!(
        AddressError::InvalidComponent.message(),
        "Invalid tcp address: not an integer from 0 to 255"
    );
}

#[test]
fn host_is_numeric_where_every_piece_is_an_octet() {
    for host in ["192.168.1.20", "1.2.3", "1", "1.2.3.4.5", "+1.02.3.4"] {
        assert!(is_numeric(host), "{:?}", host);
    }
    for host in ["localhost", "db.example.org", "", "1.2.3.", "1.2.3.256", " 1.2.3.4"] {
        assert!(!is_numeric(host), "{:?}", host);
    }
}

#[test]
fn tcp_test_begins_an_attempt() {
    assert_eq!(TCP_TEST_PORT, 20133);
    let (attempt, action) = begin_tcp_test("192.168.1.20", 5).unwrap();
    assert_eq!(action, Action::OpenSocket);
    assert_eq!(attempt.state, State::Opening);
    assert_eq!(attempt.target, TargetAddress { octets: [192, 168, 1, 20], port: 20133 });
    assert_eq!(attempt.timeout, Timeout { secs: 5, nanos: 0 });
}

#[test]
fn tcp_test_is_not_begun_without_four_pieces() {
    assert_eq!(begin_tcp_test("1.2.3", 5).err(), Some(AddressError::WrongComponentCount));
    assert_eq!(begin_tcp_test("1.2.3.4.5", 5).err(), Some(AddressError::WrongComponentCount));
    assert_eq!(
        AddressError::WrongComponentCount.message(),
        "Invalid tcp address: wrong number of integer breaks"
    );
}

#[test]
fn every_error_gives_the_same_message_to_the_user() {
    let text = "TCP Pool Connection Invalid. Review credentials.";
    assert_eq!(pool_failure_message(&ConnectionError::OsError(24)), text);
    assert_eq!(pool_failure_message(&ConnectionError::SocketError(111)), text);
    assert_eq!(pool_failure_message(&ConnectionError::ReadinessTimeout), text);
}
