use noiseplayer::pidfile::PidError;
use noiseplayer::pidfile::parse_pid;
use noiseplayer::pidfile::pid_to_bytes;

#[test]
fn parses_plain_decimal() {
    assert_eq!(parse_pid(b"12345", 1), Ok(12345));
}

#[test]
fn parses_with_surrounding_whitespace() {
    assert_eq!(parse_pid(b" \t42\n", 1), Ok(42));
    assert_eq!(parse_pid(b"42\r\n", 1), Ok(42));
}

#[test]
fn parses_leading_zeros() {
    assert_eq!(parse_pid(b"007", 1), Ok(7));
}

#[test]
fn parses_explicit_plus_sign() {
    assert_eq!(parse_pid(b"+7", 1), Ok(7));
}

#[test]
fn rejects_empty_and_blank() {
    assert_eq!(parse_pid(b"", 1), Err(PidError::NotNumeric));
    assert_eq!(parse_pid(b"  \n", 1), Err(PidError::NotNumeric));
}

#[test]
fn rejects_non_numeric() {
    assert_eq!(parse_pid(b"abc", 1), Err(PidError::NotNumeric));
    assert_eq!(parse_pid(b"12a", 1), Err(PidError::NotNumeric));
    assert_eq!(parse_pid(b"1 2", 1), Err(PidError::NotNumeric));
    assert_eq!(parse_pid(b"+", 1), Err(PidError::NotNumeric));
    assert_eq!(parse_pid(b"-", 1), Err(PidError::NotNumeric));
    assert_eq!(parse_pid(b"++3", 1), Err(PidError::NotNumeric));
}

#[test]
fn rejects_non_positive() {
    assert_eq!(parse_pid(b"0", 1), Err(PidError::NotPositive));
    assert_eq!(parse_pid(b"-5", 1), Err(PidError::NotPositive));
    assert_eq!(parse_pid(b"+0", 1), Err(PidError::NotPositive));
    assert_eq!(parse_pid(b"-2147483648", 1), Err(PidError::NotPositive));
}

#[test]
fn rejects_out_of_range() {
    assert_eq!(parse_pid(b"2147483648", 1), Err(PidError::OutOfRange));
    assert_eq!(parse_pid(b"99999999999999999999", 1), Err(PidError::OutOfRange));
    assert_eq!(parse_pid(b"-99999999999", 1), Err(PidError::OutOfRange));
}

#[test]
fn accepts_largest_pid() {
    assert_eq!(parse_pid(b"2147483647", 1), Ok(2147483647));
}

#[test]
fn rejects_own_pid() {
    assert_eq!(parse_pid(b"42", 42), Err(PidError::OwnPid));
    assert_eq!(parse_pid(b" 42 ", 42), Err(PidError::OwnPid));
}

#[test]
fn renders_decimal_text() {
    assert_eq!(pid_to_bytes(1), b"1".to_vec());
    assert_eq!(pid_to_bytes(507), b"507".to_vec());
    assert_eq!(pid_to_bytes(2147483647), b"2147483647".to_vec());
}

#[test]
fn record_round_trips() {
    for pid in [1, 9, 10, 99, 1000, 65537, 2147483647] {
        let record = pid_to_bytes(pid);
        assert_eq!(parse_pid(&record, 2), Ok(pid));
    }
    assert_eq!(parse_pid(&pid_to_bytes(42), 42), Err(PidError::OwnPid));
}
