use board_toggler::error::{exit_status, CleanupWarning, Direction, ErrorKind};
use board_toggler::hex::hex_line;

#[test]
fn nothing_renders_as_nothing() {
    assert_eq!(hex_line(&[]), "");
}

#[test]
fn each_byte_is_two_digits_and_a_space() {
    assert_eq!(hex_line(&[0x00]), "00 ");
    assert_eq!(hex_line(&[0xff]), "ff ");
    assert_eq!(hex_line(&[0x0a]), "0a ");
    assert_eq!(hex_line(&[0xa0]), "a0 ");
}

#[test]
fn bytes_are_rendered_in_order() {
    assert_eq!(hex_line(&[0xab, 0x0f, 0xf0, 0x09, 0x10]), "ab 0f f0 09 10 ");
    assert_eq!(hex_line(&[0x02, 0x00, 0x00, 0x15]), "02 00 00 15 ");
}

#[test]
fn digits_are_lowercase() {
    assert_eq!(hex_line(&[0xAB, 0xCD, 0xEF]), "ab cd ef ");
}

#[test]
fn every_byte_value_renders_as_the_formatter_does() {
    for value in 0..=255u8 {
        assert_eq!(hex_line(&[value]), format!("{:02x} ", value));
    }
}

#[test]
fn a_full_response_is_three_characters_a_byte() {
    let mut response = [0u8; 64];
    for (i, byte) in response.iter_mut().enumerate() {
        *byte = (i as u8).wrapping_mul(37);
    }
    let text = hex_line(&response);
    assert_eq!(text.len(), 192);
    let mut expected = String::new();
    for byte in response.iter() {
        expected.push_str(&format!("{:02x} ", byte));
    }
    assert_eq!(text, expected);
    assert_eq!(hex_line(&response[..3]), "00 25 4a ");
}

#[test]
fn status_is_zero_without_an_error_and_one_with_any() {
    assert_eq!(exit_status(None), 0);
    for kind in all_errors() {
        assert_eq!(exit_status(Some(kind)), 1, "{:?}", kind);
    }
}

fn all_errors() -> [ErrorKind; 7] {
    [
        ErrorKind::Usage,
        ErrorKind::ContextInit,
        ErrorKind::DeviceNotFound,
        ErrorKind::DriverDetach,
        ErrorKind::InterfaceClaim,
        ErrorKind::Transfer(Direction::Write),
        ErrorKind::Transfer(Direction::Read),
    ]
}

#[test]
fn each_error_has_its_message() {
    assert_eq!(ErrorKind::Usage.message(), "Invalid action, expected 'on' or 'off'");
    assert_eq!(ErrorKind::ContextInit.message(), "Failed to initialize rusb");
    assert_eq!(ErrorKind::DeviceNotFound.message(), "Failed to open device");
    assert_eq!(ErrorKind::DriverDetach.message(), "Failed to detach kernel driver");
    assert_eq!(ErrorKind::InterfaceClaim.message(), "Failed to claim interface");
    assert_eq!(ErrorKind::Transfer(Direction::Write).message(), "Failed to send data");
    assert_eq!(ErrorKind::Transfer(Direction::Read).message(), "Failed to read response");
}

#[test]
fn each_warning_has_its_message() {
    assert_eq!(CleanupWarning::Release.message(), "Failed to release interface");
    assert_eq!(CleanupWarning::Reattach.message(), "Failed to reattach kernel driver");
}

#[test]
fn messages_tell_the_errors_apart() {
    let errors = all_errors();
    for (i, a) in errors.iter().enumerate() {
        for (j, b) in errors.iter().enumerate() {
            assert_eq!(a.message() == b.message(), i == j, "{:?} and {:?}", a, b);
        }
    }
}
