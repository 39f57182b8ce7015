use sdl_lifecycle::{error_text_to_c, ContextError, Error};

#[test]
fn error_text_with_nul_is_rejected() {
    let e = error_text_to_c("bad\0value").err().expect("NUL must be rejected");
    assert_eq!(e.nul_position(), 3);
}

#[test]
fn error_text_without_nul_is_terminated() {
    let buf = error_text_to_c("bad value").ok().unwrap();
    assert_eq!(buf, b"bad value\0".to_vec());
}

#[test]
fn empty_error_text_is_just_the_terminator() {
    assert_eq!(error_text_to_c("").ok().unwrap(), vec![0u8]);
}

#[test]
fn leading_nul_is_rejected_at_zero() {
    assert_eq!(error_text_to_c("\0").err().unwrap().nul_position(), 0);
}

#[test]
fn multibyte_error_text_keeps_its_bytes() {
    let buf = error_text_to_c("é!").ok().unwrap();
    assert_eq!(buf, vec![0xc3, 0xa9, b'!', 0]);
}

#[test]
fn error_codes() {
    assert_eq!(Error::NoMemError.code(), 0);
    assert_eq!(Error::ReadError.code(), 1);
    assert_eq!(Error::WriteError.code(), 2);
    assert_eq!(Error::SeekError.code(), 3);
    assert_eq!(Error::UnsupportedError.code(), 4);
}

#[test]
fn error_messages() {
    assert_eq!(
        ContextError::AlreadyInitialized.message(),
        "Cannot initialize `Sdl` more than once at a time."
    );
    assert_eq!(
        ContextError::AlreadyActive.message(),
        "an `EventPump` instance is already alive - there can only be one `EventPump` in use at a time."
    );
    assert_eq!(ContextError::Native("x".to_string()).message(), "x");
}
