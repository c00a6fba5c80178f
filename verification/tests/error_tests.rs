use witx_lowering::error::{message_around, Error};

#[test]
fn io_error_is_io() {
    let e = Error::from(std::io::Error::new(std::io::ErrorKind::NotFound, "missing"));
    assert!(matches!(e, Error::Io(_)));
    assert!(e.message().starts_with("Io("));
    assert!(e.message().ends_with(")"));
    assert!(e.message().contains("missing"));
}

#[test]
fn witx_error_is_witx() {
    let refused = witx::parse("(typename $a").err().expect("an unbalanced definition is refused");
    let e = Error::from(refused);
    assert!(matches!(e, Error::Witx0_9(_)));
    assert!(e.message().starts_with("Witx0_9("));
    assert!(e.message().ends_with(")"));
}

#[test]
fn witnext_error_is_witnext() {
    let refused = witnext::WitxError::Io(
        std::path::PathBuf::from("a.witx"),
        std::io::Error::new(std::io::ErrorKind::NotFound, "missing"),
    );
    let e = Error::from(refused);
    assert!(matches!(e, Error::Witnext(_)));
    assert!(e.message().starts_with("Witnext("));
    assert!(e.message().ends_with(")"));
    assert!(e.message().contains("a.witx"));
}

#[test]
fn message_around_a_detail() {
    assert_eq!(message_around("Io", "x"), "Io(x)");
    assert_eq!(message_around("Witnext", "Parse(..)"), "Witnext(Parse(..))");
    assert_eq!(message_around("", ""), "()");
}

#[test]
fn message_is_the_debug_text() {
    let e = Error::from(std::io::Error::new(std::io::ErrorKind::NotFound, "missing"));
    assert_eq!(e.message(), format!("{:?}", e));
    let inner = format!("{:?}", std::io::Error::new(std::io::ErrorKind::NotFound, "missing"));
    assert_eq!(e.message(), format!("Io({})", inner));

    let refused = witx::parse("(typename $a").err().expect("an unbalanced definition is refused");
    let e = Error::from(refused);
    assert_eq!(e.message(), format!("{:?}", e));

    let refused = witnext::parse("(module $m (typename $a").err().expect("refused");
    let e = Error::from(refused);
    assert_eq!(e.message(), format!("{:?}", e));
}
