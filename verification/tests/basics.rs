use prim::error::Error;
use prim::layout::{FlexDirection, FlexWrap};

#[test]
fn error_messages() {
    assert_eq!(Error::Decode.message(), "Decode failed");
    assert_eq!(Error::Encode.message(), "Encode failed");
}

#[test]
fn layout_defaults() {
    assert_eq!(FlexDirection::default(), FlexDirection::Row);
    assert_eq!(FlexWrap::default(), FlexWrap::Wrap);
    assert_ne!(FlexWrap::Wrap, FlexWrap::NoWrap);
}
