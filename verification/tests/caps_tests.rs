use gifterm::NegotiationError;
use gifterm::TermCapability;
use gifterm::cap_token;
use gifterm::caps_line;
use gifterm::negotiate;

#[test]
fn negotiate_with_answer_succeeds() {
    let reported = vec![TermCapability::Kitty, TermCapability::CellSize(8, 16)];
    let caps = negotiate(Some(reported.clone())).unwrap();
    assert_eq!(caps, reported);
}

#[test]
fn negotiate_without_answer_fails() {
    let r = negotiate(None);
    assert_eq!(r.unwrap_err(), NegotiationError::NoResponse);
}

#[test]
fn tokens_name_each_capability() {
    assert_eq!(cap_token(&TermCapability::Kitty), "kitty");
    assert_eq!(cap_token(&TermCapability::Sixel), "sixel");
    assert_eq!(cap_token(&TermCapability::RectangularOps), "rectangular-ops");
    assert_eq!(cap_token(&TermCapability::KittyCompression), "kitty-compression");
    assert_eq!(cap_token(&TermCapability::CellSize(8, 16)), "cell-size");
    assert_eq!(cap_token(&TermCapability::CellSizeUnknown), "cell-size");
    assert_eq!(cap_token(&TermCapability::TextSizingProtocol), "text-sizing");
    assert_eq!(cap_token(&TermCapability::Background(0, 0, 0)), "background");
}

#[test]
fn caps_line_joins_tokens_in_order() {
    let caps = vec![
        TermCapability::Kitty,
        TermCapability::Sixel,
        TermCapability::Background(1, 2, 3),
    ];
    assert_eq!(caps_line(&caps), "kitty sixel background ");
}

#[test]
fn caps_line_of_nothing_is_empty() {
    let caps: Vec<TermCapability> = Vec::new();
    assert_eq!(caps_line(&caps), "");
}
