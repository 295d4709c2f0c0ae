use async_discord::middleware::PrefixMiddleware;

#[test]
fn prefix_middleware_lets_through_prefixed_messages_only() {
    let m = PrefixMiddleware::new("~ping");
    assert!(m.lets_through(Some("~ping")));
    assert!(m.lets_through(Some("~ping me")));
    assert!(!m.lets_through(Some("ping")));
    assert!(!m.lets_through(Some("")));
    assert!(!m.lets_through(None));
}

#[test]
fn empty_prefix_lets_every_message_through() {
    let m = PrefixMiddleware::new("");
    assert!(m.lets_through(Some("")));
    assert!(m.lets_through(Some("anything")));
    assert!(!m.lets_through(None));
}

#[test]
fn shorter_prefix_lets_through_what_a_longer_one_does() {
    let short = PrefixMiddleware::new("~");
    let long = PrefixMiddleware::new("~ping");
    for content in ["~ping", "~ping me", "~pong", "ping", ""] {
        if long.lets_through(Some(content)) {
            assert!(short.lets_through(Some(content)));
        }
    }
    assert!(short.lets_through(Some("~pong")));
    assert!(!long.lets_through(Some("~pong")));
}
