use unilink::error::Error;
use unilink::link::{no_such_channel, Action, Link, UnilinkHeader};

fn header(way: bool, tag: u8, kind: u16, data: &str) -> UnilinkHeader {
    UnilinkHeader { way, tag, kind, data: data.to_string() }
}

#[test]
fn routing_scenario() {
    let mut link: Link<&str> = Link::new();
    assert!(link.register(5, "tag five"));
    let ping = header(true, 5, 1, "ping");
    assert_eq!(link.route(&ping), Action::Deliver(5));
    assert_eq!(link.consumer(5), Some(&"tag five"));
    let stray = header(true, 9, 1, "ping");
    assert_eq!(link.route(&stray), Action::Reply(header(false, 9, 0, "")));
    assert_eq!(link.consumer(9), None);
}

#[test]
fn register_is_idempotent() {
    let mut link: Link<u32> = Link::new();
    assert!(!link.is_registered(3));
    assert!(link.register(3, 30));
    assert!(!link.register(3, 31));
    assert_eq!(link.consumer(3), Some(&30));
    assert!(link.is_registered(3));
}

#[test]
fn responses_are_left_alone() {
    let mut link: Link<u32> = Link::new();
    link.register(5, 50);
    assert_eq!(link.route(&header(false, 5, 1, "pong")), Action::Ignore);
    assert_eq!(link.route(&header(false, 9, 1, "pong")), Action::Ignore);
}

#[test]
fn receive_failure_closes_the_link() {
    let link: Link<u32> = Link::new();
    assert_eq!(link.dispatch(&Err(Error::Crypto)), Action::Close);
    assert_eq!(link.dispatch(&Err(Error::Io)), Action::Close);
    assert_eq!(
        link.dispatch(&Ok(header(true, 2, 7, "x"))),
        Action::Reply(header(false, 2, 0, ""))
    );
}

#[test]
fn no_such_channel_flips_direction() {
    assert_eq!(no_such_channel(&header(true, 200, 65535, "data")), header(false, 200, 0, ""));
    assert_eq!(no_such_channel(&header(false, 0, 3, "")), header(true, 0, 0, ""));
}
