use vstd::prelude::*;

use std::collections::HashMap;

use crate::error::Error;

verus! {

broadcast use vstd::std_specs::hash::group_hash_axioms;

/// The envelope that every record carries once the connection is up.
#[derive(Debug, PartialEq, Eq)]
pub struct UnilinkHeader {
    /// `true` for a request, `false` for a response.
    pub way: bool,
    /// The logical channel.
    pub tag: u8,
    /// The message type.
    pub kind: u16,
    /// The payload.
    pub data: String,
}

/// What the dispatch loop does with one inbound record.
#[derive(Debug, PartialEq, Eq)]
pub enum Action {
    /// Hand the raw record to the consumer registered for this tag.
    Deliver(u8),
    /// Send this header back on the same connection.
    Reply(UnilinkHeader),
    /// Nothing: the record is a response.
    Ignore,
    /// Tear the link down: the connection failed or sent garbage.
    Close,
}

/// The reply to a request on a tag that nobody serves: same tag, the
/// direction flipped, kind 0 and no payload.
pub open spec fn is_no_such_channel(reply: UnilinkHeader, request: UnilinkHeader) -> bool {
    &&& reply.way == !request.way
    &&& reply.tag == request.tag
    &&& reply.kind == 0
    &&& reply.data@ == Seq::<char>::empty()
}

/// Whether `r` is how a header is routed: a request on a served tag goes to
/// its consumer, a request on any other tag is answered with an empty
/// response, and a response is left alone.
pub open spec fn routed(served: bool, header: UnilinkHeader, r: Action) -> bool {
    if !header.way {
        r is Ignore
    } else if served {
        r == Action::Deliver(header.tag)
    } else {
        r matches Action::Reply(reply) && is_no_such_channel(reply, header)
    }
}

/// The reply to a request on a tag that nobody serves.
pub fn no_such_channel(request: &UnilinkHeader) -> (r: UnilinkHeader)
    ensures
        is_no_such_channel(r, *request),
{
    UnilinkHeader { way: !request.way, tag: request.tag, kind: 0, data: String::new() }
}

/// One peer's connection fanned out by tag: the consumer registered for
/// each tag, of whatever type the caller routes to.
pub struct Link<C> {
    tagged_io: HashMap<u8, C>,
}

impl<C> Link<C> {
    /// The registered consumers, by tag.
    pub closed spec fn consumers(&self) -> Map<u8, C> {
        self.tagged_io@
    }

    /// A link with no tag registered.
    pub fn new() -> (r: Link<C>)
        ensures
            r.consumers() == Map::<u8, C>::empty(),
    {
        Link { tagged_io: HashMap::new() }
    }

    /// Registers `io` for `tag` unless a consumer already serves it; says
    /// whether `io` was taken. Registering a tag twice keeps the first.
    pub fn register(&mut self, tag: u8, io: C) -> (r: bool)
        ensures
            r == !old(self).consumers().contains_key(tag),
            r ==> final(self).consumers() == old(self).consumers().insert(tag, io),
            !r ==> final(self).consumers() == old(self).consumers(),
    {
        if self.tagged_io.contains_key(&tag) {
            false
        } else {
            self.tagged_io.insert(tag, io);
            true
        }
    }

    /// Whether a consumer serves `tag`.
    pub fn is_registered(&self, tag: u8) -> (r: bool)
        ensures
            r == self.consumers().contains_key(tag),
    {
        self.tagged_io.contains_key(&tag)
    }

    /// The consumer registered for `tag`.
    pub fn consumer(&self, tag: u8) -> (r: Option<&C>)
        ensures
            self.consumers().contains_key(tag) ==> r == Some(&self.consumers()[tag]),
            !self.consumers().contains_key(tag) ==> r is None,
    {
        self.tagged_io.get(&tag)
    }

    /// Routes one inbound header.
    pub fn route(&self, header: &UnilinkHeader) -> (r: Action)
        ensures
            routed(self.consumers().contains_key(header.tag), *header, r),
    {
        if !header.way {
            Action::Ignore
        } else if self.tagged_io.contains_key(&header.tag) {
            Action::Deliver(header.tag)
        } else {
            Action::Reply(no_such_channel(header))
        }
    }

    /// One turn of the dispatch loop: a record that could not be received
    /// or decoded closes the link; a decoded header is routed.
    pub fn dispatch(&self, received: &Result<UnilinkHeader, Error>) -> (r: Action)
        ensures
            received is Err ==> r is Close,
            received matches Ok(h) ==> routed(self.consumers().contains_key(h.tag), *h, r),
    {
        match received {
            Ok(h) => self.route(h),
            Err(_) => Action::Close,
        }
    }
}

} // verus!
