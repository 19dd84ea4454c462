//! A connected client: its byte stream and what it negotiated.
use vstd::prelude::*;

verus! {

/// One client connection over a byte stream of type `T`.
#[derive(Debug)]
pub struct Client<T> {
    stream: T,
    structured_reply: bool,
    no_zeroes: bool,
    addr: String,
}

impl<T> Client<T> {
    pub closed spec fn spec_stream(&self) -> T {
        self.stream
    }

    pub closed spec fn spec_structured_reply(&self) -> bool {
        self.structured_reply
    }

    pub closed spec fn spec_no_zeroes(&self) -> bool {
        self.no_zeroes
    }

    pub closed spec fn spec_addr(&self) -> Seq<char> {
        self.addr@
    }

    /// A fresh session: nothing negotiated yet.
    pub fn new(stream: T, addr: String) -> (r: Self)
        ensures
            r.spec_stream() == stream,
            r.spec_addr() == addr@,
            !r.spec_structured_reply(),
            !r.spec_no_zeroes(),
    {
        Client { stream, structured_reply: false, no_zeroes: false, addr }
    }

    pub fn addr(&self) -> (r: &str)
        ensures
            r@ == self.spec_addr(),
    {
        self.addr.as_str()
    }

    /// The underlying stream, for reading and writing.
    pub fn stream(&mut self) -> (r: &mut T)
        ensures
            *r == old(self).spec_stream(),
            final(self).spec_stream() == *final(r),
            final(self).spec_addr() == old(self).spec_addr(),
            final(self).spec_structured_reply() == old(self).spec_structured_reply(),
            final(self).spec_no_zeroes() == old(self).spec_no_zeroes(),
    {
        &mut self.stream
    }

    pub fn structured_reply(&self) -> (r: bool)
        ensures
            r == self.spec_structured_reply(),
    {
        self.structured_reply
    }

    pub fn set_structured_reply(&mut self, enabled: bool)
        ensures
            final(self).spec_structured_reply() == enabled,
            final(self).spec_no_zeroes() == old(self).spec_no_zeroes(),
            final(self).spec_stream() == old(self).spec_stream(),
            final(self).spec_addr() == old(self).spec_addr(),
    {
        self.structured_reply = enabled;
    }

    pub fn no_zeroes(&self) -> (r: bool)
        ensures
            r == self.spec_no_zeroes(),
    {
        self.no_zeroes
    }

    pub fn set_no_zeroes(&mut self, enabled: bool)
        ensures
            final(self).spec_no_zeroes() == enabled,
            final(self).spec_structured_reply() == old(self).spec_structured_reply(),
            final(self).spec_stream() == old(self).spec_stream(),
            final(self).spec_addr() == old(self).spec_addr(),
    {
        self.no_zeroes = enabled;
    }
}

} // verus!
