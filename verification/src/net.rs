//! IPv4 addresses and socket addresses, as plain values.
use vstd::prelude::*;
use crate::text::{decimal, push_decimal};

verus! {

/// An IPv4 address `a.b.c.d` by its four octets, most significant first.
#[derive(Debug, Clone, Copy, PartialEq, Eq, Structural)]
pub struct Ipv4Addr {
    pub a: u8,
    pub b: u8,
    pub c: u8,
    pub d: u8,
}

/// An IPv4 address with a port.
#[derive(Debug, Clone, Copy, PartialEq, Eq, Structural)]
pub struct SocketAddrV4 {
    pub ip: Ipv4Addr,
    pub port: u16,
}

/// The dotted-decimal text of an address, `a.b.c.d`.
pub open spec fn ipv4_text(ip: Ipv4Addr) -> Seq<char> {
    decimal(ip.a as nat) + seq!['.'] + decimal(ip.b as nat) + seq!['.'] + decimal(ip.c as nat)
        + seq!['.'] + decimal(ip.d as nat)
}

/// The text of a socket address, `a.b.c.d:port`.
pub open spec fn socket_text(addr: SocketAddrV4) -> Seq<char> {
    ipv4_text(addr.ip) + seq![':'] + decimal(addr.port as nat)
}

impl Ipv4Addr {
    /// The address `a.b.c.d`.
    pub fn new(a: u8, b: u8, c: u8, d: u8) -> (ip: Ipv4Addr)
        ensures
            ip == (Ipv4Addr { a, b, c, d }),
    {
        Ipv4Addr { a, b, c, d }
    }

    /// Appends the dotted-decimal text of the address to `out`.
    pub fn push_text(&self, out: &mut String)
        ensures
            final(out)@ == old(out)@ + ipv4_text(*self),
    {
        proof {
            reveal_strlit(".");
        }
        let ghost start = out@;
        push_decimal(out, self.a as u64);
        out.append(".");
        push_decimal(out, self.b as u64);
        out.append(".");
        push_decimal(out, self.c as u64);
        out.append(".");
        push_decimal(out, self.d as u64);
        assert(out@ =~= start + ipv4_text(*self));
    }

    /// The dotted-decimal text of the address.
    pub fn to_text(&self) -> (s: String)
        ensures
            s@ == ipv4_text(*self),
    {
        let mut s = String::new();
        self.push_text(&mut s);
        assert(s@ =~= ipv4_text(*self));
        s
    }
}

impl SocketAddrV4 {
    /// The address `ip:port`.
    pub fn new(ip: Ipv4Addr, port: u16) -> (a: SocketAddrV4)
        ensures
            a.ip == ip,
            a.port == port,
    {
        SocketAddrV4 { ip, port }
    }

    /// Replaces the port.
    pub fn set_port(&mut self, port: u16)
        ensures
            final(self).ip == old(self).ip,
            final(self).port == port,
    {
        self.port = port;
    }

    /// Appends `a.b.c.d:port` to `out`.
    pub fn push_text(&self, out: &mut String)
        ensures
            final(out)@ == old(out)@ + socket_text(*self),
    {
        proof {
            reveal_strlit(":");
        }
        let ghost start = out@;
        self.ip.push_text(out);
        out.append(":");
        push_decimal(out, self.port as u64);
        assert(out@ =~= start + socket_text(*self));
    }

    /// The text `a.b.c.d:port`.
    pub fn to_text(&self) -> (s: String)
        ensures
            s@ == socket_text(*self),
    {
        let mut s = String::new();
        self.push_text(&mut s);
        assert(s@ =~= socket_text(*self));
        s
    }
}

} // verus!
