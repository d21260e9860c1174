//! The "h1,h2,h3,h4,p1,p2" form of an IPv4 address and port, used by PORT and
//! by the reply to PASV.
use vstd::prelude::*;

use crate::text::{
    decimal, join, lacks, lemma_decimal, lemma_digits_lack, lemma_join_lacks,
    lemma_parse_byte_decimal, lemma_split_join, parse_byte,
    parse_u8, push_decimal, split, split_str,
};

verus! {

/// An IPv4 address and a port.
#[derive(Clone, Copy, Debug, PartialEq, Eq)]
pub struct HostPort {
    pub ip: [u8; 4],
    pub port: u16,
}

/// The text was not six comma-separated decimal bytes.
#[derive(Clone, Copy, Debug, PartialEq, Eq)]
pub struct ParseHostPortError {}

/// The high byte of a port.
pub open spec fn port_hi(port: u16) -> u8 {
    (port / 256) as u8
}

/// The low byte of a port.
pub open spec fn port_lo(port: u16) -> u8 {
    (port % 256) as u8
}

impl View for HostPort {
    /// The six bytes of the textual form: four of the address, then the port's
    /// high and low byte.
    type V = Seq<u8>;

    open spec fn view(&self) -> Seq<u8> {
        self.ip@ + seq![port_hi(self.port), port_lo(self.port)]
    }
}

/// The textual form of six bytes.
pub open spec fn hostport_text(b: Seq<u8>) -> Seq<char> {
    join(b.map_values(|x: u8| decimal(x as nat)), ',')
}

/// The six bytes that a text denotes, if it is exactly six decimal bytes
/// separated by commas.
pub open spec fn parse_hostport(s: Seq<char>) -> Option<Seq<u8>> {
    let f = split(s, ',');
    if f.len() == 6 && forall|i: int| 0 <= i < 6 ==> (#[trigger] parse_byte(f[i])).is_some() {
        Some(f.map_values(|x: Seq<char>| parse_byte(x).unwrap()))
    } else {
        None
    }
}

/// Six bytes written out read back as the same bytes, and their text has no space.
pub proof fn lemma_hostport_text(b: Seq<u8>)
    requires
        b.len() == 6,
    ensures
        parse_hostport(hostport_text(b)) == Some(b),
        lacks(hostport_text(b), ' '),
{
    let parts = b.map_values(|x: u8| decimal(x as nat));
    assert forall|i: int| 0 <= i < parts.len() implies lacks(#[trigger] parts[i], ',') && lacks(
        parts[i],
        ' ',
    ) by {
        lemma_decimal(b[i] as nat);
        lemma_digits_lack(parts[i], ',');
        lemma_digits_lack(parts[i], ' ');
    }
    lemma_join_lacks(parts, ',', ' ');
    lemma_split_join(parts, ',');
    let f = split(hostport_text(b), ',');
    assert(f == parts);
    assert forall|i: int| 0 <= i < 6 implies #[trigger] parse_byte(f[i]) == Some(b[i]) by {
        lemma_parse_byte_decimal(b[i]);
    }
    assert(f.map_values(|x: Seq<char>| parse_byte(x).unwrap()) =~= b);
}

/// Reading the textual form of a host-port gives back the same host-port.
pub proof fn lemma_hostport_round_trip(hp: HostPort)
    ensures
        parse_hostport(hostport_text(hp@)) == Some(hp@),
{
    lemma_hostport_text(hp@);
}

/// Six pieces joined with `c`, written out.
pub proof fn lemma_join6(parts: Seq<Seq<char>>, c: char)
    requires
        parts.len() == 6,
    ensures
        join(parts, c) == parts[0] + seq![c] + parts[1] + seq![c] + parts[2] + seq![c] + parts[3]
            + seq![c] + parts[4] + seq![c] + parts[5],
{
    let rest1 = parts.drop_first();
    let rest2 = rest1.drop_first();
    let rest3 = rest2.drop_first();
    let rest4 = rest3.drop_first();
    let rest5 = rest4.drop_first();
    assert(join(rest5, c) == parts[5]);
    assert(join(rest4, c) == parts[4] + seq![c] + join(rest5, c));
    assert(join(rest3, c) == parts[3] + seq![c] + join(rest4, c));
    assert(join(rest2, c) == parts[2] + seq![c] + join(rest3, c));
    assert(join(rest1, c) == parts[1] + seq![c] + join(rest2, c));
    assert(join(parts, c) == parts[0] + seq![c] + join(rest1, c));
    assert(join(parts, c) =~= parts[0] + seq![c] + parts[1] + seq![c] + parts[2] + seq![c]
        + parts[3] + seq![c] + parts[4] + seq![c] + parts[5]);
}

impl HostPort {
    pub fn new(ip: [u8; 4], port: u16) -> (r: HostPort)
        ensures
            r.ip == ip,
            r.port == port,
    {
        HostPort { ip, port }
    }

    /// The loopback address with port zero.
    pub fn default() -> (r: HostPort)
        ensures
            r.ip@ == seq![127u8, 0, 0, 1],
            r.port == 0,
    {
        let r = HostPort { ip: [127, 0, 0, 1], port: 0 };
        assert(r.ip@ =~= seq![127u8, 0, 0, 1]);
        r
    }

    /// Reads "h1,h2,h3,h4,p1,p2": exactly six decimal numbers of at most 255,
    /// separated by commas; the port is `p1 * 256 + p2`.
    pub fn from_str(s: &str) -> (r: Result<HostPort, ParseHostPortError>)
        ensures
            match r {
                Ok(hp) => parse_hostport(s@) == Some(hp@),
                Err(_) => parse_hostport(s@).is_none(),
            },
    {
        let fields = split_str(s, ',');
        let ghost f = split(s@, ',');
        assert(fields@.len() == f.len());
        if fields.len() != 6 {
            return Err(ParseHostPortError {});
        }
        let mut bytes: Vec<u8> = Vec::new();
        let mut i: usize = 0;
        while i < 6
            invariant
                fields@.len() == 6,
                fields@.map_values(|p: String| p@) == f,
                f == split(s@, ','),
                i <= 6,
                bytes@.len() == i,
                forall|k: int| 0 <= k < i ==> #[trigger] parse_byte(f[k]) == Some(bytes@[k]),
            decreases 6 - i,
        {
            assert(fields@[i as int]@ == f[i as int]);
            match parse_u8(fields[i].as_str()) {
                Some(v) => bytes.push(v),
                None => {
                    assert(parse_byte(f[i as int]).is_none());
                    return Err(ParseHostPortError {});
                },
            }
            i = i + 1;
        }
        let port = (bytes[4] as u16) * 256 + bytes[5] as u16;
        let hp = HostPort { ip: [bytes[0], bytes[1], bytes[2], bytes[3]], port };
        assert(hp@ =~= bytes@);
        assert(f.map_values(|x: Seq<char>| parse_byte(x).unwrap()) =~= bytes@);
        Ok(hp)
    }

    /// Writes "h1,h2,h3,h4,p1,p2", each number in decimal without leading zeros.
    pub fn to_string(&self) -> (r: String)
        ensures
            r@ == hostport_text(self@),
    {
        let ghost b = self@;
        let hi = (self.port / 256) as u8;
        let lo = (self.port % 256) as u8;
        let mut out = String::new();
        push_decimal(&mut out, self.ip[0]);
        out.append(",");
        push_decimal(&mut out, self.ip[1]);
        out.append(",");
        push_decimal(&mut out, self.ip[2]);
        out.append(",");
        push_decimal(&mut out, self.ip[3]);
        out.append(",");
        push_decimal(&mut out, hi);
        out.append(",");
        push_decimal(&mut out, lo);
        proof {
            reveal_strlit(",");
            let parts = b.map_values(|x: u8| decimal(x as nat));
            lemma_join6(parts, ',');
            assert(parts[4] == decimal(hi as nat));
            assert(parts[5] == decimal(lo as nat));
        }
        out
    }
}

} // verus!
