//! DNS: messages, name compression, and the resolver with its cache.

use vstd::prelude::*;
use crate::net::{be16, be32, be_bytes16, swap16, to_be16, push_be16, extend_bytes, read_be16, read_be32, NetworkState};
use crate::net::ip::{Ipv4Address, ip4};
use crate::net::ethernet::EthernetFrame;
use crate::net::udp;
use crate::text::string_push;
use vstd::string::StringSliceAdditionalSpecFns;

verus! {

pub const QR_QUERY: u16 = 0x0000;
pub const QR_RESPONSE: u16 = 0x8000;
pub const OPCODE_QUERY: u16 = 0x0000;
pub const AA_FLAG: u16 = 0x0400;
pub const TC_FLAG: u16 = 0x0200;
pub const RD_FLAG: u16 = 0x0100;
pub const RA_FLAG: u16 = 0x0080;

pub const RCODE_NO_ERROR: u16 = 0x0000;
pub const RCODE_FORMAT_ERROR: u16 = 0x0001;
pub const RCODE_SERVER_FAILURE: u16 = 0x0002;
pub const RCODE_NAME_ERROR: u16 = 0x0003;
pub const RCODE_NOT_IMPLEMENTED: u16 = 0x0004;
pub const RCODE_REFUSED: u16 = 0x0005;

pub const TYPE_A: u16 = 1;
pub const TYPE_NS: u16 = 2;
pub const TYPE_CNAME: u16 = 5;
pub const TYPE_SOA: u16 = 6;
pub const TYPE_PTR: u16 = 12;
pub const TYPE_MX: u16 = 15;
pub const TYPE_TXT: u16 = 16;
pub const TYPE_AAAA: u16 = 28;
pub const TYPE_SRV: u16 = 33;

pub const CLASS_IN: u16 = 1;

/// A DNS header as held in memory.
#[derive(Debug, Clone, Copy)]
pub struct DnsHeader {
    pub id: u16,
    pub flags: u16,
    pub qdcount: u16,
    pub ancount: u16,
    pub nscount: u16,
    pub arcount: u16,
}

impl DnsHeader {
    /// A standard query with one question; `recursion` sets RD.
    pub fn new_query(id: u16, recursion: bool) -> (r: Self)
        ensures
            r.id == swap16(id),
            r.flags == swap16(if recursion { RD_FLAG } else { 0 }),
            r.qdcount == swap16(1),
            r.ancount == 0 && r.nscount == 0 && r.arcount == 0,
    {
        let mut flags: u16 = QR_QUERY | OPCODE_QUERY;
        assert(QR_QUERY | OPCODE_QUERY == 0u16) by (bit_vector);
        if recursion {
            assert(0u16 | RD_FLAG == RD_FLAG) by (bit_vector);
            flags = flags | RD_FLAG;
        }
        Self { id: to_be16(id), flags: to_be16(flags), qdcount: to_be16(1), ancount: 0, nscount: 0, arcount: 0 }
    }

    pub fn id(&self) -> (r: u16)
        ensures
            r == swap16(self.id),
    {
        to_be16(self.id)
    }

    pub fn flags(&self) -> (r: u16)
        ensures
            r == swap16(self.flags),
    {
        to_be16(self.flags)
    }

    /// Whether QR is set.
    pub fn is_response(&self) -> (r: bool)
        ensures
            r == (swap16(self.flags) & QR_RESPONSE != 0),
    {
        self.flags() & QR_RESPONSE != 0
    }

    /// The low four flag bits.
    pub fn response_code(&self) -> (r: u16)
        ensures
            r == swap16(self.flags) & 0x000F,
    {
        self.flags() & 0x000F
    }

    pub fn question_count(&self) -> (r: u16)
        ensures
            r == swap16(self.qdcount),
    {
        to_be16(self.qdcount)
    }

    pub fn answer_count(&self) -> (r: u16)
        ensures
            r == swap16(self.ancount),
    {
        to_be16(self.ancount)
    }
}

/// A question.
pub struct DnsQuestion {
    pub name: String,
    pub qtype: u16,
    pub qclass: u16,
}

/// A label as written: its length (in eight bits) then its bytes; empty
/// labels are left out.
pub open spec fn label_out(l: Seq<u8>) -> Seq<u8> {
    if l.len() == 0 { Seq::empty() } else { seq![(l.len() % 256) as u8] + l }
}

/// The labels of `b` from `start` on, cut at each '.', written as labels.
pub open spec fn encode_labels(b: Seq<u8>, start: int, i: int) -> Seq<u8>
    decreases b.len() - i,
{
    if i >= b.len() || i < start || start < 0 {
        label_out(b.subrange(start, b.len() as int))
    } else if b[i] == 46 {
        label_out(b.subrange(start, i)) + encode_labels(b, i + 1, i + 1)
    } else {
        encode_labels(b, start, i + 1)
    }
}

/// The bytes of a question on the wire.
pub open spec fn question_image(name_bytes: Seq<u8>, qtype: u16, qclass: u16) -> Seq<u8> {
    encode_labels(name_bytes, 0, 0) + seq![0u8] + be_bytes16(qtype) + be_bytes16(qclass)
}

/// The end of every question on the wire: the name's labels close with a
/// single zero (root) byte, followed by the type and the class, each with
/// its high byte first.
pub proof fn lemma_question_ends_with_root(name_bytes: Seq<u8>, qtype: u16, qclass: u16)
    ensures
        ({
            let q = question_image(name_bytes, qtype, qclass);
            &&& q.len() >= 5
            &&& q[q.len() - 5] == 0
            &&& q[q.len() - 4] as int == qtype as int / 256
            &&& q[q.len() - 3] as int == qtype as int % 256
            &&& q[q.len() - 2] as int == qclass as int / 256
            &&& q[q.len() - 1] as int == qclass as int % 256
        }),
{
    let l = encode_labels(name_bytes, 0, 0);
    let q = question_image(name_bytes, qtype, qclass);
    assert(q.len() == l.len() + 5);
    assert(q[l.len() as int] == 0);
}

/// A one-label name (no dot, 1 to 255 bytes) is written as its length, its
/// bytes, and the zero byte that ends the name.
pub proof fn lemma_single_label_question(name_bytes: Seq<u8>, qtype: u16, qclass: u16)
    requires
        0 < name_bytes.len() < 256,
        forall|k: int| 0 <= k < name_bytes.len() ==> name_bytes[k] != 46,
    ensures
        question_image(name_bytes, qtype, qclass).subrange(0, name_bytes.len() as int + 2)
            == seq![name_bytes.len() as u8] + name_bytes + seq![0u8],
{
    lemma_encode_labels_no_dot(name_bytes, 0);
    let q = question_image(name_bytes, qtype, qclass);
    assert(q.subrange(0, name_bytes.len() as int + 2) =~= seq![name_bytes.len() as u8] + name_bytes + seq![0u8]);
}

proof fn lemma_encode_labels_no_dot(b: Seq<u8>, i: int)
    requires
        0 <= i <= b.len(),
        forall|k: int| 0 <= k < b.len() ==> b[k] != 46,
    ensures
        encode_labels(b, 0, i) == label_out(b),
    decreases b.len() - i,
{
    if i < b.len() {
        lemma_encode_labels_no_dot(b, i + 1);
    } else {
        assert(b.subrange(0, b.len() as int) =~= b);
    }
}

impl DnsQuestion {
    /// A question of class IN.
    pub fn new(name: String, qtype: u16) -> (r: Self)
        ensures
            r.name@ == name@,
            r.qtype == qtype,
            r.qclass == CLASS_IN,
    {
        Self { name, qtype, qclass: CLASS_IN }
    }

    /// The name as labels, a zero byte, then type and class big-endian.
    pub fn to_bytes(&self) -> (r: Vec<u8>)
        ensures
            r@ == question_image(vstd::utf8::encode_utf8(self.name@), self.qtype, self.qclass),
    {
        let b = self.name.as_str().as_bytes();
        let mut bytes: Vec<u8> = Vec::new();
        let mut start: usize = 0;
        let mut i: usize = 0;
        while i < b.len()
            invariant
                start <= i <= b@.len(),
                bytes@ + encode_labels(b@, start as int, i as int) == encode_labels(b@, 0, 0),
            decreases b@.len() - i,
        {
            if b[i] == 46 {
                let ghost before = bytes@;
                if i > start {
                    bytes.push(((i - start) % 256) as u8);
                    extend_bytes(&mut bytes, &b[start..i]);
                }
                proof {
                    assert(bytes@ =~= before + label_out(b@.subrange(start as int, i as int)));
                    assert(encode_labels(b@, start as int, i as int)
                        == label_out(b@.subrange(start as int, i as int)) + encode_labels(b@, i + 1, i + 1));
                    assert(before + encode_labels(b@, start as int, i as int)
                        =~= bytes@ + encode_labels(b@, i + 1, i + 1));
                }
                start = i + 1;
                i = i + 1;
            } else {
                i = i + 1;
            }
        }
        let ghost before = bytes@;
        if b.len() > start {
            bytes.push(((b.len() - start) % 256) as u8);
            extend_bytes(&mut bytes, &b[start..b.len()]);
        }
        proof {
            assert(bytes@ =~= before + label_out(b@.subrange(start as int, b@.len() as int)));
        }
        bytes.push(0);
        push_be16(&mut bytes, self.qtype);
        push_be16(&mut bytes, self.qclass);
        assert(bytes@ =~= question_image(b@, self.qtype, self.qclass));
        bytes
    }
}

/// A resource record.
#[derive(Debug)]
pub struct DnsRecord {
    pub name: String,
    pub rtype: u16,
    pub rclass: u16,
    pub ttl: u32,
    pub data: Vec<u8>,
}

impl DnsRecord {
    /// The address of an A record with four bytes of data.
    pub fn parse_a_record(&self) -> (r: Option<Ipv4Address>)
        ensures
            r is Some <==> (self.rtype == TYPE_A && self.data@.len() == 4),
            r matches Some(a) ==> a@ == self.data@,
    {
        if self.rtype == TYPE_A && self.data.len() == 4 {
            let a = Ipv4Address::new(self.data[0], self.data[1], self.data[2], self.data[3]);
            assert(a@ =~= self.data@);
            Some(a)
        } else {
            None
        }
    }

    /// The name a CNAME record points to, read from its own data.
    pub fn parse_cname(&self) -> (r: Option<String>)
        ensures
            self.rtype != TYPE_CNAME ==> r is None,
            self.rtype == TYPE_CNAME ==> (r is Some <==> domain_name_at(self.data@, 0) is Ok),
            r matches Some(n) ==> domain_name_at(self.data@, 0) matches Ok((m, _)) && n@ == m,
    {
        if self.rtype == TYPE_CNAME {
            match parse_domain_name(self.data.as_slice(), 0) {
                Ok((name, _)) => Some(name),
                Err(_) => None,
            }
        } else {
            None
        }
    }
}

/// A message.
pub struct DnsMessage {
    pub header: DnsHeader,
    pub questions: Vec<DnsQuestion>,
    pub answers: Vec<DnsRecord>,
    pub authorities: Vec<DnsRecord>,
    pub additionals: Vec<DnsRecord>,
}

/// The characters `b` stands for, one per byte.
pub open spec fn bytes_as_chars(b: Seq<u8>) -> Seq<char> {
    Seq::new(b.len(), |i: int| b[i] as char)
}

/// The name at `offset` read with compression: labels joined by '.',
/// pointers followed (at most five), and the offset after the name in the
/// message (after the first pointer when one was followed).
pub open spec fn name_from(data: Seq<u8>, offset: int, jumped: bool, jump_offset: int, jumps: nat, name: Seq<char>) -> Result<(Seq<char>, int), Seq<char>>
    decreases 6 - jumps, data.len() - offset,
{
    if offset < 0 || offset >= data.len() {
        Err("DNS name out of bounds"@)
    } else {
        let len = data[offset];
        if len == 0 {
            Ok((name, if jumped { jump_offset } else { offset + 1 }))
        } else if len & 0xC0 == 0xC0 {
            let jo = if !jumped { offset + 2 } else { jump_offset };
            if offset + 1 >= data.len() {
                Err("DNS compression pointer truncated"@)
            } else if jumps + 1 > 5 {
                Err("DNS compression loop detected"@)
            } else {
                let pointer = (len & 0x3F) * 256 + data[offset + 1];
                name_from(data, pointer, true, jo, jumps + 1, name)
            }
        } else if len & 0xC0 != 0 {
            Err("Invalid DNS label length"@)
        } else if offset + len + 1 > data.len() {
            Err("DNS label truncated"@)
        } else {
            let sep = if name.len() == 0 { Seq::<char>::empty() } else { seq!['.'] };
            name_from(data, offset + len + 1, jumped, jump_offset, jumps,
                name + sep + bytes_as_chars(data.subrange(offset + 1, offset + 1 + len)))
        }
    }
}

/// The name at `offset`, as `parse_domain_name` reads it.
pub open spec fn domain_name_at(data: Seq<u8>, offset: int) -> Result<(Seq<char>, int), Seq<char>> {
    name_from(data, offset, false, 0, 0, Seq::empty())
}

/// Reads a possibly compressed name at `offset`; the result is the name and
/// the offset just after it.
pub fn parse_domain_name(data: &[u8], start: usize) -> (r: Result<(String, usize), &'static str>)
    ensures
        r matches Ok((n, o)) ==> o <= data@.len() && domain_name_at(data@, start as int) == Ok::<(Seq<char>, int), Seq<char>>((n@, o as int)),
        r matches Err(e) ==> domain_name_at(data@, start as int) == Err::<(Seq<char>, int), Seq<char>>(e@),
{
    let mut offset = start;
    let mut name = String::new();
    let mut jumped = false;
    let mut jump_offset: usize = 0;
    let mut jump_count: usize = 0;
    let ghost target = domain_name_at(data@, offset as int);
    loop
        invariant
            jump_count <= 5,
            jump_offset <= data@.len() + 1,
            jumped ==> jump_offset <= data@.len(),
            target == domain_name_at(data@, start as int),
            name_from(data@, offset as int, jumped, jump_offset as int, jump_count as nat, name@) == target,
        decreases 6 - jump_count, data@.len() - offset,
    {
        if offset >= data.len() {
            return Err("DNS name out of bounds");
        }
        let len = data[offset] as usize;
        let lb = data[offset];
        assert((lb & 0xC0 == 0xC0 <==> (lb as usize) & 0xC0 == 0xC0) && (lb & 0xC0 != 0 <==> (lb as usize) & 0xC0 != 0)
            && ((lb as usize) & 0x3F) == (lb & 0x3F) as usize && (lb & 0xC0 == 0 ==> lb < 64)) by (bit_vector);
        if len == 0 {
            if jumped {
                return Ok((name, jump_offset));
            } else {
                return Ok((name, offset + 1));
            }
        } else if len & 0xC0 == 0xC0 {
            if offset + 1 >= data.len() {
                return Err("DNS compression pointer truncated");
            }
            if !jumped {
                jump_offset = offset + 2;
            }
            if jump_count + 1 > 5 {
                return Err("DNS compression loop detected");
            }
            let pointer = ((len & 0x3F) << 8usize) | (data[offset + 1] as usize);
            let lo = data[offset + 1] as usize;
            assert(((len & 0x3F) << 8usize) | lo == (len & 0x3F) * 256 + lo) by (bit_vector)
                requires lo < 256;
            offset = pointer;
            jumped = true;
            jump_count = jump_count + 1;
        } else if len & 0xC0 != 0 {
            return Err("Invalid DNS label length");
        } else {
            if len + 1 > data.len() - offset {
                return Err("DNS label truncated");
            }
            let ghost n0 = name@;
            if !name.as_str().is_empty() {
                string_push(&mut name, '.');
            }
            let ghost n1 = name@;
            let mut i: usize = 1;
            while i <= len
                invariant
                    1 <= i <= len + 1,
                    offset + len + 1 <= data@.len(),
                    len < 64,
                    name@ == n1 + bytes_as_chars(data@.subrange(offset + 1, offset + i)),
                decreases len + 1 - i,
            {
                assert(offset + i < data.len());
                let idx: usize = offset + i;
                string_push(&mut name, data[idx] as char);
                i = i + 1;
                assert(name@ =~= n1 + bytes_as_chars(data@.subrange(offset + 1, offset + i)));
            }
            proof {
                let sep = if n0.len() == 0 { Seq::<char>::empty() } else { seq!['.'] };
                assert(n1 == n0 + sep);
                assert(name@ =~= n0 + sep + bytes_as_chars(data@.subrange(offset + 1, offset + 1 + len)));
            }
            offset = offset + len + 1;
        }
    }
}


/// What a question holds: name, type and class.
pub open spec fn question_view(q: DnsQuestion) -> (Seq<char>, u16, u16) {
    (q.name@, q.qtype, q.qclass)
}

/// What a record holds: name, type, class, time to live and data.
pub open spec fn record_view(r: DnsRecord) -> (Seq<char>, u16, u16, u32, Seq<u8>) {
    (r.name@, r.rtype, r.rclass, r.ttl, r.data@)
}

/// The bytes of the questions `qs[0..n]`, one after another.
pub open spec fn questions_image(qs: Seq<DnsQuestion>, n: nat) -> Seq<u8>
    decreases n,
{
    if n == 0 || n > qs.len() {
        Seq::empty()
    } else {
        questions_image(qs, (n - 1) as nat) + question_image(vstd::utf8::encode_utf8(qs[n - 1].name@), qs[n - 1].qtype, qs[n - 1].qclass)
    }
}

/// The question at `off`: its name, then type and class.
pub open spec fn question_at(data: Seq<u8>, off: int) -> Result<((Seq<char>, u16, u16), int), Seq<char>> {
    match domain_name_at(data, off) {
        Err(e) => Err(e),
        Ok((n, o)) => if o + 4 > data.len() {
            Err("DNS question truncated"@)
        } else {
            Ok(((n, be16(data[o], data[o + 1]), be16(data[o + 2], data[o + 3])), o + 4))
        },
    }
}

/// The next `k` questions from `off`, after those in `acc`.
pub open spec fn questions_from(data: Seq<u8>, off: int, k: nat, acc: Seq<(Seq<char>, u16, u16)>) -> Result<(Seq<(Seq<char>, u16, u16)>, int), Seq<char>>
    decreases k,
{
    if k == 0 {
        Ok((acc, off))
    } else {
        match question_at(data, off) {
            Err(e) => Err(e),
            Ok((q, o)) => questions_from(data, o, (k - 1) as nat, acc.push(q)),
        }
    }
}

/// The resource record at `off`: name, type, class, time to live, and
/// length-prefixed data.
pub open spec fn record_at(data: Seq<u8>, off: int) -> Result<((Seq<char>, u16, u16, u32, Seq<u8>), int), Seq<char>> {
    match domain_name_at(data, off) {
        Err(e) => Err(e),
        Ok((n, o)) => if o + 10 > data.len() {
            Err("DNS record header truncated"@)
        } else {
            let rdlen = be16(data[o + 8], data[o + 9]) as int;
            if o + 10 + rdlen > data.len() {
                Err("DNS record data truncated"@)
            } else {
                Ok(((n, be16(data[o], data[o + 1]), be16(data[o + 2], data[o + 3]),
                    be32(data[o + 4], data[o + 5], data[o + 6], data[o + 7]),
                    data.subrange(o + 10, o + 10 + rdlen)), o + 10 + rdlen))
            }
        },
    }
}

/// The next `k` records from `off`, after those in `acc`.
pub open spec fn records_from(data: Seq<u8>, off: int, k: nat, acc: Seq<(Seq<char>, u16, u16, u32, Seq<u8>)>) -> Result<(Seq<(Seq<char>, u16, u16, u32, Seq<u8>)>, int), Seq<char>>
    decreases k,
{
    if k == 0 {
        Ok((acc, off))
    } else {
        match record_at(data, off) {
            Err(e) => Err(e),
            Ok((r, o)) => records_from(data, o, (k - 1) as nat, acc.push(r)),
        }
    }
}

/// The header of a message, each field read big-endian.
pub open spec fn header_from(data: Seq<u8>) -> DnsHeader {
    DnsHeader {
        id: be16(data[0], data[1]),
        flags: be16(data[2], data[3]),
        qdcount: be16(data[4], data[5]),
        ancount: be16(data[6], data[7]),
        nscount: be16(data[8], data[9]),
        arcount: be16(data[10], data[11]),
    }
}

/// A message: its questions then its answers, as many of each as the
/// header's accessors report.
pub open spec fn message_at(data: Seq<u8>) -> Result<(Seq<(Seq<char>, u16, u16)>, Seq<(Seq<char>, u16, u16, u32, Seq<u8>)>), Seq<char>> {
    if data.len() < 12 {
        Err("DNS message too short"@)
    } else {
        let h = header_from(data);
        match questions_from(data, 12, swap16(h.qdcount) as nat, Seq::empty()) {
            Err(e) => Err(e),
            Ok((qs, o)) => match records_from(data, o, swap16(h.ancount) as nat, Seq::empty()) {
                Err(e) => Err(e),
                Ok((rs, _)) => Ok((qs, rs)),
            },
        }
    }
}

impl DnsMessage {
    /// A recursive query with one question for `hostname`.
    pub fn new_query(id: u16, hostname: &str, qtype: u16) -> (r: Self)
        ensures
            r.header.id == swap16(id),
            r.header.flags == swap16(RD_FLAG),
            r.header.qdcount == swap16(1),
            r.header.ancount == 0 && r.header.nscount == 0 && r.header.arcount == 0,
            r.questions@.len() == 1,
            r.questions@[0].name@ == hostname@,
            r.questions@[0].qtype == qtype,
            r.questions@[0].qclass == CLASS_IN,
            r.answers@.len() == 0 && r.authorities@.len() == 0 && r.additionals@.len() == 0,
    {
        let header = DnsHeader::new_query(id, true);
        let question = DnsQuestion::new(hostname.to_owned(), qtype);
        let mut questions = Vec::new();
        questions.push(question);
        Self { header, questions, answers: Vec::new(), authorities: Vec::new(), additionals: Vec::new() }
    }

    /// The header fields big-endian, then each question.
    pub fn to_bytes(&self) -> (r: Vec<u8>)
        ensures
            r@ == be_bytes16(self.header.id) + be_bytes16(self.header.flags) + be_bytes16(self.header.qdcount)
                + be_bytes16(self.header.ancount) + be_bytes16(self.header.nscount) + be_bytes16(self.header.arcount)
                + questions_image(self.questions@, self.questions@.len()),
    {
        let mut bytes: Vec<u8> = Vec::new();
        push_be16(&mut bytes, self.header.id);
        push_be16(&mut bytes, self.header.flags);
        push_be16(&mut bytes, self.header.qdcount);
        push_be16(&mut bytes, self.header.ancount);
        push_be16(&mut bytes, self.header.nscount);
        push_be16(&mut bytes, self.header.arcount);
        let ghost head = bytes@;
        let mut i: usize = 0;
        while i < self.questions.len()
            invariant
                i <= self.questions@.len(),
                bytes@ == head + questions_image(self.questions@, i as nat),
            decreases self.questions@.len() - i,
        {
            let q = self.questions[i].to_bytes();
            extend_bytes(&mut bytes, q.as_slice());
            i = i + 1;
            assert(bytes@ =~= head + questions_image(self.questions@, i as nat));
        }
        bytes
    }

    /// Parses a message: the header, then as many questions and answers as
    /// the header's accessors report.
    pub fn from_bytes(data: &[u8]) -> (r: Result<Self, &'static str>)
        ensures
            r matches Ok(m) ==> {
                &&& data@.len() >= 12
                &&& m.header == header_from(data@)
                &&& message_at(data@) == Ok::<_, Seq<char>>((m.questions@.map_values(|q: DnsQuestion| question_view(q)), m.answers@.map_values(|a: DnsRecord| record_view(a))))
                &&& m.authorities@.len() == 0 && m.additionals@.len() == 0
            },
            r matches Err(e) ==> message_at(data@) == Err::<(Seq<(Seq<char>, u16, u16)>, Seq<(Seq<char>, u16, u16, u32, Seq<u8>)>), Seq<char>>(e@),
    {
        if data.len() < 12 {
            return Err("DNS message too short");
        }
        let header = DnsHeader {
            id: read_be16(data[0], data[1]),
            flags: read_be16(data[2], data[3]),
            qdcount: read_be16(data[4], data[5]),
            ancount: read_be16(data[6], data[7]),
            nscount: read_be16(data[8], data[9]),
            arcount: read_be16(data[10], data[11]),
        };
        assert(header == header_from(data@));
        let mut offset: usize = 12;
        let mut questions: Vec<DnsQuestion> = Vec::new();
        let mut answers: Vec<DnsRecord> = Vec::new();
        let qcount = header.question_count();
        let ghost qtarget = questions_from(data@, 12, qcount as nat, Seq::empty());
        assert(questions@.map_values(|q: DnsQuestion| question_view(q)) =~= Seq::<(Seq<char>, u16, u16)>::empty());
        let mut k: u16 = 0;
        while k < qcount
            invariant
                k <= qcount,
                offset <= data@.len(),
                data@.len() >= 12,
                header == header_from(data@),
                qcount == swap16(header.qdcount),
                qtarget == questions_from(data@, 12, qcount as nat, Seq::empty()),
                questions_from(data@, offset as int, (qcount - k) as nat, questions@.map_values(|q: DnsQuestion| question_view(q))) == qtarget,
            decreases qcount - k,
        {
            let (name, new_offset) = match parse_domain_name(data, offset) {
                Ok(v) => v,
                Err(e) => {
                    assert(questions_from(data@, offset as int, (qcount - k) as nat, questions@.map_values(|q: DnsQuestion| question_view(q))) == Err::<(Seq<(Seq<char>, u16, u16)>, int), Seq<char>>(e@));
                    return Err(e);
                },
            };
            offset = new_offset;
            if data.len() - offset < 4 {
                return Err("DNS question truncated");
            }
            let qtype = read_be16(data[offset], data[offset + 1]);
            let qclass = read_be16(data[offset + 2], data[offset + 3]);
            offset = offset + 4;
            let ghost before = questions@;
            questions.push(DnsQuestion { name, qtype, qclass });
            assert(questions@.map_values(|q: DnsQuestion| question_view(q))
                =~= before.map_values(|q: DnsQuestion| question_view(q)).push(question_view(questions@[questions@.len() - 1])));
            k = k + 1;
        }
        let acount = header.answer_count();
        let ghost qs = questions@.map_values(|q: DnsQuestion| question_view(q));
        let ghost qoff = offset as int;
        assert(qtarget == Ok::<(Seq<(Seq<char>, u16, u16)>, int), Seq<char>>((qs, qoff)));
        let ghost atarget = records_from(data@, offset as int, acount as nat, Seq::empty());
        assert(answers@.map_values(|a: DnsRecord| record_view(a)) =~= Seq::<(Seq<char>, u16, u16, u32, Seq<u8>)>::empty());
        let mut k: u16 = 0;
        while k < acount
            invariant
                k <= acount,
                offset <= data@.len(),
                data@.len() >= 12,
                header == header_from(data@),
                acount == swap16(header.ancount),
                questions_from(data@, 12, swap16(header.qdcount) as nat, Seq::empty()) == Ok::<(Seq<(Seq<char>, u16, u16)>, int), Seq<char>>((qs, qoff)),
                qs == questions@.map_values(|q: DnsQuestion| question_view(q)),
                atarget == records_from(data@, qoff, acount as nat, Seq::empty()),
                records_from(data@, offset as int, (acount - k) as nat, answers@.map_values(|a: DnsRecord| record_view(a))) == atarget,
            decreases acount - k,
        {
            let (record, new_offset) = match parse_resource_record(data, offset) {
                Ok(v) => v,
                Err(e) => {
                    assert(records_from(data@, offset as int, (acount - k) as nat, answers@.map_values(|a: DnsRecord| record_view(a))) == Err::<(Seq<(Seq<char>, u16, u16, u32, Seq<u8>)>, int), Seq<char>>(e@));
                    return Err(e);
                },
            };
            offset = new_offset;
            let ghost before = answers@;
            answers.push(record);
            assert(answers@.map_values(|a: DnsRecord| record_view(a))
                =~= before.map_values(|a: DnsRecord| record_view(a)).push(record_view(answers@[answers@.len() - 1])));
            k = k + 1;
        }
        assert(header == header_from(data@));
        Ok(Self { header, questions, answers, authorities: Vec::new(), additionals: Vec::new() })
    }
}

/// Reads the resource record at `offset`; the result is the record and the
/// offset just after it.
fn parse_resource_record(data: &[u8], offset: usize) -> (r: Result<(DnsRecord, usize), &'static str>)
    ensures
        r matches Ok((rec, o)) ==> o <= data@.len() && record_at(data@, offset as int) == Ok::<_, Seq<char>>((record_view(rec), o as int)),
        r matches Err(e) ==> record_at(data@, offset as int) == Err::<((Seq<char>, u16, u16, u32, Seq<u8>), int), Seq<char>>(e@),
{
    let (name, offset) = match parse_domain_name(data, offset) {
        Ok(v) => v,
        Err(e) => return Err(e),
    };
    if data.len() - offset < 10 {
        return Err("DNS record header truncated");
    }
    let rtype = read_be16(data[offset], data[offset + 1]);
    let rclass = read_be16(data[offset + 2], data[offset + 3]);
    let ttl = read_be32(data[offset + 4], data[offset + 5], data[offset + 6], data[offset + 7]);
    let rdlength = read_be16(data[offset + 8], data[offset + 9]) as usize;
    let offset = offset + 10;
    if rdlength > data.len() - offset {
        return Err("DNS record data truncated");
    }
    let rdata = vstd::slice::slice_to_vec(vstd::slice::slice_subrange(data, offset, offset + rdlength));
    Ok((DnsRecord { name, rtype, rclass, ttl, data: rdata }, offset + rdlength))
}

/// The address that a reply to query `qid` gives: the reply must parse, carry
/// the query's id, be a response and report no error; then the first answer
/// that is an A record with four bytes of data.
pub open spec fn reply_address(resp: Seq<u8>, qid: u16) -> Option<Seq<u8>> {
    match message_at(resp) {
        Err(_) => None,
        Ok((_, answers)) => {
            let h = header_from(resp);
            if swap16(h.id) == qid && swap16(h.flags) & QR_RESPONSE != 0 && swap16(h.flags) & 0x000F == 0 {
                first_a_record(answers, 0)
            } else {
                None
            }
        },
    }
}

/// The data of the first A record with four bytes of data, from `i` on.
pub open spec fn first_a_record(answers: Seq<(Seq<char>, u16, u16, u32, Seq<u8>)>, i: int) -> Option<Seq<u8>>
    decreases answers.len() - i,
{
    if i < 0 || i >= answers.len() {
        None
    } else if answers[i].1 == TYPE_A && answers[i].4.len() == 4 {
        Some(answers[i].4)
    } else {
        first_a_record(answers, i + 1)
    }
}

/// The address a reply to query `qid` gives, with the time to live of its
/// record (see `reply_address`).
pub fn answer_from_reply(resp: &[u8], qid: u16) -> (r: Option<(Ipv4Address, u32)>)
    ensures
        r is Some <==> reply_address(resp@, qid) is Some,
        r matches Some((a, _)) ==> reply_address(resp@, qid) == Some(a@),
{
    let response = match DnsMessage::from_bytes(resp) {
        Ok(m) => m,
        Err(_) => return None,
    };
    if !(response.header.id() == qid && response.header.is_response() && response.header.response_code() == 0) {
        return None;
    }
    let ghost answers = response.answers@.map_values(|a: DnsRecord| record_view(a));
    assert(reply_address(resp@, qid) == first_a_record(answers, 0));
    let mut i: usize = 0;
    while i < response.answers.len()
        invariant
            i <= response.answers@.len(),
            answers == response.answers@.map_values(|a: DnsRecord| record_view(a)),
            reply_address(resp@, qid) == first_a_record(answers, 0),
            first_a_record(answers, 0) == first_a_record(answers, i as int),
        decreases response.answers@.len() - i,
    {
        let answer = &response.answers[i];
        assert(answers[i as int] == record_view(response.answers@[i as int]));
        if let Some(ip) = answer.parse_a_record() {
            return Some((ip, answer.ttl));
        }
        i = i + 1;
    }
    None
}

/// A cached answer.
#[derive(Debug, Clone)]
struct DnsCacheEntry {
    ip_address: Ipv4Address,
    ttl: u32,
    timestamp: u64,
}

/// A stub resolver: the servers to ask, a cache of answers, and the id of
/// the next query.
pub struct DnsResolver {
    dns_servers: Vec<Ipv4Address>,
    cache: Vec<(String, DnsCacheEntry)>,
    query_id: u16,
}

/// The address cached for `name`, looking from entry `i` on.
pub open spec fn cache_find(c: Seq<(Seq<char>, Seq<u8>)>, name: Seq<char>, i: int) -> Option<Seq<u8>>
    decreases c.len() - i,
{
    if i < 0 || i >= c.len() {
        None
    } else if c[i].0 == name {
        Some(c[i].1)
    } else {
        cache_find(c, name, i + 1)
    }
}

/// The id that follows `id`, wrapping at 2^16.
pub open spec fn next_query_id(id: u16) -> u16 {
    if id == 0xFFFF { 0 } else { (id + 1) as u16 }
}

/// The byte text of an IPv4 address in dotted decimal, as `parse_ip_address`
/// reads it: four parts split at '.', each an optional '+' and at most 255 in
/// decimal.
pub open spec fn dotted_address(b: Seq<u8>) -> Option<Seq<u8>> {
    let p = parts_of(b, 0, 0);
    if p.len() == 4 && octet_of(p[0]) is Some && octet_of(p[1]) is Some && octet_of(p[2]) is Some && octet_of(p[3]) is Some {
        Some(ip4(octet_of(p[0])->0, octet_of(p[1])->0, octet_of(p[2])->0, octet_of(p[3])->0))
    } else {
        None
    }
}

/// The parts of `b` split at '.', from `start` on.
pub open spec fn parts_of(b: Seq<u8>, start: int, i: int) -> Seq<Seq<u8>>
    decreases b.len() - i,
{
    if i >= b.len() || i < start || start < 0 {
        seq![b.subrange(start, b.len() as int)]
    } else if b[i] == 46 {
        seq![b.subrange(start, i)] + parts_of(b, i + 1, i + 1)
    } else {
        parts_of(b, start, i + 1)
    }
}

/// The value of a decimal digit.
pub open spec fn digit_value(c: u8) -> nat {
    if 48 <= c <= 57 { (c - 48) as nat } else { 0 }
}

/// The value of a string of decimal digits.
pub open spec fn decimal_value(d: Seq<u8>) -> nat
    decreases d.len(),
{
    if d.len() == 0 { 0 } else { decimal_value(d.drop_last()) * 10 + digit_value(d.last()) }
}

/// Whether every byte is a decimal digit.
pub open spec fn all_digits(d: Seq<u8>) -> bool {
    forall|i: int| 0 <= i < d.len() ==> 48 <= #[trigger] d[i] <= 57
}

/// A part read as an 8-bit number: an optional '+', then one or more
/// decimal digits whose value is at most 255.
pub open spec fn octet_of(p: Seq<u8>) -> Option<u8> {
    if p.len() == 0 {
        None
    } else {
        let d = if p[0] == 43 { p.drop_first() } else { p };
        if d.len() > 0 && all_digits(d) && decimal_value(d) <= 255 { Some(decimal_value(d) as u8) } else { None }
    }
}

proof fn lemma_decimal_prefix(d: Seq<u8>, k: int, n: int)
    requires
        0 <= k <= n <= d.len(),
    ensures
        decimal_value(d.take(k)) <= decimal_value(d.take(n)),
    decreases n - k,
{
    if k < n {
        lemma_decimal_prefix(d, k, n - 1);
        assert(d.take(n).drop_last() =~= d.take(n - 1));
    }
}

/// Reads one part of a dotted address (see `octet_of`).
fn parse_octet(p: &[u8]) -> (r: Option<u8>)
    ensures
        r == octet_of(p@),
{
    if p.len() == 0 {
        return None;
    }
    let start: usize = if p[0] == 43 { 1 } else { 0 };
    let ghost d = if p@[0] == 43 { p@.drop_first() } else { p@ };
    assert(d =~= p@.subrange(start as int, p@.len() as int));
    if start >= p.len() {
        return None;
    }
    let mut acc: u32 = 0;
    let mut i: usize = start;
    while i < p.len()
        invariant
            start <= i <= p@.len(),
            d =~= p@.subrange(start as int, p@.len() as int),
            d.len() > 0,
            octet_of(p@) == (if all_digits(d) && decimal_value(d) <= 255 { Some(decimal_value(d) as u8) } else { None::<u8> }),
            acc == decimal_value(d.take(i - start)),
            acc <= 255,
            all_digits(d.take(i - start)),
        decreases p@.len() - i,
    {
        let c = p[i];
        assert(d[i - start] == c);
        if c < 48 || c > 57 {
            assert(!(48 <= d[i - start] <= 57));
            assert(!all_digits(d));
            return None;
        }
        assert(d.take(i - start + 1).drop_last() =~= d.take(i - start));
        acc = acc * 10 + (c - 48) as u32;
        i = i + 1;
        if acc > 255 {
            proof {
                lemma_decimal_prefix(d, i - start, d.len() as int);
                assert(d.take(d.len() as int) =~= d);
            }
            return None;
        }
        assert(all_digits(d.take(i - start)));
    }
    assert(d.take(i - start) =~= d);
    Some(acc as u8)
}

/// The texts that `r` marks out in `b`.
pub open spec fn ranges_text(b: Seq<u8>, r: Seq<(usize, usize)>) -> Seq<Seq<u8>> {
    r.map_values(|p: (usize, usize)| b.subrange(p.0 as int, p.1 as int))
}

/// Reads a dotted-decimal IPv4 address (see `dotted_address`).
pub fn parse_ip_address(s: &str) -> (r: Option<Ipv4Address>)
    ensures
        r is Some <==> dotted_address(s.spec_bytes()) is Some,
        r matches Some(a) ==> dotted_address(s.spec_bytes()) == Some(a@),
{
    let b = s.as_bytes();
    let mut bounds: Vec<(usize, usize)> = Vec::new();
    let mut start: usize = 0;
    let mut i: usize = 0;
    assert(ranges_text(b@, bounds@) =~= Seq::<Seq<u8>>::empty());
    while i < b.len()
        invariant
            start <= i <= b@.len(),
            forall|k: int| 0 <= k < bounds@.len() ==> (#[trigger] bounds@[k]).0 <= bounds@[k].1 <= b@.len(),
            ranges_text(b@, bounds@) + parts_of(b@, start as int, i as int) == parts_of(b@, 0, 0),
        decreases b@.len() - i,
    {
        if b[i] == 46 {
            let ghost old_bounds = bounds@;
            bounds.push((start, i));
            proof {
                assert(parts_of(b@, start as int, i as int)
                    == seq![b@.subrange(start as int, i as int)] + parts_of(b@, i + 1, i + 1));
                assert(ranges_text(b@, bounds@) =~= ranges_text(b@, old_bounds).push(b@.subrange(start as int, i as int)));
                assert(ranges_text(b@, old_bounds) + parts_of(b@, start as int, i as int)
                    =~= ranges_text(b@, bounds@) + parts_of(b@, i + 1, i + 1));
            }
            start = i + 1;
        }
        i = i + 1;
    }
    let ghost old_bounds = bounds@;
    bounds.push((start, b.len()));
    assert(ranges_text(b@, bounds@) =~= ranges_text(b@, old_bounds).push(b@.subrange(start as int, b@.len() as int)));
    assert(ranges_text(b@, old_bounds) + parts_of(b@, start as int, i as int) =~= ranges_text(b@, bounds@));
    if bounds.len() != 4 {
        return None;
    }
    let ghost parts = ranges_text(b@, bounds@);
    let mut octets: [u8; 4] = [0u8; 4];
    let mut k: usize = 0;
    while k < 4
        invariant
            k <= 4,
            bounds@.len() == 4,
            b@ == s.spec_bytes(),
            parts == ranges_text(b@, bounds@),
            parts == parts_of(b@, 0, 0),
            forall|j: int| 0 <= j < bounds@.len() ==> (#[trigger] bounds@[j]).0 <= bounds@[j].1 <= b@.len(),
            forall|j: int| 0 <= j < k ==> octet_of(parts[j]) == Some(#[trigger] octets[j]),
        decreases 4 - k,
    {
        let (lo, hi) = bounds[k];
        assert(parts[k as int] == b@.subrange(lo as int, hi as int));
        match parse_octet(vstd::slice::slice_subrange(b, lo, hi)) {
            Some(n) => octets[k] = n,
            None => {
                assert(octet_of(parts[k as int]) is None);
                assert(!(octet_of(parts[0]) is Some && octet_of(parts[1]) is Some && octet_of(parts[2]) is Some
                    && octet_of(parts[3]) is Some));
                return None;
            },
        }
        k = k + 1;
    }
    let a = Ipv4Address::new(octets[0], octets[1], octets[2], octets[3]);
    Some(a)
}

/// Writes `v` in decimal.
fn push_decimal(s: &mut String, v: u8)
    ensures
        final(s)@ == old(s)@ + decimal_text(v as nat),
{
    if v >= 100 {
        string_push(s, digit_char(v / 100));
    }
    if v >= 10 {
        string_push(s, digit_char((v / 10) % 10));
    }
    string_push(s, digit_char(v % 10));
    proof {
        let t = decimal_text(v as nat);
        assert(final(s)@ =~= old(s)@ + t) by {
            reveal_with_fuel(decimal_text, 3);
        }
    }
}

/// The character of a decimal digit.
fn digit_char(d: u8) -> (c: char)
    requires
        d < 10,
    ensures
        c == digit_of(d as nat),
{
    (48u8 + d) as char
}

/// The character of a decimal digit.
pub open spec fn digit_of(d: nat) -> char {
    ((48 + d) as u8) as char
}

/// A number written in decimal without leading zeros.
pub open spec fn decimal_text(v: nat) -> Seq<char>
    decreases v,
{
    if v < 10 { seq![digit_of(v)] } else { decimal_text(v / 10) + seq![digit_of(v % 10)] }
}

/// The name a reverse lookup of `a` asks for: its bytes in reverse order in
/// decimal, then "in-addr.arpa", all joined by '.'.
pub open spec fn reverse_name_of(a: Seq<u8>) -> Seq<char> {
    decimal_text(a[3] as nat) + seq!['.'] + decimal_text(a[2] as nat) + seq!['.'] + decimal_text(a[1] as nat)
        + seq!['.'] + decimal_text(a[0] as nat) + arpa_suffix()
}

/// The suffix of reverse-lookup names, ".in-addr.arpa".
pub open spec fn arpa_suffix() -> Seq<char> {
    seq!['.', 'i', 'n', '-', 'a', 'd', 'd', 'r', '.', 'a', 'r', 'p', 'a']
}

/// Builds the reverse-lookup name of `ip` (see `reverse_name_of`).
fn reverse_name(ip: &Ipv4Address) -> (r: String)
    ensures
        r@ == reverse_name_of(ip@),
{
    let o = ip.octets();
    let mut s = String::new();
    push_decimal(&mut s, o[3]);
    string_push(&mut s, '.');
    push_decimal(&mut s, o[2]);
    string_push(&mut s, '.');
    push_decimal(&mut s, o[1]);
    string_push(&mut s, '.');
    push_decimal(&mut s, o[0]);
    let tail: [char; 13] = ['.', 'i', 'n', '-', 'a', 'd', 'd', 'r', '.', 'a', 'r', 'p', 'a'];
    let ghost s0 = s@;
    let mut i: usize = 0;
    while i < 13
        invariant
            i <= 13,
            tail@ == arpa_suffix(),
            s@ == s0 + tail@.take(i as int),
        decreases 13 - i,
    {
        string_push(&mut s, tail[i]);
        i = i + 1;
        assert(s@ =~= s0 + tail@.take(i as int));
    }
    assert(tail@.take(13) =~= tail@);
    s
}


/// Room in the counters for one more sent frame.
fn send_room(stats: &crate::net::NetworkStats, n: usize) -> (r: bool)
    ensures
        r == (crate::net::ip::room_to_send(*stats, (n + 8) as nat) && n + 82 <= usize::MAX),
{
    stats.packets_sent < u64::MAX && n <= usize::MAX - 82 && (n as u64) <= u64::MAX - 82
        && stats.bytes_sent <= u64::MAX - 82 - (n as u64)
}

/// The local port the resolver sends from and listens on.
pub const DNS_CLIENT_PORT: u16 = 1053;

impl DnsResolver {
    /// The servers asked, in order.
    pub closed spec fn servers(&self) -> Seq<Ipv4Address> {
        self.dns_servers@
    }

    /// The cached answers, newest first: name and address bytes.
    pub closed spec fn cached(&self) -> Seq<(Seq<char>, Seq<u8>)> {
        self.cache@.map_values(|e: (String, DnsCacheEntry)| (e.0@, e.1.ip_address@))
    }

    /// The id the next query carries.
    pub closed spec fn next_id(&self) -> u16 {
        self.query_id
    }

    /// A resolver asking 8.8.8.8, 8.8.4.4 and 1.1.1.1, with an empty cache;
    /// the first query has id 1.
    pub fn new() -> (r: Self)
        ensures
            r.servers().map_values(|a: Ipv4Address| a@) == seq![ip4(8, 8, 8, 8), ip4(8, 8, 4, 4), ip4(1, 1, 1, 1)],
            r.cached().len() == 0,
            r.next_id() == 1,
    {
        let mut dns_servers: Vec<Ipv4Address> = Vec::new();
        dns_servers.push(Ipv4Address::new(8, 8, 8, 8));
        dns_servers.push(Ipv4Address::new(8, 8, 4, 4));
        dns_servers.push(Ipv4Address::new(1, 1, 1, 1));
        let r = Self { dns_servers, cache: Vec::new(), query_id: 1 };
        assert(r.servers().map_values(|a: Ipv4Address| a@) =~= seq![ip4(8, 8, 8, 8), ip4(8, 8, 4, 4), ip4(1, 1, 1, 1)]);
        r
    }

    /// Replaces the server list, unless `servers` is empty.
    pub fn set_dns_servers(&mut self, servers: Vec<Ipv4Address>)
        ensures
            final(self).servers() == (if servers@.len() == 0 { old(self).servers() } else { servers@ }),
            final(self).cached() == old(self).cached(),
            final(self).next_id() == old(self).next_id(),
    {
        if servers.len() > 0 {
            self.dns_servers = servers;
        }
    }

    /// The cached address for `hostname`.
    fn cache_lookup(&self, hostname: &str) -> (r: Option<Ipv4Address>)
        ensures
            r is Some <==> cache_find(self.cached(), hostname@, 0) is Some,
            r matches Some(a) ==> cache_find(self.cached(), hostname@, 0) == Some(a@),
    {
        let key = hostname.to_owned();
        let mut i: usize = 0;
        while i < self.cache.len()
            invariant
                i <= self.cache@.len(),
                key@ == hostname@,
                cache_find(self.cached(), hostname@, 0) == cache_find(self.cached(), hostname@, i as int),
            decreases self.cache@.len() - i,
        {
            assert(self.cached()[i as int] == (self.cache@[i as int].0@, self.cache@[i as int].1.ip_address@));
            if self.cache[i].0 == key {
                return Some(self.cache[i].1.ip_address);
            }
            i = i + 1;
        }
        None
    }

    /// Resolves `hostname` to an address. Dotted-decimal text is read
    /// directly and a cached name is answered from the cache; otherwise an A
    /// query with the next id goes to each server in turn from port 1053
    /// (the frames sent are appended to `frames`), the oldest datagram
    /// waiting on that port is read after each send, and the first reply
    /// that `answer_from_reply` accepts gives the address, which is cached.
    /// A server is skipped when the send fails, when the counters are full
    /// or when the query would not fit in one datagram of 1500 bytes.
    pub fn resolve(&mut self, st: &mut NetworkState, hostname: &str, frames: &mut Vec<EthernetFrame>) -> (r: Result<Ipv4Address, &'static str>)
        ensures
            dotted_address(hostname.spec_bytes()) matches Some(a) ==> {
                &&& r matches Ok(ip) && ip@ == a
                &&& *final(self) == *old(self)
                &&& *final(st) == *old(st)
                &&& final(frames)@ == old(frames)@
            },
            dotted_address(hostname.spec_bytes()) is None && cache_find(old(self).cached(), hostname@, 0) is Some ==> {
                &&& r matches Ok(ip) && cache_find(old(self).cached(), hostname@, 0) == Some(ip@)
                &&& *final(self) == *old(self)
                &&& *final(st) == *old(st)
                &&& final(frames)@ == old(frames)@
            },
            dotted_address(hostname.spec_bytes()) is None && cache_find(old(self).cached(), hostname@, 0) is None ==> {
                &&& final(self).next_id() == next_query_id(old(self).next_id())
                &&& final(self).servers() == old(self).servers()
                &&& final(st).arp == old(st).arp
                &&& final(st).tcp == old(st).tcp
                &&& old(frames)@.len() <= final(frames)@.len()
                &&& final(frames)@.subrange(0, old(frames)@.len() as int) == old(frames)@
                &&& (r matches Ok(ip) ==> final(self).cached() == seq![(hostname@, ip@)] + old(self).cached()
                    && exists|resp: Seq<u8>| reply_address(resp, old(self).next_id()) == Some(ip@))
                &&& (r matches Err(e) ==> e@ == "DNS resolution failed"@ && final(self).cached() == old(self).cached())
            },
    {
        if let Some(ip) = parse_ip_address(hostname) {
            return Ok(ip);
        }
        if let Some(ip) = self.cache_lookup(hostname) {
            return Ok(ip);
        }
        let qid = self.query_id;
        let query = DnsMessage::new_query(qid, hostname, TYPE_A);
        self.query_id = self.query_id.wrapping_add(1);
        let query_bytes = query.to_bytes();
        let wanted = query.header.id();
        proof {
            crate::net::arp::lemma_swap16_involutive(qid);
        }
        let ghost old_frames = frames@;
        let ghost start_self = *self;
        let mut idx: usize = 0;
        while idx < self.dns_servers.len()
            invariant
                idx <= self.dns_servers@.len(),
                wanted == qid,
                qid == old(self).next_id(),
                dotted_address(hostname.spec_bytes()) is None,
                cache_find(old(self).cached(), hostname@, 0) is None,
                start_self.next_id() == next_query_id(old(self).next_id()),
                start_self.servers() == old(self).servers(),
                start_self.cached() == old(self).cached(),
                *self == start_self,
                old(st).arp == st.arp,
                old(st).tcp == st.tcp,
                old_frames == old(frames)@,
                old_frames.len() <= frames@.len(),
                frames@.subrange(0, old_frames.len() as int) == old_frames,
            decreases self.dns_servers@.len() - idx,
        {
            let server = self.dns_servers[idx];
            idx = idx + 1;
            if !send_room(&st.stats, query_bytes.len()) {
                continue;
            }
            let sent = udp::send_to(&st.udp, &st.arp, &mut st.stats, DNS_CLIENT_PORT, query_bytes.clone(), server, udp::PORT_DNS);
            if let Ok(frame) = sent {
                let ghost before = frames@;
                frames.push(frame);
                assert(frames@.subrange(0, old_frames.len() as int) =~= before.subrange(0, old_frames.len() as int));
                if let Ok(Some((_, _, response_data))) = udp::recv_from(&mut st.udp, DNS_CLIENT_PORT) {
                    if let Some((ip, ttl)) = answer_from_reply(response_data.as_slice(), wanted) {
                        let ghost cached_before = self.cached();
                        self.cache.insert(0, (hostname.to_owned(), DnsCacheEntry { ip_address: ip, ttl, timestamp: 0 }));
                        assert(self.cached() =~= seq![(hostname@, ip@)] + cached_before);
                        assert(reply_address(response_data@, old(self).next_id()) == Some(ip@));
                        return Ok(ip);
                    }
                }
            }
        }
        Err("DNS resolution failed")
    }

    /// A reverse lookup: the query for the address's in-addr.arpa name is
    /// built and the next id used, but nothing is sent and the lookup fails.
    pub fn resolve_reverse(&mut self, ip: Ipv4Address) -> (r: Result<String, &'static str>)
        ensures
            r matches Err(e) && e@ == "Reverse DNS not fully implemented"@,
            final(self).next_id() == next_query_id(old(self).next_id()),
            final(self).servers() == old(self).servers(),
            final(self).cached() == old(self).cached(),
    {
        let name = reverse_name(&ip);
        let _query = DnsMessage::new_query(self.query_id, name.as_str(), TYPE_PTR);
        self.query_id = self.query_id.wrapping_add(1);
        Err("Reverse DNS not fully implemented")
    }

    /// Empties the cache.
    pub fn clear_cache(&mut self)
        ensures
            final(self).cached().len() == 0,
            final(self).servers() == old(self).servers(),
            final(self).next_id() == old(self).next_id(),
    {
        self.cache.clear();
    }
}

/// Resolves `hostname` with `resolver` (see `DnsResolver::resolve`); a
/// failure gives `None`.
pub fn resolve_hostname(resolver: &mut DnsResolver, st: &mut NetworkState, hostname: &str, frames: &mut Vec<EthernetFrame>) -> (r: Option<Ipv4Address>)
    ensures
        dotted_address(hostname.spec_bytes()) matches Some(a) ==> (r matches Some(ip) && ip@ == a),
        dotted_address(hostname.spec_bytes()) is None && cache_find(old(resolver).cached(), hostname@, 0) is Some
            ==> (r matches Some(ip) && cache_find(old(resolver).cached(), hostname@, 0) == Some(ip@)),
        r matches Some(ip) ==> dotted_address(hostname.spec_bytes()) == Some(ip@)
            || cache_find(old(resolver).cached(), hostname@, 0) == Some(ip@)
            || final(resolver).cached() == seq![(hostname@, ip@)] + old(resolver).cached(),
        r is None ==> final(resolver).cached() == old(resolver).cached(),
{
    match resolver.resolve(st, hostname, frames) {
        Ok(ip) => Some(ip),
        Err(_) => None,
    }
}

/// Replaces the resolver's servers, unless `servers` is empty.
pub fn set_dns_servers(resolver: &mut DnsResolver, servers: Vec<Ipv4Address>)
    ensures
        final(resolver).servers() == (if servers@.len() == 0 { old(resolver).servers() } else { servers@ }),
        final(resolver).cached() == old(resolver).cached(),
        final(resolver).next_id() == old(resolver).next_id(),
{
    resolver.set_dns_servers(servers);
}

/// Lookups of other record types are not supported: the result is always
/// the error.
pub fn resolve_hostname_with_type(hostname: &str, record_type: u16) -> (r: Result<Vec<DnsRecord>, &'static str>)
    ensures
        r matches Err(e) && e@ == "Extended DNS resolution not implemented"@,
{
    Err("Extended DNS resolution not implemented")
}

pub const DNS_TYPE_A: u16 = TYPE_A;
pub const DNS_TYPE_AAAA: u16 = TYPE_AAAA;
pub const DNS_TYPE_CNAME: u16 = TYPE_CNAME;
pub const DNS_TYPE_MX: u16 = TYPE_MX;
pub const DNS_TYPE_TXT: u16 = TYPE_TXT;
pub const DNS_TYPE_NS: u16 = TYPE_NS;
pub const DNS_TYPE_PTR: u16 = TYPE_PTR;

} // verus!
