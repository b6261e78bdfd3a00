//! DHCP client: message building and parsing, and the client state machine.

use vstd::prelude::*;
use crate::net::{be16, be32, be_bytes16, be_bytes32, swap32, to_be16, to_be32, push_be16, push_be32, extend_bytes,
    read_be16, read_be32};
use crate::net::ip::{Ipv4Address, ip4};
use crate::net::ethernet::MacAddress;
use crate::net::udp::{UdpSockets, PORT_DHCP_CLIENT, PORT_DHCP_SERVER};

verus! {

broadcast use vstd::std_specs::btree::group_btree_axioms;

pub const DHCP_DISCOVER: u8 = 1;
pub const DHCP_OFFER: u8 = 2;
pub const DHCP_REQUEST: u8 = 3;
pub const DHCP_DECLINE: u8 = 4;
pub const DHCP_ACK: u8 = 5;
pub const DHCP_NAK: u8 = 6;
pub const DHCP_RELEASE: u8 = 7;
pub const DHCP_INFORM: u8 = 8;

pub const DHCP_OPT_PAD: u8 = 0;
pub const DHCP_OPT_SUBNET_MASK: u8 = 1;
pub const DHCP_OPT_ROUTER: u8 = 3;
pub const DHCP_OPT_DNS_SERVER: u8 = 6;
pub const DHCP_OPT_HOSTNAME: u8 = 12;
pub const DHCP_OPT_DOMAIN_NAME: u8 = 15;
pub const DHCP_OPT_REQUESTED_IP: u8 = 50;
pub const DHCP_OPT_LEASE_TIME: u8 = 51;
pub const DHCP_OPT_MESSAGE_TYPE: u8 = 53;
pub const DHCP_OPT_SERVER_ID: u8 = 54;
pub const DHCP_OPT_PARAM_REQUEST: u8 = 55;
pub const DHCP_OPT_MAX_MESSAGE_SIZE: u8 = 57;
pub const DHCP_OPT_RENEWAL_TIME: u8 = 58;
pub const DHCP_OPT_REBINDING_TIME: u8 = 59;
pub const DHCP_OPT_CLIENT_ID: u8 = 61;
pub const DHCP_OPT_END: u8 = 255;

pub const BOOTREQUEST: u8 = 1;
pub const BOOTREPLY: u8 = 2;
pub const HTYPE_ETHERNET: u8 = 1;
pub const FLAG_BROADCAST: u16 = 0x8000;

/// The magic cookie that opens the options, 99.130.83.99.
pub open spec fn magic_cookie() -> Seq<u8> {
    seq![99u8, 130, 83, 99]
}

/// A DHCP message as held in memory: `xid`, `secs` and `flags` hold what
/// was stored in them.
#[derive(Debug, Clone, Copy)]
pub struct DhcpMessage {
    pub op: u8,
    pub htype: u8,
    pub hlen: u8,
    pub hops: u8,
    pub xid: u32,
    pub secs: u16,
    pub flags: u16,
    pub ciaddr: [u8; 4],
    pub yiaddr: [u8; 4],
    pub siaddr: [u8; 4],
    pub giaddr: [u8; 4],
    pub chaddr: [u8; 16],
    pub sname: [u8; 64],
    pub file: [u8; 128],
    pub options: [u8; 312],
}

/// The option bytes of a DISCOVER from `mac`.
pub open spec fn discover_options(mac: Seq<u8>) -> Seq<u8> {
    magic_cookie() + seq![DHCP_OPT_MESSAGE_TYPE, 1, DHCP_DISCOVER] + seq![DHCP_OPT_CLIENT_ID, 7, HTYPE_ETHERNET] + mac
        + seq![DHCP_OPT_PARAM_REQUEST, 4, DHCP_OPT_SUBNET_MASK, DHCP_OPT_ROUTER, DHCP_OPT_DNS_SERVER, DHCP_OPT_DOMAIN_NAME]
        + seq![DHCP_OPT_END]
}

/// The option bytes of a REQUEST from `mac` for `ip` offered by `server`.
pub open spec fn request_options(mac: Seq<u8>, ip: Seq<u8>, server: Seq<u8>) -> Seq<u8> {
    magic_cookie() + seq![DHCP_OPT_MESSAGE_TYPE, 1, DHCP_REQUEST] + seq![DHCP_OPT_REQUESTED_IP, 4] + ip
        + seq![DHCP_OPT_SERVER_ID, 4] + server + seq![DHCP_OPT_CLIENT_ID, 7, HTYPE_ETHERNET] + mac
        + seq![DHCP_OPT_PARAM_REQUEST, 4, DHCP_OPT_SUBNET_MASK, DHCP_OPT_ROUTER, DHCP_OPT_DNS_SERVER, DHCP_OPT_DOMAIN_NAME]
        + seq![DHCP_OPT_END]
}

/// `s` followed by zeros up to `n` bytes.
pub open spec fn zero_padded(s: Seq<u8>, n: nat) -> Seq<u8> {
    Seq::new(n, |i: int| if i < s.len() { s[i] } else { 0u8 })
}

/// Whether `m` is the base message for `mac` and `xid`, apart from `op`,
/// `flags` and the options.
pub open spec fn base_message(m: DhcpMessage, mac: Seq<u8>, xid: u32) -> bool {
    &&& m.htype == HTYPE_ETHERNET
    &&& m.hlen == 6
    &&& m.hops == 0
    &&& m.xid == swap32(xid)
    &&& m.secs == 0
    &&& m.ciaddr@ == seq![0u8, 0, 0, 0]
    &&& m.yiaddr@ == seq![0u8, 0, 0, 0]
    &&& m.siaddr@ == seq![0u8, 0, 0, 0]
    &&& m.giaddr@ == seq![0u8, 0, 0, 0]
    &&& m.chaddr@ == zero_padded(mac, 16)
    &&& m.sname@ == Seq::new(64, |i: int| 0u8)
    &&& m.file@ == Seq::new(128, |i: int| 0u8)
}

/// The 548 bytes of a message.
pub open spec fn message_image(m: DhcpMessage) -> Seq<u8> {
    seq![m.op, m.htype, m.hlen, m.hops] + be_bytes32(m.xid) + be_bytes16(m.secs) + be_bytes16(m.flags)
        + m.ciaddr@ + m.yiaddr@ + m.siaddr@ + m.giaddr@ + m.chaddr@ + m.sname@ + m.file@ + m.options@
}

/// Copies `src` into the front of a zeroed array of `N` bytes.
fn padded_array<const N: usize>(src: &[u8]) -> (r: [u8; N])
    requires
        src@.len() <= N,
    ensures
        r@ == zero_padded(src@, N as nat),
{
    let mut a = [0u8; N];
    let mut i: usize = 0;
    while i < src.len()
        invariant
            src@.len() <= N,
            i <= src@.len(),
            a@.len() == N,
            forall|j: int| 0 <= j < i ==> a@[j] == src@[j],
            forall|j: int| i <= j < N ==> a@[j] == 0u8,
        decreases src@.len() - i,
    {
        a[i] = src[i];
        i = i + 1;
    }
    assert(a@ =~= zero_padded(src@, N as nat));
    a
}

impl DhcpMessage {
    /// A DISCOVER from `mac` with transaction `xid`, broadcast flag set.
    pub fn new_discover(mac_addr: MacAddress, xid: u32) -> (r: Self)
        ensures
            base_message(r, mac_addr@, xid),
            r.op == BOOTREQUEST,
            r.flags == crate::net::swap16(FLAG_BROADCAST),
            r.options@ == zero_padded(discover_options(mac_addr@), 312),
    {
        let mut msg = Self::new_base(mac_addr, xid);
        msg.op = BOOTREQUEST;
        msg.flags = to_be16(FLAG_BROADCAST);
        let mut options: Vec<u8> = Vec::new();
        options.push(99); options.push(130); options.push(83); options.push(99);
        options.push(DHCP_OPT_MESSAGE_TYPE); options.push(1); options.push(DHCP_DISCOVER);
        options.push(DHCP_OPT_CLIENT_ID); options.push(7); options.push(HTYPE_ETHERNET);
        extend_bytes(&mut options, mac_addr.as_bytes());
        options.push(DHCP_OPT_PARAM_REQUEST); options.push(4);
        options.push(DHCP_OPT_SUBNET_MASK); options.push(DHCP_OPT_ROUTER);
        options.push(DHCP_OPT_DNS_SERVER); options.push(DHCP_OPT_DOMAIN_NAME);
        options.push(DHCP_OPT_END);
        proof { mac_addr.lemma_len(); }
        assert(options@ =~= discover_options(mac_addr@));
        msg.options = padded_array::<312>(options.as_slice());
        msg
    }

    /// A REQUEST from `mac` for `requested_ip` offered by `server_ip`.
    pub fn new_request(mac_addr: MacAddress, xid: u32, requested_ip: Ipv4Address, server_ip: Ipv4Address) -> (r: Self)
        ensures
            base_message(r, mac_addr@, xid),
            r.op == BOOTREQUEST,
            r.flags == crate::net::swap16(FLAG_BROADCAST),
            r.options@ == zero_padded(request_options(mac_addr@, requested_ip@, server_ip@), 312),
    {
        let mut msg = Self::new_base(mac_addr, xid);
        msg.op = BOOTREQUEST;
        msg.flags = to_be16(FLAG_BROADCAST);
        let mut options: Vec<u8> = Vec::new();
        options.push(99); options.push(130); options.push(83); options.push(99);
        options.push(DHCP_OPT_MESSAGE_TYPE); options.push(1); options.push(DHCP_REQUEST);
        options.push(DHCP_OPT_REQUESTED_IP); options.push(4);
        extend_bytes(&mut options, requested_ip.as_bytes());
        options.push(DHCP_OPT_SERVER_ID); options.push(4);
        extend_bytes(&mut options, server_ip.as_bytes());
        options.push(DHCP_OPT_CLIENT_ID); options.push(7); options.push(HTYPE_ETHERNET);
        extend_bytes(&mut options, mac_addr.as_bytes());
        options.push(DHCP_OPT_PARAM_REQUEST); options.push(4);
        options.push(DHCP_OPT_SUBNET_MASK); options.push(DHCP_OPT_ROUTER);
        options.push(DHCP_OPT_DNS_SERVER); options.push(DHCP_OPT_DOMAIN_NAME);
        options.push(DHCP_OPT_END);
        proof {
            mac_addr.lemma_len();
            requested_ip.lemma_len();
            server_ip.lemma_len();
        }
        assert(options@ =~= request_options(mac_addr@, requested_ip@, server_ip@));
        msg.options = padded_array::<312>(options.as_slice());
        msg
    }

    fn new_base(mac_addr: MacAddress, xid: u32) -> (r: Self)
        ensures
            base_message(r, mac_addr@, xid),
            r.op == 0,
            r.flags == 0,
    {
        let chaddr = padded_array::<16>(mac_addr.as_bytes());
        proof { mac_addr.lemma_len(); }
        let msg = Self {
            op: 0,
            htype: HTYPE_ETHERNET,
            hlen: 6,
            hops: 0,
            xid: to_be32(xid),
            secs: 0,
            flags: 0,
            ciaddr: [0u8; 4],
            yiaddr: [0u8; 4],
            siaddr: [0u8; 4],
            giaddr: [0u8; 4],
            chaddr,
            sname: [0u8; 64],
            file: [0u8; 128],
            options: [0u8; 312],
        };
        assert(msg.ciaddr@ =~= seq![0u8, 0, 0, 0]);
        assert(msg.sname@ =~= Seq::new(64, |i: int| 0u8));
        assert(msg.file@ =~= Seq::new(128, |i: int| 0u8));
        msg
    }

    /// The 548 bytes of the message, multi-byte fields big-endian.
    pub fn to_bytes(&self) -> (r: Vec<u8>)
        ensures
            r@ == message_image(*self),
            r@.len() == 548,
    {
        let mut bytes: Vec<u8> = Vec::with_capacity(548);
        bytes.push(self.op);
        bytes.push(self.htype);
        bytes.push(self.hlen);
        bytes.push(self.hops);
        push_be32(&mut bytes, self.xid);
        push_be16(&mut bytes, self.secs);
        push_be16(&mut bytes, self.flags);
        extend_bytes(&mut bytes, &self.ciaddr);
        extend_bytes(&mut bytes, &self.yiaddr);
        extend_bytes(&mut bytes, &self.siaddr);
        extend_bytes(&mut bytes, &self.giaddr);
        extend_bytes(&mut bytes, &self.chaddr);
        extend_bytes(&mut bytes, &self.sname);
        extend_bytes(&mut bytes, &self.file);
        extend_bytes(&mut bytes, &self.options);
        assert(bytes@ =~= message_image(*self));
        bytes
    }

    /// Parses a message of at least 240 bytes; options past the data are
    /// zero.
    pub fn from_bytes(data: &[u8]) -> (r: Option<Self>)
        ensures
            r is Some <==> data@.len() >= 240,
            r matches Some(m) ==> {
                &&& m.op == data@[0] && m.htype == data@[1] && m.hlen == data@[2] && m.hops == data@[3]
                &&& m.xid == be32(data@[4], data@[5], data@[6], data@[7])
                &&& m.secs == be16(data@[8], data@[9])
                &&& m.flags == be16(data@[10], data@[11])
                &&& m.ciaddr@ == data@.subrange(12, 16)
                &&& m.yiaddr@ == data@.subrange(16, 20)
                &&& m.siaddr@ == data@.subrange(20, 24)
                &&& m.giaddr@ == data@.subrange(24, 28)
                &&& m.chaddr@ == data@.subrange(28, 44)
                &&& m.sname@ == data@.subrange(44, 108)
                &&& m.file@ == data@.subrange(108, 236)
                &&& m.options@ == zero_padded(data@.subrange(236, if data@.len() >= 548 { 548 } else { data@.len() as int }), 312)
            },
    {
        if data.len() < 240 {
            return None;
        }
        let end = if data.len() >= 548 { 548 } else { data.len() };
        let msg = Self {
            op: data[0],
            htype: data[1],
            hlen: data[2],
            hops: data[3],
            xid: read_be32(data[4], data[5], data[6], data[7]),
            secs: read_be16(data[8], data[9]),
            flags: read_be16(data[10], data[11]),
            ciaddr: padded_array::<4>(&data[12..16]),
            yiaddr: padded_array::<4>(&data[16..20]),
            siaddr: padded_array::<4>(&data[20..24]),
            giaddr: padded_array::<4>(&data[24..28]),
            chaddr: padded_array::<16>(&data[28..44]),
            sname: padded_array::<64>(&data[44..108]),
            file: padded_array::<128>(&data[108..236]),
            options: padded_array::<312>(&data[236..end]),
        };
        assert(msg.ciaddr@ =~= data@.subrange(12, 16));
        assert(msg.yiaddr@ =~= data@.subrange(16, 20));
        assert(msg.siaddr@ =~= data@.subrange(20, 24));
        assert(msg.giaddr@ =~= data@.subrange(24, 28));
        assert(msg.chaddr@ =~= data@.subrange(28, 44));
        assert(msg.sname@ =~= data@.subrange(44, 108));
        assert(msg.file@ =~= data@.subrange(108, 236));
        Some(msg)
    }
}

/// What `String::from_utf8_lossy` makes of `bytes`: the text with each
/// invalid UTF-8 sequence replaced by U+FFFD.
pub uninterp spec fn utf8_lossy(bytes: Seq<u8>) -> Seq<char>;

/// Calls `String::from_utf8_lossy` and takes the owned text. The result is
/// named, not written out: it depends on `bytes` alone. On valid UTF-8 the
/// text is the one the bytes encode.
#[verifier::external_body]
fn string_from_utf8_lossy(bytes: &[u8]) -> (r: String)
    ensures
        r@ == utf8_lossy(bytes@),
        vstd::utf8::valid_utf8(bytes@) ==> vstd::utf8::encode_utf8(r@) == bytes@,
{
    String::from_utf8_lossy(bytes).into_owned()
}

/// The options a message carries.
#[derive(Debug)]
pub struct DhcpOptions {
    pub message_type: Option<u8>,
    pub subnet_mask: Option<Ipv4Address>,
    pub router: Option<Ipv4Address>,
    pub dns_servers: Vec<Ipv4Address>,
    pub domain_name: String,
    pub lease_time: Option<u32>,
    pub server_id: Option<Ipv4Address>,
    pub renewal_time: Option<u32>,
    pub rebinding_time: Option<u32>,
}

/// The options as plain values.
pub struct DhcpOptionsView {
    pub message_type: Option<u8>,
    pub subnet_mask: Option<Seq<u8>>,
    pub router: Option<Seq<u8>>,
    pub dns_servers: Seq<Seq<u8>>,
    pub domain_name: Seq<char>,
    pub lease_time: Option<u32>,
    pub server_id: Option<Seq<u8>>,
    pub renewal_time: Option<u32>,
    pub rebinding_time: Option<u32>,
}

/// An optional address as its octets.
pub open spec fn opt_ip(a: Option<Ipv4Address>) -> Option<Seq<u8>> {
    match a {
        Some(x) => Some(x@),
        None => None,
    }
}

/// No option set.
pub open spec fn empty_options() -> DhcpOptionsView {
    DhcpOptionsView {
        message_type: None,
        subnet_mask: None,
        router: None,
        dns_servers: Seq::empty(),
        domain_name: Seq::empty(),
        lease_time: None,
        server_id: None,
        renewal_time: None,
        rebinding_time: None,
    }
}

impl DhcpOptions {
    pub open spec fn view_opts(&self) -> DhcpOptionsView {
        DhcpOptionsView {
            message_type: self.message_type,
            subnet_mask: opt_ip(self.subnet_mask),
            router: opt_ip(self.router),
            dns_servers: self.dns_servers@.map_values(|a: Ipv4Address| a@),
            domain_name: self.domain_name@,
            lease_time: self.lease_time,
            server_id: opt_ip(self.server_id),
            renewal_time: self.renewal_time,
            rebinding_time: self.rebinding_time,
        }
    }
}

impl Default for DhcpOptions {
    fn default() -> (r: Self)
        ensures
            r.view_opts() == empty_options(),
    {
        let r = Self {
            message_type: None,
            subnet_mask: None,
            router: None,
            dns_servers: Vec::new(),
            domain_name: String::new(),
            lease_time: None,
            server_id: None,
            renewal_time: None,
            rebinding_time: None,
        };
        assert(r.view_opts().dns_servers =~= Seq::<Seq<u8>>::empty());
        r
    }
}

/// The addresses a DNS-server option of `d` lists, four bytes each.
pub open spec fn dns_list(d: Seq<u8>) -> Seq<Seq<u8>> {
    Seq::new(d.len() / 4, |j: int| d.subrange(4 * j, 4 * j + 4))
}

/// The effect of one option of type `t` with data `d`; `None` where the
/// parser would fail (a DNS-server list whose length is not a multiple of 4).
pub open spec fn apply_option(t: u8, d: Seq<u8>, acc: DhcpOptionsView) -> Option<DhcpOptionsView> {
    let l = d.len();
    if t == DHCP_OPT_MESSAGE_TYPE {
        Some(if l == 1 { DhcpOptionsView { message_type: Some(d[0]), ..acc } } else { acc })
    } else if t == DHCP_OPT_SUBNET_MASK {
        Some(if l == 4 { DhcpOptionsView { subnet_mask: Some(d), ..acc } } else { acc })
    } else if t == DHCP_OPT_ROUTER {
        Some(if l >= 4 { DhcpOptionsView { router: Some(d.take(4)), ..acc } } else { acc })
    } else if t == DHCP_OPT_DNS_SERVER {
        if l >= 4 {
            if l % 4 != 0 { None } else { Some(DhcpOptionsView { dns_servers: dns_list(d), ..acc }) }
        } else {
            Some(acc)
        }
    } else if t == DHCP_OPT_DOMAIN_NAME {
        Some(DhcpOptionsView { domain_name: utf8_lossy(d), ..acc })
    } else if t == DHCP_OPT_LEASE_TIME {
        Some(if l == 4 { DhcpOptionsView { lease_time: Some(be32(d[0], d[1], d[2], d[3])), ..acc } } else { acc })
    } else if t == DHCP_OPT_SERVER_ID {
        Some(if l == 4 { DhcpOptionsView { server_id: Some(d), ..acc } } else { acc })
    } else if t == DHCP_OPT_RENEWAL_TIME {
        Some(if l == 4 { DhcpOptionsView { renewal_time: Some(be32(d[0], d[1], d[2], d[3])), ..acc } } else { acc })
    } else if t == DHCP_OPT_REBINDING_TIME {
        Some(if l == 4 { DhcpOptionsView { rebinding_time: Some(be32(d[0], d[1], d[2], d[3])), ..acc } } else { acc })
    } else {
        Some(acc)
    }
}

/// The options parsed from position `i` of `o` on, starting from `acc`:
/// pads are skipped, the end option or a truncated option stops.
pub open spec fn options_from(o: Seq<u8>, i: int, acc: DhcpOptionsView) -> Option<DhcpOptionsView>
    decreases o.len() - i,
{
    if i < 0 || i >= o.len() {
        Some(acc)
    } else if o[i] == DHCP_OPT_END {
        Some(acc)
    } else if o[i] == DHCP_OPT_PAD {
        options_from(o, i + 1, acc)
    } else if i + 1 >= o.len() {
        Some(acc)
    } else if i + 2 + o[i + 1] > o.len() {
        Some(acc)
    } else {
        match apply_option(o[i], o.subrange(i + 2, i + 2 + o[i + 1]), acc) {
            Some(acc2) => options_from(o, i + 2 + o[i + 1], acc2),
            None => None,
        }
    }
}

/// The options of a message: none unless the magic cookie leads.
pub open spec fn parsed_options(o: Seq<u8>) -> Option<DhcpOptionsView> {
    if o.take(4) != magic_cookie() {
        Some(empty_options())
    } else {
        options_from(o, 4, empty_options())
    }
}

impl DhcpMessage {
    /// Reads the options after the magic cookie.
    pub fn parse_options(&self) -> (r: DhcpOptions)
        requires
            parsed_options(self.options@) is Some,
        ensures
            Some(r.view_opts()) == parsed_options(self.options@),
    {
        let mut opts = DhcpOptions::default();
        if !(self.options[0] == 99 && self.options[1] == 130 && self.options[2] == 83 && self.options[3] == 99) {
            proof {
                assert(self.options@.take(4) != magic_cookie()) by {
                    if self.options@.take(4) == magic_cookie() {
                        assert(self.options@[0] == self.options@.take(4)[0]);
                        assert(self.options@[1] == self.options@.take(4)[1]);
                        assert(self.options@[2] == self.options@.take(4)[2]);
                        assert(self.options@[3] == self.options@.take(4)[3]);
                    }
                }
            }
            return opts;
        }
        assert(self.options@.take(4) =~= magic_cookie());
        let ghost o = self.options@;
        let mut i: usize = 4;
        while i < 312
            invariant
                o == self.options@,
                o.len() == 312,
                4 <= i,
                options_from(o, i as int, opts.view_opts()) == options_from(o, 4, empty_options()),
                options_from(o, 4, empty_options()) is Some,
            ensures
                options_from(o, i as int, opts.view_opts()) == Some(opts.view_opts()),
                options_from(o, i as int, opts.view_opts()) == options_from(o, 4, empty_options()),
            decreases 312 - i,
        {
            let opt_type = self.options[i];
            if opt_type == DHCP_OPT_END {
                break;
            }
            if opt_type == DHCP_OPT_PAD {
                i = i + 1;
                continue;
            }
            if i + 1 >= 312 {
                break;
            }
            let opt_len = self.options[i + 1] as usize;
            if i + 2 + opt_len > 312 {
                break;
            }
            let opt_data = &self.options[i + 2..i + 2 + opt_len];
            let ghost before = opts.view_opts();
            self.apply(opt_type, opt_data, &mut opts);
            i = i + 2 + opt_len;
        }
        opts
    }

    /// Applies one option to `opts`.
    fn apply(&self, opt_type: u8, opt_data: &[u8], opts: &mut DhcpOptions)
        requires
            apply_option(opt_type, opt_data@, old(opts).view_opts()) is Some,
        ensures
            apply_option(opt_type, opt_data@, old(opts).view_opts()) == Some(final(opts).view_opts()),
    {
        let opt_len = opt_data.len();
        if opt_type == DHCP_OPT_MESSAGE_TYPE {
            if opt_len == 1 {
                opts.message_type = Some(opt_data[0]);
            }
        } else if opt_type == DHCP_OPT_SUBNET_MASK {
            if opt_len == 4 {
                opts.subnet_mask = Ipv4Address::from_bytes(opt_data);
            }
        } else if opt_type == DHCP_OPT_ROUTER {
            if opt_len >= 4 {
                opts.router = Ipv4Address::from_bytes(&opt_data[0..4]);
                assert(opt_data@.subrange(0, 4) =~= opt_data@.take(4));
            }
        } else if opt_type == DHCP_OPT_DNS_SERVER {
            if opt_len >= 4 {
                let mut servers: Vec<Ipv4Address> = Vec::new();
                let mut j: usize = 0;
                while j < opt_len
                    invariant
                        opt_len == opt_data@.len(),
                        opt_len % 4 == 0,
                        j % 4 == 0,
                        j <= opt_len,
                        servers@.len() == j / 4,
                        forall|k: int| 0 <= k < servers@.len() ==> (#[trigger] servers@[k])@ == opt_data@.subrange(4 * k, 4 * k + 4),
                    decreases opt_len - j,
                {
                    if let Some(addr) = Ipv4Address::from_bytes(&opt_data[j..j + 4]) {
                        servers.push(addr);
                    }
                    j = j + 4;
                }
                opts.dns_servers = servers;
                assert(opts.view_opts().dns_servers =~= dns_list(opt_data@));
            }
        } else if opt_type == DHCP_OPT_DOMAIN_NAME {
            opts.domain_name = string_from_utf8_lossy(opt_data);
        } else if opt_type == DHCP_OPT_LEASE_TIME {
            if opt_len == 4 {
                opts.lease_time = Some(read_be32(opt_data[0], opt_data[1], opt_data[2], opt_data[3]));
            }
        } else if opt_type == DHCP_OPT_SERVER_ID {
            if opt_len == 4 {
                opts.server_id = Ipv4Address::from_bytes(opt_data);
            }
        } else if opt_type == DHCP_OPT_RENEWAL_TIME {
            if opt_len == 4 {
                opts.renewal_time = Some(read_be32(opt_data[0], opt_data[1], opt_data[2], opt_data[3]));
            }
        } else if opt_type == DHCP_OPT_REBINDING_TIME {
            if opt_len == 4 {
                opts.rebinding_time = Some(read_be32(opt_data[0], opt_data[1], opt_data[2], opt_data[3]));
            }
        }
        assert(opts.view_opts().dns_servers =~= opts.dns_servers@.map_values(|a: Ipv4Address| a@));
    }
}

/// The client's states.
#[derive(Debug, Clone, Copy, PartialEq, Eq, Structural)]
pub enum DhcpState {
    Init,
    Selecting,
    Requesting,
    Bound,
    Renewing,
    Rebinding,
}

/// The configuration a lease gives.
#[derive(Debug)]
pub struct DhcpConfig {
    pub ip_address: Option<Ipv4Address>,
    pub subnet_mask: Option<Ipv4Address>,
    pub gateway: Option<Ipv4Address>,
    pub dns_servers: Vec<Ipv4Address>,
    pub domain_name: String,
    pub lease_time: u32,
    pub renewal_time: u32,
    pub rebinding_time: u32,
    pub server_ip: Option<Ipv4Address>,
}

/// The configuration as plain values.
pub struct DhcpConfigView {
    pub ip_address: Option<Seq<u8>>,
    pub subnet_mask: Option<Seq<u8>>,
    pub gateway: Option<Seq<u8>>,
    pub dns_servers: Seq<Seq<u8>>,
    pub domain_name: Seq<char>,
    pub lease_time: u32,
    pub renewal_time: u32,
    pub rebinding_time: u32,
    pub server_ip: Option<Seq<u8>>,
}

/// The configuration before any lease.
pub open spec fn empty_config() -> DhcpConfigView {
    DhcpConfigView {
        ip_address: None,
        subnet_mask: None,
        gateway: None,
        dns_servers: Seq::empty(),
        domain_name: Seq::empty(),
        lease_time: 0,
        renewal_time: 0,
        rebinding_time: 0,
        server_ip: None,
    }
}

impl DhcpConfig {
    pub open spec fn view_config(&self) -> DhcpConfigView {
        DhcpConfigView {
            ip_address: opt_ip(self.ip_address),
            subnet_mask: opt_ip(self.subnet_mask),
            gateway: opt_ip(self.gateway),
            dns_servers: self.dns_servers@.map_values(|a: Ipv4Address| a@),
            domain_name: self.domain_name@,
            lease_time: self.lease_time,
            renewal_time: self.renewal_time,
            rebinding_time: self.rebinding_time,
            server_ip: opt_ip(self.server_ip),
        }
    }

    /// A field-by-field copy.
    pub fn copy(&self) -> (r: Self)
        ensures
            r.view_config() == self.view_config(),
    {
        let r = Self {
            ip_address: self.ip_address,
            subnet_mask: self.subnet_mask,
            gateway: self.gateway,
            dns_servers: copy_addrs(&self.dns_servers),
            domain_name: self.domain_name.clone(),
            lease_time: self.lease_time,
            renewal_time: self.renewal_time,
            rebinding_time: self.rebinding_time,
            server_ip: self.server_ip,
        };
        assert(r.view_config().dns_servers =~= self.view_config().dns_servers);
        r
    }
}

/// A copy of a list of addresses.
fn copy_addrs(v: &Vec<Ipv4Address>) -> (r: Vec<Ipv4Address>)
    ensures
        r@ == v@,
{
    let mut out: Vec<Ipv4Address> = Vec::new();
    let mut i: usize = 0;
    while i < v.len()
        invariant
            i <= v@.len(),
            out@ == v@.take(i as int),
        decreases v@.len() - i,
    {
        out.push(v[i]);
        i = i + 1;
        assert(out@ =~= v@.take(i as int));
    }
    assert(v@.take(v@.len() as int) =~= v@);
    out
}

impl Default for DhcpConfig {
    fn default() -> (r: Self)
        ensures
            r.view_config() == empty_config(),
    {
        let r = Self {
            ip_address: None,
            subnet_mask: None,
            gateway: None,
            dns_servers: Vec::new(),
            domain_name: String::new(),
            lease_time: 0,
            renewal_time: 0,
            rebinding_time: 0,
            server_ip: None,
        };
        assert(r.view_config().dns_servers =~= Seq::<Seq<u8>>::empty());
        r
    }
}

/// A DHCP client.
pub struct DhcpClient {
    state: DhcpState,
    mac_addr: MacAddress,
    xid: u32,
    config: DhcpConfig,
}

/// Whether `data` is a message `process_message` can read without any
/// arithmetic failing: parsable options and, in an ACK without a rebinding
/// time, a lease short enough to take seven eighths of.
pub open spec fn reply_sane(data: Seq<u8>) -> bool {
    data.len() >= 240 ==> {
        let o = zero_padded(data.subrange(236, if data.len() >= 548 { 548 } else { data.len() as int }), 312);
        &&& parsed_options(o) is Some
        &&& {
            let v = parsed_options(o).unwrap();
            let lease = match v.lease_time { Some(l) => l, None => 86400 };
            v.rebinding_time is None ==> lease * 7 <= u32::MAX
        }
    }
}

/// What a client that was `before` does with the reply `data`: its result
/// `r`, its state `after`, and the configuration it publishes.
pub open spec fn reply_outcome(before: DhcpClient, after: DhcpClient, published_after: DhcpConfig,
    sockets_before: Map<u16, crate::net::udp::UdpSocket>, data: Seq<u8>, r: Result<Option<DhcpMessage>, &'static str>) -> bool {
    &&& (data.len() < 240 ==> (r matches Err(e) && e@ == "Invalid DHCP message"@))
    &&& (data.len() >= 240 && be32(data[4], data[5], data[6], data[7]) != swap32(before.xid_spec()) ==>
        r == Ok::<Option<DhcpMessage>, &'static str>(None) && after.state_spec() == before.state_spec())
    &&& (before.state_spec() != DhcpState::Selecting && before.state_spec() != DhcpState::Requesting ==>
        (r is Err || r == Ok::<Option<DhcpMessage>, &'static str>(None)) && after.state_spec() == before.state_spec()
        && after.config_spec() == before.config_spec())
    &&& ({
        let o = zero_padded(data.subrange(236, if data.len() >= 548 { 548 } else { data.len() as int }), 312);
        let v = parsed_options(o).unwrap();
        data.len() >= 240 && be32(data[4], data[5], data[6], data[7]) == swap32(before.xid_spec()) ==> {
            &&& (before.state_spec() == DhcpState::Selecting && v.message_type == Some(DHCP_OFFER)) ==> {
                &&& (v.server_id is None <==> r is Err)
                &&& r matches Err(e) ==> e@ == "No server ID in OFFER"@
                &&& r matches Ok(m) ==> after.state_spec() == DhcpState::Requesting && (m matches Some(req)
                    && req.options@ == zero_padded(request_options(before.mac_spec(), data.subrange(16, 20), v.server_id.unwrap()), 312))
            }
            &&& (before.state_spec() == DhcpState::Requesting && v.message_type == Some(DHCP_ACK)) ==> {
                let lease = match v.lease_time { Some(l) => l, None => 86400u32 };
                &&& r == Ok::<Option<DhcpMessage>, &'static str>(None)
                &&& after.state_spec() == DhcpState::Bound
                &&& after.config_spec() == (DhcpConfigView {
                    ip_address: Some(data.subrange(16, 20)),
                    subnet_mask: v.subnet_mask,
                    gateway: v.router,
                    dns_servers: v.dns_servers,
                    domain_name: v.domain_name,
                    lease_time: lease,
                    renewal_time: match v.renewal_time { Some(t) => t, None => (lease / 2) as u32 },
                    rebinding_time: match v.rebinding_time { Some(t) => t, None => (lease * 7 / 8) as u32 },
                    server_ip: v.server_id,
                })
                &&& published_after.view_config().ip_address == Some(data.subrange(16, 20))
                &&& published_after.view_config().dns_servers == v.dns_servers
                &&& (v.router is Some ==> published_after.view_config().gateway == v.router)
            }
            &&& (before.state_spec() == DhcpState::Requesting && v.message_type == Some(DHCP_NAK)) ==> {
                &&& (r is Err <==> sockets_before.contains_key(PORT_DHCP_CLIENT))
                &&& r is Ok ==> after.state_spec() == DhcpState::Selecting
                &&& r is Err ==> after.state_spec() == DhcpState::Init
            }
        }
    })
}

impl DhcpClient {
    /// The client's state.
    pub closed spec fn state_spec(&self) -> DhcpState {
        self.state
    }

    /// The client's hardware address.
    pub closed spec fn mac_spec(&self) -> Seq<u8> {
        self.mac_addr@
    }

    /// The client's transaction identifier.
    pub closed spec fn xid_spec(&self) -> u32 {
        self.xid
    }

    /// The client's configuration.
    pub closed spec fn config_spec(&self) -> DhcpConfigView {
        self.config.view_config()
    }

    /// A client in the Init state; its transaction identifier is the
    /// counter advanced by 0x1000 (wrapping).
    pub fn new(mac_addr: MacAddress, xid_counter: &mut u32) -> (r: Self)
        ensures
            r.state_spec() == DhcpState::Init,
            r.mac_spec() == mac_addr@,
            *final(xid_counter) == ((*old(xid_counter) + 0x1000) % 0x1_0000_0000) as u32,
            r.xid_spec() == *final(xid_counter),
            r.config_spec() == empty_config(),
    {
        let xid = Self::generate_xid(xid_counter);
        Self { state: DhcpState::Init, mac_addr, xid, config: DhcpConfig::default() }
    }

    fn generate_xid(counter: &mut u32) -> (r: u32)
        ensures
            *final(counter) == ((*old(counter) + 0x1000) % 0x1_0000_0000) as u32,
            r == *final(counter),
    {
        *counter = if *counter > u32::MAX - 0x1000 { *counter - (u32::MAX - 0x1000) - 1 } else { *counter + 0x1000 };
        *counter
    }

    /// Binds the client port and gives the DISCOVER to broadcast; the
    /// client moves to Selecting. A bound client port is an error.
    pub fn start(&mut self, sockets: &mut UdpSockets) -> (r: Result<DhcpMessage, &'static str>)
        ensures
            r is Err <==> old(sockets)@.contains_key(PORT_DHCP_CLIENT),
            r matches Err(e) ==> e@ == "Port already in use"@ && final(sockets)@ == old(sockets)@
                && final(self).state_spec() == old(self).state_spec(),
            r matches Ok(m) ==> final(self).state_spec() == DhcpState::Selecting
                && final(sockets)@.dom() == old(sockets)@.dom().insert(PORT_DHCP_CLIENT)
                && m.options@ == zero_padded(discover_options(old(self).mac_spec()), 312)
                && base_message(m, old(self).mac_spec(), old(self).xid_spec()),
            final(self).mac_spec() == old(self).mac_spec(),
            final(self).xid_spec() == old(self).xid_spec(),
            final(self).config_spec() == old(self).config_spec(),
    {
        crate::net::udp::bind(sockets, PORT_DHCP_CLIENT)?;
        let msg = self.send_discover();
        self.state = DhcpState::Selecting;
        Ok(msg)
    }

    fn send_discover(&self) -> (r: DhcpMessage)
        ensures
            r.options@ == zero_padded(discover_options(self.mac_addr@), 312),
            base_message(r, self.mac_addr@, self.xid),
    {
        DhcpMessage::new_discover(self.mac_addr, self.xid)
    }

    fn send_request(&mut self, offered_ip: Ipv4Address, server_ip: Ipv4Address) -> (r: DhcpMessage)
        ensures
            r.options@ == zero_padded(request_options(old(self).mac_addr@, offered_ip@, server_ip@), 312),
            base_message(r, old(self).mac_addr@, old(self).xid),
            final(self).state == DhcpState::Requesting,
            final(self).mac_addr == old(self).mac_addr,
            final(self).xid == old(self).xid,
            final(self).config.view_config() == old(self).config.view_config(),
    {
        let msg = DhcpMessage::new_request(self.mac_addr, self.xid, offered_ip, server_ip);
        self.state = DhcpState::Requesting;
        msg
    }

    /// Handles a server reply; the result is the message to broadcast
    /// next, if any. Replies for other transactions are ignored. In
    /// Selecting an OFFER (which must name its server) is answered with a
    /// REQUEST; in Requesting an ACK installs the lease (lease 86400 s by
    /// default, renewal half of it and rebinding seven eighths by default),
    /// binds the client and publishes the configuration, and a NAK restarts
    /// the client.
    pub fn process_message(&mut self, sockets: &mut UdpSockets, published: &mut DhcpConfig, data: &[u8]) -> (r: Result<Option<DhcpMessage>, &'static str>)
        requires
            reply_sane(data@),
        ensures
            reply_outcome(*old(self), *final(self), *final(published), old(sockets)@, data@, r),
            final(self).mac_spec() == old(self).mac_spec(),
            final(self).xid_spec() == old(self).xid_spec(),
    {
        let msg = match DhcpMessage::from_bytes(data) {
            Some(m) => m,
            None => { return Err("Invalid DHCP message"); },
        };
        if msg.xid != to_be32(self.xid) {
            return Ok(None);
        }
        let options = msg.parse_options();
        match self.state {
            DhcpState::Selecting => {
                if options.message_type == Some(DHCP_OFFER) {
                    let offered_ip = match Ipv4Address::from_bytes(&msg.yiaddr) {
                        Some(a) => a,
                        None => { return Err("Invalid offered IP"); },
                    };
                    let server_ip = match options.server_id {
                        Some(s) => s,
                        None => { return Err("No server ID in OFFER"); },
                    };
                    let req = self.send_request(offered_ip, server_ip);
                    return Ok(Some(req));
                }
                Ok(None)
            },
            DhcpState::Requesting => {
                if options.message_type == Some(DHCP_ACK) {
                    let ghost v = options.view_opts();
                    self.config.ip_address = Ipv4Address::from_bytes(&msg.yiaddr);
                    self.config.subnet_mask = options.subnet_mask;
                    self.config.gateway = options.router;
                    self.config.dns_servers = options.dns_servers;
                    self.config.domain_name = options.domain_name;
                    self.config.lease_time = match options.lease_time {
                        Some(l) => l,
                        None => 86400,
                    };
                    self.config.renewal_time = match options.renewal_time {
                        Some(t) => t,
                        None => self.config.lease_time / 2,
                    };
                    self.config.rebinding_time = match options.rebinding_time {
                        Some(t) => t,
                        None => self.config.lease_time * 7 / 8,
                    };
                    self.config.server_ip = options.server_id;
                    self.state = DhcpState::Bound;
                    self.apply_configuration(published);
                    Ok(None)
                } else if options.message_type == Some(DHCP_NAK) {
                    self.state = DhcpState::Init;
                    match self.start(sockets) {
                        Ok(_discover) => Ok(Some(_discover)),
                        Err(e) => Err(e),
                    }
                } else {
                    Ok(None)
                }
            },
            _ => Ok(None),
        }
    }

    /// Publishes the address, gateway and name servers of the lease.
    fn apply_configuration(&self, published: &mut DhcpConfig)
        ensures
            final(published).view_config() == (DhcpConfigView {
                ip_address: if self.config.ip_address is Some { opt_ip(self.config.ip_address) } else { old(published).view_config().ip_address },
                gateway: if self.config.gateway is Some { opt_ip(self.config.gateway) } else { old(published).view_config().gateway },
                dns_servers: self.config.view_config().dns_servers,
                ..old(published).view_config()
            }),
    {
        if let Some(ip) = self.config.ip_address {
            published.ip_address = Some(ip);
        }
        if let Some(gw) = self.config.gateway {
            published.gateway = Some(gw);
        }
        published.dns_servers = copy_addrs(&self.config.dns_servers);
    }

    /// Asks to renew a bound lease; the result is the REQUEST to send, when
    /// the lease names both an address and a server.
    pub fn renew(&mut self) -> (r: Result<Option<DhcpMessage>, &'static str>)
        ensures
            r is Err <==> old(self).state_spec() != DhcpState::Bound,
            r matches Err(e) ==> e@ == "Not in bound state"@ && final(self).state_spec() == old(self).state_spec(),
            r matches Ok(m) ==> (m is Some <==> (old(self).config_spec().ip_address is Some && old(self).config_spec().server_ip is Some))
                && final(self).state_spec() == (if m is Some { DhcpState::Renewing } else { DhcpState::Bound }),
            final(self).config_spec() == old(self).config_spec(),
            final(self).mac_spec() == old(self).mac_spec(),
            final(self).xid_spec() == old(self).xid_spec(),
    {
        if self.state != DhcpState::Bound {
            return Err("Not in bound state");
        }
        match (self.config.ip_address, self.config.server_ip) {
            (Some(ip), Some(server)) => {
                let m = self.send_request(ip, server);
                self.state = DhcpState::Renewing;
                Ok(Some(m))
            },
            _ => Ok(None),
        }
    }

    /// Drops the lease: back to Init with an empty configuration.
    pub fn release(&mut self) -> (r: Result<(), &'static str>)
        ensures
            r is Ok,
            final(self).state_spec() == DhcpState::Init,
            final(self).config_spec() == empty_config(),
            final(self).mac_spec() == old(self).mac_spec(),
            final(self).xid_spec() == old(self).xid_spec(),
    {
        self.state = DhcpState::Init;
        self.config = DhcpConfig::default();
        Ok(())
    }
}

/// The client, the configuration it publishes, and the counter transaction
/// identifiers come from.
pub struct DhcpService {
    pub client: Option<DhcpClient>,
    pub config: DhcpConfig,
    pub xid_counter: u32,
}

impl DhcpService {
    /// No client yet, an empty configuration, the counter at 0x12345678.
    pub fn new() -> (r: Self)
        ensures
            r.client is None,
            r.config.view_config() == empty_config(),
            r.xid_counter == 0x12345678,
    {
        Self { client: None, config: DhcpConfig::default(), xid_counter: 0x12345678 }
    }
}

/// Starts a client for this host's interface; it replaces any earlier one
/// once it has started. The result is the DISCOVER to broadcast.
pub fn start_dhcp_client(service: &mut DhcpService, sockets: &mut UdpSockets) -> (r: Result<DhcpMessage, &'static str>)
    ensures
        r is Err <==> old(sockets)@.contains_key(PORT_DHCP_CLIENT),
        r is Ok ==> (final(service).client matches Some(c) && c.state_spec() == DhcpState::Selecting
            && c.mac_spec() == crate::net::ethernet::our_mac()),
        r is Err ==> final(sockets)@ == old(sockets)@,
{
    let mac_addr = crate::net::ethernet::get_mac_address();
    let mut client = DhcpClient::new(mac_addr, &mut service.xid_counter);
    let m = client.start(sockets)?;
    service.client = Some(client);
    Ok(m)
}

/// Hands a reply to the client, if there is one.
pub fn process_dhcp_reply(service: &mut DhcpService, sockets: &mut UdpSockets, data: &[u8]) -> (r: Result<Option<DhcpMessage>, &'static str>)
    requires
        reply_sane(data@),
    ensures
        old(service).client is None ==> r == Ok::<Option<DhcpMessage>, &'static str>(None)
            && final(service).client is None && *final(sockets) == *old(sockets),
        old(service).client matches Some(c) ==> (final(service).client matches Some(c2)
            && reply_outcome(c, c2, final(service).config, old(sockets)@, data@, r)
            && c2.mac_spec() == c.mac_spec() && c2.xid_spec() == c.xid_spec()),
        (old(service).client is Some && data@.len() < 240) ==> r is Err,
        final(service).xid_counter == old(service).xid_counter,
{
    match service.client.take() {
        Some(mut client) => {
            let r = client.process_message(sockets, &mut service.config, data);
            service.client = Some(client);
            r
        },
        None => Ok(None),
    }
}

/// A copy of the published configuration.
pub fn get_dhcp_config(service: &DhcpService) -> (r: DhcpConfig)
    ensures
        r.view_config() == service.config.view_config(),
{
    service.config.copy()
}

/// The published address.
pub fn get_assigned_ip(service: &DhcpService) -> (r: Option<Ipv4Address>)
    ensures
        r == service.config.ip_address,
{
    service.config.ip_address
}

/// The published gateway.
pub fn get_gateway(service: &DhcpService) -> (r: Option<Ipv4Address>)
    ensures
        r == service.config.gateway,
{
    service.config.gateway
}

/// The published name servers.
pub fn get_dns_servers(service: &DhcpService) -> (r: Vec<Ipv4Address>)
    ensures
        r@ == service.config.dns_servers@,
{
    copy_addrs(&service.config.dns_servers)
}

} // verus!
