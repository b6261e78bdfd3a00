//! The WPA supplicant: EAPOL-Key frames, key derivation, the four-way
//! handshake and the SAE exchange.
//!
//! The keyed hash here is a placeholder that always gives 32 zero bytes,
//! so every derived key and message integrity code is zero; the frames,
//! the handshake states and the checks are as a real exchange has them.
//! Fresh random bytes (nonces, group keys, SAE values) are taken as
//! arguments.

use vstd::prelude::*;
use vstd::string::StringSliceAdditionalSpecFns;
use crate::net::{swap16, to_be16, extend_bytes};

verus! {

pub const WPA_NONCE_LEN: usize = 32;
pub const WPA_KEY_RSC_LEN: usize = 8;
pub const WPA_REPLAY_COUNTER_LEN: usize = 8;
pub const WPA_MIC_LEN: usize = 16;
pub const WPA_PMK_LEN: usize = 32;
pub const WPA_PTK_LEN: usize = 64;
pub const WPA_GTK_MAX_LEN: usize = 32;

#[derive(Debug, Clone, Copy, PartialEq, Eq, Structural)]
pub enum WpaVersion {
    Wpa,
    Wpa2,
    Wpa3,
}

#[derive(Debug, Clone, Copy, PartialEq, Eq, Structural)]
pub enum WpaKeyMgmt {
    NoKeyMgmt,
    Wpa2Psk,
    Wpa2Enterprise,
    Wpa3Sae,
    Wpa3Enterprise,
    Owe,
    Fils,
}

#[derive(Debug, Clone, Copy, PartialEq, Eq, Structural)]
pub enum WpaCipher {
    NoCipher,
    Wep40,
    Wep104,
    Tkip,
    Ccmp,
    Ccmp256,
    Gcmp,
    Gcmp256,
}

#[derive(Debug, Clone, Copy, PartialEq, Eq, Structural)]
pub enum EapolKeyType {
    Rc4,
    Rsn,
}

impl EapolKeyType {
    /// The descriptor type number: 1 for RC4, 2 for RSN.
    pub fn code(&self) -> (r: u8)
        ensures
            r == (if *self == EapolKeyType::Rc4 { 1u8 } else { 2u8 }),
    {
        match self {
            EapolKeyType::Rc4 => 1,
            EapolKeyType::Rsn => 2,
        }
    }
}

#[derive(Debug, Clone, Copy, PartialEq, Eq, Structural)]
pub enum KeyInfo {
    KeyType,
    Install,
    KeyAck,
    KeyMic,
    Secure,
    Error,
    Request,
    EncKeyData,
}

/// The bit of a key-information flag.
pub open spec fn key_info_bit(k: KeyInfo) -> u16 {
    match k {
        KeyInfo::KeyType => 0x0008,
        KeyInfo::Install => 0x0040,
        KeyInfo::KeyAck => 0x0080,
        KeyInfo::KeyMic => 0x0100,
        KeyInfo::Secure => 0x0200,
        KeyInfo::Error => 0x0400,
        KeyInfo::Request => 0x0800,
        KeyInfo::EncKeyData => 0x1000,
    }
}

impl KeyInfo {
    /// The flag's bit (see `key_info_bit`).
    pub fn bit(&self) -> (r: u16)
        ensures
            r == key_info_bit(*self),
    {
        match self {
            KeyInfo::KeyType => 0x0008,
            KeyInfo::Install => 0x0040,
            KeyInfo::KeyAck => 0x0080,
            KeyInfo::KeyMic => 0x0100,
            KeyInfo::Secure => 0x0200,
            KeyInfo::Error => 0x0400,
            KeyInfo::Request => 0x0800,
            KeyInfo::EncKeyData => 0x1000,
        }
    }
}

/// The bytes a 16-bit field is stored as, low byte first.
pub open spec fn stored16(x: u16) -> Seq<u8> {
    seq![(x % 256) as u8, (x / 256) as u8]
}

fn push_stored16(v: &mut Vec<u8>, x: u16)
    ensures
        final(v)@ == old(v)@ + stored16(x),
{
    v.push((x % 256) as u8);
    v.push((x / 256) as u8);
    assert(final(v)@ =~= old(v)@ + stored16(x));
}

/// The EAPOL header; the body length is held big-endian.
pub struct EapolHeader {
    pub version: u8,
    pub packet_type: u8,
    pub packet_body_len: u16,
}

impl EapolHeader {
    pub fn new(version: u8, packet_type: u8, body_len: u16) -> (r: Self)
        ensures
            r.version == version && r.packet_type == packet_type,
            r.packet_body_len == swap16(body_len),
    {
        Self { version, packet_type, packet_body_len: to_be16(body_len) }
    }

    /// The header's four bytes as sent.
    pub open spec fn image(&self) -> Seq<u8> {
        seq![self.version, self.packet_type] + stored16(self.packet_body_len)
    }

    fn write(&self, v: &mut Vec<u8>)
        ensures
            final(v)@ == old(v)@ + self.image(),
    {
        v.push(self.version);
        v.push(self.packet_type);
        push_stored16(v, self.packet_body_len);
        assert(final(v)@ =~= old(v)@ + self.image());
    }
}

/// The EAPOL-Key descriptor; key information and key-data length are held
/// big-endian.
pub struct EapolKey {
    pub descriptor_type: u8,
    pub key_info: u16,
    pub key_length: u16,
    pub replay_counter: [u8; 8],
    pub nonce: [u8; 32],
    pub key_iv: [u8; 16],
    pub key_rsc: [u8; 8],
    pub key_id: [u8; 8],
    pub key_mic: [u8; 16],
    pub key_data_length: u16,
}

/// The bytes of the EAPOL header size: where the descriptor starts.
pub open spec fn key_offset() -> int {
    4
}

/// Where the integrity code lies within a descriptor.
pub open spec fn mic_offset() -> int {
    77
}

/// The size of a descriptor.
pub open spec fn key_size() -> int {
    95
}

/// `n` zero bytes.
pub open spec fn zeros(n: nat) -> Seq<u8> {
    Seq::new(n, |i: int| 0u8)
}

impl EapolKey {
    /// An empty descriptor of the given type: every field zero.
    pub fn new(descriptor_type: EapolKeyType) -> (r: Self)
        ensures
            r.descriptor_type == (if descriptor_type == EapolKeyType::Rc4 { 1u8 } else { 2u8 }),
            r.key_info == 0 && r.key_length == 0 && r.key_data_length == 0,
            r.replay_counter@ == zeros(8),
            r.nonce@ == zeros(32),
            r.key_iv@ == zeros(16),
            r.key_rsc@ == zeros(8),
            r.key_id@ == zeros(8),
            r.key_mic@ == zeros(16),
    {
        let r = Self {
            descriptor_type: descriptor_type.code(),
            key_info: 0,
            key_length: 0,
            replay_counter: [0; 8],
            nonce: [0; 32],
            key_iv: [0; 16],
            key_rsc: [0; 8],
            key_id: [0; 8],
            key_mic: [0; 16],
            key_data_length: 0,
        };
        assert(r.replay_counter@ =~= zeros(8));
        assert(r.nonce@ =~= zeros(32));
        assert(r.key_iv@ =~= zeros(16));
        assert(r.key_rsc@ =~= zeros(8));
        assert(r.key_id@ =~= zeros(8));
        assert(r.key_mic@ =~= zeros(16));
        r
    }

    /// The descriptor's bytes as sent.
    pub open spec fn image(&self) -> Seq<u8> {
        seq![self.descriptor_type] + stored16(self.key_info) + stored16(self.key_length) + self.replay_counter@
            + self.nonce@ + self.key_iv@ + self.key_rsc@ + self.key_id@ + self.key_mic@ + stored16(self.key_data_length)
    }

    fn write(&self, v: &mut Vec<u8>)
        ensures
            final(v)@ == old(v)@ + self.image(),
    {
        v.push(self.descriptor_type);
        push_stored16(v, self.key_info);
        push_stored16(v, self.key_length);
        extend_bytes(v, self.replay_counter.as_slice());
        extend_bytes(v, self.nonce.as_slice());
        extend_bytes(v, self.key_iv.as_slice());
        extend_bytes(v, self.key_rsc.as_slice());
        extend_bytes(v, self.key_id.as_slice());
        extend_bytes(v, self.key_mic.as_slice());
        push_stored16(v, self.key_data_length);
        assert(final(v)@ =~= old(v)@ + self.image());
    }

    pub fn set_key_info(&mut self, flags: u16)
        ensures
            *final(self) == (EapolKey { key_info: swap16(flags), ..*old(self) }),
    {
        self.key_info = to_be16(flags);
    }

    pub fn get_key_info(&self) -> (r: u16)
        ensures
            r == swap16(self.key_info),
    {
        to_be16(self.key_info)
    }

    /// Sets or clears the acknowledge flag.
    pub fn set_key_ack(&mut self, ack: bool)
        ensures
            *final(self) == (EapolKey { key_info: swap16(if ack { swap16(old(self).key_info) | 0x0080 } else { swap16(old(self).key_info) & !0x0080u16 }), ..*old(self) }),
    {
        let mut info = self.get_key_info();
        if ack {
            info = info | 0x0080;
        } else {
            info = info & !0x0080u16;
        }
        self.set_key_info(info);
    }

    /// Sets or clears the integrity-code flag.
    pub fn set_key_mic(&mut self, mic: bool)
        ensures
            *final(self) == (EapolKey { key_info: swap16(if mic { swap16(old(self).key_info) | 0x0100 } else { swap16(old(self).key_info) & !0x0100u16 }), ..*old(self) }),
    {
        let mut info = self.get_key_info();
        if mic {
            info = info | 0x0100;
        } else {
            info = info & !0x0100u16;
        }
        self.set_key_info(info);
    }

    /// Sets or clears the install flag.
    pub fn set_install(&mut self, install: bool)
        ensures
            *final(self) == (EapolKey { key_info: swap16(if install { swap16(old(self).key_info) | 0x0040 } else { swap16(old(self).key_info) & !0x0040u16 }), ..*old(self) }),
    {
        let mut info = self.get_key_info();
        if install {
            info = info | 0x0040;
        } else {
            info = info & !0x0040u16;
        }
        self.set_key_info(info);
    }

    /// Sets or clears the secure flag.
    pub fn set_secure(&mut self, secure: bool)
        ensures
            *final(self) == (EapolKey { key_info: swap16(if secure { swap16(old(self).key_info) | 0x0200 } else { swap16(old(self).key_info) & !0x0200u16 }), ..*old(self) }),
    {
        let mut info = self.get_key_info();
        if secure {
            info = info | 0x0200;
        } else {
            info = info & !0x0200u16;
        }
        self.set_key_info(info);
    }
}

/// The keyed hash: always 32 zero bytes.
fn hmac_sha256(key: &[u8], data: &[u8]) -> (r: Vec<u8>)
    ensures
        r@ == zeros(32),
{
    let result = crate::multimedia::codecs::filled(32, 0);
    let mut i_key_pad = crate::multimedia::codecs::filled(64, 0x36);
    let mut o_key_pad = crate::multimedia::codecs::filled(64, 0x5c);
    let mut i: usize = 0;
    while i < key.len() && i < 64
        invariant
            i_key_pad@.len() == 64,
            o_key_pad@.len() == 64,
        decreases 64 - i,
    {
        let k = key[i];
        let a = i_key_pad[i] ^ k;
        let b = o_key_pad[i] ^ k;
        i_key_pad.set(i, a);
        o_key_pad.set(i, b);
        i = i + 1;
    }
    assert(result@ =~= zeros(32));
    result
}

/// Fills `output` by PBKDF2 over the keyed hash: 32 zero bytes per block.
fn pbkdf2_sha256(password: &[u8], salt: &[u8], iterations: u32, output: &mut Vec<u8>)
    ensures
        final(output)@ == zeros(old(output)@.len()),
{
    let mut counter: u32 = 1;
    let mut pos: usize = 0;
    let n = output.len();
    while pos < n
        invariant
            n == output@.len(),
            n == old(output)@.len(),
            pos <= n,
            forall|k: int| 0 <= k < pos ==> output@[k] == 0,
        decreases n - pos,
    {
        let mut block = hmac_sha256(password, salt);
        let mut k: u32 = 1;
        while k < iterations
            invariant
                block@ == zeros(32),
            decreases iterations - k,
        {
            let u = hmac_sha256(password, block.as_slice());
            let mut j: usize = 0;
            while j < 32
                invariant
                    j <= 32,
                    block@ == zeros(32),
                    u@ == zeros(32),
                decreases 32 - j,
            {
                let x = block[j] ^ u[j];
                assert(x == 0) by (bit_vector)
                    requires x == 0u8 ^ 0u8;
                block.set(j, x);
                assert(block@ =~= zeros(32));
                j = j + 1;
            }
            k = k + 1;
        }
        let copy_len: usize = if n - pos < 32 { n - pos } else { 32 };
        let mut j: usize = 0;
        while j < copy_len
            invariant
                j <= copy_len,
                copy_len <= 32,
                pos + copy_len <= n,
                n == output@.len(),
                block@ == zeros(32),
                forall|k: int| 0 <= k < pos + j ==> output@[k] == 0,
            decreases copy_len - j,
        {
            output.set(pos + j, block[j]);
            j = j + 1;
        }
        pos = pos + copy_len;
        counter = counter.wrapping_add(1);
    }
    assert(output@ =~= zeros(n as nat));
}

/// Fills `output` by the pseudo-random function over the keyed hash: 32
/// zero bytes per block.
fn prf_sha256(key: &[u8], label: &[u8], data: &[u8], output: &mut Vec<u8>)
    requires
        old(output)@.len() <= 8192,
    ensures
        final(output)@ == zeros(old(output)@.len()),
{
    let mut counter: u8 = 0;
    let mut pos: usize = 0;
    let n = output.len();
    while pos < n
        invariant
            n == output@.len(),
            n == old(output)@.len(),
            n <= 8192,
            pos <= n,
            pos == counter * 32 || pos == n,
            forall|k: int| 0 <= k < pos ==> output@[k] == 0,
        decreases n - pos,
    {
        let mut input: Vec<u8> = Vec::new();
        extend_bytes(&mut input, label);
        input.push(0);
        extend_bytes(&mut input, data);
        input.push(counter);
        let hash = hmac_sha256(key, input.as_slice());
        let copy_len: usize = if n - pos < 32 { n - pos } else { 32 };
        let mut j: usize = 0;
        while j < copy_len
            invariant
                j <= copy_len,
                copy_len <= 32,
                pos + copy_len <= n,
                n == output@.len(),
                hash@ == zeros(32),
                forall|k: int| 0 <= k < pos + j ==> output@[k] == 0,
            decreases copy_len - j,
        {
            output.set(pos + j, hash[j]);
            j = j + 1;
        }
        pos = pos + copy_len;
        if pos < n {
            counter = counter + 1;
        }
    }
    assert(output@ =~= zeros(n as nat));
}

/// A pairwise master key.
pub struct Pmk {
    pub key: [u8; 32],
}

impl Pmk {
    /// The key PBKDF2 gives for the passphrase and SSID over 4096 rounds:
    /// with the placeholder hash, 32 zero bytes.
    pub fn from_passphrase(passphrase: &str, ssid: &[u8]) -> (r: Self)
        ensures
            r.key@ == zeros(32),
    {
        let mut out = crate::multimedia::codecs::filled(32, 0);
        pbkdf2_sha256(passphrase.as_bytes(), ssid, 4096, &mut out);
        let mut pmk: [u8; 32] = [0u8; 32];
        let mut i: usize = 0;
        while i < 32
            invariant
                i <= 32,
                out@ == zeros(32),
                forall|j: int| 0 <= j < i ==> pmk@[j] == 0,
            decreases 32 - i,
        {
            pmk[i] = out[i];
            i = i + 1;
        }
        assert(pmk@ =~= zeros(32));
        Self { key: pmk }
    }

    /// A key of exactly 32 bytes.
    pub fn from_bytes(bytes: &[u8]) -> (r: Result<Self, ()>)
        ensures
            r is Ok <==> bytes@.len() == 32,
            r matches Ok(p) ==> p.key@ == bytes@,
    {
        if bytes.len() != 32 {
            return Err(());
        }
        let mut key: [u8; 32] = [0u8; 32];
        let mut i: usize = 0;
        while i < 32
            invariant
                i <= 32,
                bytes@.len() == 32,
                forall|j: int| 0 <= j < i ==> key@[j] == bytes@[j],
            decreases 32 - i,
        {
            key[i] = bytes[i];
            i = i + 1;
        }
        assert(key@ =~= bytes@);
        Ok(Self { key })
    }
}

/// The length of the pairwise transient key for a cipher.
pub open spec fn ptk_len(c: WpaCipher) -> nat {
    match c {
        WpaCipher::Tkip | WpaCipher::Ccmp256 | WpaCipher::Gcmp | WpaCipher::Gcmp256 => 64,
        _ => 48,
    }
}

/// The lengths of the confirmation and encryption keys for a cipher.
pub open spec fn kck_kek_len(c: WpaCipher) -> (nat, nat) {
    match c {
        WpaCipher::Ccmp256 | WpaCipher::Gcmp256 => (24, 32),
        _ => (16, 16),
    }
}

/// The length of the temporal key for a cipher: what is left of the
/// transient key after the confirmation and encryption keys.
pub open spec fn tk_len(c: WpaCipher) -> nat {
    match c {
        WpaCipher::Ccmp256 | WpaCipher::Gcmp256 => 8,
        WpaCipher::Tkip | WpaCipher::Gcmp => 32,
        _ => 16,
    }
}

/// `n` zero bytes, for a count given as an integer.
pub open spec fn zeros_of(n: int) -> Seq<u8> {
    zeros(n as nat)
}

/// Whether `a` comes before `b` byte by byte.
pub open spec fn lex_less(a: Seq<u8>, b: Seq<u8>, i: int) -> bool
    decreases a.len() - i,
{
    if i < 0 || i >= a.len() || i >= b.len() {
        a.len() < b.len()
    } else if a[i] != b[i] {
        a[i] < b[i]
    } else {
        lex_less(a, b, i + 1)
    }
}

fn bytes_less(a: &[u8], b: &[u8]) -> (r: bool)
    requires
        a@.len() == b@.len(),
    ensures
        r == lex_less(a@, b@, 0),
{
    let mut i: usize = 0;
    while i < a.len()
        invariant
            i <= a@.len(),
            a@.len() == b@.len(),
            lex_less(a@, b@, 0) == lex_less(a@, b@, i as int),
        decreases a@.len() - i,
    {
        if a[i] != b[i] {
            return a[i] < b[i];
        }
        i = i + 1;
    }
    false
}

/// A pairwise transient key, split into its parts.
pub struct Ptk {
    pub kck: Vec<u8>,
    pub kek: Vec<u8>,
    pub tk: Vec<u8>,
}

impl Ptk {
    /// Expands the master key over the two addresses and nonces, each pair
    /// lower first: the key of `ptk_len` bytes splits into confirmation,
    /// encryption and temporal keys of the lengths of `kck_kek_len`. With
    /// the placeholder hash every part is zero bytes.
    pub fn derive(pmk: &Pmk, aa: &[u8; 6], spa: &[u8; 6], anonce: &[u8; 32], snonce: &[u8; 32], cipher: WpaCipher) -> (r: Self)
        ensures
            r.kck@ == zeros(kck_kek_len(cipher).0),
            r.kek@ == zeros(kck_kek_len(cipher).1),
            r.tk@ == zeros(tk_len(cipher)),
    {
        let mut data: Vec<u8> = Vec::new();
        if bytes_less(aa.as_slice(), spa.as_slice()) {
            extend_bytes(&mut data, aa.as_slice());
            extend_bytes(&mut data, spa.as_slice());
        } else {
            extend_bytes(&mut data, spa.as_slice());
            extend_bytes(&mut data, aa.as_slice());
        }
        if bytes_less(anonce.as_slice(), snonce.as_slice()) {
            extend_bytes(&mut data, anonce.as_slice());
            extend_bytes(&mut data, snonce.as_slice());
        } else {
            extend_bytes(&mut data, snonce.as_slice());
            extend_bytes(&mut data, anonce.as_slice());
        }
        let ptk_len: usize = match cipher {
            WpaCipher::Tkip => 64,
            WpaCipher::Ccmp => 48,
            WpaCipher::Ccmp256 => 64,
            WpaCipher::Gcmp | WpaCipher::Gcmp256 => 64,
            _ => 48,
        };
        let mut ptk = crate::multimedia::codecs::filled(ptk_len, 0);
        let label: [u8; 22] = [0x50, 0x61, 0x69, 0x72, 0x77, 0x69, 0x73, 0x65, 0x20, 0x6B, 0x65, 0x79, 0x20,
            0x65, 0x78, 0x70, 0x61, 0x6E, 0x73, 0x69, 0x6F, 0x6E];
        prf_sha256(pmk.key.as_slice(), label.as_slice(), data.as_slice(), &mut ptk);
        let (kck_len, kek_len): (usize, usize) = match cipher {
            WpaCipher::Ccmp256 | WpaCipher::Gcmp256 => (24, 32),
            _ => (16, 16),
        };
        let kck = vstd::slice::slice_to_vec(vstd::slice::slice_subrange(ptk.as_slice(), 0, kck_len));
        let kek = vstd::slice::slice_to_vec(vstd::slice::slice_subrange(ptk.as_slice(), kck_len, kck_len + kek_len));
        let tk = vstd::slice::slice_to_vec(vstd::slice::slice_subrange(ptk.as_slice(), kck_len + kek_len, ptk_len));
        assert(kck@ =~= zeros_of(kck_len + 0));
        assert(kek@ =~= zeros_of(kek_len + 0));
        assert(tk@ =~= zeros_of(ptk_len - kck_len - kek_len));
        Self { kck, kek, tk }
    }
}

/// A group temporal key.
pub struct Gtk {
    pub key: Vec<u8>,
    pub key_id: u8,
    pub tx_seq: u64,
    pub rx_seq: u64,
}

impl Gtk {
    /// A key of `key_len` fresh random bytes, taken from `random`.
    pub fn new(key_len: usize, key_id: u8, random: &[u8]) -> (r: Self)
        requires
            random@.len() >= key_len,
        ensures
            r.key@ == random@.take(key_len as int),
            r.key_id == key_id,
            r.tx_seq == 0 && r.rx_seq == 0,
    {
        let key = vstd::slice::slice_to_vec(vstd::slice::slice_subrange(random, 0, key_len));
        Self { key, key_id, tx_seq: 0, rx_seq: 0 }
    }
}

#[derive(Debug, Clone, Copy, PartialEq, Eq, Structural)]
pub enum HandshakeState {
    Idle,
    Message1Sent,
    Message2Received,
    Message3Sent,
    Message4Received,
    Completed,
    Failed,
}

/// The big-endian bytes of a 64-bit counter.
pub open spec fn be64(x: u64) -> Seq<u8> {
    Seq::new(8, |i: int| (((x as nat) / pow256((7 - i) as nat)) % 256) as u8)
}

/// 256 to the power `n`.
pub open spec fn pow256(n: nat) -> nat
    decreases n,
{
    if n == 0 { 1 } else { 256 * pow256((n - 1) as nat) }
}

fn be64_bytes(x: u64) -> (r: [u8; 8])
    ensures
        r@ == be64(x),
{
    let mut r: [u8; 8] = [0u8; 8];
    let mut v: u64 = x;
    let mut i: usize = 8;
    assert(pow256(0) == 1);
    assert((8 - i) as nat == 0);
    assert(x as nat / pow256((8 - i) as nat) == x as nat);
    while i > 0
        invariant
            i <= 8,
            v as nat == x as nat / pow256((8 - i) as nat),
            forall|j: int| i <= j < 8 ==> r@[j] == be64(x)[j],
        decreases i,
    {
        i = i - 1;
        r[i] = (v % 256) as u8;
        proof {
            let k = (7 - i) as nat;
            assert(pow256(k + 1) == 256 * pow256(k));
            assert(pow256(k) > 0) by {
                lemma_pow256_positive(k);
            }
            vstd::arithmetic::div_mod::lemma_div_denominator(x as int, pow256(k) as int, 256);
        }
        v = v / 256;
    }
    assert(r@ =~= be64(x));
    r
}

proof fn lemma_pow256_positive(n: nat)
    ensures
        pow256(n) > 0,
    decreases n,
{
    if n > 0 {
        lemma_pow256_positive((n - 1) as nat);
    }
}

/// The first message of the handshake: an EAPOL-Key frame of 95 bytes of
/// body with the acknowledge flag, the authenticator's nonce and the replay
/// counter.
pub open spec fn message1_bytes(anonce: Seq<u8>, replay: u64) -> Seq<u8> {
    seq![2u8, 3, 0, 95] + seq![2u8, 0x00, 0x80, 0, 0] + be64(replay) + anonce + zeros(16 + 8 + 8 + 16) + seq![0u8, 0]
}

/// The group key element: type, length, OUI, data type, key id, a reserved
/// byte, then the key; just the type without a group key.
pub open spec fn gtk_kde(gtk: Option<Gtk>) -> Seq<u8> {
    match gtk {
        Some(g) => seq![0xDDu8, ((6 + g.key@.len()) % 256) as u8, 0x00, 0x0F, 0xAC, 0x01, g.key_id & 0x03, 0] + g.key@,
        None => seq![0xDDu8],
    }
}

/// The third message: the body length and key-data length count the group
/// key element, the flags are acknowledge, integrity code and install, and
/// the element follows the descriptor.
pub open spec fn message3_bytes(anonce: Seq<u8>, replay: u64, kde: Seq<u8>) -> Seq<u8> {
    let body = (95 + (kde.len() % 65536)) as u16;
    let kl = (kde.len() % 65536) as u16;
    seq![2u8, 3] + seq![(body / 256) as u8, (body % 256) as u8] + seq![2u8, 0x01, 0xC0, 0, 0] + be64(replay) + anonce
        + zeros(16 + 8 + 8 + 16) + seq![(kl / 256) as u8, (kl % 256) as u8] + kde
}

/// Whether the integrity code of a frame is what the placeholder hash gives:
/// zero.
pub open spec fn mic_ok(frame: Seq<u8>) -> bool {
    frame.subrange(key_offset() + mic_offset(), key_offset() + mic_offset() + 16) == zeros(16)
}

/// The four-way handshake, on the authenticator's side.
pub struct FourWayHandshake {
    pub state: HandshakeState,
    pub pmk: Pmk,
    pub anonce: [u8; 32],
    pub snonce: [u8; 32],
    pub ptk: Option<Ptk>,
    pub gtk: Option<Gtk>,
    pub replay_counter: u64,
    pub retry_count: u32,
}

impl FourWayHandshake {
    /// A handshake with the master key `pmk` and the fresh nonce `anonce`.
    pub fn new(pmk: Pmk, anonce: [u8; 32]) -> (r: Self)
        ensures
            r.state == HandshakeState::Idle,
            r.pmk == pmk,
            r.anonce == anonce,
            r.snonce@ == zeros(32),
            r.ptk is None && r.gtk is None,
            r.replay_counter == 0 && r.retry_count == 0,
    {
        let r = Self { state: HandshakeState::Idle, pmk, anonce, snonce: [0; 32], ptk: None, gtk: None, replay_counter: 0, retry_count: 0 };
        assert(r.snonce@ =~= zeros(32));
        r
    }

    /// The first message (see `message1_bytes`); the counter moves on.
    pub fn create_message1(&mut self) -> (r: Vec<u8>)
        requires
            old(self).replay_counter < u64::MAX,
        ensures
            r@ == message1_bytes(old(self).anonce@, old(self).replay_counter),
            final(self).state == HandshakeState::Message1Sent,
            final(self).replay_counter == old(self).replay_counter + 1,
            final(self).anonce == old(self).anonce,
            final(self).snonce == old(self).snonce,
            final(self).ptk == old(self).ptk,
            final(self).gtk == old(self).gtk,
    {
        let mut frame: Vec<u8> = Vec::new();
        let eapol_hdr = EapolHeader::new(2, 3, 95);
        eapol_hdr.write(&mut frame);
        let mut key = EapolKey::new(EapolKeyType::Rsn);
        key.set_key_ack(true);
        key.nonce = self.anonce;
        key.replay_counter = be64_bytes(self.replay_counter);
        assert(swap16(95u16) == 0x5F00u16 && swap16(0u16) == 0u16 && swap16(0x0080u16) == 0x8000u16) by (bit_vector);
        assert((0u16 | 0x0080u16) == 0x0080u16) by (bit_vector);
        key.write(&mut frame);
        self.state = HandshakeState::Message1Sent;
        self.replay_counter = self.replay_counter + 1;
        assert(frame@ =~= message1_bytes(old(self).anonce@, old(self).replay_counter));
        frame
    }

    /// Zero in place of the integrity code: what the placeholder hash gives.
    fn calculate_mic(&self, frame: &mut Vec<u8>, kck: &[u8])
        requires
            old(frame)@.len() >= key_offset() + mic_offset() + 16,
        ensures
            final(frame)@ == old(frame)@.subrange(0, key_offset() + mic_offset()) + zeros(16)
                + old(frame)@.subrange(key_offset() + mic_offset() + 16, old(frame)@.len() as int),
    {
        let mic_at: usize = 4 + 77;
        let mut i: usize = 0;
        while i < 16
            invariant
                i <= 16,
                frame@.len() == old(frame)@.len(),
                forall|j: int| 0 <= j < frame@.len() && !(mic_at <= j < mic_at + i) ==> frame@[j] == old(frame)@[j],
                forall|j: int| mic_at <= j < mic_at + i ==> frame@[j] == 0,
                mic_at == 81,
                old(frame)@.len() >= 97,
            decreases 16 - i,
        {
            frame.set(mic_at + i, 0);
            i = i + 1;
        }
        let mic = hmac_sha256(kck, frame.as_slice());
        let mut i: usize = 0;
        while i < 16
            invariant
                i <= 16,
                mic@ == zeros(32),
                frame@.len() == old(frame)@.len(),
                forall|j: int| 0 <= j < frame@.len() && !(mic_at <= j < mic_at + 16) ==> frame@[j] == old(frame)@[j],
                forall|j: int| mic_at <= j < mic_at + 16 ==> frame@[j] == 0,
                mic_at == 81,
                old(frame)@.len() >= 97,
            decreases 16 - i,
        {
            frame.set(mic_at + i, mic[i]);
            i = i + 1;
        }
        assert(frame@ =~= old(frame)@.subrange(0, key_offset() + mic_offset()) + zeros(16)
            + old(frame)@.subrange(key_offset() + mic_offset() + 16, old(frame)@.len() as int));
    }

    /// Whether the frame's integrity code matches the one computed over the
    /// frame with that code zeroed (see `mic_ok`).
    fn verify_mic(&self, frame: &[u8], kck: &[u8]) -> (r: bool)
        requires
            frame@.len() >= key_offset() + key_size(),
        ensures
            r == mic_ok(frame@),
    {
        let mut frame_copy = vstd::slice::slice_to_vec(frame);
        let mic_at: usize = 4 + 77;
        let mut i: usize = 0;
        while i < 16
            invariant
                i <= 16,
                mic_at == 81,
                frame@.len() >= 99,
                frame_copy@.len() == frame@.len(),
            decreases 16 - i,
        {
            frame_copy.set(mic_at + i, 0);
            i = i + 1;
        }
        let calculated = hmac_sha256(kck, frame_copy.as_slice());
        let mut i: usize = 0;
        while i < 16
            invariant
                i <= 16,
                mic_at == 81,
                frame@.len() >= 99,
                calculated@ == zeros(32),
                forall|j: int| mic_at <= j < mic_at + i ==> frame@[j] == 0,
            decreases 16 - i,
        {
            if calculated[i] != frame[mic_at + i] {
                assert(frame@.subrange(81, 97)[i as int] != zeros(16)[i as int]);
                return false;
            }
            i = i + 1;
        }
        assert(frame@.subrange(81, 97) =~= zeros(16));
        true
    }

    /// Takes the second message: after the first message, a frame of a
    /// header and a descriptor at least gives the supplicant's nonce, from
    /// which the transient key (CCMP) is derived; the frame is accepted when
    /// its integrity code checks (see `mic_ok`), and the handshake fails
    /// otherwise. Any other state, or a short frame, is the error with
    /// nothing changed.
    pub fn process_message2(&mut self, frame: &[u8], aa: &[u8; 6], spa: &[u8; 6]) -> (r: Result<(), ()>)
        ensures
            (old(self).state != HandshakeState::Message1Sent || frame@.len() < key_offset() + key_size())
                ==> r is Err && *final(self) == *old(self),
            (old(self).state == HandshakeState::Message1Sent && frame@.len() >= key_offset() + key_size()) ==> {
                &&& final(self).snonce@ == frame@.subrange(17int, 49int)
                &&& final(self).ptk matches Some(p) && p.kck@ == zeros(16) && p.kek@ == zeros(16) && p.tk@ == zeros(16)
                &&& (mic_ok(frame@) ==> r is Ok && final(self).state == HandshakeState::Message2Received)
                &&& (!mic_ok(frame@) ==> r is Err && final(self).state == HandshakeState::Failed)
                &&& final(self).anonce == old(self).anonce
                &&& final(self).gtk == old(self).gtk
                &&& final(self).replay_counter == old(self).replay_counter
            },
    {
        if self.state != HandshakeState::Message1Sent {
            return Err(());
        }
        if frame.len() < 4 + 95 {
            return Err(());
        }
        let mut snonce: [u8; 32] = [0u8; 32];
        let mut i: usize = 0;
        while i < 32
            invariant
                i <= 32,
                frame@.len() >= 99,
                forall|j: int| 0 <= j < i ==> snonce@[j] == frame@[17 + j],
            decreases 32 - i,
        {
            snonce[i] = frame[17 + i];
            i = i + 1;
        }
        assert(snonce@ =~= frame@.subrange(17int, 49int));
        self.snonce = snonce;
        let ptk = Ptk::derive(&self.pmk, aa, spa, &self.anonce, &self.snonce, WpaCipher::Ccmp);
        let ok = self.verify_mic(frame, ptk.kck.as_slice());
        self.ptk = Some(ptk);
        if !ok {
            self.state = HandshakeState::Failed;
            return Err(());
        }
        self.state = HandshakeState::Message2Received;
        Ok(())
    }

    /// The group key element (see `gtk_kde`).
    fn create_gtk_kde(&self) -> (r: Vec<u8>)
        ensures
            r@ == gtk_kde(self.gtk),
    {
        let mut kde: Vec<u8> = Vec::new();
        kde.push(0xDD);
        match &self.gtk {
            Some(gtk) => {
                kde.push(((6 + (gtk.key.len() % 256)) % 256) as u8);
                kde.push(0x00);
                kde.push(0x0F);
                kde.push(0xAC);
                kde.push(0x01);
                kde.push(gtk.key_id & 0x03);
                kde.push(0);
                extend_bytes(&mut kde, gtk.key.as_slice());
                assert(((6 + (gtk.key@.len() % 256)) % 256) == ((6 + gtk.key@.len()) % 256));
            },
            None => {},
        }
        assert(kde@ =~= gtk_kde(self.gtk));
        kde
    }

    /// The third message (see `message3_bytes`), with a group key of 16
    /// fresh bytes from `random` when none was made yet; its integrity code
    /// is what the placeholder hash gives, so the frame is as built. The
    /// counter moves on.
    pub fn create_message3(&mut self, random: &[u8]) -> (r: Vec<u8>)
        requires
            old(self).replay_counter < u64::MAX,
            random@.len() >= 16,
            old(self).gtk matches Some(g) ==> g.key@.len() <= 200,
        ensures
            final(self).gtk matches Some(g) && (old(self).gtk is None ==> g.key@ == random@.take(16) && g.key_id == 1),
            old(self).gtk is Some ==> final(self).gtk == old(self).gtk,
            r@ == message3_bytes(old(self).anonce@, old(self).replay_counter, gtk_kde(final(self).gtk)),
            final(self).state == HandshakeState::Message3Sent,
            final(self).replay_counter == old(self).replay_counter + 1,
            final(self).anonce == old(self).anonce,
            final(self).ptk == old(self).ptk,
    {
        if self.gtk.is_none() {
            self.gtk = Some(Gtk::new(16, 1, random));
        }
        let mut frame: Vec<u8> = Vec::new();
        let gtk_data = self.create_gtk_kde();
        assert(gtk_data@.len() <= 208);
        let kde_len = gtk_data.len() as u16;
        let eapol_hdr = EapolHeader::new(2, 3, 95 + kde_len);
        eapol_hdr.write(&mut frame);
        let mut key = EapolKey::new(EapolKeyType::Rsn);
        key.set_key_ack(true);
        key.set_key_mic(true);
        key.set_install(true);
        key.set_secure(false);
        key.nonce = self.anonce;
        key.replay_counter = be64_bytes(self.replay_counter);
        key.key_data_length = to_be16(kde_len);
        key.write(&mut frame);
        extend_bytes(&mut frame, gtk_data.as_slice());
        let body: u16 = 95 + kde_len;
        assert(swap16(0u16) == 0u16) by (bit_vector);
        assert((((((0u16 | 0x0080u16) | 0x0100u16) | 0x0040u16) & !0x0200u16)) == 0x01C0u16) by (bit_vector);
        assert(swap16(0x01C0u16) % 256 == 0x01 && swap16(0x01C0u16) / 256 == 0xC0) by (bit_vector);
        assert(swap16(body) % 256 == (body / 256) && swap16(body) / 256 == body % 256) by (bit_vector);
        assert(swap16(kde_len) % 256 == (kde_len / 256) && swap16(kde_len) / 256 == kde_len % 256) by (bit_vector);
        let ghost built = frame@;
        assert(built =~= message3_bytes(old(self).anonce@, old(self).replay_counter, gtk_kde(self.gtk)));
        match &self.ptk {
            Some(ptk) => {
                self.calculate_mic(&mut frame, ptk.kck.as_slice());
                assert(built.subrange(81, 97) =~= zeros(16));
                assert(frame@ =~= built);
            },
            None => {},
        }
        self.state = HandshakeState::Message3Sent;
        self.replay_counter = self.replay_counter + 1;
        frame
    }

    /// Takes the fourth message: after the third message, a frame of a
    /// header and a descriptor at least completes the handshake when its
    /// integrity code checks (or no transient key was derived); otherwise
    /// the handshake fails. Any other state, or a short frame, is the error
    /// with nothing changed.
    pub fn process_message4(&mut self, frame: &[u8]) -> (r: Result<(), ()>)
        ensures
            (old(self).state != HandshakeState::Message3Sent || frame@.len() < key_offset() + key_size())
                ==> r is Err && *final(self) == *old(self),
            (old(self).state == HandshakeState::Message3Sent && frame@.len() >= key_offset() + key_size()) ==> {
                &&& ((old(self).ptk is None || mic_ok(frame@)) ==> r is Ok && final(self).state == HandshakeState::Completed)
                &&& ((old(self).ptk is Some && !mic_ok(frame@)) ==> r is Err && final(self).state == HandshakeState::Failed)
                &&& final(self).ptk == old(self).ptk
                &&& final(self).gtk == old(self).gtk
                &&& final(self).replay_counter == old(self).replay_counter
            },
    {
        if self.state != HandshakeState::Message3Sent {
            return Err(());
        }
        if frame.len() < 4 + 95 {
            return Err(());
        }
        match &self.ptk {
            Some(ptk) => {
                if !self.verify_mic(frame, ptk.kck.as_slice()) {
                    self.state = HandshakeState::Failed;
                    return Err(());
                }
            },
            None => {},
        }
        self.state = HandshakeState::Completed;
        Ok(())
    }
}

#[derive(Debug, Clone, Copy, PartialEq, Eq, Structural)]
pub enum SaeState {
    Nothing,
    Committed,
    Confirmed,
    Accepted,
}

/// The SAE exchange.
pub struct SaeHandshake {
    pub state: SaeState,
    pub password: Vec<u8>,
    pub peer_mac: [u8; 6],
    pub own_mac: [u8; 6],
    pub send_confirm: u16,
    pub sync: u16,
    pub scalar: Vec<u8>,
    pub element: Vec<u8>,
    pub peer_scalar: Vec<u8>,
    pub peer_element: Vec<u8>,
    pub pmk: Option<[u8; 32]>,
}

/// The commit frame: authentication algorithm SAE, sequence 1, group 19,
/// then the scalar and the element.
pub open spec fn commit_bytes(scalar: Seq<u8>, element: Seq<u8>) -> Seq<u8> {
    seq![0x13u8, 0x00, 1, 0, 19, 0] + scalar + element
}

/// The confirm frame: sequence 2, the counter low byte first, then the
/// confirmation (zero with the placeholder hash).
pub open spec fn confirm_bytes(send_confirm: u16) -> Seq<u8> {
    seq![0x13u8, 0x00, 2, 0, (send_confirm % 256) as u8, (send_confirm / 256) as u8] + zeros(32)
}

impl SaeHandshake {
    pub fn new(password: &[u8], own_mac: [u8; 6], peer_mac: [u8; 6]) -> (r: Self)
        ensures
            r.state == SaeState::Nothing,
            r.password@ == password@,
            r.own_mac == own_mac && r.peer_mac == peer_mac,
            r.send_confirm == 0 && r.sync == 0,
            r.scalar@.len() == 0 && r.element@.len() == 0 && r.peer_scalar@.len() == 0 && r.peer_element@.len() == 0,
            r.pmk is None,
    {
        Self {
            state: SaeState::Nothing,
            password: vstd::slice::slice_to_vec(password),
            peer_mac,
            own_mac,
            send_confirm: 0,
            sync: 0,
            scalar: Vec::new(),
            element: Vec::new(),
            peer_scalar: Vec::new(),
            peer_element: Vec::new(),
            pmk: None,
        }
    }

    /// Commits to a fresh scalar (the first 32 bytes of `random`) and
    /// element (the next 64), and gives the commit frame.
    pub fn create_commit(&mut self, random: &[u8]) -> (r: Vec<u8>)
        requires
            random@.len() >= 96,
        ensures
            final(self).scalar@ == random@.subrange(0, 32),
            final(self).element@ == random@.subrange(32, 96),
            r@ == commit_bytes(random@.subrange(0, 32), random@.subrange(32, 96)),
            final(self).state == SaeState::Committed,
            final(self).send_confirm == old(self).send_confirm,
            final(self).peer_scalar == old(self).peer_scalar,
            final(self).password == old(self).password,
    {
        self.scalar = vstd::slice::slice_to_vec(vstd::slice::slice_subrange(random, 0, 32));
        self.element = vstd::slice::slice_to_vec(vstd::slice::slice_subrange(random, 32, 96));
        let mut frame: Vec<u8> = Vec::new();
        frame.push(0x13);
        frame.push(0x00);
        frame.push(1);
        frame.push(0);
        frame.push(19);
        frame.push(0);
        extend_bytes(&mut frame, self.scalar.as_slice());
        extend_bytes(&mut frame, self.element.as_slice());
        self.state = SaeState::Committed;
        assert(frame@ =~= commit_bytes(random@.subrange(0, 32), random@.subrange(32, 96)));
        frame
    }

    /// Takes the peer's commit: a frame of 100 bytes at least gives the
    /// peer's scalar (bytes 6 to 38) and element (38 to 102); a fresh
    /// exchange is then committed. A shorter frame is the error. A frame of
    /// 100 or 101 bytes is too short for the element (the read would
    /// fault).
    pub fn process_commit(&mut self, frame: &[u8]) -> (r: Result<(), ()>)
        requires
            !(100 <= frame@.len() < 102),
        ensures
            frame@.len() < 100 ==> r is Err && *final(self) == *old(self),
            frame@.len() >= 100 ==> {
                &&& r is Ok
                &&& final(self).peer_scalar@ == frame@.subrange(6, 38)
                &&& final(self).peer_element@ == frame@.subrange(38, 102)
                &&& final(self).state == (if old(self).state == SaeState::Nothing { SaeState::Committed } else { old(self).state })
                &&& final(self).send_confirm == old(self).send_confirm
                &&& final(self).scalar == old(self).scalar
            },
    {
        if frame.len() < 100 {
            return Err(());
        }
        self.peer_scalar = vstd::slice::slice_to_vec(vstd::slice::slice_subrange(frame, 6, 38));
        self.peer_element = vstd::slice::slice_to_vec(vstd::slice::slice_subrange(frame, 38, 102));
        if self.state == SaeState::Nothing {
            self.state = SaeState::Committed;
        }
        Ok(())
    }

    /// The confirmation: the keyed hash over the counter and both parties'
    /// values.
    fn calculate_confirm(&self) -> (r: Vec<u8>)
        ensures
            r@ == zeros(32),
    {
        let mut data: Vec<u8> = Vec::new();
        push_stored16(&mut data, self.send_confirm);
        extend_bytes(&mut data, self.scalar.as_slice());
        extend_bytes(&mut data, self.element.as_slice());
        extend_bytes(&mut data, self.peer_scalar.as_slice());
        extend_bytes(&mut data, self.peer_element.as_slice());
        hmac_sha256(self.password.as_slice(), data.as_slice())
    }

    /// Counts a confirmation and gives the confirm frame (see
    /// `confirm_bytes`).
    pub fn create_confirm(&mut self) -> (r: Vec<u8>)
        requires
            old(self).send_confirm < u16::MAX,
        ensures
            final(self).send_confirm == old(self).send_confirm + 1,
            r@ == confirm_bytes(final(self).send_confirm),
            final(self).state == SaeState::Confirmed,
            final(self).scalar == old(self).scalar,
            final(self).peer_scalar == old(self).peer_scalar,
            final(self).pmk == old(self).pmk,
    {
        self.send_confirm = self.send_confirm + 1;
        let mut frame: Vec<u8> = Vec::new();
        frame.push(0x13);
        frame.push(0x00);
        frame.push(2);
        frame.push(0);
        push_stored16(&mut frame, self.send_confirm);
        let confirm = self.calculate_confirm();
        extend_bytes(&mut frame, confirm.as_slice());
        self.state = SaeState::Confirmed;
        assert(frame@ =~= confirm_bytes(self.send_confirm));
        frame
    }

    /// Takes the peer's confirm: a frame of 38 bytes at least derives the
    /// master key and accepts the exchange; a shorter one is the error.
    pub fn process_confirm(&mut self, frame: &[u8]) -> (r: Result<(), ()>)
        ensures
            frame@.len() < 38 ==> r is Err && *final(self) == *old(self),
            frame@.len() >= 38 ==> (r is Ok && final(self).state == SaeState::Accepted
                && (final(self).pmk matches Some(k) && k@ == zeros(32))),
            final(self).scalar == old(self).scalar,
            final(self).send_confirm == old(self).send_confirm,
    {
        if frame.len() < 38 {
            return Err(());
        }
        self.derive_pmk();
        self.state = SaeState::Accepted;
        Ok(())
    }

    /// The master key: the keyed hash over both scalars.
    fn derive_pmk(&mut self)
        ensures
            final(self).pmk matches Some(k) && k@ == zeros(32),
            final(self).state == old(self).state,
            final(self).scalar == old(self).scalar,
            final(self).send_confirm == old(self).send_confirm,
    {
        let mut pmk: [u8; 32] = [0u8; 32];
        let mut data: Vec<u8> = Vec::new();
        extend_bytes(&mut data, self.scalar.as_slice());
        extend_bytes(&mut data, self.peer_scalar.as_slice());
        let key = hmac_sha256(self.password.as_slice(), data.as_slice());
        let mut i: usize = 0;
        while i < 32
            invariant
                i <= 32,
                key@ == zeros(32),
                forall|j: int| 0 <= j < i ==> pmk@[j] == 0,
            decreases 32 - i,
        {
            pmk[i] = key[i];
            i = i + 1;
        }
        assert(pmk@ =~= zeros(32));
        self.pmk = Some(pmk);
    }

    pub fn get_pmk(&self) -> (r: Option<[u8; 32]>)
        ensures
            r == self.pmk,
    {
        self.pmk
    }
}

/// The supplicant: which WPA it speaks, and its handshakes.
pub struct WpaSupplicant {
    pub version: WpaVersion,
    pub key_mgmt: WpaKeyMgmt,
    pub pairwise_cipher: WpaCipher,
    pub group_cipher: WpaCipher,
    pub handshake: Option<FourWayHandshake>,
    pub sae_handshake: Option<SaeHandshake>,
    pub connected: bool,
}

impl WpaSupplicant {
    /// WPA2 with a pre-shared key and CCMP, no handshake yet.
    pub fn new() -> (r: Self)
        ensures
            r.version == WpaVersion::Wpa2,
            r.key_mgmt == WpaKeyMgmt::Wpa2Psk,
            r.pairwise_cipher == WpaCipher::Ccmp && r.group_cipher == WpaCipher::Ccmp,
            r.handshake is None && r.sae_handshake is None,
            !r.connected,
    {
        Self {
            version: WpaVersion::Wpa2,
            key_mgmt: WpaKeyMgmt::Wpa2Psk,
            pairwise_cipher: WpaCipher::Ccmp,
            group_cipher: WpaCipher::Ccmp,
            handshake: None,
            sae_handshake: None,
            connected: false,
        }
    }

    /// WPA2 with the master key from the passphrase and SSID, and a fresh
    /// four-way handshake with nonce `anonce`.
    pub fn set_wpa2_psk(&mut self, passphrase: &str, ssid: &[u8], anonce: [u8; 32])
        ensures
            final(self).version == WpaVersion::Wpa2,
            final(self).key_mgmt == WpaKeyMgmt::Wpa2Psk,
            final(self).handshake matches Some(h) && h.state == HandshakeState::Idle && h.pmk.key@ == zeros(32)
                && h.anonce == anonce && h.replay_counter == 0 && h.ptk is None && h.gtk is None,
            final(self).sae_handshake == old(self).sae_handshake,
            final(self).connected == old(self).connected,
    {
        self.version = WpaVersion::Wpa2;
        self.key_mgmt = WpaKeyMgmt::Wpa2Psk;
        let pmk = Pmk::from_passphrase(passphrase, ssid);
        self.handshake = Some(FourWayHandshake::new(pmk, anonce));
    }

    /// WPA3 with SAE over the password between the two addresses.
    pub fn set_wpa3_sae(&mut self, password: &str, own_mac: [u8; 6], peer_mac: [u8; 6])
        ensures
            final(self).version == WpaVersion::Wpa3,
            final(self).key_mgmt == WpaKeyMgmt::Wpa3Sae,
            final(self).sae_handshake matches Some(s) && s.state == SaeState::Nothing && s.password@ == password.spec_bytes()
                && s.own_mac == own_mac && s.peer_mac == peer_mac,
            final(self).handshake == old(self).handshake,
            final(self).connected == old(self).connected,
    {
        self.version = WpaVersion::Wpa3;
        self.key_mgmt = WpaKeyMgmt::Wpa3Sae;
        self.sae_handshake = Some(SaeHandshake::new(password.as_bytes(), own_mac, peer_mac));
    }

    /// For WPA3 with an SAE exchange set up, its commit frame (with fresh
    /// values from `random`); otherwise nothing to send.
    pub fn start_authentication(&mut self, random: &[u8]) -> (r: Vec<u8>)
        requires
            random@.len() >= 96,
        ensures
            (old(self).version == WpaVersion::Wpa3 && old(self).sae_handshake is Some)
                ==> (r@ == commit_bytes(random@.subrange(0, 32), random@.subrange(32, 96))
                    && (final(self).sae_handshake matches Some(s) && s.state == SaeState::Committed)),
            !(old(self).version == WpaVersion::Wpa3 && old(self).sae_handshake is Some)
                ==> r@.len() == 0 && *final(self) == *old(self),
            final(self).handshake == old(self).handshake,
            final(self).version == old(self).version,
    {
        match self.version {
            WpaVersion::Wpa3 => {
                match self.sae_handshake.take() {
                    Some(mut sae) => {
                        let r = sae.create_commit(random);
                        self.sae_handshake = Some(sae);
                        r
                    },
                    None => Vec::new(),
                }
            },
            _ => Vec::new(),
        }
    }

    /// The first handshake message, when a handshake is set up.
    pub fn start_4way_handshake(&mut self) -> (r: Vec<u8>)
        requires
            old(self).handshake matches Some(h) ==> h.replay_counter < u64::MAX,
        ensures
            old(self).handshake matches Some(h) ==> (r@ == message1_bytes(h.anonce@, h.replay_counter)
                && (final(self).handshake matches Some(h2) && h2.state == HandshakeState::Message1Sent
                && h2.replay_counter == h.replay_counter + 1)),
            old(self).handshake is None ==> r@.len() == 0 && *final(self) == *old(self),
            final(self).connected == old(self).connected,
    {
        match self.handshake.take() {
            Some(mut hs) => {
                let r = hs.create_message1();
                self.handshake = Some(hs);
                r
            },
            None => Vec::new(),
        }
    }

    /// Takes an EAPOL frame. Without a handshake the result is the error.
    /// After the first message the frame is the second message: when taken,
    /// the answer is the third message (group key from `random` when none
    /// was made); after the third it is the fourth, and when taken the
    /// supplicant is connected; in any other state nothing is done and
    /// nothing sent.
    pub fn process_eapol(&mut self, frame: &[u8], aa: &[u8; 6], spa: &[u8; 6], random: &[u8]) -> (r: Result<Vec<u8>, ()>)
        requires
            random@.len() >= 16,
            old(self).handshake matches Some(h) ==> h.replay_counter < u64::MAX
                && (h.gtk matches Some(g) ==> g.key@.len() <= 200),
        ensures
            old(self).handshake is None ==> r is Err && *final(self) == *old(self),
            old(self).handshake matches Some(h) ==> {
                &&& (h.state == HandshakeState::Message1Sent && frame@.len() >= key_offset() + key_size() && mic_ok(frame@))
                    ==> (r matches Ok(v) && final(self).handshake matches Some(h2) && h2.state == HandshakeState::Message3Sent
                        && v@ == message3_bytes(h.anonce@, h.replay_counter, gtk_kde(h2.gtk)))
                &&& (h.state == HandshakeState::Message1Sent && !(frame@.len() >= key_offset() + key_size() && mic_ok(frame@)))
                    ==> r is Err
                &&& (h.state == HandshakeState::Message3Sent && frame@.len() >= key_offset() + key_size()
                    && (h.ptk is None || mic_ok(frame@))) ==> (r matches Ok(v) && v@.len() == 0 && final(self).connected)
                &&& (h.state == HandshakeState::Message3Sent && !(frame@.len() >= key_offset() + key_size()
                    && (h.ptk is None || mic_ok(frame@)))) ==> r is Err && final(self).connected == old(self).connected
                &&& (h.state != HandshakeState::Message1Sent && h.state != HandshakeState::Message3Sent)
                    ==> (r matches Ok(v) && v@.len() == 0) && *final(self) == *old(self)
            },
    {
        match self.handshake.take() {
            Some(mut hs) => {
                match hs.state {
                    HandshakeState::Message1Sent => {
                        let r = hs.process_message2(frame, aa, spa);
                        match r {
                            Ok(()) => {
                                let m3 = hs.create_message3(random);
                                self.handshake = Some(hs);
                                Ok(m3)
                            },
                            Err(()) => {
                                self.handshake = Some(hs);
                                Err(())
                            },
                        }
                    },
                    HandshakeState::Message3Sent => {
                        let r = hs.process_message4(frame);
                        self.handshake = Some(hs);
                        match r {
                            Ok(()) => {
                                self.connected = true;
                                Ok(Vec::new())
                            },
                            Err(()) => Err(()),
                        }
                    },
                    _ => {
                        self.handshake = Some(hs);
                        Ok(Vec::new())
                    },
                }
            },
            None => Err(()),
        }
    }

    pub fn is_connected(&self) -> (r: bool)
        ensures
            r == self.connected,
    {
        self.connected
    }

    /// The transient key, when derived.
    pub fn get_ptk(&self) -> (r: Option<&Ptk>)
        ensures
            r == (match self.handshake { Some(h) => match h.ptk { Some(p) => Some(&p), None => None }, None => None }),
    {
        match &self.handshake {
            Some(hs) => match &hs.ptk {
                Some(p) => Some(p),
                None => None,
            },
            None => None,
        }
    }

    /// The group key, when made.
    pub fn get_gtk(&self) -> (r: Option<&Gtk>)
        ensures
            r == (match self.handshake { Some(h) => match h.gtk { Some(g) => Some(&g), None => None }, None => None }),
    {
        match &self.handshake {
            Some(hs) => match &hs.gtk {
                Some(g) => Some(g),
                None => None,
            },
            None => None,
        }
    }
}

} // verus!
