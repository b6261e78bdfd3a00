//! The wireless configuration layer: interfaces, security settings,
//! regulatory rules, network profiles and the channels of each band.

use vstd::prelude::*;
use std::collections::BTreeMap;
use crate::net::wireless::mac80211::{Band, Channel, StationState};

verus! {

pub const NL80211_MAX_NR_CIPHER_SUITES: usize = 5;
pub const NL80211_MAX_NR_AKM_SUITES: usize = 2;

#[derive(Debug, Clone, Copy, PartialEq, Eq, Structural)]
pub enum InterfaceType {
    Station,
    AccessPoint,
    AdHoc,
    Monitor,
    Mesh,
    P2PClient,
    P2PGO,
}

#[derive(Debug, Clone, Copy, PartialEq, Eq, Structural)]
pub enum AuthType {
    Open,
    Shared,
    Sae,
    Fils,
}

#[derive(Debug, Clone, Copy, PartialEq, Eq, Structural)]
pub enum KeyManagement {
    NoKeyManagement,
    Wpa2Psk,
    Wpa2Enterprise,
    Wpa3Psk,
    Wpa3Enterprise,
    Owe,
    Fils,
}

#[derive(Debug, Clone, Copy, PartialEq, Eq, Structural)]
pub enum CipherSuite {
    NoCipher,
    Wep40,
    Wep104,
    Tkip,
    Ccmp128,
    Ccmp256,
    Gcmp128,
    Gcmp256,
}

#[derive(Debug, Clone, Copy, PartialEq, Eq, Structural)]
pub enum PmfMode {
    Disabled,
    Optional,
    Required,
}

/// How a network is secured.
pub struct SecurityConfig {
    pub auth_type: AuthType,
    pub key_mgmt: KeyManagement,
    pub pairwise_ciphers: Vec<CipherSuite>,
    pub group_cipher: CipherSuite,
    pub akm_suites: Vec<u32>,
    pub pmf: PmfMode,
}

/// The AKM suite selector of WPA2 with a pre-shared key.
pub const AKM_PSK: u32 = 0x000FAC02;
/// The AKM suite selector of WPA3 SAE.
pub const AKM_SAE: u32 = 0x000FAC08;

/// What a security configuration holds, with the lists by value.
pub open spec fn security_view(s: SecurityConfig) -> (AuthType, KeyManagement, Seq<CipherSuite>, CipherSuite, Seq<u32>, PmfMode) {
    (s.auth_type, s.key_mgmt, s.pairwise_ciphers@, s.group_cipher, s.akm_suites@, s.pmf)
}

impl SecurityConfig {
    /// An open network: no key management and no ciphers.
    pub fn new_open() -> (r: Self)
        ensures
            r.auth_type == AuthType::Open,
            r.key_mgmt == KeyManagement::NoKeyManagement,
            r.pairwise_ciphers@ == seq![CipherSuite::NoCipher],
            r.group_cipher == CipherSuite::NoCipher,
            r.akm_suites@.len() == 0,
            r.pmf == PmfMode::Disabled,
    {
        let mut pairwise_ciphers = Vec::new();
        pairwise_ciphers.push(CipherSuite::NoCipher);
        let r = Self {
            auth_type: AuthType::Open,
            key_mgmt: KeyManagement::NoKeyManagement,
            pairwise_ciphers,
            group_cipher: CipherSuite::NoCipher,
            akm_suites: Vec::new(),
            pmf: PmfMode::Disabled,
        };
        assert(r.pairwise_ciphers@ =~= seq![CipherSuite::NoCipher]);
        r
    }

    /// WPA2 with a pre-shared key: CCMP-128, optional management frame
    /// protection.
    pub fn new_wpa2_psk() -> (r: Self)
        ensures
            r.auth_type == AuthType::Open,
            r.key_mgmt == KeyManagement::Wpa2Psk,
            r.pairwise_ciphers@ == seq![CipherSuite::Ccmp128],
            r.group_cipher == CipherSuite::Ccmp128,
            r.akm_suites@ == seq![AKM_PSK],
            r.pmf == PmfMode::Optional,
    {
        let mut pairwise_ciphers = Vec::new();
        pairwise_ciphers.push(CipherSuite::Ccmp128);
        let mut akm_suites = Vec::new();
        akm_suites.push(AKM_PSK);
        let r = Self {
            auth_type: AuthType::Open,
            key_mgmt: KeyManagement::Wpa2Psk,
            pairwise_ciphers,
            group_cipher: CipherSuite::Ccmp128,
            akm_suites,
            pmf: PmfMode::Optional,
        };
        assert(r.pairwise_ciphers@ =~= seq![CipherSuite::Ccmp128]);
        assert(r.akm_suites@ =~= seq![AKM_PSK]);
        r
    }

    /// WPA3 with SAE: CCMP-128 and -256, required management frame
    /// protection.
    pub fn new_wpa3_psk() -> (r: Self)
        ensures
            r.auth_type == AuthType::Sae,
            r.key_mgmt == KeyManagement::Wpa3Psk,
            r.pairwise_ciphers@ == seq![CipherSuite::Ccmp128, CipherSuite::Ccmp256],
            r.group_cipher == CipherSuite::Ccmp128,
            r.akm_suites@ == seq![AKM_SAE],
            r.pmf == PmfMode::Required,
    {
        let mut pairwise_ciphers = Vec::new();
        pairwise_ciphers.push(CipherSuite::Ccmp128);
        pairwise_ciphers.push(CipherSuite::Ccmp256);
        let mut akm_suites = Vec::new();
        akm_suites.push(AKM_SAE);
        let r = Self {
            auth_type: AuthType::Sae,
            key_mgmt: KeyManagement::Wpa3Psk,
            pairwise_ciphers,
            group_cipher: CipherSuite::Ccmp128,
            akm_suites,
            pmf: PmfMode::Required,
        };
        assert(r.pairwise_ciphers@ =~= seq![CipherSuite::Ccmp128, CipherSuite::Ccmp256]);
        assert(r.akm_suites@ =~= seq![AKM_SAE]);
        r
    }

    /// A field-by-field copy.
    pub fn copy(&self) -> (r: Self)
        ensures
            security_view(r) == security_view(*self),
    {
        let r = Self {
            auth_type: self.auth_type,
            key_mgmt: self.key_mgmt,
            pairwise_ciphers: self.pairwise_ciphers.clone(),
            group_cipher: self.group_cipher,
            akm_suites: self.akm_suites.clone(),
            pmf: self.pmf,
        };
        assert(r.pairwise_ciphers@ =~= self.pairwise_ciphers@);
        assert(r.akm_suites@ =~= self.akm_suites@);
        r
    }
}

/// A network seen in a scan.
pub struct BssInfo {
    pub bssid: [u8; 6],
    pub ssid: String,
    pub frequency: u32,
    pub signal: i8,
    pub capability: u16,
    pub beacon_interval: u16,
    pub security: SecurityConfig,
    pub ies: Vec<u8>,
    pub last_seen: u64,
}

/// What a scanned network holds, with the lists by value.
pub open spec fn bss_view(b: BssInfo) -> ([u8; 6], Seq<char>, u32, i8, u16, u16,
    (AuthType, KeyManagement, Seq<CipherSuite>, CipherSuite, Seq<u32>, PmfMode), Seq<u8>, u64) {
    (b.bssid, b.ssid@, b.frequency, b.signal, b.capability, b.beacon_interval, security_view(b.security), b.ies@, b.last_seen)
}

impl BssInfo {
    /// A field-by-field copy.
    pub fn copy(&self) -> (r: Self)
        ensures
            bss_view(r) == bss_view(*self),
    {
        let r = Self {
            bssid: self.bssid,
            ssid: self.ssid.clone(),
            frequency: self.frequency,
            signal: self.signal,
            capability: self.capability,
            beacon_interval: self.beacon_interval,
            security: self.security.copy(),
            ies: self.ies.clone(),
            last_seen: self.last_seen,
        };
        assert(r.ies@ =~= self.ies@);
        r
    }
}

/// A network to join.
pub struct NetworkProfile {
    pub ssid: String,
    pub bssid: Option<[u8; 6]>,
    pub security: SecurityConfig,
    pub passphrase: Option<String>,
    pub priority: u32,
    pub auto_connect: bool,
    pub hidden: bool,
}

/// What a profile holds, with the lists by value.
pub open spec fn profile_view(p: NetworkProfile) -> (Seq<char>, Option<[u8; 6]>,
    (AuthType, KeyManagement, Seq<CipherSuite>, CipherSuite, Seq<u32>, PmfMode), Option<Seq<char>>, u32, bool, bool) {
    (p.ssid@, p.bssid, security_view(p.security), match p.passphrase { Some(x) => Some(x@), None => None }, p.priority, p.auto_connect, p.hidden)
}

impl NetworkProfile {
    /// An open network of that name, joined automatically.
    pub fn new(ssid: String) -> (r: Self)
        ensures
            r.ssid == ssid,
            r.bssid is None,
            r.security.key_mgmt == KeyManagement::NoKeyManagement,
            r.security.auth_type == AuthType::Open,
            r.passphrase is None,
            r.priority == 0,
            r.auto_connect,
            !r.hidden,
    {
        Self { ssid, bssid: None, security: SecurityConfig::new_open(), passphrase: None, priority: 0, auto_connect: true, hidden: false }
    }

    /// A field-by-field copy.
    pub fn copy(&self) -> (r: Self)
        ensures
            profile_view(r) == profile_view(*self),
    {
        Self {
            ssid: self.ssid.clone(),
            bssid: self.bssid,
            security: self.security.copy(),
            passphrase: match &self.passphrase { Some(p) => Some(p.clone()), None => None },
            priority: self.priority,
            auto_connect: self.auto_connect,
            hidden: self.hidden,
        }
    }
}

pub struct FrequencyRange {
    pub start_freq_khz: u32,
    pub end_freq_khz: u32,
    pub max_bandwidth_khz: u32,
}

pub struct PowerRule {
    pub max_antenna_gain: u32,
    pub max_eirp: u32,
}

pub struct RegulatoryRule {
    pub freq_range: FrequencyRange,
    pub power_rule: PowerRule,
    pub flags: u32,
}

/// The rules of one country.
pub struct RegulatoryDomain {
    pub alpha2: [u8; 2],
    pub dfs_region: u8,
    pub rules: Vec<RegulatoryRule>,
}

/// A rule as (start, end, bandwidth, antenna gain, EIRP, flags).
pub open spec fn rule_view(r: RegulatoryRule) -> (u32, u32, u32, u32, u32, u32) {
    (r.freq_range.start_freq_khz, r.freq_range.end_freq_khz, r.freq_range.max_bandwidth_khz,
        r.power_rule.max_antenna_gain, r.power_rule.max_eirp, r.flags)
}

/// The rules of the world domain.
pub open spec fn world_rules() -> Seq<(u32, u32, u32, u32, u32, u32)> {
    seq![
        (2402000u32, 2482000u32, 40000u32, 0u32, 2000u32, 0u32),
        (5170000, 5250000, 80000, 0, 2000, 0),
        (5250000, 5330000, 80000, 0, 2000, 1),
        (5490000, 5730000, 160000, 0, 2000, 1),
        (5735000, 5835000, 80000, 0, 3000, 0),
    ]
}

fn rule(start: u32, end: u32, bw: u32, eirp: u32, flags: u32) -> (r: RegulatoryRule)
    ensures
        rule_view(r) == (start, end, bw, 0u32, eirp, flags),
{
    RegulatoryRule {
        freq_range: FrequencyRange { start_freq_khz: start, end_freq_khz: end, max_bandwidth_khz: bw },
        power_rule: PowerRule { max_antenna_gain: 0, max_eirp: eirp },
        flags,
    }
}

impl RegulatoryDomain {
    /// The world domain "00": the 2.4 GHz band and four 5 GHz ranges, two
    /// of them needing radar detection.
    pub fn new_world() -> (r: Self)
        ensures
            r.alpha2@ == seq![48u8, 48u8],
            r.dfs_region == 0,
            r.rules@.map_values(|x: RegulatoryRule| rule_view(x)) == world_rules(),
    {
        let mut rules: Vec<RegulatoryRule> = Vec::new();
        rules.push(rule(2402000, 2482000, 40000, 2000, 0));
        rules.push(rule(5170000, 5250000, 80000, 2000, 0));
        rules.push(rule(5250000, 5330000, 80000, 2000, 1));
        rules.push(rule(5490000, 5730000, 160000, 2000, 1));
        rules.push(rule(5735000, 5835000, 80000, 3000, 0));
        let r = Self { alpha2: [48, 48], dfs_region: 0, rules };
        assert(r.alpha2@ =~= seq![48u8, 48u8]);
        assert(r.rules@.map_values(|x: RegulatoryRule| rule_view(x)) =~= world_rules());
        r
    }
}

/// A wireless network interface.
pub struct WirelessInterface {
    pub ifindex: u32,
    pub name: String,
    pub mac_addr: [u8; 6],
    pub if_type: InterfaceType,
    pub active: bool,
}

impl WirelessInterface {
    /// A station interface, down.
    pub fn new(ifindex: u32, name: String, mac_addr: [u8; 6]) -> (r: Self)
        ensures
            r.ifindex == ifindex && r.name == name && r.mac_addr == mac_addr,
            r.if_type == InterfaceType::Station,
            !r.active,
    {
        Self { ifindex, name, mac_addr, if_type: InterfaceType::Station, active: false }
    }

    pub fn set_type(&mut self, if_type: InterfaceType)
        ensures
            *final(self) == (WirelessInterface { if_type, ..*old(self) }),
    {
        self.if_type = if_type;
    }

    pub fn up(&mut self)
        ensures
            *final(self) == (WirelessInterface { active: true, ..*old(self) }),
    {
        self.active = true;
    }

    pub fn down(&mut self)
        ensures
            *final(self) == (WirelessInterface { active: false, ..*old(self) }),
    {
        self.active = false;
    }

    pub fn is_active(&self) -> (r: bool)
        ensures
            r == self.active,
    {
        self.active
    }
}

/// What to scan for.
pub struct ScanRequest {
    pub ssids: Vec<String>,
    pub frequencies: Vec<u32>,
    pub ie: Vec<u8>,
    pub flags: u32,
    pub rates: Vec<u32>,
}

impl ScanRequest {
    pub fn new() -> (r: Self)
        ensures
            r.ssids@.len() == 0 && r.frequencies@.len() == 0 && r.ie@.len() == 0 && r.flags == 0 && r.rates@.len() == 0,
    {
        Self { ssids: Vec::new(), frequencies: Vec::new(), ie: Vec::new(), flags: 0, rates: Vec::new() }
    }

    pub fn add_ssid(&mut self, ssid: String)
        ensures
            final(self).ssids@ == old(self).ssids@.push(ssid),
            final(self).frequencies@ == old(self).frequencies@,
    {
        self.ssids.push(ssid);
    }

    pub fn add_frequency(&mut self, freq: u32)
        ensures
            final(self).frequencies@ == old(self).frequencies@.push(freq),
            final(self).ssids@ == old(self).ssids@,
    {
        self.frequencies.push(freq);
    }
}

pub struct ScanResult {
    pub bss_list: Vec<BssInfo>,
    pub scan_time: u64,
    pub aborted: bool,
}

/// What to join.
pub struct ConnectParams {
    pub ssid: String,
    pub bssid: Option<[u8; 6]>,
    pub security: SecurityConfig,
    pub passphrase: Option<String>,
    pub frequency: Option<u32>,
    pub ie: Vec<u8>,
}

pub struct DisconnectParams {
    pub reason_code: u16,
    pub local_state_change: bool,
}

pub struct VirtualInterface {
    pub wiphy: u32,
    pub ifindex: u32,
    pub name: String,
    pub if_type: InterfaceType,
    pub mac_addr: [u8; 6],
}

pub struct StationInfo {
    pub mac_addr: [u8; 6],
    pub state: StationState,
    pub signal: i8,
    pub signal_avg: i8,
    pub tx_rate: u32,
    pub rx_rate: u32,
    pub tx_packets: u64,
    pub rx_packets: u64,
    pub tx_bytes: u64,
    pub rx_bytes: u64,
    pub tx_failed: u32,
    pub tx_retries: u32,
    pub beacon_loss: u32,
    pub connected_time: u32,
    pub inactive_time: u32,
}

/// An access point's settings.
pub struct ApConfig {
    pub ssid: String,
    pub channel: Channel,
    pub beacon_interval: u16,
    pub dtim_period: u8,
    pub hidden_ssid: bool,
    pub security: SecurityConfig,
    pub max_stations: u16,
}

impl ApConfig {
    /// An open access point on channel 1 of the 2.4 GHz band, beaconing
    /// every 100 units, for up to 128 stations.
    pub fn new(ssid: String) -> (r: Self)
        ensures
            r.ssid == ssid,
            r.channel == (Channel { frequency: 2412, number: 1, band: Band::Band2GHz, max_power: 20, flags: 0 }),
            r.beacon_interval == 100 && r.dtim_period == 2,
            !r.hidden_ssid,
            r.security.key_mgmt == KeyManagement::NoKeyManagement,
            r.max_stations == 128,
    {
        Self {
            ssid,
            channel: Channel { frequency: 2412, number: 1, band: Band::Band2GHz, max_power: 20, flags: 0 },
            beacon_interval: 100,
            dtim_period: 2,
            hidden_ssid: false,
            security: SecurityConfig::new_open(),
            max_stations: 128,
        }
    }
}

pub struct MeshConfig {
    pub mesh_id: String,
    pub path_sel_protocol: u32,
    pub path_metric: u32,
    pub congestion_control: u32,
    pub sync_method: u32,
    pub auth_protocol: u32,
}

pub struct P2PConfig {
    pub device_name: String,
    pub primary_dev_type: [u8; 8],
    pub listen_channel: Channel,
    pub operating_channel: Channel,
    pub go_intent: u8,
}

/// The channels of the 5 GHz band, as (frequency, number, power, flags).
pub open spec fn channels_5ghz() -> Seq<(u32, u8, i8, u32)> {
    seq![
        (5180u32, 36u8, 23i8, 0u32), (5200, 40, 23, 0), (5220, 44, 23, 0), (5240, 48, 23, 0),
        (5260, 52, 23, 1), (5280, 56, 23, 1), (5300, 60, 23, 1), (5320, 64, 23, 1),
        (5500, 100, 23, 1), (5520, 104, 23, 1), (5540, 108, 23, 1), (5560, 112, 23, 1),
        (5580, 116, 23, 1), (5600, 120, 23, 1), (5620, 124, 23, 1), (5640, 128, 23, 1),
        (5660, 132, 23, 1), (5680, 136, 23, 1), (5700, 140, 23, 1),
        (5745, 149, 30, 0), (5765, 153, 30, 0), (5785, 157, 30, 0), (5805, 161, 30, 0), (5825, 165, 30, 0),
    ]
}

/// The first profile from `i` on named `ssid`.
pub open spec fn profile_index(ps: Seq<NetworkProfile>, ssid: Seq<char>, i: int) -> Option<int>
    decreases ps.len() - i,
{
    if i < 0 || i >= ps.len() {
        None
    } else if ps[i].ssid@ == ssid {
        Some(i)
    } else {
        profile_index(ps, ssid, i + 1)
    }
}

/// The configuration layer: interfaces by index, regulatory domain, scan
/// results, saved profiles and the network joined.
pub struct Cfg80211 {
    pub wiphy_id: u32,
    pub interfaces: BTreeMap<u32, WirelessInterface>,
    pub regulatory: RegulatoryDomain,
    pub scan_results: Vec<BssInfo>,
    pub network_profiles: Vec<NetworkProfile>,
    pub current_bss: Option<BssInfo>,
}

impl Cfg80211 {
    /// No interfaces, profiles or results, in the world domain.
    pub fn new() -> (r: Self)
        ensures
            r.wiphy_id == 0,
            r.interfaces@.len() == 0,
            r.regulatory.alpha2@ == seq![48u8, 48u8],
            r.regulatory.rules@.map_values(|x: RegulatoryRule| rule_view(x)) == world_rules(),
            r.scan_results@.len() == 0,
            r.network_profiles@.len() == 0,
            r.current_bss is None,
    {
        Self {
            wiphy_id: 0,
            interfaces: BTreeMap::new(),
            regulatory: RegulatoryDomain::new_world(),
            scan_results: Vec::new(),
            network_profiles: Vec::new(),
            current_bss: None,
        }
    }

    /// The next radio id; the counter wraps.
    pub fn register_wiphy(&mut self) -> (r: u32)
        ensures
            r == old(self).wiphy_id,
            final(self).wiphy_id == (if old(self).wiphy_id == u32::MAX { 0 } else { (old(self).wiphy_id + 1) as u32 }),
            final(self).interfaces@ == old(self).interfaces@,
            final(self).network_profiles@ == old(self).network_profiles@,
    {
        let id = self.wiphy_id;
        self.wiphy_id = self.wiphy_id.wrapping_add(1);
        id
    }

    /// Adds `iface` under its index, replacing any interface there.
    pub fn add_interface(&mut self, iface: WirelessInterface)
        ensures
            final(self).interfaces@ == old(self).interfaces@.insert(iface.ifindex, iface),
            final(self).network_profiles@ == old(self).network_profiles@,
    {
        self.interfaces.insert(iface.ifindex, iface);
    }

    /// Takes out the interface at `ifindex`, if any.
    pub fn remove_interface(&mut self, ifindex: u32) -> (r: Option<WirelessInterface>)
        ensures
            r == (if old(self).interfaces@.contains_key(ifindex) { Some(old(self).interfaces@[ifindex]) } else { None }),
            final(self).interfaces@ == old(self).interfaces@.remove(ifindex),
            final(self).network_profiles@ == old(self).network_profiles@,
    {
        self.interfaces.remove(&ifindex)
    }

    /// The interface at `ifindex`, if any.
    pub fn get_interface(&self, ifindex: u32) -> (r: Option<&WirelessInterface>)
        ensures
            r == (if self.interfaces@.contains_key(ifindex) { Some(&self.interfaces@[ifindex]) } else { None }),
    {
        self.interfaces.get(&ifindex)
    }

    /// Scans are not run here: the request is accepted and nothing changes.
    pub fn start_scan(&mut self, ifindex: u32, params: ScanRequest) -> (r: Result<(), ()>)
        ensures
            r is Ok,
            *final(self) == *old(self),
    {
        Ok(())
    }

    pub fn abort_scan(&mut self, ifindex: u32) -> (r: Result<(), ()>)
        ensures
            r is Ok,
            *final(self) == *old(self),
    {
        Ok(())
    }

    /// A copy of the scan results.
    pub fn get_scan_results(&self) -> (r: Vec<BssInfo>)
        ensures
            r@.map_values(|b: BssInfo| bss_view(b)) == self.scan_results@.map_values(|b: BssInfo| bss_view(b)),
    {
        let mut r: Vec<BssInfo> = Vec::new();
        let mut i: usize = 0;
        while i < self.scan_results.len()
            invariant
                i <= self.scan_results@.len(),
                r@.map_values(|b: BssInfo| bss_view(b)) == self.scan_results@.take(i as int).map_values(|b: BssInfo| bss_view(b)),
            decreases self.scan_results@.len() - i,
        {
            let c = self.scan_results[i].copy();
            let ghost before = r@;
            r.push(c);
            assert(r@.map_values(|b: BssInfo| bss_view(b)) =~= before.map_values(|b: BssInfo| bss_view(b)).push(bss_view(c)));
            assert(self.scan_results@.take(i + 1).map_values(|b: BssInfo| bss_view(b))
                =~= self.scan_results@.take(i as int).map_values(|b: BssInfo| bss_view(b)).push(bss_view(self.scan_results@[i as int])));
            i = i + 1;
        }
        assert(self.scan_results@.take(i as int) =~= self.scan_results@);
        r
    }

    /// Saves a profile for the network in `params`, joined automatically at
    /// priority 0.
    pub fn connect(&mut self, ifindex: u32, params: ConnectParams) -> (r: Result<(), ()>)
        ensures
            r is Ok,
            final(self).network_profiles@ == old(self).network_profiles@.push(NetworkProfile {
                ssid: params.ssid,
                bssid: params.bssid,
                security: params.security,
                passphrase: params.passphrase,
                priority: 0,
                auto_connect: true,
                hidden: false,
            }),
            final(self).interfaces@ == old(self).interfaces@,
            final(self).current_bss == old(self).current_bss,
    {
        let profile = NetworkProfile {
            ssid: params.ssid,
            bssid: params.bssid,
            security: params.security,
            passphrase: params.passphrase,
            priority: 0,
            auto_connect: true,
            hidden: false,
        };
        self.network_profiles.push(profile);
        Ok(())
    }

    /// Leaves the network joined.
    pub fn disconnect(&mut self, ifindex: u32, params: DisconnectParams) -> (r: Result<(), ()>)
        ensures
            r is Ok,
            final(self).current_bss is None,
            final(self).network_profiles@ == old(self).network_profiles@,
            final(self).interfaces@ == old(self).interfaces@,
    {
        self.current_bss = None;
        Ok(())
    }

    pub fn add_network_profile(&mut self, profile: NetworkProfile)
        ensures
            final(self).network_profiles@ == old(self).network_profiles@.push(profile),
            final(self).interfaces@ == old(self).interfaces@,
    {
        self.network_profiles.push(profile);
    }

    /// Removes the first profile named `ssid`; false when there is none.
    pub fn remove_network_profile(&mut self, ssid: &str) -> (r: bool)
        ensures
            r == profile_index(old(self).network_profiles@, ssid@, 0) is Some,
            profile_index(old(self).network_profiles@, ssid@, 0) matches Some(i)
                ==> final(self).network_profiles@ == old(self).network_profiles@.remove(i),
            profile_index(old(self).network_profiles@, ssid@, 0) is None
                ==> final(self).network_profiles@ == old(self).network_profiles@,
            final(self).interfaces@ == old(self).interfaces@,
    {
        let key = ssid.to_owned();
        let ghost ps = self.network_profiles@;
        let mut i: usize = 0;
        while i < self.network_profiles.len()
            invariant
                i <= ps.len(),
                ps == self.network_profiles@,
                ps == old(self).network_profiles@,
                self.interfaces == old(self).interfaces,
                key@ == ssid@,
                profile_index(ps, ssid@, 0) == profile_index(ps, ssid@, i as int),
            decreases ps.len() - i,
        {
            if self.network_profiles[i].ssid == key {
                self.network_profiles.remove(i);
                return true;
            }
            i = i + 1;
        }
        false
    }

    /// A copy of the saved profiles.
    pub fn get_network_profiles(&self) -> (r: Vec<NetworkProfile>)
        ensures
            r@.map_values(|p: NetworkProfile| profile_view(p)) == self.network_profiles@.map_values(|p: NetworkProfile| profile_view(p)),
    {
        let mut r: Vec<NetworkProfile> = Vec::new();
        let mut i: usize = 0;
        while i < self.network_profiles.len()
            invariant
                i <= self.network_profiles@.len(),
                r@.map_values(|p: NetworkProfile| profile_view(p)) == self.network_profiles@.take(i as int).map_values(|p: NetworkProfile| profile_view(p)),
            decreases self.network_profiles@.len() - i,
        {
            let c = self.network_profiles[i].copy();
            let ghost before = r@;
            r.push(c);
            assert(r@.map_values(|p: NetworkProfile| profile_view(p)) =~= before.map_values(|p: NetworkProfile| profile_view(p)).push(profile_view(c)));
            assert(self.network_profiles@.take(i + 1).map_values(|p: NetworkProfile| profile_view(p))
                =~= self.network_profiles@.take(i as int).map_values(|p: NetworkProfile| profile_view(p)).push(profile_view(self.network_profiles@[i as int])));
            i = i + 1;
        }
        assert(self.network_profiles@.take(i as int) =~= self.network_profiles@);
        r
    }

    pub fn set_regulatory_domain(&mut self, alpha2: [u8; 2])
        ensures
            final(self).regulatory.alpha2 == alpha2,
            final(self).regulatory.rules == old(self).regulatory.rules,
            final(self).network_profiles@ == old(self).network_profiles@,
    {
        self.regulatory.alpha2 = alpha2;
    }

    /// The 2.4 and 5 GHz bands.
    pub fn get_supported_bands(&self) -> (r: Vec<Band>)
        ensures
            r@ == seq![Band::Band2GHz, Band::Band5GHz],
    {
        let mut r = Vec::new();
        r.push(Band::Band2GHz);
        r.push(Band::Band5GHz);
        assert(r@ =~= seq![Band::Band2GHz, Band::Band5GHz]);
        r
    }

    /// The channels of `band`: channels 1 to 13 every 5 MHz from 2412 MHz
    /// at 20 dBm; the 5 GHz channels of `channels_5ghz`; none at 6 GHz.
    pub fn get_supported_channels(&self, band: Band) -> (r: Vec<Channel>)
        ensures
            band == Band::Band2GHz ==> r@.len() == 13 && forall|i: int| 0 <= i < 13 ==> #[trigger] r@[i]
                == (Channel { frequency: (2412 + i * 5) as u32, number: (i + 1) as u8, band: Band::Band2GHz, max_power: 20, flags: 0 }),
            band == Band::Band5GHz ==> r@.len() == 24 && forall|i: int| 0 <= i < 24 ==> #[trigger] r@[i]
                == (Channel { frequency: channels_5ghz()[i].0, number: channels_5ghz()[i].1, band: Band::Band5GHz,
                    max_power: channels_5ghz()[i].2, flags: channels_5ghz()[i].3 }),
            band == Band::Band6GHz ==> r@.len() == 0,
    {
        match band {
            Band::Band2GHz => {
                let mut channels: Vec<Channel> = Vec::new();
                let mut i: u32 = 1;
                while i <= 13
                    invariant
                        1 <= i <= 14,
                        channels@.len() == i - 1,
                        forall|k: int| 0 <= k < i - 1 ==> #[trigger] channels@[k]
                            == (Channel { frequency: (2412 + k * 5) as u32, number: (k + 1) as u8, band: Band::Band2GHz, max_power: 20, flags: 0 }),
                    decreases 14 - i,
                {
                    channels.push(Channel { frequency: 2412 + (i - 1) * 5, number: i as u8, band: Band::Band2GHz, max_power: 20, flags: 0 });
                    i = i + 1;
                }
                channels
            },
            Band::Band5GHz => {
                let table: [(u32, u8, i8, u32); 24] = [
                    (5180, 36, 23, 0), (5200, 40, 23, 0), (5220, 44, 23, 0), (5240, 48, 23, 0),
                    (5260, 52, 23, 1), (5280, 56, 23, 1), (5300, 60, 23, 1), (5320, 64, 23, 1),
                    (5500, 100, 23, 1), (5520, 104, 23, 1), (5540, 108, 23, 1), (5560, 112, 23, 1),
                    (5580, 116, 23, 1), (5600, 120, 23, 1), (5620, 124, 23, 1), (5640, 128, 23, 1),
                    (5660, 132, 23, 1), (5680, 136, 23, 1), (5700, 140, 23, 1),
                    (5745, 149, 30, 0), (5765, 153, 30, 0), (5785, 157, 30, 0), (5805, 161, 30, 0), (5825, 165, 30, 0),
                ];
                assert(table@ =~= channels_5ghz());
                let mut channels: Vec<Channel> = Vec::new();
                let mut i: usize = 0;
                while i < 24
                    invariant
                        i <= 24,
                        table@ == channels_5ghz(),
                        channels@.len() == i,
                        forall|k: int| 0 <= k < i ==> #[trigger] channels@[k]
                            == (Channel { frequency: channels_5ghz()[k].0, number: channels_5ghz()[k].1, band: Band::Band5GHz,
                                max_power: channels_5ghz()[k].2, flags: channels_5ghz()[k].3 }),
                    decreases 24 - i,
                {
                    let (f, n, p, fl) = table[i];
                    channels.push(Channel { frequency: f, number: n, band: Band::Band5GHz, max_power: p, flags: fl });
                    i = i + 1;
                }
                channels
            },
            Band::Band6GHz => Vec::new(),
        }
    }

    pub fn start_ap(&mut self, ifindex: u32, config: ApConfig) -> (r: Result<(), ()>)
        ensures
            r is Ok,
            *final(self) == *old(self),
    {
        Ok(())
    }

    pub fn stop_ap(&mut self, ifindex: u32) -> (r: Result<(), ()>)
        ensures
            r is Ok,
            *final(self) == *old(self),
    {
        Ok(())
    }

    pub fn join_mesh(&mut self, ifindex: u32, config: MeshConfig) -> (r: Result<(), ()>)
        ensures
            r is Ok,
            *final(self) == *old(self),
    {
        Ok(())
    }

    pub fn leave_mesh(&mut self, ifindex: u32) -> (r: Result<(), ()>)
        ensures
            r is Ok,
            *final(self) == *old(self),
    {
        Ok(())
    }

    pub fn start_p2p(&mut self, ifindex: u32, config: P2PConfig) -> (r: Result<(), ()>)
        ensures
            r is Ok,
            *final(self) == *old(self),
    {
        Ok(())
    }

    pub fn stop_p2p(&mut self, ifindex: u32) -> (r: Result<(), ()>)
        ensures
            r is Ok,
            *final(self) == *old(self),
    {
        Ok(())
    }
}

} // verus!
