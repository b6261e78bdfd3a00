//! Product activation and licensing: product keys, activation by key and
//! by a key management server, the grace period, and the activation log.

use vstd::prelude::*;
use crate::nt::NtStatus;
use crate::text::{chars_of, chars_start_with, split_chars, split_on, starts_with, text_is};

verus! {

/// The state of activation.
#[derive(Debug, Clone, Copy, PartialEq, Eq, Structural)]
pub enum ActivationStatus {
    NotActivated,
    Activated,
    GracePeriod,
    Expired,
    Invalid,
    Blocked,
}

/// The kinds of license.
#[derive(Debug, Clone, Copy, PartialEq, Eq, Structural)]
pub enum LicenseType {
    Retail,
    OEM,
    Volume,
    Trial,
    OpenSource,
}

/// The editions.
#[derive(Debug, Clone, Copy, PartialEq, Eq, Structural)]
pub enum WindowsEdition {
    Home,
    Professional,
    Enterprise,
    Education,
    Server,
    ServerDatacenter,
    ReactOS,
}

/// What is known of the product's activation.
#[derive(Debug, Clone)]
pub struct ProductActivation {
    pub product_id: String,
    pub product_key: Option<String>,
    pub activation_status: ActivationStatus,
    pub grace_period_days: u32,
    pub activation_date: Option<u64>,
    pub hardware_id: String,
    pub installation_id: String,
    pub confirmation_id: Option<String>,
    pub license_type: LicenseType,
    pub edition: WindowsEdition,
}

/// The kinds of activation event.
#[derive(Debug, Clone, Copy, PartialEq, Eq, Structural)]
pub enum WpaEventType {
    InstallationStarted,
    ProductKeyEntered,
    ActivationAttempted,
    ActivationSucceeded,
    ActivationFailed,
    HardwareChanged,
    GracePeriodStarted,
    GracePeriodExpiring,
}

/// An entry of the activation log.
#[derive(Debug, Clone)]
pub struct WpaEvent {
    pub event_type: WpaEventType,
    pub timestamp: u64,
    pub details: String,
}

/// The kinds of entitlement.
#[derive(Debug, Clone, Copy, PartialEq, Eq, Structural)]
pub enum EntitlementType {
    Upgrade,
    CleanInstall,
    DevicePreinstalled,
    StoresPurchase,
    VolumeActivation,
}

/// A license tied to a device.
#[derive(Debug, Clone)]
pub struct DigitalLicense {
    pub device_id: String,
    pub hardware_hash: String,
    pub microsoft_account: Option<String>,
    pub entitlement_type: EntitlementType,
    pub acquisition_date: u64,
}

/// The client of a key management server.
pub struct KmsClient {
    server_address: Option<String>,
    client_machine_id: String,
    activation_interval: u32,
    renewal_interval: u32,
    current_count: u32,
    minimum_count: u32,
}

/// The licensing service: what is known of the activation, the key
/// management server used, how many activations succeeded, when activation
/// was last checked, and the activation log.
pub struct SoftwareLicensingService {
    activation_info: ProductActivation,
    kms_server: Option<String>,
    activation_count: u32,
    last_activation_check: u64,
    wpa_events: Vec<WpaEvent>,
}

/// The clock the service reads: always zero.
pub fn get_current_time() -> (r: u64)
    ensures
        r == 0,
{
    0
}

/// The product identifier: `00000-000-0000000-00000`.
pub fn generate_product_id() -> (r: String)
    ensures
        r@ == "00000-000-0000000-00000"@,
{
    "00000-000-0000000-00000".to_owned()
}

/// The hardware identifier: `HWID-1234567890ABCDEF`.
pub fn generate_hardware_id() -> (r: String)
    ensures
        r@ == "HWID-1234567890ABCDEF"@,
{
    "HWID-1234567890ABCDEF".to_owned()
}

/// The installation identifier: 54 zeros.
pub fn generate_installation_id() -> (r: String)
    ensures
        r@ == "000000000000000000000000000000000000000000000000000000"@,
{
    "000000000000000000000000000000000000000000000000000000".to_owned()
}

/// The confirmation identifier: eight groups of six zeros.
pub fn generate_confirmation_id() -> (r: String)
    ensures
        r@ == "000000-000000-000000-000000-000000-000000-000000-000000"@,
{
    "000000-000000-000000-000000-000000-000000-000000-000000".to_owned()
}

/// The machine identifier for the key management server.
pub fn generate_machine_id() -> (r: String)
    ensures
        r@ == "MACHINE-ID-1234567890"@,
{
    "MACHINE-ID-1234567890".to_owned()
}

/// Whether `c` is an ASCII letter or digit.
pub open spec fn is_ascii_alnum(c: char) -> bool {
    ('0' <= c && c <= '9') || ('A' <= c && c <= 'Z') || ('a' <= c && c <= 'z')
}

/// Whether `p` is five ASCII letters or digits.
pub open spec fn key_group_ok(p: Seq<char>) -> bool {
    p.len() == 5 && forall|i: int| 0 <= i < 5 ==> is_ascii_alnum(#[trigger] p[i])
}

/// Whether `k` has the form of a product key: five groups of five ASCII
/// letters or digits, separated by hyphens.
pub open spec fn product_key_ok(k: Seq<char>) -> bool {
    let ps = split_on(k, '-');
    ps.len() == 5 && forall|i: int| 0 <= i < 5 ==> key_group_ok(#[trigger] ps[i])
}

/// Whether `p` is five ASCII letters or digits.
fn group_ok(p: &str) -> (r: bool)
    ensures
        r == key_group_ok(p@),
{
    let cs = chars_of(p);
    if cs.len() != 5 {
        return false;
    }
    let mut i: usize = 0;
    while i < 5
        invariant
            i <= 5,
            cs@ == p@,
            cs@.len() == 5,
            forall|j: int| 0 <= j < i ==> is_ascii_alnum(#[trigger] cs@[j]),
        decreases 5 - i,
    {
        let c = cs[i];
        if !(('0' <= c && c <= '9') || ('A' <= c && c <= 'Z') || ('a' <= c && c <= 'z')) {
            return false;
        }
        i = i + 1;
    }
    true
}

/// Whether `key` has the form of a product key (see `product_key_ok`).
pub fn validate_product_key_format(key: &str) -> (r: bool)
    ensures
        r == product_key_ok(key@),
{
    let cs = chars_of(key);
    let parts = split_chars(cs.as_slice(), '-');
    let ghost ps = split_on(key@, '-');
    proof {
        assert(parts@.len() == ps.len());
        assert forall|i: int| 0 <= i < ps.len() implies #[trigger] parts@[i]@ == ps[i] by {
            assert(parts@.map_values(|s: String| s@)[i] == ps[i]);
        }
    }
    if parts.len() != 5 {
        return false;
    }
    let mut i: usize = 0;
    while i < 5
        invariant
            i <= 5,
            parts@.len() == 5,
            ps == split_on(key@, '-'),
            ps.len() == 5,
            forall|j: int| 0 <= j < 5 ==> #[trigger] parts@[j]@ == ps[j],
            forall|j: int| 0 <= j < i ==> key_group_ok(#[trigger] ps[j]),
        decreases 5 - i,
    {
        if !group_ok(parts[i].as_str()) {
            assert(!key_group_ok(ps[i as int]));
            return false;
        }
        i = i + 1;
    }
    true
}

/// Whether a key management server at `server` takes the request: it is
/// `localhost` or an address in 192.168.
pub open spec fn kms_server_ok(server: Seq<char>) -> bool {
    server == "localhost"@ || starts_with(server, "192.168."@)
}

impl KmsClient {
    /// The server address, if one was used.
    pub closed spec fn server(&self) -> Option<Seq<char>> {
        match self.server_address { Some(s) => Some(s@), None => None }
    }

    /// The client count and the count needed.
    pub closed spec fn counts(&self) -> (u32, u32) {
        (self.current_count, self.minimum_count)
    }

    /// No server yet, count 0 of the 25 needed, activation every 120
    /// minutes and renewal every 10080.
    pub fn new() -> (r: Self)
        ensures
            r.server() is None,
            r.counts() == (0u32, 25u32),
    {
        KmsClient {
            server_address: None,
            client_machine_id: generate_machine_id(),
            activation_interval: 120,
            renewal_interval: 10080,
            current_count: 0,
            minimum_count: 25,
        }
    }

    /// Records `server` and asks it to activate (see `kms_server_ok`); on
    /// success the count reaches what is needed.
    pub fn activate_with_server(&mut self, server: &str) -> (r: bool)
        ensures
            r == kms_server_ok(server@),
            final(self).server() == Some(server@),
            final(self).counts() == (if r { (old(self).counts().1, old(self).counts().1) } else { old(self).counts() }),
    {
        self.server_address = Some(server.to_owned());
        let owned = server.to_owned();
        let cs = chars_of(server);
        if text_is(&owned, "localhost") || chars_start_with(cs.as_slice(), "192.168.") {
            self.current_count = self.minimum_count;
            true
        } else {
            false
        }
    }

    /// Renews the activation when a server was used.
    pub fn renew_activation(&mut self) -> (r: bool)
        ensures
            r == old(self).server() is Some,
            final(self).server() == old(self).server(),
            final(self).counts() == (if r { (old(self).counts().1, old(self).counts().1) } else { old(self).counts() }),
    {
        if self.server_address.is_some() {
            self.current_count = self.minimum_count;
            true
        } else {
            false
        }
    }
}

/// The view of a log entry.
pub open spec fn event_view(e: WpaEvent) -> (WpaEventType, u64, Seq<char>) {
    (e.event_type, e.timestamp, e.details@)
}

/// The view of what is known of an activation: the product identifier and
/// key, status, grace days, date, hardware, installation and confirmation
/// identifiers, license and edition.
pub open spec fn activation_view(p: ProductActivation) -> (
    Seq<char>,
    Option<Seq<char>>,
    ActivationStatus,
    u32,
    Option<u64>,
    Seq<char>,
    Seq<char>,
    Option<Seq<char>>,
    LicenseType,
    WindowsEdition,
) {
    (
        p.product_id@,
        match p.product_key { Some(k) => Some(k@), None => None },
        p.activation_status,
        p.grace_period_days,
        p.activation_date,
        p.hardware_id@,
        p.installation_id@,
        match p.confirmation_id { Some(k) => Some(k@), None => None },
        p.license_type,
        p.edition,
    )
}

/// A copy of an optional text.
fn copy_opt(s: &Option<String>) -> (r: Option<String>)
    ensures
        (match r { Some(k) => Some(k@), None => None::<Seq<char>> }) == (match *s { Some(k) => Some(k@), None => None::<Seq<char>> }),
{
    match s {
        Some(k) => Some(k.clone()),
        None => None,
    }
}

impl SoftwareLicensingService {
    /// What is known of the activation.
    pub closed spec fn info(&self) -> (
        Seq<char>,
        Option<Seq<char>>,
        ActivationStatus,
        u32,
        Option<u64>,
        Seq<char>,
        Seq<char>,
        Option<Seq<char>>,
        LicenseType,
        WindowsEdition,
    ) {
        activation_view(self.activation_info)
    }

    /// The key management server used, if any.
    pub closed spec fn kms(&self) -> Option<Seq<char>> {
        match self.kms_server { Some(s) => Some(s@), None => None }
    }

    /// The number of successful activations by key (wrapping).
    pub closed spec fn count(&self) -> u32 {
        self.activation_count
    }

    /// The activation log.
    pub closed spec fn events(&self) -> Seq<(WpaEventType, u64, Seq<char>)> {
        self.wpa_events@.map_values(|e: WpaEvent| event_view(e))
    }

    /// The date of activation is never later than the clock (which reads
    /// zero): none, or zero.
    pub closed spec fn wf(&self) -> bool {
        self.activation_info.activation_date is None || self.activation_info.activation_date == Some(0u64)
    }

    /// Not activated, no key, a grace period of 30 days, the generated
    /// identifiers, an open-source license of the ReactOS edition, and an
    /// empty log.
    pub fn new() -> (r: Self)
        ensures
            r.wf(),
            r.info() == ("00000-000-0000000-00000"@, None::<Seq<char>>, ActivationStatus::NotActivated, 30u32,
                None::<u64>, "HWID-1234567890ABCDEF"@, "000000000000000000000000000000000000000000000000000000"@,
                None::<Seq<char>>, LicenseType::OpenSource, WindowsEdition::ReactOS),
            r.kms() is None,
            r.count() == 0,
            r.events() == Seq::<(WpaEventType, u64, Seq<char>)>::empty(),
    {
        let r = SoftwareLicensingService {
            activation_info: ProductActivation {
                product_id: generate_product_id(),
                product_key: None,
                activation_status: ActivationStatus::NotActivated,
                grace_period_days: 30,
                activation_date: None,
                hardware_id: generate_hardware_id(),
                installation_id: generate_installation_id(),
                confirmation_id: None,
                license_type: LicenseType::OpenSource,
                edition: WindowsEdition::ReactOS,
            },
            kms_server: None,
            activation_count: 0,
            last_activation_check: 0,
            wpa_events: Vec::new(),
        };
        assert(r.events() =~= Seq::<(WpaEventType, u64, Seq<char>)>::empty());
        r
    }

    /// Appends an entry of `event_type` with `details` to the log, stamped
    /// with the clock.
    fn log_wpa_event(&mut self, event_type: WpaEventType, details: &str)
        ensures
            final(self).events() == old(self).events().push((event_type, 0u64, details@)),
            final(self).activation_info == old(self).activation_info,
            final(self).kms_server == old(self).kms_server,
            final(self).activation_count == old(self).activation_count,
    {
        self.wpa_events.push(WpaEvent { event_type, timestamp: get_current_time(), details: details.to_owned() });
        assert(self.events() =~= old(self).events().push((event_type, 0u64, details@)));
    }

    /// Records a product key (see `product_key_ok`); an ill-formed one is
    /// the invalid-parameter error and changes nothing. The ReactOS edition
    /// is then activated at once (see `activate_product`).
    pub fn set_product_key(&mut self, key: &str) -> (r: NtStatus)
        requires
            old(self).wf(),
        ensures
            final(self).wf(),
            !product_key_ok(key@) ==> r == NtStatus::InvalidParameter && final(self).info() == old(self).info()
                && final(self).events() == old(self).events() && final(self).count() == old(self).count(),
            product_key_ok(key@) ==> {
                let o = old(self).info();
                let n = final(self).info();
                let entered = old(self).events().push((WpaEventType::ProductKeyEntered, 0u64, "Product key entered"@));
                &&& r == NtStatus::Success
                &&& (o.9 == WindowsEdition::ReactOS ==> {
                    &&& n == (o.0, Some(key@), ActivationStatus::Activated, o.3, Some(0u64), o.5, o.6,
                        Some("000000-000000-000000-000000-000000-000000-000000-000000"@), o.8, o.9)
                    &&& final(self).count() == (if old(self).count() == u32::MAX { 0 } else { (old(self).count() + 1) as u32 })
                    &&& final(self).events() == entered.push((WpaEventType::ActivationAttempted, 0u64, "Attempting activation"@))
                        .push((WpaEventType::ActivationSucceeded, 0u64, "ReactOS activated"@))
                })
                &&& (o.9 != WindowsEdition::ReactOS ==> n == (o.0, Some(key@), o.2, o.3, o.4, o.5, o.6, o.7, o.8, o.9)
                    && final(self).events() == entered && final(self).count() == old(self).count())
            },
            final(self).kms() == old(self).kms(),
    {
        if !validate_product_key_format(key) {
            return NtStatus::InvalidParameter;
        }
        self.activation_info.product_key = Some(key.to_owned());
        self.log_wpa_event(WpaEventType::ProductKeyEntered, "Product key entered");
        if self.activation_info.edition == WindowsEdition::ReactOS {
            self.activate_product()
        } else {
            NtStatus::Success
        }
    }

    /// Marks the product activated now with `confirmation_id`, counts it and
    /// logs it with `details`.
    fn mark_activated(&mut self, confirmation_id: String, details: &str)
        ensures
            ({
                let o = old(self).info();
                final(self).info() == (o.0, o.1, ActivationStatus::Activated, o.3, Some(0u64), o.5, o.6, Some(confirmation_id@), o.8, o.9)
            }),
            final(self).count() == (if old(self).count() == u32::MAX { 0 } else { (old(self).count() + 1) as u32 }),
            final(self).events() == old(self).events().push((WpaEventType::ActivationSucceeded, 0u64, details@)),
            final(self).kms() == old(self).kms(),
            final(self).wf(),
    {
        self.activation_info.activation_status = ActivationStatus::Activated;
        self.activation_info.activation_date = Some(get_current_time());
        self.activation_info.confirmation_id = Some(confirmation_id);
        self.activation_count = self.activation_count.wrapping_add(1);
        self.log_wpa_event(WpaEventType::ActivationSucceeded, details);
    }

    /// Activates the product with its key: without a key it is a license
    /// violation (logged); with one the product is activated now with the
    /// generated confirmation identifier, counted and logged.
    pub fn activate_product(&mut self) -> (r: NtStatus)
        requires
            old(self).wf(),
        ensures
            final(self).wf(),
            ({
                let o = old(self).info();
                let attempted = old(self).events().push((WpaEventType::ActivationAttempted, 0u64, "Attempting activation"@));
                if o.1 is None {
                    &&& r == NtStatus::LicenseViolation
                    &&& final(self).info() == o
                    &&& final(self).count() == old(self).count()
                    &&& final(self).events() == attempted.push((WpaEventType::ActivationFailed, 0u64, "No product key"@))
                } else {
                    &&& r == NtStatus::Success
                    &&& final(self).info() == (o.0, o.1, ActivationStatus::Activated, o.3, Some(0u64), o.5, o.6,
                        Some("000000-000000-000000-000000-000000-000000-000000-000000"@), o.8, o.9)
                    &&& final(self).count() == (if old(self).count() == u32::MAX { 0 } else { (old(self).count() + 1) as u32 })
                    &&& final(self).events() == attempted.push((WpaEventType::ActivationSucceeded, 0u64,
                        if o.9 == WindowsEdition::ReactOS { "ReactOS activated"@ } else { "Product activated"@ }))
                }
            }),
            final(self).kms() == old(self).kms(),
    {
        self.log_wpa_event(WpaEventType::ActivationAttempted, "Attempting activation");
        if self.activation_info.product_key.is_none() {
            self.log_wpa_event(WpaEventType::ActivationFailed, "No product key");
            return NtStatus::LicenseViolation;
        }
        if self.activation_info.edition == WindowsEdition::ReactOS {
            self.mark_activated(generate_confirmation_id(), "ReactOS activated");
            return NtStatus::Success;
        }
        match self.perform_online_activation() {
            Ok(confirmation_id) => {
                self.mark_activated(confirmation_id, "Product activated");
                NtStatus::Success
            },
            Err(status) => {
                self.log_wpa_event(WpaEventType::ActivationFailed, "Activation failed");
                status
            },
        }
    }

    /// Activation online: always answered with the generated confirmation
    /// identifier.
    fn perform_online_activation(&self) -> (r: Result<String, NtStatus>)
        ensures
            r matches Ok(s) && s@ == "000000-000000-000000-000000-000000-000000-000000-000000"@,
    {
        Ok(generate_confirmation_id())
    }

    /// Activates through the key management server at `server` (see
    /// `KmsClient::activate_with_server`): on success the product is
    /// activated now under a volume license (logged); otherwise it is a
    /// license violation. The server is recorded either way.
    pub fn activate_with_kms(&mut self, kms: &mut KmsClient, server: &str) -> (r: NtStatus)
        requires
            old(self).wf(),
        ensures
            final(self).wf(),
            final(self).kms() == Some(server@),
            final(kms).server() == Some(server@),
            kms_server_ok(server@) ==> {
                let o = old(self).info();
                &&& r == NtStatus::Success
                &&& final(self).info() == (o.0, o.1, ActivationStatus::Activated, o.3, Some(0u64), o.5, o.6, o.7, LicenseType::Volume, o.9)
                &&& final(self).events() == old(self).events().push((WpaEventType::ActivationSucceeded, 0u64, "KMS activation successful"@))
                &&& final(kms).counts() == (old(kms).counts().1, old(kms).counts().1)
            },
            !kms_server_ok(server@) ==> r == NtStatus::LicenseViolation && final(self).info() == old(self).info()
                && final(self).events() == old(self).events() && final(kms).counts() == old(kms).counts(),
            final(self).count() == old(self).count(),
    {
        self.kms_server = Some(server.to_owned());
        if kms.activate_with_server(server) {
            self.activation_info.activation_status = ActivationStatus::Activated;
            self.activation_info.license_type = LicenseType::Volume;
            self.activation_info.activation_date = Some(get_current_time());
            self.log_wpa_event(WpaEventType::ActivationSucceeded, "KMS activation successful");
            NtStatus::Success
        } else {
            NtStatus::LicenseViolation
        }
    }

    /// Whether the hardware differs from the one the product was installed
    /// on.
    fn has_hardware_changed(&self) -> (r: bool)
        ensures
            r == ("HWID-1234567890ABCDEF"@ != self.info().5),
    {
        let current_hw_id = generate_hardware_id();
        !(current_hw_id == self.activation_info.hardware_id)
    }

    /// Checks the activation: an activated product whose hardware changed
    /// is no longer activated (logged); a grace period that has run out
    /// (in whole days since its start) has expired; any other state stays.
    pub fn check_activation_status(&mut self) -> (r: ActivationStatus)
        requires
            old(self).wf(),
        ensures
            final(self).wf(),
            ({
                let o = old(self).info();
                match o.2 {
                    ActivationStatus::Activated => if "HWID-1234567890ABCDEF"@ != o.5 {
                        &&& r == ActivationStatus::NotActivated
                        &&& final(self).info() == (o.0, o.1, ActivationStatus::NotActivated, o.3, o.4, o.5, o.6, o.7, o.8, o.9)
                        &&& final(self).events() == old(self).events().push((WpaEventType::HardwareChanged, 0u64, "Hardware change detected"@))
                    } else {
                        r == ActivationStatus::Activated && final(self).info() == o && final(self).events() == old(self).events()
                    },
                    _ => r == o.2 && final(self).info() == o && final(self).events() == old(self).events(),
                }
            }),
            final(self).kms() == old(self).kms(),
            final(self).count() == old(self).count(),
    {
        let current_time = get_current_time();
        match self.activation_info.activation_status {
            ActivationStatus::Activated => {
                if self.has_hardware_changed() {
                    self.activation_info.activation_status = ActivationStatus::NotActivated;
                    self.log_wpa_event(WpaEventType::HardwareChanged, "Hardware change detected");
                    ActivationStatus::NotActivated
                } else {
                    ActivationStatus::Activated
                }
            },
            ActivationStatus::GracePeriod => {
                match self.activation_info.activation_date {
                    Some(activation_date) => {
                        let days_elapsed = (current_time - activation_date) / (24 * 60 * 60);
                        if days_elapsed > self.activation_info.grace_period_days as u64 {
                            self.activation_info.activation_status = ActivationStatus::Expired;
                            ActivationStatus::Expired
                        } else {
                            ActivationStatus::GracePeriod
                        }
                    },
                    None => ActivationStatus::GracePeriod,
                }
            },
            status => status,
        }
    }

    /// Starts the grace period now (logged).
    pub fn start_grace_period(&mut self)
        ensures
            final(self).wf(),
            ({
                let o = old(self).info();
                final(self).info() == (o.0, o.1, ActivationStatus::GracePeriod, o.3, Some(0u64), o.5, o.6, o.7, o.8, o.9)
            }),
            final(self).events() == old(self).events().push((WpaEventType::GracePeriodStarted, 0u64, "Grace period started"@)),
            final(self).kms() == old(self).kms(),
            final(self).count() == old(self).count(),
    {
        self.activation_info.activation_status = ActivationStatus::GracePeriod;
        self.activation_info.activation_date = Some(get_current_time());
        self.log_wpa_event(WpaEventType::GracePeriodStarted, "Grace period started");
    }

    /// A copy of what is known of the activation.
    pub fn get_activation_info(&self) -> (r: ProductActivation)
        ensures
            activation_view(r) == self.info(),
    {
        let a = &self.activation_info;
        ProductActivation {
            product_id: a.product_id.clone(),
            product_key: copy_opt(&a.product_key),
            activation_status: a.activation_status,
            grace_period_days: a.grace_period_days,
            activation_date: a.activation_date,
            hardware_id: a.hardware_id.clone(),
            installation_id: a.installation_id.clone(),
            confirmation_id: copy_opt(&a.confirmation_id),
            license_type: a.license_type,
            edition: a.edition,
        }
    }

    /// The days of the grace period left: all of them in the grace period
    /// (it started now), none otherwise.
    pub fn get_remaining_grace_days(&self) -> (r: u32)
        requires
            self.wf(),
        ensures
            r == (if self.info().2 == ActivationStatus::GracePeriod { self.info().3 } else { 0 }),
    {
        match self.activation_info.activation_status {
            ActivationStatus::GracePeriod => {
                match self.activation_info.activation_date {
                    Some(activation_date) => {
                        let current_time = get_current_time();
                        let days_elapsed = (current_time - activation_date) / (24 * 60 * 60);
                        self.activation_info.grace_period_days.saturating_sub(days_elapsed as u32)
                    },
                    None => self.activation_info.grace_period_days,
                }
            },
            _ => 0,
        }
    }
}

/// Records a product key (see `SoftwareLicensingService::set_product_key`).
pub fn slmgr_install_product_key(service: &mut SoftwareLicensingService, key: &str) -> (r: NtStatus)
    requires
        old(service).wf(),
    ensures
        final(service).wf(),
        !product_key_ok(key@) ==> r == NtStatus::InvalidParameter && final(service).info() == old(service).info(),
        product_key_ok(key@) ==> r == NtStatus::Success && final(service).info().1 == Some(key@),
{
    service.set_product_key(key)
}

/// Activates the product (see `SoftwareLicensingService::activate_product`).
pub fn slmgr_activate(service: &mut SoftwareLicensingService) -> (r: NtStatus)
    requires
        old(service).wf(),
    ensures
        final(service).wf(),
        old(service).info().1 is None ==> r == NtStatus::LicenseViolation && final(service).info() == old(service).info(),
        old(service).info().1 is Some ==> r == NtStatus::Success && final(service).info().2 == ActivationStatus::Activated,
{
    service.activate_product()
}

/// Activates through a key management server (see
/// `SoftwareLicensingService::activate_with_kms`).
pub fn slmgr_activate_kms(service: &mut SoftwareLicensingService, kms: &mut KmsClient, server: &str) -> (r: NtStatus)
    requires
        old(service).wf(),
    ensures
        final(service).wf(),
        kms_server_ok(server@) ==> r == NtStatus::Success && final(service).info().2 == ActivationStatus::Activated
            && final(service).info().8 == LicenseType::Volume,
        !kms_server_ok(server@) ==> r == NtStatus::LicenseViolation && final(service).info() == old(service).info(),
{
    service.activate_with_kms(kms, server)
}

/// Checks the activation (see
/// `SoftwareLicensingService::check_activation_status`).
pub fn slmgr_check_activation(service: &mut SoftwareLicensingService) -> (r: ActivationStatus)
    requires
        old(service).wf(),
    ensures
        final(service).wf(),
        old(service).info().2 != ActivationStatus::Activated ==> r == old(service).info().2 && final(service).info() == old(service).info(),
        old(service).info().2 == ActivationStatus::Activated ==> r == (if "HWID-1234567890ABCDEF"@ != old(service).info().5 {
            ActivationStatus::NotActivated
        } else {
            ActivationStatus::Activated
        }),
{
    service.check_activation_status()
}

/// What is known of the activation.
pub fn slmgr_display_license_info(service: &SoftwareLicensingService) -> (r: ProductActivation)
    ensures
        activation_view(r) == service.info(),
{
    service.get_activation_info()
}

/// The days of the grace period left (see
/// `SoftwareLicensingService::get_remaining_grace_days`).
pub fn slmgr_days_remaining(service: &SoftwareLicensingService) -> (r: u32)
    requires
        service.wf(),
    ensures
        r == (if service.info().2 == ActivationStatus::GracePeriod { service.info().3 } else { 0 }),
{
    service.get_remaining_grace_days()
}

/// Activates the ReactOS edition under its open-source license, with its
/// fixed key and confirmation.
pub fn initialize_activation_subsystem(service: &mut SoftwareLicensingService) -> (r: NtStatus)
    requires
        old(service).wf(),
    ensures
        r == NtStatus::Success,
        final(service).wf(),
        ({
            let o = old(service).info();
            final(service).info() == (o.0, Some("REACT-OS000-OPEN0-SOURC-E2024"@), ActivationStatus::Activated, o.3, o.4, o.5, o.6,
                Some("OPENSOURCE-LICENSE-REACTOS"@), LicenseType::OpenSource, WindowsEdition::ReactOS)
        }),
        final(service).events() == old(service).events(),
        final(service).kms() == old(service).kms(),
        final(service).count() == old(service).count(),
{
    service.activation_info.edition = WindowsEdition::ReactOS;
    service.activation_info.license_type = LicenseType::OpenSource;
    service.activation_info.activation_status = ActivationStatus::Activated;
    service.activation_info.product_key = Some("REACT-OS000-OPEN0-SOURC-E2024".to_owned());
    service.activation_info.confirmation_id = Some("OPENSOURCE-LICENSE-REACTOS".to_owned());
    NtStatus::Success
}

} // verus!
