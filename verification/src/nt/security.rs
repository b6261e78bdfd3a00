//! Security identifiers, access control lists, access tokens and the
//! access check.

use vstd::prelude::*;
use std::collections::BTreeMap;
use vstd::std_specs::cmp::PartialEqSpecImpl;
use crate::nt::NtStatus;
use crate::nt::object::{Handle, ObjectAttributes, ObjectHeader, ObjectTrait, ObjectType};
use crate::text::{
    chars_of, chars_start_with, decimal_text, parse_u32, parse_u64, parse_u8, push_u64_decimal,
    split_chars, split_on, starts_with, string_push, unsigned_text_value,
};

verus! {

broadcast use vstd::std_specs::btree::group_btree_axioms;

/// A security identifier: a revision, an identifier authority (six bytes,
/// most significant first) and a list of sub-authorities.
#[derive(Debug, Clone)]
pub struct Sid {
    pub revision: u8,
    pub sub_authority_count: u8,
    pub identifier_authority: [u8; 6],
    pub sub_authorities: Vec<u32>,
}

impl View for Sid {
    type V = (u8, u8, Seq<u8>, Seq<u32>);

    open spec fn view(&self) -> (u8, u8, Seq<u8>, Seq<u32>) {
        (self.revision, self.sub_authority_count, self.identifier_authority@, self.sub_authorities@)
    }
}

/// Whether two identifiers are the same, field by field.
pub fn sid_equal(a: &Sid, b: &Sid) -> (r: bool)
    ensures
        r == (a@ == b@),
{
    if a.revision != b.revision || a.sub_authority_count != b.sub_authority_count {
        return false;
    }
    let mut k: usize = 0;
    while k < 6
        invariant
            k <= 6,
            a.identifier_authority@.len() == 6,
            b.identifier_authority@.len() == 6,
            forall|j: int| 0 <= j < k ==> a.identifier_authority@[j] == b.identifier_authority@[j],
        decreases 6 - k,
    {
        if a.identifier_authority[k] != b.identifier_authority[k] {
            return false;
        }
        k = k + 1;
    }
    assert(a.identifier_authority@ =~= b.identifier_authority@);
    if a.sub_authorities.len() != b.sub_authorities.len() {
        return false;
    }
    let n = a.sub_authorities.len();
    let mut i: usize = 0;
    while i < n
        invariant
            i <= n,
            n == a.sub_authorities@.len(),
            n == b.sub_authorities@.len(),
            forall|j: int| 0 <= j < i ==> a.sub_authorities@[j] == b.sub_authorities@[j],
        decreases n - i,
    {
        if a.sub_authorities[i] != b.sub_authorities[i] {
            return false;
        }
        i = i + 1;
    }
    assert(a.sub_authorities@ =~= b.sub_authorities@);
    true
}

impl PartialEq for Sid {
    fn eq(&self, other: &Self) -> (r: bool) {
        sid_equal(self, other)
    }
}

impl PartialEqSpecImpl for Sid {
    open spec fn obeys_eq_spec() -> bool {
        true
    }

    open spec fn eq_spec(&self, other: &Self) -> bool {
        self@ == other@
    }
}

impl Eq for Sid {}

/// A copy of `s`.
pub fn copy_sid(s: &Sid) -> (r: Sid)
    ensures
        r@ == s@,
{
    let mut subs: Vec<u32> = Vec::new();
    let mut i: usize = 0;
    while i < s.sub_authorities.len()
        invariant
            i <= s.sub_authorities@.len(),
            subs@ == s.sub_authorities@.take(i as int),
        decreases s.sub_authorities@.len() - i,
    {
        subs.push(s.sub_authorities[i]);
        i = i + 1;
        assert(subs@ =~= s.sub_authorities@.take(i as int));
    }
    assert(subs@ =~= s.sub_authorities@);
    Sid {
        revision: s.revision,
        sub_authority_count: s.sub_authority_count,
        identifier_authority: s.identifier_authority,
        sub_authorities: subs,
    }
}

/// The value of an identifier authority: its six bytes read most
/// significant first.
pub open spec fn authority_value(a: Seq<u8>) -> nat {
    (a[0] as nat) * 0x100_0000_0000 + (a[1] as nat) * 0x1_0000_0000 + (a[2] as nat) * 0x100_0000
        + (a[3] as nat) * 0x1_0000 + (a[4] as nat) * 0x100 + (a[5] as nat)
}

/// The six bytes, most significant first, of the low 48 bits of `v`.
pub open spec fn authority_bytes(v: nat) -> Seq<u8> {
    seq![
        ((v / 0x100_0000_0000) % 256) as u8,
        ((v / 0x1_0000_0000) % 256) as u8,
        ((v / 0x100_0000) % 256) as u8,
        ((v / 0x1_0000) % 256) as u8,
        ((v / 0x100) % 256) as u8,
        (v % 256) as u8,
    ]
}

/// Each sub-authority in decimal, each after a hyphen.
pub open spec fn subs_text(s: Seq<u32>) -> Seq<char>
    decreases s.len(),
{
    if s.len() == 0 {
        seq![]
    } else {
        subs_text(s.drop_last()) + seq!['-'] + decimal_text(s.last() as nat)
    }
}

/// The text form `S-<revision>-<authority>[-<sub-authority>]...`.
pub open spec fn sid_text(revision: u8, authority: Seq<u8>, subs: Seq<u32>) -> Seq<char> {
    seq!['S', '-'] + decimal_text(revision as nat) + seq!['-'] + decimal_text(authority_value(authority))
        + subs_text(subs)
}

/// The hyphen-separated fields after the `S-` of an identifier's text.
pub open spec fn sid_fields(s: Seq<char>) -> Seq<Seq<char>> {
    split_on(s.skip(2), '-')
}

/// Whether `t` is an unsigned decimal text whose value is at most `max`.
pub open spec fn number_fits(t: Seq<char>, max: nat) -> bool {
    unsigned_text_value(t) matches Some(v) && v <= max
}

/// The value of an unsigned decimal text (zero for a malformed one).
pub open spec fn number_of(t: Seq<char>) -> nat {
    match unsigned_text_value(t) {
        Some(v) => v,
        None => 0,
    }
}

/// Whether `s` is the text of an identifier: `S-`, then a revision that
/// fits a byte, an authority that fits 64 bits and sub-authorities that
/// each fit 32 bits, all separated by hyphens.
pub open spec fn sid_text_ok(s: Seq<char>) -> bool {
    let p = sid_fields(s);
    &&& starts_with(s, seq!['S', '-'])
    &&& p.len() >= 3
    &&& number_fits(p[0], u8::MAX as nat)
    &&& number_fits(p[1], u64::MAX as nat)
    &&& forall|i: int| 2 <= i < p.len() ==> number_fits(#[trigger] p[i], u32::MAX as nat)
}

/// The identifier that the text `s` writes (see `sid_text_ok`); the
/// authority keeps its low 48 bits.
pub open spec fn parsed_sid(s: Seq<char>) -> (u8, u8, Seq<u8>, Seq<u32>) {
    let p = sid_fields(s);
    (
        number_of(p[0]) as u8,
        (p.len() - 2) as u8,
        authority_bytes(number_of(p[1])),
        Seq::new((p.len() - 2) as nat, |i: int| number_of(p[i + 2]) as u32),
    )
}

impl Sid {
    /// An identifier with these parts; the count is the number of
    /// sub-authorities, kept in a byte.
    pub fn new(revision: u8, identifier_authority: [u8; 6], sub_authorities: Vec<u32>) -> (r: Self)
        ensures
            r.revision == revision,
            r.identifier_authority@ == identifier_authority@,
            r.sub_authorities@ == sub_authorities@,
            r.sub_authority_count == sub_authorities@.len() as u8,
    {
        let count = sub_authorities.len() as u8;
        Sid { revision, sub_authority_count: count, identifier_authority, sub_authorities }
    }

    /// The text form of the identifier (see `sid_text`).
    pub fn to_string(&self) -> (r: String)
        ensures
            r@ == sid_text(self.revision, self.identifier_authority@, self.sub_authorities@),
    {
        let mut result = String::new();
        string_push(&mut result, 'S');
        string_push(&mut result, '-');
        push_u64_decimal(&mut result, self.revision as u64);
        string_push(&mut result, '-');
        let a = &self.identifier_authority;
        let authority: u64 = (a[0] as u64) * 0x100_0000_0000 + (a[1] as u64) * 0x1_0000_0000
            + (a[2] as u64) * 0x100_0000 + (a[3] as u64) * 0x1_0000 + (a[4] as u64) * 0x100 + (a[5] as u64);
        push_u64_decimal(&mut result, authority);
        let ghost head = result@;
        let mut i: usize = 0;
        while i < self.sub_authorities.len()
            invariant
                i <= self.sub_authorities@.len(),
                result@ == head + subs_text(self.sub_authorities@.take(i as int)),
            decreases self.sub_authorities@.len() - i,
        {
            string_push(&mut result, '-');
            push_u64_decimal(&mut result, self.sub_authorities[i] as u64);
            assert(self.sub_authorities@.take(i + 1).drop_last() =~= self.sub_authorities@.take(i as int));
            i = i + 1;
            assert(result@ =~= head + subs_text(self.sub_authorities@.take(i as int)));
        }
        assert(self.sub_authorities@.take(i as int) =~= self.sub_authorities@);
        assert(result@ =~= sid_text(self.revision, self.identifier_authority@, self.sub_authorities@));
        result
    }

    /// Reads an identifier from its text form; a text that is not one
    /// (see `sid_text_ok`) is the invalid-identifier error.
    pub fn from_string(sid_string: &str) -> (r: Result<Self, NtStatus>)
        ensures
            r is Ok <==> sid_text_ok(sid_string@),
            r matches Ok(s) ==> s@ == parsed_sid(sid_string@),
            r matches Err(e) ==> e == NtStatus::InvalidSid,
    {
        let mut chars = chars_of(sid_string);
        proof {
            reveal_strlit("S-");
            assert("S-"@ =~= seq!['S', '-']);
        }
        if !chars_start_with(chars.as_slice(), "S-") {
            return Err(NtStatus::InvalidSid);
        }
        let rest = chars.split_off(2);
        let parts = split_chars(rest.as_slice(), '-');
        let ghost p = sid_fields(sid_string@);
        proof {
            assert(rest@ =~= sid_string@.skip(2));
            assert(parts@.len() == p.len());
            assert forall|i: int| 0 <= i < p.len() implies #[trigger] parts@[i]@ == p[i] by {
                assert(parts@.map_values(|s: String| s@)[i] == p[i]);
            }
        }
        if parts.len() < 3 {
            return Err(NtStatus::InvalidSid);
        }
        let revision = match parse_u8(parts[0].as_str()) {
            Some(v) => v,
            None => {
                return Err(NtStatus::InvalidSid);
            },
        };
        let authority = match parse_u64(parts[1].as_str()) {
            Some(v) => v,
            None => {
                return Err(NtStatus::InvalidSid);
            },
        };
        let identifier_authority: [u8; 6] = [
            ((authority / 0x100_0000_0000) % 256) as u8,
            ((authority / 0x1_0000_0000) % 256) as u8,
            ((authority / 0x100_0000) % 256) as u8,
            ((authority / 0x1_0000) % 256) as u8,
            ((authority / 0x100) % 256) as u8,
            (authority % 256) as u8,
        ];
        assert(identifier_authority@ =~= authority_bytes(authority as nat));
        let mut subs: Vec<u32> = Vec::new();
        let mut i: usize = 2;
        while i < parts.len()
            invariant
                2 <= i <= parts@.len(),
                p == sid_fields(sid_string@),
                parts@.len() == p.len(),
                forall|j: int| 0 <= j < p.len() ==> #[trigger] parts@[j]@ == p[j],
                subs@.len() == i - 2,
                forall|j: int| 2 <= j < i ==> number_fits(#[trigger] p[j], u32::MAX as nat),
                forall|j: int| 0 <= j < subs@.len() ==> #[trigger] subs@[j] == number_of(p[j + 2]) as u32,
            decreases parts@.len() - i,
        {
            match parse_u32(parts[i].as_str()) {
                Some(v) => {
                    subs.push(v);
                },
                None => {
                    assert(!number_fits(p[i as int], u32::MAX as nat));
                    return Err(NtStatus::InvalidSid);
                },
            }
            i = i + 1;
        }
        let r = Sid::new(revision, identifier_authority, subs);
        assert(r@ =~= parsed_sid(sid_string@));
        Ok(r)
    }
}

/// A well-known identifier: revision 1, the authority whose last byte is
/// `authority`, and these sub-authorities.
pub open spec fn well_known(authority: u8, subs: Seq<u32>) -> (u8, u8, Seq<u8>, Seq<u32>) {
    (1, subs.len() as u8, seq![0u8, 0, 0, 0, 0, authority], subs)
}

/// The identifiers every system knows.
pub struct WellKnownSids;

impl WellKnownSids {
    fn make(authority: u8, subs: Vec<u32>) -> (r: Sid)
        ensures
            r@ == well_known(authority, subs@),
    {
        let a: [u8; 6] = [0, 0, 0, 0, 0, authority];
        assert(a@ =~= seq![0u8, 0, 0, 0, 0, authority]);
        Sid::new(1, a, subs)
    }

    pub fn null_sid() -> (r: Sid)
        ensures
            r@ == well_known(0, seq![0]),
    {
        let r = Self::make(0, vec![0]);
        assert(r@ =~= well_known(0, seq![0]));
        r
    }

    pub fn world_sid() -> (r: Sid)
        ensures
            r@ == well_known(1, seq![0]),
    {
        let r = Self::make(1, vec![0]);
        assert(r@ =~= well_known(1, seq![0]));
        r
    }

    pub fn local_sid() -> (r: Sid)
        ensures
            r@ == well_known(2, seq![0]),
    {
        let r = Self::make(2, vec![0]);
        assert(r@ =~= well_known(2, seq![0]));
        r
    }

    pub fn creator_owner_sid() -> (r: Sid)
        ensures
            r@ == well_known(3, seq![0]),
    {
        let r = Self::make(3, vec![0]);
        assert(r@ =~= well_known(3, seq![0]));
        r
    }

    pub fn creator_group_sid() -> (r: Sid)
        ensures
            r@ == well_known(3, seq![1]),
    {
        let r = Self::make(3, vec![1]);
        assert(r@ =~= well_known(3, seq![1]));
        r
    }

    pub fn nt_authority_sid() -> (r: Sid)
        ensures
            r@ == well_known(5, seq![]),
    {
        let r = Self::make(5, Vec::new());
        assert(r@ =~= well_known(5, seq![]));
        r
    }

    pub fn system_sid() -> (r: Sid)
        ensures
            r@ == well_known(5, seq![18]),
    {
        let r = Self::make(5, vec![18]);
        assert(r@ =~= well_known(5, seq![18]));
        r
    }

    pub fn local_service_sid() -> (r: Sid)
        ensures
            r@ == well_known(5, seq![19]),
    {
        let r = Self::make(5, vec![19]);
        assert(r@ =~= well_known(5, seq![19]));
        r
    }

    pub fn network_service_sid() -> (r: Sid)
        ensures
            r@ == well_known(5, seq![20]),
    {
        let r = Self::make(5, vec![20]);
        assert(r@ =~= well_known(5, seq![20]));
        r
    }

    pub fn administrators_sid() -> (r: Sid)
        ensures
            r@ == well_known(5, seq![32, 544]),
    {
        let r = Self::make(5, vec![32, 544]);
        assert(r@ =~= well_known(5, seq![32, 544]));
        r
    }

    pub fn users_sid() -> (r: Sid)
        ensures
            r@ == well_known(5, seq![32, 545]),
    {
        let r = Self::make(5, vec![32, 545]);
        assert(r@ =~= well_known(5, seq![32, 545]));
        r
    }

    pub fn guests_sid() -> (r: Sid)
        ensures
            r@ == well_known(5, seq![32, 546]),
    {
        let r = Self::make(5, vec![32, 546]);
        assert(r@ =~= well_known(5, seq![32, 546]));
        r
    }
}

/// The kinds of access control entry.
#[derive(Debug, Clone, Copy, PartialEq, Eq, Structural)]
pub enum AceType {
    AccessAllowed,
    AccessDenied,
    SystemAudit,
    SystemAlarm,
    AccessAllowedCompound,
    AccessAllowedObject,
    AccessDeniedObject,
    SystemAuditObject,
    SystemAlarmObject,
    AccessAllowedCallback,
    AccessDeniedCallback,
    AccessAllowedCallbackObject,
    AccessDeniedCallbackObject,
    SystemAuditCallback,
    SystemAlarmCallback,
    SystemAuditCallbackObject,
    SystemAlarmCallbackObject,
    SystemMandatoryLabel,
    SystemResourceAttribute,
    SystemScopedPolicyId,
}

/// The number of each kind of entry.
pub open spec fn ace_type_code(t: AceType) -> u8 {
    match t {
        AceType::AccessAllowed => 0,
        AceType::AccessDenied => 1,
        AceType::SystemAudit => 2,
        AceType::SystemAlarm => 3,
        AceType::AccessAllowedCompound => 4,
        AceType::AccessAllowedObject => 5,
        AceType::AccessDeniedObject => 6,
        AceType::SystemAuditObject => 7,
        AceType::SystemAlarmObject => 8,
        AceType::AccessAllowedCallback => 9,
        AceType::AccessDeniedCallback => 10,
        AceType::AccessAllowedCallbackObject => 11,
        AceType::AccessDeniedCallbackObject => 12,
        AceType::SystemAuditCallback => 13,
        AceType::SystemAlarmCallback => 14,
        AceType::SystemAuditCallbackObject => 15,
        AceType::SystemAlarmCallbackObject => 16,
        AceType::SystemMandatoryLabel => 17,
        AceType::SystemResourceAttribute => 18,
        AceType::SystemScopedPolicyId => 19,
    }
}

impl AceType {
    /// The number of the kind.
    pub fn code(&self) -> (r: u8)
        ensures
            r == ace_type_code(*self),
    {
        match self {
            AceType::AccessAllowed => 0,
            AceType::AccessDenied => 1,
            AceType::SystemAudit => 2,
            AceType::SystemAlarm => 3,
            AceType::AccessAllowedCompound => 4,
            AceType::AccessAllowedObject => 5,
            AceType::AccessDeniedObject => 6,
            AceType::SystemAuditObject => 7,
            AceType::SystemAlarmObject => 8,
            AceType::AccessAllowedCallback => 9,
            AceType::AccessDeniedCallback => 10,
            AceType::AccessAllowedCallbackObject => 11,
            AceType::AccessDeniedCallbackObject => 12,
            AceType::SystemAuditCallback => 13,
            AceType::SystemAlarmCallback => 14,
            AceType::SystemAuditCallbackObject => 15,
            AceType::SystemAlarmCallbackObject => 16,
            AceType::SystemMandatoryLabel => 17,
            AceType::SystemResourceAttribute => 18,
            AceType::SystemScopedPolicyId => 19,
        }
    }
}

/// The flag bits of an access control entry.
#[derive(Debug, Clone, Copy, PartialEq, Eq, Structural)]
pub struct AceFlags {
    pub bits: u8,
}

pub const OBJECT_INHERIT_ACE: u8 = 0x01;
pub const CONTAINER_INHERIT_ACE: u8 = 0x02;
pub const NO_PROPAGATE_INHERIT_ACE: u8 = 0x04;
pub const INHERIT_ONLY_ACE: u8 = 0x08;
pub const INHERITED_ACE: u8 = 0x10;
pub const SUCCESSFUL_ACCESS_ACE_FLAG: u8 = 0x40;
pub const FAILED_ACCESS_ACE_FLAG: u8 = 0x80;

impl AceFlags {
    /// No flag set.
    pub fn empty() -> (r: Self)
        ensures
            r.bits == 0,
    {
        AceFlags { bits: 0 }
    }

    /// The flags with these bits.
    pub fn from_bits(bits: u8) -> (r: Self)
        ensures
            r.bits == bits,
    {
        AceFlags { bits }
    }
}

/// An access control entry: a kind, flags, the access it grants, denies
/// or audits, and the identifier it applies to.
#[derive(Debug, Clone)]
pub struct Ace {
    pub ace_type: AceType,
    pub ace_flags: AceFlags,
    pub access_mask: u32,
    pub sid: Sid,
}

/// A copy of an entry.
pub fn copy_ace(a: &Ace) -> (r: Ace)
    ensures
        r.ace_type == a.ace_type,
        r.ace_flags == a.ace_flags,
        r.access_mask == a.access_mask,
        r.sid@ == a.sid@,
{
    Ace { ace_type: a.ace_type, ace_flags: a.ace_flags, access_mask: a.access_mask, sid: copy_sid(&a.sid) }
}

impl Ace {
    pub fn new(ace_type: AceType, ace_flags: AceFlags, access_mask: u32, sid: Sid) -> (r: Self)
        ensures
            r.ace_type == ace_type,
            r.ace_flags == ace_flags,
            r.access_mask == access_mask,
            r.sid == sid,
    {
        Ace { ace_type, ace_flags, access_mask, sid }
    }

    /// An entry that grants `access_mask` to `sid`.
    pub fn allow(access_mask: u32, sid: Sid) -> (r: Self)
        ensures
            r.ace_type == AceType::AccessAllowed,
            r.ace_flags.bits == 0,
            r.access_mask == access_mask,
            r.sid == sid,
    {
        Self::new(AceType::AccessAllowed, AceFlags::empty(), access_mask, sid)
    }

    /// An entry that denies `access_mask` to `sid`.
    pub fn deny(access_mask: u32, sid: Sid) -> (r: Self)
        ensures
            r.ace_type == AceType::AccessDenied,
            r.ace_flags.bits == 0,
            r.access_mask == access_mask,
            r.sid == sid,
    {
        Self::new(AceType::AccessDenied, AceFlags::empty(), access_mask, sid)
    }

    /// An entry that audits `access_mask` by `sid`.
    pub fn audit(access_mask: u32, sid: Sid, flags: AceFlags) -> (r: Self)
        ensures
            r.ace_type == AceType::SystemAudit,
            r.ace_flags == flags,
            r.access_mask == access_mask,
            r.sid == sid,
    {
        Self::new(AceType::SystemAudit, flags, access_mask, sid)
    }
}

/// The union of the masks of the entries of kind `t` that apply to `sid`.
pub open spec fn ace_mask_for(aces: Seq<Ace>, sid: (u8, u8, Seq<u8>, Seq<u32>), t: AceType) -> u32
    decreases aces.len(),
{
    if aces.len() == 0 {
        0
    } else {
        let m = ace_mask_for(aces.drop_last(), sid, t);
        let a = aces.last();
        if a.sid@ == sid && a.ace_type == t {
            m | a.access_mask
        } else {
            m
        }
    }
}

/// Whether the entries grant `desired` to `sid`: no bit of it is denied
/// to `sid`, and every bit of it is allowed to `sid`.
pub open spec fn acl_allows(aces: Seq<Ace>, sid: (u8, u8, Seq<u8>, Seq<u32>), desired: u32) -> bool {
    &&& ace_mask_for(aces, sid, AceType::AccessDenied) & desired == 0
    &&& ace_mask_for(aces, sid, AceType::AccessAllowed) & desired == desired
}

/// A bit kept by one side of an or is kept by the or.
proof fn lemma_or_keeps_bits(m: u32, x: u32, d: u32)
    by (bit_vector)
    ensures
        x & d != 0 ==> (m | x) & d != 0,
        m & d != 0 ==> (m | x) & d != 0,
{
}

/// Once an entry of type `t` for `sid` has a bit in common with `d`, the
/// mask gathered for `sid` and `t` over a list holding it does too.
proof fn lemma_mask_keeps_entry(aces: Seq<Ace>, sid: (u8, u8, Seq<u8>, Seq<u32>), t: AceType, d: u32, i: int)
    requires
        0 <= i < aces.len(),
        aces[i].sid@ == sid,
        aces[i].ace_type == t,
        aces[i].access_mask & d != 0,
    ensures
        ace_mask_for(aces, sid, t) & d != 0,
    decreases aces.len(),
{
    let m = ace_mask_for(aces.drop_last(), sid, t);
    let a = aces.last();
    if i == aces.len() - 1 {
        lemma_or_keeps_bits(m, a.access_mask, d);
    } else {
        assert(aces.drop_last()[i] == aces[i]);
        lemma_mask_keeps_entry(aces.drop_last(), sid, t, d, i);
        lemma_or_keeps_bits(m, a.access_mask, d);
    }
}

/// A deny entry wins: when any access-denied entry for `sid` names a bit of
/// `desired`, the list refuses `desired` to `sid`, whatever the allow
/// entries (before or after it) grant.
pub proof fn lemma_denied_entry_refuses(aces: Seq<Ace>, sid: (u8, u8, Seq<u8>, Seq<u32>), desired: u32, i: int)
    requires
        0 <= i < aces.len(),
        aces[i].sid@ == sid,
        aces[i].ace_type == AceType::AccessDenied,
        aces[i].access_mask & desired != 0,
    ensures
        !acl_allows(aces, sid, desired),
{
    lemma_mask_keeps_entry(aces, sid, AceType::AccessDenied, desired, i);
}

/// An access control list: a revision and its entries, in order.
#[derive(Debug, Clone)]
pub struct Acl {
    pub revision: u8,
    pub aces: Vec<Ace>,
}

/// Whether two entries are the same, identifiers taken by their views.
pub open spec fn same_ace(a: Ace, b: Ace) -> bool {
    a.ace_type == b.ace_type && a.ace_flags == b.ace_flags && a.access_mask == b.access_mask && a.sid@ == b.sid@
}

/// Whether two lists are the same, entry by entry.
pub open spec fn same_acl(a: Acl, b: Acl) -> bool {
    &&& a.revision == b.revision
    &&& a.aces@.len() == b.aces@.len()
    &&& forall|i: int| 0 <= i < a.aces@.len() ==> same_ace(#[trigger] a.aces@[i], b.aces@[i])
}

/// A copy of a list.
pub fn copy_acl(a: &Acl) -> (r: Acl)
    ensures
        same_acl(r, *a),
{
    let mut aces: Vec<Ace> = Vec::new();
    let mut i: usize = 0;
    while i < a.aces.len()
        invariant
            i <= a.aces@.len(),
            aces@.len() == i,
            forall|j: int| 0 <= j < i ==> same_ace(#[trigger] aces@[j], a.aces@[j]),
        decreases a.aces@.len() - i,
    {
        aces.push(copy_ace(&a.aces[i]));
        i = i + 1;
    }
    Acl { revision: a.revision, aces }
}

impl Acl {
    /// An empty list of revision 2.
    pub fn new() -> (r: Self)
        ensures
            r.revision == 2,
            r.aces@ == Seq::<Ace>::empty(),
    {
        Acl { revision: 2, aces: Vec::new() }
    }

    /// Appends `ace`.
    pub fn add_ace(&mut self, ace: Ace)
        ensures
            final(self).revision == old(self).revision,
            final(self).aces@ == old(self).aces@.push(ace),
    {
        self.aces.push(ace);
    }

    /// Takes out the entry at `index`, if there is one.
    pub fn remove_ace(&mut self, index: usize) -> (r: Option<Ace>)
        ensures
            final(self).revision == old(self).revision,
            index < old(self).aces@.len() ==> r == Some(old(self).aces@[index as int])
                && final(self).aces@ == old(self).aces@.remove(index as int),
            index >= old(self).aces@.len() ==> r is None && final(self).aces@ == old(self).aces@,
    {
        if index < self.aces.len() {
            Some(self.aces.remove(index))
        } else {
            None
        }
    }

    /// Whether the list grants `desired_access` to `sid` (see `acl_allows`).
    pub fn check_access(&self, sid: &Sid, desired_access: u32) -> (r: bool)
        ensures
            r == acl_allows(self.aces@, sid@, desired_access),
    {
        let mut allowed: u32 = 0;
        let mut denied: u32 = 0;
        let mut i: usize = 0;
        while i < self.aces.len()
            invariant
                i <= self.aces@.len(),
                allowed == ace_mask_for(self.aces@.take(i as int), sid@, AceType::AccessAllowed),
                denied == ace_mask_for(self.aces@.take(i as int), sid@, AceType::AccessDenied),
            decreases self.aces@.len() - i,
        {
            let ace = &self.aces[i];
            assert(self.aces@.take(i + 1).drop_last() =~= self.aces@.take(i as int));
            if sid_equal(&ace.sid, sid) {
                match ace.ace_type {
                    AceType::AccessDenied => {
                        denied = denied | ace.access_mask;
                    },
                    AceType::AccessAllowed => {
                        allowed = allowed | ace.access_mask;
                    },
                    _ => {},
                }
            }
            i = i + 1;
        }
        assert(self.aces@.take(i as int) =~= self.aces@);
        if (denied & desired_access) != 0 {
            return false;
        }
        (allowed & desired_access) == desired_access
    }
}

/// The control bits of a security descriptor.
#[derive(Debug, Clone, Copy, PartialEq, Eq, Structural)]
pub struct SecurityDescriptorControl {
    pub bits: u16,
}

pub const SE_OWNER_DEFAULTED: u16 = 0x0001;
pub const SE_GROUP_DEFAULTED: u16 = 0x0002;
pub const SE_DACL_PRESENT: u16 = 0x0004;
pub const SE_DACL_DEFAULTED: u16 = 0x0008;
pub const SE_SACL_PRESENT: u16 = 0x0010;
pub const SE_SACL_DEFAULTED: u16 = 0x0020;
pub const SE_DACL_AUTO_INHERIT_REQ: u16 = 0x0100;
pub const SE_SACL_AUTO_INHERIT_REQ: u16 = 0x0200;
pub const SE_DACL_AUTO_INHERITED: u16 = 0x0400;
pub const SE_SACL_AUTO_INHERITED: u16 = 0x0800;
pub const SE_DACL_PROTECTED: u16 = 0x1000;
pub const SE_SACL_PROTECTED: u16 = 0x2000;
pub const SE_RM_CONTROL_VALID: u16 = 0x4000;
pub const SE_SELF_RELATIVE: u16 = 0x8000;

/// The owner, group and access control lists of an object.
#[derive(Debug, Clone)]
pub struct SecurityDescriptor {
    pub revision: u8,
    pub control: SecurityDescriptorControl,
    pub owner_sid: Option<Sid>,
    pub group_sid: Option<Sid>,
    pub dacl: Option<Acl>,
    pub sacl: Option<Acl>,
}

impl SecurityDescriptor {
    /// A descriptor of revision 1 with nothing set.
    pub fn new() -> (r: Self)
        ensures
            r.revision == 1,
            r.control.bits == 0,
            r.owner_sid is None && r.group_sid is None && r.dacl is None && r.sacl is None,
    {
        SecurityDescriptor {
            revision: 1,
            control: SecurityDescriptorControl { bits: 0 },
            owner_sid: None,
            group_sid: None,
            dacl: None,
            sacl: None,
        }
    }

    /// Sets the owner, which is then no longer defaulted.
    pub fn set_owner(&mut self, sid: Sid)
        ensures
            final(self).owner_sid == Some(sid),
            final(self).control.bits == old(self).control.bits & !SE_OWNER_DEFAULTED,
            final(self).revision == old(self).revision,
            final(self).group_sid == old(self).group_sid,
            final(self).dacl == old(self).dacl,
            final(self).sacl == old(self).sacl,
    {
        self.owner_sid = Some(sid);
        self.control.bits = self.control.bits & !SE_OWNER_DEFAULTED;
    }

    /// Sets the group, which is then no longer defaulted.
    pub fn set_group(&mut self, sid: Sid)
        ensures
            final(self).group_sid == Some(sid),
            final(self).control.bits == old(self).control.bits & !SE_GROUP_DEFAULTED,
            final(self).revision == old(self).revision,
            final(self).owner_sid == old(self).owner_sid,
            final(self).dacl == old(self).dacl,
            final(self).sacl == old(self).sacl,
    {
        self.group_sid = Some(sid);
        self.control.bits = self.control.bits & !SE_GROUP_DEFAULTED;
    }

    /// Sets the discretionary list, which is then present and not defaulted.
    pub fn set_dacl(&mut self, dacl: Acl)
        ensures
            final(self).dacl == Some(dacl),
            final(self).control.bits == (old(self).control.bits | SE_DACL_PRESENT) & !SE_DACL_DEFAULTED,
            final(self).revision == old(self).revision,
            final(self).owner_sid == old(self).owner_sid,
            final(self).group_sid == old(self).group_sid,
            final(self).sacl == old(self).sacl,
    {
        self.dacl = Some(dacl);
        self.control.bits = (self.control.bits | SE_DACL_PRESENT) & !SE_DACL_DEFAULTED;
    }

    /// Sets the system list, which is then present and not defaulted.
    pub fn set_sacl(&mut self, sacl: Acl)
        ensures
            final(self).sacl == Some(sacl),
            final(self).control.bits == (old(self).control.bits | SE_SACL_PRESENT) & !SE_SACL_DEFAULTED,
            final(self).revision == old(self).revision,
            final(self).owner_sid == old(self).owner_sid,
            final(self).group_sid == old(self).group_sid,
            final(self).dacl == old(self).dacl,
    {
        self.sacl = Some(sacl);
        self.control.bits = (self.control.bits | SE_SACL_PRESENT) & !SE_SACL_DEFAULTED;
    }
}

/// The privileges a token can hold.
#[derive(Debug, Clone, Copy, PartialEq, Eq, Structural)]
pub enum Privilege {
    CreateToken,
    AssignPrimaryToken,
    LockMemory,
    IncreaseQuota,
    MachineAccount,
    Tcb,
    Security,
    TakeOwnership,
    LoadDriver,
    SystemProfile,
    Systemtime,
    ProfileSingleProcess,
    IncreaseBasePriority,
    CreatePagefile,
    CreatePermanent,
    Backup,
    Restore,
    Shutdown,
    Debug,
    Audit,
    SystemEnvironment,
    ChangeNotify,
    RemoteShutdown,
    Undock,
    SyncAgent,
    EnableDelegation,
    ManageVolume,
    Impersonate,
    CreateGlobal,
    TrustedCredManAccess,
    Relabel,
    IncreaseWorkingSet,
    TimeZone,
    CreateSymbolicLink,
}

/// The number of each privilege.
pub open spec fn privilege_code(p: Privilege) -> u32 {
    match p {
        Privilege::CreateToken => 2,
        Privilege::AssignPrimaryToken => 3,
        Privilege::LockMemory => 4,
        Privilege::IncreaseQuota => 5,
        Privilege::MachineAccount => 6,
        Privilege::Tcb => 7,
        Privilege::Security => 8,
        Privilege::TakeOwnership => 9,
        Privilege::LoadDriver => 10,
        Privilege::SystemProfile => 11,
        Privilege::Systemtime => 12,
        Privilege::ProfileSingleProcess => 13,
        Privilege::IncreaseBasePriority => 14,
        Privilege::CreatePagefile => 15,
        Privilege::CreatePermanent => 16,
        Privilege::Backup => 17,
        Privilege::Restore => 18,
        Privilege::Shutdown => 19,
        Privilege::Debug => 20,
        Privilege::Audit => 21,
        Privilege::SystemEnvironment => 22,
        Privilege::ChangeNotify => 23,
        Privilege::RemoteShutdown => 24,
        Privilege::Undock => 25,
        Privilege::SyncAgent => 26,
        Privilege::EnableDelegation => 27,
        Privilege::ManageVolume => 28,
        Privilege::Impersonate => 29,
        Privilege::CreateGlobal => 30,
        Privilege::TrustedCredManAccess => 31,
        Privilege::Relabel => 32,
        Privilege::IncreaseWorkingSet => 33,
        Privilege::TimeZone => 34,
        Privilege::CreateSymbolicLink => 35,
    }
}

impl Privilege {
    /// The number of the privilege.
    pub fn code(&self) -> (r: u32)
        ensures
            r == privilege_code(*self),
    {
        match self {
            Privilege::CreateToken => 2,
            Privilege::AssignPrimaryToken => 3,
            Privilege::LockMemory => 4,
            Privilege::IncreaseQuota => 5,
            Privilege::MachineAccount => 6,
            Privilege::Tcb => 7,
            Privilege::Security => 8,
            Privilege::TakeOwnership => 9,
            Privilege::LoadDriver => 10,
            Privilege::SystemProfile => 11,
            Privilege::Systemtime => 12,
            Privilege::ProfileSingleProcess => 13,
            Privilege::IncreaseBasePriority => 14,
            Privilege::CreatePagefile => 15,
            Privilege::CreatePermanent => 16,
            Privilege::Backup => 17,
            Privilege::Restore => 18,
            Privilege::Shutdown => 19,
            Privilege::Debug => 20,
            Privilege::Audit => 21,
            Privilege::SystemEnvironment => 22,
            Privilege::ChangeNotify => 23,
            Privilege::RemoteShutdown => 24,
            Privilege::Undock => 25,
            Privilege::SyncAgent => 26,
            Privilege::EnableDelegation => 27,
            Privilege::ManageVolume => 28,
            Privilege::Impersonate => 29,
            Privilege::CreateGlobal => 30,
            Privilege::TrustedCredManAccess => 31,
            Privilege::Relabel => 32,
            Privilege::IncreaseWorkingSet => 33,
            Privilege::TimeZone => 34,
            Privilege::CreateSymbolicLink => 35,
        }
    }
}

/// A locally unique identifier: the low and the high half of a 64-bit
/// number.
#[derive(Debug, Clone, Copy, PartialEq, Eq, Structural)]
pub struct Luid {
    pub low_part: u32,
    pub high_part: i32,
}

/// The identifier of the number `v`: its low 32 bits, and its high 32
/// bits read as a signed number.
pub open spec fn luid_of(v: u64) -> Luid {
    Luid { low_part: (v % 0x1_0000_0000) as u32, high_part: ((v / 0x1_0000_0000) as u32) as i32 }
}

/// The number of an identifier: the high half's bits above the low half.
pub open spec fn luid_value(l: Luid) -> nat {
    ((l.high_part as u32) as nat) * 0x1_0000_0000 + (l.low_part as nat)
}

impl Luid {
    pub fn new(value: u64) -> (r: Self)
        ensures
            r == luid_of(value),
    {
        Luid { low_part: (value % 0x1_0000_0000) as u32, high_part: ((value / 0x1_0000_0000) as u32) as i32 }
    }

    /// The number of the identifier.
    pub fn as_u64(&self) -> (r: u64)
        ensures
            r == luid_value(*self),
    {
        (self.high_part as u32) as u64 * 0x1_0000_0000 + self.low_part as u64
    }
}

/// An identifier and its number are one and the same: `as_u64` gives back
/// the number `new` was made from, and `new` gives back the identifier whose
/// number it is given.
pub proof fn lemma_luid_round_trip(v: u64, l: Luid)
    ensures
        luid_value(luid_of(v)) == v,
        luid_value(l) <= u64::MAX,
        luid_of(luid_value(l) as u64) == l,
{
    let hi: u32 = (v / 0x1_0000_0000) as u32;
    let h: i32 = l.high_part;
    assert((((hi as i32) as u32) == hi) && (((h as u32) as i32) == h)) by (bit_vector);
    let x: nat = luid_value(l);
    let q: nat = (h as u32) as nat;
    let lo: nat = l.low_part as nat;
    assert(x / 0x1_0000_0000 == q && x % 0x1_0000_0000 == lo) by (nonlinear_arith)
        requires
            x == q * 0x1_0000_0000 + lo,
            lo < 0x1_0000_0000,
    {
        vstd::arithmetic::div_mod::lemma_fundamental_div_mod_converse(x as int, 0x1_0000_0000, q as int, lo as int);
    }
}

/// The attribute bits of a privilege held by a token.
#[derive(Debug, Clone, Copy, PartialEq, Eq, Structural)]
pub struct PrivilegeAttributes {
    pub bits: u32,
}

pub const SE_PRIVILEGE_ENABLED_BY_DEFAULT: u32 = 0x0000_0001;
pub const SE_PRIVILEGE_ENABLED: u32 = 0x0000_0002;
pub const SE_PRIVILEGE_REMOVED: u32 = 0x0000_0004;
pub const SE_PRIVILEGE_USED_FOR_ACCESS: u32 = 0x8000_0000;

impl PrivilegeAttributes {
    pub fn empty() -> (r: Self)
        ensures
            r.bits == 0,
    {
        PrivilegeAttributes { bits: 0 }
    }

    pub fn from_bits(bits: u32) -> (r: Self)
        ensures
            r.bits == bits,
    {
        PrivilegeAttributes { bits }
    }

    /// Whether every bit of `flag` is set.
    pub fn contains(&self, flag: u32) -> (r: bool)
        ensures
            r == (self.bits & flag == flag),
    {
        self.bits & flag == flag
    }
}

/// A privilege by its identifier, and its attributes.
#[derive(Debug, Clone, Copy, PartialEq, Eq, Structural)]
pub struct LuidAndAttributes {
    pub luid: Luid,
    pub attributes: PrivilegeAttributes,
}

/// The kinds of token.
#[derive(Debug, Clone, Copy, PartialEq, Eq, Structural)]
pub enum TokenType {
    Primary,
    Impersonation,
}

impl TokenType {
    pub fn code(&self) -> (r: u32)
        ensures
            r == (match *self { TokenType::Primary => 1u32, TokenType::Impersonation => 2u32 }),
    {
        match self {
            TokenType::Primary => 1,
            TokenType::Impersonation => 2,
        }
    }
}

/// How far a server may act as its client.
#[derive(Debug, Clone, Copy, PartialEq, Eq, Structural)]
pub enum SecurityImpersonationLevel {
    Anonymous,
    Identification,
    Impersonation,
    Delegation,
}

impl SecurityImpersonationLevel {
    pub fn code(&self) -> (r: u32)
        ensures
            r == (match *self {
                SecurityImpersonationLevel::Anonymous => 0u32,
                SecurityImpersonationLevel::Identification => 1u32,
                SecurityImpersonationLevel::Impersonation => 2u32,
                SecurityImpersonationLevel::Delegation => 3u32,
            }),
    {
        match self {
            SecurityImpersonationLevel::Anonymous => 0,
            SecurityImpersonationLevel::Identification => 1,
            SecurityImpersonationLevel::Impersonation => 2,
            SecurityImpersonationLevel::Delegation => 3,
        }
    }
}

/// The flag bits of a token.
#[derive(Debug, Clone, Copy, PartialEq, Eq, Structural)]
pub struct TokenFlags {
    pub bits: u32,
}

pub const TOKEN_WRITE_RESTRICTED: u32 = 0x0008;
pub const TOKEN_IS_RESTRICTED: u32 = 0x0010;
pub const TOKEN_SESSION_NOT_REFERENCED: u32 = 0x0020;
pub const TOKEN_SANDBOX_INERT: u32 = 0x0040;
pub const TOKEN_VIRTUALIZE_ALLOWED: u32 = 0x0200;
pub const TOKEN_VIRTUALIZE_ENABLED: u32 = 0x0400;
pub const TOKEN_IS_FILTERED: u32 = 0x0800;
pub const TOKEN_UIACCESS: u32 = 0x1000;
pub const TOKEN_NOT_LOW: u32 = 0x2000;
pub const TOKEN_LOWBOX: u32 = 0x4000;
pub const TOKEN_HAS_OWN_CLAIM_ATTRIBUTES: u32 = 0x8000;

/// An access token: who a process acts as, its groups and privileges.
#[derive(Debug)]
pub struct Token {
    pub header: ObjectHeader,
    pub token_type: TokenType,
    pub impersonation_level: SecurityImpersonationLevel,
    pub user_sid: Sid,
    pub groups: Vec<(Sid, u32)>,
    pub privileges: Vec<LuidAndAttributes>,
    pub owner_sid: Sid,
    pub primary_group: Sid,
    pub default_dacl: Option<Acl>,
    pub session_id: u32,
    pub token_id: Luid,
    pub authentication_id: Luid,
    pub expiration_time: u64,
    pub token_flags: TokenFlags,
}

/// The groups of a token, each identifier taken by its view.
pub open spec fn groups_view(g: Seq<(Sid, u32)>) -> Seq<((u8, u8, Seq<u8>, Seq<u32>), u32)> {
    g.map_values(|p: (Sid, u32)| (p.0@, p.1))
}

/// A copy of a list of groups.
pub fn copy_groups(g: &[(Sid, u32)]) -> (r: Vec<(Sid, u32)>)
    ensures
        groups_view(r@) == groups_view(g@),
{
    let mut r: Vec<(Sid, u32)> = Vec::new();
    let mut i: usize = 0;
    while i < g.len()
        invariant
            i <= g@.len(),
            r@.len() == i,
            forall|k: int| 0 <= k < i ==> (#[trigger] r@[k]).0@ == g@[k].0@ && r@[k].1 == g@[k].1,
        decreases g@.len() - i,
    {
        let sid = copy_sid(&g[i].0);
        r.push((sid, g[i].1));
        i = i + 1;
    }
    assert(groups_view(r@) =~= groups_view(g@));
    r
}

/// A copy of a list of privileges.
pub fn copy_privileges(p: &[LuidAndAttributes]) -> (r: Vec<LuidAndAttributes>)
    ensures
        r@ == p@,
{
    let mut r: Vec<LuidAndAttributes> = Vec::new();
    let mut i: usize = 0;
    while i < p.len()
        invariant
            i <= p@.len(),
            r@ == p@.take(i as int),
        decreases p@.len() - i,
    {
        r.push(p[i]);
        i = i + 1;
        assert(r@ =~= p@.take(i as int));
    }
    assert(p@.take(i as int) =~= p@);
    r
}

/// Whether `h` is the header of a token just made: one reference, no
/// handles, no name.
pub open spec fn fresh_token_header(h: ObjectHeader) -> bool {
    &&& h.object_type == ObjectType::Token
    &&& h.reference_count == 1 && h.handle_count == 0
    &&& h.name is None && h.parent_directory is None && h.security_descriptor is None
}

/// Whether `r` is the token of the system, just made: the system
/// identifier as user, owner and primary group, the administrators
/// (attributes 0xF) and everyone (attributes 7) as groups, and the
/// trusted-computing-base, debug and take-ownership privileges, each
/// enabled and enabled by default.
pub open spec fn is_system_token(r: Token) -> bool {
    &&& fresh_token_header(r.header)
    &&& r.token_type == TokenType::Primary
    &&& r.impersonation_level == SecurityImpersonationLevel::Anonymous
    &&& r.user_sid@ == well_known(5, seq![18])
    &&& r.owner_sid@ == well_known(5, seq![18])
    &&& r.primary_group@ == well_known(5, seq![18])
    &&& groups_view(r.groups@) == seq![(well_known(5, seq![32, 544]), 0x0Fu32), (well_known(1, seq![0]), 0x07u32)]
    &&& r.privileges@ == seq![
        LuidAndAttributes { luid: luid_of(7), attributes: PrivilegeAttributes { bits: SE_PRIVILEGE_ENABLED | SE_PRIVILEGE_ENABLED_BY_DEFAULT } },
        LuidAndAttributes { luid: luid_of(20), attributes: PrivilegeAttributes { bits: SE_PRIVILEGE_ENABLED | SE_PRIVILEGE_ENABLED_BY_DEFAULT } },
        LuidAndAttributes { luid: luid_of(9), attributes: PrivilegeAttributes { bits: SE_PRIVILEGE_ENABLED | SE_PRIVILEGE_ENABLED_BY_DEFAULT } },
    ]
    &&& r.default_dacl is None
    &&& r.session_id == 0
    &&& r.token_id == luid_of(0) && r.authentication_id == luid_of(0)
    &&& r.expiration_time == u64::MAX
    &&& r.token_flags.bits == 0
}

/// The position of the first privilege from `j` on with identifier `luid`.
pub open spec fn luid_index(ps: Seq<LuidAndAttributes>, luid: Luid, j: int) -> Option<int>
    decreases ps.len() - j,
{
    if j < 0 || j >= ps.len() {
        None
    } else if ps[j].luid == luid {
        Some(j)
    } else {
        luid_index(ps, luid, j + 1)
    }
}

/// What `luid_index` finds is a privilege with that identifier, from `j` on.
pub proof fn lemma_luid_index(ps: Seq<LuidAndAttributes>, luid: Luid, j: int)
    ensures
        luid_index(ps, luid, j) matches Some(i) ==> j <= i < ps.len() && ps[i].luid == luid,
    decreases ps.len() - j,
{
    if 0 <= j < ps.len() && ps[j].luid != luid {
        lemma_luid_index(ps, luid, j + 1);
    }
}

/// Whether some privilege with identifier `luid` is enabled.
pub open spec fn holds_enabled(ps: Seq<LuidAndAttributes>, luid: Luid) -> bool {
    exists|i: int| 0 <= i < ps.len() && #[trigger] ps[i].luid == luid
        && ps[i].attributes.bits & SE_PRIVILEGE_ENABLED == SE_PRIVILEGE_ENABLED
}

/// The privileges with the first one of identifier `luid` given the
/// attribute bits `f(bits)`.
pub open spec fn set_first_attributes(ps: Seq<LuidAndAttributes>, luid: Luid, bits: u32) -> Seq<LuidAndAttributes> {
    match luid_index(ps, luid, 0) {
        Some(i) => ps.update(i, LuidAndAttributes { luid: ps[i].luid, attributes: PrivilegeAttributes { bits } }),
        None => ps,
    }
}

/// The status of enabling or disabling a privilege: whether the token holds it.
pub open spec fn privilege_status(ps: Seq<LuidAndAttributes>, luid: Luid) -> NtStatus {
    if luid_index(ps, luid, 0) is Some { NtStatus::Success } else { NtStatus::PrivilegeNotHeld }
}

/// Where the first privilege with identifier `luid` stands.
pub fn find_luid(ps: &Vec<LuidAndAttributes>, luid: Luid) -> (r: Option<usize>)
    ensures
        r matches Some(i) ==> luid_index(ps@, luid, 0) == Some(i as int) && i < ps@.len(),
        r is None ==> luid_index(ps@, luid, 0) is None,
{
    let n = ps.len();
    let mut i: usize = 0;
    while i < n
        invariant
            i <= n,
            n == ps@.len(),
            luid_index(ps@, luid, 0) == luid_index(ps@, luid, i as int),
        decreases n - i,
    {
        if ps[i].luid == luid {
            return Some(i);
        }
        i = i + 1;
    }
    None
}

impl Token {
    /// A token of `token_type` for `user_sid`, who is also its owner and
    /// primary group; anonymous, session 0, zero identifiers, never expiring.
    pub fn new(token_type: TokenType, user_sid: Sid, groups: Vec<(Sid, u32)>, privileges: Vec<LuidAndAttributes>) -> (r: Self)
        ensures
            fresh_token_header(r.header),
            r.token_type == token_type,
            r.impersonation_level == SecurityImpersonationLevel::Anonymous,
            r.user_sid@ == user_sid@ && r.owner_sid@ == user_sid@ && r.primary_group@ == user_sid@,
            r.groups == groups,
            r.privileges == privileges,
            r.default_dacl is None,
            r.session_id == 0,
            r.token_id == luid_of(0) && r.authentication_id == luid_of(0),
            r.expiration_time == u64::MAX,
            r.token_flags.bits == 0,
    {
        let user = copy_sid(&user_sid);
        let owner = copy_sid(&user_sid);
        Token {
            header: ObjectHeader::new(ObjectType::Token),
            token_type,
            impersonation_level: SecurityImpersonationLevel::Anonymous,
            user_sid: user,
            groups,
            privileges,
            owner_sid: owner,
            primary_group: user_sid,
            default_dacl: None,
            session_id: 0,
            token_id: Luid::new(0),
            authentication_id: Luid::new(0),
            expiration_time: u64::MAX,
            token_flags: TokenFlags { bits: 0 },
        }
    }

    /// The token of the system: the system identifier, the administrators
    /// (attributes 0xF) and everyone (attributes 7) as groups, and the
    /// trusted-computing-base, debug and take-ownership privileges, each
    /// enabled and enabled by default.
    pub fn create_system_token() -> (r: Self)
        ensures
            is_system_token(r),
    {
        let system_sid = WellKnownSids::system_sid();
        let mut groups: Vec<(Sid, u32)> = Vec::new();
        groups.push((WellKnownSids::administrators_sid(), 0x0000000F));
        groups.push((WellKnownSids::world_sid(), 0x00000007));
        let enabled = PrivilegeAttributes { bits: SE_PRIVILEGE_ENABLED | SE_PRIVILEGE_ENABLED_BY_DEFAULT };
        let mut privileges: Vec<LuidAndAttributes> = Vec::new();
        privileges.push(LuidAndAttributes { luid: Luid::new(Privilege::Tcb.code() as u64), attributes: enabled });
        privileges.push(LuidAndAttributes { luid: Luid::new(Privilege::Debug.code() as u64), attributes: enabled });
        privileges.push(LuidAndAttributes { luid: Luid::new(Privilege::TakeOwnership.code() as u64), attributes: enabled });
        let mut token = Self::new(TokenType::Primary, system_sid, groups, privileges);
        token.session_id = 0;
        assert(groups_view(token.groups@) =~= seq![(well_known(5, seq![32, 544]), 0x0Fu32), (well_known(1, seq![0]), 0x07u32)]);
        assert(token.privileges@ =~= seq![
            LuidAndAttributes { luid: luid_of(7), attributes: PrivilegeAttributes { bits: SE_PRIVILEGE_ENABLED | SE_PRIVILEGE_ENABLED_BY_DEFAULT } },
            LuidAndAttributes { luid: luid_of(20), attributes: PrivilegeAttributes { bits: SE_PRIVILEGE_ENABLED | SE_PRIVILEGE_ENABLED_BY_DEFAULT } },
            LuidAndAttributes { luid: luid_of(9), attributes: PrivilegeAttributes { bits: SE_PRIVILEGE_ENABLED | SE_PRIVILEGE_ENABLED_BY_DEFAULT } },
        ]);
        token
    }

    /// Whether the token holds `privilege` enabled.
    pub fn has_privilege(&self, privilege: Privilege) -> (r: bool)
        ensures
            r == holds_enabled(self.privileges@, luid_of(privilege_code(privilege) as u64)),
    {
        let luid = Luid::new(privilege.code() as u64);
        let mut i: usize = 0;
        while i < self.privileges.len()
            invariant
                i <= self.privileges@.len(),
                luid == luid_of(privilege_code(privilege) as u64),
                forall|j: int| 0 <= j < i ==> !(#[trigger] self.privileges@[j].luid == luid
                    && self.privileges@[j].attributes.bits & SE_PRIVILEGE_ENABLED == SE_PRIVILEGE_ENABLED),
            decreases self.privileges@.len() - i,
        {
            let p = self.privileges[i];
            if p.luid == luid && p.attributes.contains(SE_PRIVILEGE_ENABLED) {
                return true;
            }
            i = i + 1;
        }
        false
    }

    /// Sets the attribute bits of the first privilege with identifier
    /// `luid` to `f`, where `f` is computed from its old bits by `enable`.
    fn update_privilege(&mut self, luid: Luid, enable: bool) -> (r: NtStatus)
        ensures
            r == privilege_status(old(self).privileges@, luid),
            final(self).privileges@ == (match luid_index(old(self).privileges@, luid, 0) {
                Some(i) => set_first_attributes(old(self).privileges@, luid,
                    if enable { old(self).privileges@[i].attributes.bits | SE_PRIVILEGE_ENABLED }
                    else { old(self).privileges@[i].attributes.bits & !SE_PRIVILEGE_ENABLED }),
                None => old(self).privileges@,
            }),
            final(self).header == old(self).header,
            final(self).token_type == old(self).token_type,
            final(self).impersonation_level == old(self).impersonation_level,
            final(self).user_sid == old(self).user_sid,
            final(self).groups == old(self).groups,
            final(self).owner_sid == old(self).owner_sid,
            final(self).primary_group == old(self).primary_group,
            final(self).default_dacl == old(self).default_dacl,
            final(self).session_id == old(self).session_id,
            final(self).token_id == old(self).token_id,
            final(self).authentication_id == old(self).authentication_id,
            final(self).expiration_time == old(self).expiration_time,
            final(self).token_flags == old(self).token_flags,
    {
        match find_luid(&self.privileges, luid) {
            Some(i) => {
                let p = self.privileges[i];
                let bits = if enable { p.attributes.bits | SE_PRIVILEGE_ENABLED } else { p.attributes.bits & !SE_PRIVILEGE_ENABLED };
                self.privileges.set(i, LuidAndAttributes { luid: p.luid, attributes: PrivilegeAttributes { bits } });
                NtStatus::Success
            },
            None => NtStatus::PrivilegeNotHeld,
        }
    }

    /// Enables the first privilege the token holds as `privilege`; one it
    /// does not hold is the privilege-not-held error.
    pub fn enable_privilege(&mut self, privilege: Privilege) -> (r: NtStatus)
        ensures
            r == privilege_status(old(self).privileges@, luid_of(privilege_code(privilege) as u64)),
            final(self).privileges@ == (match luid_index(old(self).privileges@, luid_of(privilege_code(privilege) as u64), 0) {
                Some(i) => set_first_attributes(old(self).privileges@, luid_of(privilege_code(privilege) as u64),
                    old(self).privileges@[i].attributes.bits | SE_PRIVILEGE_ENABLED),
                None => old(self).privileges@,
            }),
            final(self).header == old(self).header,
            final(self).user_sid == old(self).user_sid,
            final(self).groups == old(self).groups,
            final(self).token_id == old(self).token_id,
    {
        let luid = Luid::new(privilege.code() as u64);
        self.update_privilege(luid, true)
    }

    /// Disables the first privilege the token holds as `privilege`; one it
    /// does not hold is the privilege-not-held error.
    pub fn disable_privilege(&mut self, privilege: Privilege) -> (r: NtStatus)
        ensures
            r == privilege_status(old(self).privileges@, luid_of(privilege_code(privilege) as u64)),
            final(self).privileges@ == (match luid_index(old(self).privileges@, luid_of(privilege_code(privilege) as u64), 0) {
                Some(i) => set_first_attributes(old(self).privileges@, luid_of(privilege_code(privilege) as u64),
                    old(self).privileges@[i].attributes.bits & !SE_PRIVILEGE_ENABLED),
                None => old(self).privileges@,
            }),
            final(self).header == old(self).header,
            final(self).user_sid == old(self).user_sid,
            final(self).groups == old(self).groups,
            final(self).token_id == old(self).token_id,
    {
        let luid = Luid::new(privilege.code() as u64);
        self.update_privilege(luid, false)
    }
}

/// Once a token holding a privilege has it enabled, it holds it enabled:
/// `has_privilege` after a successful `enable_privilege` is true.
pub proof fn lemma_enable_then_has(ps: Seq<LuidAndAttributes>, luid: Luid)
    requires
        privilege_status(ps, luid) == NtStatus::Success,
    ensures
        ({
            let i = luid_index(ps, luid, 0)->0;
            holds_enabled(set_first_attributes(ps, luid, ps[i].attributes.bits | SE_PRIVILEGE_ENABLED), luid)
        }),
{
    lemma_luid_index(ps, luid, 0);
    let i = luid_index(ps, luid, 0)->0;
    let b = ps[i].attributes.bits;
    assert((b | 2u32) & 2u32 == 2u32) by (bit_vector);
    let qs = set_first_attributes(ps, luid, b | SE_PRIVILEGE_ENABLED);
    assert(qs[i].luid == luid);
}

impl ObjectTrait for Token {
    open spec fn header_spec(&self) -> ObjectHeader {
        self.header
    }

    fn get_header(&self) -> &ObjectHeader {
        &self.header
    }

    fn get_header_mut(&mut self) -> &mut ObjectHeader {
        &mut self.header
    }
}

/// `x + 1`, wrapping to zero.
pub open spec fn wrap_inc32(x: u32) -> u32 {
    if x == u32::MAX { 0 } else { (x + 1) as u32 }
}

/// `x + 1`, wrapping to zero.
pub open spec fn wrap_inc64(x: u64) -> u64 {
    if x == u64::MAX { 0 } else { (x + 1) as u64 }
}

/// The specific rights that each generic right stands for.
#[derive(Debug, Clone, Copy)]
pub struct GenericMapping {
    pub generic_read: u32,
    pub generic_write: u32,
    pub generic_execute: u32,
    pub generic_all: u32,
}

pub const DELETE: u32 = 0x0001_0000;
pub const READ_CONTROL: u32 = 0x0002_0000;
pub const WRITE_DAC: u32 = 0x0004_0000;
pub const WRITE_OWNER: u32 = 0x0008_0000;
pub const SYNCHRONIZE: u32 = 0x0010_0000;

pub const STANDARD_RIGHTS_REQUIRED: u32 = 0x000F_0000;
pub const STANDARD_RIGHTS_READ: u32 = READ_CONTROL;
pub const STANDARD_RIGHTS_WRITE: u32 = READ_CONTROL;
pub const STANDARD_RIGHTS_EXECUTE: u32 = READ_CONTROL;
pub const STANDARD_RIGHTS_ALL: u32 = 0x001F_0000;

pub const GENERIC_READ: u32 = 0x8000_0000;
pub const GENERIC_WRITE: u32 = 0x4000_0000;
pub const GENERIC_EXECUTE: u32 = 0x2000_0000;
pub const GENERIC_ALL: u32 = 0x1000_0000;

pub const FILE_READ_DATA: u32 = 0x0000_0001;
pub const FILE_WRITE_DATA: u32 = 0x0000_0002;
pub const FILE_APPEND_DATA: u32 = 0x0000_0004;
pub const FILE_READ_EA: u32 = 0x0000_0008;
pub const FILE_WRITE_EA: u32 = 0x0000_0010;
pub const FILE_EXECUTE: u32 = 0x0000_0020;
pub const FILE_DELETE_CHILD: u32 = 0x0000_0040;
pub const FILE_READ_ATTRIBUTES: u32 = 0x0000_0080;
pub const FILE_WRITE_ATTRIBUTES: u32 = 0x0000_0100;

pub const FILE_ALL_ACCESS: u32 = STANDARD_RIGHTS_REQUIRED | SYNCHRONIZE | 0x1FF;
pub const FILE_GENERIC_READ: u32 = STANDARD_RIGHTS_READ | FILE_READ_DATA | FILE_READ_ATTRIBUTES | FILE_READ_EA | SYNCHRONIZE;
pub const FILE_GENERIC_WRITE: u32 = STANDARD_RIGHTS_WRITE | FILE_WRITE_DATA | FILE_WRITE_ATTRIBUTES | FILE_WRITE_EA
    | FILE_APPEND_DATA | SYNCHRONIZE;
pub const FILE_GENERIC_EXECUTE: u32 = STANDARD_RIGHTS_EXECUTE | FILE_READ_ATTRIBUTES | FILE_EXECUTE | SYNCHRONIZE;

/// The rights `access` asks for, each generic right it holds replaced by
/// the specific rights `m` gives it (read, then write, execute, all).
pub open spec fn generic_mapped(access: u32, m: GenericMapping) -> u32 {
    let s1 = if access & GENERIC_READ != 0 { (access & !GENERIC_READ) | m.generic_read } else { access };
    let s2 = if access & GENERIC_WRITE != 0 { (s1 & !GENERIC_WRITE) | m.generic_write } else { s1 };
    let s3 = if access & GENERIC_EXECUTE != 0 { (s2 & !GENERIC_EXECUTE) | m.generic_execute } else { s2 };
    if access & GENERIC_ALL != 0 { (s3 & !GENERIC_ALL) | m.generic_all } else { s3 }
}

/// Whether a descriptor lets the holder of token `t` have `access`: the
/// token's user owns the object, or the discretionary list grants it to
/// the user or to one of the token's groups.
pub open spec fn access_granted(sd: SecurityDescriptor, t: Token, access: u32) -> bool {
    ||| (sd.owner_sid matches Some(o) && o@ == t.user_sid@)
    ||| (sd.dacl matches Some(d) && (acl_allows(d.aces@, t.user_sid@, access)
        || exists|i: int| 0 <= i < t.groups@.len() && acl_allows(d.aces@, #[trigger] t.groups@[i].0@, access)))
}

/// Every privilege disabled.
pub open spec fn all_disabled(ps: Seq<LuidAndAttributes>) -> Seq<LuidAndAttributes> {
    Seq::new(ps.len(), |i: int| LuidAndAttributes {
        luid: ps[i].luid,
        attributes: PrivilegeAttributes { bits: ps[i].attributes.bits & !SE_PRIVILEGE_ENABLED },
    })
}

/// The privileges with the first one of `np`'s identifier given `np`'s
/// attributes.
pub open spec fn apply_state(ps: Seq<LuidAndAttributes>, np: LuidAndAttributes) -> Seq<LuidAndAttributes> {
    match luid_index(ps, np.luid, 0) {
        Some(i) => ps.update(i, np),
        None => ps,
    }
}

/// Each of `nps` applied in turn (see `apply_state`).
pub open spec fn apply_states(ps: Seq<LuidAndAttributes>, nps: Seq<LuidAndAttributes>) -> Seq<LuidAndAttributes>
    decreases nps.len(),
{
    if nps.len() == 0 {
        ps
    } else {
        apply_state(apply_states(ps, nps.drop_last()), nps.last())
    }
}

/// The privileges after an adjustment: all disabled first if asked, then
/// each new state applied.
pub open spec fn adjusted(ps: Seq<LuidAndAttributes>, disable_all: bool, nps: Seq<LuidAndAttributes>) -> Seq<LuidAndAttributes> {
    apply_states(if disable_all { all_disabled(ps) } else { ps }, nps)
}

/// Adjusts the privileges `ps` (see `adjusted`).
fn adjust_privileges(ps: &mut Vec<LuidAndAttributes>, disable_all: bool, new_state: &[LuidAndAttributes])
    ensures
        final(ps)@ == adjusted(old(ps)@, disable_all, new_state@),
{
    if disable_all {
        let n = ps.len();
        let mut i: usize = 0;
        while i < n
            invariant
                i <= n,
                n == ps@.len(),
                n == old(ps)@.len(),
                forall|k: int| 0 <= k < i ==> #[trigger] ps@[k] == all_disabled(old(ps)@)[k],
                forall|k: int| i <= k < n ==> #[trigger] ps@[k] == old(ps)@[k],
            decreases n - i,
        {
            let p = ps[i];
            ps.set(i, LuidAndAttributes { luid: p.luid, attributes: PrivilegeAttributes { bits: p.attributes.bits & !SE_PRIVILEGE_ENABLED } });
            i = i + 1;
        }
        assert(ps@ =~= all_disabled(old(ps)@));
    }
    let ghost start = ps@;
    assert(start == (if disable_all { all_disabled(old(ps)@) } else { old(ps)@ }));
    let mut j: usize = 0;
    while j < new_state.len()
        invariant
            j <= new_state@.len(),
            ps@ == apply_states(start, new_state@.take(j as int)),
        decreases new_state@.len() - j,
    {
        let np = new_state[j];
        let ghost before = ps@;
        match find_luid(ps, np.luid) {
            Some(i) => {
                let cur = ps[i];
                proof {
                    lemma_luid_index(before, np.luid, 0);
                }
                ps.set(i, LuidAndAttributes { luid: cur.luid, attributes: np.attributes });
                assert(ps@ =~= apply_state(before, np));
            },
            None => {},
        }
        assert(new_state@.take(j + 1).drop_last() =~= new_state@.take(j as int));
        j = j + 1;
    }
    assert(new_state@.take(j as int) =~= new_state@);
}

/// The tokens of the system by handle, the counter the next token
/// identifier comes from, and the counter the next handle comes from.
pub struct SecurityManager {
    tokens: BTreeMap<u64, Token>,
    next_luid: u32,
    audit_enabled: bool,
    next_handle: u64,
}

/// Whether `t` is a token just made for `user` with these groups and
/// privileges (see `Token::new`), apart from its identifiers.
pub open spec fn made_token(t: Token, token_type: TokenType, user: (u8, u8, Seq<u8>, Seq<u32>)) -> bool {
    &&& fresh_token_header(t.header)
    &&& t.token_type == token_type
    &&& t.impersonation_level == SecurityImpersonationLevel::Anonymous
    &&& t.user_sid@ == user && t.owner_sid@ == user && t.primary_group@ == user
    &&& t.default_dacl is None
    &&& t.session_id == 0
    &&& t.expiration_time == u64::MAX
    &&& t.token_flags.bits == 0
}

/// Whether `t` is a duplicate of `o` of type `token_type` and level
/// `level`, with identifier `id`.
pub open spec fn duplicated_token(t: Token, o: Token, token_type: TokenType, level: SecurityImpersonationLevel, id: Luid) -> bool {
    &&& fresh_token_header(t.header)
    &&& t.token_type == token_type
    &&& t.impersonation_level == level
    &&& t.user_sid@ == o.user_sid@
    &&& groups_view(t.groups@) == groups_view(o.groups@)
    &&& t.privileges@ == o.privileges@
    &&& t.owner_sid@ == o.owner_sid@
    &&& t.primary_group@ == o.primary_group@
    &&& (t.default_dacl is None <==> o.default_dacl is None)
    &&& (t.default_dacl matches Some(d) ==> (o.default_dacl matches Some(e) && same_acl(d, e)))
    &&& t.session_id == o.session_id
    &&& t.token_id == id
    &&& t.authentication_id == o.authentication_id
    &&& t.expiration_time == u64::MAX
    &&& t.token_flags.bits == 0
}

/// Whether `t` is `o` with other privileges.
pub open spec fn same_but_privileges(t: Token, o: Token) -> bool {
    &&& t.header == o.header
    &&& t.token_type == o.token_type
    &&& t.impersonation_level == o.impersonation_level
    &&& t.user_sid == o.user_sid
    &&& t.groups == o.groups
    &&& t.owner_sid == o.owner_sid
    &&& t.primary_group == o.primary_group
    &&& t.default_dacl == o.default_dacl
    &&& t.session_id == o.session_id
    &&& t.token_id == o.token_id
    &&& t.authentication_id == o.authentication_id
    &&& t.expiration_time == o.expiration_time
    &&& t.token_flags == o.token_flags
}

impl SecurityManager {
    /// The tokens by handle.
    pub closed spec fn tokens(&self) -> Map<u64, Token> {
        self.tokens@
    }

    /// The number the next token identifier is made from.
    pub closed spec fn luid_counter(&self) -> u32 {
        self.next_luid
    }

    /// The number the next handle gets.
    pub closed spec fn handle_counter(&self) -> u64 {
        self.next_handle
    }

    /// Whether auditing is on.
    pub closed spec fn auditing(&self) -> bool {
        self.audit_enabled
    }

    /// No tokens; identifiers count from 1000, handles from 1.
    pub fn new() -> (r: Self)
        ensures
            r.tokens() == Map::<u64, Token>::empty(),
            r.luid_counter() == 1000,
            r.handle_counter() == 1,
            !r.auditing(),
    {
        let r = SecurityManager { tokens: BTreeMap::new(), next_luid: 1000, audit_enabled: false, next_handle: 1 };
        assert(r.tokens@ =~= Map::<u64, Token>::empty());
        r
    }

    /// Records the system token under the next handle.
    pub fn initialize(&mut self) -> (r: NtStatus)
        ensures
            r == NtStatus::Success,
            final(self).tokens().dom() == old(self).tokens().dom().insert(old(self).handle_counter()),
            is_system_token(final(self).tokens()[old(self).handle_counter()]),
            forall|g: u64| g != old(self).handle_counter() ==> #[trigger] final(self).tokens().get(g) == old(self).tokens().get(g),
            final(self).handle_counter() == wrap_inc64(old(self).handle_counter()),
            final(self).luid_counter() == old(self).luid_counter(),
            final(self).auditing() == old(self).auditing(),
    {
        let system_token = Token::create_system_token();
        let system_handle = Handle::new(&mut self.next_handle);
        self.tokens.insert(system_handle.0, system_token);
        assert(self.tokens@.dom() =~= old(self).tokens@.dom().insert(system_handle.0));
        NtStatus::Success
    }

    /// Takes the next token identifier.
    fn take_luid(&mut self) -> (r: Luid)
        ensures
            r == luid_of(old(self).next_luid as u64),
            final(self).next_luid == wrap_inc32(old(self).next_luid),
            final(self).tokens == old(self).tokens,
            final(self).next_handle == old(self).next_handle,
            final(self).audit_enabled == old(self).audit_enabled,
    {
        let v = self.next_luid;
        self.next_luid = self.next_luid.wrapping_add(1);
        Luid::new(v as u64)
    }

    /// Records a new token (see `Token::new`) under the next handle, with
    /// the next identifier as its token and authentication identifier.
    pub fn create_token(
        &mut self,
        token_type: TokenType,
        user_sid: Sid,
        groups: Vec<(Sid, u32)>,
        privileges: Vec<LuidAndAttributes>,
    ) -> (r: Result<Handle, NtStatus>)
        ensures
            r == Ok::<Handle, NtStatus>(Handle(old(self).handle_counter())),
            final(self).tokens().dom() == old(self).tokens().dom().insert(old(self).handle_counter()),
            ({
                let t = final(self).tokens()[old(self).handle_counter()];
                &&& made_token(t, token_type, user_sid@)
                &&& t.groups == groups
                &&& t.privileges == privileges
                &&& t.token_id == luid_of(old(self).luid_counter() as u64)
                &&& t.authentication_id == t.token_id
            }),
            forall|g: u64| g != old(self).handle_counter() ==> #[trigger] final(self).tokens().get(g) == old(self).tokens().get(g),
            final(self).handle_counter() == wrap_inc64(old(self).handle_counter()),
            final(self).luid_counter() == wrap_inc32(old(self).luid_counter()),
            final(self).auditing() == old(self).auditing(),
    {
        let mut token = Token::new(token_type, user_sid, groups, privileges);
        token.token_id = self.take_luid();
        token.authentication_id = token.token_id;
        let handle = Handle::new(&mut self.next_handle);
        self.tokens.insert(handle.0, token);
        assert(self.tokens@.dom() =~= old(self).tokens@.dom().insert(handle.0));
        Ok(handle)
    }

    /// Records under the next handle a duplicate of the token behind
    /// `existing_token` (see `duplicated_token`), with the next identifier;
    /// an unknown handle is the invalid-handle error and changes nothing.
    pub fn duplicate_token(
        &mut self,
        existing_token: Handle,
        token_type: TokenType,
        impersonation_level: SecurityImpersonationLevel,
    ) -> (r: Result<Handle, NtStatus>)
        ensures
            !old(self).tokens().contains_key(existing_token.0) ==> r == Err::<Handle, NtStatus>(NtStatus::InvalidHandle)
                && final(self).tokens() == old(self).tokens()
                && final(self).handle_counter() == old(self).handle_counter()
                && final(self).luid_counter() == old(self).luid_counter(),
            old(self).tokens().contains_key(existing_token.0) ==> {
                &&& r == Ok::<Handle, NtStatus>(Handle(old(self).handle_counter()))
                &&& final(self).tokens().dom() == old(self).tokens().dom().insert(old(self).handle_counter())
                &&& duplicated_token(final(self).tokens()[old(self).handle_counter()], old(self).tokens()[existing_token.0],
                    token_type, impersonation_level, luid_of(old(self).luid_counter() as u64))
                &&& forall|g: u64| g != old(self).handle_counter() ==> #[trigger] final(self).tokens().get(g) == old(self).tokens().get(g)
                &&& final(self).handle_counter() == wrap_inc64(old(self).handle_counter())
                &&& final(self).luid_counter() == wrap_inc32(old(self).luid_counter())
            },
            final(self).auditing() == old(self).auditing(),
    {
        let mut new_token = match self.tokens.get(&existing_token.0) {
            Some(original) => {
                let mut t = Token::new(token_type, copy_sid(&original.user_sid), copy_groups(original.groups.as_slice()),
                    copy_privileges(original.privileges.as_slice()));
                t.impersonation_level = impersonation_level;
                t.owner_sid = copy_sid(&original.owner_sid);
                t.primary_group = copy_sid(&original.primary_group);
                t.default_dacl = match &original.default_dacl {
                    Some(d) => Some(copy_acl(d)),
                    None => None,
                };
                t.session_id = original.session_id;
                t.authentication_id = original.authentication_id;
                t
            },
            None => {
                return Err(NtStatus::InvalidHandle);
            },
        };
        new_token.token_id = self.take_luid();
        let handle = Handle::new(&mut self.next_handle);
        self.tokens.insert(handle.0, new_token);
        assert(self.tokens@.dom() =~= old(self).tokens@.dom().insert(handle.0));
        Ok(handle)
    }

    /// Decides whether the token behind `token_handle` may have
    /// `desired_access` under `security_descriptor` (see `access_granted`),
    /// its generic rights mapped first (see `generic_mapped`): the mapped
    /// rights when it may, the access-denied error when not, and the
    /// invalid-handle error for an unknown handle.
    pub fn access_check(
        &self,
        security_descriptor: &SecurityDescriptor,
        token_handle: Handle,
        desired_access: u32,
        generic_mapping: &GenericMapping,
    ) -> (r: Result<u32, NtStatus>)
        ensures
            !self.tokens().contains_key(token_handle.0) ==> r == Err::<u32, NtStatus>(NtStatus::InvalidHandle),
            self.tokens().contains_key(token_handle.0) ==> r == (
                if access_granted(*security_descriptor, self.tokens()[token_handle.0], generic_mapped(desired_access, *generic_mapping)) {
                    Ok::<u32, NtStatus>(generic_mapped(desired_access, *generic_mapping))
                } else {
                    Err::<u32, NtStatus>(NtStatus::AccessDenied)
                }),
    {
        let token = match self.tokens.get(&token_handle.0) {
            Some(t) => t,
            None => {
                return Err(NtStatus::InvalidHandle);
            },
        };
        let specific_access = self.map_generic_access(desired_access, generic_mapping);
        if let Some(owner_sid) = &security_descriptor.owner_sid {
            if sid_equal(owner_sid, &token.user_sid) {
                return Ok(specific_access);
            }
        }
        if let Some(dacl) = &security_descriptor.dacl {
            if dacl.check_access(&token.user_sid, specific_access) {
                return Ok(specific_access);
            }
            let mut i: usize = 0;
            while i < token.groups.len()
                invariant
                    i <= token.groups@.len(),
                    self.tokens@.contains_key(token_handle.0),
                    *token == self.tokens@[token_handle.0],
                    security_descriptor.dacl == Some(*dacl),
                    specific_access == generic_mapped(desired_access, *generic_mapping),
                    !acl_allows(dacl.aces@, token.user_sid@, specific_access),
                    (security_descriptor.owner_sid matches Some(o) ==> o@ != token.user_sid@),
                    forall|k: int| 0 <= k < i ==> !acl_allows(dacl.aces@, #[trigger] token.groups@[k].0@, specific_access),
                decreases token.groups@.len() - i,
            {
                if dacl.check_access(&token.groups[i].0, specific_access) {
                    return Ok(specific_access);
                }
                i = i + 1;
            }
        }
        Err(NtStatus::AccessDenied)
    }

    /// The rights `access` stands for under `mapping` (see `generic_mapped`).
    fn map_generic_access(&self, access: u32, mapping: &GenericMapping) -> (r: u32)
        ensures
            r == generic_mapped(access, *mapping),
    {
        let mut specific = access;
        if access & GENERIC_READ != 0 {
            specific = (specific & !GENERIC_READ) | mapping.generic_read;
        }
        if access & GENERIC_WRITE != 0 {
            specific = (specific & !GENERIC_WRITE) | mapping.generic_write;
        }
        if access & GENERIC_EXECUTE != 0 {
            specific = (specific & !GENERIC_EXECUTE) | mapping.generic_execute;
        }
        if access & GENERIC_ALL != 0 {
            specific = (specific & !GENERIC_ALL) | mapping.generic_all;
        }
        specific
    }

    /// The user of the token behind `token_handle`.
    pub fn get_token_user(&self, token_handle: Handle) -> (r: Result<Sid, NtStatus>)
        ensures
            !self.tokens().contains_key(token_handle.0) ==> r == Err::<Sid, NtStatus>(NtStatus::InvalidHandle),
            self.tokens().contains_key(token_handle.0) ==> (r matches Ok(s) && s@ == self.tokens()[token_handle.0].user_sid@),
    {
        match self.tokens.get(&token_handle.0) {
            Some(t) => Ok(copy_sid(&t.user_sid)),
            None => Err(NtStatus::InvalidHandle),
        }
    }

    /// The groups of the token behind `token_handle`.
    pub fn get_token_groups(&self, token_handle: Handle) -> (r: Result<Vec<(Sid, u32)>, NtStatus>)
        ensures
            !self.tokens().contains_key(token_handle.0) ==> r == Err::<Vec<(Sid, u32)>, NtStatus>(NtStatus::InvalidHandle),
            self.tokens().contains_key(token_handle.0) ==> (r matches Ok(g)
                && groups_view(g@) == groups_view(self.tokens()[token_handle.0].groups@)),
    {
        match self.tokens.get(&token_handle.0) {
            Some(t) => Ok(copy_groups(t.groups.as_slice())),
            None => Err(NtStatus::InvalidHandle),
        }
    }

    /// The privileges of the token behind `token_handle`.
    pub fn get_token_privileges(&self, token_handle: Handle) -> (r: Result<Vec<LuidAndAttributes>, NtStatus>)
        ensures
            !self.tokens().contains_key(token_handle.0) ==> r == Err::<Vec<LuidAndAttributes>, NtStatus>(NtStatus::InvalidHandle),
            self.tokens().contains_key(token_handle.0) ==> (r matches Ok(p) && p@ == self.tokens()[token_handle.0].privileges@),
    {
        match self.tokens.get(&token_handle.0) {
            Some(t) => Ok(copy_privileges(t.privileges.as_slice())),
            None => Err(NtStatus::InvalidHandle),
        }
    }

    /// Sets the authentication identifier, expiration, owner (when given),
    /// primary group and default list (when given) of the token under `h`.
    fn set_details(
        &mut self,
        h: u64,
        authentication_id: Luid,
        expiration_time: u64,
        owner: Option<Sid>,
        primary_group: Sid,
        default_dacl: Option<Acl>,
    )
        requires
            old(self).tokens().contains_key(h),
        ensures
            final(self).tokens().dom() == old(self).tokens().dom(),
            ({
                let o = old(self).tokens()[h];
                let t = final(self).tokens()[h];
                &&& t.header == o.header && t.token_type == o.token_type && t.impersonation_level == o.impersonation_level
                &&& t.user_sid == o.user_sid && t.groups == o.groups && t.privileges == o.privileges
                &&& t.session_id == o.session_id && t.token_id == o.token_id && t.token_flags == o.token_flags
                &&& t.authentication_id == authentication_id
                &&& t.expiration_time == expiration_time
                &&& t.owner_sid == (match owner { Some(s) => s, None => o.owner_sid })
                &&& t.primary_group == primary_group
                &&& t.default_dacl == (match default_dacl { Some(d) => Some(d), None => o.default_dacl })
            }),
            forall|g: u64| g != h ==> #[trigger] final(self).tokens().get(g) == old(self).tokens().get(g),
            final(self).handle_counter() == old(self).handle_counter(),
            final(self).luid_counter() == old(self).luid_counter(),
            final(self).auditing() == old(self).auditing(),
    {
        match self.tokens.remove(&h) {
            Some(mut token) => {
                token.authentication_id = authentication_id;
                token.expiration_time = expiration_time;
                if let Some(o) = owner {
                    token.owner_sid = o;
                }
                token.primary_group = primary_group;
                if let Some(d) = default_dacl {
                    token.default_dacl = Some(d);
                }
                self.tokens.insert(h, token);
                assert(self.tokens@.dom() =~= old(self).tokens@.dom());
            },
            None => {},
        }
    }

    /// Adjusts the privileges of the token behind `token_handle` (see
    /// `adjusted`); an unknown handle is the invalid-handle error and
    /// changes nothing.
    pub fn adjust_token_privileges(&mut self, token_handle: Handle, disable_all: bool, new_state: Vec<LuidAndAttributes>) -> (r: NtStatus)
        ensures
            !old(self).tokens().contains_key(token_handle.0) ==> r == NtStatus::InvalidHandle && final(self).tokens() == old(self).tokens(),
            old(self).tokens().contains_key(token_handle.0) ==> {
                let o = old(self).tokens()[token_handle.0];
                let t = final(self).tokens()[token_handle.0];
                &&& r == NtStatus::Success
                &&& final(self).tokens().dom() == old(self).tokens().dom()
                &&& same_but_privileges(t, o)
                &&& t.privileges@ == adjusted(o.privileges@, disable_all, new_state@)
            },
            forall|g: u64| g != token_handle.0 ==> #[trigger] final(self).tokens().get(g) == old(self).tokens().get(g),
            final(self).handle_counter() == old(self).handle_counter(),
            final(self).luid_counter() == old(self).luid_counter(),
            final(self).auditing() == old(self).auditing(),
    {
        if self.tokens.get(&token_handle.0).is_none() {
            return NtStatus::InvalidHandle;
        }
        match self.tokens.remove(&token_handle.0) {
            Some(mut token) => {
                adjust_privileges(&mut token.privileges, disable_all, new_state.as_slice());
                self.tokens.insert(token_handle.0, token);
                assert(self.tokens@.dom() =~= old(self).tokens@.dom());
                NtStatus::Success
            },
            None => NtStatus::InvalidHandle,
        }
    }
}

/// Starts the security subsystem of `manager` (see `initialize`).
pub fn initialize_security(manager: &mut SecurityManager) -> (r: NtStatus)
    ensures
        r == NtStatus::Success,
        final(manager).tokens().dom() == old(manager).tokens().dom().insert(old(manager).handle_counter()),
        is_system_token(final(manager).tokens()[old(manager).handle_counter()]),
        forall|g: u64| g != old(manager).handle_counter() ==> #[trigger] final(manager).tokens().get(g) == old(manager).tokens().get(g),
        final(manager).handle_counter() == wrap_inc64(old(manager).handle_counter()),
        final(manager).luid_counter() == old(manager).luid_counter(),
{
    manager.initialize()
}

/// Creates a token for `user` with copies of these groups and privileges
/// and the given authentication identifier, expiration, owner (the user
/// when none is given), primary group and default list, and hands back its
/// handle.
pub fn nt_create_token(
    manager: &mut SecurityManager,
    token_handle: &mut Handle,
    _desired_access: u32,
    _object_attributes: Option<&ObjectAttributes>,
    token_type: TokenType,
    authentication_id: &Luid,
    expiration_time: &u64,
    user: &Sid,
    groups: &[(Sid, u32)],
    privileges: &[LuidAndAttributes],
    owner: Option<&Sid>,
    primary_group: &Sid,
    default_dacl: Option<&Acl>,
) -> (r: NtStatus)
    ensures
        r == NtStatus::Success,
        *final(token_handle) == Handle(old(manager).handle_counter()),
        final(manager).tokens().dom() == old(manager).tokens().dom().insert(old(manager).handle_counter()),
        ({
            let t = final(manager).tokens()[old(manager).handle_counter()];
            &&& fresh_token_header(t.header)
            &&& t.token_type == token_type
            &&& t.impersonation_level == SecurityImpersonationLevel::Anonymous
            &&& t.user_sid@ == user@
            &&& groups_view(t.groups@) == groups_view(groups@)
            &&& t.privileges@ == privileges@
            &&& t.owner_sid@ == (match owner { Some(o) => o@, None => user@ })
            &&& t.primary_group@ == primary_group@
            &&& (default_dacl is None ==> t.default_dacl is None)
            &&& (default_dacl matches Some(d) ==> (t.default_dacl matches Some(e) && same_acl(e, *d)))
            &&& t.session_id == 0
            &&& t.token_id == luid_of(old(manager).luid_counter() as u64)
            &&& t.authentication_id == *authentication_id
            &&& t.expiration_time == *expiration_time
            &&& t.token_flags.bits == 0
        }),
        forall|g: u64| g != old(manager).handle_counter() ==> #[trigger] final(manager).tokens().get(g) == old(manager).tokens().get(g),
        final(manager).handle_counter() == wrap_inc64(old(manager).handle_counter()),
        final(manager).luid_counter() == wrap_inc32(old(manager).luid_counter()),
{
    let h = match manager.create_token(token_type, copy_sid(user), copy_groups(groups), copy_privileges(privileges)) {
        Ok(h) => h,
        Err(status) => {
            return status;
        },
    };
    *token_handle = h;
    let owner_copy = match owner {
        Some(o) => Some(copy_sid(o)),
        None => None,
    };
    let dacl_copy = match default_dacl {
        Some(d) => Some(copy_acl(d)),
        None => None,
    };
    manager.set_details(h.0, *authentication_id, *expiration_time, owner_copy, copy_sid(primary_group), dacl_copy);
    NtStatus::Success
}

/// Duplicates the token behind `existing_token` at the impersonation
/// level (see `SecurityManager::duplicate_token`) and hands back the new
/// handle; the error of the duplication otherwise, with `new_token`
/// unchanged.
pub fn nt_duplicate_token(
    manager: &mut SecurityManager,
    existing_token: Handle,
    _desired_access: u32,
    _object_attributes: Option<&ObjectAttributes>,
    _effective_only: bool,
    token_type: TokenType,
    new_token: &mut Handle,
) -> (r: NtStatus)
    ensures
        !old(manager).tokens().contains_key(existing_token.0) ==> r == NtStatus::InvalidHandle
            && final(manager).tokens() == old(manager).tokens()
            && *final(new_token) == *old(new_token),
        old(manager).tokens().contains_key(existing_token.0) ==> {
            &&& r == NtStatus::Success
            &&& *final(new_token) == Handle(old(manager).handle_counter())
            &&& final(manager).tokens().dom() == old(manager).tokens().dom().insert(old(manager).handle_counter())
            &&& duplicated_token(final(manager).tokens()[old(manager).handle_counter()], old(manager).tokens()[existing_token.0],
                token_type, SecurityImpersonationLevel::Impersonation, luid_of(old(manager).luid_counter() as u64))
            &&& forall|g: u64| g != old(manager).handle_counter() ==> #[trigger] final(manager).tokens().get(g) == old(manager).tokens().get(g)
        },
{
    match manager.duplicate_token(existing_token, token_type, SecurityImpersonationLevel::Impersonation) {
        Ok(handle) => {
            *new_token = handle;
            NtStatus::Success
        },
        Err(status) => status,
    }
}

/// Adjusts the privileges of the token behind `token_handle` with the new
/// states given, none when none are (see
/// `SecurityManager::adjust_token_privileges`).
pub fn nt_adjust_privileges_token(
    manager: &mut SecurityManager,
    token_handle: Handle,
    disable_all_privileges: bool,
    new_state: Option<&[LuidAndAttributes]>,
    _buffer_length: u32,
    _previous_state: Option<&mut [LuidAndAttributes]>,
    _return_length: Option<&mut u32>,
) -> (r: NtStatus)
    ensures
        ({
            let nps = match new_state { Some(s) => s@, None => Seq::<LuidAndAttributes>::empty() };
            &&& !old(manager).tokens().contains_key(token_handle.0) ==> r == NtStatus::InvalidHandle
                && final(manager).tokens() == old(manager).tokens()
            &&& old(manager).tokens().contains_key(token_handle.0) ==> {
                let o = old(manager).tokens()[token_handle.0];
                let t = final(manager).tokens()[token_handle.0];
                &&& r == NtStatus::Success
                &&& final(manager).tokens().dom() == old(manager).tokens().dom()
                &&& same_but_privileges(t, o)
                &&& t.privileges@ == adjusted(o.privileges@, disable_all_privileges, nps)
            }
        }),
        forall|g: u64| g != token_handle.0 ==> #[trigger] final(manager).tokens().get(g) == old(manager).tokens().get(g),
{
    let states = match new_state {
        Some(s) => copy_privileges(s),
        None => Vec::new(),
    };
    manager.adjust_token_privileges(token_handle, disable_all_privileges, states)
}

/// Checks access (see `SecurityManager::access_check`) and reports it: the
/// granted rights and success, or no rights and the error; the call itself
/// always succeeds.
pub fn nt_access_check(
    manager: &SecurityManager,
    security_descriptor: &SecurityDescriptor,
    client_token: Handle,
    desired_access: u32,
    generic_mapping: &GenericMapping,
    _privileges: Option<&mut Vec<LuidAndAttributes>>,
    granted_access: &mut u32,
    access_status: &mut NtStatus,
) -> (r: NtStatus)
    ensures
        r == NtStatus::Success,
        !manager.tokens().contains_key(client_token.0) ==> *final(granted_access) == 0
            && *final(access_status) == NtStatus::InvalidHandle,
        manager.tokens().contains_key(client_token.0) ==> {
            let specific = generic_mapped(desired_access, *generic_mapping);
            if access_granted(*security_descriptor, manager.tokens()[client_token.0], specific) {
                *final(granted_access) == specific && *final(access_status) == NtStatus::Success
            } else {
                *final(granted_access) == 0 && *final(access_status) == NtStatus::AccessDenied
            }
        },
{
    match manager.access_check(security_descriptor, client_token, desired_access, generic_mapping) {
        Ok(access) => {
            *granted_access = access;
            *access_status = NtStatus::Success;
            NtStatus::Success
        },
        Err(status) => {
            *granted_access = 0;
            *access_status = status;
            NtStatus::Success
        },
    }
}

} // verus!
