//! The capability identity resolver: the bidirectional mapping between a
//! capability's symbolic name and its numeric identifier, as the platform's
//! capability table defines it. Pure and side-effect-free.

use vstd::prelude::*;

use crate::error::Error;
use crate::flags::Capability;

verus! {

/// The highest capability id in the platform table.
pub const CAP_LAST_CAP: u32 = 40;

/// Whether `c` is a capability id the platform table knows.
pub open spec fn spec_cap_valid(c: u32) -> bool {
    c <= CAP_LAST_CAP
}

/// The canonical name of capability `c`; the empty sequence for an id
/// outside the table.
pub open spec fn spec_cap_name(c: int) -> Seq<char> {
    if c == 0 {
        "CHOWN"@
    } else if c == 1 {
        "DAC_OVERRIDE"@
    } else if c == 2 {
        "DAC_READ_SEARCH"@
    } else if c == 3 {
        "FOWNER"@
    } else if c == 4 {
        "FSETID"@
    } else if c == 5 {
        "KILL"@
    } else if c == 6 {
        "SETGID"@
    } else if c == 7 {
        "SETUID"@
    } else if c == 8 {
        "SETPCAP"@
    } else if c == 9 {
        "LINUX_IMMUTABLE"@
    } else if c == 10 {
        "NET_BIND_SERVICE"@
    } else if c == 11 {
        "NET_BROADCAST"@
    } else if c == 12 {
        "NET_ADMIN"@
    } else if c == 13 {
        "NET_RAW"@
    } else if c == 14 {
        "IPC_LOCK"@
    } else if c == 15 {
        "IPC_OWNER"@
    } else if c == 16 {
        "SYS_MODULE"@
    } else if c == 17 {
        "SYS_RAWIO"@
    } else if c == 18 {
        "SYS_CHROOT"@
    } else if c == 19 {
        "SYS_PTRACE"@
    } else if c == 20 {
        "SYS_PACCT"@
    } else if c == 21 {
        "SYS_ADMIN"@
    } else if c == 22 {
        "SYS_BOOT"@
    } else if c == 23 {
        "SYS_NICE"@
    } else if c == 24 {
        "SYS_RESOURCE"@
    } else if c == 25 {
        "SYS_TIME"@
    } else if c == 26 {
        "SYS_TTY_CONFIG"@
    } else if c == 27 {
        "MKNOD"@
    } else if c == 28 {
        "LEASE"@
    } else if c == 29 {
        "AUDIT_WRITE"@
    } else if c == 30 {
        "AUDIT_CONTROL"@
    } else if c == 31 {
        "SETFCAP"@
    } else if c == 32 {
        "MAC_OVERRIDE"@
    } else if c == 33 {
        "MAC_ADMIN"@
    } else if c == 34 {
        "SYSLOG"@
    } else if c == 35 {
        "WAKE_ALARM"@
    } else if c == 36 {
        "BLOCK_SUSPEND"@
    } else if c == 37 {
        "AUDIT_READ"@
    } else if c == 38 {
        "PERFMON"@
    } else if c == 39 {
        "BPF"@
    } else if c == 40 {
        "CHECKPOINT_RESTORE"@
    } else {
        Seq::empty()
    }
}

/// The id whose canonical name is `s`, searching ids from `i` upward.
pub open spec fn spec_resolve_from(s: Seq<char>, i: int) -> Option<Capability>
    decreases 41 - i,
{
    if i < 0 || i > 40 {
        None
    } else if s == spec_cap_name(i) {
        Some(i as u32)
    } else {
        spec_resolve_from(s, i + 1)
    }
}

/// The id whose canonical name is `s`, if any. Name matching is
/// case-sensitive against the canonical spelling.
pub open spec fn spec_resolve(s: Seq<char>) -> Option<Capability> {
    spec_resolve_from(s, 0)
}

/// The canonical name of capability `c` as a string slice.
pub(crate) fn cap_str(c: u32) -> (s: &'static str)
    requires
        spec_cap_valid(c),
    ensures
        s@ == spec_cap_name(c as int),
{
    match c {
        0 => "CHOWN",
        1 => "DAC_OVERRIDE",
        2 => "DAC_READ_SEARCH",
        3 => "FOWNER",
        4 => "FSETID",
        5 => "KILL",
        6 => "SETGID",
        7 => "SETUID",
        8 => "SETPCAP",
        9 => "LINUX_IMMUTABLE",
        10 => "NET_BIND_SERVICE",
        11 => "NET_BROADCAST",
        12 => "NET_ADMIN",
        13 => "NET_RAW",
        14 => "IPC_LOCK",
        15 => "IPC_OWNER",
        16 => "SYS_MODULE",
        17 => "SYS_RAWIO",
        18 => "SYS_CHROOT",
        19 => "SYS_PTRACE",
        20 => "SYS_PACCT",
        21 => "SYS_ADMIN",
        22 => "SYS_BOOT",
        23 => "SYS_NICE",
        24 => "SYS_RESOURCE",
        25 => "SYS_TIME",
        26 => "SYS_TTY_CONFIG",
        27 => "MKNOD",
        28 => "LEASE",
        29 => "AUDIT_WRITE",
        30 => "AUDIT_CONTROL",
        31 => "SETFCAP",
        32 => "MAC_OVERRIDE",
        33 => "MAC_ADMIN",
        34 => "SYSLOG",
        35 => "WAKE_ALARM",
        36 => "BLOCK_SUSPEND",
        37 => "AUDIT_READ",
        38 => "PERFMON",
        39 => "BPF",
        _ => "CHECKPOINT_RESTORE",
    }
}

/// String equality over character sequences.
fn str_eq(a: &str, b: &str) -> (r: bool)
    ensures
        r == (a@ == b@),
{
    let sa: String = a.to_owned();
    let sb: String = b.to_owned();
    sa == sb
}

/// Resolve a symbolic capability name to its numeric id. Fails with
/// `GetCapabilityId`, carrying the offending name, when no capability of
/// that name exists on the platform.
pub fn name_to_capability(name: &str) -> (r: Result<Capability, Error>)
    ensures
        (spec_resolve(name@) matches Some(c) ==> (r matches Ok(rc) && rc == c)),
        (spec_resolve(name@) is None ==> (r matches Err(e) && e matches Error::GetCapabilityId(s)
            && s@ == name@)),
{
    let mut i: u32 = 0;
    while i <= CAP_LAST_CAP
        invariant
            i <= 41,
            spec_resolve(name@) == spec_resolve_from(name@, i as int),
        decreases 41 - i,
    {
        if str_eq(name, cap_str(i)) {
            return Ok(i);
        }
        i = i + 1;
    }
    Err(Error::GetCapabilityId(name.to_owned()))
}

/// Reverse lookup: the canonical name of a numeric capability id. Fails
/// with `NameToCapability` when the id is outside the platform's table.
pub fn capability_to_name(capability: Capability) -> (r: Result<String, Error>)
    ensures
        (spec_cap_valid(capability) ==> (r matches Ok(s) && s@ == spec_cap_name(
            capability as int,
        ))),
        (!spec_cap_valid(capability) ==> (r matches Err(e) && e == Error::NameToCapability(
            capability,
        ))),
{
    if capability <= CAP_LAST_CAP {
        Ok(cap_str(capability).to_owned())
    } else {
        Err(Error::NameToCapability(capability))
    }
}

proof fn lemma_resolve_from_round_trip(s: Seq<char>, i: int)
    requires
        0 <= i <= 41,
        spec_resolve_from(s, i) is Some,
    ensures
        spec_resolve_from(s, i) matches Some(c) ==> (i <= c <= 40 && spec_cap_name(c as int)
            == s),
    decreases 41 - i,
{
    if i <= 40 && s == spec_cap_name(i) {
    } else {
        lemma_resolve_from_round_trip(s, i + 1);
    }
}

/// Round-trip identity: resolving any valid capability name and then taking
/// the name of the id it resolved to gives back the very same name.
pub proof fn lemma_name_round_trip(s: Seq<char>)
    requires
        spec_resolve(s) is Some,
    ensures
        spec_resolve(s) matches Some(c) ==> (spec_cap_valid(c) && spec_cap_name(c as int) == s),
{
    lemma_resolve_from_round_trip(s, 0);
}

} // verus!
