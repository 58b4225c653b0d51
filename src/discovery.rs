//! Service-directory rules: the record this daemon announces, and how
//! announcements of other daemons change the peer registry.

use vstd::prelude::*;
use crate::address::{address_text, first_usable, first_usable_from, format_usable, IpAddress};
use crate::identity::UserIdentity;
use crate::protocol::{DaemonToGuiMessage, IpcPeer, PeerModel, ReplyModel};
use crate::registry::{without_instance, EntryModel, PeerRegistry};
use crate::text::{alnum_of, ascii_lower, chars_of, is_alnum, string_of};

verus! {

/// The service type under which every daemon announces itself.
pub const SERVICE_TYPE: &'static str = "_localchat._tcp.local.";

/// Host label used when the interface name leaves nothing usable.
pub const FALLBACK_HOST_LABEL: &'static str = "localchat-host";

/// Interface name used when no usable local address exists.
pub const FALLBACK_INTERFACE: &'static str = "DefaultIface";

/// `c` as it stands in a host label: letters and digits in lower case, a
/// hyphen kept, anything else replaced by a hyphen.
pub open spec fn host_char(c: char) -> char {
    if alnum_of(c) || c == '-' {
        ascii_lower(c)
    } else {
        '-'
    }
}

/// `s` without its leading hyphens.
pub open spec fn trim_start_hyphens(s: Seq<char>) -> Seq<char>
    decreases s.len(),
{
    if s.len() > 0 && s[0] == '-' {
        trim_start_hyphens(s.drop_first())
    } else {
        s
    }
}

/// `s` without its trailing hyphens.
pub open spec fn trim_end_hyphens(s: Seq<char>) -> Seq<char>
    decreases s.len(),
{
    if s.len() > 0 && s.last() == '-' {
        trim_end_hyphens(s.drop_last())
    } else {
        s
    }
}

/// The host label derived from an interface name.
pub open spec fn host_label_of(iface: Seq<char>) -> Seq<char> {
    let t = trim_end_hyphens(trim_start_hyphens(iface.map_values(|c: char| host_char(c))));
    if t.len() == 0 {
        FALLBACK_HOST_LABEL@
    } else {
        t
    }
}

/// Relies on `char::to_ascii_lowercase`: maps 'A'..='Z' to 'a'..='z' and
/// keeps every other character.
#[verifier::external_body]
fn lower_ascii(c: char) -> (r: char)
    ensures
        r == ascii_lower(c),
{
    c.to_ascii_lowercase()
}

/// The host label for the interface named `iface`.
pub fn host_label(iface: &str) -> (r: String)
    ensures
        r@ == host_label_of(iface@),
{
    let cs = chars_of(iface);
    let ghost src = cs@;
    let n = cs.len();
    let mut mapped: Vec<char> = Vec::new();
    let mut k: usize = 0;
    while k < n
        invariant
            cs@ == src,
            n == src.len(),
            k <= n,
            mapped@ == src.subrange(0, k as int).map_values(|c: char| host_char(c)),
        decreases n - k,
    {
        let c = cs[k];
        let h = if is_alnum(c) || c == '-' {
            lower_ascii(c)
        } else {
            '-'
        };
        mapped.push(h);
        k = k + 1;
        assert(mapped@ =~= src.subrange(0, k as int).map_values(|c: char| host_char(c)));
    }
    let ghost m = mapped@;
    assert(src.subrange(0, n as int) =~= src);
    assert(m.subrange(0, n as int) =~= m);
    let mut i: usize = 0;
    while i < n && mapped[i] == '-'
        invariant
            mapped@ == m,
            m.len() == n,
            i <= n,
            trim_start_hyphens(m) == trim_start_hyphens(m.subrange(i as int, n as int)),
        decreases n - i,
    {
        assert(m.subrange(i as int, n as int).drop_first() =~= m.subrange(i + 1, n as int));
        i = i + 1;
    }
    let mut j: usize = n;
    while j > i && mapped[j - 1] == '-'
        invariant
            mapped@ == m,
            m.len() == n,
            i <= j <= n,
            trim_start_hyphens(m) == m.subrange(i as int, n as int),
            trim_end_hyphens(m.subrange(i as int, n as int)) == trim_end_hyphens(m.subrange(i as int, j as int)),
        decreases j - i,
    {
        assert(m.subrange(i as int, j as int).drop_last() =~= m.subrange(i as int, j - 1));
        j = j - 1;
    }
    let mut kept: Vec<char> = Vec::new();
    let mut p: usize = i;
    while p < j
        invariant
            mapped@ == m,
            m.len() == n,
            i <= p <= j <= n,
            kept@ == m.subrange(i as int, p as int),
        decreases j - p,
    {
        kept.push(mapped[p]);
        p = p + 1;
        assert(kept@ =~= m.subrange(i as int, p as int));
    }
    assert(trim_end_hyphens(m.subrange(i as int, j as int)) == m.subrange(i as int, j as int));
    if kept.len() == 0 {
        String::from_str(FALLBACK_HOST_LABEL)
    } else {
        string_of(&kept)
    }
}

/// The position of the first `.` of `s` at or after `i`, or the length of
/// `s` when there is none.
pub open spec fn dot_from(s: Seq<char>, i: int) -> int
    decreases s.len() - i,
{
    if i < 0 || i >= s.len() {
        s.len() as int
    } else if s[i] == '.' {
        i
    } else {
        dot_from(s, i + 1)
    }
}

/// The instance part of a fully-qualified service name: the text before its
/// first `.`.
pub open spec fn instance_part(fullname: Seq<char>) -> Seq<char> {
    fullname.subrange(0, dot_from(fullname, 0))
}

/// The fully-qualified name under which the instance `instance` is announced.
pub open spec fn fullname_of(instance: Seq<char>) -> Seq<char> {
    instance + seq!['.'] + SERVICE_TYPE@
}

/// The instance part of the fully-qualified service name `fullname`.
pub fn instance_of_fullname(fullname: &str) -> (r: String)
    ensures
        r@ == instance_part(fullname@),
{
    let cs = chars_of(fullname);
    let mut i: usize = 0;
    while i < cs.len() && cs[i] != '.'
        invariant
            cs@ == fullname@,
            i <= cs@.len(),
            dot_from(cs@, 0) == dot_from(cs@, i as int),
        decreases cs@.len() - i,
    {
        i = i + 1;
    }
    let mut out: Vec<char> = Vec::new();
    let mut p: usize = 0;
    while p < i
        invariant
            cs@ == fullname@,
            p <= i <= cs@.len(),
            out@ == cs@.subrange(0, p as int),
        decreases i - p,
    {
        out.push(cs[p]);
        p = p + 1;
        assert(out@ =~= cs@.subrange(0, p as int));
    }
    string_of(&out)
}

/// The fully-qualified name under which this daemon announces `instance`.
pub fn own_fullname(instance: &str) -> (r: String)
    ensures
        r@ == fullname_of(instance@),
{
    let mut s = String::from_str(instance);
    s.append(".");
    s.append(SERVICE_TYPE);
    proof {
        reveal_strlit(".");
    }
    assert(s@ =~= fullname_of(instance@));
    s
}

/// One address of one local network interface.
#[derive(Debug, Clone)]
pub struct InterfaceAddress {
    pub interface: String,
    pub address: IpAddress,
}

/// The addresses of a list of interface addresses, in order.
pub open spec fn addresses_of(s: Seq<InterfaceAddress>) -> Seq<IpAddress> {
    s.map_values(|a: InterfaceAddress| a.address)
}

/// The first usable address among the local interfaces' addresses, with the
/// name of its interface.
pub fn select_local_address(candidates: &Vec<InterfaceAddress>) -> (r: Option<(IpAddress, String)>)
    ensures
        ({
            let s = candidates@;
            let k = first_usable_from(addresses_of(s), 0);
            match r {
                Some((a, name)) => k < s.len() && a == s[k].address && name@ == s[k].interface@,
                None => k == s.len(),
            }
        }),
{
    let ghost addrs = addresses_of(candidates@);
    let mut i: usize = 0;
    while i < candidates.len()
        invariant
            addrs == addresses_of(candidates@),
            i <= candidates@.len(),
            first_usable_from(addrs, 0) == first_usable_from(addrs, i as int),
        decreases candidates@.len() - i,
    {
        if candidates[i].address.is_usable() {
            return Some((candidates[i].address, candidates[i].interface.clone()));
        }
        i = i + 1;
    }
    None
}

/// The status snapshot sent at the start of a front-end session.
pub fn status_snapshot(local: &Option<(IpAddress, String)>) -> (r: DaemonToGuiMessage)
    ensures
        r@ == (ReplyModel::DaemonStatus {
            is_connected_to_network: local is Some,
            active_interface_name: match local {
                Some((_, name)) => Some(name@),
                None => None,
            },
        }),
{
    match local {
        Some((_, name)) => DaemonToGuiMessage::DaemonStatus {
            is_connected_to_network: true,
            active_interface_name: Some(name.clone()),
        },
        None => DaemonToGuiMessage::DaemonStatus {
            is_connected_to_network: false,
            active_interface_name: None,
        },
    }
}

/// The record this daemon announces on the service directory.
#[derive(Debug, Clone)]
pub struct ServiceRecord {
    pub service_type: String,
    pub instance_name: String,
    pub host_name: String,
    pub address: IpAddress,
    pub port: u16,
    /// Attribute pairs: `username`, `full_id` and `version`, in that order.
    pub properties: Vec<(String, String)>,
}

/// The view of an attribute pair.
pub open spec fn pair_view(p: (String, String)) -> (Seq<char>, Seq<char>) {
    (p.0@, p.1@)
}

/// Builds the record announcing `identity`, reachable at the chosen local
/// address (or the unspecified address when there is none) on `port`.
pub fn registration_record(
    identity: &UserIdentity,
    local: &Option<(IpAddress, String)>,
    port: u16,
    version: &str,
) -> (r: ServiceRecord)
    ensures
        r.service_type@ == SERVICE_TYPE@,
        r.instance_name@ == identity@.instance_name,
        r.host_name@ == host_label_of(
            match local {
                Some((_, name)) => name@,
                None => FALLBACK_INTERFACE@,
            },
        ) + ".local."@,
        r.address == match local {
            Some((a, _)) => *a,
            None => IpAddress::V4(0, 0, 0, 0),
        },
        r.port == port,
        r.properties@.map_values(|p: (String, String)| pair_view(p)) == seq![
            ("username"@, identity@.display_name),
            ("full_id"@, identity@.full_id),
            ("version"@, version@),
        ],
{
    let (address, label) = match local {
        Some((a, name)) => (*a, host_label(name.as_str())),
        None => (IpAddress::V4(0, 0, 0, 0), host_label(FALLBACK_INTERFACE)),
    };
    let mut host_name = label;
    host_name.append(".local.");
    let mut properties: Vec<(String, String)> = Vec::new();
    properties.push((String::from_str("username"), identity.user_provided_name.clone()));
    properties.push((String::from_str("full_id"), identity.full_message_id.clone()));
    properties.push((String::from_str("version"), String::from_str(version)));
    assert(properties@.map_values(|p: (String, String)| pair_view(p)) =~= seq![
        ("username"@, identity@.display_name),
        ("full_id"@, identity@.full_id),
        ("version"@, version@),
    ]);
    ServiceRecord {
        service_type: String::from_str(SERVICE_TYPE),
        instance_name: identity.m_dns_instance_name.clone(),
        host_name,
        address,
        port,
        properties,
    }
}

/// A service-directory announcement of some daemon, as resolved.
#[derive(Debug, Clone)]
pub struct ResolvedService {
    /// The announced fully-qualified name.
    pub fullname: String,
    /// The `full_id` attribute, if present.
    pub full_id: Option<String>,
    /// The `username` attribute, if present.
    pub username: Option<String>,
    /// The addresses offered, in the order the directory gave them.
    pub addresses: Vec<IpAddress>,
    pub port: u16,
}

/// The registry entry that the announcement `ev` yields, seen by the daemon
/// whose own fully-qualified name is `own`: none for its own announcement or
/// for one without a usable address.
pub open spec fn resolved_entry(ev: ResolvedService, own: Seq<char>) -> Option<EntryModel> {
    let k = first_usable_from(ev.addresses@, 0);
    if ev.fullname@ == own || k >= ev.addresses@.len() {
        None
    } else {
        Some(
            EntryModel {
                peer: PeerModel {
                    id: match ev.full_id {
                        Some(x) => x@,
                        None => ev.fullname@,
                    },
                    username: match ev.username {
                        Some(u) => u@,
                        None => instance_part(ev.fullname@),
                    },
                    ip: address_text(ev.addresses@[k]),
                    port: ev.port,
                },
                instance: instance_part(ev.fullname@),
            },
        )
    }
}

/// The registry after an announcement yields `entry`.
pub open spec fn apply_resolved(
    m: Map<Seq<char>, EntryModel>,
    entry: Option<EntryModel>,
) -> Map<Seq<char>, EntryModel> {
    match entry {
        Some(e) => m.insert(e.peer.id, e),
        None => m,
    }
}

fn copy_text(s: &Option<String>) -> (r: Option<String>)
    ensures
        match (r, *s) {
            (Some(a), Some(b)) => a@ == b@,
            (None, None) => true,
            _ => false,
        },
{
    match s {
        Some(x) => Some(x.clone()),
        None => None,
    }
}

/// Records the announcement `ev` in `registry`, unless it is this daemon's
/// own (`own` is this daemon's fully-qualified name) or offers no usable
/// address; true when a peer was stored.
pub fn on_resolved(registry: &mut PeerRegistry, own: &str, ev: &ResolvedService) -> (r: bool)
    requires
        old(registry).wf(),
    ensures
        final(registry).wf(),
        final(registry)@ == apply_resolved(old(registry)@, resolved_entry(*ev, own@)),
        r == resolved_entry(*ev, own@) is Some,
{
    let own_name = String::from_str(own);
    if ev.fullname == own_name {
        return false;
    }
    let k = match first_usable(&ev.addresses) {
        Some(k) => k,
        None => return false,
    };
    let instance = instance_of_fullname(ev.fullname.as_str());
    let id = match copy_text(&ev.full_id) {
        Some(x) => x,
        None => ev.fullname.clone(),
    };
    let username = match copy_text(&ev.username) {
        Some(u) => u,
        None => instance.clone(),
    };
    let ip = format_usable(ev.addresses[k]);
    let peer = IpcPeer { id, username, ip, port: ev.port };
    registry.upsert(peer, instance);
    true
}

/// Forgets the peers announced under the instance part of `fullname`, whose
/// announcement was withdrawn; true when one was known.
pub fn on_removed(registry: &mut PeerRegistry, fullname: &str) -> (r: bool)
    requires
        old(registry).wf(),
    ensures
        final(registry).wf(),
        final(registry)@ == without_instance(old(registry)@, instance_part(fullname@)),
        r == exists|k: Seq<char>| #[trigger] old(registry)@.contains_key(k)
            && old(registry)@[k].instance == instance_part(fullname@),
{
    let instance = instance_of_fullname(fullname);
    registry.remove_instance(instance.as_str())
}

/// An announcement of this daemon's own fully-qualified name never changes
/// the registry, whatever it holds.
pub proof fn lemma_own_announcement_ignored(
    m: Map<Seq<char>, EntryModel>,
    ev: ResolvedService,
    own: Seq<char>,
)
    requires
        ev.fullname@ == own,
    ensures
        resolved_entry(ev, own) is None,
        apply_resolved(m, resolved_entry(ev, own)) == m,
{
}

} // verus!
