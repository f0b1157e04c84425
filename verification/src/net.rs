//! Host network state, for the screen shown before the player is up.
//!
//! Volumio's `wireless.js` publishes network state in three files, and
//! touches the mtime of `/tmp/networkstatus` on every change:
//!
//! ```text
//! /tmp/networkstatus   ap | hotspot | offline, mtime touched on every change
//! /data/wlan0status    connected | hotspot | disconnected
//! /data/eth0status     connected | disconnected
//! ```
//!
//! Addresses come from the kernel, because the status files say what mode
//! the network is in, not what address was assigned. Real addresses are
//! authoritative: the status file persists across boots and goes stale, so
//! it is consulted only when there are none. LAN addresses and the access
//! point are independent facts, and both are shown when both are up.
//! The files and interfaces are read by the caller; what they mean is here.

use vstd::prelude::*;
use crate::text::{
    chars_of, eq_in, lines, next_line, push_slice, push_str, string_from, trim, trim_range,
};

verus! {

broadcast use vstd::string::group_string_axioms;

/// Volumio's access point address, treated as "not connected" by the
/// backend's own network monitor.
pub const HOTSPOT_ADDR: &'static str = "192.168.211.1";

/// Fallback SSID, matching the backend's default hotspot name.
pub const DEFAULT_SSID: &'static str = "Volumio";

/// How often addresses are re-read when the notifier file is absent, in
/// milliseconds.
pub const FALLBACK_INTERVAL_MS: u64 = 2000;

/// One address, with the interface it belongs to.
#[derive(Debug, Clone, PartialEq, Eq)]
pub struct Address {
    /// Interface name, e.g. `eth0`.
    pub iface: String,
    /// The address, formatted for display.
    pub addr: String,
}

/// What the status screen should show.
#[derive(Debug, Clone, PartialEq, Eq)]
pub enum NetState {
    /// No usable address yet. The board is alive and looking.
    Waiting,
    /// The access point is up: join this network, then open this address.
    /// LAN addresses are an independent fact and are carried beside it.
    Hotspot {
        /// SSID being broadcast.
        ssid: String,
        /// The access point's own address.
        addr: String,
        /// Usable LAN addresses up at the same time, possibly none.
        lan: Vec<Address>,
    },
    /// Connected, with one or more usable addresses and no access point.
    Connected(Vec<Address>),
}

/// The LAN addresses a state carries, whatever the access point is doing.
pub open spec fn lan_of(s: NetState) -> Seq<Address> {
    match s {
        NetState::Waiting => seq![],
        NetState::Hotspot { lan, .. } => lan@,
        NetState::Connected(v) => v@,
    }
}

/// Hostname and network state, as displayed.
#[derive(Debug, Clone, PartialEq, Eq)]
pub struct HostInfo {
    /// Hostname with the mDNS suffix, because that is what people type.
    pub hostname: String,
    /// Current network state.
    pub state: NetState,
}

impl Default for HostInfo {
    fn default() -> (h: Self)
        ensures
            h.hostname@ == Seq::<char>::empty(),
            h.state is Waiting,
    {
        HostInfo { hostname: String::new(), state: NetState::Waiting }
    }
}

impl HostInfo {
    /// True when there is something to reach the box at: an address, or the
    /// access point.
    pub fn has_address(&self) -> (b: bool)
        ensures
            b == !(self.state is Waiting),
    {
        match self.state {
            NetState::Waiting => false,
            _ => true,
        }
    }
}

/// A file modification time, as seconds and nanoseconds since the epoch.
pub type Mtime = (u64, u32);

/// Knows when host state is worth re-reading.
pub struct NetMonitor {
    /// mtime of the notifier file at the last read.
    seen: Option<Mtime>,
    /// When the fallback timer last fired, in milliseconds; `None` before the
    /// first read.
    last_poll: Option<u64>,
}

impl Default for NetMonitor {
    fn default() -> (m: Self)
        ensures
            m.seen_v() is None,
            m.last_poll_v() is None,
    {
        NetMonitor { seen: None, last_poll: None }
    }
}

impl NetMonitor {
    pub closed spec fn seen_v(self) -> Option<Mtime> {
        self.seen
    }

    pub closed spec fn last_poll_v(self) -> Option<u64> {
        self.last_poll
    }

    /// Whether host state should be read now, given the notifier file's mtime
    /// (`None` when it is absent) and the time in milliseconds.
    ///
    /// With the file: read when its mtime differs from the last one seen.
    /// Without it (an older image, or `wireless.js` has not run yet): read
    /// every two seconds, and on the first call.
    pub fn poll(&mut self, mtime: Option<Mtime>, now_ms: u64) -> (due: bool)
        ensures
            match mtime {
                Some(m) => {
                    &&& due == (old(self).seen_v() != Some(m))
                    &&& final(self).seen_v() == Some(m)
                    &&& final(self).last_poll_v() == old(self).last_poll_v()
                },
                None => {
                    &&& due == match old(self).last_poll_v() {
                        Some(t) => !(now_ms >= t && now_ms - t < FALLBACK_INTERVAL_MS) && !(now_ms
                            < t),
                        None => true,
                    }
                    &&& final(self).seen_v() == old(self).seen_v()
                    &&& final(self).last_poll_v() == if due {
                        Some(now_ms)
                    } else {
                        old(self).last_poll_v()
                    }
                },
            },
    {
        match mtime {
            Some(m) => {
                let same = match self.seen {
                    Some(s) => s.0 == m.0 && s.1 == m.1,
                    None => false,
                };
                self.seen = Some(m);
                !same
            },
            None => {
                if let Some(t) = self.last_poll {
                    let elapsed = if now_ms >= t {
                        now_ms - t
                    } else {
                        0
                    };
                    if elapsed < FALLBACK_INTERVAL_MS {
                        return false;
                    }
                }
                self.last_poll = Some(now_ms);
                true
            },
        }
    }
}

/// Hostname with the mDNS suffix: the trimmed contents of the hostname
/// file plus `.local`, or empty when the file is missing or blank.
pub open spec fn hostname_text(contents: Option<Seq<char>>) -> Seq<char> {
    match contents {
        Some(c) => if trim(c).len() > 0 {
            trim(c) + ".local"@
        } else {
            seq![]
        },
        None => seq![],
    }
}

pub fn hostname(contents: Option<&str>) -> (s: String)
    ensures
        s@ == hostname_text(match contents {
            Some(c) => Some(c@),
            None => None,
        }),
{
    match contents {
        Some(c) => {
            let v = chars_of(c);
            let (a, b) = trim_range(&v, 0, v.len());
            assert(v@.subrange(0, v@.len() as int) =~= v@);
            if a == b {
                return String::new();
            }
            let mut out: Vec<char> = Vec::new();
            push_slice(&mut out, &v, a, b);
            push_str(&mut out, ".local");
            string_from(&out)
        },
        None => String::new(),
    }
}

pub open spec fn starts_with(s: Seq<char>, p: Seq<char>) -> bool {
    s.len() >= p.len() && s.take(p.len() as int) == p
}

/// Index of the first line, from `k` on, whose trimmed text starts with
/// `ssid=`.
pub open spec fn first_ssid_line(ls: Seq<Seq<char>>, k: int) -> Option<int>
    decreases ls.len() - k,
{
    if k < 0 || k >= ls.len() {
        None
    } else if starts_with(trim(ls[k]), "ssid="@) {
        Some(k)
    } else {
        first_ssid_line(ls, k + 1)
    }
}

/// The SSID hostapd broadcasts: the value of the first `ssid=` line of its
/// configuration, or `Volumio` when there is none, it is empty, or the file
/// could not be read.
pub open spec fn ssid_text(conf: Option<Seq<char>>) -> Seq<char> {
    match conf {
        Some(c) => {
            let ls = lines(c);
            match first_ssid_line(ls, 0) {
                Some(k) => {
                    let v = trim(ls[k]).skip("ssid="@.len() as int);
                    if v.len() > 0 {
                        v
                    } else {
                        DEFAULT_SSID@
                    }
                },
                None => DEFAULT_SSID@,
            }
        },
        None => DEFAULT_SSID@,
    }
}

pub fn hotspot_ssid(conf: Option<&str>) -> (s: String)
    ensures
        s@ == ssid_text(match conf {
            Some(c) => Some(c@),
            None => None,
        }),
{
    let text = match conf {
        Some(c) => c,
        None => {
            return DEFAULT_SSID.to_string();
        },
    };
    let v = chars_of(text);
    let ghost ls = lines(v@);
    let key = chars_of("ssid=");
    let mut pos: usize = 0;
    let ghost mut k: int = 0;
    assert(v@.skip(0) =~= v@);
    while pos < v.len()
        invariant
            pos <= v@.len(),
            0 <= k <= ls.len(),
            ls == lines(v@),
            v@ == text@,
            conf matches Some(c) && c@ == v@,
            key@ == "ssid="@,
            lines(v@.skip(pos as int)) == ls.skip(k),
            first_ssid_line(ls, 0) == first_ssid_line(ls, k),
        decreases v@.len() - pos,
    {
        let (a, b, next) = next_line(&v, pos);
        let ghost line = v@.subrange(a as int, b as int);
        assert((seq![line] + lines(v@.skip(next as int)))[0] == line);
        assert(ls.skip(k).len() >= 1);
        assert(ls[k] == ls.skip(k)[0]);
        let (ta, tb) = trim_range(&v, a, b);
        let ghost t = v@.subrange(ta as int, tb as int);
        assert(ls.skip(k)[0] == line);
        assert(t == trim(ls[k]));
        let n = key.len();
        if tb - ta >= n && eq_in(&v, ta, ta + n, &key) {
            assert(t.take(n as int) =~= v@.subrange(ta as int, ta + n));
            assert(first_ssid_line(ls, k) == Some(k));
            if tb - ta == n {
                assert(t.skip(n as int).len() == 0);
                return DEFAULT_SSID.to_string();
            }
            let mut out: Vec<char> = Vec::new();
            push_slice(&mut out, &v, ta + n, tb);
            assert(out@ =~= t.skip(n as int));
            return string_from(&out);
        }
        proof {
            if tb - ta >= n {
                assert(t.take(n as int) =~= v@.subrange(ta as int, ta + n));
            }
            assert(!starts_with(trim(ls[k]), "ssid="@));
            assert(ls.skip(k + 1) =~= ls.skip(k).drop_first());
            k = k + 1;
        }
        pos = next;
    }
    assert(v@.skip(pos as int).len() == 0);
    assert(ls.skip(k).len() == 0);
    assert(first_ssid_line(ls, k) is None);
    DEFAULT_SSID.to_string()
}

/// An IP address as its octets.
#[derive(Debug, Clone, Copy, PartialEq, Eq)]
pub enum Ip {
    V4([u8; 4]),
    V6([u8; 16]),
}

/// fe80::/10.
pub open spec fn v6_link_local(o: Seq<u8>) -> bool {
    o[0] == 0xfe && o[1] / 64 == 2
}

/// fe80::/10, from the octets.
pub fn is_v6_link_local(o: &[u8; 16]) -> (b: bool)
    ensures
        b == v6_link_local(o@),
{
    let o1 = o[1];
    assert((o1 & 0xc0) == 0x80 <==> o1 / 64 == 2) by (bit_vector);
    o[0] == 0xfe && (o1 & 0xc0) == 0x80
}

/// An address someone could actually connect to. IPv4 drops loopback
/// (127/8), link-local (169.254/16, meaning DHCP failed), unspecified and
/// multicast (224/4). IPv6 drops loopback, unspecified, multicast (ff00::/8)
/// and link-local (fe80::/10, which needs a scope identifier).
pub open spec fn usable_spec(ip: Ip) -> bool {
    match ip {
        Ip::V4(a) => {
            let o = a@;
            &&& o[0] != 127
            &&& !(o[0] == 169 && o[1] == 254)
            &&& !(o[0] == 0 && o[1] == 0 && o[2] == 0 && o[3] == 0)
            &&& !(224 <= o[0] <= 239)
        },
        Ip::V6(a) => {
            let o = a@;
            &&& !(forall|i: int| 0 <= i < 15 ==> o[i] == 0) || (o[15] != 1 && o[15] != 0)
            &&& o[0] != 0xff
            &&& !v6_link_local(o)
        },
    }
}

pub fn usable(ip: &Ip) -> (b: bool)
    ensures
        b == usable_spec(*ip),
{
    match ip {
        Ip::V4(o) => o[0] != 127 && !(o[0] == 169 && o[1] == 254) && !(o[0] == 0 && o[1] == 0
            && o[2] == 0 && o[3] == 0) && !(224 <= o[0] && o[0] <= 239),
        Ip::V6(o) => {
            let mut i: usize = 0;
            let mut zero = true;
            while i < 15
                invariant
                    i <= 15,
                    zero == forall|j: int| 0 <= j < i ==> o@[j] == 0,
                decreases 15 - i,
            {
                if o[i] != 0 {
                    zero = false;
                }
                i = i + 1;
            }
            (!zero || (o[15] != 1 && o[15] != 0)) && o[0] != 0xff && !is_v6_link_local(o)
        },
    }
}

/// One interface address as the kernel reports it, with what the caller
/// found out about it: whether the interface is wireless (from sysfs, not
/// the name) and the address's display text.
#[derive(Debug, Clone)]
pub struct Candidate {
    pub iface: String,
    pub addr: String,
    pub ip: Ip,
    pub wireless: bool,
}

pub open spec fn is_v6(ip: Ip) -> bool {
    ip is V6
}

/// Lexicographic order on characters, by code point. (For UTF-8 strings
/// this is the byte order `String`'s `Ord` uses.)
pub open spec fn seq_lt(a: Seq<char>, b: Seq<char>) -> bool
    decreases a.len(),
{
    if a.len() == 0 {
        b.len() > 0
    } else if b.len() == 0 {
        false
    } else if a[0] != b[0] {
        a[0] < b[0]
    } else {
        seq_lt(a.drop_first(), b.drop_first())
    }
}

/// Sort key of a listed address: wired, IPv6, interface, address text.
pub type Key = (bool, bool, Seq<char>, Seq<char>);

pub open spec fn key_of(c: Candidate) -> Key {
    (!c.wireless, is_v6(c.ip), c.iface@, c.addr@)
}

/// Wired before wireless, IPv4 before IPv6, then by interface name and by
/// address, so the order is stable across reads.
pub open spec fn key_lt(a: Key, b: Key) -> bool {
    if a.0 != b.0 {
        a.0
    } else if a.1 != b.1 {
        !a.1
    } else if a.2 != b.2 {
        seq_lt(a.2, b.2)
    } else {
        seq_lt(a.3, b.3)
    }
}

pub open spec fn strictly_sorted(ks: Seq<Key>) -> bool {
    forall|i: int, j: int| 0 <= i < j < ks.len() ==> key_lt(#[trigger] ks[i], #[trigger] ks[j])
}

/// A candidate that goes on the address list: usable, and not the access
/// point's own address, which is shown as its own block instead.
pub open spec fn shown(c: Candidate) -> bool {
    usable_spec(c.ip) && c.addr@ != HOTSPOT_ADDR@
}

pub open spec fn listed(cands: Seq<Candidate>, n: int, k: Key) -> bool {
    exists|j: int| 0 <= j < n && shown(#[trigger] cands[j]) && key_of(cands[j]) == k
}

/// `r` lists the candidates that are shown, each once, in key order.
pub open spec fn is_listing(cands: Seq<Candidate>, r: Seq<Address>) -> bool {
    exists|ks: Seq<Key>|
        {
            &&& strictly_sorted(ks)
            &&& forall|k: Key| ks.contains(k) <==> listed(cands, cands.len() as int, k)
            &&& r.len() == ks.len()
            &&& forall|i: int|
                0 <= i < ks.len() ==> (#[trigger] r[i]).iface@ == ks[i].2 && r[i].addr@ == ks[i].3
        }
}

/// Some candidate goes on the address list.
pub open spec fn has_lan(cands: Seq<Candidate>) -> bool {
    exists|j: int| 0 <= j < cands.len() && shown(#[trigger] cands[j])
}

/// The access point's address is among the kernel's addresses.
pub open spec fn ap_seen(cands: Seq<Candidate>) -> bool {
    exists|j: int| 0 <= j < cands.len() && (#[trigger] cands[j]).addr@ == HOTSPOT_ADDR@
}

proof fn lemma_seq_lt_irreflexive(a: Seq<char>)
    ensures
        !seq_lt(a, a),
    decreases a.len(),
{
    if a.len() > 0 {
        lemma_seq_lt_irreflexive(a.drop_first());
    }
}

proof fn lemma_seq_lt_transitive(a: Seq<char>, b: Seq<char>, c: Seq<char>)
    requires
        seq_lt(a, b),
        seq_lt(b, c),
    ensures
        seq_lt(a, c),
    decreases a.len(),
{
    if a.len() > 0 && b.len() > 0 && c.len() > 0 && a[0] == b[0] && b[0] == c[0] {
        lemma_seq_lt_transitive(a.drop_first(), b.drop_first(), c.drop_first());
    }
}

proof fn lemma_seq_lt_total(a: Seq<char>, b: Seq<char>)
    requires
        a != b,
    ensures
        seq_lt(a, b) || seq_lt(b, a),
    decreases a.len(),
{
    if a.len() > 0 && b.len() > 0 && a[0] == b[0] {
        if a.drop_first() == b.drop_first() {
            assert(a =~= seq![a[0]] + a.drop_first());
            assert(b =~= seq![b[0]] + b.drop_first());
        }
        lemma_seq_lt_total(a.drop_first(), b.drop_first());
    } else if a.len() == 0 && b.len() == 0 {
        assert(a =~= b);
    }
}

proof fn lemma_key_lt_facts()
    ensures
        forall|a: Key| !key_lt(a, a),
        forall|a: Key, b: Key, c: Key| key_lt(a, b) && key_lt(b, c) ==> key_lt(a, c),
        forall|a: Key, b: Key| a != b ==> key_lt(a, b) || key_lt(b, a),
{
    assert forall|a: Key| !key_lt(a, a) by {
        lemma_seq_lt_irreflexive(a.3);
    }
    assert forall|a: Key, b: Key, c: Key| key_lt(a, b) && key_lt(b, c) implies key_lt(a, c) by {
        if a.0 == b.0 && b.0 == c.0 && a.1 == b.1 && b.1 == c.1 {
            if a.2 != b.2 && b.2 != c.2 {
                lemma_seq_lt_transitive(a.2, b.2, c.2);
                if a.2 == c.2 {
                    lemma_seq_lt_irreflexive(a.2);
                    lemma_seq_lt_transitive(c.2, b.2, c.2);
                }
            } else if a.2 == b.2 && b.2 == c.2 {
                lemma_seq_lt_transitive(a.3, b.3, c.3);
            } else if a.2 == b.2 {
            } else {
            }
        }
    }
    assert forall|a: Key, b: Key| a != b implies key_lt(a, b) || key_lt(b, a) by {
        if a.0 == b.0 && a.1 == b.1 {
            if a.2 != b.2 {
                lemma_seq_lt_total(a.2, b.2);
            } else {
                lemma_seq_lt_total(a.3, b.3);
            }
        }
    }
}

/// The listed order depends only on which addresses are listed, not on the
/// order the kernel reported them in: two strictly sorted listings of the
/// same addresses are the same listing, so the panel does not reshuffle
/// between reads.
pub proof fn a_listing_is_determined_by_its_addresses(ks1: Seq<Key>, ks2: Seq<Key>)
    requires
        strictly_sorted(ks1),
        strictly_sorted(ks2),
        forall|k: Key| ks1.contains(k) <==> ks2.contains(k),
    ensures
        ks1 == ks2,
    decreases ks1.len(),
{
    lemma_key_lt_facts();
    if ks1.len() == 0 {
        if ks2.len() > 0 {
            assert(ks2.contains(ks2[0]));
        }
        assert(ks1 =~= ks2);
    } else if ks2.len() == 0 {
        assert(ks1.contains(ks1[0]));
    } else {
        let a = ks1[0];
        let b = ks2[0];
        assert(ks1.contains(a));
        assert(ks2.contains(b));
        if a != b {
            let j = choose|j: int| 0 <= j < ks2.len() && ks2[j] == a;
            let i = choose|i: int| 0 <= i < ks1.len() && ks1[i] == b;
            assert(j > 0 && i > 0);
            assert(key_lt(b, a));
            assert(key_lt(a, b));
            assert(key_lt(a, a));
        }
        let r1 = ks1.drop_first();
        let r2 = ks2.drop_first();
        assert forall|i: int, j: int| 0 <= i < j < r1.len() implies key_lt(#[trigger] r1[i], #[trigger] r1[j]) by {
            assert(r1[i] == ks1[i + 1] && r1[j] == ks1[j + 1]);
        }
        assert forall|i: int, j: int| 0 <= i < j < r2.len() implies key_lt(#[trigger] r2[i], #[trigger] r2[j]) by {
            assert(r2[i] == ks2[i + 1] && r2[j] == ks2[j + 1]);
        }
        assert forall|k: Key| r1.contains(k) <==> r2.contains(k) by {
            if r1.contains(k) {
                let i = choose|i: int| 0 <= i < r1.len() && r1[i] == k;
                assert(ks1[i + 1] == k);
                assert(key_lt(a, k));
                assert(ks2.contains(k));
                let j = choose|j: int| 0 <= j < ks2.len() && ks2[j] == k;
                assert(j != 0);
                assert(r2[j - 1] == k);
            }
            if r2.contains(k) {
                let j = choose|j: int| 0 <= j < r2.len() && r2[j] == k;
                assert(ks2[j + 1] == k);
                assert(key_lt(b, k));
                assert(ks1.contains(k));
                let i = choose|i: int| 0 <= i < ks1.len() && ks1[i] == k;
                assert(i != 0);
                assert(r1[i - 1] == k);
            }
        }
        a_listing_is_determined_by_its_addresses(r1, r2);
        assert(ks1 =~= seq![a] + r1);
        assert(ks2 =~= seq![b] + r2);
    }
}

/// Lexicographic comparison of two character runs: -1, 0 or 1.
fn lex_order(a: &Vec<char>, b: &Vec<char>) -> (r: i8)
    ensures
        r == -1 <==> seq_lt(a@, b@),
        r == 0 <==> a@ == b@,
        r == 1 <==> seq_lt(b@, a@),
        r == -1 || r == 0 || r == 1,
{
    let mut i: usize = 0;
    assert(a@.skip(0) =~= a@);
    assert(b@.skip(0) =~= b@);
    while i < a.len() && i < b.len() && a[i] == b[i]
        invariant
            i <= a@.len(),
            i <= b@.len(),
            a@.take(i as int) == b@.take(i as int),
            seq_lt(a@, b@) == seq_lt(a@.skip(i as int), b@.skip(i as int)),
            seq_lt(b@, a@) == seq_lt(b@.skip(i as int), a@.skip(i as int)),
        decreases a@.len() - i,
    {
        assert(a@.skip(i as int).drop_first() =~= a@.skip(i + 1));
        assert(b@.skip(i as int).drop_first() =~= b@.skip(i + 1));
        assert(a@.take(i + 1) =~= a@.take(i as int).push(a@[i as int]));
        assert(b@.take(i + 1) =~= b@.take(i as int).push(b@[i as int]));
        i = i + 1;
    }
    if i == a.len() && i == b.len() {
        assert(a@ =~= a@.take(i as int));
        assert(b@ =~= b@.take(i as int));
        proof {
            lemma_seq_lt_irreflexive(a@);
        }
        0
    } else if i == a.len() {
        assert(a@.skip(i as int).len() == 0);
        assert(a@.len() != b@.len());
        -1
    } else if i == b.len() {
        assert(b@.skip(i as int).len() == 0);
        assert(a@.len() != b@.len());
        1
    } else {
        assert(a@[i as int] != b@[i as int]);
        assert(a@.skip(i as int)[0] == a@[i as int]);
        assert(b@.skip(i as int)[0] == b@[i as int]);
        if a[i] < b[i] {
            -1
        } else {
            1
        }
    }
}

struct Entry {
    wired: bool,
    v6: bool,
    iface: Vec<char>,
    addr: Vec<char>,
}

spec fn entry_key(e: Entry) -> Key {
    (e.wired, e.v6, e.iface@, e.addr@)
}

spec fn entry_keys(v: Seq<Entry>) -> Seq<Key> {
    Seq::new(v.len(), |i: int| entry_key(v[i]))
}

/// Whether `a` sorts before `b`, and whether they are equal.
fn entry_order(a: &Entry, b: &Entry) -> (r: (bool, bool))
    ensures
        r.0 == key_lt(entry_key(*a), entry_key(*b)),
        r.1 == (entry_key(*a) == entry_key(*b)),
{
    if a.wired != b.wired {
        return (a.wired, false);
    }
    if a.v6 != b.v6 {
        return (!a.v6, false);
    }
    let oi = lex_order(&a.iface, &b.iface);
    if oi != 0 {
        return (oi == -1, false);
    }
    let oa = lex_order(&a.addr, &b.addr);
    (oa == -1, oa == 0)
}

/// Usable addresses, ordered as someone reading the panel would want them:
/// wired before wireless, IPv4 before IPv6, then by interface name and by
/// address, each listed once.
///
/// The access point's address is left off the list: beside real addresses it
/// would look like another LAN address.
pub fn order_addresses(cands: &Vec<Candidate>) -> (r: Vec<Address>)
    ensures
        is_listing(cands@, r@),
        forall|i: int| 0 <= i < r@.len() ==> (#[trigger] r@[i]).addr@ != HOTSPOT_ADDR@,
        r@.len() > 0 <==> has_lan(cands@),
{
    proof {
        lemma_key_lt_facts();
    }
    let mut sorted: Vec<Entry> = Vec::new();
    let mut i: usize = 0;
    while i < cands.len()
        invariant
            i <= cands@.len(),
            strictly_sorted(entry_keys(sorted@)),
            forall|k: Key| entry_keys(sorted@).contains(k) <==> listed(cands@, i as int, k),
            forall|a: Key| !key_lt(a, a),
            forall|a: Key, b: Key, c: Key| key_lt(a, b) && key_lt(b, c) ==> key_lt(a, c),
            forall|a: Key, b: Key| a != b ==> key_lt(a, b) || key_lt(b, a),
        decreases cands@.len() - i,
    {
        let c = &cands[i];
        let ghost ks0 = entry_keys(sorted@);
        if usable(&c.ip) && !is_ap_addr(c.addr.as_str()) {
            let e = Entry {
                wired: !c.wireless,
                v6: match c.ip {
                    Ip::V6(_) => true,
                    Ip::V4(_) => false,
                },
                iface: chars_of(c.iface.as_str()),
                addr: chars_of(c.addr.as_str()),
            };
            let ghost x = entry_key(e);
            assert(x == key_of(cands@[i as int]));
            let mut p: usize = 0;
            let mut dup = false;
            while p < sorted.len()
                invariant
                    p <= sorted@.len(),
                    ks0 == entry_keys(sorted@),
                    x == entry_key(e),
                    forall|j: int| 0 <= j < p ==> key_lt(#[trigger] ks0[j], x),
                    dup ==> ks0.contains(x),
                    forall|a: Key| !key_lt(a, a),
                ensures
                    p <= sorted@.len(),
                    forall|j: int| 0 <= j < p ==> key_lt(#[trigger] ks0[j], x),
                    dup ==> ks0.contains(x),
                    !dup && p < ks0.len() ==> !key_lt(ks0[p as int], x) && ks0[p as int] != x,
                decreases sorted@.len() - p,
            {
                let (lt, eq) = entry_order(&sorted[p], &e);
                if eq {
                    dup = true;
                    assert(ks0[p as int] == x);
                    break;
                }
                if !lt {
                    break;
                }
                p = p + 1;
            }
            if !dup {
                proof {
                    if p < ks0.len() {
                        assert(key_lt(x, ks0[p as int]));
                    }
                    assert forall|j: int| p <= j < ks0.len() implies key_lt(x, #[trigger] ks0[j]) by {
                        if j > p {
                            assert(key_lt(ks0[p as int], ks0[j]));
                        }
                    }
                }
                sorted.insert(p, e);
                let ghost ks1 = entry_keys(sorted@);
                assert(ks1 =~= ks0.insert(p as int, x));
                assert forall|a: int, b: int| 0 <= a < b < ks1.len() implies key_lt(
                    #[trigger] ks1[a],
                    #[trigger] ks1[b],
                ) by {
                    if a < p && b == p {
                    } else if a < p && b > p {
                        assert(ks1[b] == ks0[b - 1]);
                    } else if a == p {
                        assert(ks1[b] == ks0[b - 1]);
                    } else if a > p {
                        assert(ks1[a] == ks0[a - 1]);
                        assert(ks1[b] == ks0[b - 1]);
                    }
                }
                assert forall|k: Key| ks1.contains(k) <==> listed(cands@, i + 1, k) by {
                    if ks1.contains(k) {
                        let q = choose|q: int| 0 <= q < ks1.len() && ks1[q] == k;
                        if q == p {
                            assert(shown(cands@[i as int]));
                        } else if q < p {
                            assert(ks0[q] == k);
                            assert(ks0.contains(k));
                        } else {
                            assert(ks0[q - 1] == k);
                            assert(ks0.contains(k));
                        }
                    }
                    if listed(cands@, i + 1, k) {
                        let j = choose|j: int| 0 <= j < i + 1 && shown(#[trigger] cands@[j]) && key_of(cands@[j]) == k;
                        if j == i {
                            assert(ks1[p as int] == k);
                        } else {
                            assert(listed(cands@, i as int, k));
                            let q = choose|q: int| 0 <= q < ks0.len() && ks0[q] == k;
                            if q < p {
                                assert(ks1[q] == k);
                            } else {
                                assert(ks1[q + 1] == k);
                            }
                        }
                    }
                }
            } else {
                assert forall|k: Key| ks0.contains(k) <==> listed(cands@, i + 1, k) by {
                    if listed(cands@, i + 1, k) {
                        let j = choose|j: int| 0 <= j < i + 1 && shown(#[trigger] cands@[j]) && key_of(cands@[j]) == k;
                        if j < i {
                            assert(listed(cands@, i as int, k));
                        }
                    }
                    if ks0.contains(k) {
                        assert(listed(cands@, i as int, k));
                        let j = choose|j: int| 0 <= j < i && shown(#[trigger] cands@[j]) && key_of(cands@[j]) == k;
                        assert(0 <= j < i + 1);
                    }
                }
            }
        } else {
            assert forall|k: Key| ks0.contains(k) <==> listed(cands@, i + 1, k) by {
                if listed(cands@, i + 1, k) {
                    let j = choose|j: int| 0 <= j < i + 1 && shown(#[trigger] cands@[j]) && key_of(cands@[j]) == k;
                    assert(j != i);
                    assert(listed(cands@, i as int, k));
                }
                if ks0.contains(k) {
                    assert(listed(cands@, i as int, k));
                    let j = choose|j: int| 0 <= j < i && shown(#[trigger] cands@[j]) && key_of(cands@[j]) == k;
                    assert(0 <= j < i + 1);
                }
            }
        }
        i = i + 1;
    }
    let ghost ks = entry_keys(sorted@);
    let mut r: Vec<Address> = Vec::new();
    let mut q: usize = 0;
    while q < sorted.len()
        invariant
            q <= sorted@.len(),
            ks == entry_keys(sorted@),
            r@.len() == q,
            forall|t: int| 0 <= t < q ==> (#[trigger] r@[t]).iface@ == ks[t].2 && r@[t].addr@ == ks[t].3,
        decreases sorted@.len() - q,
    {
        let a = Address { iface: string_from(&sorted[q].iface), addr: string_from(&sorted[q].addr) };
        r.push(a);
        q = q + 1;
    }
    proof {
        assert forall|t: int| 0 <= t < r@.len() implies (#[trigger] r@[t]).addr@ != HOTSPOT_ADDR@ by {
            assert(ks.contains(ks[t]));
            let j = choose|j: int| 0 <= j < cands@.len() && shown(#[trigger] cands@[j]) && key_of(cands@[j]) == ks[t];
        }
        if r@.len() > 0 {
            assert(ks.contains(ks[0]));
            let j = choose|j: int| 0 <= j < cands@.len() && shown(#[trigger] cands@[j]) && key_of(cands@[j]) == ks[0];
        }
        if has_lan(cands@) {
            let j = choose|j: int| 0 <= j < cands@.len() && shown(#[trigger] cands@[j]);
            assert(listed(cands@, cands@.len() as int, key_of(cands@[j])));
            assert(ks.contains(key_of(cands@[j])));
        }
    }
    r
}

/// Whether an address's text is the access point's.
fn is_ap_addr(s: &str) -> (b: bool)
    ensures
        b == (s@ == HOTSPOT_ADDR@),
{
    let v = chars_of(s);
    let hs = chars_of(HOTSPOT_ADDR);
    assert(v@.subrange(0, v@.len() as int) =~= v@);
    eq_in(&v, 0, v.len(), &hs)
}

/// Whether the access point is up. Its address among the kernel's is the
/// fact itself. Without it, `wireless.js`'s status file saying `hotspot`
/// counts only when there is no LAN address: the file persists across
/// reboots and goes stale, so it does not outweigh real addresses.
pub open spec fn hotspot_mode(wlan_status: Option<Seq<char>>, cands: Seq<Candidate>) -> bool {
    ||| ap_seen(cands)
    ||| !has_lan(cands) && (wlan_status matches Some(s) && trim(s) == "hotspot"@)
}

pub open spec fn opt_str(o: Option<&str>) -> Option<Seq<char>> {
    match o {
        Some(s) => Some(s@),
        None => None,
    }
}

/// What the status screen shows, from `wireless.js`'s status file, the
/// hostapd configuration and the kernel's addresses: the usable addresses
/// whenever there are any, the access point block beside them when it is
/// up, and waiting when there is neither.
pub fn net_state(wlan_status: Option<&str>, hostapd_conf: Option<&str>, cands: &Vec<Candidate>) -> (s: NetState)
    ensures
        is_listing(cands@, lan_of(s)),
        hotspot_mode(opt_str(wlan_status), cands@) ==> (s matches NetState::Hotspot { ssid, addr, lan }
            && ssid@ == ssid_text(opt_str(hostapd_conf)) && addr@ == HOTSPOT_ADDR@
            && is_listing(cands@, lan@)),
        !hotspot_mode(opt_str(wlan_status), cands@) && !has_lan(cands@) ==> s is Waiting,
        !hotspot_mode(opt_str(wlan_status), cands@) && has_lan(cands@) ==> (s matches NetState::Connected(v)
            && is_listing(cands@, v@)),
{
    let lan = order_addresses(cands);
    let mut seen = false;
    let mut i: usize = 0;
    while i < cands.len()
        invariant
            i <= cands@.len(),
            seen == exists|j: int| 0 <= j < i && (#[trigger] cands@[j]).addr@ == HOTSPOT_ADDR@,
        decreases cands@.len() - i,
    {
        if is_ap_addr(cands[i].addr.as_str()) {
            seen = true;
        }
        i = i + 1;
    }
    let stale_says_ap = match wlan_status {
        Some(st) => {
            let v = chars_of(st);
            let (a, b) = trim_range(&v, 0, v.len());
            assert(v@.subrange(0, v@.len() as int) =~= v@);
            eq_in(&v, a, b, &chars_of("hotspot"))
        },
        None => false,
    };
    if seen || (lan.len() == 0 && stale_says_ap) {
        return NetState::Hotspot { ssid: hotspot_ssid(hostapd_conf), addr: HOTSPOT_ADDR.to_string(), lan };
    }
    if lan.len() == 0 {
        assert(lan@ =~= seq![]);
        NetState::Waiting
    } else {
        NetState::Connected(lan)
    }
}

} // verus!
