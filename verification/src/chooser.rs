//! Choosing the IP addresses to connect to: a chooser that groups the
//! addresses by subnet and keeps a blacklist of the addresses that failed,
//! and a chooser that shuffles what another one chose.
//!
//! Times are milliseconds of the caller's monotonic clock, counted from the
//! moment the chooser was built.

use crate::endpoint::{IpAddr, IpAddrWithPort};
use rand::seq::SliceRandom;
use rand::Rng;
use vstd::prelude::*;

verus! {

/// The view of an address with port.
pub type AddrView = (IpAddr, Option<u16>);

/// Milliseconds from `since` to `now` (0 where the clock did not move on).
pub open spec fn elapsed(since: u64, now: u64) -> nat {
    if now >= since {
        (now - since) as nat
    } else {
        0
    }
}

/// How many leading bits of the component that starts at bit `base` and
/// has `width` bits a prefix of `prefix` bits covers.
pub open spec fn kept_bits(prefix: nat, base: nat, width: nat) -> nat {
    if prefix <= base {
        0
    } else if prefix - base >= width {
        width
    } else {
        (prefix - base) as nat
    }
}

/// The `keep` leading bits of an octet, the others cleared.
pub open spec fn high_bits_u8(b: u8, keep: nat) -> u8 {
    if keep == 0 {
        0
    } else {
        b & (0xffu8 << ((8 - keep) as u8))
    }
}

/// The `keep` leading bits of a segment, the others cleared.
pub open spec fn high_bits_u16(b: u16, keep: nat) -> u16 {
    if keep == 0 {
        0
    } else {
        b & (0xffffu16 << ((16 - keep) as u16))
    }
}

/// The network address of `ip`: the address with all bits after the prefix
/// (`v4_prefix` bits for IPv4, `v6_prefix` for IPv6) cleared.
pub open spec fn network_ip(ip: IpAddr, v4_prefix: nat, v6_prefix: nat) -> IpAddr {
    match ip {
        IpAddr::V4(a, b, c, d) => IpAddr::V4(
            high_bits_u8(a, kept_bits(v4_prefix, 0, 8)),
            high_bits_u8(b, kept_bits(v4_prefix, 8, 8)),
            high_bits_u8(c, kept_bits(v4_prefix, 16, 8)),
            high_bits_u8(d, kept_bits(v4_prefix, 24, 8)),
        ),
        IpAddr::V6(a, b, c, d, e, f, g, h) => IpAddr::V6(
            high_bits_u16(a, kept_bits(v6_prefix, 0, 16)),
            high_bits_u16(b, kept_bits(v6_prefix, 16, 16)),
            high_bits_u16(c, kept_bits(v6_prefix, 32, 16)),
            high_bits_u16(d, kept_bits(v6_prefix, 48, 16)),
            high_bits_u16(e, kept_bits(v6_prefix, 64, 16)),
            high_bits_u16(f, kept_bits(v6_prefix, 80, 16)),
            high_bits_u16(g, kept_bits(v6_prefix, 96, 16)),
            high_bits_u16(h, kept_bits(v6_prefix, 112, 16)),
        ),
    }
}

/// The time at which `key` was blocked, by the last entry for it.
pub open spec fn lookup(entries: Seq<(IpAddrWithPort, u64)>, key: AddrView) -> Option<u64>
    decreases entries.len(),
{
    if entries.len() == 0 {
        None
    } else if entries.last().0@ == key {
        Some(entries.last().1)
    } else {
        lookup(entries.drop_last(), key)
    }
}

/// No address has two entries.
pub open spec fn distinct_keys(entries: Seq<(IpAddrWithPort, u64)>) -> bool {
    forall|i: int, j: int|
        0 <= i < j < entries.len() ==> #[trigger] entries[i].0@ != #[trigger] entries[j].0@
}

/// The entries that `keep` keeps, in order.
pub open spec fn kept_entries(
    entries: Seq<(IpAddrWithPort, u64)>,
    keep: spec_fn(AddrView, u64) -> bool,
) -> Seq<(IpAddrWithPort, u64)>
    decreases entries.len(),
{
    if entries.len() == 0 {
        seq![]
    } else {
        let rest = kept_entries(entries.drop_last(), keep);
        if keep(entries.last().0@, entries.last().1) {
            rest.push(entries.last())
        } else {
            rest
        }
    }
}

/// Keeps the entries of other addresses than `key`.
pub open spec fn other_than(key: AddrView) -> spec_fn(AddrView, u64) -> bool {
    |k: AddrView, t: u64| k != key
}

/// Keeps the entries that have not expired at `now`.
pub open spec fn unexpired(now: u64, block_duration: nat) -> spec_fn(AddrView, u64) -> bool {
    |k: AddrView, t: u64| elapsed(t, now) < block_duration
}

proof fn lemma_lookup_absent(entries: Seq<(IpAddrWithPort, u64)>, key: AddrView)
    requires
        forall|i: int| 0 <= i < entries.len() ==> #[trigger] entries[i].0@ != key,
    ensures
        lookup(entries, key) == None::<u64>,
    decreases entries.len(),
{
    if entries.len() > 0 {
        let rest = entries.drop_last();
        assert forall|i: int| 0 <= i < rest.len() implies #[trigger] rest[i].0@ != key by {
            assert(rest[i] == entries[i]);
        }
        assert(entries.last() == entries[entries.len() - 1]);
        lemma_lookup_absent(rest, key);
    }
}

proof fn lemma_lookup_at(entries: Seq<(IpAddrWithPort, u64)>, j: int)
    requires
        distinct_keys(entries),
        0 <= j < entries.len(),
    ensures
        lookup(entries, entries[j].0@) == Some(entries[j].1),
    decreases entries.len(),
{
    let key = entries[j].0@;
    let last = entries.len() - 1;
    assert(entries.last() == entries[last]);
    if j < last {
        let rest = entries.drop_last();
        assert(entries[j] == rest[j]);
        assert forall|a: int, b: int| 0 <= a < b < rest.len() implies #[trigger] rest[a].0@
            != #[trigger] rest[b].0@ by {
            assert(rest[a] == entries[a] && rest[b] == entries[b]);
        }
        assert(entries[j].0@ != entries[last].0@);
        lemma_lookup_at(rest, j);
    }
}

proof fn lemma_kept_entries(
    entries: Seq<(IpAddrWithPort, u64)>,
    keep: spec_fn(AddrView, u64) -> bool,
)
    requires
        distinct_keys(entries),
    ensures
        distinct_keys(kept_entries(entries, keep)),
        forall|i: int|
            0 <= i < kept_entries(entries, keep).len() ==> exists|j: int|
                0 <= j < entries.len() && #[trigger] kept_entries(entries, keep)[i] == entries[j],
        forall|i: int|
            0 <= i < kept_entries(entries, keep).len() ==> keep(
                #[trigger] kept_entries(entries, keep)[i].0@,
                kept_entries(entries, keep)[i].1,
            ),
        forall|key: AddrView|
            #[trigger] lookup(kept_entries(entries, keep), key) == match lookup(entries, key) {
                Some(t) => if keep(key, t) {
                    Some(t)
                } else {
                    None
                },
                None => None,
            },
    decreases entries.len(),
{
    if entries.len() > 0 {
        let rest = entries.drop_last();
        let last = entries.last();
        assert(last == entries[entries.len() - 1]);
        assert forall|a: int, b: int| 0 <= a < b < rest.len() implies #[trigger] rest[a].0@
            != #[trigger] rest[b].0@ by {
            assert(rest[a] == entries[a] && rest[b] == entries[b]);
        }
        lemma_kept_entries(rest, keep);
        let kr = kept_entries(rest, keep);
        assert forall|i: int| 0 <= i < rest.len() implies #[trigger] rest[i].0@ != last.0@ by {
            assert(rest[i] == entries[i]);
        }
        lemma_lookup_absent(rest, last.0@);
        assert forall|i: int| 0 <= i < kr.len() implies #[trigger] kr[i].0@ != last.0@ by {
            let j = choose|j: int| 0 <= j < rest.len() && kr[i] == rest[j];
            assert(rest[j].0@ != last.0@);
        }
        let k = kept_entries(entries, keep);
        if keep(last.0@, last.1) {
            assert(k == kr.push(last));
            assert forall|a: int, b: int| 0 <= a < b < k.len() implies #[trigger] k[a].0@
                != #[trigger] k[b].0@ by {
                if b == kr.len() {
                    assert(k[a] == kr[a]);
                } else {
                    assert(k[a] == kr[a] && k[b] == kr[b]);
                }
            }
            assert forall|i: int| 0 <= i < k.len() implies exists|j: int|
                0 <= j < entries.len() && #[trigger] k[i] == entries[j] by {
                if i == kr.len() {
                    assert(k[i] == entries[entries.len() - 1]);
                } else {
                    assert(k[i] == kr[i]);
                    let j = choose|j: int| 0 <= j < rest.len() && kr[i] == rest[j];
                    assert(rest[j] == entries[j]);
                }
            }
            assert forall|key: AddrView| #[trigger]
                lookup(k, key) == match lookup(entries, key) {
                    Some(t) => if keep(key, t) {
                        Some(t)
                    } else {
                        None
                    },
                    None => None,
                } by {
                assert(k.drop_last() == kr);
                assert(k.last() == last);
                assert(lookup(kr, key) == match lookup(rest, key) {
                    Some(t) => if keep(key, t) {
                        Some(t)
                    } else {
                        None
                    },
                    None => None,
                });
            }
        } else {
            assert(k == kr);
            assert forall|key: AddrView| #[trigger]
                lookup(k, key) == match lookup(entries, key) {
                    Some(t) => if keep(key, t) {
                        Some(t)
                    } else {
                        None
                    },
                    None => None,
                } by {
                assert(lookup(kr, key) == match lookup(rest, key) {
                    Some(t) => if keep(key, t) {
                        Some(t)
                    } else {
                        None
                    },
                    None => None,
                });
            }
            assert forall|i: int| 0 <= i < k.len() implies exists|j: int|
                0 <= j < entries.len() && #[trigger] k[i] == entries[j] by {
                let j = choose|j: int| 0 <= j < rest.len() && kr[i] == rest[j];
                assert(rest[j] == entries[j]);
            }
        }
    }
}

/// The last element of a nonempty prefix.
proof fn lemma_take_push<A>(s: Seq<A>, i: int)
    requires
        0 <= i < s.len(),
    ensures
        s.take(i + 1) == s.take(i).push(s[i]),
        s.take(i + 1).drop_last() == s.take(i),
        s.take(i + 1).last() == s[i],
{
    assert(s.take(i + 1) =~= s.take(i).push(s[i]));
}

/// Chooses the addresses to connect to.
pub trait Chooser: Sized {
    /// Choosing `r` among `ips` at time `now` is what the chooser `before`
    /// may do, and leaves it as `self`.
    spec fn chose(&self, before: Self, ips: Seq<IpAddrWithPort>, now: u64, r: Seq<IpAddrWithPort>) -> bool;

    /// Learning whether a request to `ips` failed at time `now` turns the
    /// chooser `before` into `self`.
    spec fn learned(&self, before: Self, ips: Seq<IpAddrWithPort>, failed: bool, now: u64) -> bool;

    /// Chooses among `ips` at time `now`.
    fn choose_ips(&mut self, ips: &[IpAddrWithPort], now: u64) -> (r: Vec<IpAddrWithPort>)
        ensures
            forall|i: int| 0 <= i < r.len() ==> ips@.contains(#[trigger] r[i]),
            final(self).chose(*old(self), ips@, now, r@),
    ;

    /// Learns whether a request to `ips` failed at time `now`.
    fn feedback(&mut self, ips: &[IpAddrWithPort], failed: bool, now: u64)
        ensures
            final(self).learned(*old(self), ips@, failed, now),
    ;
}

/// A random index below `n`: `rand::Rng::gen_range(0..n)` on the thread's
/// generator. The index is random; only its range is stated.
#[verifier::external_body]
fn random_index(n: usize) -> (i: usize)
    requires
        n > 0,
    ensures
        i < n,
{
    rand::thread_rng().gen_range(0..n)
}

/// Shuffles `ips` in place with `rand::seq::SliceRandom::shuffle` on the
/// thread's generator: the order is random, the elements stay.
#[verifier::external_body]
fn shuffle_in_place(ips: &mut Vec<IpAddrWithPort>)
    ensures
        final(ips)@.to_multiset() == old(ips)@.to_multiset(),
        final(ips).len() == old(ips).len(),
{
    ips.shuffle(&mut rand::thread_rng())
}

/// Groups the addresses by subnet, skips those blocked recently, and picks
/// one subnet at random.
pub struct SubnetChooser {
    blacklist: Vec<(IpAddrWithPort, u64)>,
    last_shrink_at: u64,
    block_duration: u64,
    shrink_interval: u64,
    ipv4_netmask_prefix_length: u8,
    ipv6_netmask_prefix_length: u8,
}

impl SubnetChooser {
    #[verifier::type_invariant]
    spec fn well_formed(self) -> bool {
        &&& distinct_keys(self.blacklist@)
        &&& self.ipv4_netmask_prefix_length <= 32
        &&& self.ipv6_netmask_prefix_length <= 128
    }

    /// The blacklist: when each blocked address was blocked.
    pub closed spec fn blocked_at(self, key: AddrView) -> Option<u64> {
        lookup(self.blacklist@, key)
    }

    /// Entries in the blacklist.
    pub closed spec fn entry_count(self) -> nat {
        self.blacklist@.len()
    }

    /// How long an address stays blocked.
    pub closed spec fn block_duration_ms(self) -> nat {
        self.block_duration as nat
    }

    /// How long between two shrinks of the blacklist.
    pub closed spec fn shrink_interval_ms(self) -> nat {
        self.shrink_interval as nat
    }

    /// When the blacklist was last shrunk.
    pub closed spec fn last_shrink(self) -> u64 {
        self.last_shrink_at
    }

    /// The IPv4 netmask prefix length.
    pub closed spec fn ipv4_prefix(self) -> nat {
        self.ipv4_netmask_prefix_length as nat
    }

    /// The IPv6 netmask prefix length.
    pub closed spec fn ipv6_prefix(self) -> nat {
        self.ipv6_netmask_prefix_length as nat
    }

    /// `key` is blocked at `now`: it failed less than the block duration ago.
    pub open spec fn is_blocked(self, key: AddrView, now: u64) -> bool {
        self.blocked_at(key) matches Some(t) && elapsed(t, now) < self.block_duration_ms()
    }

    /// `key` has a blacklist entry that expired at `now`.
    pub open spec fn is_expired(self, key: AddrView, now: u64) -> bool {
        self.blocked_at(key) matches Some(t) && elapsed(t, now) >= self.block_duration_ms()
    }

    /// The subnet of an address: its network address, with its port.
    pub open spec fn subnet(self, key: AddrView) -> AddrView {
        (network_ip(key.0, self.ipv4_prefix(), self.ipv6_prefix()), key.1)
    }

    /// The addresses of `ips` in `subnet` that are not blocked at `now`, in
    /// order.
    pub open spec fn group(self, ips: Seq<IpAddrWithPort>, now: u64, subnet: AddrView) -> Seq<
        IpAddrWithPort,
    >
        decreases ips.len(),
    {
        if ips.len() == 0 {
            seq![]
        } else {
            let rest = self.group(ips.drop_last(), now, subnet);
            if !self.is_blocked(ips.last()@, now) && self.subnet(ips.last()@) == subnet {
                rest.push(ips.last())
            } else {
                rest
            }
        }
    }

    /// The groups by subnet of `ips` at `now`: each is the whole group of
    /// the subnet of its first address, no subnet twice, and each address
    /// not blocked is in the group of its subnet.
    pub open spec fn are_subnet_groups(
        self,
        ips: Seq<IpAddrWithPort>,
        now: u64,
        groups: Seq<Seq<IpAddrWithPort>>,
    ) -> bool {
        &&& forall|g: int|
            0 <= g < groups.len() ==> #[trigger] groups[g].len() > 0 && groups[g] == self.group(
                ips,
                now,
                self.subnet(groups[g][0]@),
            )
        &&& forall|g: int, h: int|
            0 <= g < h < groups.len() ==> self.subnet(#[trigger] groups[g][0]@) != self.subnet(
                #[trigger] groups[h][0]@,
            )
        &&& forall|m: int|
            0 <= m < ips.len() && !self.is_blocked(#[trigger] ips[m]@, now) ==> exists|g: int|
                0 <= g < groups.len() && self.subnet(#[trigger] groups[g][0]@) == self.subnet(
                    ips[m]@,
                )
    }

    /// The blacklist after a shrink at `now`: the entries that expired are
    /// gone.
    pub open spec fn shrunk_at(self, now: u64, key: AddrView) -> Option<u64> {
        match self.blocked_at(key) {
            Some(t) => if elapsed(t, now) < self.block_duration_ms() {
                Some(t)
            } else {
                None
            },
            None => None,
        }
    }

    proof fn lemma_group_member(self, ips: Seq<IpAddrWithPort>, now: u64, subnet: AddrView)
        ensures
            self.group(ips, now, subnet).len() > 0 ==> exists|m: int|
                0 <= m < ips.len() && !self.is_blocked(ips[m]@, now) && self.subnet(ips[m]@) == subnet,
        decreases ips.len(),
    {
        if ips.len() > 0 {
            let rest = ips.drop_last();
            self.lemma_group_member(rest, now, subnet);
            if self.group(rest, now, subnet).len() > 0 {
                let m = choose|m: int|
                    0 <= m < rest.len() && !self.is_blocked(rest[m]@, now) && self.subnet(rest[m]@) == subnet;
                assert(ips[m] == rest[m]);
            } else {
                assert(ips.last() == ips[ips.len() - 1]);
            }
        }
    }

    /// A chooser with the default settings: block for 30 s, shrink every
    /// 120 s, IPv4 subnets of /24 and IPv6 subnets of /64.
    pub fn new() -> (c: Self)
        ensures
            c.block_duration_ms() == 30_000,
            c.shrink_interval_ms() == 120_000,
            c.ipv4_prefix() == 24,
            c.ipv6_prefix() == 64,
            c.last_shrink() == 0,
            forall|k: AddrView| c.blocked_at(k) == None::<u64>,
    {
        SubnetChooser::builder().build()
    }

    /// A builder with the default settings.
    pub fn builder() -> (b: SubnetChooserBuilder)
        ensures
            b.block_duration_ms() == 30_000,
            b.shrink_interval_ms() == 120_000,
            b.ipv4_prefix() == 24,
            b.ipv6_prefix() == 64,
    {
        SubnetChooserBuilder {
            block_duration: 30_000,
            shrink_interval: 120_000,
            ipv4_netmask_prefix_length: 24,
            ipv6_netmask_prefix_length: 64,
        }
    }

    /// Entries in the blacklist.
    pub fn len(&self) -> (n: usize)
        ensures
            n == self.entry_count(),
            n == 0 <==> forall|k: AddrView| #[trigger] self.blocked_at(k) is None,
    {
        proof {
            use_type_invariant(self);
            if self.blacklist@.len() > 0 {
                lemma_lookup_at(self.blacklist@, 0);
                assert(self.blocked_at(self.blacklist@[0].0@) is Some);
            } else {
                assert forall|k: AddrView| #[trigger] self.blocked_at(k) is None by {
                    assert(lookup(self.blacklist@, k) == None::<u64>);
                }
            }
        }
        self.blacklist.len()
    }

    /// The network address of `addr`, with its port.
    pub fn get_network_address(&self, addr: IpAddrWithPort) -> (s: IpAddrWithPort)
        ensures
            s@ == self.subnet(addr@),
    {
        proof {
            use_type_invariant(self);
        }
        let v4 = self.ipv4_netmask_prefix_length;
        let v6 = self.ipv6_netmask_prefix_length;
        let ip = match addr.ip_addr() {
            IpAddr::V4(a, b, c, d) => IpAddr::V4(
                mask_u8(a, keep_count(v4, 0, 8)),
                mask_u8(b, keep_count(v4, 8, 8)),
                mask_u8(c, keep_count(v4, 16, 8)),
                mask_u8(d, keep_count(v4, 24, 8)),
            ),
            IpAddr::V6(a, b, c, d, e, f, g, h) => IpAddr::V6(
                mask_u16(a, keep_count(v6, 0, 16)),
                mask_u16(b, keep_count(v6, 16, 16)),
                mask_u16(c, keep_count(v6, 32, 16)),
                mask_u16(d, keep_count(v6, 48, 16)),
                mask_u16(e, keep_count(v6, 64, 16)),
                mask_u16(f, keep_count(v6, 80, 16)),
                mask_u16(g, keep_count(v6, 96, 16)),
                mask_u16(h, keep_count(v6, 112, 16)),
            ),
        };
        IpAddrWithPort::new(ip, addr.port())
    }

    /// When `key` was blocked, where it is in the blacklist.
    fn find_blocked(&self, key: IpAddrWithPort) -> (r: Option<u64>)
        ensures
            r == self.blocked_at(key@),
    {
        proof {
            use_type_invariant(self);
        }
        let mut i: usize = 0;
        while i < self.blacklist.len()
            invariant
                i <= self.blacklist.len(),
                distinct_keys(self.blacklist@),
                forall|j: int| 0 <= j < i ==> #[trigger] self.blacklist@[j].0@ != key@,
            decreases self.blacklist.len() - i,
        {
            let entry = self.blacklist[i];
            if same_addr(entry.0, key) {
                proof {
                    lemma_lookup_at(self.blacklist@, i as int);
                }
                return Some(entry.1);
            }
            i = i + 1;
        }
        proof {
            lemma_lookup_absent(self.blacklist@, key@);
        }
        None
    }

    /// Groups `ips` by subnet, leaving out those blocked at `now`; says too
    /// whether an entry of the blacklist for one of them expired.
    pub fn subnet_groups(&self, ips: &[IpAddrWithPort], now: u64) -> (r: (
        Vec<Vec<IpAddrWithPort>>,
        bool,
    ))
        ensures
            self.are_subnet_groups(ips@, now, r.0@.map_values(|g: Vec<IpAddrWithPort>| g@)),
            r.1 == exists|m: int| 0 <= m < ips.len() && self.is_expired(#[trigger] ips[m]@, now),
    {
        let mut groups: Vec<Vec<IpAddrWithPort>> = Vec::new();
        let mut need_to_shrink = false;
        let mut i: usize = 0;
        while i < ips.len()
            invariant
                i <= ips.len(),
                self.are_subnet_groups(
                    ips@.take(i as int),
                    now,
                    groups@.map_values(|g: Vec<IpAddrWithPort>| g@),
                ),
                need_to_shrink == exists|m: int| 0 <= m < i && self.is_expired(#[trigger] ips[m]@, now),
            decreases ips.len() - i,
        {
            let ip = ips[i];
            let ghost prefix = ips@.take(i as int);
            let ghost next = ips@.take(i as int + 1);
            let ghost old_groups = groups@.map_values(|g: Vec<IpAddrWithPort>| g@);
            proof {
                lemma_take_push(ips@, i as int);
            }
            let blocked = match self.find_blocked(ip) {
                Some(t) => {
                    let elapsed_ms = if now >= t {
                        now - t
                    } else {
                        0
                    };
                    if elapsed_ms < self.block_duration {
                        true
                    } else {
                        need_to_shrink = true;
                        false
                    }
                },
                None => false,
            };
            assert(blocked == self.is_blocked(ip@, now));
            if blocked {
                proof {
                    assert forall|x: AddrView| #[trigger] self.group(next, now, x) == self.group(prefix, now, x) by {}
                }
            } else {
                let subnet = self.get_network_address(ip);
                let mut g: usize = 0;
                let mut found = false;
                assert forall|h: int| 0 <= h < groups.len() implies #[trigger] groups@[h]@.len() > 0 by {
                    assert(old_groups[h] == groups@[h]@);
                }
                while g < groups.len()
                    invariant_except_break
                        g <= groups.len(),
                        !found,
                        forall|h: int| 0 <= h < g ==> self.subnet(#[trigger] groups@[h]@[0]@) != subnet@,
                    invariant
                        groups@.map_values(|v: Vec<IpAddrWithPort>| v@) == old_groups,
                        forall|h: int| 0 <= h < groups.len() ==> #[trigger] groups@[h]@.len() > 0,
                    ensures
                        found ==> g < groups.len() && self.subnet(groups@[g as int]@[0]@) == subnet@,
                        !found ==> forall|h: int| 0 <= h < groups.len() ==> self.subnet(#[trigger] groups@[h]@[0]@) != subnet@,
                    decreases groups.len() - g,
                {
                    let first = groups[g][0];
                    let first_subnet = self.get_network_address(first);
                    if same_addr(first_subnet, subnet) {
                        assert(first == groups@[g as int]@[0]);
                        found = true;
                        break;
                    }
                    g = g + 1;
                }
                if found {
                    let mut members: Vec<IpAddrWithPort> = Vec::new();
                    groups.set_and_swap(g, &mut members);
                    let ghost before = members@;
                    members.push(ip);
                    groups.set_and_swap(g, &mut members);
                    proof {
                        let ng = groups@.map_values(|v: Vec<IpAddrWithPort>| v@);
                        assert(ng =~= old_groups.update(g as int, old_groups[g as int].push(ip)));
                        assert(before == old_groups[g as int]);
                        assert(ng[g as int][0] == old_groups[g as int][0]);
                        assert forall|h: int| 0 <= h < ng.len() implies #[trigger] ng[h].len() > 0
                            && ng[h] == self.group(next, now, self.subnet(ng[h][0]@)) by {
                            if h != g {
                                assert(ng[h] == old_groups[h]);
                                if h < g {
                                    assert(self.subnet(old_groups[h][0]@) != self.subnet(old_groups[g as int][0]@));
                                } else {
                                    assert(self.subnet(old_groups[g as int][0]@) != self.subnet(old_groups[h][0]@));
                                }
                            }
                        }
                        assert forall|a: int, b: int| 0 <= a < b < ng.len() implies self.subnet(
                            #[trigger] ng[a][0]@) != self.subnet(#[trigger] ng[b][0]@) by {
                            assert(ng[a][0] == old_groups[a][0]);
                            assert(ng[b][0] == old_groups[b][0]);
                        }
                        assert forall|m: int| 0 <= m < next.len() && !self.is_blocked(#[trigger] next[m]@, now)
                            implies exists|h: int| 0 <= h < ng.len() && self.subnet(#[trigger] ng[h][0]@) == self.subnet(next[m]@) by {
                            if m < prefix.len() {
                                assert(next[m] == prefix[m]);
                                let h = choose|h: int| 0 <= h < old_groups.len() && self.subnet(#[trigger] old_groups[h][0]@) == self.subnet(prefix[m]@);
                                assert(ng[h][0] == old_groups[h][0]);
                            } else {
                                assert(next[m] == ip);
                                assert(ng[g as int][0] == old_groups[g as int][0]);
                            }
                        }
                    }
                } else {
                    let mut members: Vec<IpAddrWithPort> = Vec::new();
                    members.push(ip);
                    groups.push(members);
                    proof {
                        let ng = groups@.map_values(|v: Vec<IpAddrWithPort>| v@);
                        assert(ng =~= old_groups.push(seq![ip]));
                        self.lemma_group_member(prefix, now, subnet@);
                        if self.group(prefix, now, subnet@).len() > 0 {
                            let m = choose|m: int| 0 <= m < prefix.len() && !self.is_blocked(prefix[m]@, now)
                                && self.subnet(prefix[m]@) == subnet@;
                            let h = choose|h: int| 0 <= h < old_groups.len() && self.subnet(#[trigger] old_groups[h][0]@) == self.subnet(prefix[m]@);
                            assert(old_groups[h] == groups@[h]@);
                            assert(false);
                        }
                        assert(self.group(prefix, now, subnet@) =~= seq![]);
                        assert forall|h: int| 0 <= h < ng.len() implies #[trigger] ng[h].len() > 0
                            && ng[h] == self.group(next, now, self.subnet(ng[h][0]@)) by {
                            if h < old_groups.len() {
                                assert(ng[h] == old_groups[h]);
                                assert(old_groups[h] == groups@[h]@);
                            } else {
                                assert(ng[h] =~= seq![ip]);
                                assert(self.group(next, now, subnet@) =~= seq![ip]);
                            }
                        }
                        assert forall|a: int, b: int| 0 <= a < b < ng.len() implies self.subnet(
                            #[trigger] ng[a][0]@) != self.subnet(#[trigger] ng[b][0]@) by {
                            assert(ng[a][0] == old_groups[a][0]);
                            if b < old_groups.len() {
                                assert(ng[b][0] == old_groups[b][0]);
                            } else {
                                assert(old_groups[a] == groups@[a]@);
                            }
                        }
                        assert forall|m: int| 0 <= m < next.len() && !self.is_blocked(#[trigger] next[m]@, now)
                            implies exists|h: int| 0 <= h < ng.len() && self.subnet(#[trigger] ng[h][0]@) == self.subnet(next[m]@) by {
                            if m < prefix.len() {
                                assert(next[m] == prefix[m]);
                                let h = choose|h: int| 0 <= h < old_groups.len() && self.subnet(#[trigger] old_groups[h][0]@) == self.subnet(prefix[m]@);
                                assert(ng[h][0] == old_groups[h][0]);
                            } else {
                                assert(next[m] == ip);
                                assert(ng[old_groups.len() as int][0] == ip);
                            }
                        }
                    }
                }
            }
            i = i + 1;
        }
        proof {
            assert(ips@.take(ips.len() as int) =~= ips@);
        }
        (groups, need_to_shrink)
    }
}

impl SubnetChooser {
    /// The settings of two choosers are the same.
    pub closed spec fn same_settings(self, other: SubnetChooser) -> bool {
        &&& self.block_duration == other.block_duration
        &&& self.shrink_interval == other.shrink_interval
        &&& self.ipv4_netmask_prefix_length == other.ipv4_netmask_prefix_length
        &&& self.ipv6_netmask_prefix_length == other.ipv6_netmask_prefix_length
    }

    /// Two choosers with the same settings block for as long, shrink as
    /// often and group by the same subnets.
    pub proof fn lemma_same_settings(self, other: SubnetChooser)
        requires
            self.same_settings(other),
        ensures
            self.block_duration_ms() == other.block_duration_ms(),
            self.shrink_interval_ms() == other.shrink_interval_ms(),
            self.ipv4_prefix() == other.ipv4_prefix(),
            self.ipv6_prefix() == other.ipv6_prefix(),
            forall|k: AddrView| #[trigger] self.subnet(k) == other.subnet(k),
    {
    }

    /// Some address of `ips` has a blacklist entry that expired at `now`.
    pub open spec fn has_expired(self, ips: Seq<IpAddrWithPort>, now: u64) -> bool {
        exists|m: int| 0 <= m < ips.len() && self.is_expired(#[trigger] ips[m]@, now)
    }

    /// The blacklist is shrunk at `now` when an expired entry was met and
    /// the shrink interval has passed since the last shrink.
    pub open spec fn shrinks(self, ips: Seq<IpAddrWithPort>, now: u64) -> bool {
        self.has_expired(ips, now) && elapsed(self.last_shrink(), now) >= self.shrink_interval_ms()
    }

    /// Drops the blacklist entries that expired at `now`.
    fn shrink(&mut self, now: u64)
        ensures
            forall|k: AddrView| #[trigger] final(self).blocked_at(k) == old(self).shrunk_at(now, k),
            final(self).last_shrink() == now,
            final(self).same_settings(*old(self)),
    {
        proof {
            use_type_invariant(&*self);
        }
        let kept = unexpired_entries(&self.blacklist, now, self.block_duration);
        proof {
            lemma_kept_entries(self.blacklist@, unexpired(now, self.block_duration as nat));
        }
        self.blacklist = kept;
        self.last_shrink_at = now;
    }

    /// Blocks `key` from `now` on, or lifts its block.
    fn set_blocked(&mut self, key: IpAddrWithPort, block: bool, now: u64)
        ensures
            forall|k: AddrView| #[trigger] final(self).blocked_at(k) == if k == key@ {
                if block {
                    Some(now)
                } else {
                    None
                }
            } else {
                old(self).blocked_at(k)
            },
            final(self).last_shrink() == old(self).last_shrink(),
            final(self).same_settings(*old(self)),
    {
        proof {
            use_type_invariant(&*self);
        }
        let ghost old_bl = self.blacklist@;
        let mut kept = entries_without(&self.blacklist, key);
        let ghost keep = other_than(key@);
        let ghost removed = kept@;
        proof {
            lemma_kept_entries(self.blacklist@, keep);
        }
        if block {
            let ghost before = kept@;
            kept.push((key, now));
            proof {
                assert forall|i: int| 0 <= i < before.len() implies #[trigger] before[i].0@ != key@ by {
                    let j = choose|j: int| 0 <= j < self.blacklist@.len() && before[i] == self.blacklist@[j];
                }
                assert forall|a: int, b: int| 0 <= a < b < kept@.len() implies #[trigger] kept@[a].0@
                    != #[trigger] kept@[b].0@ by {
                    if b == before.len() {
                        assert(kept@[a] == before[a]);
                    } else {
                        assert(kept@[a] == before[a] && kept@[b] == before[b]);
                    }
                }
                assert(kept@.drop_last() == before);
            }
        }
        self.blacklist = kept;
        proof {
            assert forall|k: AddrView| #[trigger] lookup(self.blacklist@, k) == if k == key@ {
                if block {
                    Some(now)
                } else {
                    None
                }
            } else {
                lookup(old_bl, k)
            } by {
                assert(lookup(removed, k) == match lookup(old_bl, k) {
                    Some(t) => if keep(k, t) {
                        Some(t)
                    } else {
                        None
                    },
                    None => None,
                });
                if block {
                    assert(self.blacklist@.drop_last() == removed);
                    assert(self.blacklist@.last() == (key, now));
                }
            }
        }
    }

    /// Blocks the addresses of a request that failed at `now`, or lifts the
    /// block of those of a request that succeeded.
    pub fn feedback_at(&mut self, ips: &[IpAddrWithPort], failed: bool, now: u64)
        ensures
            forall|k: AddrView| #[trigger] final(self).blocked_at(k) == if in_addrs(ips@, k) {
                if failed {
                    Some(now)
                } else {
                    None
                }
            } else {
                old(self).blocked_at(k)
            },
            final(self).last_shrink() == old(self).last_shrink(),
            final(self).same_settings(*old(self)),
    {
        let mut i: usize = 0;
        while i < ips.len()
            invariant
                i <= ips.len(),
                forall|k: AddrView| #[trigger] self.blocked_at(k) == if in_addrs(ips@.take(i as int), k) {
                    if failed {
                        Some(now)
                    } else {
                        None
                    }
                } else {
                    old(self).blocked_at(k)
                },
                self.last_shrink() == old(self).last_shrink(),
                self.same_settings(*old(self)),
            decreases ips.len() - i,
        {
            proof {
                lemma_take_push(ips@, i as int);
            }
            self.set_blocked(ips[i], failed, now);
            proof {
                let next = ips@.take(i as int + 1);
                let prefix = ips@.take(i as int);
                assert forall|k: AddrView| in_addrs(next, k) == (in_addrs(prefix, k) || k == ips@[i as int]@) by {
                    if in_addrs(next, k) {
                        let m = choose|m: int| 0 <= m < next.len() && next[m]@ == k;
                        if m < prefix.len() {
                            assert(prefix[m] == next[m]);
                        }
                    }
                    if in_addrs(prefix, k) {
                        let m = choose|m: int| 0 <= m < prefix.len() && prefix[m]@ == k;
                        assert(prefix[m] == next[m]);
                    }
                    if k == ips@[i as int]@ {
                        assert(next[i as int] == ips@[i as int]);
                    }
                }
            }
            i = i + 1;
        }
        proof {
            assert(ips@.take(ips.len() as int) =~= ips@);
        }
    }

    /// Chooses the addresses of one subnet of `ips` that are not blocked at
    /// `now`, at random among the subnets; shrinks the blacklist where it is
    /// time to.
    pub fn choose_at(&mut self, ips: &[IpAddrWithPort], now: u64) -> (r: Vec<IpAddrWithPort>)
        ensures
            r.len() == 0 <==> forall|m: int| 0 <= m < ips.len() ==> old(self).is_blocked(#[trigger] ips[m]@, now),
            r.len() > 0 ==> r@ == old(self).group(ips@, now, old(self).subnet(r[0]@)),
            forall|k: AddrView| #[trigger] final(self).blocked_at(k) == if old(self).shrinks(ips@, now) {
                old(self).shrunk_at(now, k)
            } else {
                old(self).blocked_at(k)
            },
            final(self).last_shrink() == if old(self).shrinks(ips@, now) {
                now
            } else {
                old(self).last_shrink()
            },
            final(self).same_settings(*old(self)),
    {
        let (mut groups, need_to_shrink) = self.subnet_groups(ips, now);
        let ghost gs = groups@.map_values(|g: Vec<IpAddrWithPort>| g@);
        let chosen = if groups.len() == 0 {
            proof {
                assert forall|m: int| 0 <= m < ips.len() implies self.is_blocked(#[trigger] ips[m]@, now) by {
                    if !self.is_blocked(ips[m]@, now) {
                        let g = choose|g: int| 0 <= g < gs.len() && self.subnet(#[trigger] gs[g][0]@) == self.subnet(ips[m]@);
                    }
                }
            }
            Vec::new()
        } else {
            let pick = random_index(groups.len());
            let chosen = groups.swap_remove(pick);
            proof {
                assert(chosen@ == gs[pick as int]);
                let m = 0int;
                let first = chosen@[0];
                self.lemma_group_member(ips@, now, self.subnet(first@));
            }
            chosen
        };
        let elapsed_ms = if now >= self.last_shrink_at {
            now - self.last_shrink_at
        } else {
            0
        };
        if need_to_shrink && elapsed_ms >= self.shrink_interval {
            self.shrink(now);
        }
        chosen
    }
}

impl SubnetChooser {
    /// A group holds only addresses of `ips` that are not blocked and that
    /// lie in its subnet: the chooser never hands out a blocked address.
    pub proof fn group_holds_only_unblocked_addresses_of_its_subnet(
        self,
        ips: Seq<IpAddrWithPort>,
        now: u64,
        subnet: AddrView,
    )
        ensures
            forall|i: int|
                0 <= i < self.group(ips, now, subnet).len() ==> {
                    let a = #[trigger] self.group(ips, now, subnet)[i];
                    &&& ips.contains(a)
                    &&& !self.is_blocked(a@, now)
                    &&& self.subnet(a@) == subnet
                },
        decreases ips.len(),
    {
        if ips.len() > 0 {
            let rest = ips.drop_last();
            self.group_holds_only_unblocked_addresses_of_its_subnet(rest, now, subnet);
            let g = self.group(ips, now, subnet);
            let gr = self.group(rest, now, subnet);
            assert forall|i: int| 0 <= i < g.len() implies {
                let a = #[trigger] g[i];
                &&& ips.contains(a)
                &&& !self.is_blocked(a@, now)
                &&& self.subnet(a@) == subnet
            } by {
                if i < gr.len() {
                    assert(g[i] == gr[i]);
                    let j = choose|j: int| 0 <= j < rest.len() && rest[j] == gr[i];
                    assert(ips[j] == rest[j]);
                } else {
                    assert(g[i] == ips.last());
                    assert(ips[ips.len() - 1] == ips.last());
                }
            }
        }
    }
}

impl SubnetChooser {
    /// A block that has not run out survives a choice: where `a` is blocked
    /// at `now`, it is still blocked at `now` in the chooser that choosing
    /// at `now` leaves (whether or not the blacklist was shrunk), so the
    /// next choice does not hand it out either.
    pub proof fn choosing_keeps_running_blocks(
        self,
        after: SubnetChooser,
        ips: Seq<IpAddrWithPort>,
        now: u64,
        a: AddrView,
    )
        requires
            forall|k: AddrView| #[trigger] after.blocked_at(k) == if self.shrinks(ips, now) {
                self.shrunk_at(now, k)
            } else {
                self.blocked_at(k)
            },
            after.same_settings(self),
            self.is_blocked(a, now),
        ensures
            after.is_blocked(a, now),
    {
        after.lemma_same_settings(self);
        assert(after.blocked_at(a) == self.blocked_at(a));
    }

    /// Blocks from several reports add up: a report leaves the block of
    /// every address that it does not name, so where `a` is blocked at
    /// `now` before such a report, it is still blocked at `now` after it.
    pub proof fn reports_keep_the_blocks_of_other_addresses(
        self,
        after: SubnetChooser,
        ips: Seq<IpAddrWithPort>,
        failed: bool,
        t: u64,
        now: u64,
        a: AddrView,
    )
        requires
            forall|k: AddrView| #[trigger] after.blocked_at(k) == if in_addrs(ips, k) {
                if failed {
                    Some(t)
                } else {
                    None
                }
            } else {
                self.blocked_at(k)
            },
            after.same_settings(self),
            !in_addrs(ips, a),
            self.is_blocked(a, now),
        ensures
            after.is_blocked(a, now),
    {
        after.lemma_same_settings(self);
        assert(after.blocked_at(a) == self.blocked_at(a));
    }

    /// A failure report blocks each reported address for the block
    /// duration: right after reporting a failure at `t`, each address of
    /// `ips` is blocked at every `now` from `t` until `t` plus the block
    /// duration (where that is more than 0).
    pub proof fn reported_failures_block_for_the_duration(
        self,
        after: SubnetChooser,
        ips: Seq<IpAddrWithPort>,
        t: u64,
        now: u64,
        a: IpAddrWithPort,
    )
        requires
            forall|k: AddrView| #[trigger] after.blocked_at(k) == if in_addrs(ips, k) {
                Some(t)
            } else {
                self.blocked_at(k)
            },
            after.same_settings(self),
            ips.contains(a),
            t <= now,
            now - t < self.block_duration_ms(),
        ensures
            after.is_blocked(a@, now),
            forall|subnet: AddrView, more: Seq<IpAddrWithPort>| !(#[trigger] after.group(more, now, subnet)).contains(a),
    {
        after.lemma_same_settings(self);
        let m = choose|m: int| 0 <= m < ips.len() && ips[m] == a;
        assert(in_addrs(ips, a@));
        assert(after.blocked_at(a@) == Some(t));
        assert forall|subnet: AddrView, more: Seq<IpAddrWithPort>| !(#[trigger] after.group(
            more,
            now,
            subnet,
        )).contains(a) by {
            after.group_holds_only_unblocked_addresses_of_its_subnet(more, now, subnet);
            if after.group(more, now, subnet).contains(a) {
                let i = choose|i: int| 0 <= i < after.group(more, now, subnet).len() && after.group(more, now, subnet)[i] == a;
                assert(!after.is_blocked(after.group(more, now, subnet)[i]@, now));
            }
        }
    }
}

impl Chooser for SubnetChooser {
    /// The choice is the unblocked addresses of one subnet of `ips` (none
    /// only where all are blocked); the blacklist is shrunk where it is
    /// time to, and nothing else changes.
    open spec fn chose(&self, before: Self, ips: Seq<IpAddrWithPort>, now: u64, r: Seq<IpAddrWithPort>) -> bool {
        &&& r.len() == 0 <==> forall|m: int| 0 <= m < ips.len() ==> before.is_blocked(#[trigger] ips[m]@, now)
        &&& r.len() > 0 ==> r == before.group(ips, now, before.subnet(r[0]@))
        &&& forall|k: AddrView| #[trigger] self.blocked_at(k) == if before.shrinks(ips, now) {
            before.shrunk_at(now, k)
        } else {
            before.blocked_at(k)
        }
        &&& self.last_shrink() == if before.shrinks(ips, now) {
            now
        } else {
            before.last_shrink()
        }
        &&& self.same_settings(before)
    }

    /// The addresses of a failed request are blocked from `now`, those of a
    /// request that succeeded are unblocked; nothing else changes.
    open spec fn learned(&self, before: Self, ips: Seq<IpAddrWithPort>, failed: bool, now: u64) -> bool {
        &&& forall|k: AddrView| #[trigger] self.blocked_at(k) == if in_addrs(ips, k) {
            if failed {
                Some(now)
            } else {
                None
            }
        } else {
            before.blocked_at(k)
        }
        &&& self.last_shrink() == before.last_shrink()
        &&& self.same_settings(before)
    }

    fn choose_ips(&mut self, ips: &[IpAddrWithPort], now: u64) -> (r: Vec<IpAddrWithPort>) {
        let ghost before = *self;
        let r = self.choose_at(ips, now);
        proof {
            if r.len() > 0 {
                before.group_holds_only_unblocked_addresses_of_its_subnet(
                    ips@,
                    now,
                    before.subnet(r@[0]@),
                );
                assert forall|i: int| 0 <= i < r.len() implies ips@.contains(#[trigger] r[i]) by {
                    assert(r@[i] == before.group(ips@, now, before.subnet(r@[0]@))[i]);
                }
            }
        }
        r
    }

    fn feedback(&mut self, ips: &[IpAddrWithPort], failed: bool, now: u64) {
        self.feedback_at(ips, failed, now)
    }
}

/// Shuffles what another chooser chose.
#[derive(Debug, Clone)]
pub struct ShuffledChooser<C> {
    chooser: C,
}

impl<C> ShuffledChooser<C> {
    /// The wrapped chooser.
    pub closed spec fn inner(self) -> C {
        self.chooser
    }

    /// Shuffles what `chooser` chooses.
    pub fn new(chooser: C) -> (s: Self)
        ensures
            s.inner() == chooser,
    {
        ShuffledChooser { chooser }
    }
}

impl<C: Chooser> Chooser for ShuffledChooser<C> {
    /// The choice holds what the wrapped chooser chose, in some order, and
    /// the wrapped chooser changes as its choice does.
    open spec fn chose(&self, before: Self, ips: Seq<IpAddrWithPort>, now: u64, r: Seq<IpAddrWithPort>) -> bool {
        exists|inner: Seq<IpAddrWithPort>|
            #[trigger] self.inner().chose(before.inner(), ips, now, inner) && r.to_multiset()
                == inner.to_multiset()
    }

    /// The wrapped chooser learns it.
    open spec fn learned(&self, before: Self, ips: Seq<IpAddrWithPort>, failed: bool, now: u64) -> bool {
        self.inner().learned(before.inner(), ips, failed, now)
    }

    fn choose_ips(&mut self, ips: &[IpAddrWithPort], now: u64) -> (r: Vec<IpAddrWithPort>) {
        let mut chosen = self.chooser.choose_ips(ips, now);
        let ghost before = chosen@;
        shuffle_in_place(&mut chosen);
        proof {
            broadcast use vstd::seq_lib::group_to_multiset_ensures;
            assert forall|i: int| 0 <= i < chosen.len() implies ips@.contains(#[trigger] chosen[i]) by {
                assert(chosen@.contains(chosen@[i]));
                assert(chosen@.to_multiset().count(chosen@[i]) > 0);
                assert(before.contains(chosen@[i]));
                let j = choose|j: int| 0 <= j < before.len() && before[j] == chosen@[i];
            }
            assert(self.inner().chose(old(self).inner(), ips@, now, before));
        }
        chosen
    }

    fn feedback(&mut self, ips: &[IpAddrWithPort], failed: bool, now: u64) {
        self.chooser.feedback(ips, failed, now)
    }
}

/// What a shuffled chooser hands out is what the chooser it wraps chose,
/// in some order: the same addresses, each as many times.
pub proof fn shuffled_choice_is_a_permutation_of_the_inner_choice<C: Chooser>(
    after: ShuffledChooser<C>,
    before: ShuffledChooser<C>,
    ips: Seq<IpAddrWithPort>,
    now: u64,
    r: Seq<IpAddrWithPort>,
)
    requires
        after.chose(before, ips, now, r),
    ensures
        exists|inner: Seq<IpAddrWithPort>|
            #[trigger] after.inner().chose(before.inner(), ips, now, inner) && r.to_multiset()
                == inner.to_multiset(),
{
}

/// Some address of `ips` is `key`.
pub open spec fn in_addrs(ips: Seq<IpAddrWithPort>, key: AddrView) -> bool {
    exists|m: int| 0 <= m < ips.len() && ips[m]@ == key
}

/// The entries of `entries` for other addresses than `key`.
fn entries_without(entries: &Vec<(IpAddrWithPort, u64)>, key: IpAddrWithPort) -> (r: Vec<
    (IpAddrWithPort, u64),
>)
    ensures
        r@ == kept_entries(entries@, other_than(key@)),
{
    let ghost keep = other_than(key@);
    let mut r: Vec<(IpAddrWithPort, u64)> = Vec::new();
    let mut i: usize = 0;
    while i < entries.len()
        invariant
            i <= entries.len(),
            r@ == kept_entries(entries@.take(i as int), keep),
            keep == other_than(key@),
        decreases entries.len() - i,
    {
        proof {
            lemma_take_push(entries@, i as int);
        }
        let e = entries[i];
        proof {
            let next = entries@.take(i as int + 1);
            assert(kept_entries(next, keep) == if keep(e.0@, e.1) {
                kept_entries(entries@.take(i as int), keep).push(e)
            } else {
                kept_entries(entries@.take(i as int), keep)
            });
        }
        if !same_addr(e.0, key) {
            r.push(e);
        }
        i = i + 1;
    }
    proof {
        assert(entries@.take(entries.len() as int) =~= entries@);
    }
    r
}

/// The entries of `entries` that have not expired at `now`.
fn unexpired_entries(entries: &Vec<(IpAddrWithPort, u64)>, now: u64, block_duration: u64) -> (r: Vec<
    (IpAddrWithPort, u64),
>)
    ensures
        r@ == kept_entries(entries@, unexpired(now, block_duration as nat)),
{
    let ghost keep = unexpired(now, block_duration as nat);
    let mut r: Vec<(IpAddrWithPort, u64)> = Vec::new();
    let mut i: usize = 0;
    while i < entries.len()
        invariant
            i <= entries.len(),
            r@ == kept_entries(entries@.take(i as int), keep),
            keep == unexpired(now, block_duration as nat),
        decreases entries.len() - i,
    {
        proof {
            lemma_take_push(entries@, i as int);
        }
        let e = entries[i];
        proof {
            let next = entries@.take(i as int + 1);
            assert(kept_entries(next, keep) == if keep(e.0@, e.1) {
                kept_entries(entries@.take(i as int), keep).push(e)
            } else {
                kept_entries(entries@.take(i as int), keep)
            });
        }
        let elapsed_ms = if now >= e.1 {
            now - e.1
        } else {
            0
        };
        if elapsed_ms < block_duration {
            r.push(e);
        }
        i = i + 1;
    }
    proof {
        assert(entries@.take(entries.len() as int) =~= entries@);
    }
    r
}

/// Two addresses with port are the same.
fn same_addr(a: IpAddrWithPort, b: IpAddrWithPort) -> (r: bool)
    ensures
        r == (a@ == b@),
{
    let pa = a.port();
    let pb = b.port();
    let same_port = match (pa, pb) {
        (Some(x), Some(y)) => x == y,
        (None, None) => true,
        _ => false,
    };
    a.ip_addr() == b.ip_addr() && same_port
}

/// How many leading bits of a component the prefix covers.
fn keep_count(prefix: u8, base: u8, width: u8) -> (k: u8)
    requires
        width <= 16,
    ensures
        k == kept_bits(prefix as nat, base as nat, width as nat),
        k <= width,
{
    if prefix <= base {
        0
    } else if prefix - base >= width {
        width
    } else {
        prefix - base
    }
}

/// The `keep` leading bits of an octet.
fn mask_u8(b: u8, keep: u8) -> (r: u8)
    requires
        keep <= 8,
    ensures
        r == high_bits_u8(b, keep as nat),
{
    if keep == 0 {
        0
    } else {
        b & (0xffu8 << (8 - keep))
    }
}

/// The `keep` leading bits of a segment.
fn mask_u16(b: u16, keep: u8) -> (r: u16)
    requires
        keep <= 16,
    ensures
        r == high_bits_u16(b, keep as nat),
{
    if keep == 0 {
        0
    } else {
        b & (0xffffu16 << (16 - keep as u16))
    }
}

/// Builds a subnet chooser.
pub struct SubnetChooserBuilder {
    block_duration: u64,
    shrink_interval: u64,
    ipv4_netmask_prefix_length: u8,
    ipv6_netmask_prefix_length: u8,
}

impl SubnetChooserBuilder {
    /// How long an address stays blocked.
    pub closed spec fn block_duration_ms(self) -> nat {
        self.block_duration as nat
    }

    /// How long between two shrinks of the blacklist.
    pub closed spec fn shrink_interval_ms(self) -> nat {
        self.shrink_interval as nat
    }

    /// The IPv4 netmask prefix length.
    pub closed spec fn ipv4_prefix(self) -> nat {
        self.ipv4_netmask_prefix_length as nat
    }

    /// The IPv6 netmask prefix length.
    pub closed spec fn ipv6_prefix(self) -> nat {
        self.ipv6_netmask_prefix_length as nat
    }

    /// Sets how long, in milliseconds, an address stays blocked.
    pub fn block_duration(self, block_duration: u64) -> (b: Self)
        ensures
            b.block_duration_ms() == block_duration,
            b.shrink_interval_ms() == self.shrink_interval_ms(),
            b.ipv4_prefix() == self.ipv4_prefix(),
            b.ipv6_prefix() == self.ipv6_prefix(),
    {
        SubnetChooserBuilder { block_duration, ..self }
    }

    /// Sets how long, in milliseconds, between two shrinks of the blacklist.
    pub fn shrink_interval(self, shrink_interval: u64) -> (b: Self)
        ensures
            b.block_duration_ms() == self.block_duration_ms(),
            b.shrink_interval_ms() == shrink_interval,
            b.ipv4_prefix() == self.ipv4_prefix(),
            b.ipv6_prefix() == self.ipv6_prefix(),
    {
        SubnetChooserBuilder { shrink_interval, ..self }
    }

    /// Sets the IPv4 netmask prefix length (at most 32).
    pub fn ipv4_netmask_prefix_length(self, ipv4_netmask_prefix_length: u8) -> (b: Self)
        requires
            ipv4_netmask_prefix_length <= 32,
        ensures
            b.block_duration_ms() == self.block_duration_ms(),
            b.shrink_interval_ms() == self.shrink_interval_ms(),
            b.ipv4_prefix() == ipv4_netmask_prefix_length,
            b.ipv6_prefix() == self.ipv6_prefix(),
    {
        SubnetChooserBuilder { ipv4_netmask_prefix_length, ..self }
    }

    /// Sets the IPv6 netmask prefix length (at most 128).
    pub fn ipv6_netmask_prefix_length(self, ipv6_netmask_prefix_length: u8) -> (b: Self)
        requires
            ipv6_netmask_prefix_length <= 128,
        ensures
            b.block_duration_ms() == self.block_duration_ms(),
            b.shrink_interval_ms() == self.shrink_interval_ms(),
            b.ipv4_prefix() == self.ipv4_prefix(),
            b.ipv6_prefix() == ipv6_netmask_prefix_length,
    {
        SubnetChooserBuilder { ipv6_netmask_prefix_length, ..self }
    }

    /// The chooser, with an empty blacklist, built at time 0.
    pub fn build(self) -> (c: SubnetChooser)
        requires
            self.ipv4_prefix() <= 32,
            self.ipv6_prefix() <= 128,
        ensures
            c.block_duration_ms() == self.block_duration_ms(),
            c.shrink_interval_ms() == self.shrink_interval_ms(),
            c.ipv4_prefix() == self.ipv4_prefix(),
            c.ipv6_prefix() == self.ipv6_prefix(),
            c.last_shrink() == 0,
            forall|k: AddrView| c.blocked_at(k) == None::<u64>,
    {
        SubnetChooser {
            blacklist: Vec::new(),
            last_shrink_at: 0,
            block_duration: self.block_duration,
            shrink_interval: self.shrink_interval,
            ipv4_netmask_prefix_length: self.ipv4_netmask_prefix_length,
            ipv6_netmask_prefix_length: self.ipv6_netmask_prefix_length,
        }
    }
}

} // verus!
