//! IP addresses and networks as plain integers, their arithmetic and their
//! textual form.
use vstd::prelude::*;
use crate::text::{append_decimal, append_lower_hex, decimal, lower_hex};

verus! {

/// An IP address: IPv4 as its 32-bit value, IPv6 as its 128-bit value.
#[derive(Clone, Copy, Debug, PartialEq, Eq, Structural)]
pub enum IpAddress {
    V4(u32),
    V6(u128),
}

/// The longest prefix a network of this address family may have.
pub open spec fn max_prefix_len(addr: IpAddress) -> nat {
    match addr {
        IpAddress::V4(_) => 32,
        IpAddress::V6(_) => 128,
    }
}

/// Adding `n` to an address, stopping at the family's largest address.
pub open spec fn spec_saturating_add(addr: IpAddress, n: nat) -> IpAddress {
    match addr {
        IpAddress::V4(x) => IpAddress::V4(
            if x + n > u32::MAX {
                u32::MAX
            } else {
                (x + n) as u32
            },
        ),
        IpAddress::V6(x) => IpAddress::V6(
            if x + n > u128::MAX {
                u128::MAX
            } else {
                (x + n) as u128
            },
        ),
    }
}

/// Refusal of a prefix length longer than the address family allows.
#[derive(Clone, Copy, Debug, PartialEq, Eq, Structural)]
pub struct PrefixLenError;

/// The value of a network: an address and a prefix length.
pub struct IpNetworkView {
    pub addr: IpAddress,
    pub prefix_len: u8,
}

/// An IP network: an address (host bits may be set) and a valid prefix length.
#[derive(Clone, Copy, Debug, PartialEq, Eq)]
pub struct IpNetwork {
    addr: IpAddress,
    prefix_len: u8,
}

impl View for IpNetwork {
    type V = IpNetworkView;

    closed spec fn view(&self) -> IpNetworkView {
        IpNetworkView { addr: self.addr, prefix_len: self.prefix_len }
    }
}

impl IpAddress {
    /// Whether this is an IPv6 address.
    pub fn is_ipv6(&self) -> (r: bool)
        ensures
            r == (*self is V6),
    {
        match self {
            IpAddress::V4(_) => false,
            IpAddress::V6(_) => true,
        }
    }

    /// Adds `n`, saturating at the family's largest address.
    pub fn saturating_add(&self, n: u128) -> (r: IpAddress)
        ensures
            r == spec_saturating_add(*self, n as nat),
    {
        match self {
            IpAddress::V4(x) => {
                if n > (u32::MAX - *x) as u128 {
                    IpAddress::V4(u32::MAX)
                } else {
                    IpAddress::V4(*x + n as u32)
                }
            },
            IpAddress::V6(x) => {
                if n > u128::MAX - *x {
                    IpAddress::V6(u128::MAX)
                } else {
                    IpAddress::V6(*x + n)
                }
            },
        }
    }

    /// The textual form of the address (see `ip_text`).
    pub fn to_text(&self) -> (r: String)
        ensures
            r@ == ip_text(*self),
    {
        let mut r = String::new();
        append_ip(&mut r, *self);
        assert(r@ =~= ip_text(*self));
        r
    }
}

impl IpNetwork {
    #[verifier::type_invariant]
    spec fn prefix_valid(self) -> bool {
        self.prefix_len <= max_prefix_len(self.addr)
    }

    /// A network of `addr` with `prefix_len` bits of prefix; refused when the
    /// prefix is longer than the address family allows (32 or 128 bits).
    pub fn new(addr: IpAddress, prefix_len: u8) -> (r: Result<IpNetwork, PrefixLenError>)
        ensures
            r is Ok <==> prefix_len <= max_prefix_len(addr),
            r matches Ok(net) ==> net@.addr == addr && net@.prefix_len == prefix_len,
    {
        let max: u8 = match addr {
            IpAddress::V4(_) => 32,
            IpAddress::V6(_) => 128,
        };
        if prefix_len > max {
            Err(PrefixLenError)
        } else {
            Ok(IpNetwork { addr, prefix_len })
        }
    }

    /// The network's address.
    pub fn addr(&self) -> (r: IpAddress)
        ensures
            r == self@.addr,
    {
        self.addr
    }

    /// The network's prefix length, which the address family allows.
    pub fn prefix_len(&self) -> (r: u8)
        ensures
            r == self@.prefix_len,
            r <= max_prefix_len(self@.addr),
    {
        proof {
            use_type_invariant(self);
        }
        self.prefix_len
    }

    /// The textual form `address/prefix` (see `network_text`).
    pub fn to_text(&self) -> (r: String)
        ensures
            r@ == network_text(self@),
    {
        let mut r = String::new();
        append_ip(&mut r, self.addr);
        r.append("/");
        append_decimal(&mut r, self.prefix_len as u64);
        assert(r@ =~= network_text(self@));
        r
    }
}

// ---------------------------------------------------------------------------
// Textual form.

/// Dotted-decimal form of an IPv4 address.
pub open spec fn ipv4_text(x: u32) -> Seq<char> {
    decimal((x / 16777216) as nat) + "."@ + decimal(((x / 65536) % 256) as nat) + "."@ + decimal(
        ((x / 256) % 256) as nat,
    ) + "."@ + decimal((x % 256) as nat)
}

/// Divisor that brings the 16-bit group `i` (0 is the most significant) of an
/// IPv6 address to the lowest position.
pub open spec fn group_divisor(i: int) -> nat {
    if i == 0 {
        0x10000000000000000000000000000
    } else if i == 1 {
        0x1000000000000000000000000
    } else if i == 2 {
        0x100000000000000000000
    } else if i == 3 {
        0x10000000000000000
    } else if i == 4 {
        0x1000000000000
    } else if i == 5 {
        0x100000000
    } else if i == 6 {
        0x10000
    } else {
        1
    }
}

/// The eight 16-bit groups of an IPv6 address, most significant first.
pub open spec fn ipv6_groups(x: u128) -> Seq<nat> {
    Seq::new(8, |i: int| (x as nat / group_divisor(i)) % 0x10000)
}

/// Number of consecutive zero groups starting at `i`.
pub open spec fn zero_run(groups: Seq<nat>, i: int) -> nat
    decreases groups.len() - i,
{
    if i < 0 || i >= groups.len() || groups[i] != 0 {
        0
    } else {
        1 + zero_run(groups, i + 1)
    }
}

/// Length of the longest run of zero groups among the first `i` starting points.
pub open spec fn longest_zero_run_upto(groups: Seq<nat>, i: int) -> nat
    decreases i,
{
    if i <= 0 {
        0
    } else {
        let before = longest_zero_run_upto(groups, i - 1);
        let here = zero_run(groups, i - 1);
        if here > before {
            here
        } else {
            before
        }
    }
}

/// First index at or after `j` where a zero run of length `len` starts.
pub open spec fn first_run_of(groups: Seq<nat>, j: int, len: nat) -> int
    decreases groups.len() - j,
{
    if j < 0 || j >= groups.len() {
        groups.len() as int
    } else if zero_run(groups, j) == len {
        j
    } else {
        first_run_of(groups, j + 1, len)
    }
}

/// Groups in lower-case hexadecimal separated by `:`.
pub open spec fn hex_groups_text(groups: Seq<nat>) -> Seq<char>
    decreases groups.len(),
{
    if groups.len() == 0 {
        seq![]
    } else if groups.len() == 1 {
        lower_hex(groups[0])
    } else {
        hex_groups_text(groups.drop_last()) + ":"@ + lower_hex(groups.last())
    }
}

/// Whether the address is an IPv4-mapped IPv6 address (`::ffff:a.b.c.d`).
pub open spec fn is_ipv4_mapped(x: u128) -> bool {
    let g = ipv6_groups(x);
    &&& g[0] == 0
    &&& g[1] == 0
    &&& g[2] == 0
    &&& g[3] == 0
    &&& g[4] == 0
    &&& g[5] == 0xffff
}

/// Textual form of an IPv6 address: IPv4-mapped addresses as `::ffff:` and
/// the dotted IPv4 form; otherwise lower-case groups with the first longest
/// run of at least two zero groups written as `::`.
pub open spec fn ipv6_text(x: u128) -> Seq<char> {
    let g = ipv6_groups(x);
    if is_ipv4_mapped(x) {
        "::ffff:"@ + ipv4_text((x % 0x100000000) as u32)
    } else {
        let len = longest_zero_run_upto(g, 8);
        if len > 1 {
            let start = first_run_of(g, 0, len);
            hex_groups_text(g.subrange(0, start)) + "::"@ + hex_groups_text(
                g.subrange(start + len, 8),
            )
        } else {
            hex_groups_text(g)
        }
    }
}

/// Textual form of an address.
pub open spec fn ip_text(a: IpAddress) -> Seq<char> {
    match a {
        IpAddress::V4(x) => ipv4_text(x),
        IpAddress::V6(x) => ipv6_text(x),
    }
}

/// Textual form of a network: address, `/`, prefix length.
pub open spec fn network_text(n: IpNetworkView) -> Seq<char> {
    ip_text(n.addr) + "/"@ + decimal(n.prefix_len as nat)
}

fn append_ipv4(out: &mut String, x: u32)
    ensures
        final(out)@ == old(out)@ + ipv4_text(x),
{
    append_decimal(out, (x / 16777216) as u64);
    out.append(".");
    append_decimal(out, ((x / 65536) % 256) as u64);
    out.append(".");
    append_decimal(out, ((x / 256) % 256) as u64);
    out.append(".");
    append_decimal(out, (x % 256) as u64);
    assert(final(out)@ =~= old(out)@ + ipv4_text(x));
}

fn group_divisor_exec(i: usize) -> (d: u128)
    requires
        i < 8,
    ensures
        d == group_divisor(i as int),
        d > 0,
{
    if i == 0 {
        0x10000000000000000000000000000
    } else if i == 1 {
        0x1000000000000000000000000
    } else if i == 2 {
        0x100000000000000000000
    } else if i == 3 {
        0x10000000000000000
    } else if i == 4 {
        0x1000000000000
    } else if i == 5 {
        0x100000000
    } else if i == 6 {
        0x10000
    } else {
        1
    }
}

fn groups_of(x: u128) -> (g: Vec<u64>)
    ensures
        g@.len() == 8,
        forall|i: int| 0 <= i < 8 ==> g@[i] as nat == #[trigger] ipv6_groups(x)[i],
{
    let mut g: Vec<u64> = Vec::new();
    let mut i: usize = 0;
    while i < 8
        invariant
            i <= 8,
            g@.len() == i,
            forall|k: int| 0 <= k < i ==> g@[k] as nat == #[trigger] ipv6_groups(x)[k],
        decreases 8 - i,
    {
        let d = group_divisor_exec(i);
        let v = ((x / d) % 0x10000) as u64;
        g.push(v);
        i = i + 1;
    }
    g
}

proof fn lemma_first_run_of(groups: Seq<nat>, j: int, s: int, len: nat)
    requires
        0 <= j <= s < groups.len(),
        zero_run(groups, s) == len,
        forall|k: int| j <= k < s ==> zero_run(groups, k) != len,
    ensures
        first_run_of(groups, j, len) == s,
    decreases s - j,
{
    if j < s {
        lemma_first_run_of(groups, j + 1, s, len);
    }
}

proof fn lemma_zero_run_bound(groups: Seq<nat>, i: int)
    requires
        0 <= i <= groups.len(),
    ensures
        zero_run(groups, i) <= groups.len() - i,
        forall|k: int| i <= k < i + zero_run(groups, i) ==> groups[k] == 0,
    decreases groups.len() - i,
{
    if i < groups.len() && groups[i] == 0 {
        lemma_zero_run_bound(groups, i + 1);
    }
}

fn append_hex_groups(out: &mut String, g: &Vec<u64>, lo: usize, hi: usize, Ghost(groups): Ghost<Seq<nat>>)
    requires
        lo <= hi <= g@.len(),
        g@.len() == groups.len(),
        forall|i: int| 0 <= i < g@.len() ==> g@[i] as nat == #[trigger] groups[i],
    ensures
        final(out)@ == old(out)@ + hex_groups_text(groups.subrange(lo as int, hi as int)),
{
    let ghost start = out@;
    let mut i = lo;
    while i < hi
        invariant
            lo <= i <= hi,
            hi <= g@.len(),
            g@.len() == groups.len(),
            forall|k: int| 0 <= k < g@.len() ==> g@[k] as nat == #[trigger] groups[k],
            out@ == start + hex_groups_text(groups.subrange(lo as int, i as int)),
        decreases hi - i,
    {
        let ghost before = groups.subrange(lo as int, i as int);
        let ghost after = groups.subrange(lo as int, i + 1);
        assert(after.drop_last() =~= before);
        assert(after.last() == groups[i as int]);
        if i > lo {
            out.append(":");
        }
        append_lower_hex(out, g[i]);
        proof {
            if i == lo {
                assert(before =~= Seq::<nat>::empty());
                assert(hex_groups_text(after) == lower_hex(after[0]));
            }
        }
        i = i + 1;
    }
}

fn append_ipv6(out: &mut String, x: u128)
    ensures
        final(out)@ == old(out)@ + ipv6_text(x),
{
    let ghost groups = ipv6_groups(x);
    let g = groups_of(x);
    if g[0] == 0 && g[1] == 0 && g[2] == 0 && g[3] == 0 && g[4] == 0 && g[5] == 0xffff {
        out.append("::ffff:");
        append_ipv4(out, (x % 0x100000000) as u32);
        assert(final(out)@ =~= old(out)@ + ipv6_text(x));
        return;
    }
    // zero runs, computed from the back
    let mut runs: Vec<u64> = Vec::new();
    let mut k: usize = 0;
    while k < 9
        invariant
            k <= 9,
            runs@.len() == k,
            forall|m: int| 0 <= m < k ==> runs@[m] == 0,
        decreases 9 - k,
    {
        runs.push(0);
        k = k + 1;
    }
    let mut i: usize = 8;
    while i > 0
        invariant
            i <= 8,
            runs@.len() == 9,
            g@.len() == 8,
            groups.len() == 8,
            forall|m: int| 0 <= m < 8 ==> g@[m] as nat == #[trigger] groups[m],
            forall|m: int| i <= m <= 8 ==> runs@[m] as nat == #[trigger] zero_run(groups, m),
            forall|m: int| 0 <= m <= 8 ==> runs@[m] <= 8,
        decreases i,
    {
        i = i - 1;
        proof {
            lemma_zero_run_bound(groups, i as int);
            assert(g@[i as int] as nat == groups[i as int]);
            assert(runs@[i + 1] as nat == zero_run(groups, i + 1));
        }
        if g[i] == 0 {
            let v = runs[i + 1] + 1;
            runs.set(i, v);
        } else {
            runs.set(i, 0);
        }
        assert(runs@[i as int] as nat == zero_run(groups, i as int));
    }
    // the first longest run
    let mut best_len: u64 = 0;
    let mut best_start: usize = 0;
    let mut j: usize = 0;
    while j < 8
        invariant
            j <= 8,
            runs@.len() == 9,
            groups.len() == 8,
            forall|m: int| 0 <= m <= 8 ==> runs@[m] as nat == #[trigger] zero_run(groups, m),
            best_len as nat == longest_zero_run_upto(groups, j as int),
            best_len > 0 ==> best_start < j && zero_run(groups, best_start as int) == best_len,
            best_len > 0 ==> forall|m: int| 0 <= m < best_start ==> zero_run(groups, m) < best_len,
            forall|m: int| 0 <= m < j ==> zero_run(groups, m) <= best_len,
        decreases 8 - j,
    {
        if runs[j] > best_len {
            best_len = runs[j];
            best_start = j;
        }
        j = j + 1;
    }
    if best_len > 1 {
        proof {
            lemma_first_run_of(groups, 0, best_start as int, best_len as nat);
            lemma_zero_run_bound(groups, best_start as int);
        }
        append_hex_groups(out, &g, 0, best_start, Ghost(groups));
        out.append("::");
        append_hex_groups(out, &g, best_start + best_len as usize, 8, Ghost(groups));
    } else {
        append_hex_groups(out, &g, 0, 8, Ghost(groups));
        assert(groups.subrange(0, 8) =~= groups);
    }
    assert(final(out)@ =~= old(out)@ + ipv6_text(x));
}

/// Appends the textual form of an address (see `ip_text`).
pub fn append_ip(out: &mut String, a: IpAddress)
    ensures
        final(out)@ == old(out)@ + ip_text(a),
{
    match a {
        IpAddress::V4(x) => append_ipv4(out, x),
        IpAddress::V6(x) => append_ipv6(out, x),
    }
}

} // verus!
