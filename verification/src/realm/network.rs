//! IP address assignment for the bridges that realms share.
//!
//! A `BridgeAllocator` hands out the addresses of one bridge network. Its
//! state is kept by the caller in a file of lines, each a realm name and
//! the address allocated to it separated by a colon:
//!
//! ```text
//!    realm-a:172.17.0.2
//!    realm-b:172.17.0.3
//! ```
use vstd::prelude::*;

use std::collections::HashSet;

use crate::error::Error;
use crate::strmap::{StrMap, key, pairs_keys_unique, pairs_map};
use crate::text::{
    lemma_decimal, lemma_split_fold_append, lemma_split_fold_plain, lemma_split_fold_sep,
    lemma_split_once_at, split_fold, all_radix_digits, chars_of, decimal, decimal_string, digits_value, is_ascii_digit,
    parse_unsigned, push_char, push_str, spec_is_ascii_digit, spec_parse_unsigned,
    spec_split, spec_split_once, split_char, split_once, strings_view, to_owned_string,
};

verus! {

/// The file in which the allocations on `bridge` are kept:
/// `/run/citadel/realms/network-$bridge`.
pub fn state_file_path(bridge: &str) -> (r: String)
    ensures
        r@ == "/run/citadel/realms/network-"@ + bridge@,
{
    let mut s = to_owned_string("/run/citadel/realms/network-");
    push_str(&mut s, bridge);
    s
}

broadcast use vstd::std_specs::hash::group_hash_axioms;

/// Smallest supported network prefix length.
pub const MIN_MASK: usize = 16;

/// Largest supported network prefix length.
pub const MAX_MASK: usize = 24;

/// Addresses whose last octet is at least this are reserved: they are only
/// handed out on request.
pub const RESERVED_START: u8 = 200;

// ---------------------------------------------------------------------------
// Dotted quad addresses
// ---------------------------------------------------------------------------

/// `s` is the text of one octet of a dotted quad address: one to three
/// decimal digits, no leading zero, a value of at most 255.
pub open spec fn is_octet_text(s: Seq<char>) -> bool {
    &&& 1 <= s.len() <= 3
    &&& all_radix_digits(s, 10)
    &&& !(s.len() > 1 && s[0] == '0')
    &&& digits_value(s, 10) <= 255
}

/// The address written as four dot separated octets, most significant
/// first, as `Ipv4Addr`'s `FromStr` reads it.
pub open spec fn spec_parse_ipv4(s: Seq<char>) -> Option<u32> {
    let p = spec_split(s, '.');
    if p.len() == 4 && is_octet_text(p[0]) && is_octet_text(p[1]) && is_octet_text(p[2])
        && is_octet_text(p[3]) {
        Some(
            (digits_value(p[0], 10) * 0x1000000 + digits_value(p[1], 10) * 0x10000 + digits_value(
                p[2],
                10,
            ) * 0x100 + digits_value(p[3], 10)) as u32,
        )
    } else {
        None
    }
}

/// The dotted quad text of an address, as `Ipv4Addr`'s `Display` writes it.
pub open spec fn ipv4_text(a: u32) -> Seq<char> {
    decimal((a / 0x1000000) as nat) + seq!['.'] + decimal(((a / 0x10000) % 0x100) as nat) + seq![
        '.',
    ] + decimal(((a / 0x100) % 0x100) as nat) + seq!['.'] + decimal((a % 0x100) as nat)
}

/// Reads one octet of a dotted quad.
fn parse_octet(s: &str) -> (r: Option<u32>)
    ensures
        match r {
            Some(n) => is_octet_text(s@) && n as nat == digits_value(s@, 10),
            None => !is_octet_text(s@),
        },
{
    let v = chars_of(s);
    if v.len() < 1 || v.len() > 3 {
        return None;
    }
    if v.len() > 1 && v[0] == '0' {
        return None;
    }
    let mut i: usize = 0;
    while i < v.len()
        invariant
            i <= v.len(),
            v@ == s@,
            forall|j: int| 0 <= j < i ==> spec_is_ascii_digit(#[trigger] v@[j]),
        decreases v.len() - i,
    {
        if !is_ascii_digit(v[i]) {
            return None;
        }
        i += 1;
    }
    assert(all_radix_digits(s@, 10));
    match parse_unsigned(s, 10, 255) {
        Some(n) => {
            assert(spec_parse_unsigned(s@, 10, 255) == Some(n as nat));
            Some(n as u32)
        },
        None => None,
    }
}

/// Parses a dotted quad address.
pub fn parse_ipv4(s: &str) -> (r: Option<u32>)
    ensures
        r == spec_parse_ipv4(s@),
{
    let p = split_char(s, '.');
    if p.len() != 4 {
        return None;
    }
    let a = match parse_octet(p[0].as_str()) {
        Some(n) => n,
        None => return None,
    };
    let b = match parse_octet(p[1].as_str()) {
        Some(n) => n,
        None => return None,
    };
    let c = match parse_octet(p[2].as_str()) {
        Some(n) => n,
        None => return None,
    };
    let d = match parse_octet(p[3].as_str()) {
        Some(n) => n,
        None => return None,
    };
    assert(strings_view(p@)[0] == p@[0]@);
    assert(strings_view(p@)[1] == p@[1]@);
    assert(strings_view(p@)[2] == p@[2]@);
    assert(strings_view(p@)[3] == p@[3]@);
    Some(a * 0x1000000 + b * 0x10000 + c * 0x100 + d)
}

/// Writes an address as a dotted quad.
pub fn ipv4_string(a: u32) -> (s: String)
    ensures
        s@ == ipv4_text(a),
{
    let mut s = decimal_string((a / 0x1000000) as u64);
    push_char(&mut s, '.');
    let t = decimal_string(((a / 0x10000) % 0x100) as u64);
    push_str(&mut s, t.as_str());
    push_char(&mut s, '.');
    let t = decimal_string(((a / 0x100) % 0x100) as u64);
    push_str(&mut s, t.as_str());
    push_char(&mut s, '.');
    let t = decimal_string((a % 0x100) as u64);
    push_str(&mut s, t.as_str());
    s
}

// ---------------------------------------------------------------------------
// Bridge allocator
// ---------------------------------------------------------------------------

/// Mask of the host bits of a network with a prefix of `mask_size` bits.
pub open spec fn spec_host_mask(mask_size: nat) -> u32 {
    ((1u32 << ((32 - mask_size) as u32)) - 1) as u32
}

/// `a` can be handed out: not reserved and not allocated.
pub open spec fn is_free(allocated: Set<u32>, a: u32) -> bool {
    a % 256 < RESERVED_START && !allocated.contains(a)
}

/// The text of an address with the network prefix length: `a.b.c.d/n`.
pub open spec fn address_text(a: u32, mask_size: nat) -> Seq<char> {
    ipv4_text(a) + seq!['/'] + decimal(mask_size)
}

/// The model of a bridge allocator.
pub struct BridgeView {
    /// Name of the bridge.
    pub bridge: Seq<char>,
    /// The network address.
    pub network: u32,
    /// The network prefix length.
    pub mask_size: nat,
    /// The addresses in use.
    pub allocated: Set<u32>,
    /// The address allocated to each realm.
    pub allocations: Map<Seq<char>, u32>,
}

impl BridgeView {
    /// Mask of the host bits.
    pub open spec fn host_mask(self) -> u32 {
        spec_host_mask(self.mask_size)
    }

    /// A supported network: a prefix of 16 to 24 bits and no host bits set.
    pub open spec fn wf(self) -> bool {
        &&& MIN_MASK <= self.mask_size <= MAX_MASK
        &&& self.network & self.host_mask() == 0
    }

    /// Every allocation is among the addresses in use, and no two realms
    /// share an address.
    pub open spec fn consistent(self) -> bool {
        &&& forall|n: Seq<char>| #[trigger]
            self.allocations.contains_key(n) ==> self.allocated.contains(self.allocations[n])
        &&& forall|n1: Seq<char>, n2: Seq<char>|
            #[trigger] self.allocations.contains_key(n1) && #[trigger] self.allocations.contains_key(n2)
                && n1 != n2 ==> self.allocations[n1] != self.allocations[n2]
    }

    /// The first free address at host number `i` or above, below the
    /// broadcast address.
    pub open spec fn first_free_from(self, i: nat) -> Option<u32>
        decreases self.host_mask() - i,
    {
        if i >= self.host_mask() {
            None
        } else if is_free(self.allocated, (self.network + i) as u32) {
            Some((self.network + i) as u32)
        } else {
            self.first_free_from(i + 1)
        }
    }

    /// The address `allocate_address_for` hands out: the first free one
    /// after the gateway.
    pub open spec fn free_address(self) -> Option<u32> {
        self.first_free_from(2)
    }

    /// The state after `a` is allocated to `name`: `a` is in use and the
    /// address `name` had before, if any, is not.
    pub open spec fn assign(self, name: Seq<char>, a: u32) -> BridgeView {
        BridgeView {
            bridge: self.bridge,
            network: self.network,
            mask_size: self.mask_size,
            allocated: if self.allocations.contains_key(name) {
                self.allocated.insert(a).remove(self.allocations[name])
            } else {
                self.allocated.insert(a)
            },
            allocations: self.allocations.insert(name, a),
        }
    }

    /// The state after the allocation of `name` is released.
    pub open spec fn release(self, name: Seq<char>) -> BridgeView {
        if self.allocations.contains_key(name) {
            BridgeView {
                bridge: self.bridge,
                network: self.network,
                mask_size: self.mask_size,
                allocated: self.allocated.remove(self.allocations[name]),
                allocations: self.allocations.remove(name),
            }
        } else {
            self
        }
    }

    /// The state after a line of the state file naming `name` and `a` is read.
    pub open spec fn record(self, name: Seq<char>, a: u32) -> BridgeView {
        BridgeView {
            bridge: self.bridge,
            network: self.network,
            mask_size: self.mask_size,
            allocated: self.allocated.insert(a),
            allocations: self.allocations.insert(name, a),
        }
    }
}

proof fn lemma_mask_facts(net: u32, shift: u32, m: u32)
    requires
        8 <= shift <= 16,
        m + 1 == 1u32 << shift,
        net & m == 0,
    ensures
        m >= 255,
        net + m <= 0xffff_ffff,
        net % 256 == 0,
{
    assert(8 <= shift <= 16 && m + 1 == 1u32 << shift ==> m >= 255) by (bit_vector);
    assert(net & m == 0 ==> net + m <= 0xffff_ffff) by (bit_vector);
    assert(8 <= shift <= 16 && m + 1 == 1u32 << shift && net & m == 0 ==> net & 255 == 0)
        by (bit_vector);
    assert(net & 255 == net % 256) by (bit_vector);
}

proof fn lemma_shift_positive(shift: u32)
    requires
        shift <= 16,
    ensures
        1u32 << shift >= 1,
{
    assert(shift <= 16 ==> 1u32 << shift >= 1) by (bit_vector);
}

/// Allocates IP addresses for a bridge shared by multiple realms.
pub struct BridgeAllocator {
    bridge: String,
    network: u32,
    mask_size: usize,
    allocated: HashSet<u32>,
    allocations: StrMap<u32>,
}

impl View for BridgeAllocator {
    type V = BridgeView;

    closed spec fn view(&self) -> BridgeView {
        BridgeView {
            bridge: self.bridge@,
            network: self.network,
            mask_size: self.mask_size as nat,
            allocated: self.allocated@,
            allocations: self.allocations@,
        }
    }
}

impl DeepView for BridgeAllocator {
    type V = BridgeView;

    open spec fn deep_view(&self) -> BridgeView {
        self@
    }
}

impl BridgeAllocator {
    #[verifier::type_invariant]
    spec fn inv(self) -> bool {
        &&& MIN_MASK <= self.mask_size <= MAX_MASK
        &&& self.network & spec_host_mask(self.mask_size as nat) == 0
    }

    /// The name of the bridge.
    pub fn bridge(&self) -> (r: &str)
        ensures
            r@ == self@.bridge,
    {
        self.bridge.as_str()
    }

    /// The network prefix length.
    pub fn mask_size(&self) -> (r: usize)
        ensures
            r == self@.mask_size,
            self@.wf(),
    {
        proof {
            use_type_invariant(self);
        }
        self.mask_size
    }

    /// Mask of the host bits, with the facts the allocator relies on.
    fn host_mask(&self) -> (m: u32)
        ensures
            m == self@.host_mask(),
            m >= 255,
            self.network + m <= 0xffff_ffff,
            self.network % 256 == 0,
            self@.wf(),
    {
        proof {
            use_type_invariant(self);
        }
        let shift: u32 = (32 - self.mask_size) as u32;
        proof {
            lemma_shift_positive(shift);
        }
        let m = (1u32 << shift) - 1;
        proof {
            lemma_mask_facts(self.network, shift, m);
        }
        m
    }

    /// `true` for an address whose last octet is reserved.
    fn is_reserved(addr: u32) -> (r: bool)
        ensures
            r == (addr % 256 >= RESERVED_START),
    {
        (addr % 256) as u8 >= RESERVED_START
    }

    /// The first free address after the gateway, if any.
    fn find_free_address(&self) -> (r: Option<u32>)
        ensures
            r == self@.free_address(),
    {
        let mask = self.host_mask();
        let net = self.network;
        let mut i: u32 = 2;
        while i < mask
            invariant
                2 <= i <= mask,
                mask == self@.host_mask(),
                net == self@.network,
                net + mask <= 0xffff_ffff,
                self@.first_free_from(i as nat) == self@.free_address(),
            decreases mask - i,
        {
            let addr = net + i;
            if !Self::is_reserved(addr) && !self.allocated.contains(&addr) {
                return Some(addr);
            }
            i += 1;
        }
        None
    }

    /// The address of the gateway: the first host address of the network.
    pub fn gateway(&self) -> (r: String)
        ensures
            r@ == ipv4_text((self@.network + 1) as u32),
    {
        let _ = self.host_mask();
        ipv4_string(self.network + 1)
    }

    /// `a.b.c.d/n` for an address of this network.
    fn address_string(&self, addr: u32) -> (s: String)
        ensures
            s@ == address_text(addr, self@.mask_size),
    {
        let mut s = ipv4_string(addr);
        push_char(&mut s, '/');
        let m = decimal_string(self.mask_size as u64);
        push_str(&mut s, m.as_str());
        s
    }

    /// Records `address` as allocated to `realm_name`, releasing the
    /// address the realm had before.
    fn store_allocation(&mut self, realm_name: &str, address: u32)
        ensures
            final(self)@ == old(self)@.assign(realm_name@, address),
    {
        proof {
            use_type_invariant(&*self);
        }
        let mut allocated: HashSet<u32> = HashSet::new();
        std::mem::swap(&mut allocated, &mut self.allocated);
        let mut allocations: StrMap<u32> = StrMap::new();
        std::mem::swap(&mut allocations, &mut self.allocations);
        allocated.insert(address);
        let previous = match allocations.get(realm_name) {
            Some(p) => Some(*p),
            None => None,
        };
        allocations.insert(key(realm_name), address);
        match previous {
            Some(p) => {
                allocated.remove(&p);
            },
            None => {},
        }
        self.allocated = allocated;
        self.allocations = allocations;
    }

    /// Allocates the first free address of the network to `realm_name`,
    /// releasing the address it had before, and returns it as `a.b.c.d/n`.
    /// The caller then saves `state_lines`.
    pub fn allocate_address_for(&mut self, realm_name: &str) -> (r: Result<String, Error>)
        ensures
            match old(self)@.free_address() {
                Some(a) => {
                    &&& r matches Ok(s) && s@ == address_text(a, old(self)@.mask_size)
                    &&& final(self)@ == old(self)@.assign(realm_name@, a)
                },
                None => r == Err::<String, Error>(Error::NoFreeAddress) && final(self)@ == old(self)@,
            },
    {
        match self.find_free_address() {
            Some(addr) => {
                self.store_allocation(realm_name, addr);
                Ok(self.address_string(addr))
            },
            None => Err(Error::NoFreeAddress),
        }
    }

    /// Allocates the reserved address with last octet `octet` to
    /// `realm_name` and returns it as `a.b.c.d/n`.
    pub fn allocate_reserved(&mut self, realm_name: &str, octet: u8) -> (r: Result<String, Error>)
        ensures
            octet < RESERVED_START ==> r == Err::<String, Error>(Error::NotReserved) && final(self)@ == old(self)@,
            octet >= RESERVED_START && old(self)@.allocated.contains(
                (old(self)@.network + octet) as u32,
            ) ==> r == Err::<String, Error>(Error::AddressInUse) && final(self)@ == old(self)@,
            octet >= RESERVED_START && !old(self)@.allocated.contains(
                (old(self)@.network + octet) as u32,
            ) ==> {
                &&& r matches Ok(s) && s@ == address_text(
                    (old(self)@.network + octet) as u32,
                    old(self)@.mask_size,
                )
                &&& final(self)@ == old(self)@.assign(
                    realm_name@,
                    (old(self)@.network + octet) as u32,
                )
            },
    {
        if octet < RESERVED_START {
            return Err(Error::NotReserved);
        }
        let _ = self.host_mask();
        let net = self.network;
        assert(net % 256 == 0 ==> net | (octet as u32) == net + octet) by (bit_vector);
        let rsv = net | (octet as u32);
        let s = self.address_string(rsv);
        if self.allocated.contains(&rsv) {
            return Err(Error::AddressInUse);
        }
        self.store_allocation(realm_name, rsv);
        Ok(s)
    }

    /// Releases the address allocated to `realm_name`. Returns `true` when
    /// there was one, and the caller then saves `state_lines`.
    pub fn free_allocation_for(&mut self, realm_name: &str) -> (r: bool)
        ensures
            r == old(self)@.allocations.contains_key(realm_name@),
            final(self)@ == old(self)@.release(realm_name@),
    {
        proof {
            use_type_invariant(&*self);
        }
        let mut allocated: HashSet<u32> = HashSet::new();
        std::mem::swap(&mut allocated, &mut self.allocated);
        let mut allocations: StrMap<u32> = StrMap::new();
        std::mem::swap(&mut allocations, &mut self.allocations);
        let found = match allocations.remove(realm_name) {
            Some(ip) => {
                allocated.remove(&ip);
                true
            },
            None => {
                assert(old(self)@.allocations.remove(realm_name@) =~= old(self)@.allocations);
                false
            },
        };
        self.allocated = allocated;
        self.allocations = allocations;
        found
    }
}

// ---------------------------------------------------------------------------
// The state file
// ---------------------------------------------------------------------------

/// The state file line recording that `a` is allocated to `name`.
pub open spec fn state_line(name: Seq<char>, a: u32) -> Seq<char> {
    name + seq![':'] + ipv4_text(a)
}

/// The state file lines recording a list of allocations.
pub open spec fn state_text_lines(p: Seq<(Seq<char>, u32)>) -> Seq<Seq<char>> {
    p.map_values(|e: (Seq<char>, u32)| state_line(e.0, e.1))
}

/// The state after one line of the state file is read: the text before
/// the first colon names a realm, the text after it is its address.
pub open spec fn spec_parse_state_line(v: BridgeView, line: Seq<char>) -> Result<BridgeView, Error> {
    match spec_split_once(line, ':') {
        (name, Some(addr)) => match spec_parse_ipv4(addr) {
            Some(a) => Ok(v.record(name, a)),
            None => Err(Error::BadAddress),
        },
        (_, None) => Err(Error::BadLine),
    }
}

/// The state after the lines of the state file are read in order; the
/// first line that cannot be read gives the error.
pub open spec fn spec_load_state(v: BridgeView, lines: Seq<Seq<char>>) -> Result<BridgeView, Error>
    decreases lines.len(),
{
    if lines.len() == 0 {
        Ok(v)
    } else {
        match spec_load_state(v, lines.drop_last()) {
            Ok(w) => spec_parse_state_line(w, lines.last()),
            Err(e) => Err(e),
        }
    }
}

/// The prefix length written after the `/` of a network, 24 when there is none.
pub open spec fn spec_mask_size(network: Seq<char>) -> Result<nat, Error> {
    match spec_split_once(network, '/').1 {
        Some(t) => match spec_parse_unsigned(t, 10, usize::MAX as nat) {
            Some(n) => Ok(n),
            None => Err(Error::BadNumber),
        },
        None => Ok(24),
    }
}

/// The allocator `for_bridge` builds for `bridge` on `network` (written
/// `a.b.c.d/n`) from the lines of its state file.
pub open spec fn spec_for_bridge(bridge: Seq<char>, network: Seq<char>, lines: Seq<Seq<char>>) -> Result<BridgeView, Error> {
    match spec_mask_size(network) {
        Err(e) => Err(e),
        Ok(m) => if m > MAX_MASK || m < MIN_MASK {
            Err(Error::BadNetwork)
        } else {
            match spec_parse_ipv4(spec_split_once(network, '/').0) {
                None => Err(Error::BadAddress),
                Some(ip) => if ip & spec_host_mask(m) != 0 {
                    Err(Error::BadNetwork)
                } else {
                    spec_load_state(
                        BridgeView {
                            bridge,
                            network: ip,
                            mask_size: m,
                            allocated: Set::empty(),
                            allocations: Map::empty(),
                        },
                        lines,
                    )
                },
            }
        },
    }
}

impl BridgeAllocator {
    /// The allocator of the default bridge, `clear`, on 172.17.0.0/24.
    pub fn default_bridge(state: &Vec<String>) -> (r: Result<BridgeAllocator, Error>)
        ensures
            match spec_for_bridge("clear"@, "172.17.0.0/24"@, strings_view(state@)) {
                Ok(v) => r matches Ok(b) && b@ == v,
                Err(e) => r matches Err(f) && f == e,
            },
    {
        BridgeAllocator::for_bridge("clear", "172.17.0.0/24", state)
    }

    /// The allocator for `bridge` on `network`, written `a.b.c.d/n` (or
    /// `a.b.c.d` for a /24), with the allocations read from the lines of
    /// its state file (none when the file does not exist).
    pub fn for_bridge(bridge: &str, network: &str, state: &Vec<String>) -> (r: Result<BridgeAllocator, Error>)
        ensures
            match spec_for_bridge(bridge@, network@, strings_view(state@)) {
                Ok(v) => r matches Ok(b) && b@ == v,
                Err(e) => r matches Err(f) && f == e,
            },
    {
        let (addr_str, bits) = split_once(network, '/');
        let mask_size: usize = match bits {
            Some(t) => match parse_unsigned(t.as_str(), 10, usize::MAX as u64) {
                Some(n) => n as usize,
                None => return Err(Error::BadNumber),
            },
            None => 24,
        };
        if mask_size > MAX_MASK || mask_size < MIN_MASK {
            return Err(Error::BadNetwork);
        }
        let shift: u32 = (32 - mask_size) as u32;
        proof {
            lemma_shift_positive(shift);
        }
        let mask: u32 = (1u32 << shift) - 1;
        let ip = match parse_ipv4(addr_str.as_str()) {
            Some(ip) => ip,
            None => return Err(Error::BadAddress),
        };
        if ip & mask != 0 {
            return Err(Error::BadNetwork);
        }
        let mut conf = BridgeAllocator::new(bridge, ip, mask_size);
        match conf.load_state(state) {
            Ok(()) => Ok(conf),
            Err(e) => Err(e),
        }
    }

    /// An allocator with no allocations.
    fn new(bridge: &str, network: u32, mask_size: usize) -> (r: BridgeAllocator)
        requires
            MIN_MASK <= mask_size <= MAX_MASK,
            network & spec_host_mask(mask_size as nat) == 0,
        ensures
            r@ == (BridgeView {
                bridge: bridge@,
                network,
                mask_size: mask_size as nat,
                allocated: Set::empty(),
                allocations: Map::empty(),
            }),
    {
        BridgeAllocator {
            bridge: key(bridge),
            network,
            mask_size,
            allocated: HashSet::new(),
            allocations: StrMap::new(),
        }
    }

    /// Reads one line of the state file.
    fn parse_state_line(&mut self, line: &str) -> (r: Result<(), Error>)
        ensures
            match spec_parse_state_line(old(self)@, line@) {
                Ok(v) => r is Ok && final(self)@ == v,
                Err(e) => r == Err::<(), Error>(e) && final(self)@ == old(self)@,
            },
    {
        proof {
            use_type_invariant(&*self);
        }
        let (name, addr) = split_once(line, ':');
        match addr {
            Some(addr) => {
                let ip = match parse_ipv4(addr.as_str()) {
                    Some(ip) => ip,
                    None => return Err(Error::BadAddress),
                };
                let mut allocated: HashSet<u32> = HashSet::new();
                std::mem::swap(&mut allocated, &mut self.allocated);
                let mut allocations: StrMap<u32> = StrMap::new();
                std::mem::swap(&mut allocations, &mut self.allocations);
                allocated.insert(ip);
                allocations.insert(name, ip);
                self.allocated = allocated;
                self.allocations = allocations;
                Ok(())
            },
            None => Err(Error::BadLine),
        }
    }

    /// Reads the lines of the state file in order.
    fn load_state(&mut self, lines: &Vec<String>) -> (r: Result<(), Error>)
        ensures
            match spec_load_state(old(self)@, strings_view(lines@)) {
                Ok(v) => r is Ok && final(self)@ == v,
                Err(e) => r == Err::<(), Error>(e),
            },
    {
        let ghost start = self@;
        let mut i: usize = 0;
        while i < lines.len()
            invariant
                i <= lines@.len(),
                start == old(self)@,
                spec_load_state(start, strings_view(lines@).take(i as int)) == Ok::<BridgeView, Error>(self@),
            decreases lines@.len() - i,
        {
            let ghost before = self@;
            assert(strings_view(lines@).take(i + 1).drop_last() =~= strings_view(lines@).take(i as int));
            match self.parse_state_line(lines[i].as_str()) {
                Ok(()) => {},
                Err(e) => {
                    proof {
                        lemma_load_state_error(start, strings_view(lines@), (i + 1) as int);
                    }
                    return Err(e);
                },
            }
            i += 1;
        }
        assert(strings_view(lines@).take(lines@.len() as int) =~= strings_view(lines@));
        Ok(())
    }

    /// The lines of the state file recording the current allocations, in
    /// the order the allocator keeps them.
    pub fn state_lines(&self) -> (r: Vec<String>)
        ensures
            exists|p: Seq<(Seq<char>, u32)>| #[trigger] pairs_map(p) == self@.allocations
                && pairs_keys_unique(p) && strings_view(r@) == state_text_lines(p),
    {
        let n = self.allocations.len();
        let ghost p = self.allocations.pairs();
        let mut out: Vec<String> = Vec::new();
        let mut i: usize = 0;
        while i < n
            invariant
                i <= n,
                n == p.len(),
                n == self.allocations@.len(),
                p == self.allocations.pairs(),
                strings_view(out@) == state_text_lines(p).take(i as int),
            decreases n - i,
        {
            let (name, addr) = self.allocations.entry(i);
            let mut line = key(name.as_str());
            push_char(&mut line, ':');
            let a = ipv4_string(*addr);
            push_str(&mut line, a.as_str());
            assert(p[i as int] == (name@, *addr));
            assert(line@ == state_line(p[i as int].0, p[i as int].1));
            assert(state_text_lines(p)[i as int] == state_line(p[i as int].0, p[i as int].1));
            let ghost before = out@;
            out.push(line);
            assert(strings_view(out@) =~= strings_view(before).push(line@));
            assert(state_text_lines(p).take(i + 1) =~= state_text_lines(p).take(i as int).push(
                state_line(p[i as int].0, p[i as int].1),
            ));
            i += 1;
        }
        assert(state_text_lines(p).take(n as int) =~= state_text_lines(p));
        out
    }
}

proof fn lemma_load_state_error(v: BridgeView, lines: Seq<Seq<char>>, k: int)
    requires
        0 <= k <= lines.len(),
        spec_load_state(v, lines.take(k)) is Err,
    ensures
        spec_load_state(v, lines) == spec_load_state(v, lines.take(k)),
    decreases lines.len() - k,
{
    if k < lines.len() {
        assert(lines.take(k + 1).drop_last() =~= lines.take(k));
        lemma_load_state_error(v, lines, k + 1);
    } else {
        assert(lines.take(k) =~= lines);
    }
}

// ---------------------------------------------------------------------------
// Outcomes of allocation, as functions
// ---------------------------------------------------------------------------

/// What `allocate_address_for` gives and leaves behind.
pub open spec fn spec_allocate_for(v: BridgeView, name: Seq<char>) -> (Result<Seq<char>, Error>, BridgeView) {
    match v.free_address() {
        Some(a) => (Ok(address_text(a, v.mask_size)), v.assign(name, a)),
        None => (Err(Error::NoFreeAddress), v),
    }
}

/// What `allocate_reserved` gives and leaves behind.
pub open spec fn spec_allocate_reserved(v: BridgeView, name: Seq<char>, octet: u8) -> (Result<Seq<char>, Error>, BridgeView) {
    let a = (v.network + octet) as u32;
    if octet < RESERVED_START {
        (Err(Error::NotReserved), v)
    } else if v.allocated.contains(a) {
        (Err(Error::AddressInUse), v)
    } else {
        (Ok(address_text(a, v.mask_size)), v.assign(name, a))
    }
}

/// What allocating on a bridge of a configuration gives and leaves
/// behind: a reserved address when `reserved` names one, otherwise the
/// first free address.
pub open spec fn spec_config_allocate(
    m: Map<Seq<char>, BridgeView>,
    bridge: Seq<char>,
    name: Seq<char>,
    reserved: Option<u8>,
) -> (Result<Seq<char>, Error>, Map<Seq<char>, BridgeView>) {
    if !m.contains_key(bridge) {
        (Err(Error::NoSuchBridge), m)
    } else {
        let (r, v) = match reserved {
            Some(o) => spec_allocate_reserved(m[bridge], name, o),
            None => spec_allocate_for(m[bridge], name),
        };
        (r, if r is Ok { m.insert(bridge, v) } else { m })
    }
}

// ---------------------------------------------------------------------------
// Network configuration
// ---------------------------------------------------------------------------

/// The model of a text result.
pub open spec fn string_result_view(r: Result<String, Error>) -> Result<Seq<char>, Error> {
    match r {
        Ok(s) => Ok(s@),
        Err(e) => Err(e),
    }
}

/// Manages address assignment for a set of named bridges.
pub struct NetworkConfig {
    allocators: StrMap<BridgeAllocator>,
}

impl View for NetworkConfig {
    type V = Map<Seq<char>, BridgeView>;

    closed spec fn view(&self) -> Map<Seq<char>, BridgeView> {
        self.allocators@
    }
}

impl NetworkConfig {
    /// A configuration with no bridges.
    pub fn new() -> (r: NetworkConfig)
        ensures
            r@ == Map::<Seq<char>, BridgeView>::empty(),
    {
        NetworkConfig { allocators: StrMap::new() }
    }

    /// Adds the bridge `name` on `network`, with the allocations read from
    /// the lines of its state file.
    pub fn add_bridge(&mut self, name: &str, network: &str, state: &Vec<String>) -> (r: Result<(), Error>)
        ensures
            match spec_for_bridge(name@, network@, strings_view(state@)) {
                Ok(v) => r is Ok && final(self)@ == old(self)@.insert(name@, v),
                Err(e) => r == Err::<(), Error>(e) && final(self)@ == old(self)@,
            },
    {
        let allocator = match BridgeAllocator::for_bridge(name, network, state) {
            Ok(a) => a,
            Err(e) => return Err(e),
        };
        self.allocators.insert(key(name), allocator);
        Ok(())
    }

    /// The gateway address of `bridge`.
    pub fn gateway(&self, bridge: &str) -> (r: Result<String, Error>)
        ensures
            self@.contains_key(bridge@) ==> (r matches Ok(s) && s@ == ipv4_text(
                (self@[bridge@].network + 1) as u32,
            )),
            !self@.contains_key(bridge@) ==> r == Err::<String, Error>(Error::NoSuchBridge),
    {
        match self.allocators.get(bridge) {
            Some(allocator) => Ok(allocator.gateway()),
            None => Err(Error::NoSuchBridge),
        }
    }

    /// The lines of the state file of `bridge`, recording its current
    /// allocations.
    pub fn state_lines(&self, bridge: &str) -> (r: Result<Vec<String>, Error>)
        ensures
            !self@.contains_key(bridge@) ==> r == Err::<Vec<String>, Error>(Error::NoSuchBridge),
            self@.contains_key(bridge@) ==> (r matches Ok(v) && exists|p: Seq<(Seq<char>, u32)>|
                #[trigger] pairs_map(p) == self@[bridge@].allocations && pairs_keys_unique(p)
                    && strings_view(v@) == state_text_lines(p)),
    {
        match self.allocators.get(bridge) {
            Some(allocator) => Ok(allocator.state_lines()),
            None => Err(Error::NoSuchBridge),
        }
    }

    /// Allocates an address on `bridge` to `realm_name`, as
    /// `BridgeAllocator::allocate_address_for` does.
    pub fn allocate_address_for(&mut self, bridge: &str, realm_name: &str) -> (r: Result<String, Error>)
        ensures
            string_result_view(r) == spec_config_allocate(old(self)@, bridge@, realm_name@, None).0,
            final(self)@ == spec_config_allocate(old(self)@, bridge@, realm_name@, None).1,
            !old(self)@.contains_key(bridge@) ==> r == Err::<String, Error>(Error::NoSuchBridge)
                && final(self)@ == old(self)@,
            old(self)@.contains_key(bridge@) ==> match old(self)@[bridge@].free_address() {
                Some(a) => {
                    &&& r matches Ok(s) && s@ == address_text(a, old(self)@[bridge@].mask_size)
                    &&& final(self)@ == old(self)@.insert(bridge@, old(self)@[bridge@].assign(realm_name@, a))
                },
                None => r == Err::<String, Error>(Error::NoFreeAddress) && final(self)@ == old(self)@,
            },
    {
        match self.allocators.remove(bridge) {
            Some(mut allocator) => {
                let r = allocator.allocate_address_for(realm_name);
                self.allocators.insert(key(bridge), allocator);
                proof {
                    assert(old(self)@.insert(bridge@, old(self)@[bridge@]) =~= old(self)@);
                }
                r
            },
            None => Err(Error::NoSuchBridge),
        }
    }

    /// Releases the address of `realm_name` on `bridge`; `Ok(true)` when it
    /// had one.
    pub fn free_allocation_for(&mut self, bridge: &str, realm_name: &str) -> (r: Result<bool, Error>)
        ensures
            !old(self)@.contains_key(bridge@) ==> r == Err::<bool, Error>(Error::NoSuchBridge)
                && final(self)@ == old(self)@,
            old(self)@.contains_key(bridge@) ==> {
                &&& r == Ok::<bool, Error>(old(self)@[bridge@].allocations.contains_key(realm_name@))
                &&& final(self)@ == old(self)@.insert(bridge@, old(self)@[bridge@].release(realm_name@))
            },
    {
        match self.allocators.remove(bridge) {
            Some(mut allocator) => {
                let r = allocator.free_allocation_for(realm_name);
                self.allocators.insert(key(bridge), allocator);
                Ok(r)
            },
            None => Err(Error::NoSuchBridge),
        }
    }

    /// Allocates the reserved address with last octet `octet` on `bridge`
    /// to `realm_name`, as `BridgeAllocator::allocate_reserved` does.
    pub fn allocate_reserved(&mut self, bridge: &str, realm_name: &str, octet: u8) -> (r: Result<String, Error>)
        ensures
            string_result_view(r) == spec_config_allocate(old(self)@, bridge@, realm_name@, Some(octet)).0,
            final(self)@ == spec_config_allocate(old(self)@, bridge@, realm_name@, Some(octet)).1,
            !old(self)@.contains_key(bridge@) ==> r == Err::<String, Error>(Error::NoSuchBridge)
                && final(self)@ == old(self)@,
            old(self)@.contains_key(bridge@) ==> {
                let v = old(self)@[bridge@];
                let a = (v.network + octet) as u32;
                &&& octet < RESERVED_START ==> r == Err::<String, Error>(Error::NotReserved)
                    && final(self)@ == old(self)@
                &&& octet >= RESERVED_START && v.allocated.contains(a) ==> r == Err::<String, Error>(
                    Error::AddressInUse,
                ) && final(self)@ == old(self)@
                &&& octet >= RESERVED_START && !v.allocated.contains(a) ==> {
                    &&& r matches Ok(s) && s@ == address_text(a, v.mask_size)
                    &&& final(self)@ == old(self)@.insert(bridge@, v.assign(realm_name@, a))
                }
            },
    {
        match self.allocators.remove(bridge) {
            Some(mut allocator) => {
                let r = allocator.allocate_reserved(realm_name, octet);
                self.allocators.insert(key(bridge), allocator);
                proof {
                    assert(old(self)@.insert(bridge@, old(self)@[bridge@]) =~= old(self)@);
                }
                r
            },
            None => Err(Error::NoSuchBridge),
        }
    }
}

// ---------------------------------------------------------------------------
// Laws
// ---------------------------------------------------------------------------

/// Law: the dotted quad text of an address reads back as the address.
pub proof fn law_ipv4_roundtrip(a: u32)
    ensures
        spec_parse_ipv4(ipv4_text(a)) == Some(a),
{
    let o0 = (a / 0x1000000) as nat;
    let o1 = ((a / 0x10000) % 0x100) as nat;
    let o2 = ((a / 0x100) % 0x100) as nat;
    let o3 = (a % 0x100) as nat;
    assert(a / 0x1000000 <= 255) by (bit_vector);
    lemma_decimal(o0);
    lemma_decimal(o1);
    lemma_decimal(o2);
    lemma_decimal(o3);
    let d0 = decimal(o0);
    let d1 = decimal(o1);
    let d2 = decimal(o2);
    let d3 = decimal(o3);
    let dot = seq!['.'];
    lemma_split_fold_plain(d0, '.');
    assert(d0 + dot =~= d0.push('.'));
    lemma_split_fold_sep(d0, '.');
    lemma_split_fold_append(d0 + dot, d1, '.');
    assert(Seq::<char>::empty() + d1 =~= d1);
    assert(d0 + dot + d1 + dot =~= (d0 + dot + d1).push('.'));
    lemma_split_fold_sep(d0 + dot + d1, '.');
    lemma_split_fold_append(d0 + dot + d1 + dot, d2, '.');
    assert(Seq::<char>::empty() + d2 =~= d2);
    assert(d0 + dot + d1 + dot + d2 + dot =~= (d0 + dot + d1 + dot + d2).push('.'));
    lemma_split_fold_sep(d0 + dot + d1 + dot + d2, '.');
    lemma_split_fold_append(d0 + dot + d1 + dot + d2 + dot, d3, '.');
    assert(Seq::<char>::empty() + d3 =~= d3);
    assert(spec_split(ipv4_text(a), '.') =~= seq![d0, d1, d2, d3]);
    assert(a == (a / 0x1000000) * 0x1000000 + ((a / 0x10000) % 0x100) * 0x10000 + ((a / 0x100)
        % 0x100) * 0x100 + a % 0x100) by (bit_vector);
}

/// All pairs of `p` with their addresses, as a set of addresses.
pub open spec fn pair_values(p: Seq<(Seq<char>, u32)>) -> Set<u32>
    decreases p.len(),
{
    if p.len() == 0 {
        Set::empty()
    } else {
        pair_values(p.drop_last()).insert(p.last().1)
    }
}

/// Law: reading back the state file lines written for a list of
/// allocations records exactly those allocations, provided no realm name
/// holds a colon.
#[verifier::spinoff_prover]
pub proof fn law_state_roundtrip(v: BridgeView, p: Seq<(Seq<char>, u32)>)
    requires
        forall|i: int| 0 <= i < p.len() ==> !(#[trigger] p[i].0).contains(':'),
    ensures
        spec_load_state(v, state_text_lines(p)) == Ok::<BridgeView, Error>(loaded_view(v, p)),
    decreases p.len(),
{
    if p.len() == 0 {
        assert(state_text_lines(p) =~= Seq::<Seq<char>>::empty());
        assert(v.allocated.union(Set::empty()) =~= v.allocated);
        assert(v.allocations.union_prefer_right(Map::empty()) =~= v.allocations);
    } else {
        let q = p.drop_last();
        assert forall|i: int| 0 <= i < q.len() implies !(#[trigger] q[i].0).contains(':') by {
            assert(q[i] == p[i]);
        }
        law_state_roundtrip(v, q);
        let lines = state_text_lines(p);
        assert(lines.drop_last() =~= state_text_lines(q));
        let name = p.last().0;
        let a = p.last().1;
        assert(p[p.len() - 1] == p.last());
        assert(lines.last() == state_line(name, a));
        lemma_load_last(v, lines);
        lemma_parse_state_line(loaded_view(v, q), name, a);
        lemma_loaded_view_push(v, q, name, a);
        assert(q.push((name, a)) =~= p);
    }
}

/// The state after reading the lines written for `p` on top of `v`.
pub open spec fn loaded_view(v: BridgeView, p: Seq<(Seq<char>, u32)>) -> BridgeView {
    BridgeView {
        bridge: v.bridge,
        network: v.network,
        mask_size: v.mask_size,
        allocated: v.allocated.union(pair_values(p)),
        allocations: v.allocations.union_prefer_right(pairs_map(p)),
    }
}

proof fn lemma_load_last(v: BridgeView, lines: Seq<Seq<char>>)
    requires
        lines.len() > 0,
    ensures
        spec_load_state(v, lines) == match spec_load_state(v, lines.drop_last()) {
            Ok(w) => spec_parse_state_line(w, lines.last()),
            Err(e) => Err(e),
        },
{
}

proof fn lemma_loaded_view_push(v: BridgeView, q: Seq<(Seq<char>, u32)>, name: Seq<char>, a: u32)
    ensures
        loaded_view(v, q).record(name, a) == loaded_view(v, q.push((name, a))),
{
    let p = q.push((name, a));
    assert(p.drop_last() =~= q);
    assert(v.allocated.union(pair_values(q)).insert(a) =~= v.allocated.union(pair_values(p)));
    assert(v.allocations.union_prefer_right(pairs_map(q)).insert(name, a)
        =~= v.allocations.union_prefer_right(pairs_map(p)));
}

proof fn lemma_parse_state_line(w: BridgeView, name: Seq<char>, a: u32)
    requires
        !name.contains(':'),
    ensures
        spec_parse_state_line(w, state_line(name, a)) == Ok::<BridgeView, Error>(w.record(name, a)),
{
    law_ipv4_roundtrip(a);
    lemma_split_once_at(name, ipv4_text(a), ':');
}

proof fn lemma_first_free(v: BridgeView, i: nat, a: u32)
    requires
        v.wf(),
        v.first_free_from(i) == Some(a),
    ensures
        !v.allocated.contains(a),
        a % 256 < RESERVED_START,
        v.network + i <= a < v.network + v.host_mask(),
    decreases v.host_mask() - i,
{
    let shift = (32 - v.mask_size) as u32;
    lemma_shift_positive(shift);
    lemma_mask_facts(v.network, shift, v.host_mask());
    if !is_free(v.allocated, (v.network + i) as u32) {
        lemma_first_free(v, i + 1, a);
    }
}

/// Law: the address `allocate_address_for` hands out is free: not in use,
/// not reserved, and a host address of the network other than the gateway
/// and the broadcast address.
pub proof fn law_allocation_fresh(v: BridgeView, a: u32)
    requires
        v.wf(),
        v.free_address() == Some(a),
    ensures
        !v.allocated.contains(a),
        a % 256 < RESERVED_START,
        v.network + 2 <= a < v.network + v.host_mask(),
{
    lemma_first_free(v, 2, a);
}

/// Law: allocating a free address keeps the allocations consistent: every
/// allocation in use and no address shared.
pub proof fn law_assign_consistent(v: BridgeView, name: Seq<char>, a: u32)
    requires
        v.consistent(),
        !v.allocated.contains(a),
    ensures
        v.assign(name, a).consistent(),
{
    let w = v.assign(name, a);
    assert forall|n: Seq<char>| #[trigger] w.allocations.contains_key(n) implies w.allocated.contains(
        w.allocations[n],
    ) by {
        if n != name {
            assert(v.allocations.contains_key(n));
            if v.allocations.contains_key(name) {
                assert(v.allocations[n] != v.allocations[name]);
            }
        }
    }
}

/// Law: releasing an allocation keeps the allocations consistent.
pub proof fn law_release_consistent(v: BridgeView, name: Seq<char>)
    requires
        v.consistent(),
    ensures
        v.release(name).consistent(),
{
    let w = v.release(name);
    assert forall|n: Seq<char>| #[trigger] w.allocations.contains_key(n) implies w.allocated.contains(
        w.allocations[n],
    ) by {
        if v.allocations.contains_key(name) {
            assert(v.allocations[n] != v.allocations[name]);
        }
    }
}

/// Law: releasing the allocation of a realm that had none before undoes
/// allocating it a free address.
pub proof fn law_release_undoes_assign(v: BridgeView, name: Seq<char>, a: u32)
    requires
        !v.allocations.contains_key(name),
        !v.allocated.contains(a),
    ensures
        v.assign(name, a).release(name) == v,
{
    assert(v.allocated.insert(a).remove(a) =~= v.allocated);
    assert(v.allocations.insert(name, a).remove(name) =~= v.allocations);
}

} // verus!
