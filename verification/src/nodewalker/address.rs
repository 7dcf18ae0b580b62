//! The text of a node address, `ip:port`, as the walk collects it.
//!
//! An IPv4-mapped address is written as its IPv4 address in dotted decimal;
//! any other as an IPv6 address: eight groups of lowercase hex digits
//! without leading zeros, separated by colons, where the first longest run of
//! two or more zero groups is replaced by `::`.
use vstd::prelude::*;

use crate::network::networkaddr::NetworkAddr;
use crate::utils::text::string_push;

verus! {

/// The decimal digit of `v` (below 10).
pub open spec fn spec_decimal_digit(v: int) -> char {
    ((v + 0x30) as u8) as char
}

/// The lowercase hexadecimal digit of `v` (below 16).
pub open spec fn spec_hex_digit(v: int) -> char {
    if v < 10 {
        ((v + 0x30) as u8) as char
    } else {
        ((v - 10 + 0x61) as u8) as char
    }
}

/// `n` in decimal, without leading zeros.
pub open spec fn spec_decimal(n: nat) -> Seq<char>
    decreases n,
{
    if n < 10 {
        seq![spec_decimal_digit(n as int)]
    } else {
        spec_decimal(n / 10).push(spec_decimal_digit((n % 10) as int))
    }
}

/// `n` in lowercase hexadecimal, without leading zeros.
pub open spec fn spec_hex(n: nat) -> Seq<char>
    decreases n,
{
    if n < 16 {
        seq![spec_hex_digit(n as int)]
    } else {
        spec_hex(n / 16).push(spec_hex_digit((n % 16) as int))
    }
}

/// The address is an IPv4-mapped IPv6 address.
pub open spec fn spec_is_ipv4_mapped(ip: Seq<u8>) -> bool {
    &&& forall|k: int| 0 <= k < 10 ==> #[trigger] ip[k] == 0
    &&& ip[10] == 0xFF
    &&& ip[11] == 0xFF
}

/// The IPv4 address in the last four bytes, in dotted decimal.
pub open spec fn spec_ipv4_text(ip: Seq<u8>) -> Seq<char> {
    spec_decimal(ip[12] as nat) + seq!['.'] + spec_decimal(ip[13] as nat) + seq!['.']
        + spec_decimal(ip[14] as nat) + seq!['.'] + spec_decimal(ip[15] as nat)
}

/// The eight 16-bit groups of an IPv6 address, most significant byte first.
pub open spec fn spec_groups(ip: Seq<u8>) -> Seq<int> {
    Seq::new(8, |i: int| ip[2 * i] * 256 + ip[2 * i + 1])
}

/// Groups `start` to `start + len` exist and are zero.
pub open spec fn spec_zero_run(groups: Seq<int>, start: int, len: int) -> bool {
    &&& 0 <= start
    &&& 0 <= len
    &&& start + len <= groups.len()
    &&& forall|k: int| start <= k < start + len ==> #[trigger] groups[k] == 0
}

/// `(start, len)` is the first of the longest runs of zero groups.
pub open spec fn spec_longest_zero_run(groups: Seq<int>, start: int, len: int) -> bool {
    &&& spec_zero_run(groups, start, len)
    &&& forall|s: int, l: int|
        #[trigger] spec_zero_run(groups, s, l) ==> l <= len && (l == len ==> start <= s)
}

/// The groups in hexadecimal, separated by colons.
pub open spec fn spec_groups_text(groups: Seq<int>) -> Seq<char>
    decreases groups.len(),
{
    if groups.len() == 0 {
        Seq::empty()
    } else if groups.len() == 1 {
        spec_hex(groups[0] as nat)
    } else {
        spec_groups_text(groups.drop_last()) + seq![':'] + spec_hex(groups.last() as nat)
    }
}

/// The IPv6 text of groups whose first longest run of zeros is
/// `(start, len)`: the run replaced by `::` when it has two groups or more.
pub open spec fn spec_ipv6_text_with(groups: Seq<int>, start: int, len: int) -> Seq<char> {
    if len > 1 {
        spec_groups_text(groups.take(start)) + seq![':', ':'] + spec_groups_text(
            groups.skip(start + len),
        )
    } else {
        spec_groups_text(groups)
    }
}

/// The text of an address: dotted decimal for an IPv4-mapped address, else
/// the IPv6 text.
pub open spec fn spec_ip_text(ip: Seq<u8>) -> Seq<char> {
    if spec_is_ipv4_mapped(ip) {
        spec_ipv4_text(ip)
    } else {
        let groups = spec_groups(ip);
        let (start, len) = choose|s: int, l: int| spec_longest_zero_run(groups, s, l);
        spec_ipv6_text_with(groups, start, len)
    }
}

/// The text of a node address: its IP text, a colon and the port in decimal.
pub open spec fn spec_addr_text(ip: Seq<u8>, port: u16) -> Seq<char> {
    spec_ip_text(ip) + seq![':'] + spec_decimal(port as nat)
}

fn push_decimal(s: &mut String, n: u64)
    ensures
        final(s)@ == old(s)@ + spec_decimal(n as nat),
    decreases n,
{
    if n >= 10 {
        push_decimal(s, n / 10);
    }
    let d = (n % 10) as u8;
    string_push(s, (d + 0x30) as char);
}

fn push_hex(s: &mut String, n: u64)
    ensures
        final(s)@ == old(s)@ + spec_hex(n as nat),
    decreases n,
{
    if n >= 16 {
        push_hex(s, n / 16);
    }
    let d = (n % 16) as u8;
    let c = if d < 10 {
        (d + 0x30) as char
    } else {
        (d - 10 + 0x61) as char
    };
    string_push(s, c);
}

/// Appends groups `from` to `to` in hexadecimal, separated by colons.
fn push_groups(s: &mut String, groups: &[u64; 8], from: usize, to: usize)
    requires
        from <= to <= 8,
        forall|k: int| 0 <= k < 8 ==> #[trigger] groups@[k] < 65536,
    ensures
        final(s)@ == old(s)@ + spec_groups_text(
            groups@.map_values(|g: u64| g as int).subrange(from as int, to as int),
        ),
{
    let ghost all = groups@.map_values(|g: u64| g as int);
    let ghost start = s@;
    let mut i: usize = from;
    assert(all.subrange(from as int, from as int) =~= Seq::<int>::empty());
    assert(start + Seq::<char>::empty() =~= start);
    while i < to
        invariant
            from <= i <= to <= 8,
            all == groups@.map_values(|g: u64| g as int),
            s@ == start + spec_groups_text(all.subrange(from as int, i as int)),
        decreases to - i,
    {
        let ghost before = s@;
        if i > from {
            string_push(s, ':');
        }
        push_hex(s, groups[i]);
        proof {
            let next = all.subrange(from as int, i + 1);
            assert(next.drop_last() =~= all.subrange(from as int, i as int));
            assert(next.last() == groups@[i as int] as int);
            if i == from {
                assert(next.len() == 1);
                assert(spec_groups_text(all.subrange(from as int, i as int)) =~= Seq::<char>::empty());
            }
            assert(s@ =~= start + spec_groups_text(next));
        }
        i = i + 1;
    }
}

/// The first longest run of zero groups.
fn longest_zero_run(groups: &[u64; 8]) -> (r: (usize, usize))
    requires
        forall|k: int| 0 <= k < 8 ==> #[trigger] groups@[k] < 65536,
    ensures
        spec_longest_zero_run(groups@.map_values(|g: u64| g as int), r.0 as int, r.1 as int),
{
    let ghost all = groups@.map_values(|g: u64| g as int);
    let mut best_start: usize = 0;
    let mut best_len: usize = 0;
    let mut cur_start: usize = 0;
    let mut cur_len: usize = 0;
    let mut i: usize = 0;
    while i < 8
        invariant
            i <= 8,
            all == groups@.map_values(|g: u64| g as int),
            all.len() == 8,
            cur_start + cur_len == i,
            spec_zero_run(all, cur_start as int, cur_len as int),
            cur_start == 0 || all[cur_start - 1] != 0,
            spec_zero_run(all, best_start as int, best_len as int),
            best_start + best_len <= i,
            forall|s: int, l: int|
                #[trigger] spec_zero_run(all, s, l) && s + l <= i ==> l <= best_len && (l
                    == best_len ==> best_start <= s),
        decreases 8 - i,
    {
        if groups[i] == 0 {
            if cur_len == 0 {
                cur_start = i;
            }
            cur_len = cur_len + 1;
            if cur_len > best_len {
                best_start = cur_start;
                best_len = cur_len;
            }
        } else {
            cur_start = i + 1;
            cur_len = 0;
        }
        proof {
            assert forall|s: int, l: int|
                #[trigger] spec_zero_run(all, s, l) && s + l <= i + 1 implies l <= best_len && (l
                    == best_len ==> best_start <= s) by {
                if s + l == i + 1 && l > 0 {
                    assert(all[i as int] == 0);
                    assert(s >= cur_start) by {
                        if s < cur_start {
                            assert(all[cur_start - 1] == 0);
                        }
                    }
                }
            }
        }
        i = i + 1;
    }
    proof {
        assert forall|s: int, l: int| #[trigger] spec_zero_run(all, s, l) implies l <= best_len && (l
            == best_len ==> best_start <= s) by {
            assert(s + l <= 8);
        }
    }
    (best_start, best_len)
}

/// The first longest run of zeros is one run.
proof fn lemma_longest_zero_run_unique(groups: Seq<int>, s1: int, l1: int, s2: int, l2: int)
    requires
        spec_longest_zero_run(groups, s1, l1),
        spec_longest_zero_run(groups, s2, l2),
    ensures
        s1 == s2,
        l1 == l2,
{
    assert(spec_zero_run(groups, s2, l2));
    assert(spec_zero_run(groups, s1, l1));
}

/// The text of `addr`'s IP address and port, `ip:port`.
pub fn addr_text(addr: &NetworkAddr) -> (s: String)
    ensures
        s@ == spec_addr_text(addr.ip@, addr.port),
{
    let ip = &addr.ip;
    let mut s = String::new();
    let mapped = ip[0] == 0 && ip[1] == 0 && ip[2] == 0 && ip[3] == 0 && ip[4] == 0 && ip[5] == 0
        && ip[6] == 0 && ip[7] == 0 && ip[8] == 0 && ip[9] == 0 && ip[10] == 0xFF && ip[11] == 0xFF;
    if mapped {
        assert(spec_is_ipv4_mapped(ip@));
        push_decimal(&mut s, ip[12] as u64);
        string_push(&mut s, '.');
        push_decimal(&mut s, ip[13] as u64);
        string_push(&mut s, '.');
        push_decimal(&mut s, ip[14] as u64);
        string_push(&mut s, '.');
        push_decimal(&mut s, ip[15] as u64);
        assert(s@ =~= spec_ipv4_text(ip@));
    } else {
        assert(!spec_is_ipv4_mapped(ip@)) by {
            if spec_is_ipv4_mapped(ip@) {
                assert(ip@[0] == 0 && ip@[1] == 0 && ip@[2] == 0 && ip@[3] == 0 && ip@[4] == 0);
                assert(ip@[5] == 0 && ip@[6] == 0 && ip@[7] == 0 && ip@[8] == 0 && ip@[9] == 0);
            }
        }
        let mut groups: [u64; 8] = [0u64; 8];
        let mut i: usize = 0;
        while i < 8
            invariant
                i <= 8,
                forall|k: int| 0 <= k < 8 ==> #[trigger] groups@[k] < 65536,
                forall|k: int|
                    0 <= k < i ==> #[trigger] groups@[k] as int == spec_groups(ip@)[k],
            decreases 8 - i,
        {
            groups[i] = (ip[2 * i] as u64) * 256 + (ip[2 * i + 1] as u64);
            i = i + 1;
        }
        let ghost all = groups@.map_values(|g: u64| g as int);
        assert(all =~= spec_groups(ip@));
        let (start, len) = longest_zero_run(&groups);
        proof {
            let chosen = choose|s: int, l: int| spec_longest_zero_run(all, s, l);
            lemma_longest_zero_run_unique(all, chosen.0, chosen.1, start as int, len as int);
        }
        if len > 1 {
            push_groups(&mut s, &groups, 0, start);
            string_push(&mut s, ':');
            string_push(&mut s, ':');
            push_groups(&mut s, &groups, start + len, 8);
            assert(all.subrange(0, start as int) =~= all.take(start as int));
            assert(all.subrange((start + len) as int, 8) =~= all.skip((start + len) as int));
        } else {
            push_groups(&mut s, &groups, 0, 8);
            assert(all.subrange(0, 8) =~= all);
        }
        assert(s@ =~= spec_ipv6_text_with(all, start as int, len as int));
    }
    let ghost ip_part = s@;
    string_push(&mut s, ':');
    push_decimal(&mut s, addr.port as u64);
    assert(s@ =~= ip_part + seq![':'] + spec_decimal(addr.port as nat));
    s
}

} // verus!
