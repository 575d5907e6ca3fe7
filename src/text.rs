use vstd::prelude::*;
use vstd::string::StringExecFns;

use crate::address::{IpAddress, SocketAddress};

verus! {

/// The text of one digit, `0`-`9` then `a`-`f`.
pub open spec fn digit_text(d: nat) -> Seq<char> {
    if d == 0 {
        "0"@
    } else if d == 1 {
        "1"@
    } else if d == 2 {
        "2"@
    } else if d == 3 {
        "3"@
    } else if d == 4 {
        "4"@
    } else if d == 5 {
        "5"@
    } else if d == 6 {
        "6"@
    } else if d == 7 {
        "7"@
    } else if d == 8 {
        "8"@
    } else if d == 9 {
        "9"@
    } else if d == 10 {
        "a"@
    } else if d == 11 {
        "b"@
    } else if d == 12 {
        "c"@
    } else if d == 13 {
        "d"@
    } else if d == 14 {
        "e"@
    } else {
        "f"@
    }
}

/// `n` written in base `base` (10 or 16), most significant digit first, without leading zeros.
pub open spec fn numeral(n: nat, base: nat) -> Seq<char>
    decreases n,
    via numeral_decreases
{
    if base < 2 || n < base {
        digit_text(n)
    } else {
        numeral(n / base, base) + digit_text(n % base)
    }
}

#[via_fn]
proof fn numeral_decreases(n: nat, base: nat) {
    if !(base < 2 || n < base) {
        assert(n / base < n) by (nonlinear_arith)
            requires
                base >= 2,
                n >= base,
        ;
    }
}

/// Dotted decimal text of four octets.
pub open spec fn v4_text(a: nat, b: nat, c: nat, d: nat) -> Seq<char> {
    numeral(a, 10) + "."@ + numeral(b, 10) + "."@ + numeral(c, 10) + "."@ + numeral(d, 10)
}

/// The eight segments of an IPv6 address.
pub open spec fn v6_segments(a: u16, b: u16, c: u16, d: u16, e: u16, f: u16, g: u16, h: u16) -> Seq<u16> {
    seq![a, b, c, d, e, f, g, h]
}

/// Hexadecimal segments joined by `:`.
pub open spec fn hex_groups(s: Seq<u16>) -> Seq<char>
    decreases s.len(),
{
    if s.len() == 0 {
        Seq::empty()
    } else if s.len() == 1 {
        numeral(s[0] as nat, 16)
    } else {
        hex_groups(s.drop_last()) + ":"@ + numeral(s.last() as nat, 16)
    }
}

/// Scanning the first `n` segments for runs of zeros, left to right: the start and length of
/// the current run, then of the longest run so far (a later run replaces it only when longer).
pub open spec fn zero_scan(s: Seq<u16>, n: nat) -> (int, int, int, int)
    decreases n,
{
    if n == 0 {
        (0, 0, 0, 0)
    } else {
        let (cs, cl, bs, bl) = zero_scan(s, (n - 1) as nat);
        if s[n - 1] == 0 {
            let start = if cl == 0 {
                n - 1
            } else {
                cs
            };
            if cl + 1 > bl {
                (start, cl + 1, start, cl + 1)
            } else {
                (start, cl + 1, bs, bl)
            }
        } else {
            (0, 0, bs, bl)
        }
    }
}

/// The address embeds an IPv4 address as `::ffff:a.b.c.d`.
pub open spec fn is_ipv4_mapped(s: Seq<u16>) -> bool {
    s[0] == 0 && s[1] == 0 && s[2] == 0 && s[3] == 0 && s[4] == 0 && s[5] == 0xffff
}

/// The standard text of an IPv6 address: an IPv4-mapped address as `::ffff:` and dotted
/// decimal; otherwise lower-case hexadecimal segments without leading zeros, joined by `:`,
/// the longest run of two or more zero segments (the first, on a tie) written as `::`.
pub open spec fn v6_text(s: Seq<u16>) -> Seq<char> {
    if is_ipv4_mapped(s) {
        "::ffff:"@ + v4_text(s[6] as nat / 256, s[6] as nat % 256, s[7] as nat / 256, s[7] as nat % 256)
    } else {
        let (cs, cl, bs, bl) = zero_scan(s, 8);
        if bl > 1 {
            hex_groups(s.subrange(0, bs)) + "::"@ + hex_groups(s.subrange(bs + bl, 8))
        } else {
            hex_groups(s)
        }
    }
}

/// The standard text of an IP address: dotted decimal for IPv4, `v6_text` for IPv6.
pub open spec fn ip_text(ip: IpAddress) -> Seq<char> {
    match ip {
        IpAddress::V4(a, b, c, d) => v4_text(a as nat, b as nat, c as nat, d as nat),
        IpAddress::V6(a, b, c, d, e, f, g, h) => v6_text(v6_segments(a, b, c, d, e, f, g, h)),
    }
}

/// The text of an endpoint: `ip:port`, with an IPv6 address in brackets.
pub open spec fn socket_text(addr: SocketAddress) -> Seq<char> {
    match addr.ip {
        IpAddress::V4(..) => ip_text(addr.ip) + ":"@ + numeral(addr.port as nat, 10),
        IpAddress::V6(..) => "["@ + ip_text(addr.ip) + "]:"@ + numeral(addr.port as nat, 10),
    }
}

/// The URI a transport channel dials for an endpoint.
pub open spec fn channel_uri(addr: SocketAddress) -> Seq<char> {
    "http://"@ + socket_text(addr)
}

fn digit_str(d: u64) -> (r: &'static str)
    requires
        d < 16,
    ensures
        r@ == digit_text(d as nat),
{
    if d == 0 {
        "0"
    } else if d == 1 {
        "1"
    } else if d == 2 {
        "2"
    } else if d == 3 {
        "3"
    } else if d == 4 {
        "4"
    } else if d == 5 {
        "5"
    } else if d == 6 {
        "6"
    } else if d == 7 {
        "7"
    } else if d == 8 {
        "8"
    } else if d == 9 {
        "9"
    } else if d == 10 {
        "a"
    } else if d == 11 {
        "b"
    } else if d == 12 {
        "c"
    } else if d == 13 {
        "d"
    } else if d == 14 {
        "e"
    } else {
        "f"
    }
}

/// Appends `n` written in base `base` (10 or 16).
pub fn push_numeral(s: &mut String, n: u64, base: u64)
    requires
        base == 10 || base == 16,
    ensures
        final(s)@ == old(s)@ + numeral(n as nat, base as nat),
    decreases n,
{
    if n >= base {
        push_numeral(s, n / base, base);
        s.append(digit_str(n % base));
        proof {
            assert(final(s)@ =~= old(s)@ + numeral(n as nat, base as nat));
        }
    } else {
        s.append(digit_str(n));
    }
}

/// `n` in decimal.
pub fn decimal(n: u64) -> (r: String)
    ensures
        r@ == numeral(n as nat, 10),
{
    let mut s = String::new();
    push_numeral(&mut s, n, 10);
    proof {
        assert(s@ =~= numeral(n as nat, 10));
    }
    s
}

fn push_v4(s: &mut String, a: u64, b: u64, c: u64, d: u64)
    requires
        a < 256,
        b < 256,
        c < 256,
        d < 256,
    ensures
        final(s)@ == old(s)@ + v4_text(a as nat, b as nat, c as nat, d as nat),
{
    let ghost start = s@;
    push_numeral(s, a, 10);
    s.append(".");
    push_numeral(s, b, 10);
    s.append(".");
    push_numeral(s, c, 10);
    s.append(".");
    push_numeral(s, d, 10);
    proof {
        assert(s@ =~= start + v4_text(a as nat, b as nat, c as nat, d as nat));
    }
}

fn push_hex_groups(s: &mut String, segs: &Vec<u16>, from: usize, to: usize)
    requires
        from <= to <= segs@.len(),
    ensures
        final(s)@ == old(s)@ + hex_groups(segs@.subrange(from as int, to as int)),
{
    let ghost start = s@;
    let mut i: usize = from;
    proof {
        assert(segs@.subrange(from as int, from as int) =~= Seq::<u16>::empty());
    }
    while i < to
        invariant
            from <= i <= to <= segs@.len(),
            s@ == start + hex_groups(segs@.subrange(from as int, i as int)),
        decreases to - i,
    {
        let ghost before = s@;
        if i > from {
            s.append(":");
        }
        push_numeral(s, segs[i] as u64, 16);
        proof {
            let sub = segs@.subrange(from as int, i + 1);
            assert(sub.drop_last() =~= segs@.subrange(from as int, i as int));
            assert(sub.last() == segs@[i as int]);
            if i > from {
                assert(s@ =~= start + hex_groups(sub));
            } else {
                assert(sub.len() == 1);
                assert(s@ =~= start + hex_groups(sub));
            }
        }
        i = i + 1;
    }
}

/// The longest run of zero segments, as `zero_scan` finds it: (start, length).
fn longest_zero_run(segs: &Vec<u16>) -> (r: (usize, usize))
    requires
        segs@.len() == 8,
    ensures
        r.0 as int == zero_scan(segs@, 8).2,
        r.1 as int == zero_scan(segs@, 8).3,
        r.0 + r.1 <= 8,
{
    let mut cs: usize = 0;
    let mut cl: usize = 0;
    let mut bs: usize = 0;
    let mut bl: usize = 0;
    let mut i: usize = 0;
    while i < 8
        invariant
            segs@.len() == 8,
            i <= 8,
            zero_scan(segs@, i as nat) == (cs as int, cl as int, bs as int, bl as int),
            cs + cl <= i,
            bs + bl <= i,
        decreases 8 - i,
    {
        if segs[i] == 0 {
            if cl == 0 {
                cs = i;
            }
            cl = cl + 1;
            if cl > bl {
                bs = cs;
                bl = cl;
            }
        } else {
            cs = 0;
            cl = 0;
        }
        i = i + 1;
    }
    (bs, bl)
}

/// Appends the text of an IP address.
pub fn push_ip(s: &mut String, ip: IpAddress)
    ensures
        final(s)@ == old(s)@ + ip_text(ip),
{
    let ghost start = s@;
    match ip {
        IpAddress::V4(a, b, c, d) => {
            push_v4(s, a as u64, b as u64, c as u64, d as u64);
        },
        IpAddress::V6(a, b, c, d, e, f, g, h) => {
            let segs: Vec<u16> = vec![a, b, c, d, e, f, g, h];
            proof {
                assert(segs@ =~= v6_segments(a, b, c, d, e, f, g, h));
            }
            if a == 0 && b == 0 && c == 0 && d == 0 && e == 0 && f == 0xffff {
                s.append("::ffff:");
                push_v4(s, g as u64 / 256, g as u64 % 256, h as u64 / 256, h as u64 % 256);
            } else {
                let (bs, bl) = longest_zero_run(&segs);
                if bl > 1 {
                    push_hex_groups(s, &segs, 0, bs);
                    s.append("::");
                    push_hex_groups(s, &segs, bs + bl, 8);
                } else {
                    push_hex_groups(s, &segs, 0, 8);
                    proof {
                        assert(segs@.subrange(0, 8) =~= segs@);
                    }
                }
            }
        },
    }
    proof {
        assert(s@ =~= start + ip_text(ip));
    }
}

/// Appends the text of an endpoint.
pub fn push_socket(s: &mut String, addr: SocketAddress)
    ensures
        final(s)@ == old(s)@ + socket_text(addr),
{
    let ghost start = s@;
    match addr.ip {
        IpAddress::V4(..) => {
            push_ip(s, addr.ip);
            s.append(":");
        },
        IpAddress::V6(..) => {
            s.append("[");
            push_ip(s, addr.ip);
            s.append("]:");
        },
    }
    push_numeral(s, addr.port as u64, 10);
    proof {
        assert(s@ =~= start + socket_text(addr));
    }
}

/// The text of an IP address.
pub fn ip_string(ip: IpAddress) -> (r: String)
    ensures
        r@ == ip_text(ip),
{
    let mut s = String::new();
    push_ip(&mut s, ip);
    proof {
        assert(s@ =~= ip_text(ip));
    }
    s
}

/// The text of an endpoint.
pub fn socket_string(addr: SocketAddress) -> (r: String)
    ensures
        r@ == socket_text(addr),
{
    let mut s = String::new();
    push_socket(&mut s, addr);
    proof {
        assert(s@ =~= socket_text(addr));
    }
    s
}

/// The URI a transport channel dials for an endpoint.
pub fn channel_uri_string(addr: SocketAddress) -> (r: String)
    ensures
        r@ == channel_uri(addr),
{
    let mut s = String::from_str("http://");
    push_socket(&mut s, addr);
    s
}

/// The IPv6 loopback address reads `::1`, and the IPv6 wildcard address reads `::`.
pub proof fn lemma_v6_loopback_text()
    ensures
        ip_text(IpAddress::V6(0, 0, 0, 0, 0, 0, 0, 1)) == "::1"@,
        ip_text(IpAddress::V6(0, 0, 0, 0, 0, 0, 0, 0)) == "::"@,
{
    reveal_with_fuel(zero_scan, 9);
    reveal_strlit("::1");
    reveal_strlit("::");
    reveal_strlit("1");
    let one = v6_segments(0, 0, 0, 0, 0, 0, 0, 1);
    let zero = v6_segments(0, 0, 0, 0, 0, 0, 0, 0);
    assert(zero_scan(one, 8) == (0int, 0int, 0int, 7int));
    assert(zero_scan(zero, 8) == (0int, 8int, 0int, 8int));
    assert(one.subrange(0, 0).len() == 0);
    assert(one.subrange(7, 8) =~= seq![1u16]);
    assert(hex_groups(one.subrange(7, 8)) == numeral(1, 16));
    assert(zero.subrange(0, 0).len() == 0);
    assert(zero.subrange(8, 8).len() == 0);
    assert(ip_text(IpAddress::V6(0, 0, 0, 0, 0, 0, 0, 1)) =~= "::1"@);
    assert(ip_text(IpAddress::V6(0, 0, 0, 0, 0, 0, 0, 0)) =~= "::"@);
}

} // verus!
