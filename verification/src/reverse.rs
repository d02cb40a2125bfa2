//! Parsing of reverse-DNS names ("in-addr.arpa" / "ip6.arpa") into IP
//! addresses, for the PTR path of the resolver.
//!
//! The grammar: a fully qualified name whose last label is `arpa` and whose
//! second-to-last label is `in-addr` (then at most four labels of one to
//! three decimal digits, each at most 255) or `ip6` (then at most thirty-two
//! labels of one hexadecimal digit). The fixed labels are matched ignoring
//! ASCII case. The data labels give the address from its low end upward;
//! labels missing on the low end stand for zero, so a shortened name gives
//! the network address of the named block.

use vstd::prelude::*;

use crate::types::DomainName;
use crate::types::IpAddress;

verus! {

/// ASCII lower-casing of one byte.
pub open spec fn lower_byte(b: u8) -> u8 {
    if 0x41 <= b <= 0x5a {
        (b + 0x20) as u8
    } else {
        b
    }
}

/// Case-insensitive equality of a label with an all-lowercase pattern.
pub open spec fn label_eq_ci(l: Seq<u8>, pat: Seq<u8>) -> bool {
    l.len() == pat.len() && forall|i: int| 0 <= i < l.len() ==> lower_byte(l[i]) == pat[i]
}

/// The bytes of "arpa".
pub open spec fn arpa_label() -> Seq<u8> {
    seq![97u8, 114u8, 112u8, 97u8]
}

/// The bytes of "in-addr".
pub open spec fn in_addr_label() -> Seq<u8> {
    seq![105u8, 110u8, 45u8, 97u8, 100u8, 100u8, 114u8]
}

/// The bytes of "ip6".
pub open spec fn ip6_label() -> Seq<u8> {
    seq![105u8, 112u8, 54u8]
}

/// Whether a byte is an ASCII decimal digit.
pub open spec fn is_digit(b: u8) -> bool {
    0x30 <= b <= 0x39
}

/// Value of an ASCII decimal digit.
pub open spec fn digit_val(b: u8) -> int {
    b - 0x30
}

/// Decimal value of a digit string, most significant digit first.
pub open spec fn dec_val(l: Seq<u8>) -> int
    decreases l.len(),
{
    if l.len() == 0 {
        0
    } else {
        dec_val(l.drop_last()) * 10 + digit_val(l.last())
    }
}

/// An octet label of a dotted-quad reverse name: one to three decimal
/// digits whose value is at most 255.
pub open spec fn is_octet_label(l: Seq<u8>) -> bool {
    &&& 1 <= l.len() <= 3
    &&& forall|i: int| 0 <= i < l.len() ==> is_digit(l[i])
    &&& dec_val(l) <= 255
}

/// Whether a byte is an ASCII hexadecimal digit, either case.
pub open spec fn is_hex_digit(b: u8) -> bool {
    is_digit(b) || 0x61 <= b <= 0x66 || 0x41 <= b <= 0x46
}

/// Value of an ASCII hexadecimal digit.
pub open spec fn hex_val(b: u8) -> int {
    if is_digit(b) {
        b - 0x30
    } else if 0x61 <= b <= 0x66 {
        b - 0x61 + 10
    } else {
        b - 0x41 + 10
    }
}

/// A nibble label of an "ip6.arpa" name: exactly one hexadecimal digit.
pub open spec fn is_nibble_label(l: Seq<u8>) -> bool {
    l.len() == 1 && is_hex_digit(l[0])
}

/// Value of a base-`base` digit sequence, least significant digit first.
pub open spec fn place_val(vals: Seq<int>, base: int) -> int
    decreases vals.len(),
{
    if vals.len() == 0 {
        0
    } else {
        vals.first() + base * place_val(vals.drop_first(), base)
    }
}

/// `base` to the power `e`.
pub open spec fn powi(base: int, e: nat) -> int
    decreases e,
{
    if e == 0 {
        1
    } else {
        base * powi(base, (e - 1) as nat)
    }
}

/// The four octet values named by the data labels, low octet first: the
/// labels fill the high octets, missing low octets are zero.
pub open spec fn padded_octet_vals(data: Seq<Seq<u8>>) -> Seq<int> {
    Seq::new(
        4,
        |i: int|
            if i < 4 - data.len() {
                0
            } else {
                dec_val(data[i - (4 - data.len())])
            },
    )
}

/// The thirty-two nibble values named by the data labels, low nibble first:
/// the labels fill the high nibbles, missing low nibbles are zero.
pub open spec fn padded_nibble_vals(data: Seq<Seq<u8>>) -> Seq<int> {
    Seq::new(
        32,
        |i: int|
            if i < 32 - data.len() {
                0
            } else {
                hex_val(data[i - (32 - data.len())][0])
            },
    )
}

/// The IPv4 address named by the data labels of an "in-addr.arpa" name.
pub open spec fn v4_value(data: Seq<Seq<u8>>) -> int {
    place_val(padded_octet_vals(data), 256)
}

/// The IPv6 address named by the data labels of an "ip6.arpa" name.
pub open spec fn v6_value(data: Seq<Seq<u8>>) -> int {
    place_val(padded_nibble_vals(data), 16)
}

/// The IP address a domain name stands for under the reverse-DNS naming
/// convention, or `None` where the name is not a well-formed reverse name.
pub open spec fn spec_reverse_ip(ls: Seq<Seq<u8>>, fqdn: bool) -> Option<IpAddress> {
    if fqdn && ls.len() >= 2 && label_eq_ci(ls.last(), arpa_label()) {
        let data = ls.take(ls.len() - 2);
        let kind = ls[ls.len() - 2];
        if label_eq_ci(kind, in_addr_label()) {
            if data.len() <= 4 && (forall|i: int| 0 <= i < data.len() ==> is_octet_label(data[i])) {
                Some(IpAddress::V4(v4_value(data) as u32))
            } else {
                None
            }
        } else if label_eq_ci(kind, ip6_label()) {
            if data.len() <= 32 && (forall|i: int|
                0 <= i < data.len() ==> is_nibble_label(data[i])) {
                Some(IpAddress::V6(v6_value(data) as u128))
            } else {
                None
            }
        } else {
            None
        }
    } else {
        None
    }
}

fn arpa_pattern() -> (v: Vec<u8>)
    ensures
        v@ == arpa_label(),
{
    let mut v: Vec<u8> = Vec::new();
    v.push(97);
    v.push(114);
    v.push(112);
    v.push(97);
    proof {
        assert(v@ =~= arpa_label());
    }
    v
}

fn in_addr_pattern() -> (v: Vec<u8>)
    ensures
        v@ == in_addr_label(),
{
    let mut v: Vec<u8> = Vec::new();
    v.push(105);
    v.push(110);
    v.push(45);
    v.push(97);
    v.push(100);
    v.push(100);
    v.push(114);
    proof {
        assert(v@ =~= in_addr_label());
    }
    v
}

fn ip6_pattern() -> (v: Vec<u8>)
    ensures
        v@ == ip6_label(),
{
    let mut v: Vec<u8> = Vec::new();
    v.push(105);
    v.push(112);
    v.push(54);
    proof {
        assert(v@ =~= ip6_label());
    }
    v
}

fn label_matches(l: &Vec<u8>, pat: &Vec<u8>) -> (r: bool)
    ensures
        r == label_eq_ci(l@, pat@),
{
    if l.len() != pat.len() {
        return false;
    }
    let mut i: usize = 0;
    while i < l.len()
        invariant
            i <= l@.len(),
            l@.len() == pat@.len(),
            forall|j: int| 0 <= j < i ==> lower_byte(l@[j]) == pat@[j],
        decreases l@.len() - i,
    {
        let b = l[i];
        let low = if 0x41 <= b && b <= 0x5a {
            b + 0x20
        } else {
            b
        };
        if low != pat[i] {
            proof {
                assert(lower_byte(l@[i as int]) != pat@[i as int]);
            }
            return false;
        }
        i += 1;
    }
    true
}

proof fn lemma_pow16_pos(e: nat)
    ensures
        powi(16, e) >= 1,
    decreases e,
{
    if e > 0 {
        lemma_pow16_pos((e - 1) as nat);
    }
}

proof fn lemma_pow16_mono(a: nat, b: nat)
    requires
        a <= b,
    ensures
        powi(16, a) <= powi(16, b),
    decreases b,
{
    if a < b {
        lemma_pow16_mono(a, (b - 1) as nat);
        lemma_pow16_pos((b - 1) as nat);
    }
}

proof fn lemma_dec_val_bound(l: Seq<u8>)
    requires
        forall|i: int| 0 <= i < l.len() ==> is_digit(l[i]),
    ensures
        0 <= dec_val(l) < powi(10, l.len()),
    decreases l.len(),
{
    if l.len() > 0 {
        assert(forall|i: int| 0 <= i < l.drop_last().len() ==> is_digit(l.drop_last()[i]));
        lemma_dec_val_bound(l.drop_last());
    }
}

fn parse_octet(l: &Vec<u8>) -> (r: Option<u8>)
    ensures
        match r {
            Some(v) => is_octet_label(l@) && v as int == dec_val(l@),
            None => !is_octet_label(l@),
        },
{
    let len = l.len();
    if len == 0 || len > 3 {
        return None;
    }
    let mut acc: u32 = 0;
    let mut i: usize = 0;
    while i < len
        invariant
            i <= len,
            len == l@.len(),
            1 <= len <= 3,
            forall|j: int| 0 <= j < i ==> is_digit(l@[j]),
            acc as int == dec_val(l@.take(i as int)),
            acc <= 999,
        decreases len - i,
    {
        let b = l[i];
        if b < 0x30 || b > 0x39 {
            return None;
        }
        proof {
            assert(l@.take(i as int + 1).drop_last() =~= l@.take(i as int));
            assert(forall|j: int| 0 <= j < l@.take(i as int).len() ==> is_digit(
                l@.take(i as int)[j],
            ));
            lemma_dec_val_bound(l@.take(i as int));
            reveal_with_fuel(powi, 4);
        }
        acc = acc * 10 + (b - 0x30) as u32;
        i += 1;
    }
    proof {
        assert(l@.take(len as int) =~= l@);
    }
    if acc > 255 {
        return None;
    }
    Some(acc as u8)
}

fn parse_nibble(l: &Vec<u8>) -> (r: Option<u8>)
    ensures
        match r {
            Some(v) => is_nibble_label(l@) && v as int == hex_val(l@[0]) && v < 16,
            None => !is_nibble_label(l@),
        },
{
    if l.len() != 1 {
        return None;
    }
    let b = l[0];
    if 0x30 <= b && b <= 0x39 {
        Some(b - 0x30)
    } else if 0x61 <= b && b <= 0x66 {
        Some(b - 0x61 + 10)
    } else if 0x41 <= b && b <= 0x46 {
        Some(b - 0x41 + 10)
    } else {
        None
    }
}

/// Parses a reverse-DNS name into the IP address it stands for.
#[verifier::loop_isolation(false)]
pub fn parse_reverse_name(name: &DomainName) -> (r: Option<IpAddress>)
    ensures
        r == spec_reverse_ip(name.labels_view(), name.fqdn),
{
    let ghost lsv: Seq<Seq<u8>> = name.labels_view();
    if !name.fqdn {
        return None;
    }
    let n = name.labels.len();
    if n < 2 {
        return None;
    }
    let arpa = arpa_pattern();
    if !label_matches(&name.labels[n - 1], &arpa) {
        proof {
            assert(lsv.last() == name.labels@[n - 1]@);
        }
        return None;
    }
    proof {
        assert(lsv.last() == name.labels@[n - 1]@);
    }
    let in_addr = in_addr_pattern();
    let is_v4 = label_matches(&name.labels[n - 2], &in_addr);
    proof {
        assert(lsv[n - 2] == name.labels@[n - 2]@);
    }
    let ghost data: Seq<Seq<u8>> = lsv.take(n as int - 2);
    if is_v4 {
        let k = n - 2;
        if k > 4 {
            return None;
        }
        let mut vals: Vec<u8> = Vec::new();
        let mut z: usize = 0;
        while z < 4 - k
            invariant
                z <= 4 - k,
                k <= 4,
                vals@.len() == z as int,
                forall|j: int| 0 <= j < z ==> vals@[j] == 0,
            decreases 4 - k - z,
        {
            vals.push(0);
            z += 1;
        }
        let mut i: usize = 0;
        while i < k
            invariant
                i <= k,
                k <= 4,
                k == n - 2,
                n == name.labels@.len(),
                lsv == name.labels_view(),
                data == lsv.take(n as int - 2),
                vals@.len() == 4 - k + i,
                forall|j: int| 0 <= j < 4 - k ==> vals@[j] == 0,
                forall|j: int| 0 <= j < i ==> is_octet_label(#[trigger] data[j]),
                forall|j: int| 0 <= j < i ==> #[trigger] vals@[4 - k + j] as int == dec_val(
                    data[j],
                ),
            decreases k - i,
        {
            proof {
                assert(data[i as int] == name.labels@[i as int]@);
            }
            match parse_octet(&name.labels[i]) {
                None => {
                    proof {
                        assert(!is_octet_label(data[i as int]));
                    }
                    return None;
                },
                Some(v) => {
                    vals.push(v);
                },
            }
            i += 1;
        }
        let a0 = vals[0] as u32;
        let a1 = vals[1] as u32;
        let a2 = vals[2] as u32;
        let a3 = vals[3] as u32;
        proof {
            assert(a0 <= 255 && a1 <= 255 && a2 <= 255 && a3 <= 255) by {
                if 4 - k >= 1 {
                    assert(vals@[0] == 0);
                }
                if 4 - k >= 2 {
                    assert(vals@[1] == 0);
                }
                if 4 - k >= 3 {
                    assert(vals@[2] == 0);
                }
                if 4 - k >= 4 {
                    assert(vals@[3] == 0);
                }
            }
        }
        let addr = a0 + a1 * 0x100 + a2 * 0x10000 + a3 * 0x1000000;
        proof {
            let pv = padded_octet_vals(data);
            assert(pv.len() == 4);
            assert forall|t: int| 0 <= t < 4 implies #[trigger] pv[t] == vals@[t] as int by {
                if t >= 4 - k {
                    let j = t - (4 - k);
                    assert(vals@[4 - k + j] as int == dec_val(data[j]));
                }
            }
            reveal_with_fuel(place_val, 5);
            let s1 = pv.drop_first();
            let s2 = s1.drop_first();
            let s3 = s2.drop_first();
            assert(s3.len() == 1 && s3.drop_first().len() == 0);
            assert(place_val(s3, 256) == pv[3]);
            assert(place_val(s2, 256) == pv[2] + 256 * pv[3]);
            assert(place_val(s1, 256) == pv[1] + 256 * (pv[2] + 256 * pv[3]));
            assert(place_val(pv, 256) == pv[0] + 256 * (pv[1] + 256 * (pv[2] + 256 * pv[3])));
            assert(addr as int == v4_value(data));
        }
        return Some(IpAddress::V4(addr));
    }
    let ip6 = ip6_pattern();
    let is_v6 = label_matches(&name.labels[n - 2], &ip6);
    if !is_v6 {
        return None;
    }
    let k = n - 2;
    if k > 32 {
        return None;
    }
    let mut vals: Vec<u8> = Vec::new();
    let mut z: usize = 0;
    while z < 32 - k
        invariant
            z <= 32 - k,
            k <= 32,
            vals@.len() == z as int,
            forall|j: int| 0 <= j < z ==> vals@[j] == 0,
        decreases 32 - k - z,
    {
        vals.push(0);
        z += 1;
    }
    let mut i: usize = 0;
    while i < k
        invariant
            i <= k,
            k <= 32,
            k == n - 2,
            n == name.labels@.len(),
            lsv == name.labels_view(),
            data == lsv.take(n as int - 2),
            vals@.len() == 32 - k + i,
            forall|j: int| 0 <= j < 32 - k ==> vals@[j] == 0,
            forall|j: int| 0 <= j < i ==> is_nibble_label(#[trigger] data[j]),
            forall|j: int| 0 <= j < i ==> #[trigger] vals@[32 - k + j] as int == hex_val(
                data[j][0],
            ),
            forall|j: int| 0 <= j < vals@.len() ==> #[trigger] vals@[j] < 16,
        decreases k - i,
    {
        proof {
            assert(data[i as int] == name.labels@[i as int]@);
        }
        match parse_nibble(&name.labels[i]) {
            None => {
                proof {
                    assert(!is_nibble_label(data[i as int]));
                }
                return None;
            },
            Some(v) => {
                vals.push(v);
            },
        }
        i += 1;
    }
    let ghost pv: Seq<int> = padded_nibble_vals(data);
    proof {
        assert(pv.len() == 32);
        assert forall|t: int| 0 <= t < 32 implies #[trigger] pv[t] == vals@[t] as int by {
            if t >= 32 - k {
                let j = t - (32 - k);
                assert(vals@[32 - k + j] as int == hex_val(data[j][0]));
            }
        }
        assert(forall|t: int| 0 <= t < 32 ==> 0 <= #[trigger] pv[t] < 16);
    }
    let mut acc: u128 = 0;
    let mut j: usize = 0;
    while j < 32
        invariant
            j <= 32,
            vals@.len() == 32,
            pv == padded_nibble_vals(data),
            pv.len() == 32,
            forall|t: int| 0 <= t < 32 ==> #[trigger] pv[t] == vals@[t] as int,
            forall|t: int| 0 <= t < 32 ==> 0 <= #[trigger] pv[t] < 16,
            acc as int == place_val(pv.subrange(32 - j, 32), 16),
            (acc as int) < powi(16, j as nat),
        decreases 32 - j,
    {
        let v = vals[31 - j];
        proof {
            assert(powi(16, (j + 1) as nat) == 16 * powi(16, j as nat));
            lemma_pow16_mono((j + 1) as nat, 32);
            assert(powi(16, 32) == 0x100000000000000000000000000000000) by {
                reveal_with_fuel(powi, 33);
            }
            assert(pv.subrange(32 - (j + 1), 32).drop_first() =~= pv.subrange(32 - j as int, 32));
            assert(pv.subrange(32 - (j + 1), 32).first() == pv[31 - j as int]);
        }
        acc = acc * 16 + v as u128;
        j += 1;
    }
    proof {
        assert(pv.subrange(0, 32) =~= pv);
        assert(acc as int == v6_value(data));
    }
    Some(IpAddress::V6(acc))
}

} // verus!
