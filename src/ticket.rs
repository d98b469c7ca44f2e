use vstd::prelude::*;
use crate::address::same_bytes;

verus! {

/// The text that opens every ticket's name: "Token Lottery Ticket #".
pub open spec fn ticket_prefix() -> Seq<u8> {
    seq![
        84u8, 111u8, 107u8, 101u8, 110u8, 32u8, 76u8, 111u8, 116u8, 116u8, 101u8,
        114u8, 121u8, 32u8, 84u8, 105u8, 99u8, 107u8, 101u8, 116u8, 32u8, 35u8,
    ]
}

/// The decimal digits of `n` in ASCII, most significant first, with no
/// leading zero.
pub open spec fn decimal(n: nat) -> Seq<u8>
    decreases n,
{
    if n < 10 {
        seq![(48 + n) as u8]
    } else {
        decimal(n / 10).push((48 + n % 10) as u8)
    }
}

/// The name under which ticket number `n` is registered.
pub open spec fn ticket_name(n: nat) -> Seq<u8> {
    ticket_prefix() + decimal(n)
}

/// `s` with its zero bytes removed (a registry pads names with them).
pub open spec fn strip_nul(s: Seq<u8>) -> Seq<u8>
    decreases s.len(),
{
    if s.len() == 0 {
        seq![]
    } else if s.last() == 0 {
        strip_nul(s.drop_last())
    } else {
        strip_nul(s.drop_last()).push(s.last())
    }
}

proof fn lemma_decimal_shape(n: nat)
    ensures
        decimal(n).len() >= 1,
        decimal(n).len() == 1 <==> n < 10,
        decimal(n).last() == (48 + n % 10) as u8,
    decreases n,
{
    if n >= 10 {
        lemma_decimal_shape(n / 10);
    }
}

/// Different numbers have different decimal renderings.
pub proof fn lemma_decimal_injective(a: nat, b: nat)
    requires
        decimal(a) == decimal(b),
    ensures
        a == b,
    decreases a,
{
    lemma_decimal_shape(a);
    lemma_decimal_shape(b);
    if a >= 10 && b >= 10 {
        assert(decimal(a / 10) == decimal(a).drop_last());
        assert(decimal(b / 10) == decimal(b).drop_last());
        lemma_decimal_injective(a / 10, b / 10);
    }
}

/// Different ticket numbers have different ticket names.
pub proof fn lemma_ticket_name_injective(a: nat, b: nat)
    requires
        ticket_name(a) == ticket_name(b),
    ensures
        a == b,
{
    let p = ticket_prefix();
    assert(decimal(a) =~= ticket_name(a).subrange(p.len() as int, ticket_name(a).len() as int));
    assert(decimal(b) =~= ticket_name(b).subrange(p.len() as int, ticket_name(b).len() as int));
    lemma_decimal_injective(a, b);
}

/// The decimal digits of `n` in ASCII.
pub fn decimal_digits(n: u64) -> (r: Vec<u8>)
    ensures
        r@ == decimal(n as nat),
    decreases n,
{
    if n < 10 {
        let mut v: Vec<u8> = Vec::new();
        v.push(48u8 + n as u8);
        v
    } else {
        let mut v = decimal_digits(n / 10);
        v.push(48u8 + (n % 10) as u8);
        v
    }
}

/// The name under which ticket number `n` is registered.
pub fn ticket_name_bytes(n: u64) -> (r: Vec<u8>)
    ensures
        r@ == ticket_name(n as nat),
{
    let mut r: Vec<u8> = vec![
        84u8, 111u8, 107u8, 101u8, 110u8, 32u8, 76u8, 111u8, 116u8, 116u8, 101u8,
        114u8, 121u8, 32u8, 84u8, 105u8, 99u8, 107u8, 101u8, 116u8, 32u8, 35u8,
    ];
    assert(r@ =~= ticket_prefix());
    let mut digits = decimal_digits(n);
    r.append(&mut digits);
    r
}

/// `s` with its zero bytes removed.
pub fn stripped(s: &Vec<u8>) -> (r: Vec<u8>)
    ensures
        r@ == strip_nul(s@),
{
    let mut r: Vec<u8> = Vec::new();
    let mut i: usize = 0;
    while i < s.len()
        invariant
            0 <= i <= s@.len(),
            r@ == strip_nul(s@.subrange(0, i as int)),
        decreases s@.len() - i,
    {
        assert(s@.subrange(0, i as int + 1).drop_last() =~= s@.subrange(0, i as int));
        if s[i] != 0 {
            r.push(s[i]);
        }
        i = i + 1;
    }
    assert(s@.subrange(0, s@.len() as int) =~= s@);
    r
}

/// Whether `name`, once its zero bytes are removed, is the name of ticket `n`.
pub fn names_ticket(name: &Vec<u8>, n: u64) -> (r: bool)
    ensures
        r == (strip_nul(name@) == ticket_name(n as nat)),
{
    let have = stripped(name);
    let want = ticket_name_bytes(n);
    same_bytes(&have, &want)
}

} // verus!
