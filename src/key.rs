use vstd::prelude::*;

use crate::connector::{is_first_step, Connector, ReadStep};
use crate::error::ModelError;
use crate::model::UserDetails;

verus! {

/// The decimal digit character for `d`.
pub open spec fn digit_char(d: nat) -> char
    recommends
        d < 10,
{
    if d == 0 { '0' } else if d == 1 { '1' } else if d == 2 { '2' } else if d == 3 { '3' }
    else if d == 4 { '4' } else if d == 5 { '5' } else if d == 6 { '6' } else if d == 7 { '7' }
    else if d == 8 { '8' } else { '9' }
}

/// The decimal numeral of `n`, without leading zeros.
pub open spec fn decimal(n: nat) -> Seq<char>
    decreases n,
{
    if n < 10 {
        seq![digit_char(n)]
    } else {
        decimal(n / 10).push(digit_char(n % 10))
    }
}

/// The decimal numeral of `n`, with a leading `-` when it is negative.
pub open spec fn signed_decimal(n: int) -> Seq<char> {
    if n < 0 {
        seq!['-'] + decimal((-n) as nat)
    } else {
        decimal(n as nat)
    }
}

/// Prefix of the cache keys of user profiles.
pub open spec fn details_key_prefix() -> Seq<char> {
    seq!['u', 's', 'e', 'r', '_', 'd', 'e', 't', 'a', 'i', 'l', 's', ':']
}

/// The cache key of the profile of user `id`: `user_details:<id>`.
pub open spec fn details_key(id: int) -> Seq<char> {
    details_key_prefix() + signed_decimal(id)
}

fn digit_str(d: u64) -> (r: &'static str)
    requires
        d < 10,
    ensures
        r@ == seq![digit_char(d as nat)],
{
    proof {
        reveal_strlit("0");
        reveal_strlit("1");
        reveal_strlit("2");
        reveal_strlit("3");
        reveal_strlit("4");
        reveal_strlit("5");
        reveal_strlit("6");
        reveal_strlit("7");
        reveal_strlit("8");
        reveal_strlit("9");
    }
    match d {
        0 => "0",
        1 => "1",
        2 => "2",
        3 => "3",
        4 => "4",
        5 => "5",
        6 => "6",
        7 => "7",
        8 => "8",
        _ => "9",
    }
}

fn push_decimal(s: &mut String, n: u64)
    ensures
        final(s)@ == old(s)@ + decimal(n as nat),
    decreases n,
{
    if n >= 10 {
        push_decimal(s, n / 10);
    }
    let d = digit_str(n % 10);
    s.append(d);
    proof {
        if n >= 10 {
            assert(decimal(n as nat) == decimal((n / 10) as nat).push(digit_char((n % 10) as nat)));
        }
    }
}

/// The cache key under which the profile of user `id` is stored.
pub fn details_cache_key(id: i32) -> (r: String)
    ensures
        r@ == details_key(id as int),
{
    let mut s = String::from_str("user_details:");
    proof {
        reveal_strlit("user_details:");
        reveal_strlit("-");
    }
    let wide: i64 = id as i64;
    if wide < 0 {
        s.append("-");
        push_decimal(&mut s, (-wide) as u64);
        assert(s@ == details_key_prefix() + seq!['-'] + decimal((-(id as int)) as nat));
    } else {
        push_decimal(&mut s, wide as u64);
    }
    s
}

impl UserDetails {
    /// Starts reading the profile of user `id` through the cache: the key to
    /// read and write, and the first step of the read-through.
    pub fn find<P, C>(conn: &Connector<P, C>, id: i32) -> (r: (String, ReadStep<UserDetails, ModelError>))
        ensures
            r.0@ == details_key(id as int),
            is_first_step(conn.cache is Some, r.1),
    {
        (details_cache_key(id), conn.cached())
    }
}

} // verus!
