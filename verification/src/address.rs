//! Scan targets: the IPv4 addresses that the generator may hand out, and the
//! generator itself.

use crate::text::{decimal, push_decimal};
use rand::Rng;
use vstd::prelude::*;
use vstd::string::StringExecFns;

verus! {

/// An IPv4 address, octet by octet, most significant first.
#[derive(Clone, Copy, Debug, PartialEq, Eq, Structural)]
pub struct Address {
    pub first: u8,
    pub second: u8,
    pub third: u8,
    pub fourth: u8,
}

/// The 32-bit value of the address `a.b.c.d`.
pub open spec fn ipv4_value(a: nat, b: nat, c: nat, d: nat) -> nat {
    a * 16777216 + b * 65536 + c * 256 + d
}

/// Whether `value` lies in 10.0.0.0/8, 127.0.0.0/8, 172.16.0.0/12 or
/// 192.168.0.0/16.
pub open spec fn in_reserved_block(value: nat) -> bool {
    ||| ipv4_value(10, 0, 0, 0) <= value <= ipv4_value(10, 255, 255, 255)
    ||| ipv4_value(127, 0, 0, 0) <= value <= ipv4_value(127, 255, 255, 255)
    ||| ipv4_value(172, 16, 0, 0) <= value <= ipv4_value(172, 31, 255, 255)
    ||| ipv4_value(192, 168, 0, 0) <= value <= ipv4_value(192, 168, 255, 255)
}

impl Address {
    /// The address as a 32-bit value.
    pub open spec fn value(self) -> nat {
        ipv4_value(self.first as nat, self.second as nat, self.third as nat, self.fourth as nat)
    }

    /// The exclusion rule on the first two octets: loopback and the private
    /// ranges.
    pub open spec fn is_excluded(self) -> bool {
        ||| self.first == 10
        ||| self.first == 127
        ||| (self.first == 192 && self.second == 168)
        ||| (self.first == 172 && 16 <= self.second <= 31)
    }

    /// Whether the generator may hand this address out.
    pub open spec fn is_candidate(self) -> bool {
        &&& 1 <= self.first <= 223
        &&& 1 <= self.fourth <= 254
        &&& !self.is_excluded()
    }

    /// The dotted-quad text of the address.
    pub open spec fn text(self) -> Seq<char> {
        decimal(self.first as nat) + seq!['.'] + decimal(self.second as nat) + seq!['.'] + decimal(
            self.third as nat,
        ) + seq!['.'] + decimal(self.fourth as nat)
    }

    /// Screens one draw of four octets: the address they make if the
    /// generator may hand it out, nothing otherwise.
    pub fn screen(first: u8, second: u8, third: u8, fourth: u8) -> (r: Option<Address>)
        ensures
            r == (if (Address { first, second, third, fourth }).is_candidate() {
                Some(Address { first, second, third, fourth })
            } else {
                None
            }),
    {
        if first < 1 || first > 223 || fourth < 1 || fourth > 254 {
            return None;
        }
        if first == 10 || first == 127 || (first == 192 && second == 168) || (first == 172 && 16
            <= second && second <= 31) {
            return None;
        }
        Some(Address { first, second, third, fourth })
    }

    /// Renders the address as a dotted quad.
    pub fn to_text(&self) -> (s: String)
        ensures
            s@ == self.text(),
    {
        let mut s = String::new();
        proof {
            reveal_strlit(".");
            assert("."@ =~= seq!['.']);
        }
        push_decimal(&mut s, self.first as u64);
        s.append(".");
        push_decimal(&mut s, self.second as u64);
        s.append(".");
        push_decimal(&mut s, self.third as u64);
        s.append(".");
        push_decimal(&mut s, self.fourth as u64);
        s
    }
}

/// An address is a candidate exactly when its first octet is within 1..=223,
/// its last octet within 1..=254, and its 32-bit value outside 10.0.0.0/8,
/// 127.0.0.0/8, 172.16.0.0/12 and 192.168.0.0/16.
pub proof fn lemma_candidates_avoid_reserved_blocks(addr: Address)
    ensures
        addr.is_candidate() <==> (1 <= addr.first <= 223 && 1 <= addr.fourth <= 254
            && !in_reserved_block(addr.value())),
        addr.is_excluded() <==> in_reserved_block(addr.value()),
{
}

/// `rand::rngs::ThreadRng`, the generator that each thread keeps for itself.
#[verifier::external_type_specification]
#[verifier::external_body]
pub struct ExThreadRng(rand::rngs::ThreadRng);

/// `rand::thread_rng`: a handle on the calling thread's generator. Nothing is
/// claimed of it.
pub assume_specification[ rand::thread_rng ]() -> (rng: rand::rngs::ThreadRng)
;

/// `Rng::gen_range` on an inclusive range of bytes: the draw lies within the
/// range, bounds included. The range must not be empty, or the call panics.
#[verifier::external_body]
fn draw_octet(rng: &mut rand::rngs::ThreadRng, low: u8, high: u8) -> (octet: u8)
    requires
        low <= high,
    ensures
        low <= octet <= high,
{
    rng.gen_range(low..=high)
}

/// Draws addresses until one passes [`Address::screen`], at most `max_draws`
/// times. Each draw takes the first octet from 1..=223, the second and third
/// from 0..=255 and the fourth from 1..=254, every value equally likely, and
/// remembers nothing of earlier draws.
///
/// A draw is turned down with a chance just under one in a hundred, so
/// `None` after more than a few draws is not to be expected; a caller that
/// wants an address whatever it takes calls again.
pub fn random_ip(max_draws: u64) -> (r: Option<Address>)
    ensures
        r matches Some(addr) ==> addr.is_candidate(),
        max_draws == 0 ==> r is None,
{
    let mut rng = rand::thread_rng();
    let mut left: u64 = max_draws;
    while left > 0
        invariant
            left <= max_draws,
        decreases left,
    {
        let first = draw_octet(&mut rng, 1, 223);
        let second = draw_octet(&mut rng, 0, 255);
        let third = draw_octet(&mut rng, 0, 255);
        let fourth = draw_octet(&mut rng, 1, 254);
        let screened = Address::screen(first, second, third, fourth);
        if screened.is_some() {
            return screened;
        }
        left -= 1;
    }
    None
}

} // verus!
