//! Permission descriptors.
//!
//! A descriptor is a comma-separated list. An item that is a single `*`
//! admits every user; an item that is the decimal notation of a user id
//! admits that user. Anything else admits nobody.

use vstd::prelude::*;
use vstd::string::*;
use vstd::utf8::*;

verus! {

/// The byte that separates the items of a descriptor.
pub const SEPARATOR: u8 = 0x2c;

/// The item that admits every user.
pub const ANYONE: u8 = 0x2a;

/// The decimal notation of `n` in ASCII, without leading zeros.
pub open spec fn decimal(n: nat) -> Seq<u8>
    decreases n,
{
    if n < 10 {
        seq![(0x30 + n) as u8]
    } else {
        decimal(n / 10).push((0x30 + n % 10) as u8)
    }
}

/// The bytes from `from` up to `to` are one whole item of the list.
pub open spec fn is_item(list: Seq<u8>, from: int, to: int) -> bool {
    &&& 0 <= from <= to <= list.len()
    &&& (from == 0 || list[from - 1] == SEPARATOR)
    &&& (to == list.len() || list[to] == SEPARATOR)
    &&& forall|k: int| from <= k < to ==> list[k] != SEPARATOR
}

/// The item admits the user.
pub open spec fn grants(item: Seq<u8>, user_id: u64) -> bool {
    item == seq![ANYONE] || item == decimal(user_id as nat)
}

/// Some item of the list admits the user.
pub open spec fn permits_bytes(list: Seq<u8>, user_id: u64) -> bool {
    exists|from: int, to: int| #[trigger]
        is_item(list, from, to) && grants(list.subrange(from, to), user_id)
}

/// The descriptor admits the user.
pub open spec fn permits(descriptor: Seq<char>, user_id: u64) -> bool {
    permits_bytes(encode_utf8(descriptor), user_id)
}

fn push_decimal(n: u64, out: &mut Vec<u8>)
    ensures
        final(out)@ == old(out)@ + decimal(n as nat),
    decreases n,
{
    if n >= 10 {
        push_decimal(n / 10, out);
    }
    let digit: u8 = (n % 10) as u8;
    out.push(0x30 + digit);
}

fn item_is(list: &[u8], from: usize, to: usize, word: &[u8]) -> (same: bool)
    requires
        from <= to <= list@.len(),
    ensures
        same == (list@.subrange(from as int, to as int) == word@),
{
    if to - from != word.len() {
        return false;
    }
    let mut k: usize = 0;
    while k < word.len()
        invariant
            from <= to <= list@.len(),
            to - from == word@.len(),
            k <= word@.len(),
            forall|m: int| 0 <= m < k ==> list@[from + m] == word@[m],
        decreases word.len() - k,
    {
        if list[from + k] != word[k] {
            return false;
        }
        k += 1;
    }
    proof {
        assert(list@.subrange(from as int, to as int) =~= word@);
    }
    true
}

/// Decides whether the descriptor admits the user.
pub fn check(descriptor: &str, user_id: u64) -> (admitted: bool)
    ensures
        admitted == permits(descriptor@, user_id),
{
    let list = descriptor.as_bytes();
    let mut digits: Vec<u8> = Vec::new();
    push_decimal(user_id, &mut digits);
    let mut anyone: Vec<u8> = Vec::new();
    anyone.push(ANYONE);
    let n = list.len();
    let mut from: usize = 0;
    loop
        invariant
            n == list@.len(),
            list@ == encode_utf8(descriptor@),
            digits@ == decimal(user_id as nat),
            anyone@ == seq![ANYONE],
            from <= n,
            from == 0 || list@[from - 1] == SEPARATOR,
            forall|a: int, b: int| #[trigger]
                is_item(list@, a, b) && a < from ==> !grants(list@.subrange(a, b), user_id),
        decreases n - from,
    {
        let mut to: usize = from;
        while to < n && list[to] != SEPARATOR
            invariant
                n == list@.len(),
                from <= to <= n,
                forall|k: int| from <= k < to ==> list@[k] != SEPARATOR,
            decreases n - to,
        {
            to += 1;
        }
        assert(is_item(list@, from as int, to as int));
        if item_is(list, from, to, anyone.as_slice()) || item_is(
            list,
            from,
            to,
            digits.as_slice(),
        ) {
            return true;
        }
        assert forall|a: int, b: int| #[trigger]
            is_item(list@, a, b) && a <= to implies !grants(list@.subrange(a, b), user_id) by {}
        if to == n {
            return false;
        }
        from = to + 1;
    }
}

} // verus!
