//! The layout of an encoded wallet update, as far as it has to be known before the update is
//! decoded: an encoding that announces more items than it has bytes for, or that holds a blinding
//! factor out of range, cannot be handed to the decoder.
use lwk_wollet::elements::encode::deserialize_partial;
use lwk_wollet::elements::secp256k1_zkp::Tweak;
use lwk_wollet::elements::Transaction;
use vstd::bytes::{
    spec_u16_from_le_bytes, spec_u32_from_le_bytes, spec_u64_from_le_bytes, u16_from_le_bytes,
    u32_from_le_bytes, u64_from_le_bytes,
};
use vstd::prelude::*;
use vstd::slice::slice_subrange;

verus! {

/// How many bytes of a text `elements::encode::deserialize_partial` reads as a transaction, or
/// `None` where it refuses.
pub uninterp spec fn transaction_len(bytes: Seq<u8>) -> Option<nat>;

/// Whether `secp256k1_zkp::Tweak::from_slice` accepts bytes as a blinding factor.
pub uninterp spec fn factor_accepted(bytes: Seq<u8>) -> bool;

/// Calls `elements::encode::deserialize_partial` for an `elements::Transaction`. Claimed: how many
/// bytes it reads depends on the bytes alone; it reads some, and not more than there are.
#[verifier::external_body]
fn measure_transaction(bytes: &[u8]) -> (r: Option<usize>)
    ensures
        match r {
            Some(n) => transaction_len(bytes@) == Some(n as nat),
            None => transaction_len(bytes@) is None,
        },
        r matches Some(n) ==> 0 < n <= bytes@.len(),
{
    deserialize_partial::<Transaction>(bytes).ok().map(|read| read.1)
}

/// Calls `secp256k1_zkp::Tweak::from_slice`, by which asset and value blinding factors are read.
/// Claimed: whether it accepts depends on the bytes alone.
#[verifier::external_body]
fn accepts_factor(bytes: &[u8]) -> (r: bool)
    ensures
        r == factor_accepted(bytes@),
{
    Tweak::from_slice(bytes).is_ok()
}

/// Where a part of an encoding leads.
pub enum Walk {
    /// The decoder refuses the encoding in this part.
    Refused,
    /// The decoder cannot be handed the encoding because of this part.
    Unsound,
    /// The part ends before the given position.
    At(int),
}

/// Where a part of an encoding leads.
#[derive(Clone, Copy, Debug)]
enum Step {
    Refused,
    Unsound,
    At(usize),
}

impl View for Step {
    type V = Walk;

    closed spec fn view(&self) -> Walk {
        match self {
            Step::Refused => Walk::Refused,
            Step::Unsound => Walk::Unsound,
            Step::At(at) => Walk::At(*at as int),
        }
    }
}

/// The number that stands at a position in its shortest form, and the position behind it.
pub open spec fn compact_size(bytes: Seq<u8>, at: int) -> Option<(u64, int)> {
    if at >= bytes.len() {
        None
    } else if bytes[at] < 0xfd {
        Some((bytes[at] as u64, at + 1))
    } else if bytes[at] == 0xfd {
        let n = spec_u16_from_le_bytes(bytes.subrange(at + 1, at + 3));
        if at + 3 > bytes.len() || n < 0xfd {
            None
        } else {
            Some((n as u64, at + 3))
        }
    } else if bytes[at] == 0xfe {
        let n = spec_u32_from_le_bytes(bytes.subrange(at + 1, at + 5));
        if at + 5 > bytes.len() || n < 0x10000 {
            None
        } else {
            Some((n as u64, at + 5))
        }
    } else {
        let n = spec_u64_from_le_bytes(bytes.subrange(at + 1, at + 9));
        if at + 9 > bytes.len() || n < 0x100000000 {
            None
        } else {
            Some((n, at + 9))
        }
    }
}

fn read_compact_size(bytes: &Vec<u8>, at: usize) -> (r: Option<(u64, usize)>)
    requires
        at <= bytes@.len(),
    ensures
        match r {
            Some((n, next)) => compact_size(bytes@, at as int) == Some((n, next as int)) && at < next
                <= bytes@.len(),
            None => compact_size(bytes@, at as int) is None,
        },
{
    if at >= bytes.len() {
        return None;
    }
    let left: usize = bytes.len() - at;
    let first: u8 = bytes[at];
    if first < 0xfd {
        Some((first as u64, at + 1))
    } else if first == 0xfd {
        if left < 3 {
            return None;
        }
        let n: u16 = u16_from_le_bytes(slice_subrange(bytes.as_slice(), at + 1, at + 3));
        if n < 0xfd {
            None
        } else {
            Some((n as u64, at + 3))
        }
    } else if first == 0xfe {
        if left < 5 {
            return None;
        }
        let n: u32 = u32_from_le_bytes(slice_subrange(bytes.as_slice(), at + 1, at + 5));
        if n < 0x10000 {
            None
        } else {
            Some((n as u64, at + 5))
        }
    } else {
        if left < 9 {
            return None;
        }
        let n: u64 = u64_from_le_bytes(slice_subrange(bytes.as_slice(), at + 1, at + 9));
        if n < 0x100000000 {
            None
        } else {
            Some((n, at + 9))
        }
    }
}

/// Where a number of transactions lead that stand at a position.
pub open spec fn transactions_walk(bytes: Seq<u8>, at: int, count: nat) -> Walk
    decreases count,
{
    if count == 0 {
        Walk::At(at)
    } else {
        match transaction_len(bytes.subrange(at, bytes.len() as int)) {
            Some(n) => transactions_walk(bytes, at + n, (count - 1) as nat),
            None => Walk::Refused,
        }
    }
}

fn walk_transactions(bytes: &Vec<u8>, start: usize, count: u64) -> (r: Step)
    requires
        start <= bytes@.len(),
    ensures
        r@ == transactions_walk(bytes@, start as int, count as nat),
        r matches Step::At(at) ==> at <= bytes@.len(),
{
    let mut at: usize = start;
    let mut left: u64 = count;
    while left > 0
        invariant
            at <= bytes@.len(),
            transactions_walk(bytes@, start as int, count as nat) == transactions_walk(
                bytes@,
                at as int,
                left as nat,
            ),
        decreases left,
    {
        match measure_transaction(slice_subrange(bytes.as_slice(), at, bytes.len())) {
            Some(n) => {
                at = at + n;
                left = left - 1;
            },
            None => {
                return Step::Refused;
            },
        }
    }
    Step::At(at)
}

/// How many bytes an unblinded output takes: what it spends, an asset, a value, and a blinding
/// factor for each.
pub const UNBLINDED_LEN: usize = 140;

/// Where a number of unblinded outputs lead that stand at a position.
pub open spec fn unblinded_walk(bytes: Seq<u8>, at: int, count: nat) -> Walk
    decreases count,
{
    if count == 0 {
        Walk::At(at)
    } else if at + 100 > bytes.len() {
        Walk::Refused
    } else if !factor_accepted(bytes.subrange(at + 68, at + 100)) {
        Walk::Unsound
    } else if at + UNBLINDED_LEN > bytes.len() {
        Walk::Refused
    } else if !factor_accepted(bytes.subrange(at + 108, at + UNBLINDED_LEN)) {
        Walk::Unsound
    } else {
        unblinded_walk(bytes, at + UNBLINDED_LEN, (count - 1) as nat)
    }
}

fn walk_unblinded(bytes: &Vec<u8>, start: usize, count: u64) -> (r: Step)
    requires
        start <= bytes@.len(),
    ensures
        r@ == unblinded_walk(bytes@, start as int, count as nat),
        r matches Step::At(at) ==> at <= bytes@.len(),
{
    let mut at: usize = start;
    let mut left: u64 = count;
    while left > 0
        invariant
            at <= bytes@.len(),
            unblinded_walk(bytes@, start as int, count as nat) == unblinded_walk(
                bytes@,
                at as int,
                left as nat,
            ),
        decreases left,
    {
        let rest: usize = bytes.len() - at;
        if rest < 100 {
            return Step::Refused;
        }
        if !accepts_factor(slice_subrange(bytes.as_slice(), at + 68, at + 100)) {
            return Step::Unsound;
        }
        if rest < UNBLINDED_LEN {
            return Step::Refused;
        }
        if !accepts_factor(slice_subrange(bytes.as_slice(), at + 108, at + UNBLINDED_LEN)) {
            return Step::Unsound;
        }
        at = at + UNBLINDED_LEN;
        left = left - 1;
    }
    Step::At(at)
}

/// Where a list leads that stands at a position, whose items take at least the given number of
/// bytes: it is unsound where it announces more items than there are bytes for.
pub open spec fn list_walk(bytes: Seq<u8>, at: int, width: int) -> Walk {
    match compact_size(bytes, at) {
        Some((n, next)) => if n * width > bytes.len() - next {
            Walk::Unsound
        } else {
            Walk::At(next + n * width)
        },
        None => Walk::Refused,
    }
}

fn walk_list(bytes: &Vec<u8>, at: usize, width: usize) -> (r: Step)
    requires
        at <= bytes@.len(),
        0 < width,
    ensures
        r@ == list_walk(bytes@, at as int, width as int),
        r matches Step::At(next) ==> next <= bytes@.len(),
{
    match read_compact_size(bytes, at) {
        Some((n, next)) => {
            let rest: usize = bytes.len() - next;
            let most: usize = rest / width;
            proof {
                vstd::arithmetic::div_mod::lemma_fundamental_div_mod(rest as int, width as int);
                vstd::arithmetic::div_mod::lemma_mod_bound(rest as int, width as int);
                vstd::arithmetic::mul::lemma_mul_is_commutative(most as int, width as int);
                if n > most {
                    vstd::arithmetic::mul::lemma_mul_inequality(
                        most + 1,
                        n as int,
                        width as int,
                    );
                    vstd::arithmetic::mul::lemma_mul_is_distributive_add_other_way(
                        width as int,
                        most as int,
                        1,
                    );
                } else {
                    vstd::arithmetic::mul::lemma_mul_inequality(
                        n as int,
                        most as int,
                        width as int,
                    );
                    vstd::arithmetic::mul::lemma_mul_nonnegative(n as int, width as int);
                }
            }
            if n > most as u64 {
                Step::Unsound
            } else {
                Step::At(next + n as usize * width)
            }
        },
        None => Step::Refused,
    }
}

/// Where the three lists of fixed items and the list of scripts lead that stand at a position:
/// heights by transaction, transactions to forget, times by height, and scripts.
pub open spec fn lists_walk(bytes: Seq<u8>, at: int, version: u8) -> Walk {
    match list_walk(bytes, at, 36) {
        Walk::At(b) => match list_walk(bytes, b, 32) {
            Walk::At(c) => match list_walk(bytes, c, 8) {
                Walk::At(d) => list_walk(
                    bytes,
                    d,
                    if version == 2 {
                        39
                    } else {
                        6
                    },
                ),
                other => other,
            },
            other => other,
        },
        other => other,
    }
}

fn walk_lists(bytes: &Vec<u8>, at: usize, version: u8) -> (r: Step)
    requires
        at <= bytes@.len(),
    ensures
        r@ == lists_walk(bytes@, at as int, version),
{
    match walk_list(bytes, at, 36) {
        Step::At(b) => match walk_list(bytes, b, 32) {
            Step::At(c) => match walk_list(bytes, c, 8) {
                Step::At(d) => if version == 2 {
                    walk_list(bytes, d, 39)
                } else {
                    walk_list(bytes, d, 6)
                },
                other => other,
            },
            other => other,
        },
        other => other,
    }
}

/// Where what was downloaded and all that follows it leads: transactions, unblinded outputs, and
/// the lists.
pub open spec fn body_walk(bytes: Seq<u8>, at: int, version: u8) -> Walk {
    match compact_size(bytes, at) {
        Some((n, a)) => match transactions_walk(bytes, a, n as nat) {
            Walk::At(b) => match compact_size(bytes, b) {
                Some((m, c)) => match unblinded_walk(bytes, c, m as nat) {
                    Walk::At(d) => lists_walk(bytes, d, version),
                    other => other,
                },
                None => Walk::Refused,
            },
            other => other,
        },
        None => Walk::Refused,
    }
}

fn walk_body(bytes: &Vec<u8>, at: usize, version: u8) -> (r: Step)
    requires
        at <= bytes@.len(),
    ensures
        r@ == body_walk(bytes@, at as int, version),
{
    match read_compact_size(bytes, at) {
        Some((n, a)) => match walk_transactions(bytes, a, n) {
            Step::At(b) => match read_compact_size(bytes, b) {
                Some((m, c)) => match walk_unblinded(bytes, c, m) {
                    Step::At(d) => walk_lists(bytes, d, version),
                    other => other,
                },
                None => Step::Refused,
            },
            other => other,
        },
        None => Step::Refused,
    }
}

/// Whether an encoding begins as every encoded update does, with a version that is known.
pub open spec fn header_known(bytes: Seq<u8>) -> bool {
    &&& bytes.len() >= 5
    &&& bytes[0] == 0x89
    &&& bytes[1] == 0x61
    &&& bytes[2] == 0xb8
    &&& bytes[3] == 0xc8
    &&& bytes[4] <= 2
}

/// Whether an encoding can be handed to the decoder, which then reads or refuses it: nowhere up to
/// the point at which it is refused does it announce more items than it has bytes for, or hold a
/// blinding factor out of range. From version one on the encoding holds a status after the version.
pub open spec fn sound_encoding(bytes: Seq<u8>) -> bool {
    if !header_known(bytes) {
        true
    } else if bytes[4] >= 1 {
        bytes.len() < 13 || !(body_walk(bytes, 13, bytes[4]) is Unsound)
    } else {
        !(body_walk(bytes, 5, bytes[4]) is Unsound)
    }
}

/// Says whether an encoding can be handed to the decoder.
pub fn is_sound(bytes: &Vec<u8>) -> (r: bool)
    ensures
        r == sound_encoding(bytes@),
{
    if bytes.len() < 5 || bytes[0] != 0x89 || bytes[1] != 0x61 || bytes[2] != 0xb8 || bytes[3]
        != 0xc8 || bytes[4] > 2 {
        return true;
    }
    let version: u8 = bytes[4];
    if version >= 1 && bytes.len() < 13 {
        return true;
    }
    let step = if version >= 1 {
        walk_body(bytes, 13, version)
    } else {
        walk_body(bytes, 5, version)
    };
    match step {
        Step::Unsound => false,
        _ => true,
    }
}

} // verus!
