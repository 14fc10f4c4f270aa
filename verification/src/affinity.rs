//! Affinity resolution: turn the ordered core-selector list into a single
//! 64-bit affinity mask. A mask of 0 means "do not restrict affinity".
//!
//! The list is scanned in order. The first sentinel (`-1`) switches to
//! automatic selection and ends the scan; elements after it are never
//! read. Any other integer is a core index: in range it sets its bit,
//! out of range (negative, or at least the mask width) it is silently
//! ignored, as is any non-integer element. Automatic selection derives
//! the mask from the host's logical core count alone, in three tiers.

use vstd::prelude::*;

use crate::model::CoreSelector;

verus! {

/// The sentinel element that switches on automatic selection.
pub open spec fn is_sentinel(s: CoreSelector) -> bool {
    s == CoreSelector::Num(-1i64)
}

/// The mask bit one element contributes: a single bit for an in-range
/// core index, nothing for anything else.
pub open spec fn bit_of(s: CoreSelector) -> u64 {
    match s {
        CoreSelector::Num(c) => if 0 <= c < 64 {
            1u64 << (c as u64)
        } else {
            0u64
        },
        CoreSelector::Other => 0u64,
    }
}

/// An element that contributes no bit to the mask: a non-integer, or an
/// index outside the mask's 64 bits (the sentinel among them).
pub open spec fn selects_no_core(s: CoreSelector) -> bool {
    match s {
        CoreSelector::Num(c) => !(0 <= c < 64),
        CoreSelector::Other => true,
    }
}

/// Whether the list asks for automatic selection: some element is the
/// sentinel.
pub open spec fn has_auto(l: Seq<CoreSelector>) -> bool {
    exists|i: int| 0 <= i < l.len() && is_sentinel(l[i])
}

/// The mask an explicit list denotes: the bitwise or of every element's
/// contribution.
pub open spec fn mask_of(l: Seq<CoreSelector>) -> u64
    decreases l.len(),
{
    if l.len() == 0 {
        0u64
    } else {
        mask_of(l.drop_last()) | bit_of(l.last())
    }
}

/// The automatic mask for a host with `n` logical cores: every other core
/// of the first eight for 8 or more cores, a sliding 4-core window for 4
/// to 7 cores, and no restriction below 4.
pub open spec fn auto_mask_spec(n: usize) -> u64 {
    if n >= 8 {
        0b10101010u64
    } else if n >= 4 {
        0b1111u64 << ((n - 4) as u64)
    } else {
        0u64
    }
}

/// The mask a list resolves to on a host with `n` logical cores.
pub open spec fn resolve_spec(l: Seq<CoreSelector>, n: usize) -> u64 {
    if has_auto(l) {
        auto_mask_spec(n)
    } else {
        mask_of(l)
    }
}

proof fn lemma_or_zero(x: u64)
    ensures
        x | 0u64 == x,
{
    assert(x | 0u64 == x) by (bit_vector);
}

/// Relies on `num_cpus::get`: the number of logical cores available to
/// the current process; its documentation promises at least 1.
#[verifier::external_body]
fn logical_cores_raw() -> (n: usize)
    ensures
        n >= 1,
{
    num_cpus::get()
}

/// The number of logical cores available to the current process; always
/// at least 1.
pub fn logical_cores() -> (n: usize)
    ensures
        n >= 1,
{
    logical_cores_raw()
}

/// The automatic mask for a host with `core_count` logical cores.
pub fn auto_mask(core_count: usize) -> (m: u64)
    ensures
        m == auto_mask_spec(core_count),
{
    if core_count >= 8 {
        0b10101010u64
    } else if core_count >= 4 {
        0b1111u64 << ((core_count - 4) as u64)
    } else {
        0u64
    }
}

/// Resolve a core-selector list into an affinity mask, on a host with
/// `core_count` logical cores. The scan stops at the first sentinel and
/// switches to the automatic mask, discarding anything accumulated so
/// far; out-of-range and non-integer elements are ignored; a mask of 0
/// means that affinity is not restricted. An empty list yields 0.
pub fn resolve_mask(affinity: &Vec<CoreSelector>, core_count: usize) -> (m: u64)
    ensures
        m == resolve_spec(affinity@, core_count),
{
    let ghost l = affinity@;
    let n = affinity.len();
    let mut mask: u64 = 0;
    let mut auto = false;
    let mut i: usize = 0;
    while i < n && !auto
        invariant
            i <= n,
            n == l.len(),
            l == affinity@,
            !auto ==> (forall|j: int| 0 <= j < i ==> !is_sentinel(l[j])),
            !auto ==> mask == mask_of(l.take(i as int)),
            auto ==> has_auto(l),
        decreases n - i,
    {
        match affinity[i] {
            CoreSelector::Num(c) => {
                if c == -1 {
                    auto = true;
                    proof {
                        assert(is_sentinel(l[i as int]));
                    }
                } else if 0 <= c && c < 64 {
                    mask = mask | (1u64 << (c as u64));
                }
            },
            CoreSelector::Other => {},
        }
        proof {
            if !auto {
                assert(l.take(i + 1).drop_last() =~= l.take(i as int));
                assert(l.take(i + 1).last() == l[i as int]);
                if selects_no_core(l[i as int]) {
                    lemma_or_zero(mask_of(l.take(i as int)));
                }
            }
        }
        i = i + 1;
    }
    if auto {
        auto_mask(core_count)
    } else {
        proof {
            assert(l.take(n as int) =~= l);
            if has_auto(l) {
                let j = choose|j: int| 0 <= j < l.len() && is_sentinel(l[j]);
                assert(!is_sentinel(l[j]));
            }
        }
        mask
    }
}

/// The ASCII digit of one hex nibble, upper case.
pub open spec fn hex_digit(d: u64) -> u8 {
    if d < 10 {
        (0x30 + d) as u8
    } else {
        (0x37 + d) as u8
    }
}

/// The human-readable form of a mask: its hex digits, upper case, most
/// significant first, without leading zeroes (a single `0` for mask 0).
pub open spec fn hex_rep(m: u64) -> Seq<u8>
    decreases m,
{
    if m < 16 {
        seq![hex_digit(m)]
    } else {
        hex_rep(m / 16).push(hex_digit(m % 16))
    }
}

/// Render a mask as ASCII hex digits, upper case, most significant first,
/// without leading zeroes.
pub fn mask_hex(m: u64) -> (s: Vec<u8>)
    ensures
        s@ == hex_rep(m),
    decreases m,
{
    if m < 16 {
        let d: u8 = if m < 10 {
            (0x30 + m) as u8
        } else {
            (0x37 + m) as u8
        };
        let mut v: Vec<u8> = Vec::new();
        v.push(d);
        proof {
            assert(v@ =~= hex_rep(m));
        }
        v
    } else {
        let mut v = mask_hex(m / 16);
        let low = m % 16;
        let d: u8 = if low < 10 {
            (0x30 + low) as u8
        } else {
            (0x37 + low) as u8
        };
        v.push(d);
        v
    }
}

// ---------------------------------------------------------------------
// Laws of affinity resolution
// ---------------------------------------------------------------------

/// The scan short-circuits on the sentinel: once a list asks for
/// automatic selection, whatever follows it changes nothing.
pub proof fn lemma_scan_short_circuits(
    prefix: Seq<CoreSelector>,
    suffix: Seq<CoreSelector>,
    core_count: usize,
)
    requires
        has_auto(prefix),
    ensures
        resolve_spec(prefix + suffix, core_count) == resolve_spec(prefix, core_count),
{
    let i = choose|i: int| 0 <= i < prefix.len() && is_sentinel(prefix[i]);
    assert((prefix + suffix)[i] == prefix[i]);
    assert(has_auto(prefix + suffix));
}

/// An element that denotes no valid core index — out of range for the
/// mask, or not an integer — contributes nothing: removing it leaves the
/// explicit mask unchanged.
pub proof fn lemma_out_of_range_ignored(l: Seq<CoreSelector>, i: int)
    requires
        0 <= i < l.len(),
        selects_no_core(l[i]),
    ensures
        mask_of(l.remove(i)) == mask_of(l),
    decreases l.len(),
{
    if i == l.len() - 1 {
        assert(l.remove(i) =~= l.drop_last());
        lemma_or_zero(mask_of(l.drop_last()));
    } else {
        assert(l.remove(i).drop_last() =~= l.drop_last().remove(i));
        assert(l.remove(i).last() == l.last());
        lemma_out_of_range_ignored(l.drop_last(), i);
    }
}

/// The empty list resolves to 0, i.e. affinity unrestricted, on every
/// host.
pub proof fn lemma_empty_list_unrestricted(core_count: usize)
    ensures
        resolve_spec(Seq::<CoreSelector>::empty(), core_count) == 0u64,
{
}

/// The automatic tier is a plateau above 8 cores: every core count of 8
/// or more yields the same mask.
pub proof fn lemma_auto_tier_plateau(a: usize, b: usize)
    requires
        a >= 8,
        b >= 8,
    ensures
        auto_mask_spec(a) == auto_mask_spec(b),
{
}

} // verus!
