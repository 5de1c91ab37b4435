//! The arithmetic by which rows and columns share out their allocation.

use vstd::prelude::*;

verus! {

/// The sum of `sizes`.
pub open spec fn sum_of(sizes: Seq<u16>) -> int
    decreases sizes.len(),
{
    if sizes.len() == 0 {
        0
    } else {
        sum_of(sizes.drop_last()) + sizes.last()
    }
}

/// The largest of `sizes`, 0 where there is none.
pub open spec fn max_of(sizes: Seq<u16>) -> u16
    decreases sizes.len(),
{
    if sizes.len() == 0 {
        0
    } else if sizes.last() > max_of(sizes.drop_last()) {
        sizes.last()
    } else {
        max_of(sizes.drop_last())
    }
}

/// The weight of a child: its flex weight, 0 where it has none.
pub open spec fn weight_of(flex: Option<i32>) -> int {
    match flex {
        Some(f) => f as int,
        None => 0,
    }
}

/// The sum of the weights.
pub open spec fn total_weight(flex: Seq<Option<i32>>) -> int
    decreases flex.len(),
{
    if flex.len() == 0 {
        0
    } else {
        total_weight(flex.drop_last()) + weight_of(flex.last())
    }
}

/// Room can be shared out by the weights: where their total is positive, so
/// that room is shared out at all, no weight is negative. Where the total is
/// not positive nothing is shared out, whatever the weights.
pub open spec fn weights_fit(flex: Seq<Option<i32>>) -> bool {
    total_weight(flex) > 0 ==> forall|i: int|
        0 <= i < flex.len() ==> weight_of(#[trigger] flex[i]) >= 0
}

/// The minimum sizes and weights of the children of one row or column can be
/// laid out: the minimum sizes together fit a size, and room can be shared
/// out by the weights.
pub open spec fn layout_fits(sizes: Seq<u16>, flex: Seq<Option<i32>>) -> bool {
    &&& sizes.len() == flex.len()
    &&& sum_of(sizes) <= u16::MAX
    &&& weights_fit(flex)
}

/// The room that is left of `avail` once every child has its minimum.
pub open spec fn spare(sizes: Seq<u16>, avail: u16) -> int {
    if avail > sum_of(sizes) {
        avail - sum_of(sizes)
    } else {
        0
    }
}

/// The share of `room` that goes to a child: in proportion to its weight in
/// the total, rounded down; nothing for a child without weight or where the
/// total is not positive.
pub open spec fn share(room: int, flex: Option<i32>, total: int) -> int {
    match flex {
        Some(f) => if total > 0 {
            (room * f) / total
        } else {
            0
        },
        None => 0,
    }
}

/// What each child is allocated along the main axis: its minimum and its
/// share of the spare room.
pub open spec fn flexed(sizes: Seq<u16>, flex: Seq<Option<i32>>, avail: u16) -> Seq<u16> {
    Seq::new(
        sizes.len(),
        |i: int| (sizes[i] + share(spare(sizes, avail), flex[i], total_weight(flex))) as u16,
    )
}

/// The allocations after what rounding left over is handed out: one more for
/// each child, in order, until it is used up or each child had one.
pub open spec fn repaired(alloc: Seq<u16>, avail: u16) -> Seq<u16> {
    Seq::new(
        alloc.len(),
        |i: int|
            if i < avail - sum_of(alloc) {
                (alloc[i] + 1) as u16
            } else {
                alloc[i]
            },
    )
}

/// The offset of child `k` along the main axis: the sum of what the children
/// before it are allocated.
pub open spec fn offset_of(alloc: Seq<u16>, k: int) -> int {
    sum_of(alloc.take(k))
}

/// Whether child `k` is drawn: the first always, another only if it begins
/// within the allocation.
pub open spec fn is_drawn(alloc: Seq<u16>, k: int, avail: u16) -> bool {
    k == 0 || offset_of(alloc, k) < avail
}

/// The larger of two sizes.
pub open spec fn larger(a: u16, b: u16) -> u16 {
    if a < b {
        b
    } else {
        a
    }
}

/// What one more size adds to the sum and to the maximum.
pub proof fn lemma_size_added(sizes: Seq<u16>, size: u16)
    ensures
        sum_of(sizes.push(size)) == sum_of(sizes) + size,
        max_of(sizes.push(size)) == larger(max_of(sizes), size),
{
    assert(sizes.push(size).drop_last() =~= sizes);
}

/// What one more weight adds to the total.
pub proof fn lemma_weight_added(flex: Seq<Option<i32>>, weight: Option<i32>)
    ensures
        total_weight(flex.push(weight)) == total_weight(flex) + weight_of(weight),
{
    assert(flex.push(weight).drop_last() =~= flex);
}

/// The sum of a prefix is at most the sum of the whole, and neither is
/// negative.
pub proof fn lemma_sum_prefix(sizes: Seq<u16>, k: int)
    requires
        0 <= k <= sizes.len(),
    ensures
        0 <= sum_of(sizes.take(k)) <= sum_of(sizes),
    decreases sizes.len() - k,
{
    lemma_sum_nonneg(sizes.take(k));
    if k == sizes.len() {
        assert(sizes.take(k) =~= sizes);
    } else {
        lemma_sum_prefix(sizes, k + 1);
        assert(sizes.take(k + 1).drop_last() =~= sizes.take(k));
    }
}

/// A sum of sizes is not negative.
pub proof fn lemma_sum_nonneg(sizes: Seq<u16>)
    ensures
        0 <= sum_of(sizes),
    decreases sizes.len(),
{
    if sizes.len() > 0 {
        lemma_sum_nonneg(sizes.drop_last());
    }
}

/// The sum of a longer prefix is at least the sum of a shorter one.
pub proof fn lemma_offsets_grow(alloc: Seq<u16>, j: int, k: int)
    requires
        0 <= j <= k <= alloc.len(),
    ensures
        offset_of(alloc, j) <= offset_of(alloc, k),
{
    lemma_sum_prefix(alloc.take(k), j);
    assert(alloc.take(k).take(j) =~= alloc.take(j));
}

/// Each size is at most the sum of all.
pub proof fn lemma_sum_bounds_each(sizes: Seq<u16>, i: int)
    requires
        0 <= i < sizes.len(),
    ensures
        sizes[i] <= sum_of(sizes),
{
    lemma_sum_prefix(sizes, i + 1);
    lemma_sum_nonneg(sizes.take(i));
    assert(sizes.take(i + 1).drop_last() =~= sizes.take(i));
}

/// Where no weight is negative, the weights of a prefix sum to at most the
/// total, and neither is negative; and each weight is at most the total.
pub proof fn lemma_weight_prefix(flex: Seq<Option<i32>>, k: int)
    requires
        0 <= k <= flex.len(),
        forall|i: int| 0 <= i < flex.len() ==> weight_of(#[trigger] flex[i]) >= 0,
    ensures
        0 <= total_weight(flex.take(k)) <= total_weight(flex),
        k < flex.len() ==> total_weight(flex.take(k)) + weight_of(flex[k]) <= total_weight(flex),
    decreases flex.len() - k,
{
    lemma_weight_nonneg(flex.take(k));
    if k == flex.len() {
        assert(flex.take(k) =~= flex);
    } else {
        lemma_weight_prefix(flex, k + 1);
        assert(flex.take(k + 1).drop_last() =~= flex.take(k));
    }
}

/// Where no weight is negative, neither is their sum.
pub proof fn lemma_weight_nonneg(flex: Seq<Option<i32>>)
    requires
        forall|i: int| 0 <= i < flex.len() ==> weight_of(#[trigger] flex[i]) >= 0,
    ensures
        0 <= total_weight(flex),
    decreases flex.len(),
{
    if flex.len() > 0 {
        assert(weight_of(flex[flex.len() - 1]) >= 0);
        lemma_weight_nonneg(flex.drop_last());
    }
}

/// The total of the weights is within as many times the range of a weight
/// as there are weights.
pub proof fn lemma_weight_range(flex: Seq<Option<i32>>)
    ensures
        -(flex.len() * 0x8000_0000) <= total_weight(flex) <= flex.len() * 0x8000_0000,
    decreases flex.len(),
{
    if flex.len() > 0 {
        lemma_weight_range(flex.drop_last());
        assert((flex.len() - 1) * 0x8000_0000 + 0x8000_0000 == flex.len() * 0x8000_0000)
            by (nonlinear_arith);
    }
}

/// A share is between nothing and the whole room.
pub proof fn lemma_share_bounds(room: int, flex: Seq<Option<i32>>, i: int)
    requires
        0 <= room,
        0 <= i < flex.len(),
        weights_fit(flex),
    ensures
        0 <= share(room, flex[i], total_weight(flex)) <= room,
{
    let total = total_weight(flex);
    if let Some(f) = flex[i] {
        if total > 0 {
            lemma_weight_prefix(flex, i);
            assert(weight_of(flex[i]) >= 0);
            let f = f as int;
            assert(0 <= (room * f) / total <= room) by (nonlinear_arith)
                requires
                    0 <= room,
                    0 <= f <= total,
                    total > 0,
            ;
        }
    }
}

/// The sum of the shares of the first `k` children.
pub open spec fn share_sum(room: int, flex: Seq<Option<i32>>, total: int, k: int) -> int
    decreases k,
{
    if k <= 0 {
        0
    } else {
        share_sum(room, flex, total, k - 1) + share(room, flex[k - 1], total)
    }
}

/// A share times the total weight is the room times the child's weight, less
/// what rounding down took: less than the total weight.
proof fn lemma_share_times_total(room: int, flex: Option<i32>, total: int)
    requires
        0 <= room,
        0 < total,
        0 <= weight_of(flex),
    ensures
        room * weight_of(flex) - (total - 1) <= total * share(room, flex, total) <= room
            * weight_of(flex),
{
    match flex {
        Some(f) => {
            let f = f as int;
            assert(room * f - (total - 1) <= total * ((room * f) / total) <= room * f)
                by (nonlinear_arith)
                requires
                    0 <= room,
                    0 <= f,
                    0 < total,
            ;
        },
        None => {
            assert(room * 0 == 0) by (nonlinear_arith);
            assert(total * 0 == 0) by (nonlinear_arith);
        },
    }
}

/// The shares of the first `k` children, times the total weight, are the
/// room times their weights, less what rounding down took of each.
proof fn lemma_share_sum_bounds(room: int, flex: Seq<Option<i32>>, total: int, k: int)
    requires
        0 <= room,
        0 < total,
        0 <= k <= flex.len(),
        forall|i: int| 0 <= i < flex.len() ==> weight_of(#[trigger] flex[i]) >= 0,
    ensures
        room * total_weight(flex.take(k)) - k * (total - 1) <= total * share_sum(
            room,
            flex,
            total,
            k,
        ) <= room * total_weight(flex.take(k)),
    decreases k,
{
    if k == 0 {
        assert(flex.take(0) =~= Seq::<Option<i32>>::empty());
        assert(room * 0 == 0) by (nonlinear_arith);
        assert(total * 0 == 0) by (nonlinear_arith);
        assert(0 * (total - 1) == 0) by (nonlinear_arith);
    } else {
        lemma_share_sum_bounds(room, flex, total, k - 1);
        assert(flex.take(k).drop_last() =~= flex.take(k - 1));
        assert(flex.take(k).last() == flex[k - 1]);
        assert(weight_of(flex[k - 1]) >= 0);
        lemma_share_times_total(room, flex[k - 1], total);
        let before = share_sum(room, flex, total, k - 1);
        let this = share(room, flex[k - 1], total);
        let w_before = total_weight(flex.take(k - 1));
        let w_this = weight_of(flex[k - 1]);
        assert(total * (before + this) == total * before + total * this) by (nonlinear_arith);
        assert(room * (w_before + w_this) == room * w_before + room * w_this)
            by (nonlinear_arith);
        assert(k * (total - 1) == (k - 1) * (total - 1) + (total - 1)) by (nonlinear_arith);
    }
}

/// The shares of all children together are at most the room, and fall short
/// of it by less than the number of children.
pub proof fn lemma_shares_nearly_fill(room: int, flex: Seq<Option<i32>>)
    requires
        0 <= room,
        0 < total_weight(flex),
        forall|i: int| 0 <= i < flex.len() ==> weight_of(#[trigger] flex[i]) >= 0,
    ensures
        flex.len() >= 1,
        room - flex.len() < share_sum(room, flex, total_weight(flex), flex.len() as int) <= room,
{
    let total = total_weight(flex);
    let n = flex.len() as int;
    let sum = share_sum(room, flex, total, n);
    lemma_share_sum_bounds(room, flex, total, n);
    assert(flex.take(n) =~= flex);
    assert(sum <= room) by (nonlinear_arith)
        requires
            total * sum <= room * total,
            0 < total,
    ;
    assert(room - n < sum && n >= 1) by (nonlinear_arith)
        requires
            room * total - n * (total - 1) <= total * sum,
            0 < total,
            0 <= n,
            0 <= room,
            sum <= room,
            n == 0 ==> total == 0,
    {
    }
}

/// What the children are allocated, together, is their minimum sizes and
/// their shares.
proof fn lemma_flexed_sum(sizes: Seq<u16>, flex: Seq<Option<i32>>, avail: u16, k: int)
    requires
        layout_fits(sizes, flex),
        0 <= k <= sizes.len(),
    ensures
        sum_of(flexed(sizes, flex, avail).take(k)) == sum_of(sizes.take(k)) + share_sum(
            spare(sizes, avail),
            flex,
            total_weight(flex),
            k,
        ),
    decreases k,
{
    let alloc = flexed(sizes, flex, avail);
    if k == 0 {
        assert(alloc.take(0) =~= Seq::<u16>::empty());
        assert(sizes.take(0) =~= Seq::<u16>::empty());
    } else {
        lemma_flexed_sum(sizes, flex, avail, k - 1);
        assert(alloc.take(k).drop_last() =~= alloc.take(k - 1));
        assert(sizes.take(k).drop_last() =~= sizes.take(k - 1));
        lemma_sum_nonneg(sizes);
        lemma_share_bounds(spare(sizes, avail), flex, k - 1);
        lemma_sum_bounds_each(sizes, k - 1);
    }
}

/// Handing out the remainder adds it to the sum, or one for each child where
/// there are fewer children than that.
proof fn lemma_repaired_sum(alloc: Seq<u16>, avail: u16, k: int)
    requires
        0 <= k <= alloc.len(),
    ensures
        sum_of(repaired(alloc, avail).take(k)) == sum_of(alloc.take(k)) + if avail - sum_of(alloc)
            <= 0 {
            0
        } else if k < avail - sum_of(alloc) {
            k
        } else {
            avail - sum_of(alloc)
        },
    decreases k,
{
    let fixed = repaired(alloc, avail);
    if k == 0 {
        assert(fixed.take(0) =~= Seq::<u16>::empty());
        assert(alloc.take(0) =~= Seq::<u16>::empty());
    } else {
        lemma_repaired_sum(alloc, avail, k - 1);
        assert(fixed.take(k).drop_last() =~= fixed.take(k - 1));
        assert(alloc.take(k).drop_last() =~= alloc.take(k - 1));
        lemma_sum_bounds_each(alloc, k - 1);
    }
}

/// Where the children have weight and the allocation is at least their
/// minimum sizes together, sharing out the spare room and handing out the
/// remainder uses the allocation up exactly.
pub proof fn lemma_repair_fills(sizes: Seq<u16>, flex: Seq<Option<i32>>, avail: u16)
    requires
        layout_fits(sizes, flex),
        total_weight(flex) > 0,
        avail >= sum_of(sizes),
    ensures
        sum_of(repaired(flexed(sizes, flex, avail), avail)) == avail,
{
    let n = sizes.len() as int;
    let alloc = flexed(sizes, flex, avail);
    let room = spare(sizes, avail);
    lemma_shares_nearly_fill(room, flex);
    lemma_flexed_sum(sizes, flex, avail, n);
    lemma_repaired_sum(alloc, avail, n);
    assert(alloc.take(n) =~= alloc);
    assert(sizes.take(n) =~= sizes);
    assert(repaired(alloc, avail).take(n) =~= repaired(alloc, avail));
}

/// Without the remainder handed out, the children are allocated at most the
/// allocation, where that is at least their minimum sizes together; rounding
/// may leave some of it unused.
pub proof fn lemma_flexed_within(sizes: Seq<u16>, flex: Seq<Option<i32>>, avail: u16)
    requires
        layout_fits(sizes, flex),
        avail >= sum_of(sizes),
    ensures
        sum_of(sizes) <= sum_of(flexed(sizes, flex, avail)) <= avail,
{
    let n = sizes.len() as int;
    let alloc = flexed(sizes, flex, avail);
    let room = spare(sizes, avail);
    let total = total_weight(flex);
    lemma_flexed_sum(sizes, flex, avail, n);
    assert(alloc.take(n) =~= alloc);
    assert(sizes.take(n) =~= sizes);
    if total > 0 {
        lemma_shares_nearly_fill(room, flex);
        lemma_shares_nonneg(room, flex, total, n);
    } else {
        lemma_no_shares(room, flex, total, n);
    }
}

/// No share is negative, so neither is their sum.
proof fn lemma_shares_nonneg(room: int, flex: Seq<Option<i32>>, total: int, k: int)
    requires
        0 <= room,
        total == total_weight(flex),
        0 <= k <= flex.len(),
        forall|i: int| 0 <= i < flex.len() ==> weight_of(#[trigger] flex[i]) >= 0,
    ensures
        0 <= share_sum(room, flex, total, k),
    decreases k,
{
    if k > 0 {
        lemma_shares_nonneg(room, flex, total, k - 1);
        lemma_share_bounds(room, flex, k - 1);
    }
}

/// Where the total weight is not positive, nothing is shared out.
proof fn lemma_no_shares(room: int, flex: Seq<Option<i32>>, total: int, k: int)
    requires
        total <= 0,
        0 <= k,
    ensures
        share_sum(room, flex, total, k) == 0,
    decreases k,
{
    if k > 0 {
        lemma_no_shares(room, flex, total, k - 1);
    }
}

/// Tells whether the minimum sizes and the weights can be laid out.
pub fn can_lay_out(sizes: &Vec<u16>, flex: &Vec<Option<i32>>) -> (ok: bool)
    ensures
        ok == layout_fits(sizes@, flex@),
{
    let n = sizes.len();
    if flex.len() != n {
        return false;
    }
    let mut total: u32 = 0;
    let mut i: usize = 0;
    while i < n
        invariant
            n == sizes@.len(),
            i <= n,
            total == sum_of(sizes@.take(i as int)),
            total <= u16::MAX,
        decreases n - i,
    {
        proof {
            lemma_sum_prefix(sizes@, i + 1);
            assert(sizes@.take(i + 1).drop_last() =~= sizes@.take(i as int));
        }
        total = total + sizes[i] as u32;
        if total > 0xffff {
            return false;
        }
        i = i + 1;
    }
    assert(sizes@.take(n as int) =~= sizes@);
    if total_flex(flex) <= 0 {
        return true;
    }
    let mut k: usize = 0;
    while k < n
        invariant
            n == flex@.len(),
            n == sizes@.len(),
            k <= n,
            sum_of(sizes@) <= u16::MAX,
            total_weight(flex@) > 0,
            forall|m: int| 0 <= m < k ==> weight_of(#[trigger] flex@[m]) >= 0,
        decreases n - k,
    {
        if let Some(f) = flex[k] {
            if f < 0 {
                assert(weight_of(flex@[k as int]) < 0);
                return false;
            }
        }
        k = k + 1;
    }
    true
}

/// Returns the sum of `sizes`.
pub fn total_of(sizes: &Vec<u16>) -> (total: u16)
    requires
        sum_of(sizes@) <= u16::MAX,
    ensures
        total == sum_of(sizes@),
{
    let n = sizes.len();
    let mut total: u16 = 0;
    let mut i: usize = 0;
    while i < n
        invariant
            n == sizes@.len(),
            i <= n,
            total == sum_of(sizes@.take(i as int)),
            sum_of(sizes@) <= u16::MAX,
        decreases n - i,
    {
        proof {
            lemma_sum_prefix(sizes@, i + 1);
            assert(sizes@.take(i + 1).drop_last() =~= sizes@.take(i as int));
        }
        total = total + sizes[i];
        i = i + 1;
    }
    assert(sizes@.take(n as int) =~= sizes@);
    total
}

/// Returns the largest of `sizes`, 0 where there is none.
pub fn largest_of(sizes: &Vec<u16>) -> (largest: u16)
    ensures
        largest == max_of(sizes@),
{
    let n = sizes.len();
    let mut largest: u16 = 0;
    let mut i: usize = 0;
    while i < n
        invariant
            n == sizes@.len(),
            i <= n,
            largest == max_of(sizes@.take(i as int)),
        decreases n - i,
    {
        proof {
            assert(sizes@.take(i + 1).drop_last() =~= sizes@.take(i as int));
        }
        if sizes[i] > largest {
            largest = sizes[i];
        }
        i = i + 1;
    }
    assert(sizes@.take(n as int) =~= sizes@);
    largest
}

/// Returns the sum of the weights.
pub fn total_flex(flex: &Vec<Option<i32>>) -> (total: i128)
    ensures
        total == total_weight(flex@),
{
    let n = flex.len();
    let mut total: i128 = 0;
    let mut i: usize = 0;
    while i < n
        invariant
            n == flex@.len(),
            i <= n,
            total == total_weight(flex@.take(i as int)),
        decreases n - i,
    {
        proof {
            lemma_weight_range(flex@.take(i as int));
            assert(flex@.take(i + 1).drop_last() =~= flex@.take(i as int));
            assert(i * 0x8000_0000 <= 0xffff_ffff_ffff_ffff * 0x8000_0000) by (nonlinear_arith)
                requires
                    0 <= i <= 0xffff_ffff_ffff_ffff,
            ;
        }
        if let Some(f) = flex[i] {
            total = total + f as i128;
        }
        i = i + 1;
    }
    assert(flex@.take(n as int) =~= flex@);
    total
}

/// Gives each child its minimum and its share of what `avail` leaves over.
pub fn distribute(sizes: &Vec<u16>, flex: &Vec<Option<i32>>, avail: u16) -> (alloc: Vec<u16>)
    requires
        layout_fits(sizes@, flex@),
    ensures
        alloc@ == flexed(sizes@, flex@, avail),
{
    let n = sizes.len();
    let total_min = total_of(sizes);
    let total = total_flex(flex);
    let room: u16 = if avail > total_min {
        avail - total_min
    } else {
        0
    };
    let mut alloc: Vec<u16> = Vec::new();
    let mut i: usize = 0;
    while i < n
        invariant
            n == sizes@.len(),
            i <= n,
            layout_fits(sizes@, flex@),
            total_min == sum_of(sizes@),
            total == total_weight(flex@),
            room == spare(sizes@, avail),
            alloc@ == flexed(sizes@, flex@, avail).take(i as int),
        decreases n - i,
    {
        proof {
            lemma_share_bounds(room as int, flex@, i as int);
            lemma_sum_bounds_each(sizes@, i as int);
        }
        let extra: u16 = match flex[i] {
            Some(f) => if total > 0 {
                assert(weight_of(flex@[i as int]) >= 0);
                assert((room as int) * (f as int) <= 0xffff * 0x7fff_ffff) by (nonlinear_arith)
                    requires
                        0 <= room as int <= 0xffff,
                        0 <= f as int <= 0x7fff_ffff,
                ;
                (((room as i128) * (f as i128)) / total) as u16
            } else {
                0
            },
            None => 0,
        };
        alloc.push(sizes[i] + extra);
        i = i + 1;
        assert(alloc@ =~= flexed(sizes@, flex@, avail).take(i as int));
    }
    assert(flexed(sizes@, flex@, avail).take(n as int) =~= flexed(sizes@, flex@, avail));
    alloc
}

/// Returns what `avail` exceeds the sum of `alloc` by, 0 where it does not.
pub fn left_over(alloc: &Vec<u16>, avail: u16) -> (rest: u16)
    ensures
        rest == if avail > sum_of(alloc@) {
            avail - sum_of(alloc@)
        } else {
            0
        },
{
    let n = alloc.len();
    let mut used: u32 = 0;
    let mut i: usize = 0;
    while i < n && used < avail as u32
        invariant
            n == alloc@.len(),
            i <= n,
            used == sum_of(alloc@.take(i as int)),
            used <= avail + u16::MAX,
        decreases n - i,
    {
        proof {
            assert(alloc@.take(i + 1).drop_last() =~= alloc@.take(i as int));
        }
        used = used + alloc[i] as u32;
        i = i + 1;
    }
    proof {
        lemma_sum_prefix(alloc@, i as int);
        if i == n {
            assert(alloc@.take(n as int) =~= alloc@);
        }
    }
    if used < avail as u32 {
        (avail as u32 - used) as u16
    } else {
        0
    }
}

/// Hands out what rounding left over of `avail`: one more for each child, in
/// order, until it is used up or each child had one.
pub fn repair(alloc: Vec<u16>, avail: u16) -> (fixed: Vec<u16>)
    ensures
        fixed@ == repaired(alloc@, avail),
{
    let n = alloc.len();
    let rest = left_over(&alloc, avail);
    let mut fixed: Vec<u16> = Vec::new();
    let mut i: usize = 0;
    while i < n
        invariant
            n == alloc@.len(),
            i <= n,
            rest as int == if avail > sum_of(alloc@) {
                avail - sum_of(alloc@)
            } else {
                0
            },
            fixed@ == repaired(alloc@, avail).take(i as int),
        decreases n - i,
    {
        if i < rest as usize {
            proof {
                lemma_sum_bounds_each(alloc@, i as int);
            }
            fixed.push(alloc[i] + 1);
        } else {
            fixed.push(alloc[i]);
        }
        i = i + 1;
        assert(fixed@ =~= repaired(alloc@, avail).take(i as int));
    }
    assert(repaired(alloc@, avail).take(n as int) =~= repaired(alloc@, avail));
    fixed
}

} // verus!
