//! The dashboard page: the titles of the disk rows.
use vstd::prelude::*;
use crate::numtext::{decimal, push_decimal};
use crate::sensor_data::DiskInfo;

verus! {

/// The dashboard page.
#[derive(Debug)]
pub struct DashboardView;

impl Default for DashboardView {
    fn default() -> (r: DashboardView)
        ensures
            r == DashboardView,
    {
        DashboardView
    }
}

/// How many of the first `i` disks are removable (when `removable`) or
/// fixed (when not).
pub open spec fn count_kind_before(disks: Seq<DiskInfo>, i: int, removable: bool) -> nat
    decreases i,
{
    if i <= 0 {
        0
    } else {
        count_kind_before(disks, i - 1, removable) + (if disks[i - 1].is_removable == removable {
            1nat
        } else {
            0nat
        })
    }
}

/// The title of the disk row `i`: `"Removable n"` for the n-th removable
/// disk, `"Disk n"` for the n-th fixed one, counting each kind from zero in
/// list order.
pub open spec fn disk_title(disks: Seq<DiskInfo>, i: int) -> Seq<char> {
    let removable = disks[i].is_removable;
    let prefix = if removable {
        "Removable"@
    } else {
        "Disk"@
    };
    prefix + " "@ + decimal(count_kind_before(disks, i, removable))
}

/// The titles of the disk rows, one per disk in order.
pub fn disk_row_titles(disks: &Vec<DiskInfo>) -> (r: Vec<String>)
    ensures
        r@.len() == disks@.len(),
        forall|i: int| 0 <= i < disks@.len() ==> #[trigger] r@[i]@ == disk_title(disks@, i),
{
    let mut titles: Vec<String> = Vec::new();
    let mut disk_idx: usize = 0;
    let mut removable_idx: usize = 0;
    let mut i: usize = 0;
    while i < disks.len()
        invariant
            i <= disks@.len(),
            titles@.len() == i,
            disk_idx == count_kind_before(disks@, i as int, false),
            removable_idx == count_kind_before(disks@, i as int, true),
            disk_idx + removable_idx == i,
            forall|j: int| 0 <= j < i ==> #[trigger] titles@[j]@ == disk_title(disks@, j),
        decreases disks@.len() - i,
    {
        let disk = &disks[i];
        let mut title = String::new();
        let idx;
        if disk.is_removable {
            title.append("Removable");
            idx = removable_idx;
            removable_idx = removable_idx + 1;
        } else {
            title.append("Disk");
            idx = disk_idx;
            disk_idx = disk_idx + 1;
        }
        title.append(" ");
        push_decimal(&mut title, idx as u128);
        proof {
            assert(title@ == disk_title(disks@, i as int));
        }
        titles.push(title);
        i = i + 1;
    }
    titles
}

/// A removable disk's title starts with "Removable " and a fixed disk's with
/// "Disk ", at every position, and the rest is its number in decimal.
pub proof fn lemma_disk_title_prefix(disks: Seq<DiskInfo>, i: int)
    requires
        0 <= i < disks.len(),
    ensures
        disks[i].is_removable ==> disk_title(disks, i) == seq!['R', 'e', 'm', 'o', 'v', 'a', 'b', 'l', 'e', ' ']
            + decimal(count_kind_before(disks, i, true)),
        !disks[i].is_removable ==> disk_title(disks, i) == seq!['D', 'i', 's', 'k', ' '] + decimal(
            count_kind_before(disks, i, false),
        ),
{
    reveal_strlit("Removable");
    reveal_strlit("Disk");
    reveal_strlit(" ");
    if disks[i].is_removable {
        assert(disk_title(disks, i) =~= seq!['R', 'e', 'm', 'o', 'v', 'a', 'b', 'l', 'e', ' ']
            + decimal(count_kind_before(disks, i, true)));
    } else {
        assert(disk_title(disks, i) =~= seq!['D', 'i', 's', 'k', ' '] + decimal(
            count_kind_before(disks, i, false),
        ));
    }
}

/// The first disk of each kind is numbered 0.
pub proof fn lemma_first_of_kind_is_zero(disks: Seq<DiskInfo>, i: int)
    requires
        0 <= i < disks.len(),
        forall|k: int| 0 <= k < i ==> #[trigger] disks[k].is_removable != disks[i].is_removable,
    ensures
        count_kind_before(disks, i, disks[i].is_removable) == 0,
    decreases i,
{
    if i > 0 {
        lemma_none_of_kind_before(disks, i - 1, disks[i].is_removable);
    }
}

proof fn lemma_none_of_kind_before(disks: Seq<DiskInfo>, i: int, removable: bool)
    requires
        0 <= i < disks.len(),
        forall|k: int| 0 <= k <= i ==> #[trigger] disks[k].is_removable != removable,
    ensures
        count_kind_before(disks, i + 1, removable) == 0,
    decreases i,
{
    assert(disks[i].is_removable != removable);
    if i > 0 {
        lemma_none_of_kind_before(disks, i - 1, removable);
    } else {
        assert(count_kind_before(disks, 0, removable) == 0);
    }
}

/// The rows of each kind are numbered 0, 1, 2, … without gaps: a disk's
/// number goes up by one from the previous disk of its kind.
pub proof fn lemma_disk_numbers_consecutive(disks: Seq<DiskInfo>, i: int, j: int)
    requires
        0 <= i < j < disks.len(),
        disks[i].is_removable == disks[j].is_removable,
        forall|k: int| i < k < j ==> #[trigger] disks[k].is_removable != disks[i].is_removable,
    ensures
        count_kind_before(disks, j, disks[j].is_removable) == count_kind_before(
            disks,
            i,
            disks[i].is_removable,
        ) + 1,
{
    lemma_count_unchanged_after(disks, i, j - 1);
}

proof fn lemma_count_unchanged_after(disks: Seq<DiskInfo>, i: int, k: int)
    requires
        0 <= i <= k < disks.len(),
        forall|m: int| i < m <= k ==> #[trigger] disks[m].is_removable != disks[i].is_removable,
    ensures
        count_kind_before(disks, k + 1, disks[i].is_removable) == count_kind_before(
            disks,
            i,
            disks[i].is_removable,
        ) + 1,
    decreases k - i,
{
    if k > i {
        lemma_count_unchanged_after(disks, i, k - 1);
    }
}

} // verus!
