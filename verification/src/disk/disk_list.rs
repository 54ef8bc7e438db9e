//! Enumeration of storage volumes from a drive bitmask.

use vstd::prelude::*;

verus! {

/// Identifier of a storage volume: its drive letter.
pub type VolumeId = char;

/// Number of drive letters a bitmask can name, `A` to `Z`.
pub const DRIVE_LETTERS: u32 = 26;

/// Bit `i` of `mask` is set.
pub open spec fn has_drive(mask: u32, i: u32) -> bool {
    mask & (1u32 << i) != 0
}

/// The letter that bit `i` stands for: `A` for bit 0, `B` for bit 1, and so on.
pub open spec fn drive_letter(i: u32) -> char {
    (65 + i) as char
}

/// The letters of the set bits among the lowest `n` bits of `mask`, lowest bit first.
pub open spec fn volume_letters(mask: u32, n: u32) -> Seq<char>
    decreases n,
{
    if n == 0 {
        Seq::empty()
    } else if has_drive(mask, (n - 1) as u32) {
        volume_letters(mask, (n - 1) as u32).push(drive_letter((n - 1) as u32))
    } else {
        volume_letters(mask, (n - 1) as u32)
    }
}

/// What a platform's answer to the drive query decodes to. A platform without
/// such a query answers `None` and has no volumes to offer.
pub open spec fn disk_list(drives_mask: Option<u32>) -> Seq<char> {
    match drives_mask {
        Some(mask) => volume_letters(mask, DRIVE_LETTERS),
        None => Seq::empty(),
    }
}

/// Decodes the platform's drive bitmask into volume letters in ascending order.
///
/// `drives_mask` is `None` on a platform that has no drive query; the list is
/// then empty.
pub fn get_disk_list(drives_mask: Option<u32>) -> (disks: Vec<char>)
    ensures
        disks@ == disk_list(drives_mask),
{
    let mut disks: Vec<char> = Vec::new();
    if let Some(mask) = drives_mask {
        let mut i: u32 = 0;
        while i < DRIVE_LETTERS
            invariant
                i <= DRIVE_LETTERS,
                disks@ == volume_letters(mask, i),
            decreases DRIVE_LETTERS - i,
        {
            if mask & (1u32 << i) != 0 {
                let letter: char = (65u8 + i as u8) as char;
                disks.push(letter);
            }
            i = i + 1;
        }
    }
    disks
}

/// Every letter of the list belongs to a set bit below `n`, and every set bit
/// below `n` has its letter in the list; the letters ascend strictly.
pub proof fn law_volume_letters(mask: u32, n: u32)
    requires
        n <= DRIVE_LETTERS,
    ensures
        forall|c: char|
            volume_letters(mask, n).contains(c) <==> exists|i: u32|
                i < n && has_drive(mask, i) && c == #[trigger] drive_letter(i),
        forall|j: int, k: int|
            0 <= j < k < volume_letters(mask, n).len() ==> (volume_letters(mask, n)[j] as u32)
                < (volume_letters(mask, n)[k] as u32),
        forall|j: int|
            0 <= j < volume_letters(mask, n).len() ==> (volume_letters(mask, n)[j] as u32) < 65
                + n,
        volume_letters(mask, n).len() <= n,
    decreases n,
{
    if n > 0 {
        let m = (n - 1) as u32;
        law_volume_letters(mask, m);
        let prev = volume_letters(mask, m);
        let cur = volume_letters(mask, n);
        assert forall|c: char|
            cur.contains(c) <==> exists|i: u32|
                i < n && has_drive(mask, i) && c == #[trigger] drive_letter(i) by {
            if cur.contains(c) {
                let j = choose|j: int| 0 <= j < cur.len() && cur[j] == c;
                if !(has_drive(mask, m) && j == prev.len()) {
                    assert(prev.contains(c));
                    let i = choose|i: u32| i < m && has_drive(mask, i) && c == drive_letter(i);
                    assert(i < n && has_drive(mask, i) && c == drive_letter(i));
                }
            }
            if exists|i: u32| i < n && has_drive(mask, i) && c == #[trigger] drive_letter(i) {
                let i = choose|i: u32| i < n && has_drive(mask, i) && c == drive_letter(i);
                if i == m {
                    assert(cur[prev.len() as int] == c);
                } else {
                    assert(prev.contains(c));
                    let j = choose|j: int| 0 <= j < prev.len() && prev[j] == c;
                    assert(cur[j] == c);
                }
            }
        }
    }
}

} // verus!
