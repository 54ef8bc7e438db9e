use file_explorer::nav::volume_root;
use file_explorer::disk::disk_list::{get_disk_list, DRIVE_LETTERS};

#[test]
fn empty_mask_has_no_volumes() {
    assert_eq!(get_disk_list(Some(0)), Vec::<char>::new());
}

#[test]
fn platform_without_drive_query_has_no_volumes() {
    assert_eq!(get_disk_list(None), Vec::<char>::new());
}

#[test]
fn set_bits_become_letters_in_ascending_order() {
    assert_eq!(get_disk_list(Some(0b101)), vec!['A', 'C']);
    assert_eq!(get_disk_list(Some(0b1100)), vec!['C', 'D']);
    assert_eq!(get_disk_list(Some(1)), vec!['A']);
}

#[test]
fn highest_letter_is_z() {
    assert_eq!(get_disk_list(Some(1 << 25)), vec!['Z']);
}

#[test]
fn bits_above_the_alphabet_are_ignored() {
    assert_eq!(DRIVE_LETTERS, 26);
    assert_eq!(get_disk_list(Some(1 << 26)), Vec::<char>::new());
    assert_eq!(get_disk_list(Some(0x8000_0000)), Vec::<char>::new());
    assert_eq!(get_disk_list(Some((1 << 26) | 0b10)), vec!['B']);
}

#[test]
fn full_mask_lists_the_whole_alphabet() {
    let all: Vec<char> = ('A'..='Z').collect();
    assert_eq!(get_disk_list(Some(u32::MAX)), all);
}

#[test]
fn enumeration_is_repeatable() {
    assert_eq!(get_disk_list(Some(0x2d)), get_disk_list(Some(0x2d)));
    assert_eq!(get_disk_list(Some(0x2d)), vec!['A', 'C', 'D', 'F']);
}

#[test]
fn volume_root_is_letter_colon_backslash() {
    assert_eq!(volume_root('C'), "C:\\");
    assert_eq!(volume_root('Z'), "Z:\\");
}
