use pls::enums::SizeUnit;
use pls::config::{EntryConst, NlinkStyles};
use pls::perm::Perm;

fn entry_const() -> EntryConst {
    EntryConst {
        dev_style: "dev".to_string(),
        ino_style: "ino".to_string(),
        blocks_style: "blk".to_string(),
        size_style: "siz".to_string(),
        size_unit: SizeUnit::Bytes,
        perm_style: "p".to_string(),
        perm_special_style: "sp".to_string(),
        oct_style: "oct".to_string(),
        user_curr_style: "uc".to_string(),
        user_other_style: "uo".to_string(),
        group_curr_style: "gc".to_string(),
        group_other_style: "go".to_string(),
        nlink_styles: NlinkStyles {
            file_sing: "fs".to_string(),
            file_plur: "fp".to_string(),
            dir_sing: "ds".to_string(),
            dir_plur: "dp".to_string(),
        },
        atime_format: "[year]".to_string(),
        btime_format: "[year]".to_string(),
        ctime_format: "[year]".to_string(),
        mtime_format: "[year]".to_string(),
    }
}

#[test]
fn oct_masks_permission_bits() {
    let ec = entry_const();
    assert_eq!(Perm::from_mode(0o100644).oct(&ec), "<oct>644</>");
    assert_eq!(Perm::from_mode(0o755).oct(&ec), "<oct>755</>");
    assert_eq!(Perm::from_mode(0o4755).oct(&ec), "<oct>4755</>");
}

#[test]
fn sym_plain_mode() {
    let ec = entry_const();
    assert_eq!(
        Perm::from_mode(0o644).sym(&ec),
        "<p>r</><p>w</><p>-</><p>r</><p>-</><p>-</><p>r</><p>-</><p>-</>"
    );
}

#[test]
fn sym_setuid_and_sticky() {
    let ec = entry_const();
    // setuid with execute shows a lowercase special letter, styled apart
    assert_eq!(
        Perm::from_mode(0o4755).sym(&ec),
        "<p>r</><p>w</><sp>s</><p>r</><p>-</><p>x</><p>r</><p>-</><p>x</>"
    );
    // sticky without execute shows the uppercase letter
    assert_eq!(
        Perm::from_mode(0o1644).sym(&ec),
        "<p>r</><p>w</><p>-</><p>r</><p>-</><p>-</><p>r</><p>-</><sp>T</>"
    );
}

/// Read the permission bits back out of the nine styled characters.
fn decode_sym(rendered: &str) -> u32 {
    let chars: Vec<char> = rendered
        .split("</>")
        .filter(|piece| !piece.is_empty())
        .map(|piece| piece.chars().last().unwrap())
        .collect();
    assert_eq!(chars.len(), 9);
    let mut bits: u32 = 0;
    let positions: [(u32, u32); 3] = [(0o400, 0o4000), (0o040, 0o2000), (0o004, 0o1000)];
    for (t, (read_bit, special_bit)) in positions.iter().enumerate() {
        let base = t * 3;
        if chars[base] != '-' {
            bits |= read_bit;
        }
        if chars[base + 1] != '-' {
            bits |= read_bit >> 1;
        }
        let x = chars[base + 2];
        if x == 'x' || x == 's' || x == 't' {
            bits |= read_bit >> 2;
        }
        if x == 's' || x == 'S' || x == 't' || x == 'T' {
            bits |= special_bit;
        }
    }
    bits
}

#[test]
fn sym_and_oct_stay_consistent() {
    let ec = entry_const();
    for mode in [0o000u32, 0o644, 0o755, 0o4755, 0o2711, 0o1777, 0o7777, 0o100600] {
        let decoded = decode_sym(&Perm::from_mode(mode).sym(&ec));
        let octal = Perm::from_mode(mode).oct(&ec);
        let shown = octal
            .strip_prefix("<oct>")
            .unwrap()
            .strip_suffix("</>")
            .unwrap();
        let from_octal = u32::from_str_radix(shown, 8).unwrap();
        assert_eq!(decoded, from_octal);
        assert_eq!(decoded, mode & 0o7777);
    }
}
