use channel_runner::text::{decimal_string, split_char, str_equal};

fn strings(v: &[&str]) -> Vec<String> {
    v.iter().map(|s| s.to_string()).collect()
}

#[test]
fn split_char_splits_on_every_space() {
    assert_eq!(split_char("cargo build --release", ' '), strings(&["cargo", "build", "--release"]));
}

#[test]
fn split_char_keeps_empty_pieces() {
    assert_eq!(split_char(" a  b ", ' '), strings(&["", "a", "", "b", ""]));
}

#[test]
fn split_char_of_empty_line_is_one_empty_piece() {
    assert_eq!(split_char("", ' '), strings(&[""]));
}

#[test]
fn split_char_without_separator_is_whole_line() {
    assert_eq!(split_char("make", ' '), strings(&["make"]));
}

#[test]
fn split_char_handles_non_ascii() {
    assert_eq!(split_char("échos ü", ' '), strings(&["échos", "ü"]));
}

#[test]
fn split_char_agrees_with_std_split() {
    for line in ["", " ", "a", "a b", "  x y  z ", "echo hello world", "ä ö ü"] {
        let expected: Vec<String> = line.split(' ').map(|s| s.to_string()).collect();
        assert_eq!(split_char(line, ' '), expected);
    }
}

#[test]
fn split_then_join_gives_back_the_line() {
    for line in ["", " ", "a b  c", " lead", "trail ", "echo  hi"] {
        assert_eq!(split_char(line, ' ').join(" "), line);
    }
}

#[test]
fn split_piece_count_is_spaces_plus_one() {
    let line = " a b  c ";
    assert_eq!(split_char(line, ' ').len(), line.matches(' ').count() + 1);
}

#[test]
fn decimal_string_of_small_and_large_numbers() {
    assert_eq!(decimal_string(0), "0");
    assert_eq!(decimal_string(7), "7");
    assert_eq!(decimal_string(10), "10");
    assert_eq!(decimal_string(1234567890), "1234567890");
    assert_eq!(decimal_string(u64::MAX), "18446744073709551615");
}

#[test]
fn decimal_string_reads_back() {
    for n in [0u64, 9, 10, 99, 100, 4096, u64::MAX] {
        assert_eq!(decimal_string(n).parse::<u64>().unwrap(), n);
    }
}

#[test]
fn str_equal_compares_characters() {
    assert!(str_equal("docker", "docker"));
    assert!(!str_equal("docker", "dockers"));
    assert!(!str_equal("lxc", "lxd"));
    assert!(str_equal("", ""));
}
