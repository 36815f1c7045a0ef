use lineprompt::replace::replace_chars;

#[test]
fn replace_single_occurrence() {
    assert_eq!(replace_chars("/home/alice/proj", "/home/alice", "~"), "~/proj");
}

#[test]
fn replace_no_occurrence() {
    assert_eq!(replace_chars("/srv/data", "/home/alice", "~"), "/srv/data");
}

#[test]
fn replace_is_non_overlapping_and_leftmost() {
    assert_eq!(replace_chars("aaa", "aa", "b"), "ba");
    assert_eq!(replace_chars("aaaa", "aa", "b"), "bb");
}

#[test]
fn replace_empty_pattern_interleaves() {
    assert_eq!(replace_chars("ab", "", "~"), "~a~b~");
    assert_eq!(replace_chars("", "", "~"), "~");
}

#[test]
fn replace_longer_replacement() {
    assert_eq!(replace_chars("x-y-z", "-", "<->"), "x<->y<->z");
}

#[test]
fn replace_multibyte_characters() {
    assert_eq!(replace_chars("héhé", "hé", "~"), "~~");
}
