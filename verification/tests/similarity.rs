use zenyx::similarity::{closest, edit_distance, hamming_distance, MAX_DISTANCE};

fn strings(items: &[&str]) -> Vec<String> {
    items.iter().map(|s| s.to_string()).collect()
}

#[test]
fn hamming_distance_counts_differing_positions() {
    assert_eq!(hamming_distance("help", "help"), Some(0));
    assert_eq!(hamming_distance("helo", "help"), Some(1));
    assert_eq!(hamming_distance("karolin", "kathrin"), Some(3));
    assert_eq!(hamming_distance("", ""), Some(0));
}

#[test]
fn hamming_distance_needs_equal_lengths() {
    assert_eq!(hamming_distance("help", "hel"), None);
    assert_eq!(hamming_distance("", "a"), None);
}

#[test]
fn edit_distance_is_the_levenshtein_distance() {
    assert_eq!(edit_distance("kitten", "sitting"), 3);
    assert_eq!(edit_distance("flaw", "lawn"), 2);
    assert_eq!(edit_distance("helo", "help"), 1);
    assert_eq!(edit_distance("exi", "exit"), 1);
    assert_eq!(edit_distance("", "abc"), 3);
    assert_eq!(edit_distance("abc", ""), 3);
    assert_eq!(edit_distance("", ""), 0);
    assert_eq!(edit_distance("same", "same"), 0);
    assert_eq!(edit_distance("ab", "ba"), 2);
}

#[test]
fn edit_distance_counts_characters_not_bytes() {
    assert_eq!(edit_distance("é", "e"), 1);
    assert_eq!(hamming_distance("é", "e"), Some(1));
}

#[test]
fn closest_takes_the_nearest_and_the_earliest() {
    let names = strings(&["help", "exec", "clear", "exit"]);
    assert_eq!(closest(&names, "helo"), Some(0));
    assert_eq!(closest(&names, "exet"), Some(1));
    assert_eq!(closest(&names, "exit"), Some(3));
    assert_eq!(closest(&names, "bogus"), None);
    assert_eq!(closest(&Vec::<String>::new(), "help"), None);
}

#[test]
fn closest_goes_no_further_than_the_limit() {
    assert_eq!(MAX_DISTANCE, 2);
    let names = strings(&["abcdef"]);
    assert_eq!(closest(&names, "abcd"), Some(0));
    assert_eq!(closest(&names, "abc"), None);
    assert_eq!(closest(&names, "abcxyz"), None);
    assert_eq!(closest(&names, "abcdxy"), Some(0));
}

#[test]
fn closest_falls_back_on_edits_where_too_many_positions_differ() {
    // "bca" differs from "abc" at three positions but is two edits away.
    assert_eq!(closest(&strings(&["abc"]), "bca"), Some(0));
    // "xite" differs from "exit" at four positions but is two edits away.
    assert_eq!(closest(&strings(&["exit"]), "xite"), Some(0));
    assert_eq!(closest(&strings(&["exit", "xi"]), "xite"), Some(0));
    assert_eq!(closest(&strings(&["xi", "exit"]), "xite"), Some(0));
    // Three edits are too many on either measure.
    assert_eq!(closest(&strings(&["abcd"]), "dcba"), None);
}

#[test]
fn closest_prefers_fewer_differing_positions_to_more_edits() {
    // "exit" is one position from "exis"; "exi" is one edit from it too, but comes later.
    assert_eq!(closest(&strings(&["exit", "exi"]), "exis"), Some(0));
    assert_eq!(closest(&strings(&["xi", "exit"]), "exis"), Some(1));
}
