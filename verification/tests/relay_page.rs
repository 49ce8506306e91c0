use kailo_core::buzz::RosterEntry;
use kailo_core::relay_page::{member_channel_ids, page_channel_ids, roster_page, sorted_unique, string_tags, text_before};

fn s(x: &str) -> Option<String> {
    Some(x.to_owned())
}

fn texts(v: &[&str]) -> Vec<String> {
    v.iter().map(|x| x.to_string()).collect()
}

#[test]
fn non_string_parts_are_dropped_from_tags() {
    let page = vec![
        vec![vec![s("member"), None, s("AB"), s("admin")], vec![]],
        vec![vec![None], vec![s("p"), s("cd"), s("wss://r"), s("member")]],
    ];
    assert_eq!(
        string_tags(&page),
        vec![texts(&["member", "AB", "admin"]), vec![], vec![], texts(&["p", "cd", "wss://r", "member"])]
    );
}

#[test]
fn roster_lines_come_from_every_event_of_a_page() {
    let page = vec![
        vec![vec![s("member"), s("AB"), None, s("admin")], vec![s("member"), s("x")]],
        vec![vec![s("member"), s("Cd"), s("member")], vec![s("p"), s("ef"), s("wss://r"), s("member")]],
    ];
    assert_eq!(
        roster_page(&page, "member"),
        vec![
            RosterEntry { pubkey: "ab".into(), role: "admin".into() },
            RosterEntry { pubkey: "cd".into(), role: "member".into() },
        ]
    );
    assert_eq!(roster_page(&page, "p"), vec![RosterEntry { pubkey: "ef".into(), role: "member".into() }]);
}

#[test]
fn channel_ids_are_read_from_d_tags_sorted_and_once() {
    let page = vec![
        vec![vec![s("d"), s("c2")], vec![s("p"), s("k")], vec![s("d"), None]],
        vec![vec![None, s("c9")], vec![s("d"), s("c1"), s("extra")], vec![s("d"), s("c2")]],
        vec![vec![s("d")]],
    ];
    assert_eq!(page_channel_ids(&page), texts(&["c2", "c1", "c2"]));
    assert_eq!(member_channel_ids(&page), texts(&["c1", "c2"]));
    assert!(member_channel_ids(&[]).is_empty());
}

#[test]
fn texts_sort_as_strings_do() {
    assert!(text_before("a", "b"));
    assert!(text_before("ab", "abc"));
    assert!(!text_before("abc", "ab"));
    assert!(!text_before("x", "x"));
    assert!(text_before("Z", "a"));
    assert!(text_before("z", "é"));
    let v = texts(&["pear", "apple", "fig", "apple", "Fig", "é", "z"]);
    let mut expected = v.clone();
    expected.sort();
    expected.dedup();
    assert_eq!(sorted_unique(&v), expected);
}
