use rcli::process::http_serve::{bytes_in_order, names_in_order, render_index, sorted_names};
use rcli::{file_handler, Found};

fn names(list: &[&str]) -> Vec<String> {
    list.iter().map(|n| n.to_string()).collect()
}

#[test]
fn nothing_there_is_not_found() {
    let reply = file_handler("./nowhere", Found::Missing);
    assert_eq!(reply.status, 404);
    assert_eq!(reply.body, "File ./nowhere not found!");
    assert_eq!(reply.index, None);
}

#[test]
fn a_file_is_sent_as_it_is() {
    let reply = file_handler("./Cargo.toml", Found::File { content: "[package]\n".to_string() });
    assert_eq!(reply.status, 200);
    assert!(reply.body.contains("[package]"));
    assert_eq!(reply.body, "[package]\n");
    assert_eq!(reply.index, None);
}

#[test]
fn a_file_that_cannot_be_read_is_a_server_error() {
    let why = "stream did not contain valid UTF-8".to_string();
    let reply = file_handler("./a.bin", Found::Unreadable { why: why.clone() });
    assert_eq!(reply.status, 500);
    assert_eq!(reply.body, why);
    assert_eq!(reply.index, None);
}

#[test]
fn a_directory_gets_an_index_of_its_entries_in_order() {
    let entries = names(&["b.txt", "a.txt", "B.txt", "ab", "a"]);
    let reply = file_handler("./fixtures", Found::Directory { entries });
    assert_eq!(reply.status, 200);
    assert_eq!(reply.body, "None");
    assert_eq!(
        reply.index.unwrap(),
        "<html><body><ul>\
         <li><a href=\"B.txt\">B.txt</a></li>\
         <li><a href=\"a\">a</a></li>\
         <li><a href=\"a.txt\">a.txt</a></li>\
         <li><a href=\"ab\">ab</a></li>\
         <li><a href=\"b.txt\">b.txt</a></li>\
         </ul></body></html>"
    );
}

#[test]
fn an_empty_directory_gets_an_empty_list() {
    let reply = file_handler("./empty", Found::Directory { entries: Vec::new() });
    assert_eq!(reply.index.unwrap(), "<html><body><ul></ul></body></html>");
}

#[test]
fn names_are_sorted_by_their_characters() {
    assert_eq!(
        sorted_names(names(&["b", "", "ab", "a", "B", "\u{e9}", "z", "a"])),
        names(&["", "B", "a", "a", "ab", "b", "z", "\u{e9}"])
    );
}

#[test]
fn the_index_keeps_the_order_it_is_given() {
    assert_eq!(
        render_index(&names(&["z", "a"])),
        "<html><body><ul><li><a href=\"z\">z</a></li><li><a href=\"a\">a</a></li></ul></body></html>"
    );
}

#[test]
fn a_prefix_comes_first_and_then_the_first_difference_decides() {
    assert!(bytes_in_order(b"", b""));
    assert!(bytes_in_order(b"", b"a"));
    assert!(!bytes_in_order(b"a", b""));
    assert!(bytes_in_order(b"a", b"a"));
    assert!(bytes_in_order(b"a", b"ab"));
    assert!(!bytes_in_order(b"ab", b"a"));
    assert!(bytes_in_order(b"ab", b"b"));
    assert!(!bytes_in_order(b"b", b"ab"));
    assert!(bytes_in_order(b"B", b"a"));
    assert!(names_in_order("z", "\u{e9}"));
    assert!(!names_in_order("\u{e9}", "z"));
}

#[test]
fn sorting_agrees_with_the_order_of_strings() {
    let mut expected = names(&["pear", "Apple", "apple", "", "fig", "apple", "\u{4e2d}", "~", "10", "9"]);
    let sorted = sorted_names(expected.clone());
    expected.sort();
    assert_eq!(sorted, expected);
}
