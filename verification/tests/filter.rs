use dns_proxy::filter::Filter;
use dns_proxy::hosts::{chars_of, entry_of, names_of};

fn line(text: &str) -> Vec<char> {
    text.chars().collect()
}

fn name(text: &str) -> Option<String> {
    Some(text.to_string())
}

#[test]
fn new_filter_refuses_nothing() {
    let filter = Filter::new();
    assert!(!filter.contains(&"ads.example.".to_string()));
    assert!(!filter.contains(&String::new()));
}

#[test]
fn inserted_names_are_contained() {
    let mut filter = Filter::new();
    filter.insert("ads.example.".to_string());
    assert!(filter.contains(&"ads.example.".to_string()));
}

#[test]
fn matching_is_case_and_dot_sensitive() {
    let mut filter = Filter::new();
    filter.insert("ads.example.".to_string());
    assert!(!filter.contains(&"ads.example".to_string()));
    assert!(!filter.contains(&"ADS.example.".to_string()));
    assert!(!filter.contains(&"xads.example.".to_string()));
}

#[test]
fn chars_of_keeps_every_character() {
    assert_eq!(chars_of(""), Vec::<char>::new());
    assert_eq!(chars_of("a b"), vec!['a', ' ', 'b']);
    assert_eq!(chars_of("é\n"), vec!['é', '\n']);
}

#[test]
fn entry_is_the_second_token() {
    assert_eq!(entry_of(&line("0.0.0.0 ads.example.")), name("ads.example."));
    assert_eq!(entry_of(&line("0.0.0.0 ads.example. # trailing")), name("ads.example."));
    assert_eq!(entry_of(&line("0.0.0.0\tads.example.")), name("ads.example."));
    assert_eq!(entry_of(&line("0.0.0.0   ads.example.\r")), name("ads.example."));
    assert_eq!(entry_of(&line("  0.0.0.0 ads.example.")), name("ads.example."));
    assert_eq!(entry_of(&line("0.0.0.0 bücher.example.")), name("bücher.example."));
}

#[test]
fn comments_and_short_lines_list_nothing() {
    assert_eq!(entry_of(&line("# 0.0.0.0 ads.example.")), None);
    assert_eq!(entry_of(&line("#")), None);
    assert_eq!(entry_of(&line("")), None);
    assert_eq!(entry_of(&line("   ")), None);
    assert_eq!(entry_of(&line("0.0.0.0")), None);
    assert_eq!(entry_of(&line("0.0.0.0  \r")), None);
}

#[test]
fn only_a_leading_hash_makes_a_comment() {
    assert_eq!(entry_of(&line(" # indented")), name("indented"));
    assert_eq!(entry_of(&line("0.0.0.0 #name")), name("#name"));
}

#[test]
fn names_of_reads_line_by_line() {
    let text = "# blocklist\n0.0.0.0 ads.example.\n\n127.0.0.1\ttracker.example  alias\r\n0.0.0.0\nlast.line 0.0.0.0";
    assert_eq!(
        names_of(text),
        vec!["ads.example.".to_string(), "tracker.example".to_string(), "0.0.0.0".to_string()]
    );
    assert_eq!(names_of(""), Vec::<String>::new());
    assert_eq!(names_of("\n\n"), Vec::<String>::new());
    assert_eq!(names_of("a b\n"), vec!["b".to_string()]);
    assert_eq!(names_of("a b\na b"), vec!["b".to_string(), "b".to_string()]);
}

#[test]
fn add_hosts_adds_every_listed_name() {
    let mut filter = Filter::new();
    filter.insert("kept.example.".to_string());
    filter.add_hosts("# ads\n0.0.0.0 ads.example.\n0.0.0.0 tracker.example.\n#0.0.0.0 fine.example.\n");
    assert!(filter.contains(&"kept.example.".to_string()));
    assert!(filter.contains(&"ads.example.".to_string()));
    assert!(filter.contains(&"tracker.example.".to_string()));
    assert!(!filter.contains(&"fine.example.".to_string()));
    assert!(!filter.contains(&"0.0.0.0".to_string()));
}
