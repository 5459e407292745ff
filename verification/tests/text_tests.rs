use bw_ssh_agent::text::{split_str, str_eq};

#[test]
fn split_like_std() {
    for (s, sep) in [("a.b.c", '.'), ("", '.'), ("..", '.'), ("abc", '|'), ("é|ü|", '|'), ("x@y", '@')] {
        let expected: Vec<&str> = s.split(sep).collect();
        assert_eq!(split_str(s, sep), expected);
    }
}

#[test]
fn split_count_is_separators_plus_one() {
    assert_eq!(split_str("1|2|3|4", '|').len(), 4);
    assert_eq!(split_str("none", '|').len(), 1);
}

#[test]
fn join_of_split_is_identity() {
    let s = "pri-key:1@bw|x@";
    assert_eq!(split_str(s, '@').join("@"), s);
}

#[test]
fn str_eq_compares_text() {
    assert!(str_eq("query", "query"));
    assert!(!str_eq("query", "querY"));
    assert!(!str_eq("query", "quer"));
    assert!(str_eq("é", "é"));
}

#[test]
fn split_handles_multibyte_text() {
    assert_eq!(split_str("é|ü||ß", '|'), vec!["é", "ü", "", "ß"]);
    assert_eq!(split_str("aébéc", 'é'), vec!["a", "b", "c"]);
    assert_eq!(split_str("", '|'), vec![""]);
}
