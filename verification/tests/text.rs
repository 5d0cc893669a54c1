use yaima::text::{before, characters, contains, decimal, join, same};

#[test]
fn before_should_stop_at_first_mark_when_there_is_one() {
    assert_eq!(before("ada@example.com", '@'), "ada");
    assert_eq!(before("a@b@c", '@'), "a");
    assert_eq!(before("@example.com", '@'), "");
    assert_eq!(before("no mark", '@'), "no mark");
    assert_eq!(before("élodie@x", '@'), "élodie");
}

#[test]
fn contains_should_find_text_when_it_occurs() {
    assert!(contains("violates \"users_email_key\"", "users_email_key"));
    assert!(contains("abc", ""));
    assert!(contains("abc", "bc"));
    assert!(!contains("abc", "abcd"));
    assert!(!contains("abc", "ca"));
}

#[test]
fn same_should_compare_characters_when_given_texts() {
    assert!(same("é", "é"));
    assert!(!same("a", "b"));
    assert!(!same("a", "ab"));
    assert!(same("", ""));
}

#[test]
fn join_should_append_when_given_texts() {
    assert_eq!(join("ab", "cd"), "abcd");
    assert_eq!(join("", ""), "");
}

#[test]
fn decimal_should_write_digits_when_given_number() {
    assert_eq!(decimal(0), "0");
    assert_eq!(decimal(10), "10");
    assert_eq!(decimal(u64::MAX), "18446744073709551615");
}

#[test]
fn characters_should_list_text_when_given_one() {
    assert_eq!(characters("aé"), vec!['a', 'é']);
}
