use classistant_server::perm::check;

#[test]
fn star_admits_everyone() {
    assert!(check("*", 1));
    assert!(check("*", 0));
    assert!(check("*", u64::MAX));
    assert!(check("4,*", 9));
    assert!(check("*,4", 9));
    assert!(check("a,*,b", 9));
}

#[test]
fn decimal_item_admits_that_user() {
    assert!(check("7", 7));
    assert!(!check("7", 8));
    assert!(check("1,22,333", 22));
    assert!(check("1,22,333", 333));
    assert!(check("1,22,333", 1));
    assert!(!check("1,22,333", 2));
    assert!(!check("1,22,333", 33));
    assert!(check("0", 0));
    assert!(check("18446744073709551615", u64::MAX));
    assert!(!check("18446744073709551616", u64::MAX));
}

#[test]
fn item_must_match_whole() {
    assert!(!check("12", 1));
    assert!(!check("12", 2));
    assert!(!check("1", 12));
    assert!(!check("007", 7));
    assert!(!check("+7", 7));
    assert!(!check(" 7", 7));
    assert!(!check("7 ", 7));
    assert!(!check("**", 7));
    assert!(!check("*7", 7));
}

#[test]
fn empty_and_foreign_items_admit_nobody() {
    assert!(!check("", 0));
    assert!(!check("", 7));
    assert!(!check(",", 7));
    assert!(!check(",,", 7));
    assert!(!check("abc", 7));
    assert!(!check("\u{e9}", 7));
    assert!(check("\u{e9},7", 7));
    assert!(check(",7", 7));
    assert!(check("7,", 7));
    assert!(check(",7,", 7));
}
