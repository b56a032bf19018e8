use prequery_preprocess::text::{chain, decimal, listing, rank, Rank};

#[test]
fn rank_orders_by_bytes() {
    assert_eq!(rank("", ""), Rank::Same);
    assert_eq!(rank("", "a"), Rank::Before);
    assert_eq!(rank("a", ""), Rank::After);
    assert_eq!(rank("a", "a"), Rank::Same);
    assert_eq!(rank("a", "b"), Rank::Before);
    assert_eq!(rank("b", "a"), Rank::After);
    assert_eq!(rank("a", "ab"), Rank::Before);
    assert_eq!(rank("ab", "a"), Rank::After);
    assert_eq!(rank("a-b", "a/b"), Rank::Before);
    assert_eq!(rank("Z", "a"), Rank::Before);
    assert_eq!(rank("z", "é"), Rank::Before);
    assert_eq!(rank("é", "é"), Rank::Same);
}

#[test]
fn rank_agrees_with_the_order_of_strings() {
    let samples = ["", "a", "a/b", "a-b", "ab", "b", "é", "z", "assets/example.png"];
    for a in samples {
        for b in samples {
            let expected = match a.cmp(b) {
                std::cmp::Ordering::Less => Rank::Before,
                std::cmp::Ordering::Equal => Rank::Same,
                std::cmp::Ordering::Greater => Rank::After,
            };
            assert_eq!(rank(a, b), expected);
        }
    }
}

#[test]
fn decimal_writes_numerals() {
    assert_eq!(decimal(0), "0");
    assert_eq!(decimal(7), "7");
    assert_eq!(decimal(10), "10");
    assert_eq!(decimal(42), "42");
    assert_eq!(decimal(1234567890), "1234567890");
    assert_eq!(decimal(usize::MAX), usize::MAX.to_string());
}

#[test]
fn listing_puts_each_item_on_its_own_line() {
    assert_eq!(listing("head:", "  ", &Vec::new()), "head:");
    assert_eq!(
        listing("head:", "  ", &vec!["one".to_string(), "two".to_string()]),
        "head:\n  one\n  two"
    );
}

#[test]
fn concat_appends() {
    assert_eq!(chain("a", "b"), "ab");
    assert_eq!(chain("", ""), "");
}
