use vesting_core::order::bytes_lt;
use vesting_core::pagination::page_limit;
use vesting_core::table::Table;

fn key(text: &str) -> Vec<u8> {
    text.as_bytes().to_vec()
}

fn filled() -> Table<u32> {
    let mut table = Table::new();
    for (i, name) in ["m", "b", "zz", "a", "ab", "z", "", "b\0"].iter().enumerate() {
        table.insert(key(name), i as u32);
    }
    table
}

fn keys(table: &Table<u32>) -> Vec<Vec<u8>> {
    (0..table.len()).map(|i| table.key_at(i).clone()).collect()
}

#[test]
fn keys_are_compared_byte_by_byte_with_a_prefix_first() {
    assert!(bytes_lt(b"", b"a"));
    assert!(!bytes_lt(b"", b""));
    assert!(!bytes_lt(b"a", b""));
    assert!(bytes_lt(b"a", b"ab"));
    assert!(bytes_lt(b"ab", b"b"));
    assert!(bytes_lt(b"a\0", b"a\x01"));
    assert!(!bytes_lt(b"b", b"ab"));
    assert!(!bytes_lt(b"abc", b"abc"));
    assert!(bytes_lt(&[0x7f], &[0x80]));
    assert!(bytes_lt(&[0x80], &[0xff]));
}

#[test]
fn table_keeps_keys_in_order_and_one_record_per_key() {
    let mut table = filled();
    assert_eq!(keys(&table), vec![key(""), key("a"), key("ab"), key("b"), key("b\0"), key("m"), key("z"), key("zz")]);
    assert_eq!(table.get(b"ab"), Some(&4));
    assert_eq!(table.get(b"abc"), None);
    assert_eq!(table.get(b""), Some(&6));
    table.insert(key("ab"), 99);
    assert_eq!(table.len(), 8);
    assert_eq!(table.get(b"ab"), Some(&99));
    assert_eq!(*table.value_at(2), 99);
    assert_eq!(table.lower_bound(b"b"), 3);
    assert_eq!(table.lower_bound(b"c"), 5);
    assert_eq!(table.lower_bound(b"zzz"), 8);
}

#[test]
fn table_remove_takes_the_record_out() {
    let mut table = filled();
    assert_eq!(table.remove(b"b"), Some(1));
    assert_eq!(table.remove(b"b"), None);
    assert_eq!(table.remove(b"nope"), None);
    assert_eq!(table.len(), 7);
    assert_eq!(table.get(b"b"), None);
    assert_eq!(table.get(b"b\0"), Some(&7));
    assert_eq!(keys(&table), vec![key(""), key("a"), key("ab"), key("b\0"), key("m"), key("z"), key("zz")]);
}

#[test]
fn pages_from_the_front_and_from_the_back() {
    let table = filled();
    let values = |page: Vec<&u32>| -> Vec<u32> { page.into_iter().copied().collect() };
    assert_eq!(values(table.page(None, 3)), vec![6, 3, 4]);
    assert_eq!(values(table.page(Some(&key("ab\0")), 3)), vec![1, 7, 0]);
    assert_eq!(values(table.page(Some(&key("ab")), 2)), vec![4, 1]);
    assert_eq!(values(table.page(Some(&key("zz\0")), 2)), Vec::<u32>::new());
    assert_eq!(values(table.page(None, 0)), Vec::<u32>::new());
    assert_eq!(values(table.page(None, usize::MAX)).len(), 8);

    assert_eq!(values(table.last_page(None, 3)), vec![2, 5, 0]);
    assert_eq!(values(table.last_page(Some(&key("z")), 5)), vec![2, 5]);
    assert_eq!(values(table.last_page(Some(&key("zzz")), 5)), Vec::<u32>::new());
    assert_eq!(values(table.last_page(None, usize::MAX)).len(), 8);
}

#[test]
fn page_size_is_the_default_or_between_one_and_the_maximum() {
    assert_eq!(page_limit(None), 10);
    assert_eq!(page_limit(Some(0)), 1);
    assert_eq!(page_limit(Some(1)), 1);
    assert_eq!(page_limit(Some(17)), 17);
    assert_eq!(page_limit(Some(30)), 30);
    assert_eq!(page_limit(Some(31)), 30);
    assert_eq!(page_limit(Some(u32::MAX)), 30);
}
