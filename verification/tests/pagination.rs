use onyx_core_builders::general::{one, ten, Pagination, QueryInfo, SortDirection};

#[test]
fn defaults_are_page_one_of_ten() {
    assert_eq!(one(), 1);
    assert_eq!(ten(), 10);
    let p = Pagination::from_query(None, None);
    assert_eq!(p, Pagination { page_number: 1, page_size: 10 });
}

#[test]
fn given_parameters_are_kept() {
    let p = Pagination::from_query(Some(4), Some(25));
    assert_eq!(p, Pagination { page_number: 4, page_size: 25 });
    let p = Pagination::from_query(Some(7), None);
    assert_eq!(p, Pagination { page_number: 7, page_size: 10 });
    let p = Pagination::from_query(None, Some(3));
    assert_eq!(p, Pagination { page_number: 1, page_size: 3 });
}

#[test]
fn third_page_of_twenty_five_rows_holds_five() {
    let p = Pagination { page_number: 3, page_size: 10 };
    let info = QueryInfo::new(25, &p);
    assert_eq!(info.num_items, 25);
    assert_eq!(info.num_pages, 3);
    assert_eq!(p.limit(), 10);
    assert_eq!(p.offset(), 20);
    let rows_left = 25 - p.offset();
    assert_eq!(rows_left.min(p.limit()), 5);
}

#[test]
fn limit_and_offset_follow_the_page() {
    let p = Pagination { page_number: 1, page_size: 10 };
    assert_eq!((p.limit(), p.offset()), (10, 0));
    let p = Pagination { page_number: 2, page_size: 10 };
    assert_eq!((p.limit(), p.offset()), (10, 10));
    let p = Pagination { page_number: 5, page_size: 7 };
    assert_eq!((p.limit(), p.offset()), (7, 28));
}

#[test]
fn page_zero_reads_as_page_one() {
    let p = Pagination { page_number: 0, page_size: 10 };
    assert_eq!(p.offset(), 0);
    assert_eq!(p.limit(), 10);
}

#[test]
fn size_zero_reads_as_size_one() {
    let p = Pagination { page_number: 3, page_size: 0 };
    assert_eq!(p.limit(), 1);
    assert_eq!(p.offset(), 2);
    let info = QueryInfo::new(5, &p);
    assert_eq!(info.num_pages, 5);
}

#[test]
fn largest_page_does_not_overflow() {
    let p = Pagination { page_number: u32::MAX, page_size: u32::MAX };
    assert_eq!(p.limit(), u32::MAX as i64);
    assert_eq!(p.offset(), i64::MAX);
    let p = Pagination { page_number: u32::MAX, page_size: 2 };
    assert_eq!(p.offset(), (u32::MAX as i64 - 1) * 2);
}

#[test]
fn no_items_make_no_pages() {
    let p = Pagination { page_number: 1, page_size: 10 };
    assert_eq!(QueryInfo::new(0, &p), QueryInfo { num_pages: 0, num_items: 0 });
}

#[test]
fn pages_round_up() {
    let p = Pagination { page_number: 1, page_size: 10 };
    assert_eq!(QueryInfo::new(1, &p).num_pages, 1);
    assert_eq!(QueryInfo::new(10, &p).num_pages, 1);
    assert_eq!(QueryInfo::new(11, &p).num_pages, 2);
    assert_eq!(QueryInfo::new(20, &p).num_pages, 2);
    assert_eq!(QueryInfo::new(21, &p).num_pages, 3);
}

#[test]
fn counts_out_of_range_are_clamped() {
    let p = Pagination { page_number: 1, page_size: 10 };
    assert_eq!(QueryInfo::new(-3, &p), QueryInfo { num_pages: 0, num_items: 0 });
    let info = QueryInfo::new(i64::MAX, &p);
    assert_eq!(info.num_items, u32::MAX);
    assert_eq!(info.num_pages, 429_496_730);
    let one_per_page = Pagination { page_number: 1, page_size: 1 };
    assert_eq!(QueryInfo::new(i64::MAX, &one_per_page).num_pages, u32::MAX);
}

#[test]
fn iterating_all_pages_meets_every_row_once() {
    for size in [1u32, 2, 3, 7, 10, 100] {
        for items in [0i64, 1, 2, 9, 10, 11, 25, 99, 100, 101] {
            let first = Pagination { page_number: 1, page_size: size };
            let pages = QueryInfo::new(items, &first).num_pages;
            let mut seen = 0i64;
            for page in 1..=pages {
                let p = Pagination { page_number: page, page_size: size };
                let left = items - p.offset();
                assert!(left > 0);
                seen += left.min(p.limit());
            }
            assert_eq!(seen, items);
            let beyond = Pagination { page_number: pages + 1, page_size: size };
            assert!(items - beyond.offset() <= 0);
        }
    }
}

#[test]
fn directions_have_keys_and_keywords() {
    assert_eq!(SortDirection::from_key("asc"), Some(SortDirection::Ascending));
    assert_eq!(SortDirection::from_key("desc"), Some(SortDirection::Descending));
    assert_eq!(SortDirection::from_key("ASC"), None);
    assert_eq!(SortDirection::from_key(""), None);
    assert_eq!(SortDirection::Ascending.keyword(), " ASC");
    assert_eq!(SortDirection::Descending.keyword(), " DESC");
}
