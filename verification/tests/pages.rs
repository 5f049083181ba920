//! Pagination behaviour on concrete values, and the pairing rule of a run's
//! two input lists.

use prizewall::paginate::paginate;
use prizewall::render::check_pairing;
use prizewall::WallError;

#[test]
fn ten_entries_fit_one_page() {
    let entries: Vec<u32> = (0..10).collect();
    let pages = paginate(entries, 12);
    assert_eq!(pages.len(), 1);
    assert_eq!(pages[0], (0..10).collect::<Vec<u32>>());
}

#[test]
fn thirteen_entries_split_twelve_then_one() {
    let entries: Vec<u32> = (0..13).collect();
    let pages = paginate(entries, 12);
    assert_eq!(pages.len(), 2);
    assert_eq!(pages[0].len(), 12);
    assert_eq!(pages[1].len(), 1);
    let rebuilt: Vec<u32> = pages.into_iter().flatten().collect();
    assert_eq!(rebuilt, (0..13).collect::<Vec<u32>>());
}

#[test]
fn exact_multiple_fills_every_page() {
    let entries: Vec<u32> = (0..24).collect();
    let pages = paginate(entries, 12);
    assert_eq!(pages.len(), 2);
    assert!(pages.iter().all(|p| p.len() == 12));
}

#[test]
fn no_entries_no_pages() {
    let entries: Vec<u32> = Vec::new();
    let pages = paginate(entries, 12);
    assert_eq!(pages.len(), 0);
}

#[test]
fn order_is_kept_across_pages() {
    let entries: Vec<u32> = (0..30).rev().collect();
    let pages = paginate(entries, 7);
    assert_eq!(pages.len(), 5);
    let rebuilt: Vec<u32> = pages.into_iter().flatten().collect();
    assert_eq!(rebuilt, (0..30).rev().collect::<Vec<u32>>());
}

#[test]
fn pairing_accepts_equal_lengths() {
    assert_eq!(check_pairing(10, 10), Ok(()));
    assert_eq!(check_pairing(0, 0), Ok(()));
}

#[test]
fn pairing_rejects_mismatch_and_names_lengths() {
    assert_eq!(
        check_pairing(10, 9),
        Err(WallError::InputMismatch { entries: 10, images: 9 })
    );
}

fn entry(name: &str) -> prizewall::entry::CardEntry {
    prizewall::entry::CardEntry {
        name: String::from(name),
        display: None,
        set: String::from("SET"),
        language: String::from("EN"),
        condition: String::from("NM"),
        points: 1,
    }
}

#[test]
fn card_entries_paginate_in_order() {
    let entries = vec![entry("a"), entry("b"), entry("c")];
    let pages = paginate(entries, 2);
    assert_eq!(pages.len(), 2);
    let names: Vec<String> = pages
        .into_iter()
        .flatten()
        .map(|e| e.name)
        .collect();
    assert_eq!(names, vec!["a", "b", "c"]);
}
