use h5t::page::{max_combatants_visible, Page, PageConfig};

fn members(pages: &[Page]) -> Vec<Vec<usize>> {
    pages.iter().map(|p| p.get_combatants().clone()).collect()
}

#[test]
fn build_splits_roster_into_pages() {
    let pages = Page::from_combatants(7, 5);
    assert_eq!(members(&pages), vec![vec![0, 1, 2, 3, 4], vec![5, 6]]);
    assert_eq!(pages[0].get_id(), 0);
    assert_eq!(pages[1].get_id(), 1);
    assert!(pages.iter().all(|p| p.get_selection().is_none()));
}

#[test]
fn build_exact_multiple_has_no_trailing_page() {
    let pages = Page::from_combatants(8, 4);
    assert_eq!(members(&pages), vec![vec![0, 1, 2, 3], vec![4, 5, 6, 7]]);
}

#[test]
fn build_concatenation_is_the_whole_roster() {
    for n in 0..40usize {
        for size in 1..12usize {
            let pages = Page::from_combatants(n, size);
            let all: Vec<usize> = pages.iter().flat_map(|p| p.get_combatants().clone()).collect();
            assert_eq!(all, (0..n).collect::<Vec<_>>());
            for (k, p) in pages.iter().enumerate() {
                assert_eq!(p.get_id(), k);
                assert!(p.get_combatants().len() <= size);
                if k + 1 < pages.len() {
                    assert_eq!(p.get_combatants().len(), size);
                }
            }
        }
    }
}

#[test]
fn build_with_zero_page_size_has_no_pages() {
    for n in [0usize, 1, 7, 1000] {
        assert!(Page::from_combatants(n, 0).is_empty());
        assert!(Page::from_combatants_and_selection(n, vec![0, 1], 0).is_empty());
    }
}

#[test]
fn build_of_empty_roster_has_no_pages() {
    assert!(Page::from_combatants(0, 5).is_empty());
}

#[test]
fn toggle_selection_creates_bitset_lazily() {
    let mut pages = Page::from_combatants(7, 5);
    assert!(pages[1].get_selection().is_none());
    pages[1].toggle_selection('q');
    let sel = pages[1].get_selection().unwrap();
    assert!(sel.label_is_active(0));
    // 'z' is slot 2, past the two participants on this page.
    pages[1].toggle_selection('z');
    assert!(!pages[1].get_selection().unwrap().label_is_active(2));
    assert!(pages[1].is_flagged(0));
    assert!(!pages[1].is_flagged(2));
}

#[test]
fn take_selection_empties_the_page() {
    let mut pages = Page::from_combatants(3, 3);
    pages[0].toggle_index(1);
    let taken = pages[0].take_selection().unwrap();
    assert!(taken.label_is_active(1));
    assert!(pages[0].get_selection().is_none());
    assert!(pages[0].take_selection().is_none());
}

#[test]
fn take_page_selections_walks_pages_in_order() {
    let config = PageConfig { page_size: 4, current_page: 0 };
    let mut pages = Page::from_combatants(10, 4);
    pages[2].toggle_selection('a');
    pages[0].toggle_selection('a');
    pages[1].toggle_selection('q');
    let chosen = config.take_page_selections(&mut pages, 10);
    assert_eq!(chosen, vec![1, 4, 9]);
    assert!(pages.iter().all(|p| p.get_selection().is_none()));
    assert_eq!(config.take_page_selections(&mut pages, 10), Vec::<usize>::new());
}

#[test]
fn build_preserving_places_each_index_on_its_new_page() {
    let pages = Page::from_combatants_and_selection(10, vec![1, 5, 9], 5);
    assert_eq!(members(&pages), vec![vec![0, 1, 2, 3, 4], vec![5, 6, 7, 8, 9]]);
    assert!(pages[0].is_flagged(1));
    assert!(pages[1].is_flagged(0));
    assert!(pages[1].is_flagged(4));
    let config = PageConfig { page_size: 5, current_page: 0 };
    let mut pages = pages;
    assert_eq!(config.take_page_selections(&mut pages, 10), vec![1, 5, 9]);
}

#[test]
fn build_preserving_drops_indices_past_the_roster() {
    let mut pages = Page::from_combatants_and_selection(5, vec![2, 7, 40], 5);
    let config = PageConfig { page_size: 5, current_page: 0 };
    assert_eq!(config.take_page_selections(&mut pages, 5), vec![2]);
}

#[test]
fn build_preserving_accepts_unsorted_and_repeated_indices() {
    let mut pages = Page::from_combatants_and_selection(10, vec![9, 1, 9, 5], 4);
    let config = PageConfig { page_size: 4, current_page: 0 };
    assert_eq!(config.take_page_selections(&mut pages, 10), vec![1, 5, 9]);
}

#[test]
fn repagination_keeps_selection() {
    // height 10 gives pages of 4: [0-3], [4-7], [8-9].
    let mut config = PageConfig::new(10);
    assert_eq!(config.page_size, 4);
    let mut pages = Page::from_combatants(10, config.page_size);
    assert_eq!(pages.len(), 3);
    pages[0].toggle_selection('a'); // 1
    pages[1].toggle_selection('a'); // 5
    pages[2].toggle_selection('a'); // 9
    // height 11 gives pages of 5: [0-4], [5-9].
    config.update(&mut pages, 11, 10);
    assert_eq!(config.page_size, 5);
    assert_eq!(members(&pages), vec![vec![0, 1, 2, 3, 4], vec![5, 6, 7, 8, 9]]);
    assert_eq!(config.take_page_selections(&mut pages, 10), vec![1, 5, 9]);
}

#[test]
fn update_with_same_size_changes_nothing() {
    let mut config = PageConfig { page_size: 4, current_page: 1 };
    let mut pages = Page::from_combatants(10, 4);
    pages[1].toggle_selection('q');
    config.update(&mut pages, 10, 10);
    assert_eq!(config, PageConfig { page_size: 4, current_page: 1 });
    assert!(pages[1].is_flagged(0));
}

#[test]
fn resize_clamps_current_page_on_shrink() {
    let mut config = PageConfig { page_size: 4, current_page: 2 };
    let mut pages = Page::from_combatants(10, 4);
    assert_eq!(pages.len(), 3);
    // height 16 gives pages of 10: a single page.
    config.update(&mut pages, 16, 10);
    assert_eq!(pages.len(), 1);
    assert_eq!(config.current_page, 0);
}

#[test]
fn resize_to_zero_capacity_drops_all_pages() {
    let mut config = PageConfig { page_size: 4, current_page: 2 };
    let mut pages = Page::from_combatants(10, 4);
    pages[2].toggle_selection('q');
    config.update(&mut pages, 3, 10);
    assert_eq!(config, PageConfig { page_size: 0, current_page: 0 });
    assert!(pages.is_empty());
}

#[test]
fn resize_keeps_current_page_when_still_valid() {
    let mut config = PageConfig { page_size: 4, current_page: 1 };
    let mut pages = Page::from_combatants(10, 4);
    config.update(&mut pages, 8, 10);
    assert_eq!(config.page_size, 2);
    assert_eq!(pages.len(), 5);
    assert_eq!(config.current_page, 1);
}

#[test]
fn visible_rows_leave_room_for_borders() {
    assert_eq!(max_combatants_visible(0), 0);
    assert_eq!(max_combatants_visible(6), 0);
    assert_eq!(max_combatants_visible(7), 1);
    assert_eq!(max_combatants_visible(38), 32);
    assert_eq!(max_combatants_visible(39), 32);
    assert_eq!(max_combatants_visible(u16::MAX), 32);
}
