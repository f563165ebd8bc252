use bootstrap_ui::filter::FilterAll;
use bootstrap_ui::filter::FilterFn;
use bootstrap_ui::filter::filter_by_group;
use bootstrap_ui::filter::filter_case;
use bootstrap_ui::filter::filter_icase;
use bootstrap_ui::soption::SOption;

fn named(title: &str) -> SOption {
    SOption { title: title.to_string(), ..Default::default() }
}

fn header(title: &str) -> SOption {
    SOption { title: title.to_string(), header: true, ..Default::default() }
}

fn fruit_items() -> Vec<SOption> {
    vec![
        named("Apple"),
        named("Banana"),
        named("Cherry"),
        named("Date"),
        named("Elderberry"),
        named("Fig"),
        named("Grapes"),
    ]
}

fn get_titles(options: Vec<(usize, SOption)>) -> Vec<(usize, String)> {
    options.iter().map(|(i, option)| (*i, option.title.clone())).collect()
}

#[test]
pub fn test_filter_icase() {
    let items = fruit_items();
    let filter = filter_icase();

    let value = "Er";
    let result: Vec<&SOption> =
        items.iter().filter(|option| filter.matches(value, option)).collect();
    assert_eq!(result.len(), 2);
    assert_eq!(result[0].title, "Cherry");
    assert_eq!(result[1].title, "Elderberry");
}

#[test]
pub fn test_filter_case() {
    let items = fruit_items();
    let filter = filter_case();

    let value = "Er";
    let result: Vec<&SOption> =
        items.iter().filter(|option| filter.matches(value, option)).collect();
    assert_eq!(result.len(), 0);

    let value = "Ba";
    let result: Vec<&SOption> =
        items.iter().filter(|option| filter.matches(value, option)).collect();
    assert_eq!(result.len(), 1);
    assert_eq!(result[0].title, "Banana");
}

#[test]
fn test_filter_by_group() {
    let filter = filter_icase();

    let options = vec![named("Item A"), named("Item B"), named("Item C")];

    let filtered = filter_by_group(&options, "item", &filter);
    assert_eq!(
        get_titles(filtered),
        vec![
            (0, "Item A".to_string()),
            (1, "Item B".to_string()),
            (2, "Item C".to_string()),
        ]
    );

    let options = vec![
        named("Item A0"),
        header("Group 1"),
        named("Item B0"),
        named("Item B1"),
        header("Group 2"),
        named("Item C0"),
    ];

    let filtered = filter_by_group(&options, "0", &filter);
    assert_eq!(
        get_titles(filtered),
        vec![
            (0, "Item A0".to_string()),
            (1, "Group 1".to_string()),
            (2, "Item B0".to_string()),
            (4, "Group 2".to_string()),
            (5, "Item C0".to_string()),
        ]
    );

    let filtered = filter_by_group(&options, "1", &filter);
    assert_eq!(
        get_titles(filtered),
        vec![(1, "Group 1".to_string()), (3, "Item B1".to_string())]
    );

    let filtered = filter_by_group(&options, "c", &filter);
    assert_eq!(
        get_titles(filtered),
        vec![(4, "Group 2".to_string()), (5, "Item C0".to_string())]
    );
}

#[test]
fn test_filter_icase_lowercase_search() {
    // Case-insensitive filtering on "er" keeps Cherry and Elderberry.
    let items = fruit_items();
    let filtered = filter_by_group(&items, "er", &filter_icase());
    assert_eq!(
        get_titles(filtered),
        vec![(2, "Cherry".to_string()), (4, "Elderberry".to_string())]
    );
}

#[test]
fn test_filter_icase_mixed_case_search() {
    // An upper-case search matches a lower-case title only because both
    // sides are case-folded.
    let items = vec![named("cherry")];
    let filtered = filter_by_group(&items, "ER", &filter_icase());
    assert_eq!(get_titles(filtered), vec![(0, "cherry".to_string())]);
}

#[test]
fn test_filter_no_headers_keeps_indices() {
    // Without headers the result is the plain filtered list with original
    // indices preserved.
    let items = fruit_items();
    let filtered = filter_by_group(&items, "a", &filter_icase());
    assert_eq!(
        get_titles(filtered),
        vec![
            (0, "Apple".to_string()),
            (1, "Banana".to_string()),
            (3, "Date".to_string()),
            (6, "Grapes".to_string()),
        ]
    );
}

#[test]
fn test_filter_all_pairs_whole_list() {
    // A filter that keeps everything returns the whole list paired with
    // its indices when every header has a member under it.
    let options = vec![named("Item A0"), header("Group 1"), named("Item B0")];
    let filtered = filter_by_group(&options, "anything", &FilterAll);
    assert_eq!(
        get_titles(filtered),
        vec![
            (0, "Item A0".to_string()),
            (1, "Group 1".to_string()),
            (2, "Item B0".to_string()),
        ]
    );
}

#[test]
fn test_filter_all_drops_trailing_header() {
    // Even a keep-everything filter drops a header that has no member
    // before the next header or the end of the list.
    let options = vec![named("Item A0"), header("Group 1")];
    let filtered = filter_by_group(&options, "", &FilterAll);
    assert_eq!(get_titles(filtered), vec![(0, "Item A0".to_string())]);

    let options = vec![header("Group 1"), header("Group 2"), named("Item B0")];
    let filtered = filter_by_group(&options, "", &FilterAll);
    assert_eq!(
        get_titles(filtered),
        vec![(1, "Group 2".to_string()), (2, "Item B0".to_string())]
    );
}

#[test]
fn test_filter_empty_list() {
    let options: Vec<SOption> = vec![];
    let filtered = filter_by_group(&options, "x", &filter_icase());
    assert_eq!(filtered.len(), 0);
}

#[test]
fn test_filter_empty_search_keeps_all() {
    // Every title contains the empty string, so an empty search filters
    // nothing out.
    let items = fruit_items();
    let filtered = filter_by_group(&items, "", &filter_case());
    assert_eq!(filtered.len(), 7);
}
