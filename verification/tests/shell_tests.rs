use bootstrap_ui::filter::filter_icase;
use bootstrap_ui::shell::SelectConfig;
use bootstrap_ui::shell::SelectEvent;
use bootstrap_ui::shell::SelectState;
use bootstrap_ui::shell::first_selected_index;
use bootstrap_ui::shell::step;
use bootstrap_ui::shell::valid_label_config;
use bootstrap_ui::soption::SOption;

fn entry(title: &str, value: &str) -> SOption {
    SOption { title: title.to_string(), value: value.to_string(), ..Default::default() }
}

fn config() -> SelectConfig {
    SelectConfig { keep_open: false, disabled: false }
}

fn sample_options() -> Vec<SOption> {
    vec![entry("Item 1", "a"), entry("Item 2", "b"), entry("Item 3", "c")]
}

#[test]
fn test_open_no_selection_starts_at_zero() {
    let options = sample_options();
    let state = SelectState::new();
    let (next, emit) = step(&state, &config(), &options, &filter_icase(), &SelectEvent::Toggle);
    assert!(next.is_open);
    assert_eq!(next.active_index, 0);
    assert_eq!(next.search_text, "");
    assert_eq!(emit, None);
}

#[test]
fn test_open_starts_at_first_selected() {
    let mut options = sample_options();
    options[2].selected = true;
    assert_eq!(first_selected_index(&options), 2);

    let state = SelectState::new();
    let (next, emit) = step(&state, &config(), &options, &filter_icase(), &SelectEvent::Toggle);
    assert!(next.is_open);
    assert_eq!(next.active_index, 2);
    assert_eq!(emit, None);
}

#[test]
fn test_toggle_when_disabled_is_ignored() {
    let options = sample_options();
    let state = SelectState::new();
    let cfg = SelectConfig { keep_open: false, disabled: true };
    let (next, emit) = step(&state, &cfg, &options, &filter_icase(), &SelectEvent::Toggle);
    assert!(!next.is_open);
    assert_eq!(emit, None);
}

#[test]
fn test_search_resets_active_index() {
    let options = sample_options();
    let state = SelectState { is_open: true, search_text: String::new(), active_index: 2 };
    let ev = SelectEvent::Search("Item".to_string());
    let (next, emit) = step(&state, &config(), &options, &filter_icase(), &ev);
    assert!(next.is_open);
    assert_eq!(next.search_text, "Item");
    assert_eq!(next.active_index, 0);
    assert_eq!(emit, None);
}

#[test]
fn test_arrow_navigation() {
    let options = sample_options();
    let state = SelectState { is_open: true, search_text: String::new(), active_index: 0 };

    let (down, _) = step(&state, &config(), &options, &filter_icase(), &SelectEvent::ArrowDown);
    assert_eq!(down.active_index, 1);

    let (down2, _) = step(&down, &config(), &options, &filter_icase(), &SelectEvent::ArrowDown);
    assert_eq!(down2.active_index, 2);

    // No selectable entry below the last: the highlight stays.
    let (down3, _) = step(&down2, &config(), &options, &filter_icase(), &SelectEvent::ArrowDown);
    assert_eq!(down3.active_index, 2);

    let (up, _) = step(&down3, &config(), &options, &filter_icase(), &SelectEvent::ArrowUp);
    assert_eq!(up.active_index, 1);

    let (up2, _) = step(&up, &config(), &options, &filter_icase(), &SelectEvent::ArrowUp);
    assert_eq!(up2.active_index, 0);

    // No selectable entry above the first: the highlight stays.
    let (up3, _) = step(&up2, &config(), &options, &filter_icase(), &SelectEvent::ArrowUp);
    assert_eq!(up3.active_index, 0);
}

#[test]
fn test_enter_emits_and_closes() {
    let options = sample_options();
    let state = SelectState { is_open: true, search_text: String::new(), active_index: 1 };
    let (next, emit) = step(&state, &config(), &options, &filter_icase(), &SelectEvent::Enter);
    assert!(!next.is_open);
    assert_eq!(emit, Some(("b".to_string(), true)));
}

#[test]
fn test_enter_keep_open_stays_open() {
    let options = sample_options();
    let cfg = SelectConfig { keep_open: true, disabled: false };
    let state = SelectState { is_open: true, search_text: String::new(), active_index: 1 };
    let (next, emit) = step(&state, &cfg, &options, &filter_icase(), &SelectEvent::Enter);
    assert!(next.is_open);
    assert_eq!(emit, Some(("b".to_string(), true)));
}

#[test]
fn test_enter_on_selected_entry_deselects() {
    let mut options = sample_options();
    options[1].selected = true;
    let state = SelectState { is_open: true, search_text: String::new(), active_index: 1 };
    let (_, emit) = step(&state, &config(), &options, &filter_icase(), &SelectEvent::Enter);
    assert_eq!(emit, Some(("b".to_string(), false)));
}

#[test]
fn test_enter_and_click_emit_identically() {
    let mut options = sample_options();
    options[2].selected = true;
    let state = SelectState { is_open: true, search_text: String::new(), active_index: 2 };
    let filter = filter_icase();

    let (_, enter_emit) = step(&state, &config(), &options, &filter, &SelectEvent::Enter);

    // The highlighted entry sits at position 2 of the filtered view
    // (nothing is filtered out here).
    let (_, click_emit) = step(&state, &config(), &options, &filter, &SelectEvent::Click(2));

    assert_eq!(enter_emit, Some(("c".to_string(), false)));
    assert_eq!(enter_emit, click_emit);
}

#[test]
fn test_click_on_header_or_disabled_is_ignored() {
    let mut options = sample_options();
    options[0].header = true;
    options[1].disabled = true;
    let state = SelectState { is_open: true, search_text: String::new(), active_index: 0 };
    let filter = filter_icase();

    let (after_header, emit) = step(&state, &config(), &options, &filter, &SelectEvent::Click(0));
    assert_eq!(emit, None);
    assert!(after_header.is_open);

    let (after_disabled, emit) = step(&state, &config(), &options, &filter, &SelectEvent::Click(1));
    assert_eq!(emit, None);
    assert!(after_disabled.is_open);

    let (after_item, emit) = step(&state, &config(), &options, &filter, &SelectEvent::Click(2));
    assert_eq!(emit, Some(("c".to_string(), true)));
    assert!(!after_item.is_open);
}

#[test]
fn test_escape_and_outside_close() {
    let options = sample_options();
    let state = SelectState { is_open: true, search_text: "abc".to_string(), active_index: 1 };

    let (next, emit) = step(&state, &config(), &options, &filter_icase(), &SelectEvent::Escape);
    assert!(!next.is_open);
    assert_eq!(emit, None);

    let (next, emit) = step(&state, &config(), &options, &filter_icase(), &SelectEvent::Outside);
    assert!(!next.is_open);
    assert_eq!(emit, None);
}

#[test]
fn test_keys_ignored_while_closed() {
    let options = sample_options();
    let state = SelectState::new();
    for ev in [
        SelectEvent::Enter,
        SelectEvent::ArrowUp,
        SelectEvent::ArrowDown,
        SelectEvent::Search("x".to_string()),
        SelectEvent::Click(0),
    ] {
        let (next, emit) = step(&state, &config(), &options, &filter_icase(), &ev);
        assert!(!next.is_open);
        assert_eq!(next.search_text, "");
        assert_eq!(next.active_index, 0);
        assert_eq!(emit, None);
    }
}

#[test]
fn test_arrow_navigation_respects_filter() {
    // With the search narrowing the list, navigation moves between the
    // original indices of the remaining entries.
    let options = vec![entry("Apple", "a"), entry("Banana", "b"), entry("Apricot", "c")];
    let state = SelectState { is_open: true, search_text: "ap".to_string(), active_index: 0 };
    let (down, _) = step(&state, &config(), &options, &filter_icase(), &SelectEvent::ArrowDown);
    assert_eq!(down.active_index, 2);
}

#[test]
fn test_valid_label_config() {
    assert!(valid_label_config("", ""));
    assert!(valid_label_config("", "id1"));
    assert!(valid_label_config("Name", "id1"));
    assert!(!valid_label_config("Name", ""));
}
