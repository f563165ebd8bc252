//! The interaction shell of the select control: a state machine from user
//! events to state changes and selection notifications.
//!
//! The control is either closed or open. A click on the control toggles
//! it (ignored while the control is disabled); opening resets the search
//! text and highlights the first selected entry. While open, typing
//! filters the list, the arrow keys move the highlight between selectable
//! entries, and Enter or a click on a row emits a `(value, will_be_selected)`
//! notification and closes the control unless keep-open mode is set.
//! Selection truth stays with the caller: the control only reports intent.

use vstd::prelude::*;

use crate::filter::FilterFn;
use crate::filter::filter_by_group;
use crate::filter::filter_by_group_spec;
use crate::filter::search_pred;
use crate::navigator::actives_spec;
use crate::navigator::first_at_least;
use crate::navigator::first_index_eq;
use crate::navigator::get_actives;
use crate::navigator::is_selectable;
use crate::navigator::lemma_first_at_least_range;
use crate::navigator::lemma_first_index_eq_range;
use crate::navigator::selectable_of;
use crate::soption::SOption;
use crate::soption::SOptionV;

verus! {

/// Static configuration of a select control.
#[derive(Clone, Copy)]
pub struct SelectConfig {
    /// Keep the dropdown open after a selection changes, to allow
    /// multiple selections.
    pub keep_open: bool,
    /// The whole control is disabled: clicking it does not open it.
    pub disabled: bool,
}

/// Mathematical value of a [`SelectState`].
pub struct SelectStateV {
    pub is_open: bool,
    pub search_text: Seq<char>,
    pub active_index: usize,
}

/// Ephemeral state of a mounted select control. It is created when the
/// control mounts and never outlives it; selection truth is not part of
/// it.
pub struct SelectState {
    /// Whether the dropdown is open.
    pub is_open: bool,
    /// Current filter string; reset to empty each time the control opens.
    pub search_text: String,
    /// Original-list index of the highlighted entry; set to the first
    /// selected entry (or 0) on open, and back to 0 whenever the search
    /// text changes.
    pub active_index: usize,
}

impl View for SelectState {
    type V = SelectStateV;

    open spec fn view(&self) -> SelectStateV {
        SelectStateV {
            is_open: self.is_open,
            search_text: self.search_text@,
            active_index: self.active_index,
        }
    }
}

impl DeepView for SelectState {
    type V = SelectStateV;

    open spec fn deep_view(&self) -> SelectStateV {
        self.view()
    }
}

impl Clone for SelectState {
    fn clone(&self) -> (res: Self)
        ensures
            res@ == self@,
    {
        SelectState {
            is_open: self.is_open,
            search_text: self.search_text.clone(),
            active_index: self.active_index,
        }
    }
}

impl SelectState {
    /// The state of a control that has just mounted: closed, empty
    /// search, highlight at the top of the list.
    pub fn new() -> (res: Self)
        ensures
            res@ == (SelectStateV { is_open: false, search_text: Seq::empty(), active_index: 0 }),
    {
        SelectState { is_open: false, search_text: String::new(), active_index: 0 }
    }
}

/// Mathematical value of a [`SelectEvent`].
pub enum SelectEventV {
    Toggle,
    Search(Seq<char>),
    Enter,
    ArrowUp,
    ArrowDown,
    Escape,
    Outside,
    Click(usize),
}

/// One user event on the select control.
pub enum SelectEvent {
    /// A click on the control itself, toggling the dropdown.
    Toggle,
    /// The search input changed to the given text.
    Search(String),
    /// The Enter key: select the highlighted entry.
    Enter,
    /// The up-arrow key: move the highlight to the previous selectable
    /// entry.
    ArrowUp,
    /// The down-arrow key: move the highlight to the next selectable
    /// entry.
    ArrowDown,
    /// The Escape key: close the dropdown.
    Escape,
    /// A pointer-down outside the control's subtree: close the dropdown.
    Outside,
    /// A click on the row at the given position of the filtered view.
    Click(usize),
}

impl View for SelectEvent {
    type V = SelectEventV;

    open spec fn view(&self) -> SelectEventV {
        match self {
            SelectEvent::Toggle => SelectEventV::Toggle,
            SelectEvent::Search(text) => SelectEventV::Search(text@),
            SelectEvent::Enter => SelectEventV::Enter,
            SelectEvent::ArrowUp => SelectEventV::ArrowUp,
            SelectEvent::ArrowDown => SelectEventV::ArrowDown,
            SelectEvent::Escape => SelectEventV::Escape,
            SelectEvent::Outside => SelectEventV::Outside,
            SelectEvent::Click(pos) => SelectEventV::Click(*pos),
        }
    }
}

impl DeepView for SelectEvent {
    type V = SelectEventV;

    open spec fn deep_view(&self) -> SelectEventV {
        self.view()
    }
}

/// Position of the first selected entry of the list at or after `i`.
pub open spec fn first_selected(opts: Seq<SOptionV>, i: int) -> Option<int>
    decreases opts.len() - i,
{
    if i < 0 || i >= opts.len() {
        None
    } else if opts[i].selected {
        Some(i)
    } else {
        first_selected(opts, i + 1)
    }
}

/// The highlight set when the control opens: the index of the first
/// selected entry, or 0 when none is selected.
pub open spec fn initial_active(opts: Seq<SOptionV>) -> usize {
    match first_selected(opts, 0) {
        Some(i) => i as usize,
        None => 0,
    }
}

/// The notification emitted for the active entry of the filtered view:
/// the entry's value and its toggled selection flag. When no entry is
/// active, the empty value is reported as becoming selected.
pub open spec fn active_emit(fil: Seq<(usize, SOptionV)>, active_index: usize) -> (Seq<char>, bool) {
    match actives_spec(fil, active_index).3 {
        Some(pos) => (fil[pos as int].1.value, !fil[pos as int].1.selected),
        None => (Seq::empty(), true),
    }
}

/// The transition function of the interaction shell: from configuration,
/// option list, filter, state and event to the next state and the
/// notification to emit, if any.
pub open spec fn step_spec<F: FilterFn>(
    config: SelectConfig,
    opts: Seq<SOptionV>,
    filter: F,
    s: SelectStateV,
    ev: SelectEventV,
) -> (SelectStateV, Option<(Seq<char>, bool)>) {
    match ev {
        SelectEventV::Toggle => {
            if config.disabled {
                (s, None)
            } else if s.is_open {
                (
                    SelectStateV {
                        is_open: false,
                        search_text: s.search_text,
                        active_index: s.active_index,
                    },
                    None,
                )
            } else {
                (
                    SelectStateV {
                        is_open: true,
                        search_text: Seq::empty(),
                        active_index: initial_active(opts),
                    },
                    None,
                )
            }
        },
        SelectEventV::Search(text) => {
            if s.is_open {
                (SelectStateV { is_open: true, search_text: text, active_index: 0 }, None)
            } else {
                (s, None)
            }
        },
        SelectEventV::Enter => {
            if s.is_open {
                let fil = filter_by_group_spec(opts, search_pred(filter, s.search_text));
                (
                    SelectStateV {
                        is_open: config.keep_open,
                        search_text: s.search_text,
                        active_index: s.active_index,
                    },
                    Some(active_emit(fil, s.active_index)),
                )
            } else {
                (s, None)
            }
        },
        SelectEventV::ArrowUp => {
            if s.is_open {
                let fil = filter_by_group_spec(opts, search_pred(filter, s.search_text));
                match actives_spec(fil, s.active_index).0 {
                    Some(i) => (
                        SelectStateV {
                            is_open: true,
                            search_text: s.search_text,
                            active_index: i,
                        },
                        None,
                    ),
                    None => (s, None),
                }
            } else {
                (s, None)
            }
        },
        SelectEventV::ArrowDown => {
            if s.is_open {
                let fil = filter_by_group_spec(opts, search_pred(filter, s.search_text));
                match actives_spec(fil, s.active_index).2 {
                    Some(i) => (
                        SelectStateV {
                            is_open: true,
                            search_text: s.search_text,
                            active_index: i,
                        },
                        None,
                    ),
                    None => (s, None),
                }
            } else {
                (s, None)
            }
        },
        SelectEventV::Escape => {
            (
                SelectStateV {
                    is_open: false,
                    search_text: s.search_text,
                    active_index: s.active_index,
                },
                None,
            )
        },
        SelectEventV::Outside => {
            (
                SelectStateV {
                    is_open: false,
                    search_text: s.search_text,
                    active_index: s.active_index,
                },
                None,
            )
        },
        SelectEventV::Click(pos) => {
            if s.is_open {
                let fil = filter_by_group_spec(opts, search_pred(filter, s.search_text));
                if pos < fil.len() && is_selectable(fil[pos as int]) {
                    (
                        SelectStateV {
                            is_open: config.keep_open,
                            search_text: s.search_text,
                            active_index: s.active_index,
                        },
                        Some((fil[pos as int].1.value, !fil[pos as int].1.selected)),
                    )
                } else {
                    (s, None)
                }
            } else {
                (s, None)
            }
        },
    }
}

/// Original-list index of the first selected entry, or 0 when none is
/// selected.
#[verifier::loop_isolation(false)]
pub fn first_selected_index(options: &Vec<SOption>) -> (r: usize)
    ensures
        r == initial_active(options.deep_view()),
{
    let ghost opts = options.deep_view();
    let mut k: usize = 0;
    while k < options.len() && !options[k].selected
        invariant
            k <= options.len(),
            first_selected(opts, 0) == first_selected(opts, k as int),
        decreases options.len() - k,
    {
        k += 1;
    }
    if k < options.len() {
        k
    } else {
        0
    }
}

/// Apply one user event to the interaction state.
///
/// `options` is the full option list as supplied by the caller for the
/// current render, `filter` the search predicate in use. The result is
/// the state after the event together with the `(value, will_be_selected)`
/// notification to send to the caller, if the event selected an entry.
#[verifier::loop_isolation(false)]
pub fn step<F: FilterFn>(
    state: &SelectState,
    config: &SelectConfig,
    options: &Vec<SOption>,
    filter: &F,
    event: &SelectEvent,
) -> (r: (SelectState, Option<(String, bool)>))
    ensures
        r.0.deep_view() == step_spec(
            *config,
            options.deep_view(),
            *filter,
            state.deep_view(),
            event.deep_view(),
        ).0,
        r.1.deep_view() == step_spec(
            *config,
            options.deep_view(),
            *filter,
            state.deep_view(),
            event.deep_view(),
        ).1,
{
    let ghost opts = options.deep_view();
    match event {
        SelectEvent::Toggle => {
            if config.disabled {
                (state.clone(), None)
            } else if state.is_open {
                (
                    SelectState {
                        is_open: false,
                        search_text: state.search_text.clone(),
                        active_index: state.active_index,
                    },
                    None,
                )
            } else {
                let active = first_selected_index(options);
                (
                    SelectState { is_open: true, search_text: String::new(), active_index: active },
                    None,
                )
            }
        },
        SelectEvent::Search(text) => {
            if state.is_open {
                (
                    SelectState { is_open: true, search_text: text.clone(), active_index: 0 },
                    None,
                )
            } else {
                (state.clone(), None)
            }
        },
        SelectEvent::Enter => {
            if state.is_open {
                let filtered = filter_by_group(options, state.search_text.as_str(), filter);
                let act = get_actives(&filtered, state.active_index);
                let emit = match act.3 {
                    Some(pos) => {
                        proof {
                            let fil = filtered.deep_view();
                            let sel = selectable_of(fil);
                            lemma_first_at_least_range(sel, state.active_index, 0);
                            match first_at_least(sel, state.active_index, 0) {
                                Option::Some(i) => {
                                    lemma_first_index_eq_range(fil, sel[i].0, 0);
                                },
                                Option::None => {
                                },
                            }
                        }
                        let entry = &filtered[pos];
                        (entry.1.value.clone(), !entry.1.selected)
                    },
                    None => (String::new(), true),
                };
                (
                    SelectState {
                        is_open: config.keep_open,
                        search_text: state.search_text.clone(),
                        active_index: state.active_index,
                    },
                    Some(emit),
                )
            } else {
                (state.clone(), None)
            }
        },
        SelectEvent::ArrowUp => {
            if state.is_open {
                let filtered = filter_by_group(options, state.search_text.as_str(), filter);
                let act = get_actives(&filtered, state.active_index);
                match act.0 {
                    Some(i) => (
                        SelectState {
                            is_open: true,
                            search_text: state.search_text.clone(),
                            active_index: i,
                        },
                        None,
                    ),
                    None => (state.clone(), None),
                }
            } else {
                (state.clone(), None)
            }
        },
        SelectEvent::ArrowDown => {
            if state.is_open {
                let filtered = filter_by_group(options, state.search_text.as_str(), filter);
                let act = get_actives(&filtered, state.active_index);
                match act.2 {
                    Some(i) => (
                        SelectState {
                            is_open: true,
                            search_text: state.search_text.clone(),
                            active_index: i,
                        },
                        None,
                    ),
                    None => (state.clone(), None),
                }
            } else {
                (state.clone(), None)
            }
        },
        SelectEvent::Escape => {
            (
                SelectState {
                    is_open: false,
                    search_text: state.search_text.clone(),
                    active_index: state.active_index,
                },
                None,
            )
        },
        SelectEvent::Outside => {
            (
                SelectState {
                    is_open: false,
                    search_text: state.search_text.clone(),
                    active_index: state.active_index,
                },
                None,
            )
        },
        SelectEvent::Click(pos) => {
            if state.is_open {
                let filtered = filter_by_group(options, state.search_text.as_str(), filter);
                let pos = *pos;
                if pos < filtered.len() && !filtered[pos].1.header && !filtered[pos].1.disabled {
                    let entry = &filtered[pos];
                    (
                        SelectState {
                            is_open: config.keep_open,
                            search_text: state.search_text.clone(),
                            active_index: state.active_index,
                        },
                        Some((entry.1.value.clone(), !entry.1.selected)),
                    )
                } else {
                    (state.clone(), None)
                }
            } else {
                (state.clone(), None)
            }
        },
    }
}

/// A label may only be supplied together with an identifier; rendering
/// refuses the configuration otherwise. Callers check this before
/// building the control.
pub fn valid_label_config(label: &str, id: &str) -> (r: bool)
    ensures
        r == (label@.len() == 0 || id@.len() > 0),
{
    label.is_empty() || !id.is_empty()
}

/// Selecting the highlighted entry with Enter and clicking that same
/// row emit the same `(value, will_be_selected)` notification: keyboard
/// and mouse selection agree.
pub proof fn lemma_enter_click_agree<F: FilterFn>(
    config: SelectConfig,
    opts: Seq<SOptionV>,
    filter: F,
    s: SelectStateV,
    pos: usize,
)
    requires
        s.is_open,
        opts.len() <= usize::MAX,
        actives_spec(
            filter_by_group_spec(opts, search_pred(filter, s.search_text)),
            s.active_index,
        ).3 == Some(pos),
    ensures
        step_spec(config, opts, filter, s, SelectEventV::Enter).1 == step_spec(
            config,
            opts,
            filter,
            s,
            SelectEventV::Click(pos),
        ).1,
{
    let p = search_pred(filter, s.search_text);
    let fil = filter_by_group_spec(opts, p);
    let sel = selectable_of(fil);
    lemma_first_at_least_range(sel, s.active_index, 0);
    match first_at_least(sel, s.active_index, 0) {
        Option::None => {
        },
        Option::Some(i) => {
            crate::filter::lemma_filter_by_group_len(opts, p);
            lemma_first_index_eq_range(fil, sel[i].0, 0);
            crate::navigator::lemma_selectable_elems(fil);
            let w = choose|w: int| 0 <= w < fil.len() && fil[w] == sel[i];
            crate::filter::lemma_filter_by_group_membership(opts, p);
            assert(fil[pos as int].0 == sel[i].0);
            if w != pos as int {
                assert(fil[w].0 != fil[pos as int].0);
            }
            assert(fil[pos as int] == sel[i]);
            assert(is_selectable(fil[pos as int]));
        },
    }
}

} // verus!
