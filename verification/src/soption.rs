//! The option data model: one entry of the select list.

use vstd::prelude::*;

verus! {

/// Mathematical value of an [`SOption`]: the same fields with strings
/// abstracted to character sequences.
pub struct SOptionV {
    pub value: Seq<char>,
    pub title: Seq<char>,
    pub selected: bool,
    pub header: bool,
    pub disabled: bool,
}

/// One entry in the list of a searchable select control.
///
/// The list is ordered; an entry with `header` set opens a group that
/// extends to the next header or to the end of the list, so group
/// membership is purely positional. Selection truth is owned by the
/// caller: the control only reports intent through events and expects an
/// updated list on the next render.
pub struct SOption {
    /// Identifier of the entry, meaningful only to the owning caller.
    pub value: String,
    /// Display string.
    pub title: String,
    /// Whether the entry is currently selected (caller-controlled).
    pub selected: bool,
    /// Whether the entry is a non-selectable group header; `value` and
    /// `selected` are ignored for headers.
    pub header: bool,
    /// Whether the entry is displayed but not selectable.
    pub disabled: bool,
}

impl View for SOption {
    type V = SOptionV;

    open spec fn view(&self) -> SOptionV {
        SOptionV {
            value: self.value@,
            title: self.title@,
            selected: self.selected,
            header: self.header,
            disabled: self.disabled,
        }
    }
}

impl DeepView for SOption {
    type V = SOptionV;

    open spec fn deep_view(&self) -> SOptionV {
        self.view()
    }
}

impl Clone for SOption {
    fn clone(&self) -> (res: Self)
        ensures
            res@ == self@,
    {
        SOption {
            value: self.value.clone(),
            title: self.title.clone(),
            selected: self.selected,
            header: self.header,
            disabled: self.disabled,
        }
    }
}

impl Default for SOption {
    /// An unselected, enabled, non-header entry with empty value and title.
    fn default() -> (res: Self)
        ensures
            res@ == (SOptionV {
                value: Seq::<char>::empty(),
                title: Seq::<char>::empty(),
                selected: false,
                header: false,
                disabled: false,
            }),
    {
        SOption {
            value: String::new(),
            title: String::new(),
            selected: false,
            header: false,
            disabled: false,
        }
    }
}

} // verus!
