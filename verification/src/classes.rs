//! CSS class computation for rendered rows and validation feedback.
//!
//! The rendering layer is left to the embedding application; what it
//! needs from the library is which classes each row carries and which
//! feedback to show, both pure functions of the data.

use vstd::prelude::*;

use crate::soption::SOption;
use crate::soption::SOptionV;

verus! {

/// The classes of one rendered option row: every row is a
/// `list-group-item`; non-headers are actionable and may be active or
/// disabled; selected rows and headers are marked as such.
pub open spec fn option_classes_spec(o: SOptionV, active: bool) -> Seq<Seq<char>> {
    seq!["list-group-item"@] + (if !o.header {
        seq!["list-group-item-action"@]
    } else {
        Seq::empty()
    }) + (if active && !o.header {
        seq!["active"@]
    } else {
        Seq::empty()
    }) + (if o.disabled && !o.header {
        seq!["disabled"@]
    } else {
        Seq::empty()
    }) + (if o.selected {
        seq!["selected"@]
    } else {
        Seq::empty()
    }) + (if o.header {
        seq!["header"@]
    } else {
        Seq::empty()
    })
}

/// The CSS classes of the row for `opt`, highlighted when `active`.
pub fn option_classes(opt: &SOption, active: bool) -> (r: Vec<&'static str>)
    ensures
        r.deep_view() == option_classes_spec(opt@, active),
{
    let mut r: Vec<&'static str> = Vec::new();
    r.push("list-group-item");
    if !opt.header {
        r.push("list-group-item-action");
    }
    if active && !opt.header {
        r.push("active");
    }
    if opt.disabled && !opt.header {
        r.push("disabled");
    }
    if opt.selected {
        r.push("selected");
    }
    if opt.header {
        r.push("header");
    }
    proof {
        assert(r.deep_view() =~= option_classes_spec(opt@, active));
    }
    r
}

/// Mathematical value of a [`FormControlValidation`].
pub enum FormControlValidationV {
    NotValidated,
    Valid(Option<Seq<char>>),
    Invalid(Seq<char>),
}

/// Validation feedback attached to a form control or to the select
/// control. User input must always be validated server-side as well;
/// this only drives what the user is shown.
pub enum FormControlValidation {
    /// The field has not been validated, or there is nothing to show.
    NotValidated,
    /// Validation passed, with an optional feedback message.
    Valid(Option<String>),
    /// Validation failed, with a feedback message.
    Invalid(String),
}

impl View for FormControlValidation {
    type V = FormControlValidationV;

    open spec fn view(&self) -> FormControlValidationV {
        match self {
            FormControlValidation::NotValidated => FormControlValidationV::NotValidated,
            FormControlValidation::Valid(m) => FormControlValidationV::Valid(
                match m {
                    Some(text) => Some(text@),
                    None => None,
                },
            ),
            FormControlValidation::Invalid(text) => FormControlValidationV::Invalid(text@),
        }
    }
}

impl DeepView for FormControlValidation {
    type V = FormControlValidationV;

    open spec fn deep_view(&self) -> FormControlValidationV {
        self.view()
    }
}

/// The class the validation state adds to the control, if any.
pub open spec fn validation_class_spec(v: FormControlValidationV) -> Option<Seq<char>> {
    match v {
        FormControlValidationV::NotValidated => None,
        FormControlValidationV::Valid(_) => Some("is-valid"@),
        FormControlValidationV::Invalid(_) => Some("is-invalid"@),
    }
}

/// The feedback message the validation state shows, if any.
pub open spec fn validation_feedback_spec(v: FormControlValidationV) -> Option<Seq<char>> {
    match v {
        FormControlValidationV::NotValidated => None,
        FormControlValidationV::Valid(m) => m,
        FormControlValidationV::Invalid(text) => Some(text),
    }
}

impl FormControlValidation {
    /// The class this validation state adds to the control:
    /// `is-valid`, `is-invalid`, or nothing.
    pub fn class(&self) -> (r: Option<&'static str>)
        ensures
            r.deep_view() == validation_class_spec(self@),
    {
        match self {
            FormControlValidation::NotValidated => None,
            FormControlValidation::Valid(_) => Some("is-valid"),
            FormControlValidation::Invalid(_) => Some("is-invalid"),
        }
    }

    /// The feedback message to display for this validation state, if
    /// any: the message of a failed validation, or the optional message
    /// of a passed one.
    pub fn feedback(&self) -> (r: Option<&String>)
        ensures
            r.deep_view() == validation_feedback_spec(self@),
    {
        match self {
            FormControlValidation::NotValidated => None,
            FormControlValidation::Valid(m) => {
                match m {
                    Some(text) => Some(text),
                    None => None,
                }
            },
            FormControlValidation::Invalid(text) => Some(text),
        }
    }
}

} // verus!
