//! Logic core of a Bootstrap-style searchable select control, together with
//! the small utility types (colors, positions, form field kinds, icons) that
//! accompany it.
//!
//! The centre of the crate is the select control: an ordered list of entries
//! ([`soption::SOption`]), a group-aware filter that keeps a header only when
//! one of its members matches ([`filter::filter_by_group`]), a navigator that
//! finds the selectable neighbours of the highlighted entry
//! ([`navigator::get_actives`]), and a state machine that turns user events
//! into state changes and selection notifications ([`shell::step`]).
//! Rendering and DOM wiring are left to the embedding application; everything
//! here is pure computation with proved contracts.

pub mod classes;
pub mod filter;
pub mod form_types;
pub mod icons;
pub mod navigator;
pub mod shell;
pub mod progress;
pub mod soption;
pub mod util;
