//! Utility enums shared by the components: theme colors, placement and
//! arrangement. Each maps to the Bootstrap class-name fragment it stands
//! for.

use vstd::prelude::*;

verus! {

/// Bootstrap theme colors for buttons, links, badges and bars.
#[derive(Clone, Copy, PartialEq, Eq, Structural, Debug)]
pub enum Color {
    Primary,
    Secondary,
    Success,
    Info,
    Warning,
    Danger,
    Light,
    Dark,
    Link,
}

/// The class-name fragment of each color.
pub open spec fn color_str_spec(c: Color) -> Seq<char> {
    match c {
        Color::Primary => "primary"@,
        Color::Secondary => "secondary"@,
        Color::Success => "success"@,
        Color::Info => "info"@,
        Color::Warning => "warning"@,
        Color::Danger => "danger"@,
        Color::Light => "light"@,
        Color::Dark => "dark"@,
        Color::Link => "link"@,
    }
}

impl Color {
    /// The Bootstrap class-name fragment of this color.
    pub fn to_str(&self) -> (r: &'static str)
        ensures
            r@ == color_str_spec(*self),
    {
        match self {
            Color::Primary => "primary",
            Color::Secondary => "secondary",
            Color::Success => "success",
            Color::Info => "info",
            Color::Warning => "warning",
            Color::Danger => "danger",
            Color::Light => "light",
            Color::Dark => "dark",
            Color::Link => "link",
        }
    }
}

/// Bootstrap colors for text: like [`Color`] but with white and muted.
#[derive(Clone, Copy, PartialEq, Eq, Structural, Debug)]
pub enum TextColor {
    Primary,
    Secondary,
    Success,
    Info,
    Warning,
    Danger,
    Light,
    Dark,
    Link,
    White,
    Muted,
}

/// The class-name fragment of each text color.
pub open spec fn text_color_str_spec(c: TextColor) -> Seq<char> {
    match c {
        TextColor::Primary => "primary"@,
        TextColor::Secondary => "secondary"@,
        TextColor::Success => "success"@,
        TextColor::Info => "info"@,
        TextColor::Warning => "warning"@,
        TextColor::Danger => "danger"@,
        TextColor::Light => "light"@,
        TextColor::Dark => "dark"@,
        TextColor::Link => "link"@,
        TextColor::White => "white"@,
        TextColor::Muted => "muted"@,
    }
}

impl TextColor {
    /// The Bootstrap class-name fragment of this text color.
    pub fn to_str(&self) -> (r: &'static str)
        ensures
            r@ == text_color_str_spec(*self),
    {
        match self {
            TextColor::Primary => "primary",
            TextColor::Secondary => "secondary",
            TextColor::Success => "success",
            TextColor::Info => "info",
            TextColor::Warning => "warning",
            TextColor::Danger => "danger",
            TextColor::Light => "light",
            TextColor::Dark => "dark",
            TextColor::Link => "link",
            TextColor::White => "white",
            TextColor::Muted => "muted",
        }
    }
}

/// Bootstrap placement of an element; not responsive.
#[derive(Clone, Copy, PartialEq, Eq, Structural, Debug)]
pub enum Position {
    Static,
    Relative,
    Absolute,
    Fixed,
    Sticky,
}

/// The placement class of each position.
pub open spec fn position_str_spec(p: Position) -> Seq<char> {
    match p {
        Position::Static => "position-static"@,
        Position::Relative => "position-relative"@,
        Position::Absolute => "position-absolute"@,
        Position::Fixed => "position-fixed"@,
        Position::Sticky => "position-sticky"@,
    }
}

impl Position {
    /// The Bootstrap placement class of this position.
    pub fn to_str(&self) -> (r: &'static str)
        ensures
            r@ == position_str_spec(*self),
    {
        match self {
            Position::Static => "position-static",
            Position::Relative => "position-relative",
            Position::Absolute => "position-absolute",
            Position::Fixed => "position-fixed",
            Position::Sticky => "position-sticky",
        }
    }
}

/// Bootstrap horizontal arrangement of an element.
#[derive(Clone, Copy, PartialEq, Eq, Structural, Debug)]
pub enum ArrangeX {
    Start0,
    Start50,
    Start100,
    End0,
    End50,
    End100,
}

/// The arrangement class of each horizontal arrangement.
pub open spec fn arrange_x_str_spec(a: ArrangeX) -> Seq<char> {
    match a {
        ArrangeX::Start0 => "start-0"@,
        ArrangeX::Start50 => "start-50"@,
        ArrangeX::Start100 => "start-100"@,
        ArrangeX::End0 => "end-0"@,
        ArrangeX::End50 => "end-50"@,
        ArrangeX::End100 => "end-100"@,
    }
}

impl ArrangeX {
    /// The Bootstrap arrangement class of this value.
    pub fn to_str(&self) -> (r: &'static str)
        ensures
            r@ == arrange_x_str_spec(*self),
    {
        match self {
            ArrangeX::Start0 => "start-0",
            ArrangeX::Start50 => "start-50",
            ArrangeX::Start100 => "start-100",
            ArrangeX::End0 => "end-0",
            ArrangeX::End50 => "end-50",
            ArrangeX::End100 => "end-100",
        }
    }
}

/// Bootstrap vertical arrangement of an element.
#[derive(Clone, Copy, PartialEq, Eq, Structural, Debug)]
pub enum ArrangeY {
    Top0,
    Top50,
    Top100,
    Bottom0,
    Bottom50,
    Bottom100,
}

/// The arrangement class of each vertical arrangement.
pub open spec fn arrange_y_str_spec(a: ArrangeY) -> Seq<char> {
    match a {
        ArrangeY::Top0 => "top-0"@,
        ArrangeY::Top50 => "top-50"@,
        ArrangeY::Top100 => "top-100"@,
        ArrangeY::Bottom0 => "bottom-0"@,
        ArrangeY::Bottom50 => "bottom-50"@,
        ArrangeY::Bottom100 => "bottom-100"@,
    }
}

impl ArrangeY {
    /// The Bootstrap arrangement class of this value.
    pub fn to_str(&self) -> (r: &'static str)
        ensures
            r@ == arrange_y_str_spec(*self),
    {
        match self {
            ArrangeY::Top0 => "top-0",
            ArrangeY::Top50 => "top-50",
            ArrangeY::Top100 => "top-100",
            ArrangeY::Bottom0 => "bottom-0",
            ArrangeY::Bottom50 => "bottom-50",
            ArrangeY::Bottom100 => "bottom-100",
        }
    }
}

} // verus!
