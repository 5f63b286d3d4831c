//! Terminal styling of output pieces with the `colored` crate.
//!
//! Whether `colored` emits escape sequences depends on the environment
//! (`CLICOLOR`, `CLICOLOR_FORCE`, `NO_COLOR`, whether stdout is a terminal)
//! and on its global override, so a styled piece is either the plain text or
//! the text wrapped in the style's escape sequence and a reset.

use vstd::prelude::*;
use colored::Colorize;
use crate::text::{pad_left, pad_left_str};

verus! {

/// The styles the renderers use.
#[derive(Debug, Clone, Copy, PartialEq, Eq)]
pub enum Style {
    Bold,
    Dimmed,
    Cyan,
    Yellow,
    Green,
    Blue,
    GreenBold,
}

/// The escape sequence that `colored` writes before text in a style.
pub open spec fn style_open(s: Style) -> Seq<char> {
    match s {
        Style::Bold => seq!['\x1b', '[', '1', 'm'],
        Style::Dimmed => seq!['\x1b', '[', '2', 'm'],
        Style::Cyan => seq!['\x1b', '[', '3', '6', 'm'],
        Style::Yellow => seq!['\x1b', '[', '3', '3', 'm'],
        Style::Green => seq!['\x1b', '[', '3', '2', 'm'],
        Style::Blue => seq!['\x1b', '[', '3', '4', 'm'],
        Style::GreenBold => seq!['\x1b', '[', '1', ';', '3', '2', 'm'],
    }
}

/// The escape sequence that `colored` writes after styled text.
pub open spec fn style_reset() -> Seq<char> {
    seq!['\x1b', '[', '0', 'm']
}

/// `r` is what `colored` can write for `text` in `style`, right-aligned to
/// `width` characters: the padded text alone when colors are off; when they
/// are on, the style's escape sequence, the padded text and a reset (exactly
/// so when the text holds no escape character of its own).
pub open spec fn painted(style: Style, text: Seq<char>, width: nat, r: Seq<char>) -> bool {
    ||| r == pad_left(text, width)
    ||| {
        &&& r.len() >= style_open(style).len() + style_reset().len()
        &&& r.subrange(0, style_open(style).len() as int) == style_open(style)
        &&& r.subrange(r.len() - style_reset().len(), r.len() as int) == style_reset()
        &&& !text.contains('\x1b') ==> r == style_open(style) + pad_left(text, width)
            + style_reset()
    }
}

/// One piece of output: styled when colors are asked for, otherwise the
/// padded text.
pub open spec fn piece(use_color: bool, style: Style, text: Seq<char>, width: nat, r: Seq<char>) -> bool {
    if use_color {
        painted(style, text, width, r)
    } else {
        r == pad_left(text, width)
    }
}

/// Text in bold (`Colorize::bold`), right-aligned to `width`.
#[verifier::external_body]
fn paint_bold(text: &str, width: usize) -> (r: String)
    ensures
        painted(Style::Bold, text@, width as nat, r@),
{
    format!("{:>w$}", text.bold(), w = width)
}

/// Dimmed text (`Colorize::dimmed`), right-aligned to `width`.
#[verifier::external_body]
fn paint_dimmed(text: &str, width: usize) -> (r: String)
    ensures
        painted(Style::Dimmed, text@, width as nat, r@),
{
    format!("{:>w$}", text.dimmed(), w = width)
}

/// Cyan text (`Colorize::cyan`), right-aligned to `width`.
#[verifier::external_body]
fn paint_cyan(text: &str, width: usize) -> (r: String)
    ensures
        painted(Style::Cyan, text@, width as nat, r@),
{
    format!("{:>w$}", text.cyan(), w = width)
}

/// Yellow text (`Colorize::yellow`), right-aligned to `width`.
#[verifier::external_body]
fn paint_yellow(text: &str, width: usize) -> (r: String)
    ensures
        painted(Style::Yellow, text@, width as nat, r@),
{
    format!("{:>w$}", text.yellow(), w = width)
}

/// Green text (`Colorize::green`), right-aligned to `width`.
#[verifier::external_body]
fn paint_green(text: &str, width: usize) -> (r: String)
    ensures
        painted(Style::Green, text@, width as nat, r@),
{
    format!("{:>w$}", text.green(), w = width)
}

/// Blue text (`Colorize::blue`), right-aligned to `width`.
#[verifier::external_body]
fn paint_blue(text: &str, width: usize) -> (r: String)
    ensures
        painted(Style::Blue, text@, width as nat, r@),
{
    format!("{:>w$}", text.blue(), w = width)
}

/// Green bold text (`Colorize::green` then `Colorize::bold`), right-aligned
/// to `width`.
#[verifier::external_body]
fn paint_green_bold(text: &str, width: usize) -> (r: String)
    ensures
        painted(Style::GreenBold, text@, width as nat, r@),
{
    format!("{:>w$}", text.green().bold(), w = width)
}

/// One piece of output, styled when colors are asked for.
pub fn styled(use_color: bool, style: Style, text: &str, width: usize) -> (r: String)
    ensures
        piece(use_color, style, text@, width as nat, r@),
{
    if !use_color {
        return pad_left_str(text, width);
    }
    match style {
        Style::Bold => paint_bold(text, width),
        Style::Dimmed => paint_dimmed(text, width),
        Style::Cyan => paint_cyan(text, width),
        Style::Yellow => paint_yellow(text, width),
        Style::Green => paint_green(text, width),
        Style::Blue => paint_blue(text, width),
        Style::GreenBold => paint_green_bold(text, width),
    }
}

} // verus!
