//! The SVG `<style>` element.

use vstd::prelude::*;
use crate::text::{push_str, string_of};

verus! {

/// Fill of cores, routers and edge routers without data.
pub const DEFAULT_FILL: &'static str = "#e5e5e5";
/// Class of elements filled with [`DEFAULT_FILL`].
pub const BASE_FILL_CLASS_NAME: &'static str = "baseFill";
/// Class of the elements that show edge routers and their data.
pub const EDGE_DATA_CLASS_NAME: &'static str = "edgeData";

/// The `@font-face` rule that embeds the Roboto Mono font given in base64.
pub open spec fn font_face(font_base64: Seq<char>) -> Seq<char> {
    "\n@font-face {\n    font-family: \"Roboto Mono\";\n    src: url(data:font/truetype;charset=utf-8;base64,"@
        + font_base64 + ") format(\"truetype\");\n}"@
}

/// The base style: the font and the base fill.
pub open spec fn base_style(font_base64: Seq<char>) -> Seq<char> {
    font_face(font_base64) + "\n.baseFill{fill: #e5e5e5;}"@
}

/// The default style: the base style with edge data hidden.
pub open spec fn default_style(font_base64: Seq<char>) -> Seq<char> {
    base_style(font_base64) + "\n.edgeData{display: none;}"@
}

/// The `<style>` of an SVG.
#[derive(Debug)]
pub struct Style {
    pub css: String,
}

impl Style {
    /// The base style, which shows edge routers and their data.
    pub fn base(font_base64: &str) -> (r: Self)
        ensures
            r.css@ == base_style(font_base64@),
    {
        let mut css = string_of("\n@font-face {\n    font-family: \"Roboto Mono\";\n    src: url(data:font/truetype;charset=utf-8;base64,");
        push_str(&mut css, font_base64);
        push_str(&mut css, ") format(\"truetype\");\n}");
        push_str(&mut css, "\n.baseFill{fill: #e5e5e5;}");
        Style { css }
    }

    /// The default style, which hides edge routers and their data.
    pub fn default_style(font_base64: &str) -> (r: Self)
        ensures
            r.css@ == default_style(font_base64@),
    {
        let mut s = Style::base(font_base64);
        push_str(&mut s.css, "\n.edgeData{display: none;}");
        s
    }

    /// The style sheet.
    pub fn css(&self) -> (r: &String)
        ensures
            *r == self.css,
    {
        &self.css
    }
}

} // verus!
