//! The badge renderer: layout arithmetic and assembly of the SVG
//! document, specified down to the exact character sequence produced.
//!
//! The document is a fixed two-segment shape: a dark left segment with
//! the literal label "coverage" and a right segment filled with the
//! severity color and the formatted percentage.  Widths are derived from
//! the length of the percentage text at a fixed seven units per character
//! plus ten units of padding; the height is fixed at twenty.

use vstd::prelude::*;
use vstd::string::{StrSliceExecFns, StringExecFns};
use crate::color::{coverage_color, spec_coverage_color};
use crate::decimal::{decimal_seq, u64_to_decimal};
use crate::percentage::{
    format_percentage, lemma_format_percentage_len, spec_format_percentage, Percentage,
};
use crate::substr::{
    ends_with, has_substring, lemma_append_ends_with, lemma_append_has_substring,
    lemma_append_keeps, lemma_has_substring_self, starts_with,
};

verus! {

/// Width of the value segment: ten units of padding plus seven units per
/// character of the percentage text.
pub open spec fn spec_value_width(len: nat) -> nat {
    10 + 7 * len
}

/// Total badge width: the fixed sixty-unit label segment plus the value
/// segment.
pub open spec fn spec_total_width(len: nat) -> nat {
    60 + spec_value_width(len)
}

/// Horizontal center of the value segment, used as the text anchor;
/// the division truncates, as the layout arithmetic does.
pub open spec fn spec_value_x(len: nat) -> nat {
    60 + spec_value_width(len) / 2
}

/// Opening of the root element, up to the width attribute's value.
pub open spec fn lit_svg_open() -> Seq<char> {
    "<svg xmlns=\"http://www.w3.org/2000/svg\" width=\""@
}

/// Gradient and clip-path definitions, up to the clip rectangle's width.
pub open spec fn lit_defs() -> Seq<char> {
    "\" height=\"20\">\n  <linearGradient id=\"smooth\" x2=\"0\" y2=\"100%\">\n    <stop offset=\"0\" stop-color=\"#bbb\" stop-opacity=\".1\"/>\n    <stop offset=\"1\" stop-opacity=\".1\"/>\n  </linearGradient>\n  <clipPath id=\"round\">\n    <rect width=\""@
}

/// End of the clip path and start of the background rectangle.
pub open spec fn lit_background() -> Seq<char> {
    "\" height=\"20\" rx=\"3\" fill=\"#fff\"/>\n  </clipPath>\n  <g clip-path=\"url(#round)\">\n    <rect width=\""@
}

/// End of the background and the value rectangle's x attribute.
pub open spec fn lit_value_rect_x() -> Seq<char> {
    "\" height=\"20\" fill=\"#555\"/>\n    <rect x=\""@
}

/// The value rectangle's width attribute.
pub open spec fn lit_value_rect_width() -> Seq<char> {
    "\" width=\""@
}

/// The value rectangle's fill attribute.
pub open spec fn lit_value_rect_fill() -> Seq<char> {
    "\" height=\"20\" fill=\""@
}

/// End of the value rectangle and start of the gradient overlay.
pub open spec fn lit_overlay() -> Seq<char> {
    "\"/>\n    <rect width=\""@
}

/// End of the overlay and start of the text group, up to the label
/// shadow's x attribute.
pub open spec fn lit_text_group() -> Seq<char> {
    "\" height=\"20\" fill=\"url(#smooth)\"/>\n  </g>\n  <g fill=\"#fff\" text-anchor=\"middle\" font-family=\"DejaVu Sans,Verdana,Geneva,sans-serif\" font-size=\"11\">\n    <text x=\""@
}

/// The label's drop shadow, up to the foreground label's x attribute.
pub open spec fn lit_label_shadow() -> Seq<char> {
    "\" y=\"15\" fill=\"#010101\" fill-opacity=\".3\">coverage</text>\n    <text x=\""@
}

/// The foreground label, up to the value shadow's x attribute.
pub open spec fn lit_label_text() -> Seq<char> {
    "\" y=\"14\">coverage</text>\n    <text x=\""@
}

/// End of the value shadow's attributes, before the shadow text.
pub open spec fn lit_value_shadow() -> Seq<char> {
    "\" y=\"15\" fill=\"#010101\" fill-opacity=\".3\">"@
}

/// Between the shadow text and the foreground value's x attribute.
pub open spec fn lit_value_between() -> Seq<char> {
    "</text>\n    <text x=\""@
}

/// End of the foreground value's attributes, before the value text.
pub open spec fn lit_value_fg() -> Seq<char> {
    "\" y=\"14\">"@
}

/// Closing of the text group and of the document.
pub open spec fn lit_svg_close() -> Seq<char> {
    "</text>\n  </g>\n</svg>"@
}

/// The full badge document for `p`: the fixed markup with the computed
/// widths, anchors, severity color and percentage text substituted in.
pub open spec fn spec_badge(p: Percentage) -> Seq<char> {
    let text = spec_format_percentage(p);
    let vw = spec_value_width(text.len());
    let tw = spec_total_width(text.len());
    let vx = spec_value_x(text.len());
    let color = spec_coverage_color(p.tenths as int);
    lit_svg_open() + decimal_seq(tw) + lit_defs() + decimal_seq(tw) + lit_background()
        + decimal_seq(60) + lit_value_rect_x() + decimal_seq(60) + lit_value_rect_width()
        + decimal_seq(vw) + lit_value_rect_fill() + color + lit_overlay() + decimal_seq(tw)
        + lit_text_group() + decimal_seq(30) + lit_label_shadow() + decimal_seq(30)
        + lit_label_text() + decimal_seq(vx) + lit_value_shadow() + text + lit_value_between()
        + decimal_seq(vx) + lit_value_fg() + text + lit_svg_close()
}

/// Generates an SVG badge for the given coverage percentage.
pub fn generate_badge(p: &Percentage) -> (r: String)
    ensures
        r@ == spec_badge(*p),
{
    let color = coverage_color(p);
    let text = format_percentage(p);
    proof {
        lemma_format_percentage_len(*p);
    }
    let len: usize = text.as_str().unicode_len();
    let label_width: u64 = 60;
    let value_width: u64 = 10 + 7 * (len as u64);
    let total_width: u64 = label_width + value_width;
    let label_x: u64 = label_width / 2;
    let value_x: u64 = label_width + value_width / 2;
    let tw_text = u64_to_decimal(total_width);
    let vw_text = u64_to_decimal(value_width);
    let lw_text = u64_to_decimal(label_width);
    let lx_text = u64_to_decimal(label_x);
    let vx_text = u64_to_decimal(value_x);

    let mut r = "<svg xmlns=\"http://www.w3.org/2000/svg\" width=\"".to_owned();
    r.append(tw_text.as_str());
    r.append(
        "\" height=\"20\">\n  <linearGradient id=\"smooth\" x2=\"0\" y2=\"100%\">\n    <stop offset=\"0\" stop-color=\"#bbb\" stop-opacity=\".1\"/>\n    <stop offset=\"1\" stop-opacity=\".1\"/>\n  </linearGradient>\n  <clipPath id=\"round\">\n    <rect width=\"",
    );
    r.append(tw_text.as_str());
    r.append(
        "\" height=\"20\" rx=\"3\" fill=\"#fff\"/>\n  </clipPath>\n  <g clip-path=\"url(#round)\">\n    <rect width=\"",
    );
    r.append(lw_text.as_str());
    r.append("\" height=\"20\" fill=\"#555\"/>\n    <rect x=\"");
    r.append(lw_text.as_str());
    r.append("\" width=\"");
    r.append(vw_text.as_str());
    r.append("\" height=\"20\" fill=\"");
    r.append(color);
    r.append("\"/>\n    <rect width=\"");
    r.append(tw_text.as_str());
    r.append(
        "\" height=\"20\" fill=\"url(#smooth)\"/>\n  </g>\n  <g fill=\"#fff\" text-anchor=\"middle\" font-family=\"DejaVu Sans,Verdana,Geneva,sans-serif\" font-size=\"11\">\n    <text x=\"",
    );
    r.append(lx_text.as_str());
    r.append("\" y=\"15\" fill=\"#010101\" fill-opacity=\".3\">coverage</text>\n    <text x=\"");
    r.append(lx_text.as_str());
    r.append("\" y=\"14\">coverage</text>\n    <text x=\"");
    r.append(vx_text.as_str());
    r.append("\" y=\"15\" fill=\"#010101\" fill-opacity=\".3\">");
    r.append(text.as_str());
    r.append("</text>\n    <text x=\"");
    r.append(vx_text.as_str());
    r.append("\" y=\"14\">");
    r.append(text.as_str());
    r.append("</text>\n  </g>\n</svg>");
    r
}

/// Walks the concatenation that makes up `spec_badge` and collects where
/// the fixed fragments of interest stand in the finished document.
proof fn lemma_badge_structure(p: Percentage)
    ensures
        starts_with(spec_badge(p), "<svg"@),
        ends_with(spec_badge(p), "</svg>"@),
        has_substring(spec_badge(p), "coverage"@),
        has_substring(spec_badge(p), spec_format_percentage(p)),
{
    let text = spec_format_percentage(p);
    let vw = spec_value_width(text.len());
    let tw = spec_total_width(text.len());
    let vx = spec_value_x(text.len());
    let color = spec_coverage_color(p.tenths as int);

    reveal_strlit("<svg");
    reveal_strlit("<svg xmlns=\"http://www.w3.org/2000/svg\" width=\"");
    assert(starts_with(lit_svg_open(), "<svg"@)) by {
        assert(lit_svg_open().subrange(0, "<svg"@.len() as int) =~= "<svg"@);
    }
    reveal_strlit("coverage");
    reveal_strlit("\" y=\"14\">coverage</text>\n    <text x=\"");
    assert(has_substring(lit_label_text(), "coverage"@)) by {
        let i: int = 9;
        assert(lit_label_text().subrange(i, i + "coverage"@.len()) =~= "coverage"@);
    }
    reveal_strlit("</svg>");
    reveal_strlit("</text>\n  </g>\n</svg>");
    assert(ends_with(lit_svg_close(), "</svg>"@)) by {
        assert(lit_svg_close().subrange(
            lit_svg_close().len() - "</svg>"@.len(),
            lit_svg_close().len() as int,
        ) =~= "</svg>"@);
    }
    lemma_has_substring_self(text);

    let s1 = lit_svg_open();
    lemma_append_keeps(s1, decimal_seq(tw));
    let s2 = s1 + decimal_seq(tw);
    lemma_append_keeps(s2, lit_defs());
    let s3 = s2 + lit_defs();
    lemma_append_keeps(s3, decimal_seq(tw));
    let s4 = s3 + decimal_seq(tw);
    lemma_append_keeps(s4, lit_background());
    let s5 = s4 + lit_background();
    lemma_append_keeps(s5, decimal_seq(60));
    let s6 = s5 + decimal_seq(60);
    lemma_append_keeps(s6, lit_value_rect_x());
    let s7 = s6 + lit_value_rect_x();
    lemma_append_keeps(s7, decimal_seq(60));
    let s8 = s7 + decimal_seq(60);
    lemma_append_keeps(s8, lit_value_rect_width());
    let s9 = s8 + lit_value_rect_width();
    lemma_append_keeps(s9, decimal_seq(vw));
    let s10 = s9 + decimal_seq(vw);
    lemma_append_keeps(s10, lit_value_rect_fill());
    let s11 = s10 + lit_value_rect_fill();
    lemma_append_keeps(s11, color);
    let s12 = s11 + color;
    lemma_append_keeps(s12, lit_overlay());
    let s13 = s12 + lit_overlay();
    lemma_append_keeps(s13, decimal_seq(tw));
    let s14 = s13 + decimal_seq(tw);
    lemma_append_keeps(s14, lit_text_group());
    let s15 = s14 + lit_text_group();
    lemma_append_keeps(s15, decimal_seq(30));
    let s16 = s15 + decimal_seq(30);
    lemma_append_keeps(s16, lit_label_shadow());
    let s17 = s16 + lit_label_shadow();
    lemma_append_keeps(s17, decimal_seq(30));
    let s18 = s17 + decimal_seq(30);
    lemma_append_keeps(s18, lit_label_text());
    lemma_append_has_substring(s18, lit_label_text(), "coverage"@);
    let s19 = s18 + lit_label_text();
    lemma_append_keeps(s19, decimal_seq(vx));
    let s20 = s19 + decimal_seq(vx);
    lemma_append_keeps(s20, lit_value_shadow());
    let s21 = s20 + lit_value_shadow();
    lemma_append_keeps(s21, text);
    lemma_append_has_substring(s21, text, text);
    let s22 = s21 + text;
    lemma_append_keeps(s22, lit_value_between());
    let s23 = s22 + lit_value_between();
    lemma_append_keeps(s23, decimal_seq(vx));
    let s24 = s23 + decimal_seq(vx);
    lemma_append_keeps(s24, lit_value_fg());
    let s25 = s24 + lit_value_fg();
    lemma_append_keeps(s25, text);
    let s26 = s25 + text;
    lemma_append_keeps(s26, lit_svg_close());
    lemma_append_ends_with(s26, lit_svg_close(), "</svg>"@);
    let s27 = s26 + lit_svg_close();
    assert(s27 == spec_badge(p));
}

/// Every badge, whatever the percentage, contains the literal label
/// "coverage".
pub proof fn lemma_badge_contains_label(p: Percentage)
    ensures
        has_substring(spec_badge(p), "coverage"@),
{
    lemma_badge_structure(p);
}

/// Every badge contains, verbatim, the text the percentage formatter
/// produces for its value.
pub proof fn lemma_badge_contains_percentage_text(p: Percentage)
    ensures
        has_substring(spec_badge(p), spec_format_percentage(p)),
{
    lemma_badge_structure(p);
}

/// Every badge is a well-formed envelope: it starts with `<svg` and ends
/// with `</svg>`.
pub proof fn lemma_badge_envelope(p: Percentage)
    ensures
        starts_with(spec_badge(p), "<svg"@),
        ends_with(spec_badge(p), "</svg>"@),
{
    lemma_badge_structure(p);
}

/// Rendering is deterministic: any two outputs for the same percentage
/// are identical, since `generate_badge` returns exactly `spec_badge`.
pub proof fn lemma_badge_deterministic(p: Percentage, r1: Seq<char>, r2: Seq<char>)
    requires
        r1 == spec_badge(p),
        r2 == spec_badge(p),
    ensures
        r1 == r2,
{
}

/// The value segment grows strictly with the length of the percentage
/// text, and the total width is exactly the label segment plus the value
/// segment.
pub proof fn lemma_value_width_monotonic(len1: nat, len2: nat)
    requires
        len1 < len2,
    ensures
        spec_value_width(len1) < spec_value_width(len2),
        spec_total_width(len1) == 60 + spec_value_width(len1),
{
}

} // verus!
