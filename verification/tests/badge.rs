use coverage_badge::badge::generate_badge;
use coverage_badge::percentage::Percentage;

#[test]
fn test_badge_contains_coverage_label() {
    let svg = generate_badge(&Percentage::from_whole(85));
    assert!(svg.contains("coverage"), "Badge should contain 'coverage' label");
}

#[test]
fn test_badge_contains_percentage() {
    let svg = generate_badge(&Percentage::from_whole(85));
    assert!(svg.contains("85%"), "Badge should contain percentage value");
}

#[test]
fn test_badge_contains_correct_color() {
    let svg = generate_badge(&Percentage::from_whole(85));
    assert!(svg.contains("#4c1"), "85% coverage should use green color");

    let svg_low = generate_badge(&Percentage::from_whole(30));
    assert!(svg_low.contains("#e05d44"), "30% coverage should use red color");
}

#[test]
fn test_badge_is_valid_svg() {
    let svg = generate_badge(&Percentage::from_whole(50));
    assert!(svg.starts_with("<svg"), "Should start with <svg");
    assert!(svg.ends_with("</svg>"), "Should end with </svg>");
}

#[test]
fn test_percentage_formatting_whole_number() {
    let svg = generate_badge(&Percentage::from_whole(85));
    assert!(svg.contains("85%"));
    assert!(!svg.contains("85.0%"));
}

#[test]
fn test_percentage_formatting_decimal() {
    let svg = generate_badge(&Percentage::from_tenths(855));
    assert!(svg.contains("85.5%"));
}

#[test]
fn test_badge_label_present_at_zero() {
    let svg = generate_badge(&Percentage::from_whole(0));
    assert!(svg.contains("coverage"));
}

#[test]
fn test_badge_envelope_decimal_value() {
    let svg = generate_badge(&Percentage::from_tenths(123));
    assert!(svg.starts_with("<svg"));
    assert!(svg.ends_with("</svg>"));
    assert!(svg.contains("12.3%"));
}

#[test]
fn test_badge_deterministic() {
    let p = Percentage::from_tenths(677);
    let first = generate_badge(&p);
    let second = generate_badge(&p);
    assert_eq!(first, second);
}

#[test]
fn test_badge_widths_grow_with_text_length() {
    // "5%" has 2 characters, "100%" has 4, "85.5%" has 5: the value
    // segment is 10 + 7 per character, the total is 60 more.
    let two_chars = generate_badge(&Percentage::from_whole(5));
    assert!(two_chars.contains("width=\"84\""));
    assert!(two_chars.contains("width=\"24\""));

    let four_chars = generate_badge(&Percentage::from_whole(100));
    assert!(four_chars.contains("width=\"98\""));
    assert!(four_chars.contains("width=\"38\""));

    let five_chars = generate_badge(&Percentage::from_tenths(855));
    assert!(five_chars.contains("width=\"105\""));
    assert!(five_chars.contains("width=\"45\""));
}

#[test]
fn test_badge_text_anchors() {
    // For "85%" the value segment is 31 wide, so its center sits at
    // 60 + 31 / 2 = 75; the label's center is fixed at 30.
    let svg = generate_badge(&Percentage::from_whole(85));
    assert!(svg.contains("x=\"30\""));
    assert!(svg.contains("x=\"75\""));
}

#[test]
fn test_badge_exact_document() {
    let svg = generate_badge(&Percentage::from_whole(85));
    let expected = "<svg xmlns=\"http://www.w3.org/2000/svg\" width=\"91\" height=\"20\">\n  <linearGradient id=\"smooth\" x2=\"0\" y2=\"100%\">\n    <stop offset=\"0\" stop-color=\"#bbb\" stop-opacity=\".1\"/>\n    <stop offset=\"1\" stop-opacity=\".1\"/>\n  </linearGradient>\n  <clipPath id=\"round\">\n    <rect width=\"91\" height=\"20\" rx=\"3\" fill=\"#fff\"/>\n  </clipPath>\n  <g clip-path=\"url(#round)\">\n    <rect width=\"60\" height=\"20\" fill=\"#555\"/>\n    <rect x=\"60\" width=\"31\" height=\"20\" fill=\"#4c1\"/>\n    <rect width=\"91\" height=\"20\" fill=\"url(#smooth)\"/>\n  </g>\n  <g fill=\"#fff\" text-anchor=\"middle\" font-family=\"DejaVu Sans,Verdana,Geneva,sans-serif\" font-size=\"11\">\n    <text x=\"30\" y=\"15\" fill=\"#010101\" fill-opacity=\".3\">coverage</text>\n    <text x=\"30\" y=\"14\">coverage</text>\n    <text x=\"75\" y=\"15\" fill=\"#010101\" fill-opacity=\".3\">85%</text>\n    <text x=\"75\" y=\"14\">85%</text>\n  </g>\n</svg>";
    assert_eq!(svg, expected);
}
