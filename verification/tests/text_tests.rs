use fncv::frames::{construct_frames, construct_path, parse_fail, svg_document};
use fncv::strfmt::decimal_string;
use fncv::writer::{FrameWriter, Mode};

#[test]
fn parse_fail_message() {
    assert_eq!(parse_fail("f64", "OFFSET"), "Failed to parse f64 from OFFSET");
    assert_eq!(parse_fail("usize", "FRAMES"), "Failed to parse usize from FRAMES");
}

#[test]
fn decimal_small() {
    assert_eq!(decimal_string(0), "0");
    assert_eq!(decimal_string(7), "7");
    assert_eq!(decimal_string(10), "10");
    assert_eq!(decimal_string(120), "120");
}

#[test]
fn decimal_large() {
    assert_eq!(decimal_string(18446744073709551615), "18446744073709551615");
}

#[test]
fn frames_empty() {
    assert_eq!(construct_frames(&vec![]), "");
}

#[test]
fn frames_single() {
    assert_eq!(construct_frames(&vec![String::from("0.5")]), "0.5");
}

#[test]
fn frames_joined_by_semicolons() {
    let frames = vec![String::from("a"), String::from("b"), String::from("c")];
    assert_eq!(construct_frames(&frames), "a;b;c");
}

#[test]
fn path_empty() {
    assert_eq!(construct_path(&vec![]), "M 0.0 0.0");
}

#[test]
fn path_single_point() {
    let pts = vec![(String::from("3"), String::from("4"))];
    assert_eq!(construct_path(&pts), "M 3 4");
}

#[test]
fn path_formatted_floats() {
    let coords: [(f64, f64); 3] = [(0.0, 0.0), (1.0, 0.5), (-2.25, 7.0)];
    let pts: Vec<(String, String)> = coords
        .iter()
        .map(|&(x, y)| (format!("{}", x), format!("{}", y)))
        .collect();
    assert_eq!(construct_path(&pts), "M 0 0L 1 0.5L -2.25 7");
}

#[test]
fn svg_document_assembles_template() {
    let doc = svg_document(
        "100", "50", "none", "10", "1.5", "0;1", "M 0 0", "M 0 0;M 1 1", "M 2 2;M 3 3",
    );
    let expected = format!(
        "<svg xmlns=\"http://www.w3.org/2000/svg\" width=\"{width}\" height=\"{height}\"><g><rect width=\"100%\" height=\"100%\" fill=\"{back}\"/><path d=\"{lpstring}\" stroke-width=\"{sw}\" stroke=\"#0022e4\" fill=\"none\"><animate attributeName=\"d\" values=\"{pstring}\" keyTimes=\"{tstring}\" dur=\"{time}s\" begin=\"0s\" repeatCount=\"1\"/></path><path d=\"\" stroke-width=\"{sw}\" stroke=\"#000\" fill=\"none\"><animate attributeName=\"d\" values=\"{dstring}\" keyTimes=\"{tstring}\" dur=\"{time}s\" begin=\"0s\" repeatCount=\"indefinite\"/></path></g></svg>",
        width = "100",
        height = "50",
        back = "none",
        time = "10",
        sw = "1.5",
        tstring = "0;1",
        lpstring = "M 0 0",
        pstring = "M 0 0;M 1 1",
        dstring = "M 2 2;M 3 3",
    );
    assert_eq!(doc, expected);
}

#[test]
fn mode_parse_recognizes_svg_only() {
    assert_eq!(Mode::parse("svg"), Some(Mode::Svg));
    assert_eq!(Mode::parse("svgs"), None);
    assert_eq!(Mode::parse("pngs"), None);
    assert_eq!(Mode::parse(""), None);
}

#[test]
fn frame_writer_keeps_its_arguments() {
    let w = FrameWriter::new(Mode::Svgs, String::from("frames_dir"));
    assert_eq!(w.mode, Mode::Svgs);
    assert_eq!(w.out_fp, "frames_dir");
}

#[test]
fn frame_paths_follow_mode() {
    let w = FrameWriter::new(Mode::Svgs, String::from("out"));
    assert_eq!(w.frame_path(12), "out/frame-12.svg");
    let w = FrameWriter::new(Mode::Pngs, String::from("out"));
    assert_eq!(w.frame_path(3), "out/frame-3.png");
    assert_eq!(w.frame_path(0), "out/frame-0.png");
}
