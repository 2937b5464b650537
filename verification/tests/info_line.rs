use render_loop::info::{
    info_label, initial_info, timings_ready, TimingFigures, STAGE_TIMESTAMPS,
};

fn figures(values: [&str; 8]) -> TimingFigures {
    TimingFigures {
        total: values[0].to_string(),
        element: values[1].to_string(),
        alloc: values[2].to_string(),
        path_coarse: values[3].to_string(),
        backdrop: values[4].to_string(),
        binning: values[5].to_string(),
        coarse: values[6].to_string(),
        fine: values[7].to_string(),
    }
}

#[test]
fn initial_text_is_info() {
    assert_eq!(initial_info(), "info");
}

#[test]
fn info_line_layout() {
    let f = figures(["12.500", "0.100", "0.200", "1.000", "0.300", "2.000", "3.900", "5.000"]);
    assert_eq!(
        f.info_line(),
        "12.500ms :: e:0.100ms|alloc:0.200ms|cp:1.000ms|bd:0.300ms|bin:2.000ms|cr:3.900ms|r:5.000ms"
    );
}

#[test]
fn info_line_of_empty_figures() {
    let f = figures(["", "", "", "", "", "", "", ""]);
    assert_eq!(f.info_line(), "ms :: e:ms|alloc:ms|cp:ms|bd:ms|bin:ms|cr:ms|r:ms");
}

#[test]
fn timings_ready_only_with_samples() {
    assert!(!timings_ready(0));
    assert!(timings_ready(STAGE_TIMESTAMPS));
    assert!(timings_ready(8));
    assert_eq!(STAGE_TIMESTAMPS, 7);
}

#[test]
fn info_label_places_text() {
    let l = info_label("12.500ms :: e:0.100ms");
    assert_eq!(l.text, "12.500ms :: e:0.100ms");
    assert_eq!((l.font_size, l.x, l.y), (40, 110, 50));
}

#[test]
fn info_label_of_empty_text() {
    let l = info_label("");
    assert_eq!(l.text, "");
    assert_eq!((l.font_size, l.x, l.y), (40, 110, 50));
}

#[test]
fn info_label_size_and_origin_do_not_depend_on_text() {
    let a = info_label("info");
    let b = info_label("a much longer line of text");
    assert_eq!((a.font_size, a.x, a.y), (b.font_size, b.x, b.y));
    assert_eq!(a.text, "info");
}
