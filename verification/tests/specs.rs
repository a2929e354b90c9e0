use ut61eplus_lib::specs::{
    accuracy_summary_text, compact_spec_text, inline_spec_text, spec_panel_lines, AccuracyBand,
    LineStyle, ModeSpecInfo, SpecInfo,
};

const DC: SpecInfo = SpecInfo {
    resolution: "0.01mV",
    accuracy: &[AccuracyBand { freq_range: None, accuracy: "0.05%+5" }],
};

const AC: SpecInfo = SpecInfo {
    resolution: "0.001V",
    accuracy: &[
        AccuracyBand { freq_range: Some("40Hz-1kHz"), accuracy: "0.8%+3" },
        AccuracyBand { freq_range: None, accuracy: "2%+5" },
    ],
};

const MODE: ModeSpecInfo = ModeSpecInfo {
    input_impedance: Some("~10MΩ"),
    notes: &["True RMS", "Overload protection 1000V"],
};

#[test]
fn accuracy_summary_single_and_multi() {
    assert_eq!(accuracy_summary_text(&DC), "\u{00B1}(0.05%+5)");
    assert_eq!(accuracy_summary_text(&AC), "\u{00B1}(0.8%+3) 40Hz-1kHz");
}

#[test]
fn compact_and_inline_text() {
    assert_eq!(
        compact_spec_text(&DC, Some(&MODE)),
        "Res: 0.01mV  Acc: \u{00B1}(0.05%+5)  ~10MΩ"
    );
    assert_eq!(compact_spec_text(&DC, None), "Res: 0.01mV  Acc: \u{00B1}(0.05%+5)");
    assert_eq!(
        inline_spec_text(&AC, Some(&MODE)),
        "Resolution 0.001V  |  Accuracy \u{00B1}(0.8%+3) 40Hz-1kHz  |  ~10MΩ"
    );
}

#[test]
fn panel_lines_single_band() {
    let lines = spec_panel_lines(&DC, None);
    assert_eq!(
        lines,
        vec![
            ("Specifications".to_string(), LineStyle::Title),
            ("Resolution  0.01mV".to_string(), LineStyle::Main),
            ("Accuracy  \u{00B1}(0.05%+5)".to_string(), LineStyle::Main),
        ]
    );
}

#[test]
fn panel_lines_bands_and_notes() {
    let lines = spec_panel_lines(&AC, Some(&MODE));
    assert_eq!(
        lines,
        vec![
            ("Specifications".to_string(), LineStyle::Title),
            ("Resolution  0.001V".to_string(), LineStyle::Main),
            ("Accuracy".to_string(), LineStyle::Main),
            ("  40Hz-1kHz  \u{00B1}(0.8%+3)".to_string(), LineStyle::Detail),
            ("  ???  \u{00B1}(2%+5)".to_string(), LineStyle::Detail),
            ("Input Z  ~10MΩ".to_string(), LineStyle::Main),
            ("True RMS".to_string(), LineStyle::Detail),
            ("Overload protection 1000V".to_string(), LineStyle::Detail),
        ]
    );
}
