//! Specification data of a measurement range (resolution, accuracy, input
//! impedance, notes from the device manual) and the text shown for it.

use vstd::prelude::*;
use vstd::string::StringExecFns;

use crate::text::{join, joined, views};

verus! {

/// Accuracy of a range, possibly for one frequency band only.
#[derive(Debug, Clone, Copy)]
pub struct AccuracyBand {
    /// The frequency band this accuracy holds for (AC modes), if any.
    pub freq_range: Option<&'static str>,
    /// The accuracy, e.g. "0.05%+5".
    pub accuracy: &'static str,
}

/// Specification of one measurement range.
#[derive(Debug, Clone, Copy)]
pub struct SpecInfo {
    /// Resolution, e.g. "0.01mV".
    pub resolution: &'static str,
    /// Accuracy, one entry per frequency band.
    pub accuracy: &'static [AccuracyBand],
}

/// Specification common to all ranges of a mode.
#[derive(Debug, Clone, Copy)]
pub struct ModeSpecInfo {
    /// Input impedance, e.g. "~10MΩ", if the manual gives one.
    pub input_impedance: Option<&'static str>,
    /// Further notes from the manual.
    pub notes: &'static [&'static str],
}

/// How a line of the specifications panel is drawn.
#[derive(Debug, Clone, Copy, PartialEq, Eq, Structural)]
pub enum LineStyle {
    /// The panel title.
    Title,
    /// A main entry.
    Main,
    /// A detail under an entry (frequency bands, notes), drawn smaller and weaker.
    Detail,
}

/// The text of an optional field, or `default` when it is absent.
pub open spec fn text_or(o: Option<&'static str>, default: Seq<char>) -> Seq<char> {
    match o {
        Some(t) => t@,
        None => default,
    }
}

/// `±(<accuracy>)`.
pub open spec fn plus_minus(accuracy: Seq<char>) -> Seq<char> {
    "\u{00B1}("@ + accuracy + ")"@
}

/// The accuracy shown in one line: the only band's accuracy, or the first
/// band's accuracy followed by its frequency band.
pub open spec fn accuracy_summary(spec: SpecInfo) -> Seq<char> {
    let first = spec.accuracy@[0];
    if spec.accuracy@.len() == 1 {
        plus_minus(first.accuracy@)
    } else {
        plus_minus(first.accuracy@) + " "@ + text_or(first.freq_range, Seq::empty())
    }
}

/// The parts of a one-line summary: resolution, accuracy and, when known,
/// the input impedance, each resolution and accuracy after its label.
pub open spec fn summary_parts(
    spec: SpecInfo,
    mode_spec: Option<ModeSpecInfo>,
    res_label: Seq<char>,
    acc_label: Seq<char>,
) -> Seq<Seq<char>> {
    let base = seq![res_label + spec.resolution@, acc_label + accuracy_summary(spec)];
    match mode_spec {
        Some(ms) => match ms.input_impedance {
            Some(z) => base.push(z@),
            None => base,
        },
        None => base,
    }
}

/// The line of one frequency band in the panel.
pub open spec fn band_line(band: AccuracyBand) -> Seq<char> {
    "  "@ + text_or(band.freq_range, "???"@) + "  "@ + plus_minus(band.accuracy@)
}

/// The accuracy lines of the panel: one line for a single band, else a
/// heading and one detail line per band.
pub open spec fn accuracy_lines(bands: Seq<AccuracyBand>) -> Seq<(Seq<char>, LineStyle)> {
    if bands.len() == 1 {
        seq![("Accuracy  "@ + plus_minus(bands[0].accuracy@), LineStyle::Main)]
    } else {
        seq![("Accuracy"@, LineStyle::Main)] + bands.map_values(
            |b: AccuracyBand| (band_line(b), LineStyle::Detail),
        )
    }
}

/// The lines of the panel that come from the mode: input impedance, then notes.
pub open spec fn mode_lines(mode_spec: Option<ModeSpecInfo>) -> Seq<(Seq<char>, LineStyle)> {
    match mode_spec {
        None => Seq::empty(),
        Some(ms) => {
            let z = match ms.input_impedance {
                Some(z) => seq![("Input Z  "@ + z@, LineStyle::Main)],
                None => Seq::empty(),
            };
            z + ms.notes@.map_values(|n: &'static str| (n@, LineStyle::Detail))
        },
    }
}

/// All lines of the specifications panel, in order.
pub open spec fn panel_lines(spec: SpecInfo, mode_spec: Option<ModeSpecInfo>) -> Seq<
    (Seq<char>, LineStyle),
> {
    seq![("Specifications"@, LineStyle::Title), ("Resolution  "@ + spec.resolution@, LineStyle::Main)]
        + accuracy_lines(spec.accuracy@) + mode_lines(mode_spec)
}

/// The character views of panel lines.
pub open spec fn line_views(lines: Seq<(String, LineStyle)>) -> Seq<(Seq<char>, LineStyle)> {
    lines.map_values(|l: (String, LineStyle)| (l.0@, l.1))
}

/// The mode part of an optional reference.
pub open spec fn deref_opt(o: Option<&ModeSpecInfo>) -> Option<ModeSpecInfo> {
    match o {
        Some(ms) => Some(*ms),
        None => None,
    }
}

/// `±(<accuracy>)`.
fn plus_minus_text(accuracy: &str) -> (s: String)
    ensures
        s@ == plus_minus(accuracy@),
{
    String::from_str("\u{00B1}(").concat(accuracy).concat(")")
}

/// The accuracy shown in one line (see [`accuracy_summary`]).
pub fn accuracy_summary_text(spec: &SpecInfo) -> (s: String)
    requires
        spec.accuracy@.len() >= 1,
    ensures
        s@ == accuracy_summary(*spec),
{
    let band = &spec.accuracy[0];
    if spec.accuracy.len() == 1 {
        plus_minus_text(band.accuracy)
    } else {
        let freq = match band.freq_range {
            Some(f) => f,
            None => "",
        };
        proof {
            reveal_strlit("");
        }
        plus_minus_text(band.accuracy).concat(" ").concat(freq)
    }
}

/// The parts of a one-line summary (see [`summary_parts`]).
fn summary_part_texts(
    spec: &SpecInfo,
    mode_spec: Option<&ModeSpecInfo>,
    res_label: &str,
    acc_label: &str,
) -> (parts: Vec<String>)
    requires
        spec.accuracy@.len() >= 1,
    ensures
        views(parts@) == summary_parts(*spec, deref_opt(mode_spec), res_label@, acc_label@),
{
    let mut parts: Vec<String> = Vec::new();
    parts.push(String::from_str(res_label).concat(spec.resolution));
    parts.push(String::from_str(acc_label).concat(accuracy_summary_text(spec).as_str()));
    let ghost base = views(parts@);
    assert(base =~= seq![res_label@ + spec.resolution@, acc_label@ + accuracy_summary(*spec)]);
    if let Some(ms) = mode_spec {
        if let Some(z) = ms.input_impedance {
            parts.push(String::from_str(z));
            assert(views(parts@) =~= base.push(z@));
        }
    }
    parts
}

/// Compact single-line specs for the narrow layout:
/// `Res: <resolution>  Acc: <accuracy>[  <input impedance>]`.
pub fn compact_spec_text(spec: &SpecInfo, mode_spec: Option<&ModeSpecInfo>) -> (s: String)
    requires
        spec.accuracy@.len() >= 1,
    ensures
        s@ == joined(summary_parts(*spec, deref_opt(mode_spec), "Res: "@, "Acc: "@), "  "@),
{
    let parts = summary_part_texts(spec, mode_spec, "Res: ", "Acc: ");
    join(&parts, "  ")
}

/// Inline pipe-separated specs for big meter mode:
/// `Resolution <resolution>  |  Accuracy <accuracy>[  |  <input impedance>]`.
pub fn inline_spec_text(spec: &SpecInfo, mode_spec: Option<&ModeSpecInfo>) -> (s: String)
    requires
        spec.accuracy@.len() >= 1,
    ensures
        s@ == joined(
            summary_parts(*spec, deref_opt(mode_spec), "Resolution "@, "Accuracy "@),
            "  |  "@,
        ),
{
    let parts = summary_part_texts(spec, mode_spec, "Resolution ", "Accuracy ");
    join(&parts, "  |  ")
}

/// The lines of the full specifications panel, each with its style.
pub fn spec_panel_lines(spec: &SpecInfo, mode_spec: Option<&ModeSpecInfo>) -> (lines: Vec<
    (String, LineStyle),
>)
    ensures
        line_views(lines@) == panel_lines(*spec, deref_opt(mode_spec)),
{
    let mut lines: Vec<(String, LineStyle)> = Vec::new();
    lines.push((String::from_str("Specifications"), LineStyle::Title));
    lines.push((String::from_str("Resolution  ").concat(spec.resolution), LineStyle::Main));
    let ghost head = line_views(lines@);
    assert(head =~= seq![
        ("Specifications"@, LineStyle::Title),
        ("Resolution  "@ + spec.resolution@, LineStyle::Main),
    ]);
    let bands = spec.accuracy;
    if bands.len() == 1 {
        let acc = String::from_str("Accuracy  ").concat(plus_minus_text(bands[0].accuracy).as_str());
        lines.push((acc, LineStyle::Main));
        assert(line_views(lines@) =~= head + accuracy_lines(bands@));
    } else {
        lines.push((String::from_str("Accuracy"), LineStyle::Main));
        let ghost with_heading = line_views(lines@);
        assert(with_heading =~= head + seq![("Accuracy"@, LineStyle::Main)]);
        let n = bands.len();
        let mut i: usize = 0;
        while i < n
            invariant
                n == bands@.len(),
                i <= n,
                line_views(lines@) == with_heading + bands@.subrange(0, i as int).map_values(
                    |b: AccuracyBand| (band_line(b), LineStyle::Detail),
                ),
            decreases n - i,
        {
            let band = &bands[i];
            let freq = match band.freq_range {
                Some(f) => f,
                None => "???",
            };
            let line = String::from_str("  ").concat(freq).concat("  ").concat(
                plus_minus_text(band.accuracy).as_str(),
            );
            assert(line@ == band_line(bands@[i as int]));
            let ghost prev = line_views(lines@);
            lines.push((line, LineStyle::Detail));
            assert(line_views(lines@) =~= prev.push((band_line(bands@[i as int]), LineStyle::Detail)));
            assert(bands@.subrange(0, i + 1) =~= bands@.subrange(0, i as int).push(bands@[i as int]));
            assert(line_views(lines@) =~= with_heading + bands@.subrange(0, i + 1).map_values(
                |b: AccuracyBand| (band_line(b), LineStyle::Detail),
            ));
            i = i + 1;
        }
        assert(bands@.subrange(0, n as int) =~= bands@);
        assert(line_views(lines@) =~= head + accuracy_lines(bands@));
    }
    let ghost upto_accuracy = line_views(lines@);
    if let Some(ms) = mode_spec {
        if let Some(z) = ms.input_impedance {
            lines.push((String::from_str("Input Z  ").concat(z), LineStyle::Main));
        }
        let ghost with_z = line_views(lines@);
        assert(with_z =~= upto_accuracy + match ms.input_impedance {
            Some(z) => seq![("Input Z  "@ + z@, LineStyle::Main)],
            None => Seq::empty(),
        });
        let notes = ms.notes;
        let m = notes.len();
        let mut k: usize = 0;
        while k < m
            invariant
                m == notes@.len(),
                k <= m,
                line_views(lines@) == with_z + notes@.subrange(0, k as int).map_values(
                    |t: &'static str| (t@, LineStyle::Detail),
                ),
            decreases m - k,
        {
            let ghost prev = line_views(lines@);
            lines.push((String::from_str(notes[k]), LineStyle::Detail));
            assert(line_views(lines@) =~= prev.push((notes@[k as int]@, LineStyle::Detail)));
            assert(notes@.subrange(0, k + 1) =~= notes@.subrange(0, k as int).push(notes@[k as int]));
            assert(line_views(lines@) =~= with_z + notes@.subrange(0, k + 1).map_values(
                |t: &'static str| (t@, LineStyle::Detail),
            ));
            k = k + 1;
        }
        assert(notes@.subrange(0, m as int) =~= notes@);
        assert(line_views(lines@) =~= upto_accuracy + mode_lines(deref_opt(mode_spec)));
    } else {
        assert(line_views(lines@) =~= upto_accuracy + mode_lines(deref_opt(mode_spec)));
    }
    lines
}

} // verus!
