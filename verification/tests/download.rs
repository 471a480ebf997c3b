use std::str::FromStr;

use std::path::PathBuf;

use lospec_cli::cmd::download::{
    export_colorset, generate_contents, generate_folder_contents, Download, ExportAction,
    ExportKind, ExportPlan, ExportStep, Format, PngSize, CATALOG, COLORSET_SUFFIX, MANIFEST_NAME,
};
use lospec_cli::palette::{Color, DecodeError, ParseColorError};
use lospec_cli::text::{decode_text, split_tokens};
use serde_json::{Number, Value};

const FORMATS: [Format; 7] = [
    Format::Colorset,
    Format::Hex,
    Format::Png,
    Format::Pal,
    Format::Ase,
    Format::Txt,
    Format::Gpl,
];

fn download(slug: &str, format: Format, size: Option<PngSize>) -> Download {
    Download::new(slug.to_string(), PathBuf::from("out"), format, size)
}

fn text(value: &str) -> Value {
    Value::String(value.to_string())
}

fn object(members: Vec<(&str, Value)>) -> Value {
    let mut map = serde_json::Map::new();
    for (key, value) in members {
        map.insert(key.to_string(), value);
    }
    Value::Object(map)
}

fn info() -> Value {
    object(vec![("author", text("xcode")), ("version", Value::Number(Number::from(1)))])
}

/// The manifest of one color as a JSON document, with the channels given
/// as they are to stand in it.
fn color_document(red: &str, green: &str, blue: &str) -> Value {
    let components = object(vec![
        ("alpha", text("1.000")),
        ("blue", text(blue)),
        ("green", text(green)),
        ("red", text(red)),
    ]);
    let color = object(vec![("color-space", text("srgb")), ("components", components)]);
    let entry = object(vec![("color", color), ("idiom", text("universal"))]);
    object(vec![("colors", Value::Array(vec![entry])), ("info", info())])
}

fn create(dir: Option<&str>) -> ExportStep {
    ExportStep::CreateDir { dir: dir.map(|d| d.to_string()) }
}

fn manifest(dir: Option<&str>, contents: String) -> ExportStep {
    ExportStep::WriteManifest { dir: dir.map(|d| d.to_string()), contents }
}

fn folder_steps() -> Vec<ExportStep> {
    vec![create(None), manifest(None, generate_folder_contents())]
}

#[test]
fn sizes_have_their_suffixes() {
    assert_eq!(PngSize::X1.slug(), "-1x");
    assert_eq!(PngSize::X8.slug(), "-8x");
    assert_eq!(PngSize::X32.slug(), "-32x");
}

#[test]
fn formats_have_their_extensions() {
    assert_eq!(Format::Colorset.file_extension(), "hex");
    assert_eq!(Format::Hex.file_extension(), "hex");
    assert_eq!(Format::Png.file_extension(), "png");
    assert_eq!(Format::Pal.file_extension(), "pal");
    assert_eq!(Format::Ase.file_extension(), "ase");
    assert_eq!(Format::Txt.file_extension(), "txt");
    assert_eq!(Format::Gpl.file_extension(), "gpl");
}

#[test]
fn only_the_colorset_is_structured() {
    for format in FORMATS {
        let expected =
            if format == Format::Colorset { ExportKind::Structured } else { ExportKind::Opaque };
        assert_eq!(format.export_kind(), expected);
    }
}

#[test]
fn names_on_disk_and_on_the_wire() {
    assert_eq!(CATALOG, "https://lospec.com/palette-list/");
    assert_eq!(MANIFEST_NAME, "Contents.json");
    assert_eq!(COLORSET_SUFFIX, ".colorset");
}

#[test]
fn download_keeps_its_request() {
    let request = Download::new(
        "fairydust-8".to_string(),
        PathBuf::from("some/where"),
        Format::Gpl,
        Some(PngSize::X8),
    );
    assert_eq!(request.slug(), "fairydust-8");
    assert_eq!(request.path(), &PathBuf::from("some/where"));
    assert_eq!(request.format(), Format::Gpl);
    assert_eq!(request.size(), Some(PngSize::X8));
}

#[test]
fn url_of_a_flat_format() {
    assert_eq!(
        download("fairydust-8", Format::Hex, None).url(),
        "https://lospec.com/palette-list/fairydust-8.hex"
    );
    assert_eq!(
        download("fairydust-8", Format::Gpl, None).url(),
        "https://lospec.com/palette-list/fairydust-8.gpl"
    );
    assert_eq!(
        download("fairydust-8", Format::Ase, None).url(),
        "https://lospec.com/palette-list/fairydust-8.ase"
    );
}

#[test]
fn url_of_the_colorset_asks_for_the_hex_list() {
    assert_eq!(
        download("fairydust-8", Format::Colorset, None).url(),
        "https://lospec.com/palette-list/fairydust-8.hex"
    );
}

#[test]
fn url_of_an_image_names_its_size() {
    assert_eq!(
        download("fairydust-8", Format::Png, Some(PngSize::X1)).url(),
        "https://lospec.com/palette-list/fairydust-8-1x.png"
    );
    assert_eq!(
        download("fairydust-8", Format::Png, Some(PngSize::X8)).url(),
        "https://lospec.com/palette-list/fairydust-8-8x.png"
    );
    assert_eq!(
        download("fairydust-8", Format::Png, Some(PngSize::X32)).url(),
        "https://lospec.com/palette-list/fairydust-8-32x.png"
    );
}

#[test]
fn url_of_an_image_defaults_to_the_largest_size() {
    assert_eq!(
        download("fairydust-8", Format::Png, None).url(),
        "https://lospec.com/palette-list/fairydust-8-32x.png"
    );
}

#[test]
fn url_ignores_the_size_of_what_is_no_image() {
    for format in FORMATS {
        if format != Format::Png {
            assert_eq!(
                download("nyx8", format, Some(PngSize::X1)).url(),
                format!("https://lospec.com/palette-list/nyx8.{}", format.file_extension())
            );
        }
    }
}

#[test]
fn folder_manifest_is_the_pretty_document() {
    let expected = serde_json::to_string_pretty(&object(vec![("info", info())])).unwrap();
    assert_eq!(generate_folder_contents(), expected);
    assert_eq!(
        generate_folder_contents(),
        "{\n  \"info\": {\n    \"author\": \"xcode\",\n    \"version\": 1\n  }\n}"
    );
}

#[test]
fn color_manifest_is_the_pretty_document() {
    let color = Color { red: 0xAA, green: 0x00, blue: 0xFF };
    let expected = serde_json::to_string_pretty(&color_document("0xAA", "0x00", "0xFF")).unwrap();
    assert_eq!(generate_contents(color), expected);
}

#[test]
fn color_manifest_has_one_srgb_entry() {
    let color = Color { red: 1, green: 2, blue: 254 };
    let document: Value = serde_json::from_str(&generate_contents(color)).unwrap();
    assert_eq!(document, color_document("0x01", "0x02", "0xFE"));
    let colors = document["colors"].as_array().unwrap();
    assert_eq!(colors.len(), 1);
    assert_eq!(colors[0]["idiom"], "universal");
    assert_eq!(colors[0]["color"]["color-space"], "srgb");
    assert_eq!(colors[0]["color"]["components"]["alpha"], "1.000");
    assert_eq!(colors[0]["color"]["components"]["red"], "0x01");
    assert_eq!(colors[0]["color"]["components"]["green"], "0x02");
    assert_eq!(colors[0]["color"]["components"]["blue"], "0xFE");
    assert_eq!(document["info"]["author"], "xcode");
    assert_eq!(document["info"]["version"], 1);
}

#[test]
fn color_manifests_of_all_channel_values() {
    for value in 0..=255u8 {
        let color = Color { red: value, green: 255 - value, blue: value ^ 0x5a };
        let expected = color_document(
            &format!("0x{:02X}", color.red),
            &format!("0x{:02X}", color.green),
            &format!("0x{:02X}", color.blue),
        );
        assert_eq!(generate_contents(color), serde_json::to_string_pretty(&expected).unwrap());
    }
}

fn colorset(body: &[u8]) -> ExportPlan {
    download("x", Format::Colorset, None).export(body)
}

fn done(steps: Vec<ExportStep>) -> ExportPlan {
    ExportPlan { steps, failure: None }
}

fn bad_color(token: &str, reason: ParseColorError) -> Option<DecodeError> {
    Some(DecodeError::InvalidColor { token: token.to_string(), reason })
}

#[test]
fn structured_export_of_three_colors() {
    let plan = colorset(b"FF0000\n00FF00\n0000FF\n");
    let red = Color { red: 255, green: 0, blue: 0 };
    let green = Color { red: 0, green: 255, blue: 0 };
    let blue = Color { red: 0, green: 0, blue: 255 };
    assert_eq!(plan.failure, None);
    assert_eq!(
        plan.steps,
        vec![
            create(None),
            manifest(None, generate_folder_contents()),
            create(Some("FF0000.colorset")),
            manifest(Some("FF0000.colorset"), generate_contents(red)),
            create(Some("00FF00.colorset")),
            manifest(Some("00FF00.colorset"), generate_contents(green)),
            create(Some("0000FF.colorset")),
            manifest(Some("0000FF.colorset"), generate_contents(blue)),
        ]
    );
    let steps = &plan.steps;
    let folders = steps.iter().filter(|s| matches!(s, ExportStep::CreateDir { dir: Some(_) }));
    assert_eq!(folders.count(), 3);
    let manifests = steps.iter().filter(|s| matches!(s, ExportStep::WriteManifest { dir: None, .. }));
    assert_eq!(manifests.count(), 1);
    let document = serde_json::to_string_pretty(&color_document("0xFF", "0x00", "0x00")).unwrap();
    assert_eq!(steps[3], manifest(Some("FF0000.colorset"), document));
}

#[test]
fn structured_export_without_a_last_newline() {
    let with = colorset(b"FF0000\n00FF00\n");
    let without = colorset(b"FF0000\n00FF00");
    assert_eq!(with, without);
    assert_eq!(with.steps.len(), 6);
    assert_eq!(with.failure, None);
}

#[test]
fn structured_export_names_folders_after_the_whole_token() {
    let color = Color { red: 255, green: 0, blue: 170 };
    assert_eq!(
        colorset(b"0xff00aa\nFF00AAzz\n"),
        done(vec![
            create(None),
            manifest(None, generate_folder_contents()),
            create(Some("0xff00aa.colorset")),
            manifest(Some("0xff00aa.colorset"), generate_contents(color)),
            create(Some("FF00AAzz.colorset")),
            manifest(Some("FF00AAzz.colorset"), generate_contents(color)),
        ])
    );
}

#[test]
fn structured_export_of_an_empty_body() {
    assert_eq!(colorset(b""), done(folder_steps()));
}

#[test]
fn structured_export_of_a_body_of_newlines() {
    assert_eq!(colorset(b"\n"), done(folder_steps()));
    assert_eq!(colorset(b"\n\n\n\n"), done(folder_steps()));
}

#[test]
fn structured_export_skips_empty_lines() {
    assert_eq!(colorset(b"\n\nFF0000\n\n\n00FF00\n\n"), colorset(b"FF0000\n00FF00"));
}

#[test]
fn structured_export_keeps_the_colors_before_a_bad_token() {
    let red = Color { red: 255, green: 0, blue: 0 };
    let plan = colorset(b"FF0000\nGG0000\n");
    assert_eq!(
        plan.steps,
        vec![
            create(None),
            manifest(None, generate_folder_contents()),
            create(Some("FF0000.colorset")),
            manifest(Some("FF0000.colorset"), generate_contents(red)),
            create(Some("GG0000.colorset")),
        ]
    );
    assert_eq!(plan.failure, bad_color("GG0000", ParseColorError::InvalidDigit));
    let written = plan.steps.iter().filter(|s| {
        matches!(s, ExportStep::WriteManifest { dir: Some(dir), .. } if dir == "GG0000.colorset")
    });
    assert_eq!(written.count(), 0);
}

#[test]
fn structured_export_fails_on_the_first_bad_token() {
    let red = Color { red: 255, green: 0, blue: 0 };
    let before = vec![
        create(None),
        manifest(None, generate_folder_contents()),
        create(Some("FF0000.colorset")),
        manifest(Some("FF0000.colorset"), generate_contents(red)),
    ];
    let plan = colorset(b"FF0000\nnope\nzzzzzz\n00FF00\n");
    assert_eq!(plan.failure, bad_color("nope", ParseColorError::InvalidLength));
    assert_eq!(plan.steps[..4], before[..]);
    assert_eq!(plan.steps[4..], [create(Some("nope.colorset"))]);
    let plan = colorset(b"FF0000\nzzzzzz\nnope\n");
    assert_eq!(plan.failure, bad_color("zzzzzz", ParseColorError::InvalidDigit));
    assert_eq!(plan.steps[..4], before[..]);
    assert_eq!(plan.steps[4..], [create(Some("zzzzzz.colorset"))]);
}

#[test]
fn structured_export_with_a_bad_first_token() {
    let plan = colorset(b"red\nFF0000\n");
    assert_eq!(
        plan.steps,
        vec![create(None), manifest(None, generate_folder_contents()), create(Some("red.colorset"))]
    );
    assert_eq!(plan.failure, bad_color("red", ParseColorError::InvalidLength));
}

#[test]
fn structured_export_takes_a_blank_line_for_a_token() {
    let plan = colorset(b"FF0000\n   \n");
    assert_eq!(plan.failure, bad_color("   ", ParseColorError::InvalidLength));
    assert_eq!(plan.steps.len(), 5);
}

#[test]
fn structured_export_fails_on_a_body_that_is_no_text() {
    let failed = ExportPlan { steps: Vec::new(), failure: Some(DecodeError::InvalidText) };
    assert_eq!(colorset(b"FF0000\n\xff\xfe\n"), failed);
    assert_eq!(colorset(b"\xc3"), failed);
}

#[test]
fn structured_export_reads_text_beyond_ascii() {
    let plan = colorset("FF0000é\nà\n".as_bytes());
    assert_eq!(plan.failure, bad_color("à", ParseColorError::InvalidLength));
    assert_eq!(plan.steps[2], create(Some("FF0000é.colorset")));
    assert_eq!(plan.steps[4], create(Some("à.colorset")));
    assert_eq!(plan.steps.len(), 5);
}

#[test]
fn opaque_export_writes_the_body_unchanged() {
    let bodies: [&[u8]; 5] =
        [b"", b"FF0000\n00FF00\n", b"\x89PNG\r\n\x1a\n\x00\x00", b"\xff\xfe\x00", b"not a color\n"];
    for format in FORMATS {
        if format != Format::Colorset {
            for body in bodies {
                let expected = done(vec![ExportStep::WriteDestination { bytes: body.to_vec() }]);
                assert_eq!(download("x", format, Some(PngSize::X8)).export(body), expected);
                assert_eq!(format.export(body), expected);
            }
        }
    }
}

#[test]
fn opaque_export_keeps_every_byte_value() {
    let body: Vec<u8> = (0..=255u8).collect();
    assert_eq!(
        download("x", Format::Png, None).export(&body),
        done(vec![ExportStep::WriteDestination { bytes: body.clone() }])
    );
}

#[test]
fn export_depends_on_the_format_and_the_body_alone() {
    for format in FORMATS {
        for body in [&b"FF0000\nGG0000\n"[..], &b"\n"[..], &b"\xff"[..]] {
            assert_eq!(
                download("a", format, None).export(body),
                download("b", format, Some(PngSize::X1)).export(body)
            );
            assert_eq!(download("a", format, None).export(body), format.export(body));
        }
    }
}

#[test]
fn colorset_plan_of_tokens() {
    let tokens = vec!["010203".to_string()];
    let color = Color { red: 1, green: 2, blue: 3 };
    assert_eq!(
        export_colorset(&tokens),
        done(vec![
            create(None),
            manifest(None, generate_folder_contents()),
            create(Some("010203.colorset")),
            manifest(Some("010203.colorset"), generate_contents(color)),
        ])
    );
    assert_eq!(export_colorset(&Vec::new()), done(folder_steps()));
    let plan = export_colorset(&vec!["010203".to_string(), "".to_string(), "040506".to_string()]);
    assert_eq!(plan.failure, bad_color("", ParseColorError::InvalidLength));
    assert_eq!(
        plan.steps,
        vec![
            create(None),
            manifest(None, generate_folder_contents()),
            create(Some("010203.colorset")),
            manifest(Some("010203.colorset"), generate_contents(color)),
            create(Some(".colorset")),
        ]
    );
}

/// Carries a plan out against a disk on which the steps at the given
/// positions fail, and gives the steps that were tried and how it ended.
fn carry_out<'a>(plan: &'a ExportPlan, failing: &[usize]) -> (Vec<&'a ExportStep>, ExportAction<'a>) {
    let mut tried = Vec::new();
    let mut last_ok = true;
    loop {
        match plan.next(tried.len(), last_ok) {
            ExportAction::Perform(step) => {
                last_ok = !failing.contains(&tried.len());
                tried.push(step);
            }
            end => return (tried, end),
        }
    }
}

#[test]
fn a_plan_is_carried_out_in_order() {
    let plan = colorset(b"FF0000\n00FF00\n");
    let (tried, end) = carry_out(&plan, &[]);
    assert_eq!(tried, plan.steps.iter().collect::<Vec<_>>());
    assert_eq!(end, ExportAction::Finish);
    assert_eq!(plan.next(0, true), ExportAction::Perform(&plan.steps[0]));
    assert_eq!(plan.next(5, true), ExportAction::Perform(&plan.steps[5]));
    assert_eq!(plan.next(6, true), ExportAction::Finish);
    assert_eq!(plan.next(7, true), ExportAction::Finish);
}

#[test]
fn a_plan_stops_at_the_first_step_that_fails_on_disk() {
    let plan = colorset(b"FF0000\n00FF00\n");
    let (tried, end) = carry_out(&plan, &[3, 4]);
    assert_eq!(tried, plan.steps[..4].iter().collect::<Vec<_>>());
    assert_eq!(end, ExportAction::Stop);
    let (tried, end) = carry_out(&plan, &[0]);
    assert_eq!(tried.len(), 1);
    assert_eq!(end, ExportAction::Stop);
    let (tried, end) = carry_out(&plan, &[5]);
    assert_eq!(tried.len(), 6);
    assert_eq!(end, ExportAction::Stop);
    assert_eq!(plan.next(0, false), ExportAction::Stop);
    assert_eq!(plan.next(9, false), ExportAction::Stop);
}

#[test]
fn a_plan_fails_after_its_last_step() {
    let plan = colorset(b"FF0000\nGG0000\n");
    let (tried, end) = carry_out(&plan, &[]);
    assert_eq!(tried, plan.steps.iter().collect::<Vec<_>>());
    assert_eq!(tried.len(), 5);
    let failure = DecodeError::InvalidColor {
        token: "GG0000".to_string(),
        reason: ParseColorError::InvalidDigit,
    };
    assert_eq!(end, ExportAction::Fail(&failure));
    let (tried, end) = carry_out(&plan, &[2]);
    assert_eq!(tried.len(), 3);
    assert_eq!(end, ExportAction::Stop);
    let none = colorset(b"\xff");
    let (tried, end) = carry_out(&none, &[]);
    assert!(tried.is_empty());
    assert_eq!(end, ExportAction::Fail(&DecodeError::InvalidText));
}

#[test]
fn tokens_are_the_lines_that_are_not_empty() {
    assert_eq!(split_tokens(""), Vec::<String>::new());
    assert_eq!(split_tokens("\n"), Vec::<String>::new());
    assert_eq!(split_tokens("a"), vec!["a"]);
    assert_eq!(split_tokens("a\n"), vec!["a"]);
    assert_eq!(split_tokens("\na"), vec!["a"]);
    assert_eq!(split_tokens("a\nb"), vec!["a", "b"]);
    assert_eq!(split_tokens("a\n\n\nb\n\n"), vec!["a", "b"]);
    assert_eq!(split_tokens("ab cd\r\n ef"), vec!["ab cd\r", " ef"]);
}

#[test]
fn tokens_agree_with_the_standard_split() {
    for body in ["", "\n\n", "FF0000\n00FF00\n0000FF\n", "x\n\ny", "\nx\ny\n\n", "é\nà\n\n€"] {
        let expected: Vec<&str> = body.split("\n").filter(|s| !s.is_empty()).collect();
        assert_eq!(split_tokens(body), expected);
    }
}

#[test]
fn text_is_decoded_as_utf8() {
    assert_eq!(decode_text(b"FF0000\n"), Some("FF0000\n"));
    assert_eq!(decode_text("é€".as_bytes()), Some("é€"));
    assert_eq!(decode_text(b""), Some(""));
    assert_eq!(decode_text(b"\xff"), None);
    assert_eq!(decode_text(b"\xed\xa0\x80"), None);
    assert_eq!(decode_text(b"\xc0\x80"), None);
}

#[test]
fn url_depends_on_slug_format_and_size() {
    assert_eq!(Format::Hex.url("nyx8", None), "https://lospec.com/palette-list/nyx8.hex");
    assert_eq!(
        Format::Png.url("nyx8", Some(PngSize::X8)),
        "https://lospec.com/palette-list/nyx8-8x.png"
    );
    assert_eq!(Format::Png.url("nyx8", None), "https://lospec.com/palette-list/nyx8-32x.png");
    for format in FORMATS {
        for size in [None, Some(PngSize::X1), Some(PngSize::X8), Some(PngSize::X32)] {
            assert_eq!(download("nyx8", format, size).url(), format.url("nyx8", size));
        }
    }
}
