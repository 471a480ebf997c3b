use lospec_cli::palette::{Color, Palette, Palettes, User, UtcDateTime};

fn palette(title: &str, owner: Option<&str>, colors: Vec<Color>) -> Palette {
    Palette {
        id: "1".to_string(),
        tags: Vec::new(),
        colors,
        title: title.to_string(),
        slug: "the-slug".to_string(),
        published_at: UtcDateTime { seconds: 0, nanos: 0 },
        user: owner.map(|name| User { name: name.to_string(), slug: "who".to_string() }),
        created_at: UtcDateTime { seconds: 0, nanos: 0 },
    }
}

fn two_colors() -> Vec<Color> {
    vec![Color { red: 255, green: 0, blue: 0 }, Color { red: 0, green: 128, blue: 255 }]
}

#[test]
fn listing_puts_the_swatches_on_one_line() {
    let swatches = vec!["<a>".to_string(), "<b>".to_string(), "<c>".to_string()];
    assert_eq!(
        palette("Nyx", Some("Javier"), two_colors()).listing(&swatches),
        "Nyx by Javier\n<a><b><c>\n\n"
    );
    assert_eq!(palette("Nyx", None, two_colors()).listing(&swatches), "Nyx\n<a><b><c>\n\n");
}

#[test]
fn listing_without_swatches_keeps_its_lines() {
    assert_eq!(palette("Nyx", None, Vec::new()).listing(&Vec::new()), "Nyx\n\n\n");
}

/// The text of the swatches in a rendering of a palette titled `Nyx`
/// without owner.
fn swatch_line(text: &str) -> &str {
    text.strip_prefix("Nyx\n").unwrap().strip_suffix("\n\n").unwrap()
}

// The switch of `colored` is one for the whole process, so everything
// that sets it stands in this one test.
#[test]
fn rendering_follows_the_color_switch() {
    colored::control::set_override(false);
    assert_eq!(palette("Nyx", None, two_colors()).render(), "Nyx\n    \n\n");
    assert_eq!(palette("Nyx", Some("Javier"), Vec::new()).render(), "Nyx by Javier\n\n\n");
    let page = Palettes {
        palettes: vec![
            palette("First", Some("A"), two_colors()),
            palette("Second", None, Vec::new()),
            palette("Third", None, vec![Color { red: 1, green: 2, blue: 3 }]),
        ],
    };
    assert_eq!(page.render(), "First by A\n    \n\nSecond\n\n\nThird\n  \n\n");
    assert_eq!(Palettes { palettes: Vec::new() }.render(), "");

    colored::control::set_override(true);
    let text = palette("Nyx", None, two_colors()).render();
    let swatches: Vec<&str> = swatch_line(&text).split_inclusive("  \x1b[0m").collect();
    assert_eq!(swatches.len(), 2);
    let basic = |swatch: &str| {
        (40..=47).chain(100..=107).any(|code| swatch == format!("\x1b[{}m  \x1b[0m", code))
    };
    assert!(swatches[0] == "\x1b[48;2;255;0;0m  \x1b[0m" || basic(swatches[0]), "{:?}", text);
    assert!(swatches[1] == "\x1b[48;2;0;128;255m  \x1b[0m" || basic(swatches[1]), "{:?}", text);
    // Both swatches are styled in the same way: with their own channels,
    // or with a basic background.
    assert_eq!(basic(swatches[0]), basic(swatches[1]));

    let text = palette("Nyx", None, vec![Color { red: 255, green: 0, blue: 0 }]).render();
    let shown = swatch_line(&text);
    assert!(
        shown == "\x1b[48;2;255;0;0m  \x1b[0m" || shown == "\x1b[101m  \x1b[0m",
        "{:?}",
        text
    );
    let text = palette("Nyx", None, vec![Color { red: 0, green: 0, blue: 0 }]).render();
    let shown = swatch_line(&text);
    assert!(shown == "\x1b[48;2;0;0;0m  \x1b[0m" || shown == "\x1b[40m  \x1b[0m", "{:?}", text);

    colored::control::unset_override();
}
