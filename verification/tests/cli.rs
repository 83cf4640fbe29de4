use cati::cli::CLI;
use cati::kitty::{image_format, print_image, print_png, Images};
use cati::text::{has_prefix, has_suffix};
use std::path::Path;

fn args(words: &[&str]) -> Vec<String> {
    words.iter().map(|word| word.to_string()).collect()
}

#[test]
fn parse_needs_a_file() {
    assert_eq!(CLI::parse(args(&[])).unwrap_err(), "Not enough arguments");
    assert_eq!(CLI::parse(args(&["cati"])).unwrap_err(), "Not enough arguments");
    assert_eq!(CLI::parse(args(&["cati", "--ascii"])).unwrap_err(), "Not enough arguments");
    assert_eq!(CLI::parse(args(&["cati", "--", "--x"])).unwrap_err(), "Not enough arguments");
}

#[test]
fn parse_takes_the_files_in_order() {
    let cli = CLI::parse(args(&["cati", "b.png", "--verbose", "a.jpg", "-x"])).unwrap();
    assert_eq!(cli.files, args(&["b.png", "a.jpg", "-x"]));
    assert!(!cli.ascii);
}

#[test]
fn parse_finds_the_ascii_switch_anywhere() {
    let cli = CLI::parse(args(&["cati", "a.png", "--ascii"])).unwrap();
    assert!(cli.ascii);
    assert_eq!(cli.files, args(&["a.png"]));
    let cli = CLI::parse(args(&["--ascii", "a.png"])).unwrap();
    assert!(cli.ascii);
    let cli = CLI::parse(args(&["cati", "--ascii2", "--asci", "a.png"])).unwrap();
    assert!(!cli.ascii);
}

#[test]
fn parse_skips_the_program_name() {
    let cli = CLI::parse(args(&["a.png", "b.png"])).unwrap();
    assert_eq!(cli.files, args(&["b.png"]));
}

#[test]
fn parse_takes_names_that_are_not_ascii() {
    let cli = CLI::parse(args(&["cati", "bild-\u{e4}.png", "\u{2014}\u{2014}x"])).unwrap();
    assert_eq!(cli.files, args(&["bild-\u{e4}.png", "\u{2014}\u{2014}x"]));
}

#[test]
fn format_by_the_name() {
    assert_eq!(image_format("a.png"), Images::PNG);
    assert_eq!(image_format(".png"), Images::PNG);
    assert_eq!(image_format("a.PNG"), Images::JPEG);
    assert_eq!(image_format("a.jpg"), Images::JPEG);
    assert_eq!(image_format("png"), Images::JPEG);
    assert_eq!(image_format(""), Images::JPEG);
    assert_eq!(image_format("a.png.txt"), Images::JPEG);
}

#[test]
fn png_is_printed() {
    print_png();
    assert_eq!(print_image(Images::PNG, Path::new("a.png")), Ok(()));
}

#[test]
fn beginnings_and_endings() {
    assert!(has_prefix(b"--ascii", b"--"));
    assert!(has_prefix(b"--", b"--"));
    assert!(has_prefix(b"x", b""));
    assert!(!has_prefix(b"-", b"--"));
    assert!(!has_prefix(b"a--", b"--"));
    assert!(has_suffix(b"a.png", b".png"));
    assert!(has_suffix(b"", b""));
    assert!(!has_suffix(b"png", b".png"));
    assert!(!has_suffix(b".pngx", b".png"));
}
