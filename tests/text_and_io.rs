use ebb::backend::BackendType;
use ebb::conf::{editor_command, Config};
use ebb::format::FormatType;
use ebb::io::{make_wrapper, Dir, DEFAULT_WRAPPER};
use ebb::text::{decimal_string, str_eq_ignore_case, trim};

fn config() -> Config {
    Config::new(
        String::from("Ann"),
        String::from("Notes"),
        BackendType::S3,
        String::from("nano"),
    )
}

#[test]
fn config_defaults_to_markdown() {
    let c = config();
    assert_eq!(c.author, "Ann");
    assert_eq!(c.blog_name, "Notes");
    assert_eq!(c.backend, BackendType::S3);
    assert_eq!(c.format, FormatType::MD);
    assert_eq!(c.editor, "nano");
}

#[test]
fn editor_falls_back_to_vi() {
    assert_eq!(editor_command(Some(&config())), "nano");
    assert_eq!(editor_command(None), "vi");
}

#[test]
fn dir_names() {
    assert_eq!(Dir::Root.to_string(), "");
    assert_eq!(Dir::Posts.to_string(), "posts");
    assert_eq!(Dir::Built.to_string(), "built");
}

#[test]
fn wrapper_is_filled() {
    let w = make_wrapper("<t>{{ title }}</t><a>{{ author }}</a>{{ title }}", &config());
    assert_eq!(w, "<t>Notes</t><a>Ann</a>Notes");
    let d = make_wrapper(DEFAULT_WRAPPER, &config());
    assert!(!d.contains("{{ title }}"));
    assert!(!d.contains("{{ author }}"));
    assert!(d.contains("{{ content }}"));
}

#[test]
fn wrapper_filling_matches_std_replace() {
    for t in [
        "",
        "{{ author }}{{ author }}",
        "{{ title }} and {{ title }}{{ title }}",
        "{{ author }} {{ title",
        "{{ {{ author }} }}",
        "no tags here, héllo wörld",
    ] {
        let expected = t.replace("{{ author }}", "Ann").replace("{{ title }}", "Notes");
        assert_eq!(make_wrapper(t, &config()), expected);
    }
}

#[test]
fn trim_matches_std() {
    for s in [
        "",
        "   ",
        "  a b  ",
        "\t\n x \r\n",
        "\u{a0}\u{3000}wide\u{2009}\u{85}",
        "\u{200b}zero width\u{200b}",
        "\u{1680}\u{202f}\u{205f}",
        "é",
    ] {
        assert_eq!(trim(s), s.trim());
    }
}

#[test]
fn decimal_numbers() {
    for n in [0u64, 7, 10, 99, 100, 1234567890, u64::MAX] {
        assert_eq!(decimal_string(n), n.to_string());
    }
}

#[test]
fn ascii_case_comparison() {
    assert!(str_eq_ignore_case("HeLLo", "hello"));
    assert!(!str_eq_ignore_case("hello", "hell"));
    assert!(!str_eq_ignore_case("é", "É"));
    assert!(str_eq_ignore_case("ſ", "S"));
    assert!(str_eq_ignore_case("ı", "I"));
}
