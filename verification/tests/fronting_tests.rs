//! The canonical status-text formatter.

use pluralsync::fronting::Fronter;
use pluralsync::fronting::FrontingFormat;
use pluralsync::fronting::format_fronting_status;

fn fronters(names: &[&str]) -> Vec<Fronter> {
    names.iter().map(|n| Fronter { name: n.to_string() }).collect()
}

fn plain_format() -> FrontingFormat {
    FrontingFormat {
        max_length: None,
        prefix: "Fronting: ".to_string(),
        status_if_no_fronters: "no fronters".to_string(),
        truncate_names_to_length_if_status_too_long: None,
    }
}

#[test]
fn empty_snapshot_uses_placeholder() {
    let r = format_fronting_status(&plain_format(), &fronters(&[]));
    assert_eq!(r, "no fronters");
}

#[test]
fn names_are_joined_after_the_prefix() {
    let r = format_fronting_status(&plain_format(), &fronters(&["Alice"]));
    assert_eq!(r, "Fronting: Alice");

    let r = format_fronting_status(&plain_format(), &fronters(&["Alice", "Bob", "Cleo"]));
    assert_eq!(r, "Fronting: Alice, Bob, Cleo");
}

#[test]
fn long_status_truncates_names_when_configured() {
    let format = FrontingFormat {
        max_length: Some(20),
        prefix: "F: ".to_string(),
        status_if_no_fronters: "-".to_string(),
        truncate_names_to_length_if_status_too_long: Some(3),
    };
    // Short enough: left alone.
    let r = format_fronting_status(&format, &fronters(&["Alice"]));
    assert_eq!(r, "F: Alice");
    // Over the bound: every name is cut to three characters.
    let r = format_fronting_status(&format, &fronters(&["Alexandra", "Bartholomew"]));
    assert_eq!(r, "F: Ale, Bar");
}

#[test]
fn too_long_without_truncation_rule_stays_whole() {
    let format = FrontingFormat {
        max_length: Some(5),
        prefix: "F: ".to_string(),
        status_if_no_fronters: "-".to_string(),
        truncate_names_to_length_if_status_too_long: None,
    };
    let r = format_fronting_status(&format, &fronters(&["Alexandra"]));
    assert_eq!(r, "F: Alexandra");
}
