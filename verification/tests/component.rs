use vin_ui::models::entry::{Entry, PathKind};
use vin_ui::utils::component::{add_utility, get_available_components, UTILS_AREA, UTILS_FILE};

const CN: &str = "export function cn(...inputs: string[]) {\n  return inputs.join(\" \");\n}\n";

fn entry(path: &str, kind: PathKind) -> Entry {
    Entry { path: path.to_string(), kind }
}

/// The text of the file after a merge: what is written, or what was there.
fn merge(aggregate: &str, snippet: Option<&str>) -> String {
    add_utility(aggregate.to_string(), snippet).unwrap_or(aggregate.to_string())
}

#[test]
fn utility_goes_into_an_empty_file_as_it_is() {
    assert_eq!(add_utility(String::new(), Some(CN)), Some(CN.to_string()));
}

#[test]
fn utility_is_appended_after_a_blank_line() {
    let written = add_utility("const a = 1;".to_string(), Some("const b = 2;"));
    assert_eq!(written, Some("const a = 1;\n\nconst b = 2;".to_string()));
}

#[test]
fn utility_that_is_present_is_not_written_again() {
    let aggregate = format!("// helpers\n\n{}", CN);
    assert_eq!(add_utility(aggregate, Some(CN)), None);
}

#[test]
fn utility_without_a_snippet_file_is_a_no_op() {
    assert_eq!(add_utility("const a = 1;".to_string(), None), None);
    assert_eq!(add_utility(String::new(), None), None);
}

#[test]
fn utility_merge_is_idempotent() {
    for aggregate in ["", "const a = 1;\n", CN, "x"] {
        let once = merge(aggregate, Some(CN));
        let twice = merge(&once, Some(CN));
        assert_eq!(once, twice);
        assert_eq!(add_utility(once, Some(CN)), None);
    }
}

#[test]
fn utility_merge_keeps_the_old_text_in_front() {
    let once = merge("const a = 1;\n", Some(CN));
    assert!(once.starts_with("const a = 1;\n"));
    assert!(once.ends_with(CN));
}

#[test]
fn utility_inside_a_larger_block_counts_as_present() {
    // The snippet is part of a longer function that the file holds already.
    let aggregate = "export function cnx() { return 1; }".to_string();
    assert_eq!(add_utility(aggregate, Some("function cn")), None);
}

#[test]
fn utility_differing_in_one_character_is_appended() {
    let written = add_utility("function cn() {}".to_string(), Some("function cn() { }"));
    assert_eq!(written, Some("function cn() {}\n\nfunction cn() { }".to_string()));
}

#[test]
fn empty_snippet_is_present_in_every_file() {
    assert_eq!(add_utility("abc".to_string(), Some("")), None);
    assert_eq!(add_utility(String::new(), Some("")), None);
}

#[test]
fn utility_with_characters_beyond_ascii_is_found() {
    let aggregate = "// größer\nconst π = 3;".to_string();
    assert_eq!(add_utility(aggregate.clone(), Some("const π = 3;")), None);
    assert_eq!(
        add_utility(aggregate, Some("const τ = 6;")),
        Some("// größer\nconst π = 3;\n\nconst τ = 6;".to_string())
    );
}

#[test]
fn utility_area_and_file_have_their_names() {
    assert_eq!(UTILS_AREA, "utils");
    assert_eq!(UTILS_FILE, "utils.ts");
}

#[test]
fn components_are_the_tsx_files_in_ascending_order() {
    let listing = vec![
        entry("Card.tsx", PathKind::File),
        entry("Button.tsx", PathKind::File),
        entry("Button.json", PathKind::File),
        entry("utils", PathKind::Directory),
        entry("Alert.tsx", PathKind::File),
    ];
    assert_eq!(get_available_components(&listing), vec!["Alert", "Button", "Card"]);
}

#[test]
fn components_leave_out_what_is_not_a_regular_file() {
    let listing = vec![
        entry("Folder.tsx", PathKind::Directory),
        entry("Socket.tsx", PathKind::Other),
        entry("Gone.tsx", PathKind::Missing),
        entry("Real.tsx", PathKind::File),
    ];
    assert_eq!(get_available_components(&listing), vec!["Real"]);
}

#[test]
fn components_need_the_exact_ending_and_a_name() {
    let listing = vec![
        entry(".tsx", PathKind::File),
        entry("tsx", PathKind::File),
        entry("a.ts", PathKind::File),
        entry("b.TSX", PathKind::File),
        entry("c.tsx.bak", PathKind::File),
        entry("d.test.tsx", PathKind::File),
        entry("e.tsx", PathKind::File),
    ];
    assert_eq!(get_available_components(&listing), vec!["d.test", "e"]);
}

#[test]
fn components_are_ordered_by_code_point() {
    let listing = vec![
        entry("b.tsx", PathKind::File),
        entry("a.tsx", PathKind::File),
        entry("B.tsx", PathKind::File),
        entry("ab.tsx", PathKind::File),
        entry("Ä.tsx", PathKind::File),
        entry("a.tsx", PathKind::File),
    ];
    assert_eq!(get_available_components(&listing), vec!["B", "a", "a", "ab", "b", "Ä"]);
}

#[test]
fn components_of_an_empty_store_are_none() {
    assert_eq!(get_available_components(&Vec::new()), Vec::<String>::new());
}
