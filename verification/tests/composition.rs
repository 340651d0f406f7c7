//! Tests for the source composer.

use vulkanology::composer::{compose, Fragment};
use vulkanology::errors::HarnessError;

fn fragment(path: &str, content: &str) -> Fragment {
    Fragment { path: path.as_bytes().to_vec(), content: content.as_bytes().to_vec() }
}

/// An empty fragment list is rejected before any output exists.
#[test]
fn empty_fragment_list_is_a_configuration_error() {
    let fragments: Vec<Fragment> = Vec::new();
    assert_eq!(compose(&fragments), Err(HarnessError::ConfigurationError));
}

/// Two fragments of three and two lines compose to exactly six lines: the
/// first fragment verbatim, one directive naming the second fragment's
/// path and resetting to line 1, then the second fragment verbatim.
#[test]
fn two_fragments_get_one_directive_between_them() {
    let f1 = fragment("target/a.in", "alpha\nbeta\ngamma\n");
    let f2 = fragment("target/b.in", "delta\nepsilon\n");
    let out = compose(&vec![f1, f2]).unwrap();
    let text = String::from_utf8(out).unwrap();
    let expected = "alpha\nbeta\ngamma\n#line 1 \"target/b.in\"\ndelta\nepsilon\n";
    assert_eq!(text, expected);
    assert_eq!(text.lines().count(), 6);
    let directive = text.lines().nth(3).unwrap();
    assert_eq!(directive, "#line 1 \"target/b.in\"");
}

/// Composition is deterministic: identical fragment lists give
/// byte-identical output across repeated invocations.
#[test]
fn composition_is_deterministic() {
    let make = || {
        vec![
            fragment("shaders/header.comp", "void main() {\n"),
            fragment("shaders/body.comp", "  do_work();\n}\n"),
        ]
    };
    let first = compose(&make()).unwrap();
    let second = compose(&make()).unwrap();
    assert_eq!(first, second);
}

/// A single fragment composes to its content verbatim, with no directive.
#[test]
fn single_fragment_is_verbatim() {
    let f1 = fragment("only.comp", "one\ntwo\n");
    let out = compose(&vec![f1]).unwrap();
    assert_eq!(out, b"one\ntwo\n".to_vec());
}
