use rspl::render::{join_lines, render};

fn buf(lines: &[&str]) -> Vec<String> {
    lines.iter().map(|l| l.to_string()).collect()
}

#[test]
fn render_single_expression() {
    let text = render(&buf(&["1 + 1"]));
    assert_eq!(
        text,
        "\n#![allow(warnings)]\nfn main() {\n    print!(\"{:?}\", {\n        1 + 1\n    });\n}\n"
    );
}

#[test]
fn render_empty_buffer_is_a_unit_program() {
    let text = render(&buf(&[]));
    assert_eq!(
        text,
        "\n#![allow(warnings)]\nfn main() {\n    print!(\"{:?}\", {\n        \n    });\n}\n"
    );
}

#[test]
fn render_joins_lines_with_statement_separators() {
    let text = render(&buf(&["let x = 41;", "x + 1"]));
    assert_eq!(
        text,
        "\n#![allow(warnings)]\nfn main() {\n    print!(\"{:?}\", {\n        let x = 41;;\nx + 1\n    });\n}\n"
    );
}

#[test]
fn render_is_deterministic() {
    let lines = buf(&["let a = 1;", "a * 2"]);
    let first = render(&lines);
    let second = render(&lines);
    assert_eq!(first, second);
}

#[test]
fn join_lines_empty_and_single() {
    assert_eq!(join_lines(&buf(&[]), ";\n"), "");
    assert_eq!(join_lines(&buf(&["only"]), ";\n"), "only");
}

#[test]
fn join_lines_many() {
    assert_eq!(join_lines(&buf(&["a", "b", "c"]), "\n"), "a\nb\nc");
}
