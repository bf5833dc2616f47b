use sheet_codegen::job::Input;
use sheet_codegen::job::JobError;
use sheet_codegen::pipeline::all_succeeded;
use sheet_codegen::pipeline::process_sheet;

fn s(x: &str) -> String {
    x.to_string()
}

fn row(cells: &[&str]) -> Vec<String> {
    cells.iter().map(|c| c.to_string()).collect()
}

fn job() -> Input {
    Input {
        headers: vec![s("##var"), s("type"), s("remark")],
        work_sheet_name: s("Sheet1"),
        class_name: s("Player"),
        in_path: s("schema.xlsx"),
        out_path: s("Player.cs"),
        namespace: s("Game"),
    }
}

fn rendered(namespace: &str, class_name: &str, fields: &[(&str, &str, &str)]) -> String {
    let mut out = format!("namespace {}\n{{\n    public class {}\n    {{\n", namespace, class_name);
    for (name, field_type, remark) in fields {
        out.push_str(&format!(
            "        /// {}\n        public {} {};\n",
            remark, field_type, name
        ));
    }
    out.push_str("    }\n}\n");
    out
}

#[test]
fn one_data_row_yields_one_field() {
    let rows = vec![row(&["##var", "type", "remark"]), row(&["id", "int", "the identifier"])];
    let text = process_sheet(&job(), &rows).unwrap();
    assert_eq!(text, rendered("Game", "Player", &[("string", "int", "the identifier")]));
}

#[test]
fn name_cell_text_is_never_emitted() {
    let rows = vec![row(&["##var", "type", "remark"]), row(&["hitpoints", "int", "health"])];
    let text = process_sheet(&job(), &rows).unwrap();
    assert!(!text.contains("hitpoints"));
    assert!(text.contains("public int string;"));
}

#[test]
fn legend_row_yields_no_field() {
    let rows = vec![
        row(&["##var", "type", "remark"]),
        row(&["##legend", "x", "y"]),
        row(&["hp", "int", "health"]),
    ];
    let text = process_sheet(&job(), &rows).unwrap();
    assert_eq!(text, rendered("Game", "Player", &[("string", "int", "health")]));
    assert!(!text.contains("legend"));
}

#[test]
fn field_order_follows_row_order() {
    let rows = vec![
        row(&["##var", "type", "remark"]),
        row(&["hp", "int", "health"]),
        row(&["name", "str", "display name"]),
        row(&["pos", "vec3", "position"]),
    ];
    let text = process_sheet(&job(), &rows).unwrap();
    let expected = rendered(
        "Game",
        "Player",
        &[
            ("string", "int", "health"),
            ("string", "str", "display name"),
            ("string", "vec3", "position"),
        ],
    );
    assert_eq!(text, expected);
}

#[test]
fn columns_bind_by_declared_role_not_sheet_order() {
    // The sheet physically orders the columns remark, type, name; the
    // declared roles still land on the right columns.
    let rows = vec![row(&["remark", "type", "##var"]), row(&["the identifier", "int", "id"])];
    let text = process_sheet(&job(), &rows).unwrap();
    assert_eq!(text, rendered("Game", "Player", &[("string", "int", "the identifier")]));
}

#[test]
fn sentinel_is_checked_on_the_name_column() {
    let rows = vec![row(&["remark", "type", "##var"]), row(&["x", "y", "##legend"])];
    let text = process_sheet(&job(), &rows).unwrap();
    assert_eq!(text, rendered("Game", "Player", &[]));
}

#[test]
fn no_data_rows_renders_an_empty_class() {
    let rows = vec![row(&["##var", "type", "remark"])];
    let text = process_sheet(&job(), &rows).unwrap();
    assert_eq!(text, rendered("Game", "Player", &[]));
}

#[test]
fn generation_is_deterministic() {
    let rows = vec![
        row(&["##var", "type", "remark"]),
        row(&["hp", "int", "health"]),
        row(&["##legend", "", ""]),
        row(&["name", "str", "line one\nline two"]),
    ];
    let first = process_sheet(&job(), &rows).unwrap();
    let second = process_sheet(&job(), &rows).unwrap();
    assert_eq!(first.as_bytes(), second.as_bytes());
}

#[test]
fn short_row_is_a_validation_error_naming_the_row() {
    let rows = vec![
        row(&["##var", "type", "remark"]),
        row(&["hp", "int", "health"]),
        row(&["name", "str"]),
    ];
    let err = process_sheet(&job(), &rows).unwrap_err();
    assert_eq!(err, JobError::Validation { row: 2, found: 2 });
}

#[test]
fn row_with_no_name_cell_reports_zero_values() {
    let rows = vec![row(&["x", "y", "##var", "type", "remark"]), row(&["a", "b"])];
    let err = process_sheet(&job(), &rows).unwrap_err();
    assert_eq!(err, JobError::Validation { row: 1, found: 0 });
}

#[test]
fn missing_header_fails_before_any_data_row() {
    let rows = vec![
        row(&["##var", "typ", "remark"]),
        row(&["would", "not", "matter"]),
    ];
    let err = process_sheet(&job(), &rows).unwrap_err();
    assert_eq!(err, JobError::Validation { row: 0, found: 2 });
}

#[test]
fn empty_sheet_fails_at_the_header_row() {
    let rows: Vec<Vec<String>> = vec![];
    let err = process_sheet(&job(), &rows).unwrap_err();
    assert_eq!(err, JobError::Validation { row: 0, found: 0 });
}

#[test]
fn run_summary_requires_every_job_to_succeed() {
    assert!(all_succeeded(&vec![]));
    assert!(all_succeeded(&vec![true, true]));
    assert!(!all_succeeded(&vec![true, false, true]));
}
