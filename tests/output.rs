use trench::output::porcelain::{format_porcelain, format_porcelain_fields, PorcelainRecord};
use trench::output::table::Table;
use trench::output::{OutputConfig, Verbosity};

struct TestRecord {
    name: String,
    branch: String,
    managed: bool,
}

impl PorcelainRecord for TestRecord {
    fn porcelain_fields(&self) -> Vec<String> {
        vec![self.name.clone(), self.branch.clone(), self.managed.to_string()]
    }
}

#[test]
fn format_porcelain_produces_colon_separated_lines() {
    let items = vec![
        TestRecord { name: "alpha".into(), branch: "feature/alpha".into(), managed: true },
        TestRecord { name: "beta".into(), branch: "fix/beta".into(), managed: false },
    ];

    let output = format_porcelain(&items);
    let lines: Vec<&str> = output.lines().collect();

    assert_eq!(lines.len(), 2);
    assert_eq!(lines[0], "alpha:feature/alpha:true");
    assert_eq!(lines[1], "beta:fix/beta:false");
}

#[test]
fn format_porcelain_empty_list() {
    let items: Vec<TestRecord> = vec![];
    let output = format_porcelain(&items);
    assert!(output.is_empty());
}

#[test]
fn format_porcelain_single_record() {
    let items = vec![TestRecord { name: "solo".into(), branch: "main".into(), managed: true }];

    let output = format_porcelain(&items);
    assert_eq!(output, "solo:main:true\n");
}

#[test]
fn format_porcelain_ends_each_line_with_newline() {
    let items = vec![TestRecord { name: "a".into(), branch: "b".into(), managed: true }];

    let output = format_porcelain(&items);
    assert!(output.ends_with('\n'), "each record line must end with newline");
}

#[test]
fn format_porcelain_contains_no_ansi_codes() {
    let items = vec![TestRecord { name: "test".into(), branch: "dev".into(), managed: false }];

    let output = format_porcelain(&items);
    assert!(!output.contains('\x1b'), "porcelain output must not contain ANSI escape codes");
}

#[test]
fn porcelain_fields_join_with_colons() {
    let records = vec![vec!["a".to_string(), "b".to_string()], vec![], vec!["c".to_string()]];
    assert_eq!(format_porcelain_fields(&records), "a:b\n\nc\n");
}

#[test]
fn empty_rows_returns_empty_string() {
    let output = Table::new(vec!["Name", "Branch"]).render();
    assert!(output.is_empty(), "no rows should produce empty output");
}

#[test]
fn truncates_columns_to_fit_max_width() {
    let output = Table::new(vec!["Name", "Path"])
        .row(vec!["short", "/very/long/path/that/exceeds/width"])
        .max_width(30)
        .render();

    for line in output.lines() {
        assert!(line.len() <= 30, "line exceeds max_width: len={}, line={:?}", line.len(), line);
    }
    assert!(output.contains("Name"), "header should still appear");
    assert!(output.contains("short"), "short values should not be truncated");
}

#[test]
fn enforces_max_width_on_extremely_narrow_terminals() {
    let output = Table::new(vec!["Name", "Branch", "Path", "Status"])
        .row(vec!["feature-auth", "feature/auth", "/home/user/proj", "clean"])
        .max_width(5)
        .render();

    for line in output.lines() {
        assert!(line.len() <= 5, "line exceeds max_width of 5: len={}, line={:?}", line.len(), line);
    }
}

#[test]
fn row_normalizes_to_header_count() {
    let padded = Table::new(vec!["A", "B", "C"]).row(vec!["only-one"]).render();
    let lines: Vec<&str> = padded.lines().collect();
    assert_eq!(lines.len(), 2, "header + 1 data row");

    let header = lines[0];
    let data = lines[1];
    let b_offset = header.find('B').expect("header should contain B");
    assert!(data.len() >= b_offset, "short row must be padded to span all columns, got: {data:?}");

    let truncated = Table::new(vec!["X", "Y"]).row(vec!["a", "b", "extra1", "extra2"]).render();
    let data_line = truncated.lines().nth(1).unwrap();
    assert!(!data_line.contains("extra"), "extra cells should not appear in output, got: {data_line:?}");
}

#[test]
fn renders_headers_and_rows_with_aligned_columns() {
    let output = Table::new(vec!["Name", "Branch", "Path"])
        .row(vec!["foo", "main", "/tmp/foo"])
        .row(vec!["bar-longer", "dev", "/tmp/bar"])
        .render();

    let lines: Vec<&str> = output.lines().collect();
    assert_eq!(lines.len(), 3, "expected header + 2 data rows");

    let header = lines[0];
    let row1 = lines[1];
    let branch_offset_header = header.find("Branch").expect("header should contain 'Branch'");
    let branch_offset_row1 = row1.find("main").expect("row should contain 'main'");
    assert_eq!(branch_offset_header, branch_offset_row1, "Branch column should align between header and row");
}

#[test]
fn table_exact_layout_and_cut_marker() {
    let output = Table::new(vec!["Name", "Path"]).row(vec!["ab", "/a/very/long"]).max_width(12).render();
    // Name column 4 wide, gap 2, path column shrunk to 6: cut with `~`.
    assert_eq!(output, "Name  Path\nab    /a/ve~\n");
}

#[test]
fn no_color_flag_disables_color() {
    let config = OutputConfig::new(true, false, false, true, false);
    assert!(!config.should_color());
}

#[test]
fn no_color_env_var_disables_color() {
    let config = OutputConfig::new(false, false, false, true, true);
    assert!(!config.should_color());
}

#[test]
fn defaults_enable_color_when_tty() {
    let config = OutputConfig::new(false, false, false, true, false);
    assert!(config.should_color());
}

#[test]
fn non_tty_auto_disables_color() {
    let config = OutputConfig::new(false, false, false, false, false);
    assert!(!config.should_color());
}

#[test]
fn quiet_flag_suppresses_info() {
    let config = OutputConfig::new(false, true, false, true, false);
    assert!(config.is_quiet());
    assert!(!config.is_verbose());
    assert_eq!(config.verbosity(), Verbosity::Quiet);
}

#[test]
fn verbose_flag_enables_debug() {
    let config = OutputConfig::new(false, false, true, true, false);
    assert!(config.is_verbose());
    assert!(!config.is_quiet());
    assert_eq!(config.verbosity(), Verbosity::Verbose);
}

#[test]
fn quiet_wins_over_verbose() {
    let config = OutputConfig::new(false, true, true, true, false);
    assert!(config.is_quiet());
    assert!(!config.is_verbose());
    assert_eq!(config.verbosity(), Verbosity::Quiet);
}

#[test]
fn default_verbosity_is_normal() {
    let config = OutputConfig::new(false, false, false, true, false);
    assert!(!config.is_quiet());
    assert!(!config.is_verbose());
    assert_eq!(config.verbosity(), Verbosity::Normal);
}
