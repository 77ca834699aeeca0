use acr_crash_table::csv_input::crash_generate_table;
use acr_crash_table::error::CrashTableError;
use acr_crash_table::tables::{entry_line, field_or_zero, render_output, table_body};

const HEADER: &str = "name,desc,fw_min,fw_max,heli_min,heli_max,aft_min,aft_max\n";

#[test]
fn generate_header() {
    let csv = format!("{}A,B,1.0,2.0,3.0,4.0,5.0,6.0\n", HEADER);
    let result = crash_generate_table(csv.as_bytes());
    assert_eq!(result.is_ok(), true);
}

#[test]
fn concrete_row() {
    let csv = format!("{}A,B,1.0,2.0,3.0,4.0,5.0,6.0\n", HEADER);
    let out = crash_generate_table(csv.as_bytes()).unwrap();
    assert!(out.contains("    {1.0, 2.0},\n"));
    assert!(out.contains("    {3.0, 4.0},\n"));
    assert!(out.contains("    {5.0, 6.0},\n"));
    let expected = "#include \"crash_table.h\"\n\
                    #include \"crash.h\"\n\
                    \n\
                    const crash_table_record fixed_wing_table[ACCEL_FIFO_AXIS_SIZE] = {\n\
                    \x20   {1.0, 2.0},\n\
                    };\n\
                    \n\
                    const crash_table_record helicopter_table[ACCEL_FIFO_AXIS_SIZE] = {\n\
                    \x20   {3.0, 4.0},\n\
                    };\n\
                    \n\
                    const crash_table_record aftward_table[ACCEL_FIFO_AXIS_SIZE] = {\n\
                    \x20   {5.0, 6.0},\n\
                    };\n";
    assert_eq!(out, expected);
}

#[test]
fn round_trip_shape() {
    let csv = format!(
        "{}A,B,1,2,3,4,5,6\nC,D,7,8,9,10,11,12\nE,F,13,14,15,16,17,18\n",
        HEADER
    );
    let out = crash_generate_table(csv.as_bytes()).unwrap();
    // three data rows: each table holds exactly three entry lines, in input order
    assert_eq!(out.matches("},\n").count(), 9);
    let fixed_wing = "const crash_table_record fixed_wing_table[ACCEL_FIFO_AXIS_SIZE] = {\n\
                      \x20   {1, 2},\n\
                      \x20   {7, 8},\n\
                      \x20   {13, 14},\n\
                      };\n";
    let helicopter = "const crash_table_record helicopter_table[ACCEL_FIFO_AXIS_SIZE] = {\n\
                      \x20   {3, 4},\n\
                      \x20   {9, 10},\n\
                      \x20   {15, 16},\n\
                      };\n";
    let aftward = "const crash_table_record aftward_table[ACCEL_FIFO_AXIS_SIZE] = {\n\
                   \x20   {5, 6},\n\
                   \x20   {11, 12},\n\
                   \x20   {17, 18},\n\
                   };\n";
    assert!(out.contains(fixed_wing));
    assert!(out.contains(helicopter));
    assert!(out.contains(aftward));
}

#[test]
fn boilerplate_prefix_and_table_order() {
    let csv = format!("{}A,B,1,2,3,4,5,6\n", HEADER);
    let out = crash_generate_table(csv.as_bytes()).unwrap();
    assert!(out.starts_with("#include \"crash_table.h\"\n#include \"crash.h\"\n\n"));
    let fw = out.find("fixed_wing_table").unwrap();
    let heli = out.find("helicopter_table").unwrap();
    let aft = out.find("aftward_table").unwrap();
    assert!(fw < heli && heli < aft);
}

#[test]
fn empty_input() {
    let out = crash_generate_table(HEADER.as_bytes()).unwrap();
    let expected = "#include \"crash_table.h\"\n\
                    #include \"crash.h\"\n\
                    \n\
                    const crash_table_record fixed_wing_table[ACCEL_FIFO_AXIS_SIZE] = {\n\
                    };\n\
                    \n\
                    const crash_table_record helicopter_table[ACCEL_FIFO_AXIS_SIZE] = {\n\
                    };\n\
                    \n\
                    const crash_table_record aftward_table[ACCEL_FIFO_AXIS_SIZE] = {\n\
                    };\n";
    assert_eq!(out, expected);
}

#[test]
fn missing_field_substitution() {
    // the whole sheet stops at the aftward G minimum: the absent maximum
    // becomes "0", and the run still succeeds
    let csv = "name,desc,fw_min,fw_max,heli_min,heli_max,aft_min\nA,B,1.0,2.0,3.0,4.0,5.0\n";
    let out = crash_generate_table(csv.as_bytes()).unwrap();
    assert!(out.contains("    {1.0, 2.0},\n"));
    assert!(out.contains("    {3.0, 4.0},\n"));
    assert!(out.contains("    {5.0, 0},\n"));
}

#[test]
fn row_too_short() {
    let csv = "name,desc,fw_min,fw_max,heli_min,heli_max\nA,B,1.0,2.0,3.0,4.0\n";
    let result = crash_generate_table(csv.as_bytes());
    assert_eq!(result, Err(CrashTableError::RowTooShort));
}

#[test]
fn source_unavailable_on_ragged_rows() {
    let csv = "name,desc\nA,B,extra\n";
    let result = crash_generate_table(csv.as_bytes());
    assert_eq!(result, Err(CrashTableError::SourceUnavailable));
}

#[test]
fn source_unavailable_on_invalid_text() {
    let bytes: Vec<u8> = vec![b'a', b',', b'b', b'\n', 0xff, 0xfe, b',', b'x', b'\n'];
    let result = crash_generate_table(&bytes);
    assert_eq!(result, Err(CrashTableError::SourceUnavailable));
}

#[test]
fn field_or_zero_substitutes_only_absent_positions() {
    let row = vec!["a".to_string(), "b".to_string()];
    assert_eq!(field_or_zero(&row, 1), "b");
    assert_eq!(field_or_zero(&row, 2), "0");
    assert_eq!(field_or_zero(&row, 7), "0");
}

#[test]
fn entry_line_format() {
    assert_eq!(entry_line("1.0", "2.0"), "    {1.0, 2.0},\n");
    assert_eq!(entry_line("", ""), "    {, },\n");
}

#[test]
fn table_body_orders_rows() {
    let rows = vec![
        vec!["x".to_string(), "y".to_string(), "1".to_string(), "2".to_string()],
        vec!["x".to_string(), "y".to_string(), "3".to_string(), "4".to_string()],
    ];
    let body = table_body(&rows, 2, 3);
    assert_eq!(body, "    {1, 2},\n    {3, 4},\n");
}

#[test]
fn render_rejects_short_row_directly() {
    let rows = vec![vec![
        "a".to_string(),
        "b".to_string(),
        "1".to_string(),
        "2".to_string(),
        "3".to_string(),
        "4".to_string(),
    ]];
    assert_eq!(render_output(&rows), Err(CrashTableError::RowTooShort));
}

#[test]
fn render_accepts_minimum_width_row() {
    let rows = vec![vec![
        "a".to_string(),
        "b".to_string(),
        "1".to_string(),
        "2".to_string(),
        "3".to_string(),
        "4".to_string(),
        "5".to_string(),
    ]];
    let out = render_output(&rows).unwrap();
    assert!(out.contains("    {5, 0},\n"));
}

#[test]
fn error_variants_are_distinct() {
    assert_ne!(CrashTableError::OutputUnwritable, CrashTableError::RowTooShort);
    assert_ne!(CrashTableError::OutputUnwritable, CrashTableError::SourceUnavailable);
    assert_ne!(CrashTableError::RowTooShort, CrashTableError::SourceUnavailable);
}
