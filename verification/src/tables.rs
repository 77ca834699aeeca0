use crate::error::CrashTableError;
use vstd::prelude::*;

verus! {

/// Zero-based positions of the six consumed fields in an input row. All
/// other columns are ignored.
pub const FIXED_WING_G_MIN_POSITION: usize = 2;

pub const FIXED_WING_G_MAX_POSITION: usize = 3;

pub const HELICOPTER_G_MIN_POSITION: usize = 4;

pub const HELICOPTER_G_MAX_POSITION: usize = 5;

pub const AFTWARD_G_MIN_POSITION: usize = 6;

pub const AFTWARD_G_MAX_POSITION: usize = 7;

/// A row with fewer columns than the last consumed position is rejected as
/// too short; only the very last position (the aftward G maximum) may be
/// absent, and is then rendered as "0".
pub const MIN_ROW_FIELDS: usize = 7;

/// The text a consumed field contributes: its own text where the row holds
/// the position, the literal "0" where it does not.
pub open spec fn field_or_zero_spec(row: Seq<Seq<char>>, i: int) -> Seq<char> {
    if 0 <= i < row.len() {
        row[i]
    } else {
        "0"@
    }
}

/// A row wide enough to be converted at all.
pub open spec fn row_wide_enough(row: Seq<Seq<char>>) -> bool {
    row.len() >= MIN_ROW_FIELDS
}

pub open spec fn all_rows_wide_enough(rows: Seq<Seq<Seq<char>>>) -> bool {
    forall|i: int| 0 <= i < rows.len() ==> #[trigger] row_wide_enough(rows[i])
}

/// One formatted table entry: four spaces, the (min, max) pair in braces, a
/// trailing comma and newline.
pub open spec fn entry_line_spec(min: Seq<char>, max: Seq<char>) -> Seq<char> {
    "    {"@ + min + ", "@ + max + "},\n"@
}

/// The entry line a row contributes to the table whose pair sits at the two
/// given positions.
pub open spec fn row_entry_line_spec(row: Seq<Seq<char>>, min_pos: int, max_pos: int) -> Seq<
    char,
> {
    entry_line_spec(field_or_zero_spec(row, min_pos), field_or_zero_spec(row, max_pos))
}

/// The body of one table: the rows' entry lines laid end to end, in input
/// order.
pub open spec fn table_body_spec(rows: Seq<Seq<Seq<char>>>, min_pos: int, max_pos: int) -> Seq<
    char,
>
    decreases rows.len(),
{
    if rows.len() == 0 {
        Seq::empty()
    } else {
        table_body_spec(rows.drop_last(), min_pos, max_pos) + row_entry_line_spec(
            rows.last(),
            min_pos,
            max_pos,
        )
    }
}

/// The entry lines of one table, one per data row, in input order.
pub open spec fn entry_lines_spec(rows: Seq<Seq<Seq<char>>>, min_pos: int, max_pos: int) -> Seq<
    Seq<char>,
> {
    Seq::new(rows.len(), |i: int| row_entry_line_spec(rows[i], min_pos, max_pos))
}

/// The boilerplate every generated file starts with: the two fixed include
/// lines and one blank line.
pub open spec fn includes_spec() -> Seq<char> {
    "#include \"crash_table.h\"\n"@ + "#include \"crash.h\"\n"@ + "\n"@
}

pub open spec fn fixed_wing_open_spec() -> Seq<char> {
    "const crash_table_record fixed_wing_table[ACCEL_FIFO_AXIS_SIZE] = {\n"@
}

pub open spec fn helicopter_open_spec() -> Seq<char> {
    "const crash_table_record helicopter_table[ACCEL_FIFO_AXIS_SIZE] = {\n"@
}

pub open spec fn aftward_open_spec() -> Seq<char> {
    "const crash_table_record aftward_table[ACCEL_FIFO_AXIS_SIZE] = {\n"@
}

/// One complete table: its opening line, its body, and the closing brace
/// line.
pub open spec fn table_text_spec(
    opening: Seq<char>,
    rows: Seq<Seq<Seq<char>>>,
    min_pos: int,
    max_pos: int,
) -> Seq<char> {
    opening + table_body_spec(rows, min_pos, max_pos) + "};\n"@
}

/// The whole generated file: includes, then the three tables in fixed order
/// (fixed wing, helicopter, aftward), the first two closed with an extra
/// blank line.
pub open spec fn output_spec(rows: Seq<Seq<Seq<char>>>) -> Seq<char> {
    includes_spec() + fixed_wing_open_spec() + table_body_spec(
        rows,
        FIXED_WING_G_MIN_POSITION as int,
        FIXED_WING_G_MAX_POSITION as int,
    ) + "};\n\n"@ + helicopter_open_spec() + table_body_spec(
        rows,
        HELICOPTER_G_MIN_POSITION as int,
        HELICOPTER_G_MAX_POSITION as int,
    ) + "};\n\n"@ + aftward_open_spec() + table_body_spec(
        rows,
        AFTWARD_G_MIN_POSITION as int,
        AFTWARD_G_MAX_POSITION as int,
    ) + "};\n"@
}

/// The field at position `i`, or the text "0" where the row stops before it.
pub fn field_or_zero(row: &Vec<String>, i: usize) -> (r: String)
    ensures
        r@ == field_or_zero_spec(row.deep_view(), i as int),
{
    if i < row.len() {
        let s = row[i].clone();
        proof {
            assert(row.deep_view()[i as int] == row@[i as int]@);
        }
        s
    } else {
        String::from_str("0")
    }
}

/// Formats one (min, max) pair as a table entry line.
pub fn entry_line(min: &str, max: &str) -> (r: String)
    ensures
        r@ == entry_line_spec(min@, max@),
{
    let mut s = String::from_str("    {");
    s.append(min);
    s.append(", ");
    s.append(max);
    s.append("},\n");
    s
}

/// The entry line one row contributes to the table whose pair sits at the
/// two given positions.
pub fn row_entry_line(row: &Vec<String>, min_pos: usize, max_pos: usize) -> (r: String)
    ensures
        r@ == row_entry_line_spec(row.deep_view(), min_pos as int, max_pos as int),
{
    let min = field_or_zero(row, min_pos);
    let max = field_or_zero(row, max_pos);
    entry_line(min.as_str(), max.as_str())
}

/// Builds the body of one table from every row, in input order.
pub fn table_body(rows: &Vec<Vec<String>>, min_pos: usize, max_pos: usize) -> (body: String)
    ensures
        body@ == table_body_spec(rows.deep_view(), min_pos as int, max_pos as int),
{
    let ghost dv = rows.deep_view();
    let mut body = String::new();
    let mut i: usize = 0;
    while i < rows.len()
        invariant
            i <= rows@.len(),
            dv == rows.deep_view(),
            dv.len() == rows@.len(),
            body@ == table_body_spec(dv.take(i as int), min_pos as int, max_pos as int),
        decreases rows@.len() - i,
    {
        let line = row_entry_line(&rows[i], min_pos, max_pos);
        body.append(line.as_str());
        proof {
            let taken = dv.take(i + 1);
            assert(taken.drop_last() =~= dv.take(i as int));
            assert(taken.last() == dv[i as int]);
            assert(dv[i as int] == rows@[i as int].deep_view());
        }
        i += 1;
    }
    proof {
        assert(dv.take(rows@.len() as int) =~= dv);
    }
    body
}

/// True when every row reaches the minimum width.
pub fn rows_wide_enough(rows: &Vec<Vec<String>>) -> (b: bool)
    ensures
        b == all_rows_wide_enough(rows.deep_view()),
{
    let ghost dv = rows.deep_view();
    let mut i: usize = 0;
    while i < rows.len()
        invariant
            i <= rows@.len(),
            dv == rows.deep_view(),
            dv.len() == rows@.len(),
            forall|j: int| 0 <= j < i ==> #[trigger] row_wide_enough(dv[j]),
        decreases rows@.len() - i,
    {
        if rows[i].len() < MIN_ROW_FIELDS {
            proof {
                assert(dv[i as int] == rows@[i as int].deep_view());
                assert(!row_wide_enough(dv[i as int]));
            }
            return false;
        }
        proof {
            assert(dv[i as int] == rows@[i as int].deep_view());
        }
        i += 1;
    }
    true
}

/// Renders the whole output file from the parsed data rows: the include
/// boilerplate followed by the three tables in fixed order. Succeeds exactly
/// when every row reaches the minimum width; otherwise the run is abandoned
/// with `RowTooShort` and no text is produced.
pub fn render_output(rows: &Vec<Vec<String>>) -> (r: Result<String, CrashTableError>)
    ensures
        match r {
            Ok(out) => all_rows_wide_enough(rows.deep_view()) && out@ == output_spec(
                rows.deep_view(),
            ),
            Err(e) => !all_rows_wide_enough(rows.deep_view()) && e
                == CrashTableError::RowTooShort,
        },
{
    if !rows_wide_enough(rows) {
        return Err(CrashTableError::RowTooShort);
    }
    let mut out = String::from_str("#include \"crash_table.h\"\n");
    out.append("#include \"crash.h\"\n");
    out.append("\n");
    out.append("const crash_table_record fixed_wing_table[ACCEL_FIFO_AXIS_SIZE] = {\n");
    let fixed_wing_body = table_body(rows, FIXED_WING_G_MIN_POSITION, FIXED_WING_G_MAX_POSITION);
    out.append(fixed_wing_body.as_str());
    out.append("};\n\n");
    out.append("const crash_table_record helicopter_table[ACCEL_FIFO_AXIS_SIZE] = {\n");
    let helicopter_body = table_body(rows, HELICOPTER_G_MIN_POSITION, HELICOPTER_G_MAX_POSITION);
    out.append(helicopter_body.as_str());
    out.append("};\n\n");
    out.append("const crash_table_record aftward_table[ACCEL_FIFO_AXIS_SIZE] = {\n");
    let aftward_body = table_body(rows, AFTWARD_G_MIN_POSITION, AFTWARD_G_MAX_POSITION);
    out.append(aftward_body.as_str());
    out.append("};\n");
    Ok(out)
}

/// For an input of N data rows, each table's body is exactly the N entry
/// lines of those rows, laid end to end in input row order.
pub proof fn lemma_one_entry_line_per_row(rows: Seq<Seq<Seq<char>>>, min_pos: int, max_pos: int)
    ensures
        entry_lines_spec(rows, min_pos, max_pos).len() == rows.len(),
        table_body_spec(rows, min_pos, max_pos) == entry_lines_spec(
            rows,
            min_pos,
            max_pos,
        ).flatten(),
        forall|i: int|
            0 <= i < rows.len() ==> entry_lines_spec(rows, min_pos, max_pos)[i]
                == row_entry_line_spec(rows[i], min_pos, max_pos),
    decreases rows.len(),
{
    let lines = entry_lines_spec(rows, min_pos, max_pos);
    if rows.len() == 0 {
        assert(lines =~= Seq::<Seq<char>>::empty());
        assert(lines.flatten() =~= Seq::<char>::empty());
    } else {
        let sub = entry_lines_spec(rows.drop_last(), min_pos, max_pos);
        lemma_one_entry_line_per_row(rows.drop_last(), min_pos, max_pos);
        sub.lemma_flatten_and_flatten_alt_are_equivalent();
        lines.lemma_flatten_and_flatten_alt_are_equivalent();
        assert(lines.drop_last() =~= sub);
        assert(lines.last() == row_entry_line_spec(rows.last(), min_pos, max_pos));
        assert(lines.flatten_alt() == lines.drop_last().flatten_alt() + lines.last());
        assert(table_body_spec(rows, min_pos, max_pos) == table_body_spec(
            rows.drop_last(),
            min_pos,
            max_pos,
        ) + row_entry_line_spec(rows.last(), min_pos, max_pos));
    }
}

/// A consumed position absent from a row is rendered as the text "0",
/// nothing else.
pub proof fn lemma_missing_field_is_zero(row: Seq<Seq<char>>, i: int)
    requires
        row.len() <= i,
    ensures
        field_or_zero_spec(row, i) == "0"@,
{
}

/// A row that reaches the minimum width but stops short of the aftward G
/// maximum position is no error: its aftward entry line carries its aftward
/// G minimum and the substituted text "0".
pub proof fn lemma_absent_aftward_max_is_zero(row: Seq<Seq<char>>)
    requires
        row_wide_enough(row),
        row.len() <= AFTWARD_G_MAX_POSITION,
    ensures
        row_entry_line_spec(row, AFTWARD_G_MIN_POSITION as int, AFTWARD_G_MAX_POSITION as int)
            == entry_line_spec(row[AFTWARD_G_MIN_POSITION as int], "0"@),
{
}

/// The output always begins with the two fixed include lines followed by
/// exactly one blank line, and then holds the three complete tables in
/// fixed order — fixed wing, helicopter, aftward — the first two separated
/// from what follows by one blank line.
pub proof fn lemma_output_boilerplate(rows: Seq<Seq<Seq<char>>>)
    ensures
        output_spec(rows) == includes_spec() + table_text_spec(
            fixed_wing_open_spec(),
            rows,
            FIXED_WING_G_MIN_POSITION as int,
            FIXED_WING_G_MAX_POSITION as int,
        ) + "\n"@ + table_text_spec(
            helicopter_open_spec(),
            rows,
            HELICOPTER_G_MIN_POSITION as int,
            HELICOPTER_G_MAX_POSITION as int,
        ) + "\n"@ + table_text_spec(
            aftward_open_spec(),
            rows,
            AFTWARD_G_MIN_POSITION as int,
            AFTWARD_G_MAX_POSITION as int,
        ),
        includes_spec().len() <= output_spec(rows).len(),
        output_spec(rows).take(includes_spec().len() as int) == includes_spec(),
{
    reveal_strlit("};\n\n");
    reveal_strlit("};\n");
    reveal_strlit("\n");
    assert(output_spec(rows) =~= includes_spec() + table_text_spec(
        fixed_wing_open_spec(),
        rows,
        FIXED_WING_G_MIN_POSITION as int,
        FIXED_WING_G_MAX_POSITION as int,
    ) + "\n"@ + table_text_spec(
        helicopter_open_spec(),
        rows,
        HELICOPTER_G_MIN_POSITION as int,
        HELICOPTER_G_MAX_POSITION as int,
    ) + "\n"@ + table_text_spec(
        aftward_open_spec(),
        rows,
        AFTWARD_G_MIN_POSITION as int,
        AFTWARD_G_MAX_POSITION as int,
    ));
    assert(output_spec(rows).take(includes_spec().len() as int) =~= includes_spec());
}

/// Zero data rows produce the three tables as empty but well formed array
/// literals: each opening line immediately followed by its closing line.
pub proof fn lemma_empty_input(rows: Seq<Seq<Seq<char>>>)
    requires
        rows.len() == 0,
    ensures
        output_spec(rows) == includes_spec() + fixed_wing_open_spec() + "};\n\n"@
            + helicopter_open_spec() + "};\n\n"@ + aftward_open_spec() + "};\n"@,
{
    assert(output_spec(rows) =~= includes_spec() + fixed_wing_open_spec() + "};\n\n"@
        + helicopter_open_spec() + "};\n\n"@ + aftward_open_spec() + "};\n"@);
}

} // verus!
