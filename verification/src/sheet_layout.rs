//! The layout of the property-fee spreadsheet: which cell of a form holds
//! which label, fee or formula.  Writing the cells into a workbook is left to
//! the caller.

use vstd::prelude::*;
use crate::decimal::Decimal;
use crate::property_fee::PropertyFeeDetailPo;
use crate::text::{digits, u64_text};

verus! {

/// What a cell holds.
#[derive(Debug)]
pub enum CellValue {
    Text(String),
    Number(Decimal),
    Formula(String),
}

/// How a cell is formatted.
#[derive(Clone, Copy, Debug, PartialEq, Eq, Structural)]
pub enum CellStyle {
    /// Bold text.
    Bold,
    /// Bold number with two decimals.
    Number,
}

/// One cell of the sheet, by row and column (both counted from zero).
#[derive(Debug)]
pub struct Cell {
    pub row: u32,
    pub col: u16,
    pub value: CellValue,
    pub style: CellStyle,
}

/// The content of a cell as a value.
pub enum Content {
    Text(Seq<char>),
    Number(Decimal),
    Formula(Seq<char>),
}

/// A cell as a value.
pub struct CellSpec {
    pub row: int,
    pub col: int,
    pub content: Content,
    pub style: CellStyle,
}

impl View for Cell {
    type V = CellSpec;

    open spec fn view(&self) -> CellSpec {
        CellSpec {
            row: self.row as int,
            col: self.col as int,
            content: match self.value {
                CellValue::Text(s) => Content::Text(s@),
                CellValue::Number(d) => Content::Number(d),
                CellValue::Formula(s) => Content::Formula(s@),
            },
            style: self.style,
        }
    }
}

/// The cells as values.
pub open spec fn cells_view(cells: Seq<Cell>) -> Seq<CellSpec> {
    cells.map_values(|c: Cell| c@)
}

/// The spreadsheet name of a column: `A` for the first.
pub open spec fn col_letter(col: int) -> Seq<char> {
    if col == 0 {
        "A"@
    } else if col == 1 {
        "B"@
    } else if col == 2 {
        "C"@
    } else if col == 3 {
        "D"@
    } else if col == 4 {
        "E"@
    } else if col == 5 {
        "F"@
    } else if col == 6 {
        "G"@
    } else if col == 7 {
        "H"@
    } else if col == 8 {
        "I"@
    } else if col == 9 {
        "J"@
    } else if col == 10 {
        "K"@
    } else {
        "L"@
    }
}

fn col_letter_str(col: u16) -> (r: &'static str)
    requires
        col < 12,
    ensures
        r@ == col_letter(col as int),
{
    if col == 0 {
        "A"
    } else if col == 1 {
        "B"
    } else if col == 2 {
        "C"
    } else if col == 3 {
        "D"
    } else if col == 4 {
        "E"
    } else if col == 5 {
        "F"
    } else if col == 6 {
        "G"
    } else if col == 7 {
        "H"
    } else if col == 8 {
        "I"
    } else if col == 9 {
        "J"
    } else if col == 10 {
        "K"
    } else {
        "L"
    }
}

/// The formula that sums the cells from (`from_col`, `from_row`) to
/// (`to_col`, `to_row`), rows as the spreadsheet numbers them.
pub open spec fn sum_formula(from_col: int, from_row: nat, to_col: int, to_row: nat) -> Seq<char> {
    "=SUM("@ + col_letter(from_col) + digits(from_row) + ":"@ + col_letter(to_col) + digits(to_row)
        + ")"@
}

/// The text of `sum_formula`.
pub fn sum_formula_text(from_col: u16, from_row: u32, to_col: u16, to_row: u32) -> (r: String)
    requires
        from_col < 12,
        to_col < 12,
    ensures
        r@ == sum_formula(from_col as int, from_row as nat, to_col as int, to_row as nat),
{
    let mut s = String::from_str("=SUM(");
    s.append(col_letter_str(from_col));
    let a = u64_text(from_row as u64);
    s.append(a.as_str());
    s.append(":");
    s.append(col_letter_str(to_col));
    let b = u64_text(to_row as u64);
    s.append(b.as_str());
    s.append(")");
    s
}

/// The labels of the header row, column by column.
pub open spec fn header_labels() -> Seq<Seq<char>> {
    seq![
        "房间号"@,
        "管理费"@,
        "停车费"@,
        "电梯费"@,
        "机房改造费"@,
        "电费"@,
        "电费分摊"@,
        "水费"@,
        "水费分摊"@,
        "违约金"@,
        "预存"@,
        "总费用"@,
    ]
}

/// The header row `row`: each label in bold in its column.
pub open spec fn header_spec(row: int) -> Seq<CellSpec> {
    Seq::new(
        12,
        |i: int| CellSpec { row, col: i, content: Content::Text(header_labels()[i]), style: CellStyle::Bold },
    )
}

fn text_cell(row: u32, col: u16, text: &str) -> (r: Cell)
    ensures
        r@ == (CellSpec { row: row as int, col: col as int, content: Content::Text(text@), style: CellStyle::Bold }),
{
    Cell { row, col, value: CellValue::Text(String::from_str(text)), style: CellStyle::Bold }
}

/// The cells of the header row `row`.
pub fn header_cells(row: u32) -> (r: Vec<Cell>)
    ensures
        cells_view(r@) == header_spec(row as int),
{
    let mut cells: Vec<Cell> = Vec::new();
    cells.push(text_cell(row, 0, "房间号"));
    cells.push(text_cell(row, 1, "管理费"));
    cells.push(text_cell(row, 2, "停车费"));
    cells.push(text_cell(row, 3, "电梯费"));
    cells.push(text_cell(row, 4, "机房改造费"));
    cells.push(text_cell(row, 5, "电费"));
    cells.push(text_cell(row, 6, "电费分摊"));
    cells.push(text_cell(row, 7, "水费"));
    cells.push(text_cell(row, 8, "水费分摊"));
    cells.push(text_cell(row, 9, "违约金"));
    cells.push(text_cell(row, 10, "预存"));
    cells.push(text_cell(row, 11, "总费用"));
    assert(cells_view(cells@) =~= header_spec(row as int));
    cells
}

/// The sum line at row `row` closing a form of `per_form_row` rows: a bold
/// label, for each fee column the sum of that column from row
/// `row - per_form_row` to row `row`, and for the total column the sum of the
/// fees of the line itself.
pub open spec fn sum_line_spec(row: int, per_form_row: int) -> Seq<CellSpec> {
    seq![CellSpec { row, col: 0, content: Content::Text("合计："@), style: CellStyle::Bold }] + Seq::new(
        10,
        |i: int|
            CellSpec {
                row,
                col: i + 1,
                content: Content::Formula(
                    sum_formula(i + 1, (row - per_form_row) as nat, i + 1, row as nat),
                ),
                style: CellStyle::Number,
            },
    ) + seq![total_cell_spec(row)]
}

/// The total column of row `row`: the sum of its fee columns `B` to `I`.
pub open spec fn total_cell_spec(row: int) -> CellSpec {
    CellSpec {
        row,
        col: 11,
        content: Content::Formula(sum_formula(1, (row + 1) as nat, 8, (row + 1) as nat)),
        style: CellStyle::Number,
    }
}

fn total_cell(row: u32) -> (r: Cell)
    requires
        row < u32::MAX,
    ensures
        r@ == total_cell_spec(row as int),
{
    Cell { row, col: 11, value: CellValue::Formula(sum_formula_text(1, row + 1, 8, row + 1)), style: CellStyle::Number }
}

/// The cells of the sum line at row `row`.
pub fn sum_line_cells(row: u32, per_form_row: u32) -> (r: Vec<Cell>)
    requires
        per_form_row <= row < u32::MAX,
    ensures
        cells_view(r@) == sum_line_spec(row as int, per_form_row as int),
{
    let star = row - per_form_row;
    let mut cells: Vec<Cell> = Vec::new();
    cells.push(text_cell(row, 0, "合计："));
    let mut col: u16 = 1;
    while col <= 10
        invariant
            1 <= col <= 11,
            per_form_row <= row < u32::MAX,
            star == row - per_form_row,
            cells.len() == col,
            cells@[0]@ == (CellSpec { row: row as int, col: 0, content: Content::Text("合计："@), style: CellStyle::Bold }),
            forall|k: int|
                1 <= k < col ==> (#[trigger] cells@[k])@ == (CellSpec {
                    row: row as int,
                    col: k,
                    content: Content::Formula(sum_formula(k, star as nat, k, row as nat)),
                    style: CellStyle::Number,
                }),
        decreases 11 - col,
    {
        let f = sum_formula_text(col, star, col, row);
        cells.push(Cell { row, col, value: CellValue::Formula(f), style: CellStyle::Number });
        col = col + 1;
    }
    cells.push(total_cell(row));
    assert(cells_view(cells@) =~= sum_line_spec(row as int, per_form_row as int)) by {
        assert forall|k: int| 1 <= k <= 10 implies cells_view(cells@)[k] == sum_line_spec(row as int, per_form_row as int)[k] by {
            assert(cells@[k]@ == cells_view(cells@)[k]);
        }
    }
    cells
}

/// The fee columns of a detail row: each fee with its column; the lift fee
/// has a header but is not written.
pub open spec fn fee_columns(d: PropertyFeeDetailPo) -> Seq<(int, Option<Decimal>)> {
    seq![
        (1, d.management_fee),
        (2, d.part_fee),
        (4, d.machine_room_renovation_fee),
        (5, d.electric_fee),
        (6, d.electric_share_fee),
        (7, d.water_fee),
        (8, d.water_share_fee),
        (9, d.liquidate_fee),
        (10, d.pre_store_fee),
    ]
}

/// The number cells of the fees that are present, in column order.
pub open spec fn present_fee_cells(items: Seq<(int, Option<Decimal>)>, row: int) -> Seq<CellSpec>
    decreases items.len(),
{
    if items.len() == 0 {
        Seq::empty()
    } else {
        let last = items.last();
        present_fee_cells(items.drop_last(), row) + match last.1 {
            Some(fee) => seq![CellSpec { row, col: last.0, content: Content::Number(fee), style: CellStyle::Number }],
            None => Seq::empty(),
        }
    }
}

/// The text of an optional room number, empty where there is none.
pub open spec fn room_text(room: Option<String>) -> Seq<char> {
    match room {
        Some(r) => r@,
        None => ""@,
    }
}

/// Detail row `row`: for a bill, its room number in bold, the fees it has and
/// the total formula; for a row past the end of the bills, the total formula
/// alone.
pub open spec fn detail_row_spec(data: Option<PropertyFeeDetailPo>, row: int) -> Seq<CellSpec> {
    match data {
        Some(d) => seq![CellSpec { row, col: 0, content: Content::Text(room_text(d.room_number)), style: CellStyle::Bold }]
            + present_fee_cells(fee_columns(d), row) + seq![total_cell_spec(row)],
        None => seq![total_cell_spec(row)],
    }
}

/// The columns and fees as values.
pub open spec fn items_view(items: Seq<(u16, Option<Decimal>)>) -> Seq<(int, Option<Decimal>)> {
    items.map_values(|p: (u16, Option<Decimal>)| (p.0 as int, p.1))
}

/// The number cells of the fees in `items` that are present.
pub fn fee_cells(items: &Vec<(u16, Option<Decimal>)>, row: u32) -> (r: Vec<Cell>)
    ensures
        cells_view(r@) == present_fee_cells(items_view(items@), row as int),
{
    let mut cells: Vec<Cell> = Vec::new();
    let mut k: usize = 0;
    assert(items_view(items@.take(0)) =~= Seq::<(int, Option<Decimal>)>::empty());
    assert(cells_view(cells@) =~= Seq::<CellSpec>::empty());
    while k < items.len()
        invariant
            k <= items.len(),
            cells_view(cells@) == present_fee_cells(items_view(items@.take(k as int)), row as int),
        decreases items.len() - k,
    {
        let (col, fee) = items[k];
        let ghost before = cells_view(cells@);
        proof {
            let t = items_view(items@.take(k + 1));
            assert(t.drop_last() =~= items_view(items@.take(k as int)));
            assert(t.last() == (col as int, fee));
        }
        match fee {
            Some(f) => {
                cells.push(Cell { row, col, value: CellValue::Number(f), style: CellStyle::Number });
                assert(cells_view(cells@) =~= before + seq![
                    CellSpec { row: row as int, col: col as int, content: Content::Number(f), style: CellStyle::Number },
                ]);
            },
            None => {
                assert(before =~= before + Seq::<CellSpec>::empty());
            },
        }
        k = k + 1;
    }
    assert(items@.take(k as int) =~= items@);
    cells
}

/// The cells of `a` followed by those of `b`, as values.
proof fn lemma_cells_view_concat(a: Seq<Cell>, b: Seq<Cell>)
    ensures
        cells_view(a + b) == cells_view(a) + cells_view(b),
{
    assert(cells_view(a + b) =~= cells_view(a) + cells_view(b));
}

/// Appends the cells of detail row `row` to `cells`.
pub fn push_detail_row(cells: &mut Vec<Cell>, data: Option<&PropertyFeeDetailPo>, row: u32)
    requires
        row < u32::MAX,
    ensures
        cells_view(final(cells)@) == cells_view(old(cells)@) + detail_row_spec(
            match data {
                Some(d) => Some(*d),
                None => None,
            },
            row as int,
        ),
{
    let ghost start = cells@;
    let mut row_cells: Vec<Cell> = Vec::new();
    match data {
        Some(d) => {
            let room = match &d.room_number {
                Some(r) => String::from_str(r.as_str()),
                None => String::from_str(""),
            };
            row_cells.push(Cell { row, col: 0, value: CellValue::Text(room), style: CellStyle::Bold });
            let items: Vec<(u16, Option<Decimal>)> = vec![
                (1, d.management_fee),
                (2, d.part_fee),
                (4, d.machine_room_renovation_fee),
                (5, d.electric_fee),
                (6, d.electric_share_fee),
                (7, d.water_fee),
                (8, d.water_share_fee),
                (9, d.liquidate_fee),
                (10, d.pre_store_fee),
            ];
            assert(items_view(items@) =~= fee_columns(*d));
            let mut fees = fee_cells(&items, row);
            let ghost head = row_cells@;
            let ghost fee_seq = fees@;
            row_cells.append(&mut fees);
            row_cells.push(total_cell(row));
            proof {
                lemma_cells_view_concat(head, fee_seq);
                lemma_cells_view_concat(head + fee_seq, seq![row_cells@.last()]);
                assert(row_cells@ =~= head + fee_seq + seq![row_cells@.last()]);
                assert(cells_view(row_cells@) =~= detail_row_spec(Some(*d), row as int));
            }
        },
        None => {
            row_cells.push(total_cell(row));
            assert(cells_view(row_cells@) =~= detail_row_spec(None, row as int));
        },
    }
    let ghost added = row_cells@;
    cells.append(&mut row_cells);
    proof {
        lemma_cells_view_concat(start, added);
    }
}

/// The number cell of a fee in column `col` of row `row`.
pub open spec fn fee_cell(row: int, col: int, fee: Decimal) -> CellSpec {
    CellSpec { row, col, content: Content::Number(fee), style: CellStyle::Number }
}

/// Each cell of `present_fee_cells(items, row)` is the cell of a present item,
/// and each present item has its cell there.
proof fn lemma_present_fee_cells(items: Seq<(int, Option<Decimal>)>, row: int)
    ensures
        forall|i: int|
            0 <= i < present_fee_cells(items, row).len() ==> exists|k: int|
                0 <= k < items.len() && items[k].1 is Some && #[trigger] present_fee_cells(items, row)[i]
                    == fee_cell(row, items[k].0, items[k].1.unwrap()),
        forall|k: int|
            0 <= k < items.len() && (#[trigger] items[k]).1 is Some ==> present_fee_cells(items, row).contains(
                fee_cell(row, items[k].0, items[k].1.unwrap()),
            ),
    decreases items.len(),
{
    if items.len() > 0 {
        let init = items.drop_last();
        let last = items.last();
        lemma_present_fee_cells(init, row);
        let head = present_fee_cells(init, row);
        let tail: Seq<CellSpec> = match last.1 {
            Some(fee) => seq![fee_cell(row, last.0, fee)],
            None => Seq::empty(),
        };
        let all = present_fee_cells(items, row);
        assert(all == head + tail);
        assert forall|i: int| 0 <= i < all.len() implies exists|k: int|
            0 <= k < items.len() && items[k].1 is Some && #[trigger] all[i] == fee_cell(
                row,
                items[k].0,
                items[k].1.unwrap(),
            ) by {
            if i < head.len() {
                assert(all[i] == head[i]);
                let k = choose|k: int|
                    0 <= k < init.len() && init[k].1 is Some && #[trigger] head[i] == fee_cell(
                        row,
                        init[k].0,
                        init[k].1.unwrap(),
                    );
                assert(items[k] == init[k]);
            } else {
                assert(all[i] == tail[i - head.len()]);
                assert(items[items.len() - 1] == last);
            }
        }
        assert forall|k: int| 0 <= k < items.len() && (#[trigger] items[k]).1 is Some implies all.contains(
            fee_cell(row, items[k].0, items[k].1.unwrap()),
        ) by {
            if k < items.len() - 1 {
                assert(init[k] == items[k]);
                assert(head.contains(fee_cell(row, init[k].0, init[k].1.unwrap())));
                let j = choose|j: int| 0 <= j < head.len() && head[j] == fee_cell(row, init[k].0, init[k].1.unwrap());
                assert(all[j] == head[j]);
            } else {
                assert(all[head.len() as int] == tail[0]);
            }
        }
    }
}

/// Each fee of a detail row is written, as a number, in the column whose
/// header names that fee: the management fee under 管理费, the parking fee
/// under 停车费, the machine-room renovation fee under 机房改造费, and so on.
/// The column of the lift fee (电梯费) holds no cell, and the column of the
/// machine-room renovation fee holds nothing but that fee.
pub proof fn lemma_fees_under_their_labels(d: PropertyFeeDetailPo, row: int)
    ensures
        header_labels()[1] == "管理费"@,
        header_labels()[2] == "停车费"@,
        header_labels()[3] == "电梯费"@,
        header_labels()[4] == "机房改造费"@,
        header_labels()[5] == "电费"@,
        header_labels()[6] == "电费分摊"@,
        header_labels()[7] == "水费"@,
        header_labels()[8] == "水费分摊"@,
        header_labels()[9] == "违约金"@,
        header_labels()[10] == "预存"@,
        d.management_fee is Some ==> detail_row_spec(Some(d), row).contains(
            fee_cell(row, 1, d.management_fee.unwrap()),
        ),
        d.part_fee is Some ==> detail_row_spec(Some(d), row).contains(fee_cell(row, 2, d.part_fee.unwrap())),
        d.machine_room_renovation_fee is Some ==> detail_row_spec(Some(d), row).contains(
            fee_cell(row, 4, d.machine_room_renovation_fee.unwrap()),
        ),
        d.electric_fee is Some ==> detail_row_spec(Some(d), row).contains(
            fee_cell(row, 5, d.electric_fee.unwrap()),
        ),
        d.electric_share_fee is Some ==> detail_row_spec(Some(d), row).contains(
            fee_cell(row, 6, d.electric_share_fee.unwrap()),
        ),
        d.water_fee is Some ==> detail_row_spec(Some(d), row).contains(fee_cell(row, 7, d.water_fee.unwrap())),
        d.water_share_fee is Some ==> detail_row_spec(Some(d), row).contains(
            fee_cell(row, 8, d.water_share_fee.unwrap()),
        ),
        d.liquidate_fee is Some ==> detail_row_spec(Some(d), row).contains(
            fee_cell(row, 9, d.liquidate_fee.unwrap()),
        ),
        d.pre_store_fee is Some ==> detail_row_spec(Some(d), row).contains(
            fee_cell(row, 10, d.pre_store_fee.unwrap()),
        ),
        forall|i: int|
            0 <= i < detail_row_spec(Some(d), row).len() ==> (#[trigger] detail_row_spec(Some(d), row)[i]).col != 3,
        forall|i: int|
            0 <= i < detail_row_spec(Some(d), row).len() && (#[trigger] detail_row_spec(Some(d), row)[i]).col == 4
                ==> detail_row_spec(Some(d), row)[i] == fee_cell(row, 4, d.machine_room_renovation_fee.unwrap()),
{
    let items = fee_columns(d);
    lemma_present_fee_cells(items, row);
    let first = seq![CellSpec { row, col: 0, content: Content::Text(room_text(d.room_number)), style: CellStyle::Bold }];
    let mid = present_fee_cells(items, row);
    let end = seq![total_cell_spec(row)];
    let all = detail_row_spec(Some(d), row);
    assert(all == first + mid + end);
    assert(items[0] == (1int, d.management_fee));
    assert(items[1] == (2int, d.part_fee));
    assert(items[2] == (4int, d.machine_room_renovation_fee));
    assert(items[3] == (5int, d.electric_fee));
    assert(items[4] == (6int, d.electric_share_fee));
    assert(items[5] == (7int, d.water_fee));
    assert(items[6] == (8int, d.water_share_fee));
    assert(items[7] == (9int, d.liquidate_fee));
    assert(items[8] == (10int, d.pre_store_fee));
    assert forall|c: CellSpec| mid.contains(c) implies all.contains(c) by {
        let j = choose|j: int| 0 <= j < mid.len() && mid[j] == c;
        assert(all[1 + j] == mid[j]);
    }
    assert forall|k: int| 0 <= k < items.len() && (#[trigger] items[k]).1 is Some implies all.contains(
        fee_cell(row, items[k].0, items[k].1.unwrap()),
    ) by {
        assert(mid.contains(fee_cell(row, items[k].0, items[k].1.unwrap())));
    }
    assert forall|i: int| 0 <= i < all.len() implies (#[trigger] all[i]).col != 3 && (all[i].col == 4 ==> all[i]
        == fee_cell(row, 4, d.machine_room_renovation_fee.unwrap())) by {
        if 1 <= i < 1 + mid.len() {
            assert(all[i] == mid[i - 1]);
            let k = choose|k: int|
                0 <= k < items.len() && items[k].1 is Some && #[trigger] mid[i - 1] == fee_cell(
                    row,
                    items[k].0,
                    items[k].1.unwrap(),
                );
            assert(0 <= k < 9);
        } else if i == 0 {
            assert(all[i] == first[0]);
        } else {
            assert(all[i] == end[0]);
        }
    }
}

/// The detail rows of a form, `n` rows from `first_row`, row `i` showing bill
/// `i` of `part` where there is one.
pub open spec fn detail_rows_spec(part: Seq<PropertyFeeDetailPo>, first_row: int, n: nat) -> Seq<CellSpec>
    decreases n,
{
    if n == 0 {
        Seq::empty()
    } else {
        detail_rows_spec(part, first_row, (n - 1) as nat) + detail_row_spec(
            if n - 1 < part.len() {
                Some(part[n - 1])
            } else {
                None
            },
            first_row + n - 1,
        )
    }
}

/// A form starting at row `start`: the header, `per_form_row` detail rows and
/// the sum line.
pub open spec fn form_spec(part: Seq<PropertyFeeDetailPo>, start: int, per_form_row: nat) -> Seq<CellSpec> {
    header_spec(start) + detail_rows_spec(part, start + 1, per_form_row) + sum_line_spec(
        start + 1 + per_form_row,
        per_form_row as int,
    )
}

/// The layout of one form.
#[derive(Debug)]
pub struct FormPlan {
    /// The cells of the form.
    pub cells: Vec<Cell>,
    /// The body of the form, bordered and centred over the columns `A` to `L`,
    /// runs from this row ...
    pub body_first_row: u32,
    /// ... to this one.
    pub body_last_row: u32,
    /// The form takes the rows from `first_row` up to, not including, `next_row`.
    pub first_row: u32,
    pub next_row: u32,
}

/// Lays out one form from row `start_row`: a header, then one row for each of
/// the first `per_form_row` bills (empty rows where there are fewer), then the
/// sum line.
pub fn form_plan(part: &Vec<PropertyFeeDetailPo>, start_row: u32, per_form_row: u32) -> (r: FormPlan)
    requires
        start_row + per_form_row + 2 <= u32::MAX,
    ensures
        cells_view(r.cells@) == form_spec(part@, start_row as int, per_form_row as nat),
        r.body_first_row == start_row + 1,
        r.body_last_row == start_row + 1 + per_form_row,
        r.first_row == start_row,
        r.next_row == start_row + per_form_row + 2,
{
    let mut cells = header_cells(start_row);
    let first = start_row + 1;
    let ghost head = cells_view(cells@);
    let mut index: u32 = 0;
    while index < per_form_row
        invariant
            index <= per_form_row,
            start_row + per_form_row + 2 <= u32::MAX,
            first == start_row + 1,
            cells_view(cells@) == head + detail_rows_spec(part@, first as int, index as nat),
        decreases per_form_row - index,
    {
        let data = if (index as usize) < part.len() {
            Some(&part[index as usize])
        } else {
            None
        };
        push_detail_row(&mut cells, data, first + index);
        proof {
            assert(head + detail_rows_spec(part@, first as int, (index + 1) as nat) =~= head
                + detail_rows_spec(part@, first as int, index as nat) + detail_row_spec(
                if index < part@.len() {
                    Some(part@[index as int])
                } else {
                    None
                },
                first + index,
            ));
        }
        index = index + 1;
    }
    let sum_row = first + per_form_row;
    let mut sum = sum_line_cells(sum_row, per_form_row);
    let ghost body = cells@;
    let ghost tail = sum@;
    cells.append(&mut sum);
    proof {
        lemma_cells_view_concat(body, tail);
        assert(cells_view(cells@) =~= form_spec(part@, start_row as int, per_form_row as nat));
    }
    FormPlan {
        cells,
        body_first_row: first,
        body_last_row: first + per_form_row,
        first_row: start_row,
        next_row: sum_row + 1,
    }
}

/// The number of bills on one form of the workbook.
pub const PER_FORM_ROW: u32 = 20;

/// Bills `20 k` up to `20 k + 20` of `all`, fewer for the last form.
pub open spec fn form_chunk(all: Seq<PropertyFeeDetailPo>, k: int) -> Seq<PropertyFeeDetailPo> {
    all.subrange(
        20 * k,
        if 20 * k + 20 <= all.len() {
            20 * k + 20
        } else {
            all.len() as int
        },
    )
}

/// Lays out the workbook: the bills in forms of twenty, each form laid out
/// from the first row of the sheet.
pub fn work_book_plan(all_result: Vec<PropertyFeeDetailPo>) -> (r: Vec<FormPlan>)
    ensures
        20 * r.len() >= all_result.len(),
        r.len() > 0 ==> 20 * (r.len() - 1) < all_result.len(),
        forall|k: int|
            0 <= k < r.len() ==> cells_view((#[trigger] r@[k]).cells@) == form_spec(
                form_chunk(all_result@, k),
                0,
                20,
            ) && r@[k].first_row == 0 && r@[k].next_row == 22 && r@[k].body_first_row == 1
                && r@[k].body_last_row == 21,
{
    let ghost orig = all_result@;
    let mut rest = all_result;
    let mut plans: Vec<FormPlan> = Vec::new();
    let mut done: usize = 0;
    assert(rest@ =~= orig.skip(0));
    assert(orig.len() == rest.len());
    while rest.len() > 0
        invariant
            orig.len() <= usize::MAX,
            done <= orig.len(),
            rest@ == orig.skip(done as int),
            rest.len() + done == orig.len(),
            rest.len() > 0 ==> done == 20 * plans.len(),
            rest.len() == 0 ==> 20 * plans.len() >= orig.len(),
            plans.len() > 0 ==> 20 * (plans.len() - 1) < orig.len(),
            forall|k: int|
                0 <= k < plans.len() ==> cells_view((#[trigger] plans@[k]).cells@) == form_spec(
                    form_chunk(orig, k),
                    0,
                    20,
                ) && plans@[k].first_row == 0 && plans@[k].next_row == 22 && plans@[k].body_first_row == 1
                    && plans@[k].body_last_row == 21,
        decreases rest.len(),
    {
        let ghost k = plans.len() as int;
        let mut part: Vec<PropertyFeeDetailPo> = Vec::new();
        while part.len() < 20 && rest.len() > 0
            invariant
                done + part.len() <= orig.len(),
                part.len() <= 20,
                rest@ == orig.skip(done + part.len()),
                rest.len() + done + part.len() == orig.len(),
                part@ == orig.subrange(done as int, done + part.len()),
            decreases rest.len(),
        {
            let x = rest.remove(0);
            proof {
                assert(orig.skip(done + part.len() + 1) =~= orig.skip(done + part.len()).remove(0));
                assert(orig[done + part.len()] == x);
            }
            part.push(x);
            assert(part@ =~= orig.subrange(done as int, done + part.len()));
        }
        assert(part@ == form_chunk(orig, k));
        let plan = form_plan(&part, 0, PER_FORM_ROW);
        plans.push(plan);
        done = done + part.len();
        assert(plans@[k] == plan);
    }
    plans
}

} // verus!
