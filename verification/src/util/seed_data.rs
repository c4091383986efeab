//! Seed data read off the rows of a sheet.

use vstd::prelude::*;
use vstd::slice::slice_subrange;
use mongodb::bson::Bson;
use mongodb::bson::Document;
use crate::util::document::distinct_keys;
use crate::util::document::empty_document;
use crate::util::document::fields;
use crate::util::document::has_key;
use crate::util::document::key_index;
use crate::util::document::lemma_upsert_distinct;
use crate::util::document::put;
use crate::util::document::upsert;
use crate::util::document::value_of;
use crate::util::document::Fields;
use crate::util::document::Value;
use crate::util::document::ValueView;

verus! {

/// One cell of a sheet.
#[derive(Debug, Clone, PartialEq)]
pub enum Cell {
    /// A signed integer.
    Int(i64),
    /// A floating-point number, already in the form of the database.
    Float(Bson),
    /// A string.
    Text(String),
    /// A boolean.
    Bool(bool),
    /// A date, a time, a duration or an error: filled, but without a value
    /// that goes into a document.
    Other,
    /// An empty cell.
    Empty,
}

/// A cell over sequences of characters.
pub enum CellView {
    Int(i64),
    Float(ValueView),
    Text(Seq<char>),
    Bool(bool),
    Other,
    Empty,
}

impl View for Cell {
    type V = CellView;

    open spec fn view(&self) -> CellView {
        match self {
            Cell::Int(number) => CellView::Int(*number),
            Cell::Float(number) => CellView::Float(value_of(*number)),
            Cell::Text(text) => CellView::Text(text@),
            Cell::Bool(flag) => CellView::Bool(*flag),
            Cell::Other => CellView::Other,
            Cell::Empty => CellView::Empty,
        }
    }
}

impl DeepView for Cell {
    type V = CellView;

    open spec fn deep_view(&self) -> CellView {
        self@
    }
}

impl CellView {
    /// The name that a cell of the header row gives its column: the string
    /// of a string cell, and the empty name for any other.
    pub open spec fn header(self) -> Seq<char> {
        match self {
            CellView::Text(text) => text,
            _ => Seq::empty(),
        }
    }

    /// The value that a cell of a data row gives its field. An empty cell
    /// and one without a value give none.
    pub open spec fn value(self) -> Option<ValueView> {
        match self {
            CellView::Text(text) => Some(ValueView::Text(text)),
            CellView::Float(number) => Some(number),
            CellView::Int(number) => Some(ValueView::Int64(number)),
            CellView::Bool(flag) => Some(ValueView::Boolean(flag)),
            CellView::Other => None,
            CellView::Empty => None,
        }
    }
}

/// Every cell of the row is empty.
pub open spec fn blank(row: Seq<CellView>) -> bool {
    forall|i: int| 0 <= i < row.len() ==> row[i] is Empty
}

/// The first cell from `from` on that is not empty; the length of the row
/// where there is none.
pub open spec fn filled_from(row: Seq<CellView>, from: int) -> int
    decreases row.len() - from,
{
    if from < 0 || from >= row.len() {
        row.len() as int
    } else if !(row[from] is Empty) {
        from
    } else {
        filled_from(row, from + 1)
    }
}

/// The first row from `from` on that is not blank; the number of rows where
/// there is none.
pub open spec fn header_from(rows: Seq<Seq<CellView>>, from: int) -> int
    decreases rows.len() - from,
{
    if from < 0 || from >= rows.len() {
        rows.len() as int
    } else if !blank(rows[from]) {
        from
    } else {
        header_from(rows, from + 1)
    }
}

/// The names that the cells give, in order, the empty names left out.
pub open spec fn names_of(cells: Seq<CellView>) -> Seq<Seq<char>> {
    cells.map_values(|cell: CellView| cell.header()).filter(|name: Seq<char>| name.len() > 0)
}

/// The names that the cells from `start` on give; none where the row does
/// not reach that far.
pub open spec fn names_from(row: Seq<CellView>, start: int) -> Seq<Seq<char>> {
    if 0 <= start <= row.len() {
        names_of(row.skip(start))
    } else {
        Seq::empty()
    }
}

/// A row gives a document when it reaches beyond the first column of the
/// table and is not blank.
pub open spec fn has_data(row: Seq<CellView>, start: int) -> bool {
    row.len() > start && !blank(row)
}

/// The rows that give a document, in order.
pub open spec fn data_rows(rows: Seq<Seq<CellView>>, start: int) -> Seq<Seq<CellView>> {
    rows.filter(|row: Seq<CellView>| has_data(row, start))
}

/// The fields after the first `n` cells of the row have been set under the
/// first `n` names, one after the other.
pub open spec fn row_fields(names: Seq<Seq<char>>, row: Seq<CellView>, n: nat) -> Fields
    decreases n,
{
    if n == 0 {
        Seq::empty()
    } else {
        let before = row_fields(names, row, (n - 1) as nat);
        match row[n - 1].value() {
            Some(value) => upsert(before, names[n - 1], value),
            None => before,
        }
    }
}

/// The fields of the document that a row gives under the names: name and
/// cell are paired by position, as far as both reach.
pub open spec fn document_fields(names: Seq<Seq<char>>, row: Seq<CellView>) -> Fields {
    if names.len() <= row.len() {
        row_fields(names, row, names.len())
    } else {
        row_fields(names, row, row.len())
    }
}

/// The documents of a sheet, each by its fields; `None` where every row is
/// blank. The first row that is not blank is the header row, and its first
/// cell that is not empty marks the first column of the table. Every later
/// row that has data gives one document, from that column on.
pub open spec fn sheet_fields(rows: Seq<Seq<CellView>>) -> Option<Seq<Fields>> {
    let header = header_from(rows, 0);
    if header >= rows.len() {
        None
    } else {
        let start = filled_from(rows[header], 0);
        let names = names_from(rows[header], start);
        let data = data_rows(rows.skip(header + 1), start);
        Some(Seq::new(data.len(), |k: int| document_fields(names, data[k].skip(start))))
    }
}

/// The fields of each document.
pub open spec fn all_fields(documents: Seq<Document>) -> Seq<Fields> {
    Seq::new(documents.len(), |k: int| fields(documents[k]))
}

/// The fields after the first `n` cells of the row have been put one behind
/// the other under the first `n` names, the cells without a value left out.
pub open spec fn paired_fields(names: Seq<Seq<char>>, row: Seq<CellView>, n: nat) -> Fields
    decreases n,
{
    if n == 0 {
        Seq::empty()
    } else {
        let before = paired_fields(names, row, (n - 1) as nat);
        match row[n - 1].value() {
            Some(value) => before.push((names[n - 1], value)),
            None => before,
        }
    }
}

/// Every field of a row's document has one of the names that were paired.
pub proof fn lemma_row_fields_named(names: Seq<Seq<char>>, row: Seq<CellView>, n: nat)
    ensures
        forall|i: int|
            0 <= i < row_fields(names, row, n).len() ==> exists|j: int|
                0 <= j < n && #[trigger] row_fields(names, row, n)[i].0 == names[j],
    decreases n,
{
    if n > 0 {
        let before = row_fields(names, row, (n - 1) as nat);
        let after = row_fields(names, row, n);
        lemma_row_fields_named(names, row, (n - 1) as nat);
        assert forall|i: int| 0 <= i < after.len() implies exists|j: int|
            0 <= j < n && #[trigger] after[i].0 == names[j] by {
            if i < before.len() && after[i].0 == before[i].0 {
                let j = choose|j: int| 0 <= j < n - 1 && before[i].0 == names[j];
            } else {
            }
        }
    }
}

/// No document of a row has two fields of one name.
pub proof fn lemma_row_fields_distinct(names: Seq<Seq<char>>, row: Seq<CellView>, n: nat)
    ensures
        distinct_keys(row_fields(names, row, n)),
    decreases n,
{
    if n > 0 {
        lemma_row_fields_distinct(names, row, (n - 1) as nat);
        let before = row_fields(names, row, (n - 1) as nat);
        match row[n - 1].value() {
            Some(value) => {
                lemma_upsert_distinct(before, names[n - 1], value);
            },
            None => {},
        }
    }
}

/// Under names that are all different, the document of a row holds one
/// field for each cell with a value, in the order of the cells: nothing is
/// replaced.
pub proof fn lemma_row_fields_paired(names: Seq<Seq<char>>, row: Seq<CellView>, n: nat)
    requires
        n <= names.len(),
        forall|i: int, j: int| 0 <= i < j < n ==> names[i] != names[j],
    ensures
        row_fields(names, row, n) == paired_fields(names, row, n),
    decreases n,
{
    if n > 0 {
        let before = row_fields(names, row, (n - 1) as nat);
        lemma_row_fields_paired(names, row, (n - 1) as nat);
        lemma_row_fields_named(names, row, (n - 1) as nat);
        if has_key(before, names[n - 1]) {
            let i = key_index(before, names[n - 1]);
            let j = choose|j: int| 0 <= j < n - 1 && before[i].0 == names[j];
        }
    }
}

/// Why a sheet gives no documents.
#[derive(Debug, Clone, Copy, PartialEq, Eq, Structural)]
pub enum SheetError {
    /// Every row of the sheet is blank.
    NoHeaderRow,
}

impl SheetError {
    /// The line shown to a person for this error.
    pub fn message(&self) -> (text: String)
        ensures
            text@ == "No non-empty header row found"@,
    {
        String::from_str("No non-empty header row found")
    }
}

proof fn lemma_names_push(cells: Seq<CellView>, cell: CellView)
    ensures
        names_of(cells.push(cell)) == if cell.header().len() > 0 {
            names_of(cells).push(cell.header())
        } else {
            names_of(cells)
        },
{
    reveal(Seq::filter);
    let header = |cell: CellView| cell.header();
    assert(cells.push(cell).map_values(header).drop_last() =~= cells.map_values(header));
}

proof fn lemma_data_push(rows: Seq<Seq<CellView>>, row: Seq<CellView>, start: int)
    ensures
        data_rows(rows.push(row), start) == if has_data(row, start) {
            data_rows(rows, start).push(row)
        } else {
            data_rows(rows, start)
        },
{
    reveal(Seq::filter);
    assert(rows.push(row).drop_last() =~= rows);
}

impl Cell {
    /// Whether the cell is empty.
    pub fn is_empty(&self) -> (empty: bool)
        ensures
            empty == (self@ is Empty),
    {
        match self {
            Cell::Empty => true,
            _ => false,
        }
    }

    /// The string of a string cell.
    pub fn get_string(&self) -> (text: Option<&String>)
        ensures
            match text {
                Some(text) => self@ == CellView::Text(text@),
                None => !(self@ is Text),
            },
    {
        match self {
            Cell::Text(text) => Some(text),
            _ => None,
        }
    }
}

/// The place of the first cell from `from` on that is not empty, or the
/// length of the row.
fn first_filled(row: &Vec<Cell>) -> (at: usize)
    ensures
        at == filled_from(row.deep_view(), 0),
        at <= row.len(),
        at < row.len() ==> !(row.deep_view()[at as int] is Empty),
        forall|i: int| 0 <= i < at ==> row.deep_view()[i] is Empty,
{
    let mut at: usize = 0;
    while at < row.len()
        invariant
            at <= row.len(),
            filled_from(row.deep_view(), 0) == filled_from(row.deep_view(), at as int),
            forall|i: int| 0 <= i < at ==> row.deep_view()[i] is Empty,
        decreases row.len() - at,
    {
        if !row[at].is_empty() {
            return at;
        }
        at = at + 1;
    }
    at
}

/// The place of the first row that is not blank, or the number of rows.
fn first_filled_row(rows: &Vec<Vec<Cell>>) -> (at: usize)
    ensures
        at == header_from(rows.deep_view(), 0),
        at <= rows.len(),
        at < rows.len() ==> !blank(rows.deep_view()[at as int]),
{
    let ghost sheet = rows.deep_view();
    let mut at: usize = 0;
    while at < rows.len()
        invariant
            sheet == rows.deep_view(),
            at <= rows.len(),
            header_from(sheet, 0) == header_from(sheet, at as int),
        decreases rows.len() - at,
    {
        let filled = first_filled(&rows[at]);
        if filled < rows[at].len() {
            return at;
        }
        at = at + 1;
    }
    at
}

/// Data seed options for a MongoDB instance, with the means to read the
/// documents off the rows of a sheet.
#[derive(Debug, Clone, PartialEq)]
pub struct SeedData {
    /// The name of the database to seed.
    pub database_name: String,
    /// The name of the collection to seed.
    pub collection_name: String,
    /// The documents to be seeded into the collection.
    pub documents: Vec<Document>,
}

impl SeedData {
    /// Seed data with empty names and no documents.
    pub fn new() -> (seed: Self)
        ensures
            seed.database_name@ == Seq::<char>::empty(),
            seed.collection_name@ == Seq::<char>::empty(),
            seed.documents@ == Seq::<Document>::empty(),
    {
        SeedData {
            database_name: String::new(),
            collection_name: String::new(),
            documents: Vec::new(),
        }
    }

    /// Seed data with the given names and documents. Nothing is taken from
    /// `self`.
    pub fn new_in(
        &self,
        database_name: &str,
        collection_name: &str,
        documents: Vec<Document>,
    ) -> (seed: Self)
        ensures
            seed.database_name@ == database_name@,
            seed.collection_name@ == collection_name@,
            seed.documents == documents,
    {
        SeedData {
            database_name: String::from_str(database_name),
            collection_name: String::from_str(collection_name),
            documents,
        }
    }

    /// Seed data with the given names and documents, the names given as
    /// `String`s. Nothing is taken from `self`.
    pub fn new_with_string(
        &self,
        database_name: &String,
        collection_name: &String,
        documents: Vec<Document>,
    ) -> (seed: Self)
        ensures
            seed.database_name@ == database_name@,
            seed.collection_name@ == collection_name@,
            seed.documents == documents,
    {
        SeedData {
            database_name: database_name.clone(),
            collection_name: collection_name.clone(),
            documents,
        }
    }

    /// Reads the documents off the rows of a sheet. The first row that is
    /// not blank holds the column names, from its first cell that is not
    /// empty on; empty names are left out and the others move up. Every
    /// later row that reaches that column and is not blank gives one
    /// document. A sheet of blank rows is refused.
    pub fn from_excel(&self, rows: &Vec<Vec<Cell>>) -> (result: Result<Vec<Document>, SheetError>)
        ensures
            match result {
                Ok(documents) => sheet_fields(rows.deep_view()) == Some(all_fields(documents@)),
                Err(error) => error == SheetError::NoHeaderRow && sheet_fields(rows.deep_view())
                    is None,
            },
    {
        let ghost sheet = rows.deep_view();
        let header = first_filled_row(rows);
        if header >= rows.len() {
            return Err(SheetError::NoHeaderRow);
        }
        let header_row = &rows[header];
        let start = first_filled(header_row);
        let names = Self::header_names(header_row, start);
        let ghost later = sheet.skip(header + 1);
        let mut documents: Vec<Document> = Vec::new();
        let mut i: usize = header + 1;
        while i < rows.len()
            invariant
                sheet == rows.deep_view(),
                later == sheet.skip(header + 1),
                header < i <= rows.len(),
                documents.len() == data_rows(later.take(i - header - 1), start as int).len(),
                forall|k: int|
                    0 <= k < documents.len() ==> fields(#[trigger] documents[k]) == document_fields(
                        names.deep_view(),
                        data_rows(later.take(i - header - 1), start as int)[k].skip(start as int),
                    ),
            decreases rows.len() - i,
        {
            let row = &rows[i];
            let ghost seen = later.take(i - header - 1);
            assert(later.take(i - header) =~= seen.push(row.deep_view()));
            proof {
                lemma_data_push(seen, row.deep_view(), start as int);
            }
            let filled = first_filled(row);
            if row.len() > start && filled < row.len() {
                let cells = slice_subrange(row.as_slice(), start, row.len());
                assert(cells.deep_view() =~= row.deep_view().skip(start as int));
                let document = Self::row_to_document(&names, cells);
                documents.push(document);
            }
            i = i + 1;
        }
        assert(later.take(rows.len() - header - 1) =~= later);
        Ok(documents)
    }

    /// The column names of the table: the strings of the cells of the header
    /// row from `start` on, the empty ones left out. A cell that is no
    /// string counts as empty.
    pub fn header_names(row: &Vec<Cell>, start: usize) -> (names: Vec<String>)
        ensures
            names.deep_view() == names_from(row.deep_view(), start as int),
    {
        let mut names: Vec<String> = Vec::new();
        if start > row.len() {
            return names;
        }
        let mut j: usize = start;
        let ghost cells = row.deep_view();
        while j < row.len()
            invariant
                cells == row.deep_view(),
                start <= j <= row.len(),
                names.deep_view() == names_of(cells.subrange(start as int, j as int)),
            decreases row.len() - j,
        {
            let ghost seen = cells.subrange(start as int, j as int);
            assert(cells.subrange(start as int, j + 1) =~= seen.push(cells[j as int]));
            proof {
                lemma_names_push(seen, cells[j as int]);
            }
            if let Some(text) = row[j].get_string() {
                if !text.as_str().is_empty() {
                    names.push(text.clone());
                }
            }
            j = j + 1;
        }
        names
    }

    /// The document of one row: each name is set to the value of the cell at
    /// its position, in order, as far as names and cells reach. A cell
    /// without a value sets nothing; a name that comes again takes the later
    /// value and keeps its earlier place.
    pub fn row_to_document(headers: &Vec<String>, row: &[Cell]) -> (document: Document)
        ensures
            fields(document) == document_fields(headers.deep_view(), row.deep_view()),
    {
        let mut document = empty_document();
        let count: usize = if headers.len() <= row.len() {
            headers.len()
        } else {
            row.len()
        };
        let ghost names = headers.deep_view();
        let ghost cells = row.deep_view();
        let mut i: usize = 0;
        while i < count
            invariant
                names == headers.deep_view(),
                cells == row.deep_view(),
                i <= count,
                count <= headers.len(),
                count <= row.len(),
                fields(document) == row_fields(names, cells, i as nat),
            decreases count - i,
        {
            match &row[i] {
                Cell::Text(text) => {
                    put(&mut document, &headers[i], Value::Text(text.clone()));
                },
                Cell::Float(number) => {
                    put(&mut document, &headers[i], Value::Double(number.clone()));
                },
                Cell::Int(number) => {
                    put(&mut document, &headers[i], Value::Int64(*number));
                },
                Cell::Bool(flag) => {
                    put(&mut document, &headers[i], Value::Boolean(*flag));
                },
                _ => {},
            }
            i = i + 1;
        }
        document
    }
}

} // verus!
