use mongodb::bson::Bson;
use mongodb::bson::Document;
use temp_mongo::util::Cell;
use temp_mongo::util::SeedData;
use temp_mongo::util::SheetError;
use temp_mongo::DataSeeder;

fn text(s: &str) -> String {
    s.to_string()
}

fn t(s: &str) -> Cell {
    Cell::Text(s.to_string())
}

fn names(list: &[&str]) -> Vec<String> {
    list.iter().map(|s| s.to_string()).collect()
}

fn entries(document: &Document) -> Vec<(String, Bson)> {
    document.iter().map(|(key, value)| (key.clone(), value.clone())).collect()
}

fn one_field() -> Document {
    let mut document = Document::new();
    document.insert("name", "Alice");
    document
}

#[test]
fn a_row_becomes_a_document_field_by_field() {
    let row = vec![t("Alice"), Cell::Int(30), Cell::Bool(true), Cell::Float(Bson::Double(1.5))];
    let document = SeedData::row_to_document(&names(&["name", "age", "member", "score"]), &row);
    assert_eq!(
        entries(&document),
        vec![
            (text("name"), Bson::String(text("Alice"))),
            (text("age"), Bson::Int64(30)),
            (text("member"), Bson::Boolean(true)),
            (text("score"), Bson::Double(1.5)),
        ]
    );
}

#[test]
fn no_names_give_an_empty_document() {
    let document = SeedData::row_to_document(&Vec::new(), &[t("Alice"), Cell::Int(1)]);
    assert!(document.is_empty());
    let document = SeedData::row_to_document(&names(&["a"]), &[]);
    assert!(document.is_empty());
}

#[test]
fn cells_without_a_value_set_nothing() {
    let row = vec![Cell::Empty, t("x"), Cell::Other, Cell::Int(-4)];
    let document = SeedData::row_to_document(&names(&["a", "b", "c", "d"]), &row);
    assert_eq!(
        entries(&document),
        vec![(text("b"), Bson::String(text("x"))), (text("d"), Bson::Int64(-4))]
    );
}

#[test]
fn names_and_cells_are_paired_as_far_as_both_reach() {
    let document = SeedData::row_to_document(&names(&["a", "b", "c"]), &[Cell::Int(1)]);
    assert_eq!(entries(&document), vec![(text("a"), Bson::Int64(1))]);
    let document =
        SeedData::row_to_document(&names(&["a"]), &[Cell::Int(1), Cell::Int(2), Cell::Int(3)]);
    assert_eq!(entries(&document), vec![(text("a"), Bson::Int64(1))]);
}

#[test]
fn a_name_that_comes_again_takes_the_later_value_in_the_earlier_place() {
    let row = vec![Cell::Int(1), t("mid"), Cell::Int(3)];
    let document = SeedData::row_to_document(&names(&["k", "m", "k"]), &row);
    assert_eq!(
        entries(&document),
        vec![(text("k"), Bson::Int64(3)), (text("m"), Bson::String(text("mid")))]
    );
    let row = vec![Cell::Int(1), t("mid"), Cell::Empty];
    let document = SeedData::row_to_document(&names(&["k", "m", "k"]), &row);
    assert_eq!(
        entries(&document),
        vec![(text("k"), Bson::Int64(1)), (text("m"), Bson::String(text("mid")))]
    );
}

#[test]
fn the_extremes_of_the_integers_pass() {
    let row = vec![Cell::Int(i64::MIN), Cell::Int(i64::MAX), Cell::Bool(false), t("")];
    let document = SeedData::row_to_document(&names(&["lo", "hi", "no", "blank"]), &row);
    assert_eq!(document.get_i64("lo"), Ok(i64::MIN));
    assert_eq!(document.get_i64("hi"), Ok(i64::MAX));
    assert_eq!(document.get_bool("no"), Ok(false));
    assert_eq!(document.get_str("blank"), Ok(""));
}

#[test]
fn a_sheet_with_a_header_and_two_rows() {
    let rows = vec![
        vec![t("name"), t("age")],
        vec![t("Alice"), Cell::Int(30)],
        vec![t("Bob"), Cell::Int(25)],
    ];
    let documents = SeedData::new().from_excel(&rows).unwrap();
    assert_eq!(documents.len(), 2);
    assert_eq!(
        entries(&documents[0]),
        vec![(text("name"), Bson::String(text("Alice"))), (text("age"), Bson::Int64(30))]
    );
    assert_eq!(
        entries(&documents[1]),
        vec![(text("name"), Bson::String(text("Bob"))), (text("age"), Bson::Int64(25))]
    );
}

#[test]
fn the_table_may_start_further_down_and_further_right() {
    let rows = vec![
        vec![Cell::Empty, Cell::Empty, Cell::Empty],
        vec![],
        vec![Cell::Empty, t("city"), t("open")],
        vec![t("left of the table"), t("Delft"), Cell::Bool(true)],
        vec![Cell::Empty, t("Gouda"), Cell::Bool(false)],
    ];
    let documents = SeedData::new().from_excel(&rows).unwrap();
    assert_eq!(documents.len(), 2);
    assert_eq!(
        entries(&documents[0]),
        vec![(text("city"), Bson::String(text("Delft"))), (text("open"), Bson::Boolean(true))]
    );
    assert_eq!(
        entries(&documents[1]),
        vec![(text("city"), Bson::String(text("Gouda"))), (text("open"), Bson::Boolean(false))]
    );
}

#[test]
fn blank_rows_and_short_rows_give_no_document() {
    let rows = vec![
        vec![Cell::Empty, t("a"), t("b")],
        vec![Cell::Empty, Cell::Empty, Cell::Empty],
        vec![t("only left")],
        vec![],
        vec![Cell::Empty, Cell::Int(1), Cell::Int(2)],
    ];
    let documents = SeedData::new().from_excel(&rows).unwrap();
    assert_eq!(documents.len(), 1);
    assert_eq!(
        entries(&documents[0]),
        vec![(text("a"), Bson::Int64(1)), (text("b"), Bson::Int64(2))]
    );
}

#[test]
fn a_row_filled_only_left_of_the_table_gives_an_empty_document() {
    let rows = vec![
        vec![Cell::Empty, t("a")],
        vec![t("note"), Cell::Empty],
        vec![Cell::Other, Cell::Other],
    ];
    let documents = SeedData::new().from_excel(&rows).unwrap();
    assert_eq!(documents.len(), 2);
    assert!(documents[0].is_empty());
    assert!(documents[1].is_empty());
}

#[test]
fn header_cells_without_a_name_are_left_out_and_the_names_move_up() {
    let rows = vec![
        vec![t("a"), Cell::Empty, t("c"), Cell::Int(5), t(""), t("f")],
        vec![Cell::Int(1), Cell::Int(2), Cell::Int(3), Cell::Int(4), Cell::Int(5), Cell::Int(6)],
    ];
    assert_eq!(SeedData::header_names(&rows[0], 0), names(&["a", "c", "f"]));
    assert_eq!(SeedData::header_names(&rows[0], 2), names(&["c", "f"]));
    assert_eq!(SeedData::header_names(&rows[0], 6), Vec::<String>::new());
    assert_eq!(SeedData::header_names(&rows[0], 7), Vec::<String>::new());
    let documents = SeedData::new().from_excel(&rows).unwrap();
    assert_eq!(
        entries(&documents[0]),
        vec![
            (text("a"), Bson::Int64(1)),
            (text("c"), Bson::Int64(2)),
            (text("f"), Bson::Int64(3)),
        ]
    );
}

#[test]
fn a_header_row_that_is_filled_without_strings_gives_empty_documents() {
    let rows = vec![vec![Cell::Int(1), Cell::Bool(true)], vec![t("x"), t("y")]];
    let documents = SeedData::new().from_excel(&rows).unwrap();
    assert_eq!(documents.len(), 1);
    assert!(documents[0].is_empty());
}

#[test]
fn a_header_alone_gives_no_documents() {
    let rows = vec![vec![t("a"), t("b")]];
    assert_eq!(SeedData::new().from_excel(&rows), Ok(Vec::new()));
}

#[test]
fn a_sheet_of_blank_rows_is_refused() {
    assert_eq!(SeedData::new().from_excel(&Vec::new()), Err(SheetError::NoHeaderRow));
    let rows = vec![vec![], vec![Cell::Empty], vec![Cell::Empty, Cell::Empty]];
    assert_eq!(SeedData::new().from_excel(&rows), Err(SheetError::NoHeaderRow));
    assert_eq!(SheetError::NoHeaderRow.message(), "No non-empty header row found");
}

#[test]
fn a_floating_point_cell_goes_in_as_it_is() {
    let rows = vec![vec![t("ratio")], vec![Cell::Float(Bson::Double(-0.25))]];
    let documents = SeedData::new().from_excel(&rows).unwrap();
    assert_eq!(documents[0].get_f64("ratio"), Ok(-0.25));
    assert_eq!(rows[1][0], Cell::Float(Bson::Double(-0.25)));
}

#[test]
fn cells_tell_what_they_are() {
    assert!(Cell::Empty.is_empty());
    assert!(!Cell::Other.is_empty());
    assert!(!t("").is_empty());
    assert!(!Cell::Int(0).is_empty());
    assert_eq!(t("abc").get_string(), Some(&text("abc")));
    assert_eq!(Cell::Int(1).get_string(), None);
    assert_eq!(Cell::Empty.get_string(), None);
    assert_eq!(Cell::Other.get_string(), None);
}

#[test]
fn seed_data_starts_empty() {
    let seed = SeedData::new();
    assert_eq!(seed.database_name, "");
    assert_eq!(seed.collection_name, "");
    assert!(seed.documents.is_empty());
    let seeder = DataSeeder::new();
    assert_eq!(seeder.database_name, "");
    assert_eq!(seeder.collection_name, "");
    assert!(seeder.documents.is_empty());
}

#[test]
fn seed_data_takes_names_and_documents() {
    let seed = SeedData::new().new_in("shop", "orders", vec![one_field()]);
    assert_eq!(seed.database_name, "shop");
    assert_eq!(seed.collection_name, "orders");
    assert_eq!(seed.documents, vec![one_field()]);
    let seed = seed.new_with_string(&text("shop2"), &text("orders2"), Vec::new());
    assert_eq!(seed.database_name, "shop2");
    assert_eq!(seed.collection_name, "orders2");
    assert!(seed.documents.is_empty());
}

#[test]
fn a_seeder_takes_names_and_documents() {
    let seeder = DataSeeder::new().new_in("test_3", "trex", vec![one_field(), one_field()]);
    assert_eq!(seeder.database_name, "test_3");
    assert_eq!(seeder.collection_name, "trex");
    assert_eq!(seeder.documents, vec![one_field(), one_field()]);
    let other = seeder.new_in_with_string(&text("d"), &text("c"), vec![one_field()]);
    assert_eq!(other.database_name, "d");
    assert_eq!(other.collection_name, "c");
    assert_eq!(other.documents.len(), 1);
    assert_eq!(seeder.documents.len(), 2);
}
