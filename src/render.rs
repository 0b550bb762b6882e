use vstd::prelude::*;
use crate::records::{
    Kind, Nodegroup, Record, field_names, lemma_values_match_names, list_columns, node_objects,
};
use crate::value::{
    Entry, EntryView, Field, FieldView, MemberView, Object, ValueView, cell_text, fields_view,
    scalar_member,
};
use term_table::row::Row;
use term_table::table_cell::{Alignment, TableCell};
use term_table::{Table, TableStyle};

verus! {

/// How a result is shown.
#[derive(Clone, Copy, Debug, PartialEq, Eq, Structural)]
pub enum OutputMode {
    Table,
    Json,
}

/// The structured form of a result: one object, or a sequence of objects.
/// Each object keeps the full field set of its record, nested members
/// included, with natural types; an absent field is kept as absent (`null` in JSON).
pub enum Document {
    Object(Object),
    List(Vec<Object>),
}

pub enum DocumentView {
    Object(Seq<MemberView>),
    List(Seq<Seq<MemberView>>),
}

pub open spec fn objects_view(s: Seq<Object>) -> Seq<Seq<MemberView>> {
    s.map_values(|o: Object| o@)
}

/// The document of `items`: a sequence of them, or the one object alone.
pub open spec fn document_of(items: Seq<Object>, list: bool) -> DocumentView {
    if list {
        DocumentView::List(objects_view(items))
    } else {
        DocumentView::Object(items[0]@)
    }
}

impl View for Document {
    type V = DocumentView;

    open spec fn view(&self) -> DocumentView {
        match self {
            Document::Object(o) => DocumentView::Object(o@),
            Document::List(items) => DocumentView::List(objects_view(items@)),
        }
    }
}

/// What a remote call handed back, ready to be rendered.
pub enum Response {
    /// One record (get, create).
    One(Record),
    /// The records of one kind, in the order received (list).
    Many(Kind, Vec<Record>),
    /// Success without a body (delete, reinstall).
    Done,
}

/// What is to be written out.
pub enum Rendered {
    Text(String),
    Structured(Document),
    Nothing,
}

pub enum RenderedView {
    Text(Seq<char>),
    Structured(DocumentView),
    Nothing,
}

impl View for Rendered {
    type V = RenderedView;

    open spec fn view(&self) -> RenderedView {
        match self {
            Rendered::Text(s) => RenderedView::Text(s@),
            Rendered::Structured(d) => RenderedView::Structured(d@),
            Rendered::Nothing => RenderedView::Nothing,
        }
    }
}

#[verifier::external_type_specification]
#[verifier::external_body]
pub struct ExJsonError(serde_json::Error);

/// The pretty-printed JSON text of a structured document, as serde_json
/// writes it: an object per record, keys in field order, `null` for an
/// absent value.
pub uninterp spec fn json_text(doc: DocumentView) -> Seq<char>;

/// The text of a single-record table, laid out by term_table.
pub uninterp spec fn record_table_text(rows: Seq<Seq<Seq<char>>>) -> Seq<char>;

/// The text of a list table with a centred header row, laid out by term_table.
pub uninterp spec fn list_table_text(header: Seq<Seq<char>>, rows: Seq<Seq<Seq<char>>>) -> Seq<char>;

/// A key-value row: the field's name, then the text of its value.
pub open spec fn key_value_row(f: FieldView) -> Seq<Seq<char>> {
    seq![f.name, cell_text(f.value)]
}

/// The rows of a single-record table: one per field, none left out.
pub open spec fn record_rows(d: Seq<FieldView>) -> Seq<Seq<Seq<char>>> {
    d.map_values(|f: FieldView| key_value_row(f))
}

/// The cells of one list-table row: the texts of the chosen columns.
pub open spec fn list_row(d: Seq<FieldView>, columns: Seq<usize>) -> Seq<Seq<char>> {
    columns.map_values(|c: usize| cell_text(d[c as int].value))
}

/// The header of a list table of kind `k`.
pub open spec fn list_header(k: Kind) -> Seq<Seq<char>> {
    list_columns(k).map_values(|c: usize| field_names(k)[c as int])
}

/// The rows under the header of a list table.
pub open spec fn list_rows(records: Seq<Record>) -> Seq<Seq<Seq<char>>> {
    records.map_values(|r: Record| list_row(r.descriptor(), list_columns(r.kind())))
}

pub open spec fn list_document(records: Seq<Record>) -> Seq<Seq<MemberView>> {
    records.map_values(|r: Record| r.structured())
}

pub open spec fn spec_render(resp: Response, mode: OutputMode) -> RenderedView {
    match resp {
        Response::One(r) => match mode {
            OutputMode::Table => RenderedView::Text(record_table_text(record_rows(r.descriptor()))),
            OutputMode::Json => RenderedView::Structured(DocumentView::Object(r.structured())),
        },
        Response::Many(k, records) => match mode {
            OutputMode::Table => RenderedView::Text(
                list_table_text(list_header(k), list_rows(records@)),
            ),
            OutputMode::Json => RenderedView::Structured(DocumentView::List(list_document(records@))),
        },
        Response::Done => RenderedView::Nothing,
    }
}

/// Relies on serde_json's `to_string_pretty` on the `serde_json::Value`
/// that mirrors the objects member for member (`list` says whether they
/// form a sequence or stand for one object): its text depends on them
/// alone, and it fails only on a failing `Serialize` impl or a map with
/// non-string keys, neither of which such a value holds.
#[verifier::external_body]
fn encode_json(items: &Vec<Object>, list: bool) -> (r: Result<String, serde_json::Error>)
    requires
        list || items@.len() == 1,
    ensures
        r is Ok,
        r matches Ok(s) ==> s@ == json_text(document_of(items@, list)),
{
    let object = |o: &Object| -> serde_json::Value {
        o.members.iter().map(|(k, e)| (k, match e {
            Entry::Flag(b) => serde_json::Value::Bool(*b),
            Entry::Text(t) => t.clone().into(),
            Entry::Count(n) => (*n).into(),
            Entry::Texts(kv) => serde_json::Value::from_iter(kv.clone()),
            Entry::Flags(kv) => serde_json::Value::from_iter(kv.clone()),
            Entry::Rows(rows) => rows.clone().into_iter().map(serde_json::Value::from_iter).collect()
        })).collect()
    };
    serde_json::to_string_pretty(&if list { items.iter().map(object).collect() } else { object(&items[0]) })
}

/// Relies on term_table's `Table::render` (simple style, no separators
/// between rows): its text depends on the cells alone.
#[verifier::external_body]
fn render_record_table(rows: &Vec<Vec<String>>) -> (r: String)
    ensures
        r@ == record_table_text(rows.deep_view()),
{
    let mut table = Table::new();
    table.style = TableStyle::simple();
    table.separate_rows = false;
    for row in rows.iter() {
        table.add_row(Row::new(row.iter()));
    }
    table.render()
}

/// Relies on term_table's `Table::render` (simple style, header cells
/// centred): its text depends on the cells alone.
#[verifier::external_body]
fn render_list_table(header: &Vec<String>, rows: &Vec<Vec<String>>) -> (r: String)
    ensures
        r@ == list_table_text(header.deep_view(), rows.deep_view()),
{
    let mut table = Table::new();
    table.style = TableStyle::simple();
    let mut head = Row::empty();
    for h in header.iter() {
        head.add_cell(TableCell::builder(h).alignment(Alignment::Center).build());
    }
    table.add_row(head);
    for row in rows.iter() {
        table.add_row(Row::new(row.iter()));
    }
    table.render()
}

/// Each list column names a field of its kind, and the columns keep the
/// order that the fields have in the record.
pub proof fn lemma_list_columns_ordered(k: Kind)
    ensures
        forall|j: int|
            0 <= j < list_columns(k).len() ==> (list_columns(k)[j] as int) < field_names(k).len(),
        forall|i: int, j: int|
            0 <= i < j < list_columns(k).len() ==> list_columns(k)[i] < list_columns(k)[j],
{
}

/// The rows of a single-record table for the given fields.
pub fn key_value_rows(fields: &Vec<Field>) -> (r: Vec<Vec<String>>)
    ensures
        r.deep_view() == record_rows(fields_view(fields@)),
{
    let mut r: Vec<Vec<String>> = Vec::new();
    let mut i: usize = 0;
    while i < fields.len()
        invariant
            i <= fields@.len(),
            r.deep_view() == record_rows(fields_view(fields@)).take(i as int),
        decreases fields@.len() - i,
    {
        let mut row: Vec<String> = Vec::new();
        row.push(fields[i].name.clone());
        row.push(fields[i].value.to_cell());
        assert(row.deep_view() =~= key_value_row(fields@[i as int]@));
        let ghost prev = r@;
        let ghost prev_view = r.deep_view();
        r.push(row);
        assert(r@ == prev.push(row));
        assert(r.deep_view() =~= prev_view.push(row.deep_view()));
        i = i + 1;
        assert(r.deep_view() =~= record_rows(fields_view(fields@)).take(i as int));
    }
    assert(record_rows(fields_view(fields@)).take(i as int) =~= record_rows(fields_view(fields@)));
    r
}

/// The cells of one list-table row: the texts of the given columns.
pub fn list_row_cells(fields: &Vec<Field>, columns: &Vec<usize>) -> (r: Vec<String>)
    requires
        forall|j: int| 0 <= j < columns@.len() ==> (columns@[j] as int) < fields@.len(),
    ensures
        r.deep_view() == list_row(fields_view(fields@), columns@),
{
    let mut r: Vec<String> = Vec::new();
    let mut j: usize = 0;
    while j < columns.len()
        invariant
            j <= columns@.len(),
            forall|m: int| 0 <= m < columns@.len() ==> (columns@[m] as int) < fields@.len(),
            r.deep_view() == list_row(fields_view(fields@), columns@).take(j as int),
        decreases columns@.len() - j,
    {
        let c = columns[j];
        let cell = fields[c].value.to_cell();
        assert(fields_view(fields@)[c as int] == fields@[c as int]@);
        assert(cell@ == list_row(fields_view(fields@), columns@)[j as int]);
        let ghost prev = r@;
        let ghost prev_view = r.deep_view();
        r.push(cell);
        assert(r@ == prev.push(cell));
        assert(r.deep_view() =~= prev_view.push(cell@));
        j = j + 1;
        assert(r.deep_view() =~= list_row(fields_view(fields@), columns@).take(j as int));
    }
    assert(list_row(fields_view(fields@), columns@).take(j as int) =~= list_row(
        fields_view(fields@),
        columns@,
    ));
    r
}

/// The header cells of a list table of kind `k`.
pub fn list_header_cells(k: Kind) -> (r: Vec<String>)
    ensures
        r.deep_view() == list_header(k),
{
    let names = k.field_names();
    let columns = k.list_columns();
    proof {
        lemma_list_columns_ordered(k);
    }
    let mut r: Vec<String> = Vec::new();
    let mut j: usize = 0;
    while j < columns.len()
        invariant
            j <= columns@.len(),
            columns@ == list_columns(k),
            names.deep_view() == field_names(k),
            names@.len() == field_names(k).len(),
            forall|m: int| 0 <= m < columns@.len() ==> (columns@[m] as int) < names@.len(),
            r.deep_view() == list_header(k).take(j as int),
        decreases columns@.len() - j,
    {
        let c = columns[j];
        assert(names.deep_view()[c as int] == names@[c as int]@);
        let name = names[c].clone();
        let ghost prev = r@;
        let ghost prev_view = r.deep_view();
        r.push(name);
        assert(r@ == prev.push(name));
        assert(r.deep_view() =~= prev_view.push(name@));
        j = j + 1;
        assert(r.deep_view() =~= list_header(k).take(j as int));
    }
    assert(list_header(k).take(j as int) =~= list_header(k));
    r
}

/// A single record as a two-column table: one row per field, in order.
pub fn record_table(record: &Record) -> (r: String)
    ensures
        r@ == record_table_text(record_rows(record.descriptor())),
{
    let fields = record.fields();
    let rows = key_value_rows(&fields);
    render_record_table(&rows)
}

/// Records as a table: the header of kind `k`, then one row per record, in
/// the order given. No records gives the header alone.
pub fn list_table(k: Kind, records: &Vec<Record>) -> (r: String)
    ensures
        r@ == list_table_text(list_header(k), list_rows(records@)),
{
    let header = list_header_cells(k);
    let mut rows: Vec<Vec<String>> = Vec::new();
    let mut i: usize = 0;
    while i < records.len()
        invariant
            i <= records@.len(),
            rows.deep_view() == list_rows(records@).take(i as int),
        decreases records@.len() - i,
    {
        let record = &records[i];
        let fields = record.fields();
        let columns = record.get_kind().list_columns();
        proof {
            lemma_list_columns_ordered(record.kind());
        }
        let row = list_row_cells(&fields, &columns);
        let ghost prev = rows@;
        let ghost prev_view = rows.deep_view();
        rows.push(row);
        assert(rows@ == prev.push(row));
        assert(rows.deep_view() =~= prev_view.push(row.deep_view()));
        i = i + 1;
        assert(rows.deep_view() =~= list_rows(records@).take(i as int));
    }
    assert(list_rows(records@).take(i as int) =~= list_rows(records@));
    render_list_table(&header, &rows)
}

/// The structured form of records: a sequence with one object per record,
/// in the order given.
pub fn list_structured(records: &Vec<Record>) -> (r: Vec<Object>)
    ensures
        objects_view(r@) == list_document(records@),
{
    let mut r: Vec<Object> = Vec::new();
    let mut i: usize = 0;
    while i < records.len()
        invariant
            i <= records@.len(),
            objects_view(r@) == list_document(records@).take(i as int),
        decreases records@.len() - i,
    {
        let ms = records[i].members();
        let ghost prev = r@;
        r.push(ms);
        assert(r@ == prev.push(ms));
        assert(objects_view(r@) =~= objects_view(prev).push(ms@));
        i = i + 1;
        assert(objects_view(r@) =~= list_document(records@).take(i as int));
    }
    assert(list_document(records@).take(i as int) =~= list_document(records@));
    r
}

/// Renders a response in the given mode.
pub fn render(resp: &Response, mode: OutputMode) -> (r: Rendered)
    ensures
        r@ == spec_render(*resp, mode),
{
    match resp {
        Response::One(record) => match mode {
            OutputMode::Table => Rendered::Text(record_table(record)),
            OutputMode::Json => Rendered::Structured(Document::Object(record.members())),
        },
        Response::Many(k, records) => match mode {
            OutputMode::Table => Rendered::Text(list_table(*k, records)),
            OutputMode::Json => Rendered::Structured(Document::List(list_structured(records))),
        },
        Response::Done => Rendered::Nothing,
    }
}

/// Table and structured rendering of one record show the same plain
/// fields, in the same order, with the same values. The table row of each
/// field holds its name and the text of the value that the document holds,
/// so they differ only in how absence is shown: an empty cell in the table,
/// `Null` in the document. No plain field is left out of either; the
/// document then adds the nested members, which no cell can hold.
pub proof fn lemma_record_forms_agree(r: Record)
    ensures
        ({
            let d = r.descriptor();
            let rows = record_rows(d);
            let doc = r.structured();
            &&& spec_render(Response::One(r), OutputMode::Json) == RenderedView::Structured(
                DocumentView::Object(doc),
            )
            &&& spec_render(Response::One(r), OutputMode::Table) == RenderedView::Text(
                record_table_text(rows),
            )
            &&& d.len() == field_names(r.kind()).len()
            &&& rows.len() == d.len()
            &&& doc.len() == d.len() + r.nested_members().len()
            &&& forall|i: int|
                0 <= i < d.len() ==> {
                    &&& #[trigger] rows[i] == seq![d[i].name, cell_text(d[i].value)]
                    &&& doc[i] == scalar_member(d[i])
                    &&& d[i].name == field_names(r.kind())[i]
                    &&& (d[i].value == ValueView::Null ==> rows[i][1] == Seq::<char>::empty())
                }
            &&& forall|i: int|
                0 <= i < r.nested_members().len() ==> #[trigger] doc[d.len() + i]
                    == r.nested_members()[i]
        }),
{
    lemma_values_match_names(r);
}

/// In list form too, each cell of a record's row is the text of the value
/// that the record's structured form holds in that column.
pub proof fn lemma_list_forms_agree(k: Kind, records: Seq<Record>)
    ensures
        ({
            let rows = list_rows(records);
            let docs = list_document(records);
            &&& rows.len() == records.len() && docs.len() == records.len()
            &&& forall|j: int, c: int|
                0 <= j < records.len() && 0 <= c < list_columns(records[j].kind()).len() ==> {
                    let f = records[j].descriptor()[list_columns(records[j].kind())[c] as int];
                    &&& #[trigger] rows[j][c] == cell_text(f.value)
                    &&& docs[j][list_columns(records[j].kind())[c] as int] == scalar_member(f)
                }
        }),
{
    assert forall|j: int, c: int|
        0 <= j < records.len() && 0 <= c < list_columns(records[j].kind()).len() implies {
        let f = records[j].descriptor()[list_columns(records[j].kind())[c] as int];
        &&& #[trigger] list_rows(records)[j][c] == cell_text(f.value)
        &&& list_document(records)[j][list_columns(records[j].kind())[c] as int] == scalar_member(f)
    } by {
        lemma_values_match_names(records[j]);
        lemma_list_columns_ordered(records[j].kind());
    }
}

/// A nodegroup's `nodes_count` cell counts the node objects that its
/// structured form lists under `nodes`.
pub proof fn lemma_nodes_count_matches(g: Nodegroup)
    ensures
        ({
            let r = Record::Nodegroup(g);
            &&& r.descriptor()[1].name == "nodes_count"@
            &&& r.descriptor()[1].value == ValueView::Int(g.nodes@.len() as u64)
            &&& r.structured()[r.descriptor().len() as int] == (MemberView {
                name: "nodes"@,
                entry: EntryView::List(node_objects(g.nodes@)),
            })
            &&& node_objects(g.nodes@).len() == g.nodes@.len()
        }),
{
    lemma_values_match_names(Record::Nodegroup(g));
}

/// The field order of a kind is fixed: any two records of one kind name
/// the same fields at the same positions. A list table's columns are some
/// of those fields, in the same relative order.
pub proof fn lemma_field_order_stable(r1: Record, r2: Record)
    requires
        r1.kind() == r2.kind(),
    ensures
        r1.descriptor().len() == r2.descriptor().len(),
        forall|i: int|
            0 <= i < r1.descriptor().len() ==> #[trigger] r1.descriptor()[i].name
                == r2.descriptor()[i].name,
        forall|j: int|
            0 <= j < list_header(r1.kind()).len() ==> #[trigger] list_header(r1.kind())[j]
                == r1.descriptor()[list_columns(r1.kind())[j] as int].name,
        forall|i: int, j: int|
            0 <= i < j < list_columns(r1.kind()).len() ==> list_columns(r1.kind())[i]
                < list_columns(r1.kind())[j],
{
    lemma_values_match_names(r1);
    lemma_values_match_names(r2);
    lemma_list_columns_ordered(r1.kind());
}

/// An empty list renders as the header row alone, or as an empty sequence:
/// never as an error.
pub proof fn lemma_empty_list(k: Kind, records: Vec<Record>)
    requires
        records@.len() == 0,
    ensures
        spec_render(Response::Many(k, records), OutputMode::Table) == RenderedView::Text(
            list_table_text(list_header(k), Seq::empty()),
        ),
        spec_render(Response::Many(k, records), OutputMode::Json) == RenderedView::Structured(
            DocumentView::List(Seq::empty()),
        ),
{
    assert(list_rows(records@) =~= Seq::empty());
    assert(list_document(records@) =~= Seq::empty());
}

/// The text of a rendered result: a table as laid out, a document as its
/// JSON text, nothing for a response without a body.
pub open spec fn output_text(r: RenderedView) -> Option<Seq<char>> {
    match r {
        RenderedView::Text(t) => Some(t),
        RenderedView::Structured(d) => Some(json_text(d)),
        RenderedView::Nothing => None,
    }
}

pub open spec fn text_view(o: Option<String>) -> Option<Seq<char>> {
    match o {
        Some(s) => Some(s@),
        None => None,
    }
}

/// Renders a response to the text to write out, if it has any.
pub fn render_text(resp: &Response, mode: OutputMode) -> (r: Option<String>)
    ensures
        text_view(r) == output_text(spec_render(*resp, mode)),
{
    match render(resp, mode) {
        Rendered::Text(t) => Some(t),
        Rendered::Structured(d) => {
            let (items, list) = match d {
                Document::Object(o) => (vec![o], false),
                Document::List(items) => (items, true),
            };
            assert(document_of(items@, list) == d@);
            match encode_json(&items, list) {
                Ok(t) => Some(t),
                Err(_) => None,
            }
        },
        Rendered::Nothing => None,
    }
}

} // verus!
