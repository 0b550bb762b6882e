use vstd::prelude::*;

verus! {

/// What one field of a record holds, as both renderers see it.
pub enum Value {
    /// An optional field that is absent.
    Null,
    Bool(bool),
    Int(u64),
    Text(String),
}

/// The mathematical model of a [`Value`].
pub enum ValueView {
    Null,
    Bool(bool),
    Int(u64),
    Text(Seq<char>),
}

impl View for Value {
    type V = ValueView;

    open spec fn view(&self) -> ValueView {
        match self {
            Value::Null => ValueView::Null,
            Value::Bool(b) => ValueView::Bool(*b),
            Value::Int(n) => ValueView::Int(*n),
            Value::Text(s) => ValueView::Text(s@),
        }
    }
}

/// A named field: the unit that the per-record descriptors are made of.
pub struct Field {
    pub name: String,
    pub value: Value,
}

pub struct FieldView {
    pub name: Seq<char>,
    pub value: ValueView,
}

impl View for Field {
    type V = FieldView;

    open spec fn view(&self) -> FieldView {
        FieldView { name: self.name@, value: self.value@ }
    }
}

pub open spec fn fields_view(s: Seq<Field>) -> Seq<FieldView> {
    s.map_values(|f: Field| f@)
}

pub open spec fn values_view(s: Seq<Value>) -> Seq<ValueView> {
    s.map_values(|v: Value| v@)
}

/// What a member of a structured document holds, by the shape of its
/// value.
pub enum Entry {
    /// Text, or `None` where the value is absent.
    Text(Option<String>),
    Flag(bool),
    Count(u64),
    /// A nested object whose values are all text.
    Texts(Vec<(String, String)>),
    /// A nested object whose values are all flags.
    Flags(Vec<(String, bool)>),
    /// A sequence of nested objects whose values are text or absent.
    Rows(Vec<Vec<(String, Option<String>)>>),
}

/// The model of an [`Entry`]: a plain value, a nested object of plain
/// fields, or a sequence of such objects.
pub enum EntryView {
    Scalar(ValueView),
    Object(Seq<FieldView>),
    List(Seq<Seq<FieldView>>),
}

pub open spec fn text_pairs_view(s: Seq<(String, String)>) -> Seq<FieldView> {
    s.map_values(|p: (String, String)| FieldView { name: p.0@, value: ValueView::Text(p.1@) })
}

pub open spec fn flag_pairs_view(s: Seq<(String, bool)>) -> Seq<FieldView> {
    s.map_values(|p: (String, bool)| FieldView { name: p.0@, value: ValueView::Bool(p.1) })
}

pub open spec fn optional_pairs_view(s: Seq<(String, Option<String>)>) -> Seq<FieldView> {
    s.map_values(
        |p: (String, Option<String>)| FieldView { name: p.0@, value: optional_text(p.1) },
    )
}

pub open spec fn rows_view(s: Seq<Vec<(String, Option<String>)>>) -> Seq<Seq<FieldView>> {
    s.map_values(|o: Vec<(String, Option<String>)>| optional_pairs_view(o@))
}

impl View for Entry {
    type V = EntryView;

    open spec fn view(&self) -> EntryView {
        match self {
            Entry::Text(t) => EntryView::Scalar(optional_text(*t)),
            Entry::Flag(b) => EntryView::Scalar(ValueView::Bool(*b)),
            Entry::Count(n) => EntryView::Scalar(ValueView::Int(*n)),
            Entry::Texts(kv) => EntryView::Object(text_pairs_view(kv@)),
            Entry::Flags(kv) => EntryView::Object(flag_pairs_view(kv@)),
            Entry::Rows(rows) => EntryView::List(rows_view(rows@)),
        }
    }
}

/// One object of a structured document: named members, in order.
pub struct Object {
    pub members: Vec<(String, Entry)>,
}

pub struct MemberView {
    pub name: Seq<char>,
    pub entry: EntryView,
}

pub open spec fn members_view(s: Seq<(String, Entry)>) -> Seq<MemberView> {
    s.map_values(|m: (String, Entry)| MemberView { name: m.0@, entry: m.1@ })
}

impl View for Object {
    type V = Seq<MemberView>;

    open spec fn view(&self) -> Seq<MemberView> {
        members_view(self.members@)
    }
}

/// A plain field as a member of a structured document.
pub open spec fn scalar_member(f: FieldView) -> MemberView {
    MemberView { name: f.name, entry: EntryView::Scalar(f.value) }
}

/// The model of an optional text field: absent is `Null`.
pub open spec fn optional_text(o: Option<String>) -> ValueView {
    match o {
        Some(s) => ValueView::Text(s@),
        None => ValueView::Null,
    }
}

pub open spec fn digit_char(d: nat) -> char {
    seq!['0', '1', '2', '3', '4', '5', '6', '7', '8', '9'][d as int]
}

/// Decimal digits of `n`, most significant first, without leading zeros.
pub open spec fn decimal(n: nat) -> Seq<char>
    decreases n,
{
    if n < 10 {
        seq![digit_char(n)]
    } else {
        decimal(n / 10) + seq![digit_char(n % 10)]
    }
}

/// The text that a table cell shows for a value: an absent value is the
/// empty string, never a marker.
pub open spec fn cell_text(v: ValueView) -> Seq<char> {
    match v {
        ValueView::Null => Seq::empty(),
        ValueView::Bool(b) => if b {
            "true"@
        } else {
            "false"@
        },
        ValueView::Int(n) => decimal(n as nat),
        ValueView::Text(s) => s,
    }
}

/// The one-character text of a decimal digit.
fn digit_str(d: u64) -> (r: &'static str)
    requires
        d < 10,
    ensures
        r@ == seq![digit_char(d as nat)],
{
    proof {
        reveal_strlit("0");
        reveal_strlit("1");
        reveal_strlit("2");
        reveal_strlit("3");
        reveal_strlit("4");
        reveal_strlit("5");
        reveal_strlit("6");
        reveal_strlit("7");
        reveal_strlit("8");
        reveal_strlit("9");
    }
    let r = match d {
        0 => "0",
        1 => "1",
        2 => "2",
        3 => "3",
        4 => "4",
        5 => "5",
        6 => "6",
        7 => "7",
        8 => "8",
        _ => "9",
    };
    assert(r@ =~= seq![digit_char(d as nat)]);
    r
}

/// `n` in decimal, without sign or leading zeros.
pub fn decimal_string(n: u64) -> (r: String)
    ensures
        r@ == decimal(n as nat),
    decreases n,
{
    let mut r = if n >= 10 {
        decimal_string(n / 10)
    } else {
        String::new()
    };
    r.append(digit_str(n % 10));
    assert(r@ =~= decimal(n as nat));
    r
}

impl Value {
    pub fn text(s: &String) -> (r: Value)
        ensures
            r@ == ValueView::Text(s@),
    {
        Value::Text(s.clone())
    }

    pub fn optional(o: &Option<String>) -> (r: Value)
        ensures
            r@ == optional_text(*o),
    {
        match o {
            Some(s) => Value::Text(s.clone()),
            None => Value::Null,
        }
    }

    /// This value as a member entry of a structured document.
    pub fn to_entry(&self) -> (r: Entry)
        ensures
            r@ == EntryView::Scalar(self@),
    {
        match self {
            Value::Null => Entry::Text(None),
            Value::Bool(b) => Entry::Flag(*b),
            Value::Int(n) => Entry::Count(*n),
            Value::Text(s) => Entry::Text(Some(s.clone())),
        }
    }

    pub fn duplicate(&self) -> (r: Value)
        ensures
            r@ == self@,
    {
        match self {
            Value::Null => Value::Null,
            Value::Bool(b) => Value::Bool(*b),
            Value::Int(n) => Value::Int(*n),
            Value::Text(s) => Value::Text(s.clone()),
        }
    }

    /// The text of this value in a table cell.
    pub fn to_cell(&self) -> (r: String)
        ensures
            r@ == cell_text(self@),
    {
        match self {
            Value::Null => String::new(),
            Value::Bool(b) => if *b {
                "true".to_owned()
            } else {
                "false".to_owned()
            },
            Value::Int(n) => decimal_string(*n),
            Value::Text(s) => s.clone(),
        }
    }
}

} // verus!
