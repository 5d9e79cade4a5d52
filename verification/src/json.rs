//! A JSON document as the library reads it, its mathematical model, and its
//! compact text form.
use vstd::prelude::*;

verus! {

/// A JSON number. Integers keep their value; a number with a fraction or an
/// exponent is carried by its shortest decimal text (as `serde_json` prints it),
/// because the library only ever prints such a number or refuses it.
#[derive(Debug)]
pub enum Number {
    /// An integer `>= 0`.
    PosInt(u64),
    /// An integer `< 0` (in a well-formed document, see [`well_formed`]).
    NegInt(i64),
    /// Any other number, by its text.
    Float(String),
}

/// A JSON document. An object keeps its entries in order and a key is looked
/// up by its first entry. The documents that `serde_json` holds are the
/// well-formed ones ([`well_formed`], [`JsonValue::is_well_formed`]): their
/// keys are in increasing order, so each key occurs once.
#[derive(Debug)]
pub enum JsonValue {
    Null,
    Bool(bool),
    Number(Number),
    String(String),
    Array(Vec<JsonValue>),
    Object(Vec<(String, JsonValue)>),
}

/// The model of a [`Number`].
pub enum NumberModel {
    PosInt(u64),
    NegInt(i64),
    Float(Seq<char>),
}

/// The model of a [`JsonValue`]: strings become sequences of characters.
pub enum Json {
    Null,
    Bool(bool),
    Number(NumberModel),
    Str(Seq<char>),
    Array(Seq<Json>),
    Object(Seq<(Seq<char>, Json)>),
}

impl View for Number {
    type V = NumberModel;

    open spec fn view(&self) -> NumberModel {
        match self {
            Number::PosInt(u) => NumberModel::PosInt(*u),
            Number::NegInt(i) => NumberModel::NegInt(*i),
            Number::Float(t) => NumberModel::Float(t@),
        }
    }
}

pub open spec fn json_model(v: JsonValue) -> Json
    decreases v,
{
    match v {
        JsonValue::Null => Json::Null,
        JsonValue::Bool(b) => Json::Bool(b),
        JsonValue::Number(n) => Json::Number(n@),
        JsonValue::String(s) => Json::Str(s@),
        JsonValue::Array(items) => Json::Array(
            Seq::new(
                items@.len(),
                |i: int|
                    if 0 <= i < items@.len() {
                        json_model(items@[i])
                    } else {
                        Json::Null
                    },
            ),
        ),
        JsonValue::Object(entries) => Json::Object(
            Seq::new(
                entries@.len(),
                |i: int|
                    if 0 <= i < entries@.len() {
                        (entries@[i].0@, json_model(entries@[i].1))
                    } else {
                        (Seq::empty(), Json::Null)
                    },
            ),
        ),
    }
}

impl View for JsonValue {
    type V = Json;

    open spec fn view(&self) -> Json {
        json_model(*self)
    }
}

/// The model of an optional borrowed value.
pub open spec fn opt_model(r: Option<&JsonValue>) -> Option<Json> {
    match r {
        Some(v) => Some(v@),
        None => None,
    }
}

// ----------------------------------------------------------------------------
// Decimal text of integers.
// ----------------------------------------------------------------------------

/// The character of a decimal digit.
pub open spec fn digit_char(d: int) -> char {
    if d == 0 {
        '0'
    } else if d == 1 {
        '1'
    } else if d == 2 {
        '2'
    } else if d == 3 {
        '3'
    } else if d == 4 {
        '4'
    } else if d == 5 {
        '5'
    } else if d == 6 {
        '6'
    } else if d == 7 {
        '7'
    } else if d == 8 {
        '8'
    } else {
        '9'
    }
}

/// The decimal text of a natural number, without leading zeros.
pub open spec fn decimal(n: nat) -> Seq<char>
    decreases n,
{
    if n < 10 {
        seq![digit_char(n as int)]
    } else {
        decimal(n / 10).push(digit_char((n % 10) as int))
    }
}

/// The decimal text of an integer, with a leading `-` when it is negative.
pub open spec fn signed_decimal(n: int) -> Seq<char> {
    if n < 0 {
        seq!['-'] + decimal((-n) as nat)
    } else {
        decimal(n as nat)
    }
}

fn digit_text(d: u64) -> (r: &'static str)
    requires
        d < 10,
    ensures
        r@ == seq![digit_char(d as int)],
{
    if d == 0 {
        proof { reveal_strlit("0"); }
        "0"
    } else if d == 1 {
        proof { reveal_strlit("1"); }
        "1"
    } else if d == 2 {
        proof { reveal_strlit("2"); }
        "2"
    } else if d == 3 {
        proof { reveal_strlit("3"); }
        "3"
    } else if d == 4 {
        proof { reveal_strlit("4"); }
        "4"
    } else if d == 5 {
        proof { reveal_strlit("5"); }
        "5"
    } else if d == 6 {
        proof { reveal_strlit("6"); }
        "6"
    } else if d == 7 {
        proof { reveal_strlit("7"); }
        "7"
    } else if d == 8 {
        proof { reveal_strlit("8"); }
        "8"
    } else {
        proof { reveal_strlit("9"); }
        "9"
    }
}

/// Writes `n` in decimal.
pub fn u64_text(n: u64) -> (r: String)
    ensures
        r@ == decimal(n as nat),
    decreases n,
{
    if n < 10 {
        String::from_str(digit_text(n))
    } else {
        let mut r = u64_text(n / 10);
        r.append(digit_text(n % 10));
        r
    }
}

/// Writes `n` in decimal, with a leading `-` when it is negative.
pub fn i64_text(n: i64) -> (r: String)
    ensures
        r@ == signed_decimal(n as int),
{
    if n >= 0 {
        u64_text(n as u64)
    } else {
        let magnitude: u64 = ((-(n + 1)) as u64) + 1;
        proof { reveal_strlit("-"); }
        let r = String::from_str("-");
        r.concat(u64_text(magnitude).as_str())
    }
}

// ----------------------------------------------------------------------------
// Compact JSON text.
// ----------------------------------------------------------------------------

/// A lower-case hexadecimal digit.
pub open spec fn hex_digit(d: int) -> char {
    if d < 10 {
        digit_char(d)
    } else if d == 10 {
        'a'
    } else if d == 11 {
        'b'
    } else if d == 12 {
        'c'
    } else if d == 13 {
        'd'
    } else if d == 14 {
        'e'
    } else {
        'f'
    }
}

/// How one character stands inside a JSON string literal: `"` and `\` take a
/// backslash, the control characters with a short escape take it, the other
/// characters below U+0020 become `\u00XX`, every other character stands as
/// it is.
pub open spec fn escape_char(c: char) -> Seq<char> {
    if c == '"' {
        seq!['\\', '"']
    } else if c == '\\' {
        seq!['\\', '\\']
    } else if c == '\x08' {
        seq!['\\', 'b']
    } else if c == '\x0c' {
        seq!['\\', 'f']
    } else if c == '\n' {
        seq!['\\', 'n']
    } else if c == '\r' {
        seq!['\\', 'r']
    } else if c == '\t' {
        seq!['\\', 't']
    } else if (c as int) < 0x20 {
        seq!['\\', 'u', '0', '0', hex_digit((c as int) / 16), hex_digit((c as int) % 16)]
    } else {
        seq![c]
    }
}

/// The escaped characters of a string.
pub open spec fn escape(s: Seq<char>) -> Seq<char>
    decreases s.len(),
{
    if s.len() == 0 {
        Seq::empty()
    } else {
        escape(s.drop_last()) + escape_char(s.last())
    }
}

/// A string as a JSON string literal.
pub open spec fn quoted(s: Seq<char>) -> Seq<char> {
    seq!['"'] + escape(s) + seq!['"']
}

/// The text of a number.
pub open spec fn render_number(n: NumberModel) -> Seq<char> {
    match n {
        NumberModel::PosInt(u) => decimal(u as nat),
        NumberModel::NegInt(i) => signed_decimal(i as int),
        NumberModel::Float(t) => t,
    }
}

/// The compact text of a document: no white space, `,` between the items of
/// an array and between the entries of an object, `:` between a key and its
/// value.
pub open spec fn render(v: Json) -> Seq<char>
    decreases v,
{
    match v {
        Json::Null => seq!['n', 'u', 'l', 'l'],
        Json::Bool(b) => if b {
            seq!['t', 'r', 'u', 'e']
        } else {
            seq!['f', 'a', 'l', 's', 'e']
        },
        Json::Number(n) => render_number(n),
        Json::Str(s) => quoted(s),
        Json::Array(items) => seq!['['] + render_items(items) + seq![']'],
        Json::Object(entries) => seq!['{'] + render_entries(entries) + seq!['}'],
    }
}

/// The items of an array, separated by `,`.
pub open spec fn render_items(items: Seq<Json>) -> Seq<char>
    decreases items,
{
    if items.len() == 0 {
        Seq::empty()
    } else if items.len() == 1 {
        render(items[0])
    } else {
        render_items(items.drop_last()) + seq![','] + render(items.last())
    }
}

/// One entry of an object: the quoted key, `:`, the value.
pub open spec fn render_entry(entry: (Seq<char>, Json)) -> Seq<char>
    decreases entry,
{
    quoted(entry.0) + seq![':'] + render(entry.1)
}

/// The entries of an object, separated by `,`.
pub open spec fn render_entries(entries: Seq<(Seq<char>, Json)>) -> Seq<char>
    decreases entries,
{
    if entries.len() == 0 {
        Seq::empty()
    } else if entries.len() == 1 {
        render_entry(entries[0])
    } else {
        render_entries(entries.drop_last()) + seq![','] + render_entry(entries.last())
    }
}

/// `serde_json`'s printing of a JSON string: `Display` for
/// `serde_json::Value::String`. Its source (`format_escaped_str` and the
/// `ESCAPE` table in `ser.rs`) writes `"`, then each character as
/// [`escape_char`] says, then `"`; this is what the contract claims.
#[verifier::external_body]
fn quote(s: &str) -> (r: String)
    ensures
        r@ == quoted(s@),
{
    serde_json::Value::String(s.to_owned()).to_string()
}

impl Number {
    /// The text of the number.
    pub fn render(&self) -> (r: String)
        ensures
            r@ == render_number(self@),
    {
        match self {
            Number::PosInt(u) => u64_text(*u),
            Number::NegInt(i) => i64_text(*i),
            Number::Float(t) => t.clone(),
        }
    }
}

/// The models of a list of documents.
pub open spec fn models(items: Seq<JsonValue>) -> Seq<Json> {
    Seq::new(items.len(), |i: int| items[i]@)
}

/// The models of a list of object entries.
pub open spec fn entry_models(entries: Seq<(String, JsonValue)>) -> Seq<(Seq<char>, Json)> {
    Seq::new(entries.len(), |i: int| (entries[i].0@, entries[i].1@))
}

/// The model of an array or an object is made of the models of its parts.
pub proof fn lemma_model_parts(v: JsonValue)
    ensures
        v matches JsonValue::Array(items) ==> v@ == Json::Array(models(items@)),
        v matches JsonValue::Object(entries) ==> v@ == Json::Object(entry_models(entries@)),
{
    match v {
        JsonValue::Array(items) => {
            assert(v@->Array_0 =~= models(items@));
        },
        JsonValue::Object(entries) => {
            assert(v@->Object_0 =~= entry_models(entries@));
        },
        _ => {},
    }
}

/// The items of an array, separated by `,`.
fn render_item_list(items: &Vec<JsonValue>) -> (r: String)
    ensures
        r@ == render_items(models(items@)),
    decreases items,
{
    let ghost model = models(items@);
    let mut out = String::new();
    let mut i: usize = 0;
    while i < items.len()
        invariant
            i <= items.len(),
            model == models(items@),
            out@ == render_items(model.take(i as int)),
        decreases items.len() - i,
    {
        proof {
            reveal_strlit(",");
        }
        assert(model.take(i + 1).drop_last() =~= model.take(i as int));
        assert(model.take(i + 1).last() == model[i as int]);
        if i > 0 {
            out.append(",");
        }
        proof { vstd::std_specs::vec::axiom_vec_index_decreases(*items, i as int); }
        let part = items[i].render();
        out.append(part.as_str());
        assert(model[i as int] == items@[i as int]@);
        if i == 0 {
            assert(out@ =~= render_items(model.take(1)));
        } else {
            assert(out@ =~= render_items(model.take(i as int)) + seq![','] + render(model[i as int]));
        }
        i = i + 1;
    }
    assert(model.take(i as int) =~= model);
    out
}

/// The entries of an object, separated by `,`.
fn render_entry_list(entries: &Vec<(String, JsonValue)>) -> (r: String)
    ensures
        r@ == render_entries(entry_models(entries@)),
    decreases entries,
{
    let ghost model = entry_models(entries@);
    let mut out = String::new();
    let mut i: usize = 0;
    while i < entries.len()
        invariant
            i <= entries.len(),
            model == entry_models(entries@),
            out@ == render_entries(model.take(i as int)),
        decreases entries.len() - i,
    {
        proof {
            reveal_strlit(",");
            reveal_strlit(":");
        }
        assert(model.take(i + 1).drop_last() =~= model.take(i as int));
        assert(model.take(i + 1).last() == model[i as int]);
        if i > 0 {
            out.append(",");
        }
        let key = quote(entries[i].0.as_str());
        out.append(key.as_str());
        out.append(":");
        proof { vstd::std_specs::vec::axiom_vec_index_decreases(*entries, i as int); }
        let part = entries[i].1.render();
        out.append(part.as_str());
        assert(model[i as int] == (entries@[i as int].0@, entries@[i as int].1@));
        if i == 0 {
            assert(model.take(1)[0] == model[0]);
            assert(render_entries(model.take(1)) == render_entry(model[0]));
            assert(out@ =~= render_entry(model[0]));
        } else {
            assert(out@ =~= render_entries(model.take(i as int)) + seq![','] + render_entry(model[i as int]));
        }
        i = i + 1;
    }
    assert(model.take(i as int) =~= model);
    out
}

impl JsonValue {
    /// The compact text of the document; for a well-formed document this is
    /// the text that `serde_json` prints.
    pub fn render(&self) -> (r: String)
        ensures
            r@ == render(self@),
        decreases self,
    {
        proof { lemma_model_parts(*self); }
        match self {
            JsonValue::Null => {
                proof { reveal_strlit("null"); }
                String::from_str("null")
            },
            JsonValue::Bool(b) => {
                proof {
                    reveal_strlit("true");
                    reveal_strlit("false");
                }
                if *b {
                    String::from_str("true")
                } else {
                    String::from_str("false")
                }
            },
            JsonValue::Number(n) => n.render(),
            JsonValue::String(s) => quote(s.as_str()),
            JsonValue::Array(items) => {
                proof {
                    reveal_strlit("[");
                    reveal_strlit("]");
                }
                let mut out = String::from_str("[");
                let inner = render_item_list(items);
                out.append(inner.as_str());
                out.append("]");
                out
            },
            JsonValue::Object(entries) => {
                proof {
                    reveal_strlit("{");
                    reveal_strlit("}");
                }
                let mut out = String::from_str("{");
                let inner = render_entry_list(entries);
                out.append(inner.as_str());
                out.append("}");
                out
            },
        }
    }
}

// ----------------------------------------------------------------------------
// Copies.
// ----------------------------------------------------------------------------

impl Clone for Number {
    fn clone(&self) -> (r: Self)
        ensures
            r@ == self@,
    {
        match self {
            Number::PosInt(u) => Number::PosInt(*u),
            Number::NegInt(i) => Number::NegInt(*i),
            Number::Float(t) => Number::Float(t.clone()),
        }
    }
}

fn copy_item_list(items: &Vec<JsonValue>) -> (r: Vec<JsonValue>)
    ensures
        models(r@) == models(items@),
    decreases items,
{
    let mut out: Vec<JsonValue> = Vec::new();
    let mut i: usize = 0;
    while i < items.len()
        invariant
            i <= items.len(),
            out.len() == i,
            models(out@) =~= models(items@).take(i as int),
        decreases items.len() - i,
    {
        proof { vstd::std_specs::vec::axiom_vec_index_decreases(*items, i as int); }
        let item = items[i].clone();
        out.push(item);
        assert(models(out@) =~= models(items@).take(i + 1));
        i = i + 1;
    }
    assert(models(out@) =~= models(items@));
    out
}

fn copy_entry_list(entries: &Vec<(String, JsonValue)>) -> (r: Vec<(String, JsonValue)>)
    ensures
        entry_models(r@) == entry_models(entries@),
    decreases entries,
{
    let mut out: Vec<(String, JsonValue)> = Vec::new();
    let mut i: usize = 0;
    while i < entries.len()
        invariant
            i <= entries.len(),
            out.len() == i,
            entry_models(out@) =~= entry_models(entries@).take(i as int),
        decreases entries.len() - i,
    {
        proof { vstd::std_specs::vec::axiom_vec_index_decreases(*entries, i as int); }
        let key = entries[i].0.clone();
        let value = entries[i].1.clone();
        out.push((key, value));
        assert(entry_models(out@) =~= entry_models(entries@).take(i + 1));
        i = i + 1;
    }
    assert(entry_models(out@) =~= entry_models(entries@));
    out
}

impl Clone for JsonValue {
    /// A deep copy: the copy has the same model.
    fn clone(&self) -> (r: Self)
        ensures
            r@ == self@,
        decreases self,
    {
        proof { lemma_model_parts(*self); }
        let r = match self {
            JsonValue::Null => JsonValue::Null,
            JsonValue::Bool(b) => JsonValue::Bool(*b),
            JsonValue::Number(n) => JsonValue::Number(n.clone()),
            JsonValue::String(s) => JsonValue::String(s.clone()),
            JsonValue::Array(items) => JsonValue::Array(copy_item_list(items)),
            JsonValue::Object(entries) => JsonValue::Object(copy_entry_list(entries)),
        };
        proof { lemma_model_parts(r); }
        r
    }
}

// ----------------------------------------------------------------------------
// Looking into arrays and objects.
// ----------------------------------------------------------------------------

/// What an index picks in a document: the value of a key in an object, or the
/// item at a position in an array.
pub enum Selector {
    Key(Seq<char>),
    Position(int),
}

/// The value of the first entry at or after `from` whose key is `key`.
pub open spec fn lookup_from(entries: Seq<(Seq<char>, Json)>, key: Seq<char>, from: int) -> Option<Json>
    decreases entries.len() - from,
{
    if from < 0 || from >= entries.len() {
        None
    } else if entries[from].0 == key {
        Some(entries[from].1)
    } else {
        lookup_from(entries, key, from + 1)
    }
}

/// The value of the first entry whose key is `key`.
pub open spec fn lookup(entries: Seq<(Seq<char>, Json)>, key: Seq<char>) -> Option<Json> {
    lookup_from(entries, key, 0)
}

/// What a selector picks in a document: a key only in an object, a position
/// only in an array and only below its length.
pub open spec fn select(v: Json, s: Selector) -> Option<Json> {
    match s {
        Selector::Key(k) => match v {
            Json::Object(entries) => lookup(entries, k),
            _ => None,
        },
        Selector::Position(i) => match v {
            Json::Array(items) => if 0 <= i < items.len() {
                Some(items[i])
            } else {
                None
            },
            _ => None,
        },
    }
}

/// A way to look into a document: a position (`usize`) or a key (`&str`,
/// `String`).
pub trait JsonIndex {
    /// What this index picks.
    spec fn selector(&self) -> Selector;

    /// The part of `v` that this index picks, if there is one.
    fn index_into<'v>(&self, v: &'v JsonValue) -> (r: Option<&'v JsonValue>)
        ensures
            opt_model(r) == select(v@, self.selector()),
    ;
}

impl JsonIndex for usize {
    open spec fn selector(&self) -> Selector {
        Selector::Position(*self as int)
    }

    fn index_into<'v>(&self, v: &'v JsonValue) -> (r: Option<&'v JsonValue>) {
        proof { lemma_model_parts(*v); }
        match v {
            JsonValue::Array(items) => {
                if *self < items.len() {
                    Some(&items[*self])
                } else {
                    None
                }
            },
            _ => None,
        }
    }
}

/// The first entry of `entries` whose key is `key`.
fn find_entry<'v>(entries: &'v Vec<(String, JsonValue)>, key: &String) -> (r: Option<&'v JsonValue>)
    ensures
        opt_model(r) == lookup(entry_models(entries@), key@),
{
    let ghost model = entry_models(entries@);
    let mut i: usize = 0;
    while i < entries.len()
        invariant
            i <= entries.len(),
            model == entry_models(entries@),
            lookup(model, key@) == lookup_from(model, key@, i as int),
        decreases entries.len() - i,
    {
        if entries[i].0 == *key {
            return Some(&entries[i].1);
        }
        i = i + 1;
    }
    None
}

impl<'a> JsonIndex for &'a str {
    open spec fn selector(&self) -> Selector {
        Selector::Key((*self)@)
    }

    fn index_into<'v>(&self, v: &'v JsonValue) -> (r: Option<&'v JsonValue>) {
        proof { lemma_model_parts(*v); }
        match v {
            JsonValue::Object(entries) => {
                let key = String::from_str(*self);
                find_entry(entries, &key)
            },
            _ => None,
        }
    }
}

impl JsonIndex for String {
    open spec fn selector(&self) -> Selector {
        Selector::Key(self@)
    }

    fn index_into<'v>(&self, v: &'v JsonValue) -> (r: Option<&'v JsonValue>) {
        proof { lemma_model_parts(*v); }
        match v {
            JsonValue::Object(entries) => find_entry(entries, self),
            _ => None,
        }
    }
}

// ----------------------------------------------------------------------------
// Reading a document into Rust values.
// ----------------------------------------------------------------------------

/// What a reading found in place of what it asked for: the document's kind,
/// with its value where it is a scalar.
#[derive(Debug)]
pub enum Unexpected {
    Null,
    Bool(bool),
    Unsigned(u64),
    Signed(i64),
    /// A number with a fraction or an exponent, by its text.
    Float(String),
    Str(String),
    Sequence,
    Object,
}

/// The model of an [`Unexpected`].
pub enum UnexpectedModel {
    Null,
    Bool(bool),
    Unsigned(u64),
    Signed(i64),
    Float(Seq<char>),
    Str(Seq<char>),
    Sequence,
    Object,
}

impl View for Unexpected {
    type V = UnexpectedModel;

    open spec fn view(&self) -> UnexpectedModel {
        match self {
            Unexpected::Null => UnexpectedModel::Null,
            Unexpected::Bool(b) => UnexpectedModel::Bool(*b),
            Unexpected::Unsigned(u) => UnexpectedModel::Unsigned(*u),
            Unexpected::Signed(i) => UnexpectedModel::Signed(*i),
            Unexpected::Float(t) => UnexpectedModel::Float(t@),
            Unexpected::Str(t) => UnexpectedModel::Str(t@),
            Unexpected::Sequence => UnexpectedModel::Sequence,
            Unexpected::Object => UnexpectedModel::Object,
        }
    }
}

/// What a reading asked for.
#[derive(Debug, Clone, Copy, PartialEq, Eq, Structural)]
pub enum Expected {
    String,
    I64,
    Bool,
    Sequence,
    /// An `f64`; only the I/O side reads floating point.
    F64,
}

/// Why a document could not be read as a Rust value.
#[derive(Debug)]
pub enum JsonError {
    /// The document is of another kind than the one asked for.
    InvalidType { found: Unexpected, expected: Expected },
    /// An integer above `i64::MAX` where an `i64` was asked for.
    OutOfRange(u64),
    /// A message of the caller's own.
    Custom(String),
}

/// What a document is, as an error names it.
pub open spec fn unexpected_of(v: Json) -> UnexpectedModel {
    match v {
        Json::Null => UnexpectedModel::Null,
        Json::Bool(b) => UnexpectedModel::Bool(b),
        Json::Number(NumberModel::PosInt(u)) => UnexpectedModel::Unsigned(u),
        Json::Number(NumberModel::NegInt(i)) => UnexpectedModel::Signed(i),
        Json::Number(NumberModel::Float(t)) => UnexpectedModel::Float(t),
        Json::Str(s) => UnexpectedModel::Str(s),
        Json::Array(_) => UnexpectedModel::Sequence,
        Json::Object(_) => UnexpectedModel::Object,
    }
}

/// The model of an error: its strings taken by their views.
pub enum JsonErrorModel {
    InvalidType { found: UnexpectedModel, expected: Expected },
    OutOfRange(u64),
    Custom(Seq<char>),
}

impl View for JsonError {
    type V = JsonErrorModel;

    open spec fn view(&self) -> JsonErrorModel {
        match self {
            JsonError::InvalidType { found, expected } => JsonErrorModel::InvalidType {
                found: found@,
                expected: *expected,
            },
            JsonError::OutOfRange(u) => JsonErrorModel::OutOfRange(*u),
            JsonError::Custom(m) => JsonErrorModel::Custom(m@),
        }
    }
}

/// The text of a document: a string's own characters, any other document's
/// compact JSON text.
pub open spec fn text(v: Json) -> Seq<char> {
    match v {
        Json::Str(s) => s,
        _ => render(v),
    }
}

/// A document read as an `i64`: an integer in range, or why not.
pub open spec fn i64_of(v: Json) -> Result<i64, JsonErrorModel> {
    match v {
        Json::Number(NumberModel::PosInt(u)) => if u <= i64::MAX {
            Ok(u as i64)
        } else {
            Err(JsonErrorModel::OutOfRange(u))
        },
        Json::Number(NumberModel::NegInt(i)) => Ok(i),
        _ => Err(JsonErrorModel::InvalidType { found: unexpected_of(v), expected: Expected::I64 }),
    }
}

/// A document read as a `bool`.
pub open spec fn bool_of(v: Json) -> Result<bool, JsonErrorModel> {
    match v {
        Json::Bool(b) => Ok(b),
        _ => Err(JsonErrorModel::InvalidType { found: unexpected_of(v), expected: Expected::Bool }),
    }
}

impl JsonValue {
    /// What the document is, as an error names it.
    pub fn unexpected(&self) -> (u: Unexpected)
        ensures
            u@ == unexpected_of(self@),
    {
        match self {
            JsonValue::Null => Unexpected::Null,
            JsonValue::Bool(b) => Unexpected::Bool(*b),
            JsonValue::Number(Number::PosInt(u)) => Unexpected::Unsigned(*u),
            JsonValue::Number(Number::NegInt(i)) => Unexpected::Signed(*i),
            JsonValue::Number(Number::Float(t)) => Unexpected::Float(t.clone()),
            JsonValue::String(t) => Unexpected::Str(t.clone()),
            JsonValue::Array(_) => Unexpected::Sequence,
            JsonValue::Object(_) => Unexpected::Object,
        }
    }

    /// Whether the document is `null`.
    pub fn is_null(&self) -> (b: bool)
        ensures
            b == (self@ == Json::Null),
    {
        match self {
            JsonValue::Null => true,
            _ => false,
        }
    }
}

// ----------------------------------------------------------------------------
// Well-formed documents.
// ----------------------------------------------------------------------------

/// The order of `String`s from position `i` on: the first differing
/// character decides by its code point (the order of the UTF-8 bytes), and a
/// string that ends first comes first.
pub open spec fn key_less_from(a: Seq<char>, b: Seq<char>, i: int) -> bool
    decreases a.len() - i,
{
    if i < 0 || i >= a.len() {
        0 <= i < b.len()
    } else if i >= b.len() {
        false
    } else if a[i] != b[i] {
        (a[i] as int) < (b[i] as int)
    } else {
        key_less_from(a, b, i + 1)
    }
}

/// `a` comes before `b` in the order of `String`.
pub open spec fn key_less(a: Seq<char>, b: Seq<char>) -> bool {
    key_less_from(a, b, 0)
}

/// A document as `serde_json` holds one: a negative integer is below zero,
/// the keys of each object are in increasing order (so no key occurs twice),
/// and so are all the parts.
pub open spec fn well_formed(v: Json) -> bool
    decreases v,
{
    match v {
        Json::Number(NumberModel::NegInt(i)) => i < 0,
        Json::Array(items) => items_well_formed(items),
        Json::Object(entries) => entries_well_formed(entries),
        _ => true,
    }
}

/// Every item is well formed.
pub open spec fn items_well_formed(items: Seq<Json>) -> bool
    decreases items,
{
    if items.len() == 0 {
        true
    } else {
        items_well_formed(items.drop_last()) && well_formed(items.last())
    }
}

/// The value of an entry is well formed.
pub open spec fn entry_well_formed(entry: (Seq<char>, Json)) -> bool
    decreases entry,
{
    well_formed(entry.1)
}

/// Every value is well formed, and each key comes before the next one.
pub open spec fn entries_well_formed(entries: Seq<(Seq<char>, Json)>) -> bool
    decreases entries,
{
    if entries.len() == 0 {
        true
    } else {
        &&& entries_well_formed(entries.drop_last())
        &&& entry_well_formed(entries.last())
        &&& entries.len() >= 2 ==> key_less(entries[entries.len() - 2].0, entries.last().0)
    }
}

/// Whether `a` comes before `b` in the order of `String`.
pub fn string_less(a: &String, b: &String) -> (r: bool)
    ensures
        r == key_less(a@, b@),
{
    let a_len = a.as_str().unicode_len();
    let b_len = b.as_str().unicode_len();
    let mut i: usize = 0;
    while i < a_len && i < b_len
        invariant
            a_len == a@.len(),
            b_len == b@.len(),
            i <= a_len,
            i <= b_len,
            key_less(a@, b@) == key_less_from(a@, b@, i as int),
        decreases a_len - i,
    {
        let ca = a.as_str().get_char(i);
        let cb = b.as_str().get_char(i);
        if ca != cb {
            return (ca as u32) < (cb as u32);
        }
        i = i + 1;
    }
    i < b_len
}

fn items_are_well_formed(items: &Vec<JsonValue>) -> (r: bool)
    ensures
        r == items_well_formed(models(items@)),
    decreases items,
{
    let ghost model = models(items@);
    let mut i: usize = 0;
    while i < items.len()
        invariant
            i <= items.len(),
            model == models(items@),
            items_well_formed(model.take(i as int)),
        decreases items.len() - i,
    {
        assert(model.take(i + 1).drop_last() =~= model.take(i as int));
        proof { vstd::std_specs::vec::axiom_vec_index_decreases(*items, i as int); }
        if !items[i].is_well_formed() {
            assert(model.take(i + 1).last() == model[i as int]);
            proof { lemma_items_prefix(model, i as int + 1); }
            return false;
        }
        i = i + 1;
    }
    assert(model.take(i as int) =~= model);
    true
}

/// A prefix of well-formed items is well formed.
proof fn lemma_items_prefix(items: Seq<Json>, n: int)
    requires
        0 <= n <= items.len(),
    ensures
        items_well_formed(items) ==> items_well_formed(items.take(n)),
    decreases items.len(),
{
    if n < items.len() {
        assert(items.drop_last().take(n) =~= items.take(n));
        lemma_items_prefix(items.drop_last(), n);
    } else {
        assert(items.take(n) =~= items);
    }
}

/// A prefix of well-formed entries is well formed.
proof fn lemma_entries_prefix(entries: Seq<(Seq<char>, Json)>, n: int)
    requires
        0 <= n <= entries.len(),
    ensures
        entries_well_formed(entries) ==> entries_well_formed(entries.take(n)),
    decreases entries.len(),
{
    if n < entries.len() {
        assert(entries.drop_last().take(n) =~= entries.take(n));
        lemma_entries_prefix(entries.drop_last(), n);
    } else {
        assert(entries.take(n) =~= entries);
    }
}

fn entries_are_well_formed(entries: &Vec<(String, JsonValue)>) -> (r: bool)
    ensures
        r == entries_well_formed(entry_models(entries@)),
    decreases entries,
{
    let ghost model = entry_models(entries@);
    let mut i: usize = 0;
    while i < entries.len()
        invariant
            i <= entries.len(),
            model == entry_models(entries@),
            entries_well_formed(model.take(i as int)),
        decreases entries.len() - i,
    {
        assert(model.take(i + 1).drop_last() =~= model.take(i as int));
        assert(model.take(i + 1).last() == model[i as int]);
        proof { vstd::std_specs::vec::axiom_vec_index_decreases(*entries, i as int); }
        let value_ok = entries[i].1.is_well_formed();
        let order_ok = i == 0 || string_less(&entries[i - 1].0, &entries[i].0);
        let ghost t = model.take(i + 1);
        assert(t.len() == i + 1);
        assert(t.last() == model[i as int]);
        assert(model[i as int] == (entries@[i as int].0@, entries@[i as int].1@));
        assert(entry_well_formed(t.last()) == well_formed(entries@[i as int].1@));
        if i >= 1 {
            assert(t[i - 1] == model[i - 1]);
            assert(model[i - 1] == (entries@[i - 1].0@, entries@[i - 1].1@));
        }
        assert(entries_well_formed(t) == (entries_well_formed(t.drop_last()) && entry_well_formed(
            t.last(),
        ) && (t.len() >= 2 ==> key_less(t[t.len() - 2].0, t.last().0))));
        if !(value_ok && order_ok) {
            proof { lemma_entries_prefix(model, i as int + 1); }
            return false;
        }
        i = i + 1;
    }
    assert(model.take(i as int) =~= model);
    true
}

impl JsonValue {
    /// Whether the document is well formed (see [`well_formed`]).
    pub fn is_well_formed(&self) -> (b: bool)
        ensures
            b == well_formed(self@),
        decreases self,
    {
        proof { lemma_model_parts(*self); }
        match self {
            JsonValue::Number(Number::NegInt(i)) => *i < 0,
            JsonValue::Array(items) => items_are_well_formed(items),
            JsonValue::Object(entries) => entries_are_well_formed(entries),
            _ => true,
        }
    }
}

// ----------------------------------------------------------------------------
// Messages of reading errors.
// ----------------------------------------------------------------------------

/// How Rust's `Debug` writes a string (quoted and escaped).
pub uninterp spec fn debug_text(s: Seq<char>) -> Seq<char>;

/// Rust's `Debug` for `str` (through `format!("{:?}", ..)`). Its result is a
/// function of the string alone; the contract names it and says no more.
#[verifier::external_body]
fn str_debug(s: &str) -> (r: String)
    ensures
        r@ == debug_text(s@),
{
    format!("{:?}", s)
}

/// How an error message names what was found: `null`, ``boolean `true` ``,
/// ``integer `5` ``, ``floating point `2.5` ``, `string "…"` (the string as
/// Rust's `Debug` writes it), `sequence`, `map`.
pub open spec fn unexpected_text(u: UnexpectedModel) -> Seq<char> {
    match u {
        UnexpectedModel::Null => "null"@,
        UnexpectedModel::Bool(b) => "boolean `"@ + (if b {
            "true"@
        } else {
            "false"@
        }) + "`"@,
        UnexpectedModel::Unsigned(n) => "integer `"@ + decimal(n as nat) + "`"@,
        UnexpectedModel::Signed(n) => "integer `"@ + signed_decimal(n as int) + "`"@,
        UnexpectedModel::Float(t) => "floating point `"@ + t + "`"@,
        UnexpectedModel::Str(t) => "string "@ + debug_text(t),
        UnexpectedModel::Sequence => "sequence"@,
        UnexpectedModel::Object => "map"@,
    }
}

/// How an error message names what was asked for.
pub open spec fn expected_name(e: Expected) -> Seq<char> {
    match e {
        Expected::String => "a string"@,
        Expected::I64 => "i64"@,
        Expected::Bool => "a boolean"@,
        Expected::Sequence => "a sequence"@,
        Expected::F64 => "f64"@,
    }
}

/// The message of a reading error, in the words of `serde_json`'s errors:
/// `invalid type: <found>, expected <asked>`, or for an integer too large for
/// an `i64`, ``invalid value: integer `<n>`, expected i64``.
pub open spec fn error_message(e: JsonErrorModel) -> Seq<char> {
    match e {
        JsonErrorModel::InvalidType { found, expected } => "invalid type: "@ + unexpected_text(found)
            + ", expected "@ + expected_name(expected),
        JsonErrorModel::OutOfRange(u) => "invalid value: integer `"@ + decimal(u as nat)
            + "`, expected i64"@,
        JsonErrorModel::Custom(m) => m,
    }
}

fn unexpected_message(u: &Unexpected) -> (r: String)
    ensures
        r@ == unexpected_text(u@),
{
    match u {
        Unexpected::Null => String::from_str("null"),
        Unexpected::Bool(b) => {
            let mut m = String::from_str("boolean `");
            if *b {
                m.append("true");
            } else {
                m.append("false");
            }
            m.append("`");
            m
        },
        Unexpected::Unsigned(n) => {
            let mut m = String::from_str("integer `");
            m.append(u64_text(*n).as_str());
            m.append("`");
            m
        },
        Unexpected::Signed(n) => {
            let mut m = String::from_str("integer `");
            m.append(i64_text(*n).as_str());
            m.append("`");
            m
        },
        Unexpected::Float(t) => {
            let mut m = String::from_str("floating point `");
            m.append(t.as_str());
            m.append("`");
            m
        },
        Unexpected::Str(t) => {
            let m = String::from_str("string ");
            m.concat(str_debug(t.as_str()).as_str())
        },
        Unexpected::Sequence => String::from_str("sequence"),
        Unexpected::Object => String::from_str("map"),
    }
}

fn expected_text(e: Expected) -> (r: &'static str)
    ensures
        r@ == expected_name(e),
{
    match e {
        Expected::String => "a string",
        Expected::I64 => "i64",
        Expected::Bool => "a boolean",
        Expected::Sequence => "a sequence",
        Expected::F64 => "f64",
    }
}

impl JsonError {
    /// The message of the error (see [`error_message`]).
    pub fn message(&self) -> (r: String)
        ensures
            r@ == error_message(self@),
    {
        match self {
            JsonError::InvalidType { found, expected } => {
                let mut m = String::from_str("invalid type: ");
                m.append(unexpected_message(found).as_str());
                m.append(", expected ");
                m.append(expected_text(*expected));
                m
            },
            JsonError::OutOfRange(u) => {
                let mut m = String::from_str("invalid value: integer `");
                m.append(u64_text(*u).as_str());
                m.append("`, expected i64");
                m
            },
            JsonError::Custom(m) => m.clone(),
        }
    }
}

} // verus!
