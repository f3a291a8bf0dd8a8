//! Format dispatch: a handler hands over a [`Payload`] and the active output
//! format decides how it is rendered (JSON envelope, YAML, NDJSON, TSV or a
//! human table).

use vstd::prelude::*;
use vstd::utf8::{encode_utf8, is_char_boundary};
use crate::json::{as_str_spec, 
    array, get_spec, lemma_array_view, lemma_object_view, obj2, obj3, pointer_spec, Json, JsonV,
};
use crate::output::OutputFormat;
use crate::render::status::{dot, pill_spec, parse_spec, Status};
use crate::text::{concat, copy_str, join, join_spec, str_eq, texts_view};

verus! {

/// What a handler wants to emit.
#[derive(Debug)]
pub enum Payload {
    /// A single resource.
    Single(Json),
    /// A list of resources.
    List(Vec<Json>),
    /// A free-form object (e.g. `{ "deleted": "abc" }`).
    Bag(Json),
    /// A resource alongside the response document's `meta`.
    WithMeta { data: Json, meta: Option<Json> },
}

/// The items of a list payload as JSON values.
pub open spec fn items_view(items: Seq<Json>) -> Seq<JsonV> {
    Seq::new(items.len(), |i: int| items[i]@)
}

/// The canonical `{ ok, data, meta? }` envelope of a payload.
pub open spec fn envelope_spec(p: Payload) -> JsonV {
    match p {
        Payload::Single(v) | Payload::Bag(v) => JsonV::Object(
            seq![("ok"@, JsonV::Bool(true)), ("data"@, v@)],
        ),
        Payload::List(items) => JsonV::Object(
            seq![("ok"@, JsonV::Bool(true)), ("data"@, JsonV::Array(items_view(items@)))],
        ),
        Payload::WithMeta { data, meta } => match meta {
            Some(m) => JsonV::Object(
                seq![("ok"@, JsonV::Bool(true)), ("data"@, data@), ("meta"@, m@)],
            ),
            None => JsonV::Object(seq![("ok"@, JsonV::Bool(true)), ("data"@, data@)]),
        },
    }
}

/// A copy of a list of values.
pub fn copy_items(items: &Vec<Json>) -> (r: Vec<Json>)
    ensures
        items_view(r@) == items_view(items@),
{
    let n = items.len();
    let mut out: Vec<Json> = Vec::new();
    let mut i: usize = 0;
    while i < n
        invariant
            n == items@.len(),
            i <= n,
            out@.len() == i,
            forall|k: int| 0 <= k < i ==> #[trigger] out@[k]@ == items@[k]@,
        decreases n - i,
    {
        out.push(items[i].deep_copy());
        i = i + 1;
    }
    assert(items_view(out@) =~= items_view(items@));
    out
}

/// Wrap a payload in the canonical `{ "ok": true, "data": ..., "meta"? }`
/// envelope.
pub fn envelope(payload: &Payload) -> (r: Json)
    ensures
        r@ == envelope_spec(*payload),
{
    match payload {
        Payload::Single(v) | Payload::Bag(v) => obj2("ok", Json::Bool(true), "data", v.deep_copy()),
        Payload::List(items) => {
            let copied = copy_items(items);
            let data = array(copied);
            assert(data@ == JsonV::Array(items_view(items@)));
            obj2("ok", Json::Bool(true), "data", data)
        },
        Payload::WithMeta { data, meta } => match meta {
            Some(m) => obj3("ok", Json::Bool(true), "data", data.deep_copy(), "meta", m.deep_copy()),
            None => obj2("ok", Json::Bool(true), "data", data.deep_copy()),
        },
    }
}

/// One rendered cell: final text, or a timestamp that is shown relative to
/// the current time (falling back to the text itself when it does not parse).
#[derive(Debug)]
pub enum Cell {
    Text(String),
    Time(String),
}

/// The mathematical content of a cell.
pub enum CellV {
    Text(Seq<char>),
    Time(Seq<char>),
}

impl View for Cell {
    type V = CellV;

    open spec fn view(&self) -> CellV {
        match self {
            Cell::Text(s) => CellV::Text(s@),
            Cell::Time(s) => CellV::Time(s@),
        }
    }
}

/// The placeholder shown for missing values.
pub open spec fn dash() -> Seq<char> {
    seq!['\u{2014}']
}

/// Whether a string looks like an RFC 3339 timestamp (`YYYY-MM-DDT...`),
/// judged on its UTF-8 bytes.
pub open spec fn looks_like_timestamp_spec(s: Seq<char>) -> bool {
    let b = encode_utf8(s);
    b.len() >= 19 && b[4] == 45u8 && b[7] == 45u8 && b[10] == 84u8
}

/// Whether a string looks like an RFC 3339 timestamp.
pub fn looks_like_timestamp(s: &str) -> (r: bool)
    ensures
        r == looks_like_timestamp_spec(s@),
{
    let b = s.as_bytes();
    b.len() >= 19 && b[4] == 45u8 && b[7] == 45u8 && b[10] == 84u8
}

/// A string whose UTF-8 encoding is the first `n` bytes of that of `s`.
pub open spec fn byte_prefix(s: Seq<char>, n: int) -> Seq<char> {
    choose|t: Seq<char>| encode_utf8(t) == encode_utf8(s).subrange(0, n)
}

/// The cell of a JSON value in the column (or field) `key`, or `None` when a
/// long string would have to be cut inside a character.
pub open spec fn fv_spec(v: JsonV, key: Seq<char>, use_color: bool) -> Option<CellV> {
    match v {
        JsonV::Null => Some(CellV::Text(dash())),
        JsonV::Bool(b) => Some(CellV::Text(if b { seq!['\u{2713}'] } else { dash() })),
        JsonV::Number(n) => Some(CellV::Text(n)),
        JsonV::Str(s) => if key == "status"@ {
            Some(CellV::Text(pill_text(s, use_color)))
        } else if looks_like_timestamp_spec(s) {
            Some(CellV::Time(s))
        } else if encode_utf8(s).len() > 60 {
            if is_char_boundary(encode_utf8(s), 59) {
                Some(CellV::Text(byte_prefix(s, 59) + seq!['\u{2026}']))
            } else {
                None
            }
        } else {
            Some(CellV::Text(s))
        },
        JsonV::Array(a) => Some(CellV::Text(seq!['['] + crate::text::decimal(a.len()) + " items]"@)),
        JsonV::Object(o) => Some(CellV::Text(seq!['{'] + crate::text::decimal(o.len()) + " keys}"@)),
    }
}

/// The status pill of a status string.
pub open spec fn pill_text(s: Seq<char>, use_color: bool) -> Seq<char> {
    if use_color {
        pill_spec(parse_spec(s), s)
    } else {
        dot() + seq![' '] + s
    }
}

fn pill_cell(s: &str, use_color: bool) -> (r: String)
    ensures
        r@ == pill_text(s@, use_color),
{
    Status::parse(s).pill_colored(s, use_color)
}

fn count_text(open: &str, n: usize, close: &str) -> (r: String)
    ensures
        r@ == open@ + crate::text::decimal(n as nat) + close@,
{
    let digits = crate::text::to_decimal(n as u64);
    crate::text::concat3(open, digits.as_str(), close)
}

/// Render a JSON value for a table cell: `—` for null and false, `✓` for
/// true, status pills for the `status` field, timestamps shown relatively,
/// long strings cut to 59 bytes plus `…`, and collections summarised by size.
/// `None` when byte 59 of a long string falls inside a character.
pub fn format_value(v: &Json, key: &str, use_color: bool) -> (r: Option<Cell>)
    ensures
        match r {
            Some(c) => fv_spec(v@, key@, use_color) == Some(c@),
            None => fv_spec(v@, key@, use_color) is None,
        },
{
    proof {
        reveal_strlit("\u{2014}");
        reveal_strlit("\u{2713}");
        reveal_strlit("\u{2026}");
        reveal_strlit("[");
        reveal_strlit("{");
    }
    match v {
        Json::Null => {
            let t = String::from_str("\u{2014}");
            assert(t@ == dash());
            assert(v@ == JsonV::Null);
            Some(Cell::Text(t))
        },
        Json::Bool(b) => {
            if *b {
                let t = String::from_str("\u{2713}");
                assert(t@ == seq!['\u{2713}']);
                assert(v@ == JsonV::Bool(true));
                assert(fv_spec(v@, key@, use_color) == Some(CellV::Text(t@)));
                Some(Cell::Text(t))
            } else {
                let t = String::from_str("\u{2014}");
                assert(t@ == dash());
                assert(v@ == JsonV::Bool(false));
                assert(fv_spec(v@, key@, use_color) == Some(CellV::Text(t@)));
                Some(Cell::Text(t))
            }
        },
        Json::Number(n) => {
            let t = copy_str(n);
            assert(fv_spec(v@, key@, use_color) == Some(CellV::Text(t@)));
            Some(Cell::Text(t))
        },
        Json::Str(s) => {
            if str_eq(key, "status") {
                let t = pill_cell(s.as_str(), use_color);
                assert(fv_spec(v@, key@, use_color) == Some(CellV::Text(t@)));
                Some(Cell::Text(t))
            } else if looks_like_timestamp(s.as_str()) {
                let t = copy_str(s);
                assert(fv_spec(v@, key@, use_color) == Some(CellV::Time(t@)));
                Some(Cell::Time(t))
            } else if s.as_str().as_bytes().len() > 60 {
                if s.as_str().is_char_boundary(59) {
                    let (head, _tail) = s.as_str().split_at(59);
                    proof {
                        assert(encode_utf8(head@) == encode_utf8(s@).subrange(0, 59));
                    }
                    let r = concat(head, "\u{2026}");
                    assert(r@ == byte_prefix(s@, 59) + seq!['\u{2026}']) by {
                        let t = byte_prefix(s@, 59);
                        assert(encode_utf8(t) == encode_utf8(s@).subrange(0, 59));
                        crate::text::lemma_encode_utf8_injective(t, head@);
                    }
                    assert(fv_spec(v@, key@, use_color) == Some(CellV::Text(r@)));
                    Some(Cell::Text(r))
                } else {
                    None
                }
            } else {
                let t = copy_str(s);
                assert(fv_spec(v@, key@, use_color) == Some(CellV::Text(t@)));
                Some(Cell::Text(t))
            }
        },
        Json::Array(a) => {
            let t = count_text("[", a.len(), " items]");
            proof {
                crate::json::lemma_array_len(*a);
            }
            assert(v@ matches JsonV::Array(items) && items.len() == a@.len());
            assert(t@ == seq!['['] + crate::text::decimal(a@.len()) + " items]"@);
            assert(fv_spec(v@, key@, use_color) == Some(CellV::Text(t@)));
            Some(Cell::Text(t))
        },
        Json::Object(o) => {
            proof {
                crate::json::lemma_object_len(*o);
            }
            let t = count_text("{", o.len(), " keys}");
            assert(v@ matches JsonV::Object(es) && es.len() == o@.len());
            assert(t@ == seq!['{'] + crate::text::decimal(o@.len()) + " keys}"@);
            assert(fv_spec(v@, key@, use_color) == Some(CellV::Text(t@)));
            Some(Cell::Text(t))
        },
    }
}


/// How a column renders its value.
#[derive(Debug, Clone, Copy, PartialEq, Eq, Structural)]
pub enum ColKind {
    Plain,
    Status,
    Time,
}

/// A generic table column: its header, which is also the key of its value,
/// either at the top level of an item or inside its `attributes`.
#[derive(Debug, Clone)]
pub struct Column {
    pub title: String,
    pub in_attributes: bool,
    pub kind: ColKind,
}

/// The mathematical content of a column.
pub struct ColumnV {
    pub title: Seq<char>,
    pub in_attributes: bool,
    pub kind: ColKind,
}

impl View for Column {
    type V = ColumnV;

    open spec fn view(&self) -> ColumnV {
        ColumnV { title: self.title@, in_attributes: self.in_attributes, kind: self.kind }
    }
}

/// The path of object keys leading to a column's value.
pub open spec fn column_path(c: ColumnV) -> Seq<Seq<char>> {
    if c.in_attributes {
        seq!["attributes"@, c.title]
    } else {
        seq![c.title]
    }
}

/// The columns' views.
pub open spec fn cols_view(cols: Seq<Column>) -> Seq<ColumnV> {
    Seq::new(cols.len(), |i: int| cols[i]@)
}

/// The column of attribute `key`, when the attributes hold it.
pub open spec fn attr_col(attrs: JsonV, key: Seq<char>, kind: ColKind) -> Seq<ColumnV> {
    if get_spec(attrs, key) is Some {
        seq![ColumnV { title: key, in_attributes: true, kind: kind }]
    } else {
        seq![]
    }
}

/// The well-known attribute columns an attributes object provides.
pub open spec fn known_cols(a: JsonV) -> Seq<ColumnV> {
    attr_col(a, "name"@, ColKind::Plain) + attr_col(a, "key"@, ColKind::Plain) + attr_col(
        a,
        "status"@,
        ColKind::Status,
    ) + attr_col(a, "expiry"@, ColKind::Time) + attr_col(a, "expires"@, ColKind::Time) + attr_col(
        a,
        "created"@,
        ColKind::Time,
    )
}

/// How many attribute keys the fallback columns show at most.
pub open spec fn fallback_width() -> int {
    4
}

/// The plain column of attribute `key`.
pub open spec fn plain_attr_col(key: Seq<char>) -> ColumnV {
    ColumnV { title: key, in_attributes: true, kind: ColKind::Plain }
}

/// The fallback columns: the first few attribute keys, in the order the
/// attributes hold them.
pub open spec fn fallback_cols(es: Seq<(Seq<char>, JsonV)>) -> Seq<ColumnV> {
    let n = if es.len() < fallback_width() {
        es.len() as int
    } else {
        fallback_width()
    };
    Seq::new(n as nat, |i: int| plain_attr_col(es[i].0))
}

/// The default columns for a list, judged from its first item: `id`, `type`
/// when present, then the well-known attributes `name`, `key`, `status`,
/// `expiry`, `expires` and `created` that the item carries; when it carries
/// none of them, the first few attribute keys instead.
pub open spec fn columns_spec(sample: JsonV) -> Seq<ColumnV> {
    let c0 = seq![ColumnV { title: "id"@, in_attributes: false, kind: ColKind::Plain }];
    let c1 = if get_spec(sample, "type"@) is Some {
        c0.push(ColumnV { title: "type"@, in_attributes: false, kind: ColKind::Plain })
    } else {
        c0
    };
    match get_spec(sample, "attributes"@) {
        Some(JsonV::Object(es)) => if known_cols(JsonV::Object(es)).len() > 0 {
            c1 + known_cols(JsonV::Object(es))
        } else {
            c1 + fallback_cols(es)
        },
        _ => c1,
    }
}

fn fallback_columns(entries: &Vec<(String, Json)>) -> (r: Vec<Column>)
    ensures
        cols_view(r@) == fallback_cols(Seq::new(entries@.len(), |i: int| (entries@[i].0@, entries@[i].1@))),
{
    let ghost es = Seq::new(entries@.len(), |i: int| (entries@[i].0@, entries@[i].1@));
    let n: usize = if entries.len() < 4 {
        entries.len()
    } else {
        4
    };
    let mut cols: Vec<Column> = Vec::new();
    let mut i: usize = 0;
    while i < n
        invariant
            n <= entries@.len(),
            n == if es.len() < fallback_width() { es.len() as int } else { fallback_width() },
            es == Seq::new(entries@.len(), |i: int| (entries@[i].0@, entries@[i].1@)),
            i <= n,
            cols@.len() == i,
            forall|k: int| 0 <= k < i ==> #[trigger] cols_view(cols@)[k] == plain_attr_col(es[k].0),
        decreases n - i,
    {
        let ghost before = cols@;
        cols.push(Column { title: copy_str(&entries[i].0), in_attributes: true, kind: ColKind::Plain });
        proof {
            assert forall|k: int| 0 <= k <= i implies #[trigger] cols_view(cols@)[k] == plain_attr_col(es[k].0) by {
                if k < i {
                    assert(cols@[k] == before[k]);
                    assert(cols_view(before)[k] == cols_view(cols@)[k]);
                }
            }
        }
        i = i + 1;
    }
    assert(cols_view(cols@) =~= fallback_cols(es));
    cols
}

#[verifier::spinoff_prover]
#[verifier::rlimit(30)]
fn attr_cols(attrs: &Json) -> (r: Vec<Column>)
    ensures
        cols_view(r@) == known_cols(attrs@),
{
    let mut cols: Vec<Column> = Vec::new();
    let keys: [(&'static str, ColKind); 6] = [
        ("name", ColKind::Plain),
        ("key", ColKind::Plain),
        ("status", ColKind::Status),
        ("expiry", ColKind::Time),
        ("expires", ColKind::Time),
        ("created", ColKind::Time),
    ];
    let ghost specs = seq![
        attr_col(attrs@, "name"@, ColKind::Plain),
        attr_col(attrs@, "key"@, ColKind::Plain),
        attr_col(attrs@, "status"@, ColKind::Status),
        attr_col(attrs@, "expiry"@, ColKind::Time),
        attr_col(attrs@, "expires"@, ColKind::Time),
        attr_col(attrs@, "created"@, ColKind::Time),
    ];
    let mut i: usize = 0;
    while i < 6
        invariant
            i <= 6,
            keys@ == seq![
                ("name", ColKind::Plain),
                ("key", ColKind::Plain),
                ("status", ColKind::Status),
                ("expiry", ColKind::Time),
                ("expires", ColKind::Time),
                ("created", ColKind::Time),
            ],
            specs.len() == 6,
            forall|k: int| 0 <= k < 6 ==> #[trigger] specs[k] == attr_col(attrs@, keys@[k].0@, keys@[k].1),
            cols_view(cols@) == specs.take(i as int).fold_left(Seq::<ColumnV>::empty(), |acc: Seq<ColumnV>, x: Seq<ColumnV>| acc + x),
        decreases 6 - i,
    {
        let (key, kind) = keys[i];
        let ghost before = cols@;
        if attrs.get(key).is_some() {
            cols.push(Column { title: String::from_str(key), in_attributes: true, kind });
        }
        proof {
            assert(specs.take(i + 1).drop_last() =~= specs.take(i as int));
            assert(cols_view(cols@) =~= cols_view(before) + specs[i as int]);
        }
        i = i + 1;
    }
    proof {
        assert(specs.take(6) =~= specs);
        reveal_with_fuel(Seq::fold_left, 7);
        assert(specs.take(6).fold_left(Seq::<ColumnV>::empty(), |acc: Seq<ColumnV>, x: Seq<ColumnV>| acc + x) =~= known_cols(attrs@));
    }
    cols
}

/// The default columns for a list, judged from its first item.
pub fn generic_columns(sample: &Json) -> (r: Vec<Column>)
    ensures
        cols_view(r@) == columns_spec(sample@),
{
    let mut cols: Vec<Column> = Vec::new();
    cols.push(Column { title: String::from_str("id"), in_attributes: false, kind: ColKind::Plain });
    if sample.get("type").is_some() {
        cols.push(Column { title: String::from_str("type"), in_attributes: false, kind: ColKind::Plain });
    }
    let ghost c1 = cols_view(cols@);
    proof {
        let c0 = seq![ColumnV { title: "id"@, in_attributes: false, kind: ColKind::Plain }];
        assert(c1 =~= if get_spec(sample@, "type"@) is Some {
            c0.push(ColumnV { title: "type"@, in_attributes: false, kind: ColKind::Plain })
        } else {
            c0
        });
    }
    match sample.get("attributes") {
        Some(attrs) => {
            match attrs {
                Json::Object(entries) => {
                    let mut more = attr_cols(attrs);
                    if more.len() == 0 {
                        more = fallback_columns(entries);
                        proof {
                            crate::json::lemma_object_seq(*entries);
                        }
                    }
                    let ghost m = cols_view(more@);
                    cols.append(&mut more);
                    assert(cols_view(cols@) =~= c1 + m);
                },
                _ => {
                    assert(!(attrs@ is Object));
                },
            }
        },
        None => {},
    }
    cols
}

/// Follow a path of object keys.
pub fn pointer<'a>(value: &'a Json, path: &[&str]) -> (r: Option<&'a Json>)
    ensures
        match r {
            Some(x) => pointer_spec(value@, path@.map_values(|s: &str| s@)) == Some(x@),
            None => pointer_spec(value@, path@.map_values(|s: &str| s@)) is None,
        },
{
    let n = path.len();
    let mut cur: &Json = value;
    let mut i: usize = 0;
    let ghost full = path@.map_values(|s: &str| s@);
    assert(full.subrange(0, n as int) =~= full);
    while i < n
        invariant
            n == path@.len(),
            full == path@.map_values(|s: &str| s@),
            i <= n,
            pointer_spec(value@, full) == pointer_spec(cur@, full.subrange(i as int, n as int)),
        decreases n - i,
    {
        let ghost rest = full.subrange(i as int, n as int);
        assert(rest[0] == path@[i as int]@);
        assert(rest.drop_first() =~= full.subrange(i + 1, n as int));
        match cur.get(path[i]) {
            Some(next) => {
                cur = next;
            },
            None => {
                return None;
            },
        }
        i = i + 1;
    }
    assert(full.subrange(n as int, n as int) =~= Seq::<Seq<char>>::empty());
    Some(cur)
}

fn column_value<'a>(value: &'a Json, col: &Column) -> (r: Option<&'a Json>)
    ensures
        match r {
            Some(x) => pointer_spec(value@, column_path(col@)) == Some(x@),
            None => pointer_spec(value@, column_path(col@)) is None,
        },
{
    if col.in_attributes {
        let path: [&str; 2] = ["attributes", col.title.as_str()];
        let r = pointer(value, &path);
        assert(path@.map_values(|s: &str| s@) =~= column_path(col@));
        r
    } else {
        let path: [&str; 1] = [col.title.as_str()];
        let r = pointer(value, &path);
        assert(path@.map_values(|s: &str| s@) =~= column_path(col@));
        r
    }
}

/// The cell of one column for one item.
pub open spec fn cell_spec(value: JsonV, col: ColumnV, use_color: bool) -> Option<CellV> {
    let raw = match pointer_spec(value, column_path(col)) {
        Some(v) => v,
        None => JsonV::Null,
    };
    match col.kind {
        ColKind::Plain => fv_spec(raw, col.title, use_color),
        ColKind::Status => match raw {
            JsonV::Str(s) => Some(CellV::Text(pill_text(s, use_color))),
            _ => Some(CellV::Text(dash())),
        },
        ColKind::Time => match raw {
            JsonV::Str(s) => Some(CellV::Time(s)),
            _ => Some(CellV::Text(dash())),
        },
    }
}

/// The cell of one column for one item; `None` as for [`format_value`].
pub fn cell_string(value: &Json, col: &Column, use_color: bool) -> (r: Option<Cell>)
    ensures
        match r {
            Some(c) => cell_spec(value@, col@, use_color) == Some(c@),
            None => cell_spec(value@, col@, use_color) is None,
        },
{
    proof {
        reveal_strlit("\u{2014}");
    }
    let null = Json::Null;
    let raw: &Json = match column_value(value, col) {
        Some(v) => v,
        None => &null,
    };
    match col.kind {
        ColKind::Plain => format_value(raw, col.title.as_str(), use_color),
        ColKind::Status => match raw {
            Json::Str(s) => {
                let t = pill_cell(s.as_str(), use_color);
                Some(Cell::Text(t))
            },
            _ => {
                let t = String::from_str("\u{2014}");
                assert(t@ == dash());
                Some(Cell::Text(t))
            },
        },
        ColKind::Time => match raw {
            Json::Str(s) => Some(Cell::Time(copy_str(s))),
            _ => {
                let t = String::from_str("\u{2014}");
                assert(t@ == dash());
                Some(Cell::Text(t))
            },
        },
    }
}


/// The cells of one item, one per column; `None` when a cell cannot be cut.
pub open spec fn row_spec(item: JsonV, cols: Seq<ColumnV>, use_color: bool) -> Option<Seq<CellV>>
    decreases cols.len(),
{
    if cols.len() == 0 {
        Some(seq![])
    } else {
        match row_spec(item, cols.drop_last(), use_color) {
            Some(r) => match cell_spec(item, cols.last(), use_color) {
                Some(c) => Some(r.push(c)),
                None => None,
            },
            None => None,
        }
    }
}

/// The rows of a list, one per item.
pub open spec fn rows_spec(items: Seq<JsonV>, cols: Seq<ColumnV>, use_color: bool) -> Option<
    Seq<Seq<CellV>>,
>
    decreases items.len(),
{
    if items.len() == 0 {
        Some(seq![])
    } else {
        match rows_spec(items.drop_last(), cols, use_color) {
            Some(r) => match row_spec(items.last(), cols, use_color) {
                Some(row) => Some(r.push(row)),
                None => None,
            },
            None => None,
        }
    }
}

/// The view of a row of cells.
pub open spec fn cells_view(row: Seq<Cell>) -> Seq<CellV> {
    Seq::new(row.len(), |j: int| row[j]@)
}

/// The view of rows of cells.
pub open spec fn grid_view(rows: Seq<Vec<Cell>>) -> Seq<Seq<CellV>> {
    Seq::new(rows.len(), |i: int| cells_view(rows[i]@))
}

/// The cells of one item.
pub fn table_row(item: &Json, cols: &Vec<Column>, use_color: bool) -> (r: Option<Vec<Cell>>)
    ensures
        match r {
            Some(row) => row_spec(item@, cols_view(cols@), use_color) == Some(cells_view(row@)),
            None => row_spec(item@, cols_view(cols@), use_color) is None,
        },
{
    let n = cols.len();
    let mut row: Vec<Cell> = Vec::new();
    let mut i: usize = 0;
    let ghost cv = cols_view(cols@);
    assert(cv.take(0) =~= Seq::<ColumnV>::empty());
    assert(cells_view(row@) =~= Seq::<CellV>::empty());
    while i < n
        invariant
            n == cols@.len(),
            cv == cols_view(cols@),
            i <= n,
            row_spec(item@, cv.take(i as int), use_color) == Some(cells_view(row@)),
        decreases n - i,
    {
        assert(cv.take(i + 1).drop_last() =~= cv.take(i as int));
        assert(cv.take(i + 1).last() == cols@[i as int]@);
        match cell_string(item, &cols[i], use_color) {
            Some(c) => {
                let ghost before = row@;
                row.push(c);
                assert(cells_view(row@) =~= cells_view(before).push(c@));
            },
            None => {
                proof {
                    lemma_row_none_extends(item@, cv, i as int + 1, use_color);
                }
                return None;
            },
        }
        i = i + 1;
    }
    assert(cv.take(n as int) =~= cv);
    Some(row)
}

proof fn lemma_row_none_extends(item: JsonV, cv: Seq<ColumnV>, k: int, use_color: bool)
    requires
        0 <= k <= cv.len(),
        row_spec(item, cv.take(k), use_color) is None,
    ensures
        row_spec(item, cv, use_color) is None,
    decreases cv.len() - k,
{
    if k < cv.len() {
        assert(cv.take(k + 1).drop_last() =~= cv.take(k));
        lemma_row_none_extends(item, cv, k + 1, use_color);
    } else {
        assert(cv.take(k) =~= cv);
    }
}

proof fn lemma_rows_none_extends(items: Seq<JsonV>, cv: Seq<ColumnV>, k: int, use_color: bool)
    requires
        0 <= k <= items.len(),
        rows_spec(items.take(k), cv, use_color) is None,
    ensures
        rows_spec(items, cv, use_color) is None,
    decreases items.len() - k,
{
    if k < items.len() {
        assert(items.take(k + 1).drop_last() =~= items.take(k));
        lemma_rows_none_extends(items, cv, k + 1, use_color);
    } else {
        assert(items.take(k) =~= items);
    }
}

/// The rows of a list under the given columns.
pub fn table_rows(items: &Vec<Json>, cols: &Vec<Column>, use_color: bool) -> (r: Option<Vec<Vec<Cell>>>)
    ensures
        match r {
            Some(rows) => rows_spec(items_view(items@), cols_view(cols@), use_color) == Some(
                grid_view(rows@),
            ),
            None => rows_spec(items_view(items@), cols_view(cols@), use_color) is None,
        },
{
    let n = items.len();
    let mut rows: Vec<Vec<Cell>> = Vec::new();
    let mut i: usize = 0;
    let ghost iv = items_view(items@);
    assert(iv.take(0) =~= Seq::<JsonV>::empty());
    assert(grid_view(rows@) =~= Seq::<Seq<CellV>>::empty());
    while i < n
        invariant
            n == items@.len(),
            iv == items_view(items@),
            i <= n,
            rows_spec(iv.take(i as int), cols_view(cols@), use_color) == Some(grid_view(rows@)),
        decreases n - i,
    {
        assert(iv.take(i + 1).drop_last() =~= iv.take(i as int));
        assert(iv.take(i + 1).last() == items@[i as int]@);
        match table_row(&items[i], cols, use_color) {
            Some(row) => {
                let ghost before = rows@;
                let ghost rv = cells_view(row@);
                rows.push(row);
                assert(grid_view(rows@) =~= grid_view(before).push(rv));
            },
            None => {
                proof {
                    lemma_rows_none_extends(iv, cols_view(cols@), i as int + 1, use_color);
                }
                return None;
            },
        }
        i = i + 1;
    }
    assert(iv.take(n as int) =~= iv);
    Some(rows)
}

/// Field/value rows of an object's members (skipping `id` and `type` when
/// `skip_ids`), or `None` when a value cannot be cut.
pub open spec fn member_rows(es: Seq<(Seq<char>, JsonV)>, skip_ids: bool, use_color: bool) -> Option<
    Seq<(Seq<char>, CellV)>,
>
    decreases es.len(),
{
    if es.len() == 0 {
        Some(seq![])
    } else {
        match member_rows(es.drop_last(), skip_ids, use_color) {
            Some(r) => {
                let (k, v) = es.last();
                if skip_ids && (k == "id"@ || k == "type"@) {
                    Some(r)
                } else {
                    match fv_spec(v, k, use_color) {
                        Some(c) => Some(r.push((k, c))),
                        None => None,
                    }
                }
            },
            None => None,
        }
    }
}

/// The `id` and `type` rows of a value, for those that are strings.
pub open spec fn head_rows(value: JsonV) -> Seq<(Seq<char>, CellV)> {
    let id_rows = match as_str_spec(get_spec(value, "id"@)) {
        Some(id) => seq![("id"@, CellV::Text(id))],
        None => seq![],
    };
    let type_rows = match as_str_spec(get_spec(value, "type"@)) {
        Some(t) => seq![("type"@, CellV::Text(t))],
        None => seq![],
    };
    id_rows + type_rows
}

/// The member rows of a value: those of `attributes` when it is an object,
/// otherwise the value's own members other than `id` and `type`.
pub open spec fn rest_rows(value: JsonV, use_color: bool) -> Option<Seq<(Seq<char>, CellV)>> {
    match get_spec(value, "attributes"@) {
        Some(JsonV::Object(es)) => member_rows(es, false, use_color),
        _ => match value {
            JsonV::Object(es) => member_rows(es, true, use_color),
            _ => Some(seq![]),
        },
    }
}

/// The field/value rows of a single resource or bag: `id` and `type` first
/// when they are strings, then the member rows.
pub open spec fn kv_spec(value: JsonV, use_color: bool) -> Option<Seq<(Seq<char>, CellV)>> {
    match rest_rows(value, use_color) {
        Some(r) => Some(head_rows(value) + r),
        None => None,
    }
}

/// The view of field/value rows.
pub open spec fn kv_view(rows: Seq<(String, Cell)>) -> Seq<(Seq<char>, CellV)> {
    Seq::new(rows.len(), |i: int| (rows[i].0@, rows[i].1@))
}

proof fn lemma_members_none_extends(
    es: Seq<(Seq<char>, JsonV)>,
    k: int,
    skip_ids: bool,
    use_color: bool,
)
    requires
        0 <= k <= es.len(),
        member_rows(es.take(k), skip_ids, use_color) is None,
    ensures
        member_rows(es, skip_ids, use_color) is None,
    decreases es.len() - k,
{
    if k < es.len() {
        assert(es.take(k + 1).drop_last() =~= es.take(k));
        lemma_members_none_extends(es, k + 1, skip_ids, use_color);
    } else {
        assert(es.take(k) =~= es);
    }
}

fn members_rows(
    members: &Vec<(String, Json)>,
    skip_ids: bool,
    use_color: bool,
    rows: &mut Vec<(String, Cell)>,
) -> (ok: bool)
    ensures
        ({
            let es = Seq::new(members@.len(), |i: int| (members@[i].0@, members@[i].1@));
            match member_rows(es, skip_ids, use_color) {
                Some(r) => ok && kv_view(final(rows)@) == kv_view(old(rows)@) + r,
                None => !ok,
            }
        }),
{
    let n = members.len();
    let ghost es = Seq::new(members@.len(), |i: int| (members@[i].0@, members@[i].1@));
    let ghost start = kv_view(rows@);
    let mut i: usize = 0;
    assert(es.take(0) =~= Seq::<(Seq<char>, JsonV)>::empty());
    assert(start + Seq::<(Seq<char>, CellV)>::empty() =~= start);
    while i < n
        invariant
            n == members@.len(),
            es == Seq::new(members@.len(), |i: int| (members@[i].0@, members@[i].1@)),
            i <= n,
            member_rows(es.take(i as int), skip_ids, use_color) matches Some(r) && kv_view(rows@)
                == start + r,
        decreases n - i,
    {
        assert(es.take(i + 1).drop_last() =~= es.take(i as int));
        assert(es.take(i + 1).last() == (members@[i as int].0@, members@[i as int].1@));
        let key = members[i].0.as_str();
        let skip = skip_ids && (str_eq(key, "id") || str_eq(key, "type"));
        if !skip {
            match format_value(&members[i].1, key, use_color) {
                Some(c) => {
                    let ghost before = kv_view(rows@);
                    let ghost cv = c@;
                    rows.push((copy_str(&members[i].0), c));
                    assert(kv_view(rows@) =~= before.push((key@, cv)));
                },
                None => {
                    proof {
                        lemma_members_none_extends(es, i as int + 1, skip_ids, use_color);
                    }
                    return false;
                },
            }
        }
        i = i + 1;
    }
    assert(es.take(n as int) =~= es);
    true
}

fn text_cell(s: &str) -> (c: Cell)
    ensures
        c@ == CellV::Text(s@),
{
    Cell::Text(String::from_str(s))
}

fn head_rows_exec(value: &Json) -> (rows: Vec<(String, Cell)>)
    ensures
        kv_view(rows@) == head_rows(value@),
{
    let mut rows: Vec<(String, Cell)> = Vec::new();
    let ghost none = Seq::<(Seq<char>, CellV)>::empty();
    assert(kv_view(rows@) =~= none);
    let id = match value.get("id") {
        Some(x) => x.as_str(),
        None => None,
    };
    if let Some(s) = id {
        rows.push((String::from_str("id"), text_cell(s)));
        assert(kv_view(rows@) =~= seq![("id"@, CellV::Text(s@))]);
    }
    let ghost after_id = kv_view(rows@);
    let t = match value.get("type") {
        Some(x) => x.as_str(),
        None => None,
    };
    if let Some(s) = t {
        rows.push((String::from_str("type"), text_cell(s)));
        assert(kv_view(rows@) =~= after_id + seq![("type"@, CellV::Text(s@))]);
    } else {
        assert(kv_view(rows@) =~= after_id + none);
    }
    rows
}

fn rest_rows_exec(value: &Json, use_color: bool, rows: &mut Vec<(String, Cell)>) -> (ok: bool)
    ensures
        match rest_rows(value@, use_color) {
            Some(r) => ok && kv_view(final(rows)@) == kv_view(old(rows)@) + r,
            None => !ok,
        },
{
    match value.get("attributes") {
        Some(Json::Object(members)) => {
            proof {
                crate::json::lemma_object_seq(*members);
            }
            members_rows(members, false, use_color, rows)
        },
        _ => match value {
            Json::Object(members) => {
                proof {
                    crate::json::lemma_object_seq(*members);
                }
                members_rows(members, true, use_color, rows)
            },
            _ => {
                assert(kv_view(rows@) =~= kv_view(rows@) + Seq::<(Seq<char>, CellV)>::empty());
                true
            },
        },
    }
}

/// The field/value rows of a single resource or bag; `None` when a value
/// cannot be cut.
pub fn kv_rows(value: &Json, use_color: bool) -> (r: Option<Vec<(String, Cell)>>)
    ensures
        match r {
            Some(rows) => kv_spec(value@, use_color) == Some(kv_view(rows@)),
            None => kv_spec(value@, use_color) is None,
        },
{
    let mut rows = head_rows_exec(value);
    if rest_rows_exec(value, use_color, &mut rows) {
        Some(rows)
    } else {
        None
    }
}


/// What the output layer prints for a payload.
#[allow(inconsistent_fields)]
#[derive(Debug)]
pub enum Rendering {
    /// Nothing (dry run: the request was already shown).
    Nothing,
    /// The envelope as one line of compact JSON.
    JsonDoc(Json),
    /// The envelope as YAML.
    YamlDoc(Json),
    /// One line of compact JSON per value.
    JsonLines(Vec<Json>),
    /// A header line and one line per row, tab-separated.
    Tsv { header: Vec<String>, rows: Vec<Vec<Cell>> },
    /// The `(no rows)` notice of an empty list.
    NoRows,
    /// A table with a header row.
    Table { header: Vec<String>, rows: Vec<Vec<Cell>> },
    /// A field/value table, and a second one for `meta` when present.
    KvTable { rows: Vec<(String, Cell)>, meta: Option<Vec<(String, Cell)>> },
}

/// The values an NDJSON rendering prints, one per line.
pub open spec fn ndjson_spec(p: Payload) -> Seq<JsonV> {
    match p {
        Payload::List(items) => items_view(items@),
        Payload::Single(v) | Payload::Bag(v) => seq![v@],
        Payload::WithMeta { data, .. } => seq![data@],
    }
}

/// The titles of columns.
pub open spec fn titles(cols: Seq<ColumnV>) -> Seq<Seq<char>> {
    Seq::new(cols.len(), |i: int| cols[i].title)
}

/// The view of a header.
pub open spec fn header_view(h: Seq<String>) -> Seq<Seq<char>> {
    Seq::new(h.len(), |i: int| h[i]@)
}

/// The items of a payload as JSON values.
pub open spec fn json_lines_view(v: Seq<Json>) -> Seq<JsonV> {
    items_view(v)
}

/// Whether `r` is a grid of the list `items` with its default columns.
pub open spec fn is_grid(items: Seq<Json>, header: Seq<String>, rows: Seq<Vec<Cell>>, use_color: bool) -> bool {
    let cols = columns_spec(items[0]@);
    &&& header_view(header) == titles(cols)
    &&& rows_spec(items_view(items), cols, use_color) == Some(grid_view(rows))
}

/// Whether a rendering is what a payload shows in the given format.
pub open spec fn renders(
    format: OutputFormat,
    dry_run: bool,
    use_color: bool,
    p: Payload,
    r: Rendering,
) -> bool {
    if dry_run {
        r is Nothing
    } else {
        match format {
            OutputFormat::Json => r matches Rendering::JsonDoc(j) && j@ == envelope_spec(p),
            OutputFormat::Yaml => r matches Rendering::YamlDoc(j) && j@ == envelope_spec(p),
            OutputFormat::Ndjson => r matches Rendering::JsonLines(v) && json_lines_view(v@) == ndjson_spec(p),
            OutputFormat::Tsv => match p {
                Payload::List(items) => if items@.len() == 0 {
                    r matches Rendering::JsonLines(v) && v@.len() == 0
                } else {
                    r matches Rendering::Tsv { header, rows } && is_grid(items@, header@, rows@, false)
                },
                _ => r matches Rendering::JsonLines(v) && json_lines_view(v@) == ndjson_spec(p),
            },
            OutputFormat::Table => match p {
                Payload::List(items) => if items@.len() == 0 {
                    r is NoRows
                } else {
                    r matches Rendering::Table { header, rows } && is_grid(items@, header@, rows@, use_color)
                },
                Payload::Single(v) | Payload::Bag(v) => r matches Rendering::KvTable { rows, meta } && kv_spec(v@, use_color) == Some(kv_view(rows@)) && meta is None,
                Payload::WithMeta { data, meta } => r matches Rendering::KvTable { rows, meta: m } && kv_spec(data@, use_color) == Some(kv_view(rows@)) && match meta {
                    Some(mv) => m matches Some(mr) && kv_spec(mv@, use_color) == Some(kv_view(mr@)),
                    None => m is None,
                },
            },
        }
    }
}

/// Whether some cell of the payload's table cannot be cut (the table cannot
/// be drawn).
pub open spec fn uncuttable(format: OutputFormat, dry_run: bool, use_color: bool, p: Payload) -> bool {
    !dry_run && match format {
        OutputFormat::Tsv => p matches Payload::List(items) && items@.len() > 0 && rows_spec(items_view(items@), columns_spec(items@[0]@), false) is None,
        OutputFormat::Table => match p {
            Payload::List(items) => items@.len() > 0 && rows_spec(items_view(items@), columns_spec(items@[0]@), use_color) is None,
            Payload::Single(v) | Payload::Bag(v) => kv_spec(v@, use_color) is None,
            Payload::WithMeta { data, meta } => kv_spec(data@, use_color) is None || (meta matches Some(mv) && kv_spec(mv@, use_color) is None),
        },
        _ => false,
    }
}

/// One TSV line: the fields joined with tabs.
pub fn tsv_line(fields: &Vec<String>) -> (r: String)
    ensures
        r@ == join_spec(texts_view(fields@), '\t'),
{
    proof {
        reveal_strlit("\t");
    }
    join(fields, "\t")
}

fn one_line(v: &Json) -> (r: Vec<Json>)
    ensures
        json_lines_view(r@) == seq![v@],
{
    let r = vec![v.deep_copy()];
    assert(json_lines_view(r@) =~= seq![v@]);
    r
}

fn header_of(cols: &Vec<Column>) -> (h: Vec<String>)
    ensures
        header_view(h@) == titles(cols_view(cols@)),
{
    let n = cols.len();
    let mut h: Vec<String> = Vec::new();
    let mut i: usize = 0;
    while i < n
        invariant
            n == cols@.len(),
            i <= n,
            h@.len() == i,
            forall|k: int| 0 <= k < i ==> #[trigger] h@[k]@ == cols@[k].title@,
        decreases n - i,
    {
        h.push(copy_str(&cols[i].title));
        i = i + 1;
    }
    assert(header_view(h@) =~= titles(cols_view(cols@)));
    h
}

fn grid(items: &Vec<Json>, use_color: bool) -> (r: Option<(Vec<String>, Vec<Vec<Cell>>)>)
    requires
        items@.len() > 0,
    ensures
        match r {
            Some((header, rows)) => is_grid(items@, header@, rows@, use_color),
            None => rows_spec(items_view(items@), columns_spec(items@[0]@), use_color) is None,
        },
{
    let cols = generic_columns(&items[0]);
    let header = header_of(&cols);
    match table_rows(items, &cols, use_color) {
        Some(rows) => Some((header, rows)),
        None => None,
    }
}

/// How a payload is shown in the given format: the JSON envelope, YAML, one
/// JSON value per line, TSV or a table. `None` exactly when a table cell
/// would have to cut a long string inside a character.
pub fn emit_ref(format: OutputFormat, dry_run: bool, use_color: bool, payload: &Payload) -> (r:
    Option<Rendering>)
    ensures
        match r {
            Some(x) => renders(format, dry_run, use_color, *payload, x),
            None => uncuttable(format, dry_run, use_color, *payload),
        },
{
    if dry_run {
        return Some(Rendering::Nothing);
    }
    match format {
        OutputFormat::Json => Some(Rendering::JsonDoc(envelope(payload))),
        OutputFormat::Yaml => Some(Rendering::YamlDoc(envelope(payload))),
        OutputFormat::Ndjson => match payload {
            Payload::List(items) => Some(Rendering::JsonLines(copy_items(items))),
            Payload::Single(v) | Payload::Bag(v) => Some(Rendering::JsonLines(one_line(v))),
            Payload::WithMeta { data, .. } => Some(Rendering::JsonLines(one_line(data))),
        },
        OutputFormat::Tsv => match payload {
            Payload::List(items) => {
                if items.len() == 0 {
                    Some(Rendering::JsonLines(Vec::new()))
                } else {
                    match grid(items, false) {
                        Some((header, rows)) => Some(Rendering::Tsv { header, rows }),
                        None => None,
                    }
                }
            },
            Payload::Single(v) | Payload::Bag(v) => Some(Rendering::JsonLines(one_line(v))),
            Payload::WithMeta { data, .. } => Some(Rendering::JsonLines(one_line(data))),
        },
        OutputFormat::Table => match payload {
            Payload::List(items) => {
                if items.len() == 0 {
                    Some(Rendering::NoRows)
                } else {
                    match grid(items, use_color) {
                        Some((header, rows)) => Some(Rendering::Table { header, rows }),
                        None => None,
                    }
                }
            },
            Payload::Single(v) | Payload::Bag(v) => match kv_rows(v, use_color) {
                Some(rows) => Some(Rendering::KvTable { rows, meta: None }),
                None => None,
            },
            Payload::WithMeta { data, meta } => match kv_rows(data, use_color) {
                Some(rows) => match meta {
                    Some(m) => match kv_rows(m, use_color) {
                        Some(mrows) => Some(Rendering::KvTable { rows, meta: Some(mrows) }),
                        None => None,
                    },
                    None => Some(Rendering::KvTable { rows, meta: None }),
                },
                None => None,
            },
        },
    }
}

/// Show a payload; see [`emit_ref`].
pub fn emit(format: OutputFormat, dry_run: bool, use_color: bool, payload: Payload) -> (r: Option<
    Rendering,
>)
    ensures
        match r {
            Some(x) => renders(format, dry_run, use_color, payload, x),
            None => uncuttable(format, dry_run, use_color, payload),
        },
{
    emit_ref(format, dry_run, use_color, &payload)
}

/// A single resource.
pub fn single(data: Json) -> (p: Payload)
    ensures
        p == Payload::Single(data),
{
    Payload::Single(data)
}

/// A single resource with the document's `meta`.
pub fn single_with_meta(data: Json, meta: Option<Json>) -> (p: Payload)
    ensures
        p == (Payload::WithMeta { data, meta }),
{
    Payload::WithMeta { data, meta }
}

/// A list of resources.
pub fn list(data: Vec<Json>) -> (p: Payload)
    ensures
        p == Payload::List(data),
{
    Payload::List(data)
}

/// A free-form value.
pub fn bag(value: Json) -> (p: Payload)
    ensures
        p == Payload::Bag(value),
{
    Payload::Bag(value)
}

/// Every success envelope carries `"ok": true` first and the payload's data
/// second; `meta` appears exactly when the payload has one.
pub proof fn envelope_is_stable(p: Payload)
    ensures
        envelope_spec(p) matches JsonV::Object(m) && m.len() >= 2 && m[0] == ("ok"@, JsonV::Bool(true))
            && m[1].0 == "data"@,
        envelope_spec(p) matches JsonV::Object(m) && (m.len() == 3 <==> p matches Payload::WithMeta { meta: Some(_), .. }),
{
}

proof fn lemma_row_color(item: JsonV, cols: Seq<ColumnV>)
    ensures
        row_spec(item, cols, true) is Some <==> row_spec(item, cols, false) is Some,
        row_spec(item, cols, true) matches Some(r) ==> r.len() == cols.len(),
        row_spec(item, cols, false) matches Some(r) ==> r.len() == cols.len(),
    decreases cols.len(),
{
    if cols.len() > 0 {
        lemma_row_color(item, cols.drop_last());
    }
}

proof fn lemma_rows_color(items: Seq<JsonV>, cols: Seq<ColumnV>)
    ensures
        rows_spec(items, cols, true) is Some <==> rows_spec(items, cols, false) is Some,
        rows_spec(items, cols, true) matches Some(r) ==> r.len() == items.len(),
        rows_spec(items, cols, false) matches Some(r) ==> r.len() == items.len(),
    decreases items.len(),
{
    if items.len() > 0 {
        lemma_rows_color(items.drop_last(), cols);
        lemma_row_color(items.last(), cols);
    }
}

/// Colors never change a table's layout: with or without them a non-empty
/// list is drawn with the same header and one row per item (only status
/// pills differ), and one can be drawn exactly when the other can.
pub proof fn colors_keep_table_layout(items: Seq<Json>)
    requires
        items.len() > 0,
    ensures
        rows_spec(items_view(items), columns_spec(items[0]@), true) is Some <==> rows_spec(
            items_view(items),
            columns_spec(items[0]@),
            false,
        ) is Some,
        forall|h1: Seq<String>, r1: Seq<Vec<Cell>>, h2: Seq<String>, r2: Seq<Vec<Cell>>|
            is_grid(items, h1, r1, true) && is_grid(items, h2, r2, false) ==> header_view(h1)
                == header_view(h2) && r1.len() == r2.len() && r1.len() == items.len(),
{
    lemma_rows_color(items_view(items), columns_spec(items[0]@));
    assert forall|h1: Seq<String>, r1: Seq<Vec<Cell>>, h2: Seq<String>, r2: Seq<Vec<Cell>>|
        is_grid(items, h1, r1, true) && is_grid(items, h2, r2, false) implies header_view(h1)
            == header_view(h2) && r1.len() == r2.len() && r1.len() == items.len() by {
        assert(grid_view(r1).len() == r1.len());
        assert(grid_view(r2).len() == r2.len());
    }
}

} // verus!
