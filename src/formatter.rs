//! The formatters: functions that render a record as one newline-terminated text.
//!
//! A handler holds any function of type `Fn(&ExtendedLogRecord) -> String` as its
//! formatter; `default`, `json` and `pretty_json` are the ones provided here.
use vstd::prelude::*;
use crate::record::ExtendedLogRecord;
use crate::text::{
    debug_quoted, debug_string, decimal, decimal_string, joined, json_quoted, json_string,
    members_text, members_view, render_members,
};

verus! {

/// The members of the debug dump, in the order the record declares its fields.
pub open spec fn debug_members(r: ExtendedLogRecord) -> Seq<(Seq<char>, Seq<char>)> {
    seq![
        ("level"@, debug_quoted(r.level@)),
        ("levelno"@, decimal(r.levelno as int)),
        ("msg"@, debug_quoted(r.msg@)),
        ("target"@, debug_quoted(r.target@)),
        ("timestamp"@, decimal(r.timestamp as int)),
        ("module"@, debug_quoted(r.module@)),
        ("file"@, debug_quoted(r.file@)),
        ("line"@, decimal(r.line as int)),
        ("date"@, debug_quoted(r.date@)),
    ]
}

/// The members of the compact JSON object, in the order the record declares its fields.
pub open spec fn json_members(r: ExtendedLogRecord) -> Seq<(Seq<char>, Seq<char>)> {
    seq![
        ("level"@, json_quoted(r.level@)),
        ("levelno"@, decimal(r.levelno as int)),
        ("msg"@, json_quoted(r.msg@)),
        ("target"@, json_quoted(r.target@)),
        ("timestamp"@, decimal(r.timestamp as int)),
        ("module"@, json_quoted(r.module@)),
        ("file"@, json_quoted(r.file@)),
        ("line"@, decimal(r.line as int)),
        ("date"@, json_quoted(r.date@)),
    ]
}

/// The members of the pretty JSON object, keys in lexicographic order.
pub open spec fn pretty_members(r: ExtendedLogRecord) -> Seq<(Seq<char>, Seq<char>)> {
    seq![
        ("date"@, json_quoted(r.date@)),
        ("file"@, json_quoted(r.file@)),
        ("level"@, json_quoted(r.level@)),
        ("levelno"@, decimal(r.levelno as int)),
        ("line"@, decimal(r.line as int)),
        ("module"@, json_quoted(r.module@)),
        ("msg"@, json_quoted(r.msg@)),
        ("target"@, json_quoted(r.target@)),
        ("timestamp"@, decimal(r.timestamp as int)),
    ]
}

/// `ExtendedLogRecord { level: "INFO", levelno: 3, ... }` and a newline, as `{:?}` writes
/// the record.
pub open spec fn debug_text(r: ExtendedLogRecord) -> Seq<char> {
    "ExtendedLogRecord { "@ + joined(members_text(debug_members(r), ""@, false, ": "@), ", "@)
        + " }\n"@
}

/// The record as a one-line JSON object, and a newline.
pub open spec fn json_text(r: ExtendedLogRecord) -> Seq<char> {
    "{"@ + joined(members_text(json_members(r), ""@, true, ":"@), ","@) + "}\n"@
}

/// The record as a JSON object with one member per line, indented by four spaces, and a
/// newline.
pub open spec fn pretty_json_text(r: ExtendedLogRecord) -> Seq<char> {
    "{\n"@ + joined(members_text(pretty_members(r), "    "@, true, ": "@), ",\n"@) + "\n}\n"@
}

/// The keys of a record's JSON object.
pub open spec fn record_keys() -> Seq<Seq<char>> {
    seq![
        "level"@,
        "levelno"@,
        "msg"@,
        "target"@,
        "timestamp"@,
        "module"@,
        "file"@,
        "line"@,
        "date"@,
    ]
}

/// The keys of a list of members, in order.
pub open spec fn keys_of(members: Seq<(Seq<char>, Seq<char>)>) -> Seq<Seq<char>> {
    members.map_values(|m: (Seq<char>, Seq<char>)| m.0)
}

fn debug_members_of(r: &ExtendedLogRecord) -> (v: Vec<(&'static str, String)>)
    ensures
        members_view(v@) == debug_members(*r),
{
    let mut v: Vec<(&'static str, String)> = Vec::new();
    v.push(("level", debug_string(r.level.as_str())));
    v.push(("levelno", decimal_string(r.levelno as i64)));
    v.push(("msg", debug_string(r.msg.as_str())));
    v.push(("target", debug_string(r.target.as_str())));
    v.push(("timestamp", decimal_string(r.timestamp)));
    v.push(("module", debug_string(r.module.as_str())));
    v.push(("file", debug_string(r.file.as_str())));
    v.push(("line", decimal_string(r.line as i64)));
    v.push(("date", debug_string(r.date.as_str())));
    assert(members_view(v@) =~= debug_members(*r));
    v
}

fn json_members_of(r: &ExtendedLogRecord) -> (v: Vec<(&'static str, String)>)
    ensures
        members_view(v@) == json_members(*r),
{
    let mut v: Vec<(&'static str, String)> = Vec::new();
    v.push(("level", json_string(r.level.as_str())));
    v.push(("levelno", decimal_string(r.levelno as i64)));
    v.push(("msg", json_string(r.msg.as_str())));
    v.push(("target", json_string(r.target.as_str())));
    v.push(("timestamp", decimal_string(r.timestamp)));
    v.push(("module", json_string(r.module.as_str())));
    v.push(("file", json_string(r.file.as_str())));
    v.push(("line", decimal_string(r.line as i64)));
    v.push(("date", json_string(r.date.as_str())));
    assert(members_view(v@) =~= json_members(*r));
    v
}

fn pretty_members_of(r: &ExtendedLogRecord) -> (v: Vec<(&'static str, String)>)
    ensures
        members_view(v@) == pretty_members(*r),
{
    let mut v: Vec<(&'static str, String)> = Vec::new();
    v.push(("date", json_string(r.date.as_str())));
    v.push(("file", json_string(r.file.as_str())));
    v.push(("level", json_string(r.level.as_str())));
    v.push(("levelno", decimal_string(r.levelno as i64)));
    v.push(("line", decimal_string(r.line as i64)));
    v.push(("module", json_string(r.module.as_str())));
    v.push(("msg", json_string(r.msg.as_str())));
    v.push(("target", json_string(r.target.as_str())));
    v.push(("timestamp", decimal_string(r.timestamp)));
    assert(members_view(v@) =~= pretty_members(*r));
    v
}

/// Renders the record as its debug dump, newline-terminated.
pub fn default(record: &ExtendedLogRecord) -> (r: String)
    ensures
        r@ == debug_text(*record),
{
    let members = debug_members_of(record);
    let body = render_members(&members, "", false, ": ", ", ");
    let mut out = String::from_str("ExtendedLogRecord { ");
    out.append(body.as_str());
    out.append(" }\n");
    out
}

/// Renders the record as a one-line JSON object, newline-terminated.
pub fn json(record: &ExtendedLogRecord) -> (r: String)
    ensures
        r@ == json_text(*record),
{
    let members = json_members_of(record);
    let body = render_members(&members, "", true, ":", ",");
    let mut out = String::from_str("{");
    out.append(body.as_str());
    out.append("}\n");
    out
}

/// Renders the record as a JSON object with one member per line, keys sorted, four-space
/// indentation, newline-terminated.
pub fn pretty_json(record: &ExtendedLogRecord) -> (r: String)
    ensures
        r@ == pretty_json_text(*record),
{
    let members = pretty_members_of(record);
    let body = render_members(&members, "    ", true, ": ", ",\n");
    let mut out = String::from_str("{\n");
    out.append(body.as_str());
    out.append("\n}\n");
    out
}

/// `a` comes strictly before `b` in lexicographic order of character codes.
pub open spec fn lex_less(a: Seq<char>, b: Seq<char>) -> bool
    decreases a.len(),
{
    if a.len() == 0 {
        b.len() > 0
    } else if b.len() == 0 {
        false
    } else if a[0] != b[0] {
        (a[0] as u32) < (b[0] as u32)
    } else {
        lex_less(a.drop_first(), b.drop_first())
    }
}

/// `t` ends with a newline that does not follow another newline.
pub open spec fn ends_with_one_newline(t: Seq<char>) -> bool {
    &&& t.len() >= 2
    &&& t.last() == '\n'
    &&& t[t.len() - 2] != '\n'
}

/// Each formatter's text is a function of the record's fields alone, so equal records,
/// in particular records with the same `date` and `timestamp`, render to equal texts; and
/// each text ends with exactly one newline.
pub proof fn lemma_formatted_texts(r1: ExtendedLogRecord, r2: ExtendedLogRecord)
    requires
        r1.level@ == r2.level@,
        r1.levelno == r2.levelno,
        r1.msg@ == r2.msg@,
        r1.target@ == r2.target@,
        r1.timestamp == r2.timestamp,
        r1.module@ == r2.module@,
        r1.file@ == r2.file@,
        r1.line == r2.line,
        r1.date@ == r2.date@,
    ensures
        debug_text(r1) == debug_text(r2),
        json_text(r1) == json_text(r2),
        pretty_json_text(r1) == pretty_json_text(r2),
        ends_with_one_newline(debug_text(r1)),
        ends_with_one_newline(json_text(r1)),
        ends_with_one_newline(pretty_json_text(r1)),
{
    reveal_strlit(" }\n");
    reveal_strlit("}\n");
    reveal_strlit("\n}\n");
    assert(debug_members(r1) =~= debug_members(r2));
    assert(json_members(r1) =~= json_members(r2));
    assert(pretty_members(r1) =~= pretty_members(r2));
}

/// A record's JSON objects, compact and pretty, have exactly the keys `level`, `levelno`,
/// `msg`, `target`, `timestamp`, `module`, `file`, `line` and `date`, each once; the
/// `level` member is the stored level name, and for a well-formed record the `levelno`
/// member is the rank of the level that this name spells. The pretty object lists its
/// keys in strictly increasing lexicographic order.
pub proof fn lemma_json_shape(r: ExtendedLogRecord)
    requires
        r.wf(),
    ensures
        keys_of(json_members(r)) == record_keys(),
        keys_of(pretty_members(r)).to_set() == record_keys().to_set(),
        keys_of(pretty_members(r)).len() == record_keys().len(),
        record_keys().no_duplicates(),
        json_members(r)[0].1 == json_quoted(r.level@),
        json_members(r)[1].1 == decimal(r.spec_level().ordinal() as int),
        pretty_members(r)[2].1 == json_quoted(r.level@),
        pretty_members(r)[3].1 == decimal(r.spec_level().ordinal() as int),
        forall|i: int|
            0 <= i < keys_of(pretty_members(r)).len() - 1 ==> lex_less(
                #[trigger] keys_of(pretty_members(r))[i],
                keys_of(pretty_members(r))[i + 1],
            ),
{
    reveal_strlit("level");
    reveal_strlit("levelno");
    reveal_strlit("msg");
    reveal_strlit("target");
    reveal_strlit("timestamp");
    reveal_strlit("module");
    reveal_strlit("file");
    reveal_strlit("line");
    reveal_strlit("date");
    assert(keys_of(json_members(r)) =~= record_keys());
    let p = keys_of(pretty_members(r));
    let k = record_keys();
    assert(p.to_set() =~= k.to_set()) by {
        assert forall|x: Seq<char>| p.contains(x) implies k.contains(x) by {
            let i = choose|i: int| 0 <= i < p.len() && p[i] == x;
            if i == 0 { assert(k[8] == x); }
            else if i == 1 { assert(k[6] == x); }
            else if i == 2 { assert(k[0] == x); }
            else if i == 3 { assert(k[1] == x); }
            else if i == 4 { assert(k[7] == x); }
            else if i == 5 { assert(k[5] == x); }
            else if i == 6 { assert(k[2] == x); }
            else if i == 7 { assert(k[3] == x); }
            else { assert(k[4] == x); }
        }
        assert forall|x: Seq<char>| k.contains(x) implies p.contains(x) by {
            let i = choose|i: int| 0 <= i < k.len() && k[i] == x;
            if i == 0 { assert(p[2] == x); }
            else if i == 1 { assert(p[3] == x); }
            else if i == 2 { assert(p[6] == x); }
            else if i == 3 { assert(p[7] == x); }
            else if i == 4 { assert(p[8] == x); }
            else if i == 5 { assert(p[5] == x); }
            else if i == 6 { assert(p[1] == x); }
            else if i == 7 { assert(p[4] == x); }
            else { assert(p[0] == x); }
        }
    }
    assert forall|i: int, j: int| 0 <= i < k.len() && 0 <= j < k.len() && i != j implies k[i]
        != k[j] by {
        assert(k[i][0] != k[j][0] || k[i].len() != k[j].len() || k[i][1] != k[j][1]
            || k[i][2] != k[j][2] || k[i][3] != k[j][3]);
    }
    reveal_with_fuel(lex_less, 7);
    assert(lex_less(p[0], p[1]));
    assert(lex_less(p[1], p[2]));
    assert(lex_less(p[2], p[3]));
    assert(lex_less(p[3], p[4]));
    assert(lex_less(p[4], p[5]));
    assert(lex_less(p[5], p[6]));
    assert(lex_less(p[6], p[7]));
    assert(lex_less(p[7], p[8]));
}

} // verus!
