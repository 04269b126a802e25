//! Text building blocks of the formatters: decimal numbers, quoted strings, and lists of
//! `key: value` members.
use vstd::prelude::*;

verus! {

/// The decimal digit for `d`.
pub open spec fn digit_char(d: nat) -> char {
    seq!['0', '1', '2', '3', '4', '5', '6', '7', '8', '9'][d as int]
}

/// The decimal digits of `n`, most significant first, without leading zeros.
pub open spec fn decimal_digits(n: nat) -> Seq<char>
    decreases n,
{
    if n < 10 {
        seq![digit_char(n)]
    } else {
        decimal_digits(n / 10).push(digit_char(n % 10))
    }
}

/// The decimal text of `n`, with a leading `-` when it is negative.
pub open spec fn decimal(n: int) -> Seq<char> {
    if n < 0 {
        seq!['-'] + decimal_digits((-n) as nat)
    } else {
        decimal_digits(n as nat)
    }
}

/// What `{:?}` writes for a string: the string in double quotes, with escapes.
pub uninterp spec fn debug_quoted(s: Seq<char>) -> Seq<char>;

/// What rustc_serialize writes for a string: a JSON string literal.
pub uninterp spec fn json_quoted(s: Seq<char>) -> Seq<char>;

/// Relies on std's `Debug` for `str`, which writes the string in double quotes with its
/// special characters escaped.
#[verifier::external_body]
fn debug_str(s: &str) -> (r: String)
    ensures
        r@ == debug_quoted(s@),
{
    format!("{:?}", s)
}

/// Relies on `rustc_serialize::json::as_json` for a `&str`, which writes the string as a
/// JSON string literal; writing into a `String` cannot fail.
#[verifier::external_body]
fn json_str(s: &str) -> (r: String)
    ensures
        r@ == json_quoted(s@),
{
    rustc_serialize::json::as_json(&s).to_string()
}

/// The string in double quotes, as `{:?}` writes it.
pub fn debug_string(s: &str) -> (r: String)
    ensures
        r@ == debug_quoted(s@),
{
    debug_str(s)
}

/// The string as a JSON string literal.
pub fn json_string(s: &str) -> (r: String)
    ensures
        r@ == json_quoted(s@),
{
    json_str(s)
}

fn digit_str(d: u64) -> (r: &'static str)
    requires
        d < 10,
    ensures
        r@ == seq![digit_char(d as nat)],
{
    proof {
        reveal_strlit("0");
        reveal_strlit("1");
        reveal_strlit("2");
        reveal_strlit("3");
        reveal_strlit("4");
        reveal_strlit("5");
        reveal_strlit("6");
        reveal_strlit("7");
        reveal_strlit("8");
        reveal_strlit("9");
    }
    let r = if d == 0 {
        "0"
    } else if d == 1 {
        "1"
    } else if d == 2 {
        "2"
    } else if d == 3 {
        "3"
    } else if d == 4 {
        "4"
    } else if d == 5 {
        "5"
    } else if d == 6 {
        "6"
    } else if d == 7 {
        "7"
    } else if d == 8 {
        "8"
    } else {
        "9"
    };
    assert(r@ =~= seq![digit_char(d as nat)]);
    r
}

fn push_digits(out: &mut String, n: u64)
    ensures
        final(out)@ == old(out)@ + decimal_digits(n as nat),
    decreases n,
{
    if n >= 10 {
        push_digits(out, n / 10);
    }
    out.append(digit_str(n % 10));
    proof {
        if n >= 10 {
            assert(decimal_digits(n as nat) == decimal_digits((n / 10) as nat).push(
                digit_char((n % 10) as nat),
            ));
        }
    }
    assert(out@ =~= old(out)@ + decimal_digits(n as nat));
}

/// Appends the decimal text of `n` to `out`.
pub fn push_decimal(out: &mut String, n: i64)
    ensures
        final(out)@ == old(out)@ + decimal(n as int),
{
    if n < 0 {
        proof {
            reveal_strlit("-");
        }
        out.append("-");
        let magnitude: u64 = (0i128 - n as i128) as u64;
        push_digits(out, magnitude);
        assert(out@ =~= old(out)@ + decimal(n as int));
    } else {
        push_digits(out, n as u64);
    }
}

/// The decimal text of `n`.
pub fn decimal_string(n: i64) -> (r: String)
    ensures
        r@ == decimal(n as int),
{
    let mut out = String::new();
    push_decimal(&mut out, n);
    assert(out@ =~= decimal(n as int));
    out
}

/// One member of a rendered object: `indent`, the key (in double quotes when `quote_key`),
/// `colon`, then the value.
pub open spec fn member_text(
    indent: Seq<char>,
    quote_key: bool,
    colon: Seq<char>,
    key: Seq<char>,
    value: Seq<char>,
) -> Seq<char> {
    let k = if quote_key {
        seq!['"'] + key + seq!['"']
    } else {
        key
    };
    indent + k + colon + value
}

/// The items, in order, with `sep` between each two neighbours.
pub open spec fn joined(items: Seq<Seq<char>>, sep: Seq<char>) -> Seq<char>
    decreases items.len(),
{
    if items.len() == 0 {
        Seq::empty()
    } else if items.len() == 1 {
        items[0]
    } else {
        joined(items.drop_last(), sep) + sep + items.last()
    }
}

/// The text of each member, rendered as `member_text` says.
pub open spec fn members_text(
    members: Seq<(Seq<char>, Seq<char>)>,
    indent: Seq<char>,
    quote_key: bool,
    colon: Seq<char>,
) -> Seq<Seq<char>> {
    members.map_values(
        |m: (Seq<char>, Seq<char>)| member_text(indent, quote_key, colon, m.0, m.1),
    )
}

/// The view of a list of members: each key and value as characters.
pub open spec fn members_view(members: Seq<(&str, String)>) -> Seq<(Seq<char>, Seq<char>)> {
    members.map_values(|m: (&str, String)| (m.0@, m.1@))
}

/// Renders the members, in order, each as `member_text` says, with `sep` between them.
pub fn render_members(
    members: &Vec<(&str, String)>,
    indent: &str,
    quote_key: bool,
    colon: &str,
    sep: &str,
) -> (r: String)
    ensures
        r@ == joined(members_text(members_view(members@), indent@, quote_key, colon@), sep@),
{
    let ghost items = members_text(members_view(members@), indent@, quote_key, colon@);
    let mut out = String::new();
    let mut i: usize = 0;
    while i < members.len()
        invariant
            i <= members@.len(),
            items == members_text(members_view(members@), indent@, quote_key, colon@),
            out@ == joined(items.subrange(0, i as int), sep@),
        decreases members@.len() - i,
    {
        if i > 0 {
            out.append(sep);
        }
        out.append(indent);
        if quote_key {
            proof {
                reveal_strlit("\"");
            }
            out.append("\"");
            out.append(members[i].0);
            out.append("\"");
        } else {
            out.append(members[i].0);
        }
        out.append(colon);
        out.append(members[i].1.as_str());
        proof {
            let prefix = items.subrange(0, i + 1);
            assert(prefix.drop_last() =~= items.subrange(0, i as int));
            assert(prefix.last() == items[i as int]);
        }
        assert(out@ =~= joined(items.subrange(0, i + 1), sep@));
        i = i + 1;
    }
    assert(items.subrange(0, members@.len() as int) =~= items);
    out
}

} // verus!
