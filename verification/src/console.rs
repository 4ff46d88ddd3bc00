//! How `console.log` prints JavaScript values.

use vstd::prelude::*;
use vstd::string::*;

use crate::text::{decimal, int_to_decimal, owned};

verus! {

/// A JavaScript value as `console.log` sees it.
#[derive(Debug)]
pub enum ConsoleValue {
    /// A string; `None` when its text could not be read.
    Text(Option<String>),
    /// An integer, or a number without fractional part, truncated to `i64`.
    Integer(i64),
    /// A number with a fractional part, in Rust's formatting of `f64`.
    Fraction(String),
    Bool(bool),
    Null,
    Undefined,
    /// An array: those of its elements that could be read, in order.
    Array(Vec<ConsoleValue>),
    /// Any other object.
    Object,
    /// Any other value, in its debug form.
    Other(String),
}

/// The parts joined by `sep`.
pub open spec fn join(parts: Seq<Seq<char>>, sep: Seq<char>) -> Seq<char>
    decreases parts.len(),
{
    if parts.len() == 0 {
        Seq::empty()
    } else if parts.len() == 1 {
        parts[0]
    } else {
        join(parts.drop_last(), sep) + sep + parts.last()
    }
}

/// How `console.log` prints a value.
pub open spec fn value_text(v: ConsoleValue) -> Seq<char>
    decreases v,
{
    match v {
        ConsoleValue::Text(Some(s)) => s@,
        ConsoleValue::Text(None) => "[string]"@,
        ConsoleValue::Integer(n) => decimal(n as int),
        ConsoleValue::Fraction(s) => s@,
        ConsoleValue::Bool(b) => if b {
            "true"@
        } else {
            "false"@
        },
        ConsoleValue::Null => "null"@,
        ConsoleValue::Undefined => "undefined"@,
        ConsoleValue::Array(items) => "[ "@ + join(texts(items@), ", "@) + " ]"@,
        ConsoleValue::Object => "[Object]"@,
        ConsoleValue::Other(s) => s@,
    }
}

/// How `console.log` prints each of the values.
pub open spec fn texts(items: Seq<ConsoleValue>) -> Seq<Seq<char>>
    decreases items,
{
    if items.len() == 0 {
        Seq::empty()
    } else {
        texts(items.subrange(0, items.len() - 1)).push(value_text(items[items.len() - 1]))
    }
}

/// The line `console.log` prints for its arguments: their texts separated
/// by single spaces.
pub open spec fn log_text(args: Seq<ConsoleValue>) -> Seq<char> {
    join(texts(args), " "@)
}

/// Appends the texts of `items`, separated by `sep`, to `out`.
fn append_joined(out: &mut String, items: &Vec<ConsoleValue>, sep: &str)
    ensures
        final(out)@ == old(out)@ + join(texts(items@), sep@),
    decreases items,
{
    let ghost start = out@;
    let mut i: usize = 0;
    assert(items@.subrange(0, 0) =~= Seq::<ConsoleValue>::empty());
    while i < items.len()
        invariant
            i <= items@.len(),
            out@ == start + join(texts(items@.subrange(0, i as int)), sep@),
            texts(items@.subrange(0, i as int)).len() == i,
        decreases items@.len() - i,
    {
        let ghost prefix = items@.subrange(0, i as int);
        let ghost longer = items@.subrange(0, i + 1);
        assert(longer.subrange(0, longer.len() - 1) =~= prefix);
        assert(longer[longer.len() - 1] == items@[i as int]);
        let ghost parts = texts(longer);
        assert(parts.drop_last() =~= texts(prefix));
        if i > 0 {
            out.append(sep);
        }
        assert(decreases_to!(items => items@[i as int]));
        let t = format_js_value(&items[i]);
        out.append(t.as_str());
        proof {
            if i == 0 {
                assert(parts.len() == 1);
                assert(join(texts(prefix), sep@) =~= Seq::<char>::empty());
            }
        }
        i += 1;
    }
    assert(items@.subrange(0, items@.len() as int) =~= items@);
}

/// Formats a value as `console.log` prints it: strings as they are, numbers
/// in decimal, arrays as `[ a, b ]`, other objects as `[Object]`.
pub fn format_js_value(value: &ConsoleValue) -> (res: String)
    ensures
        res@ == value_text(*value),
    decreases value,
{
    match value {
        ConsoleValue::Text(Some(s)) => s.clone(),
        ConsoleValue::Text(None) => owned("[string]"),
        ConsoleValue::Integer(n) => int_to_decimal(*n),
        ConsoleValue::Fraction(s) => s.clone(),
        ConsoleValue::Bool(b) => if *b {
            owned("true")
        } else {
            owned("false")
        },
        ConsoleValue::Null => owned("null"),
        ConsoleValue::Undefined => owned("undefined"),
        ConsoleValue::Array(items) => {
            let mut out = owned("[ ");
            append_joined(&mut out, items, ", ");
            out.append(" ]");
            out
        },
        ConsoleValue::Object => owned("[Object]"),
        ConsoleValue::Other(s) => s.clone(),
    }
}

/// The line `console.log` prints for its arguments.
pub fn log_line(args: &Vec<ConsoleValue>) -> (res: String)
    ensures
        res@ == log_text(args@),
{
    let mut out = String::new();
    append_joined(&mut out, args, " ");
    out
}

} // verus!

verus! {

/// `console.log` prints every value it is given, each by its own text.
///
/// The list of texts has one entry per value, in order, and the entry at
/// position `i` is the text of the value at position `i`: no value is
/// dropped, repeated or moved, whatever its kind.
pub proof fn lemma_texts_one_per_item(items: Seq<ConsoleValue>)
    ensures
        texts(items).len() == items.len(),
        forall|i: int| 0 <= i < items.len() ==> #[trigger] texts(items)[i] == value_text(items[i]),
    decreases items.len(),
{
    if items.len() > 0 {
        let prefix = items.subrange(0, items.len() - 1);
        lemma_texts_one_per_item(prefix);
        assert forall|i: int| 0 <= i < items.len() implies #[trigger] texts(items)[i] == value_text(
            items[i],
        ) by {
            if i < items.len() - 1 {
                assert(prefix[i] == items[i]);
            }
        }
    }
}

/// Joining puts the separator between consecutive parts and nowhere else:
/// joining one more part appends the separator and that part.
pub proof fn lemma_join_push(parts: Seq<Seq<char>>, sep: Seq<char>, last: Seq<char>)
    ensures
        parts.len() == 0 ==> join(parts.push(last), sep) == last,
        parts.len() > 0 ==> join(parts.push(last), sep) == join(parts, sep) + sep + last,
{
    assert(parts.push(last).drop_last() =~= parts);
}

/// How each kind of value prints: strings as their text (an unreadable one
/// as `[string]`), integers in decimal, booleans as `true`/`false`, `null`,
/// `undefined`, other objects as `[Object]`, and arrays as their elements'
/// texts, separated by `", "`, between `"[ "` and `" ]"`.
pub proof fn lemma_value_texts(s: String, n: i64, f: String, items: Vec<ConsoleValue>, other: String)
    ensures
        value_text(ConsoleValue::Text(Some(s))) == s@,
        value_text(ConsoleValue::Text(None)) == "[string]"@,
        value_text(ConsoleValue::Integer(n)) == decimal(n as int),
        value_text(ConsoleValue::Fraction(f)) == f@,
        value_text(ConsoleValue::Bool(true)) == "true"@,
        value_text(ConsoleValue::Bool(false)) == "false"@,
        value_text(ConsoleValue::Null) == "null"@,
        value_text(ConsoleValue::Undefined) == "undefined"@,
        value_text(ConsoleValue::Object) == "[Object]"@,
        value_text(ConsoleValue::Other(other)) == other@,
        value_text(ConsoleValue::Array(items)) == "[ "@ + join(texts(items@), ", "@) + " ]"@,
{
}

/// The line for two arguments is the first one's text, a space, and the
/// second one's text; with one argument more, the line grows by a space and
/// that argument's text.
pub proof fn lemma_log_line_appends(args: Seq<ConsoleValue>, last: ConsoleValue)
    ensures
        args.len() == 0 ==> log_text(args.push(last)) == value_text(last),
        args.len() > 0 ==> log_text(args.push(last)) == log_text(args) + " "@ + value_text(last),
{
    let longer = args.push(last);
    assert(longer.subrange(0, longer.len() - 1) =~= args);
    lemma_join_push(texts(args), " "@, value_text(last));
}

/// The line for two arguments: the first's text, a space, the second's text;
/// an `undefined` argument is printed as `undefined`, not left out.
pub proof fn lemma_log_two(a: ConsoleValue, b: ConsoleValue)
    ensures
        log_text(seq![a, b]) == value_text(a) + " "@ + value_text(b),
        log_text(seq![a, ConsoleValue::Undefined]) == value_text(a) + " undefined"@,
{
    assert(seq![a, b] =~= seq![a].push(b));
    assert(seq![a] =~= Seq::<ConsoleValue>::empty().push(a));
    lemma_log_line_appends(Seq::empty(), a);
    lemma_log_line_appends(seq![a], b);
    assert(seq![a, ConsoleValue::Undefined] =~= seq![a].push(ConsoleValue::Undefined));
    lemma_log_line_appends(seq![a], ConsoleValue::Undefined);
    reveal_strlit("undefined");
    reveal_strlit(" ");
    reveal_strlit(" undefined");
    assert(" "@ + "undefined"@ =~= " undefined"@);
    assert(value_text(a) + " "@ + "undefined"@ =~= value_text(a) + " undefined"@);
}

} // verus!
