//! Command arguments: what a value contributes to a command, as a list of
//! texts.

use crate::text::decimal;
use crate::text::decimal_string;
use crate::text::lemma_texts_push;
use crate::text::texts;
use vstd::prelude::*;
use vstd::string::StringExecFns;

verus! {

/// A value that can be written as arguments of a command.
pub trait ToRedisArgs {
    /// The arguments the value is written as.
    spec fn args(&self) -> Seq<Seq<char>>;

    /// Appends the arguments of the value to `out`.
    fn write_redis_args(&self, out: &mut Vec<String>)
        ensures
            texts(final(out)@) == texts(old(out)@) + self.args(),
    ;
}

/// Appends one argument to `out`.
pub fn write_arg(out: &mut Vec<String>, arg: &str)
    ensures
        texts(final(out)@) == texts(old(out)@).push(arg@),
        texts(final(out)@) == texts(old(out)@) + seq![arg@],
{
    let owned = String::from_str(arg);
    proof {
        lemma_texts_push(out@, owned);
    }
    out.push(owned);
}

/// Appends the decimal numeral of `n` to `out` as one argument.
pub fn write_number(out: &mut Vec<String>, n: u64)
    ensures
        texts(final(out)@) == texts(old(out)@).push(decimal(n as nat)),
        texts(final(out)@) == texts(old(out)@) + seq![decimal(n as nat)],
{
    let numeral = decimal_string(n);
    proof {
        lemma_texts_push(out@, numeral);
    }
    out.push(numeral);
    assert(texts(old(out)@).push(decimal(n as nat)) =~= texts(old(out)@) + seq![
        decimal(n as nat),
    ]);
}

/// Appends each of `items` to `out` as one argument, in order.
pub fn write_all(out: &mut Vec<String>, items: &Vec<String>)
    ensures
        texts(final(out)@) == texts(old(out)@) + texts(items@),
{
    let mut i: usize = 0;
    while i < items.len()
        invariant
            i <= items.len(),
            texts(out@) == texts(old(out)@) + texts(items@).take(i as int),
        decreases items.len() - i,
    {
        write_arg(out, items[i].as_str());
        assert(texts(out@) =~= texts(old(out)@) + texts(items@).take(i + 1)) by {
            assert(texts(items@).take(i + 1) =~= texts(items@).take(i as int).push(
                items@[i as int]@,
            ));
        }
        i = i + 1;
    }
}

/// What was written after a start, and one more piece after that, is the
/// two pieces together after the start.
pub proof fn lemma_written_then(
    start: Seq<Seq<char>>,
    written: Seq<Seq<char>>,
    piece: Seq<Seq<char>>,
)
    ensures
        (start + written) + piece == start + (written + piece),
        start + Seq::<Seq<char>>::empty() == start,
        Seq::<Seq<char>>::empty() + piece == piece,
{
}

/// The arguments of a flag: its keyword if it is set, nothing otherwise.
pub open spec fn flag_args(set: bool, keyword: Seq<char>) -> Seq<Seq<char>> {
    if set {
        seq![keyword]
    } else {
        Seq::empty()
    }
}

/// The arguments of an optional value: its keyword and the value if there is
/// one, nothing otherwise.
pub open spec fn optional_args(keyword: Seq<char>, value: Option<Seq<char>>) -> Seq<Seq<char>> {
    match value {
        Some(text) => seq![keyword, text],
        None => Seq::empty(),
    }
}

/// The arguments of an optional number: its keyword and the decimal numeral
/// if there is one, nothing otherwise.
pub open spec fn optional_number_args(keyword: Seq<char>, value: Option<u64>) -> Seq<Seq<char>> {
    match value {
        Some(n) => seq![keyword, decimal(n as nat)],
        None => Seq::empty(),
    }
}

/// The arguments of a list: its keyword, the number of items and the items
/// if there are any, nothing otherwise.
pub open spec fn counted_args(keyword: Seq<char>, items: Seq<Seq<char>>) -> Seq<Seq<char>> {
    if items.len() == 0 {
        Seq::empty()
    } else {
        seq![keyword, decimal(items.len())] + items
    }
}

/// The text of an optional string.
pub open spec fn optional_text(value: Option<String>) -> Option<Seq<char>> {
    match value {
        Some(text) => Some(text@),
        None => None,
    }
}

/// A copy of an optional string.
pub fn clone_optional(value: &Option<String>) -> (copy: Option<String>)
    ensures
        copy == *value,
{
    match value {
        Some(text) => Some(text.clone()),
        None => None,
    }
}

/// Appends the keyword of a flag to `out` if the flag is set.
pub fn write_flag(out: &mut Vec<String>, set: bool, keyword: &str)
    ensures
        texts(final(out)@) == texts(old(out)@) + flag_args(set, keyword@),
{
    if set {
        write_arg(out, keyword);
    }
}

/// Appends a keyword and a value to `out` if there is a value.
pub fn write_optional(out: &mut Vec<String>, keyword: &str, value: &Option<String>)
    ensures
        texts(final(out)@) == texts(old(out)@) + optional_args(keyword@, optional_text(*value)),
{
    match value {
        Some(text) => {
            write_arg(out, keyword);
            write_arg(out, text.as_str());
        },
        None => {},
    }
}

/// Appends a keyword and the decimal numeral of a number to `out` if there
/// is a number.
pub fn write_optional_number(out: &mut Vec<String>, keyword: &str, value: Option<u64>)
    ensures
        texts(final(out)@) == texts(old(out)@) + optional_number_args(keyword@, value),
{
    match value {
        Some(n) => {
            write_arg(out, keyword);
            write_number(out, n);
        },
        None => {},
    }
}

/// Appends a keyword, the number of `items` and the items to `out` if there
/// are any.
pub fn write_counted(out: &mut Vec<String>, keyword: &str, items: &Vec<String>)
    ensures
        texts(final(out)@) == texts(old(out)@) + counted_args(keyword@, texts(items@)),
{
    if items.len() > 0 {
        write_arg(out, keyword);
        write_number(out, items.len() as u64);
        write_all(out, items);
        assert(texts(out@) =~= texts(old(out)@) + (seq![keyword@, decimal(items@.len())] + texts(
            items@,
        )));
    }
}

} // verus!
