//! Properties that relate the library's readings of a document to each other.
use vstd::prelude::*;
use crate::json::{
    bool_of, decimal, entries_well_formed, entry_well_formed, escape, i64_of, items_well_formed, key_less,
    key_less_from, lookup, lookup_from, quoted, render, select, signed_decimal, text, well_formed,
    Json, NumberModel, Selector,
};
use crate::long_polling::field_text;
use crate::response::present;
use crate::{call_gi_query, call_query, reply_outcome, VK};

verus! {

/// Reading an integer and printing it agree: when a document reads as the
/// `i64` `n`, its text is the decimal text of `n`.
pub proof fn law_integer_text(v: Json, n: i64)
    requires
        i64_of(v) == Ok::<i64, crate::json::JsonErrorModel>(n),
    ensures
        text(v) == signed_decimal(n as int),
{
}

/// Looking into an array by position gives the same item as listing the
/// array: the item at `i` when it is not `null`, nothing when it is.
pub proof fn law_position_is_item(items: Seq<Json>, i: int)
    requires
        0 <= i < items.len(),
    ensures
        select(Json::Array(items), Selector::Position(i)) == Some(items[i]),
        present(select(Json::Array(items), Selector::Position(i))) == if items[i] == Json::Null {
            None::<Json>
        } else {
            Some(items[i])
        },
{
}

/// A picked part is never `null`.
pub proof fn law_present_is_not_null(r: Option<Json>)
    ensures
        present(r) != Some(Json::Null),
{
}

/// Looking up a key finds the first entry with that key, and finds nothing
/// exactly when no entry has it.
pub proof fn law_lookup_first_entry(entries: Seq<(Seq<char>, Json)>, key: Seq<char>)
    ensures
        lookup(entries, key) is None <==> (forall|j: int| 0 <= j < entries.len() ==> #[trigger] entries[j].0 != key),
        lookup(entries, key) matches Some(v) ==> exists|i: int|
            0 <= i < entries.len() && #[trigger] entries[i].0 == key && entries[i].1 == v && (forall|j: int|
                0 <= j < i ==> #[trigger] entries[j].0 != key),
{
    lemma_lookup_from(entries, key, 0);
}

proof fn lemma_lookup_from(entries: Seq<(Seq<char>, Json)>, key: Seq<char>, from: int)
    requires
        0 <= from <= entries.len(),
    ensures
        lookup_from(entries, key, from) is None <==> (forall|j: int|
            from <= j < entries.len() ==> #[trigger] entries[j].0 != key),
        lookup_from(entries, key, from) matches Some(v) ==> exists|i: int|
            from <= i < entries.len() && #[trigger] entries[i].0 == key && entries[i].1 == v && (forall|j: int|
                from <= j < i ==> #[trigger] entries[j].0 != key),
    decreases entries.len() - from,
{
    if from < entries.len() {
        lemma_lookup_from(entries, key, from + 1);
        if entries[from].0 == key {
            assert(entries[from].0 == key);
        }
    }
}

/// A character that stands for itself inside a JSON string literal.
pub open spec fn plain_char(c: char) -> bool {
    c != '"' && c != '\\' && (c as int) >= 0x20
}

/// A string without quotes, backslashes or control characters is printed as
/// itself between quotes.
pub proof fn law_plain_string_is_quoted_as_is(s: Seq<char>)
    requires
        forall|i: int| 0 <= i < s.len() ==> plain_char(#[trigger] s[i]),
    ensures
        quoted(s) == seq!['"'] + s + seq!['"'],
{
    lemma_plain_escape(s);
}

proof fn lemma_plain_escape(s: Seq<char>)
    requires
        forall|i: int| 0 <= i < s.len() ==> plain_char(#[trigger] s[i]),
    ensures
        escape(s) == s,
    decreases s.len(),
{
    if s.len() > 0 {
        assert(plain_char(s[s.len() - 1]));
        assert forall|i: int| 0 <= i < s.drop_last().len() implies plain_char(#[trigger] s.drop_last()[i]) by {
            assert(s.drop_last()[i] == s[i]);
        }
        lemma_plain_escape(s.drop_last());
        assert(escape(s) =~= s);
    }
}

proof fn lemma_key_less_irreflexive(a: Seq<char>, i: int)
    requires
        0 <= i,
    ensures
        !key_less_from(a, a, i),
    decreases a.len() - i,
{
    if i < a.len() {
        lemma_key_less_irreflexive(a, i + 1);
    }
}

proof fn lemma_key_less_transitive(a: Seq<char>, b: Seq<char>, c: Seq<char>, i: int)
    requires
        0 <= i,
        key_less_from(a, b, i),
        key_less_from(b, c, i),
    ensures
        key_less_from(a, c, i),
    decreases a.len() - i,
{
    if i < a.len() && i < b.len() && i < c.len() && a[i] == b[i] && b[i] == c[i] {
        lemma_key_less_transitive(a, b, c, i + 1);
    }
}

/// In well-formed entries every key comes before every later key.
proof fn lemma_keys_increase(entries: Seq<(Seq<char>, Json)>)
    requires
        entries_well_formed(entries),
    ensures
        forall|j: int, k: int|
            0 <= j < k < entries.len() ==> key_less(#[trigger] entries[j].0, #[trigger] entries[k].0),
    decreases entries.len(),
{
    if entries.len() > 0 {
        let rest = entries.drop_last();
        lemma_keys_increase(rest);
        let n = entries.len() - 1;
        assert forall|j: int, k: int|
            0 <= j < k < entries.len() implies key_less(#[trigger] entries[j].0, #[trigger] entries[k].0) by {
            if k < n {
                assert(rest[j] == entries[j] && rest[k] == entries[k]);
            } else if j < n - 1 {
                assert(rest[j] == entries[j] && rest[n - 1] == entries[n - 1]);
                assert(key_less(entries[j].0, entries[n - 1].0));
                lemma_key_less_transitive(entries[j].0, entries[n - 1].0, entries[n].0, 0);
            }
        }
    }
}

proof fn lemma_lookup_at(entries: Seq<(Seq<char>, Json)>, key: Seq<char>, from: int, i: int)
    requires
        0 <= from <= i < entries.len(),
        entries[i].0 == key,
        forall|j: int| from <= j < i ==> #[trigger] entries[j].0 != key,
    ensures
        lookup_from(entries, key, from) == Some(entries[i].1),
    decreases i - from,
{
    if from < i {
        lemma_lookup_at(entries, key, from + 1, i);
    }
}

/// In a well-formed object a key occurs at most once, so looking it up finds
/// the value of the entry that has it.
pub proof fn law_lookup_unique(entries: Seq<(Seq<char>, Json)>, i: int)
    requires
        entries_well_formed(entries),
        0 <= i < entries.len(),
    ensures
        lookup(entries, entries[i].0) == Some(entries[i].1),
        forall|j: int| 0 <= j < entries.len() && j != i ==> #[trigger] entries[j].0 != entries[i].0,
{
    lemma_keys_increase(entries);
    assert forall|j: int| 0 <= j < entries.len() && j != i implies #[trigger] entries[j].0 != entries[i].0 by {
        if entries[j].0 == entries[i].0 {
            lemma_key_less_irreflexive(entries[i].0, 0);
            if j < i {
                assert(key_less(entries[j].0, entries[i].0));
            } else {
                assert(key_less(entries[i].0, entries[j].0));
            }
        }
    }
    lemma_lookup_at(entries, entries[i].0, 0, i);
}

proof fn lemma_items_each(items: Seq<Json>)
    requires
        items_well_formed(items),
    ensures
        forall|i: int| 0 <= i < items.len() ==> well_formed(#[trigger] items[i]),
    decreases items.len(),
{
    if items.len() > 0 {
        lemma_items_each(items.drop_last());
        assert forall|i: int| 0 <= i < items.len() implies well_formed(#[trigger] items[i]) by {
            if i < items.len() - 1 {
                assert(items.drop_last()[i] == items[i]);
            }
        }
    }
}

proof fn lemma_entries_each(entries: Seq<(Seq<char>, Json)>)
    requires
        entries_well_formed(entries),
    ensures
        forall|i: int| 0 <= i < entries.len() ==> well_formed(#[trigger] entries[i].1),
    decreases entries.len(),
{
    if entries.len() > 0 {
        lemma_entries_each(entries.drop_last());
        assert(entry_well_formed(entries.last()));
        assert forall|i: int| 0 <= i < entries.len() implies well_formed(#[trigger] entries[i].1) by {
            if i < entries.len() - 1 {
                assert(entries.drop_last()[i] == entries[i]);
            }
        }
    }
}

/// Every part of a well-formed document is well formed.
pub proof fn law_parts_well_formed(v: Json, s: Selector)
    requires
        well_formed(v),
        select(v, s) is Some,
    ensures
        well_formed(select(v, s)->0),
{
    match v {
        Json::Array(items) => {
            lemma_items_each(items);
        },
        Json::Object(entries) => {
            lemma_entries_each(entries);
            match s {
                Selector::Key(k) => {
                    law_lookup_first_entry(entries, k);
                },
                _ => {},
            }
        },
        _ => {},
    }
}

/// A call for a group is a call whose parameters end with the group.
pub proof fn law_call_gi_is_call_with_group(vk: VK, parameters: Seq<(Seq<char>, Seq<char>)>)
    ensures
        call_gi_query(vk, parameters) == call_query(
            vk,
            parameters.push(("group_id"@, signed_decimal(vk.group_id as int))),
        ),
{
    assert(call_gi_query(vk, parameters) =~= call_query(
        vk,
        parameters.push(("group_id"@, signed_decimal(vk.group_id as int))),
    ));
}

// ----------------------------------------------------------------------------
// Reading the server's reply.
// ----------------------------------------------------------------------------

/// A reply whose `response` entry (the first entry with that key) is present
/// and not `null` is read as exactly that entry, whatever kind of document it
/// is.
pub proof fn law_reply_is_its_response(entries: Seq<(Seq<char>, Json)>, i: int)
    requires
        0 <= i < entries.len(),
        entries[i].0 == "response"@,
        forall|j: int| 0 <= j < i ==> #[trigger] entries[j].0 != "response"@,
        entries[i].1 != Json::Null,
    ensures
        reply_outcome(Json::Object(entries)) == Ok::<Json, Seq<char>>(entries[i].1),
{
    lemma_lookup_at(entries, "response"@, 0, i);
}

/// A reply is refused only when it has no `response` entry, or that entry is
/// `null`.
pub proof fn law_reply_refused_only_without_response(data: Json)
    requires
        reply_outcome(data) is Err,
    ensures
        forall|r: Json|
            select(data, Selector::Key("response"@)) == Some(r) ==> r == Json::Null,
{
}

// ----------------------------------------------------------------------------
// Text of documents.
// ----------------------------------------------------------------------------

/// The text of a JSON string is its own characters, not their escaped form.
pub proof fn law_string_text_is_its_characters(s: Seq<char>)
    ensures
        text(Json::Str(s)) == s,
{
}

/// The text of any other document is its compact JSON text.
pub proof fn law_other_text_is_compact_json(v: Json)
    requires
        !(v is Str),
    ensures
        text(v) == render(v),
{
}

/// An empty array prints as `[]`.
pub proof fn law_empty_array_text()
    ensures
        render(Json::Array(Seq::empty())) == seq!['[', ']'],
{
}

/// An array of one item prints as that item between brackets.
pub proof fn law_single_item_array_text(x: Json)
    ensures
        render(Json::Array(seq![x])) == seq!['['] + render(x) + seq![']'],
{
    assert(seq![x].len() == 1 && seq![x][0] == x);
}

/// Adding an item at the end of a non-empty array adds `,` and the item's text
/// before the closing bracket; every item, `null` included, keeps its place.
pub proof fn law_array_text_push(items: Seq<Json>, x: Json)
    requires
        items.len() > 0,
    ensures
        render(Json::Array(items.push(x))) == render(Json::Array(items)).drop_last() + seq![',']
            + render(x) + seq![']'],
{
    let longer = items.push(x);
    assert(longer.drop_last() =~= items);
    assert(longer.last() == x);
    let inner = crate::json::render_items(items);
    assert((seq!['['] + inner + seq![']']).drop_last() =~= seq!['['] + inner);
    assert(render(Json::Array(longer)) =~= seq!['['] + inner + seq![','] + render(x) + seq![']']);
}

/// An empty object prints as `{}`.
pub proof fn law_empty_object_text()
    ensures
        render(Json::Object(Seq::empty())) == seq!['{', '}'],
{
}

/// Adding an entry at the end of a non-empty object adds `,`, the quoted key,
/// `:` and the value's text before the closing brace.
pub proof fn law_object_text_push(entries: Seq<(Seq<char>, Json)>, key: Seq<char>, value: Json)
    requires
        entries.len() > 0,
    ensures
        render(Json::Object(entries.push((key, value)))) == render(Json::Object(entries)).drop_last()
            + seq![','] + quoted(key) + seq![':'] + render(value) + seq!['}'],
{
    let longer = entries.push((key, value));
    assert(longer.drop_last() =~= entries);
    assert(longer.last() == (key, value));
    let inner = crate::json::render_entries(entries);
    assert((seq!['{'] + inner + seq!['}']).drop_last() =~= seq!['{'] + inner);
    assert(crate::json::render_entry((key, value)) == quoted(key) + seq![':'] + render(value));
    assert(crate::json::render_entries(longer) == inner + seq![','] + crate::json::render_entry(
        (key, value),
    ));
    assert(render(Json::Object(longer)) =~= seq!['{'] + inner + seq![','] + quoted(key) + seq![':']
        + render(value) + seq!['}']);
}

/// An object of one entry prints as the quoted key, `:` and the value between
/// braces.
pub proof fn law_single_entry_object_text(key: Seq<char>, value: Json)
    ensures
        render(Json::Object(seq![(key, value)])) == seq!['{'] + quoted(key) + seq![':'] + render(
            value,
        ) + seq!['}'],
{
    assert(seq![(key, value)].len() == 1 && seq![(key, value)][0] == (key, value));
    assert(crate::json::render_entry((key, value)) == quoted(key) + seq![':'] + render(value));
    assert(crate::json::render_entries(seq![(key, value)]) == crate::json::render_entry((key, value)));
}

// ----------------------------------------------------------------------------
// Decimal text.
// ----------------------------------------------------------------------------

/// Whether a character is a decimal digit.
pub open spec fn is_digit(c: char) -> bool {
    '0' <= c && c <= '9'
}

/// The number that a string of decimal digits stands for.
pub open spec fn digits_value(s: Seq<char>) -> int
    decreases s.len(),
{
    if s.len() == 0 {
        0
    } else {
        digits_value(s.drop_last()) * 10 + ((s.last() as int) - ('0' as int))
    }
}

proof fn lemma_digit(d: int)
    requires
        0 <= d < 10,
    ensures
        is_digit(crate::json::digit_char(d)),
        (crate::json::digit_char(d) as int) - ('0' as int) == d,
{
}

/// The decimal text of `n` is a non-empty string of digits that stands for
/// `n`, with no leading zero unless `n` is zero.
pub proof fn law_decimal_reads_back(n: nat)
    ensures
        decimal(n).len() >= 1,
        forall|i: int| 0 <= i < decimal(n).len() ==> is_digit(#[trigger] decimal(n)[i]),
        digits_value(decimal(n)) == n,
        decimal(n)[0] == '0' ==> n == 0,
    decreases n,
{
    if n < 10 {
        lemma_digit(n as int);
        assert(decimal(n).drop_last() =~= Seq::<char>::empty());
        assert(digits_value(Seq::<char>::empty()) == 0);
        assert(decimal(n).last() == crate::json::digit_char(n as int));
        assert(digits_value(decimal(n)) == digits_value(decimal(n).drop_last()) * 10 + ((decimal(
            n,
        ).last() as int) - ('0' as int)));
    } else {
        lemma_digit((n % 10) as int);
        law_decimal_reads_back(n / 10);
        let d = decimal(n);
        assert(d.drop_last() =~= decimal(n / 10));
        assert(d[0] == decimal(n / 10)[0]);
        assert(d.last() == crate::json::digit_char((n % 10) as int));
        assert(digits_value(d) == digits_value(d.drop_last()) * 10 + ((d.last() as int) - ('0' as int)));
        assert(digits_value(d) == (n / 10) * 10 + (n % 10));
        assert forall|i: int| 0 <= i < d.len() implies is_digit(#[trigger] d[i]) by {
            if i < d.len() - 1 {
                assert(d[i] == decimal(n / 10)[i]);
            }
        }
    }
}

// ----------------------------------------------------------------------------
// Fields of the long poll server's answers.
// ----------------------------------------------------------------------------

/// The text of a field is the text of the first entry with that name, when
/// that entry is not `null`.
pub proof fn law_field_text_is_first_entry(entries: Seq<(Seq<char>, Json)>, name: Seq<char>, i: int)
    requires
        0 <= i < entries.len(),
        entries[i].0 == name,
        forall|j: int| 0 <= j < i ==> #[trigger] entries[j].0 != name,
        entries[i].1 != Json::Null,
    ensures
        field_text(Json::Object(entries), name) == Some(text(entries[i].1)),
{
    lemma_lookup_at(entries, name, 0, i);
}

// ----------------------------------------------------------------------------
// Readings of scalars.
// ----------------------------------------------------------------------------

/// Every integer that fits in an `i64` reads as itself, and nothing but an
/// integer reads as an `i64`.
pub proof fn law_i64_reading(v: Json)
    ensures
        v matches Json::Number(NumberModel::PosInt(u)) ==> (u <= i64::MAX <==> i64_of(v) is Ok),
        v matches Json::Number(NumberModel::PosInt(u)) ==> (u <= i64::MAX ==> i64_of(v) == Ok::<
            i64,
            crate::json::JsonErrorModel,
        >(u as i64)),
        v matches Json::Number(NumberModel::NegInt(i)) ==> i64_of(v) == Ok::<
            i64,
            crate::json::JsonErrorModel,
        >(i),
        !(v is Number) ==> i64_of(v) is Err,
        v matches Json::Number(NumberModel::Float(_)) ==> i64_of(v) is Err,
{
}

/// A boolean reads as itself, and nothing else reads as a `bool`.
pub proof fn law_bool_reading(v: Json)
    ensures
        v matches Json::Bool(b) ==> bool_of(v) == Ok::<bool, crate::json::JsonErrorModel>(b),
        !(v is Bool) ==> bool_of(v) is Err,
{
}

/// The decimal text of a negative integer is `-` followed by the decimal text
/// of its magnitude; that of any other integer reads back as the integer.
pub proof fn law_signed_decimal_reads_back(n: int)
    ensures
        n >= 0 ==> digits_value(signed_decimal(n)) == n,
        n < 0 ==> signed_decimal(n)[0] == '-' && digits_value(signed_decimal(n).drop_first()) == -n,
{
    if n >= 0 {
        law_decimal_reads_back(n as nat);
    } else {
        law_decimal_reads_back((-n) as nat);
        assert(signed_decimal(n).drop_first() =~= decimal((-n) as nat));
    }
}

// ----------------------------------------------------------------------------
// The parameters of a call.
// ----------------------------------------------------------------------------

/// A call keeps the caller's parameters, in order, in front, and adds exactly
/// two more: the token and the version.
pub proof fn law_call_keeps_parameters(vk: VK, parameters: Seq<(Seq<char>, Seq<char>)>)
    ensures
        call_query(vk, parameters).len() == parameters.len() + 2,
        call_query(vk, parameters).take(parameters.len() as int) == parameters,
        call_query(vk, parameters)[parameters.len() as int] == ("access_token"@, vk.access_token@),
        call_query(vk, parameters)[parameters.len() as int + 1] == ("v"@, vk.version@),
{
    assert(call_query(vk, parameters).take(parameters.len() as int) =~= parameters);
}

} // verus!
