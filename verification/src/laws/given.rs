//! What a caller gave to the options table, and what comes out of it.
use crate::number::Number;
use crate::options::Held;
use crate::options::OptionValue;
use crate::options::OptionsList;
use crate::options::OptionsView;
use vstd::prelude::*;

verus! {

/// The number that the caller set under the name.
pub open spec fn number_given(o: OptionsView, name: Seq<char>) -> Option<Number> {
    if o.dom().contains(name) {
        match o[name].set {
            Some(Held::Numeric(v)) => Some(v),
            _ => None,
        }
    } else {
        None
    }
}

/// The integer that the caller set under the name.
pub open spec fn integer_given(o: OptionsView, name: Seq<char>) -> Option<i32> {
    if o.dom().contains(name) {
        match o[name].set {
            Some(Held::Integer(v)) => Some(v),
            _ => None,
        }
    } else {
        None
    }
}

/// The text that the caller set under the name.
pub open spec fn text_given(o: OptionsView, name: Seq<char>) -> Option<Seq<char>> {
    if o.dom().contains(name) {
        match o[name].set {
            Some(Held::Text(t)) => Some(t),
            _ => None,
        }
    } else {
        None
    }
}

/// The caller set something under the name.
pub open spec fn anything_given(o: OptionsView, name: Seq<char>) -> bool {
    o.dom().contains(name) && o[name].set is Some
}

/// The caller said yes or no under the name.
pub open spec fn answer_given(o: OptionsView, name: Seq<char>) -> Option<bool> {
    if text_given(o, name) == Some("yes"@) {
        Some(true)
    } else if text_given(o, name) == Some("no"@) {
        Some(false)
    } else {
        None
    }
}

/// What the option of the name stands at: what the caller set, else what is
/// registered.
pub open spec fn stands_at(o: OptionsView, name: Seq<char>) -> Option<Held> {
    if anything_given(o, name) {
        o[name].set
    } else if o.dom().contains(name) {
        o[name].default
    } else {
        None
    }
}

/// The given number where there is one, else the other.
pub open spec fn number_or(given: Option<Number>, other: Number) -> Number {
    match given {
        Some(v) => v,
        None => other,
    }
}

/// The given integer where there is one, else the other.
pub open spec fn integer_or_else(given: Option<i32>, other: i32) -> i32 {
    match given {
        Some(v) => v,
        None => other,
    }
}

/// The given answer where there is one, else the other.
pub open spec fn answer_or(given: Option<bool>, other: bool) -> bool {
    match given {
        Some(v) => v,
        None => other,
    }
}

pub(crate) proof fn lemma_yes_is_not_no()
    ensures
        "yes"@ != "no"@,
{
    reveal_strlit("yes");
    reveal_strlit("no");
    assert("yes"@.len() != "no"@.len());
}

/// Setting a number makes it the given number of that name, whatever was there,
/// keeps the registered default, and touches no other name.
pub proof fn law_set_number(o: &mut OptionsList, name: &str, v: Number, other: Seq<char>)
    requires
        call_ensures(OptionsList::set_numeric_value, (o, name, v), ()),
        other != name@,
    ensures
        number_given(final(o)@, name@) == Some(v),
        stands_at(final(o)@, name@) == Some(Held::Numeric(v)),
        text_given(final(o)@, name@) is None,
        integer_given(final(o)@, name@) is None,
        old(o)@.dom().contains(name@) ==> final(o)@[name@].default == old(o)@[name@].default,
        !old(o)@.dom().contains(name@) ==> final(o)@[name@].default is None,
        final(o)@.dom().contains(other) == old(o)@.dom().contains(other),
        old(o)@.dom().contains(other) ==> final(o)@[other] == old(o)@[other],
{
}

/// So for an integer.
pub proof fn law_set_integer(o: &mut OptionsList, name: &str, v: i32, other: Seq<char>)
    requires
        call_ensures(OptionsList::set_integer_value, (o, name, v), ()),
        other != name@,
    ensures
        integer_given(final(o)@, name@) == Some(v),
        stands_at(final(o)@, name@) == Some(Held::Integer(v)),
        text_given(final(o)@, name@) is None,
        number_given(final(o)@, name@) is None,
        old(o)@.dom().contains(name@) ==> final(o)@[name@].default == old(o)@[name@].default,
        !old(o)@.dom().contains(name@) ==> final(o)@[name@].default is None,
        final(o)@.dom().contains(other) == old(o)@.dom().contains(other),
        old(o)@.dom().contains(other) ==> final(o)@[other] == old(o)@[other],
{
}

/// So for a text.
pub proof fn law_set_text(o: &mut OptionsList, name: &str, t: &str, other: Seq<char>)
    requires
        call_ensures(OptionsList::set_string_value, (o, name, t), ()),
        other != name@,
    ensures
        text_given(final(o)@, name@) == Some(t@),
        stands_at(final(o)@, name@) == Some(Held::Text(t@)),
        number_given(final(o)@, name@) is None,
        integer_given(final(o)@, name@) is None,
        old(o)@.dom().contains(name@) ==> final(o)@[name@].default == old(o)@[name@].default,
        !old(o)@.dom().contains(name@) ==> final(o)@[name@].default is None,
        final(o)@.dom().contains(other) == old(o)@.dom().contains(other),
        old(o)@.dom().contains(other) ==> final(o)@[other] == old(o)@[other],
{
}

/// Registering a default changes nothing that the caller set.
pub proof fn law_register(o: &mut OptionsList, name: &str, v: OptionValue, other: Seq<char>)
    requires
        call_ensures(OptionsList::register_default, (o, name, v), ()),
        other != name@,
    ensures
        number_given(final(o)@, name@) == number_given(old(o)@, name@),
        integer_given(final(o)@, name@) == integer_given(old(o)@, name@),
        text_given(final(o)@, name@) == text_given(old(o)@, name@),
        anything_given(final(o)@, name@) == anything_given(old(o)@, name@),
        final(o)@[name@].default == Some(v@),
        !anything_given(old(o)@, name@) ==> stands_at(final(o)@, name@) == Some(v@),
        final(o)@.dom().contains(other) == old(o)@.dom().contains(other),
        old(o)@.dom().contains(other) ==> final(o)@[other] == old(o)@[other],
{
}

/// What is read as set is what the caller gave, never a registered default.
pub proof fn law_read_given(
    o: OptionsList,
    name: &str,
    number: Option<Number>,
    integer: Option<i32>,
    text: Option<String>,
    answer: Option<bool>,
    set: bool,
)
    requires
        call_ensures(OptionsList::set_numeric, (&o, name), number),
        call_ensures(OptionsList::set_integer, (&o, name), integer),
        call_ensures(OptionsList::set_text, (&o, name), text),
        call_ensures(OptionsList::set_switch, (&o, name), answer),
        call_ensures(OptionsList::is_set, (&o, name), set),
    ensures
        number == number_given(o@, name@),
        integer == integer_given(o@, name@),
        text is Some <==> text_given(o@, name@) is Some,
        text matches Some(t) ==> text_given(o@, name@) == Some(t@),
        answer == answer_given(o@, name@),
        set == anything_given(o@, name@),
{
    lemma_yes_is_not_no();
}

/// What is read with a fallback is what the caller gave, and the fallback where
/// the caller gave nothing of the kind.
pub proof fn law_read_or(
    o: OptionsList,
    name: &str,
    v: Number,
    number: Number,
    i: i32,
    integer: i32,
    b: bool,
    answer: bool,
    yes: bool,
)
    requires
        call_ensures(OptionsList::numeric, (&o, name, v), number),
        call_ensures(OptionsList::integer, (&o, name, i), integer),
        call_ensures(OptionsList::switch, (&o, name, b), answer),
        call_ensures(OptionsList::yes, (&o, name, b), yes),
    ensures
        number == number_or(number_given(o@, name@), v),
        integer == integer_or_else(integer_given(o@, name@), i),
        answer == answer_or(answer_given(o@, name@), b),
        text_given(o@, name@) is None ==> yes == b,
        text_given(o@, name@) matches Some(t) ==> yes == (t == "yes"@),
{
    lemma_yes_is_not_no();
}

/// What an option stands at is read with the note whether the caller set it.
pub proof fn law_read_standing(
    o: OptionsList,
    name: &str,
    number: Option<(Number, bool)>,
    integer: Option<(i32, bool)>,
    text: Option<(String, bool)>,
    answer: Option<(bool, bool)>,
)
    requires
        call_ensures(OptionsList::get_numeric_value, (&o, name), number),
        call_ensures(OptionsList::get_integer_value, (&o, name), integer),
        call_ensures(OptionsList::get_string_value, (&o, name), text),
        call_ensures(OptionsList::get_bool_value, (&o, name), answer),
    ensures
        number == match stands_at(o@, name@) {
            Some(Held::Numeric(v)) => Some((v, anything_given(o@, name@))),
            _ => None,
        },
        integer == match stands_at(o@, name@) {
            Some(Held::Integer(v)) => Some((v, anything_given(o@, name@))),
            _ => None,
        },
        text is None <==> !(stands_at(o@, name@) matches Some(Held::Text(_))),
        text matches Some(t) ==> stands_at(o@, name@) == Some(Held::Text(t.0@)) && t.1
            == anything_given(o@, name@),
        stands_at(o@, name@) == Some(Held::Text("yes"@)) ==> answer == Some(
            (true, anything_given(o@, name@)),
        ),
        stands_at(o@, name@) == Some(Held::Text("no"@)) ==> answer == Some(
            (false, anything_given(o@, name@)),
        ),
        answer is Some ==> stands_at(o@, name@) == Some(Held::Text("yes"@)) || stands_at(o@, name@)
            == Some(Held::Text("no"@)),
{
    lemma_yes_is_not_no();
}

/// Whether an option is set to something else than a value is asked of what the
/// caller gave alone.
pub proof fn law_differs(o: OptionsList, name: &str, v: OptionValue, other: bool, moved: bool)
    requires
        call_ensures(OptionsList::is_set_to_other_than, (&o, name, &v), other),
        call_ensures(OptionsList::set_to_a_non_default, (&o, name), moved),
    ensures
        other <==> anything_given(o@, name@) && o@[name@].set != Some(v@),
        moved <==> anything_given(o@, name@) && o@[name@].set != o@[name@].default,
{
}

/// A copy of a table answers every question as the table does.
pub proof fn law_copy(o: OptionsList, c: OptionsList)
    requires
        call_ensures(OptionsList::duplicate, (&o,), c),
    ensures
        c@ == o@,
{
}

} // verus!
