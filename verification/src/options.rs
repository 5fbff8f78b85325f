//! The options table: named settings, each either set explicitly or standing at
//! its registered default.
use crate::number::Number;
use crate::text::alike;
use crate::text::same;
use crate::text::same_ignoring_case;
use vstd::prelude::*;

verus! {

/// The value of a setting.
#[derive(Debug)]
pub enum OptionValue {
    Text(String),
    Integer(i32),
    Numeric(Number),
}

/// What an option holds, without its representation.
pub enum Held {
    Text(Seq<char>),
    Integer(i32),
    Numeric(Number),
}

impl OptionValue {
    pub open spec fn view(&self) -> Held {
        match self {
            OptionValue::Text(s) => Held::Text(s@),
            OptionValue::Integer(v) => Held::Integer(*v),
            OptionValue::Numeric(v) => Held::Numeric(*v),
        }
    }

    fn same_value(&self, other: &OptionValue) -> (r: bool)
        ensures
            r == (self@ == other@),
    {
        match (self, other) {
            (OptionValue::Text(a), OptionValue::Text(b)) => same(a.as_str(), b.as_str()),
            (OptionValue::Integer(a), OptionValue::Integer(b)) => *a == *b,
            (OptionValue::Numeric(a), OptionValue::Numeric(b)) => *a == *b,
            _ => false,
        }
    }

    fn duplicate(&self) -> (r: OptionValue)
        ensures
            r@ == self@,
    {
        match self {
            OptionValue::Text(s) => OptionValue::Text(s.clone()),
            OptionValue::Integer(v) => OptionValue::Integer(*v),
            OptionValue::Numeric(v) => OptionValue::Numeric(*v),
        }
    }
}

fn copy_of(v: &Option<OptionValue>) -> (r: Option<OptionValue>)
    ensures
        held(r) == held(*v),
{
    match v {
        Some(x) => Some(x.duplicate()),
        None => None,
    }
}

/// A named option: what the caller set, and what is registered as its default.
#[derive(Debug)]
pub struct OptionEntry {
    pub name: String,
    pub set: Option<OptionValue>,
    pub default: Option<OptionValue>,
}

/// What the caller set of an option, and what is registered as its default.
pub struct Setting {
    pub set: Option<Held>,
    pub default: Option<Held>,
}

/// What an optional value holds.
pub open spec fn held(v: Option<OptionValue>) -> Option<Held> {
    match v {
        Some(x) => Some(x@),
        None => None,
    }
}

impl OptionEntry {
    pub open spec fn view(&self) -> Setting {
        Setting { set: held(self.set), default: held(self.default) }
    }
}

/// The options, by name.
#[derive(Debug)]
pub struct OptionsList {
    pub entries: Vec<OptionEntry>,
}

/// The options as a map from names to settings.
pub type OptionsView = Map<Seq<char>, Setting>;

/// The entries as a map; a later entry of a name would hide an earlier one.
pub open spec fn entries_view(entries: Seq<OptionEntry>) -> OptionsView
    decreases entries.len(),
{
    if entries.len() == 0 {
        Map::empty()
    } else {
        let e = entries.last();
        entries_view(entries.drop_last()).insert(e.name@, e@)
    }
}

/// The setting of a name; nothing is set or registered for an unknown one.
pub open spec fn setting(o: OptionsView, name: Seq<char>) -> Setting {
    if o.dom().contains(name) {
        o[name]
    } else {
        Setting { set: None, default: None }
    }
}

/// What an option stands at: what the caller set, else its registered default.
pub open spec fn value_of(o: OptionsView, name: Seq<char>) -> Option<Held> {
    match setting(o, name).set {
        Some(v) => Some(v),
        None => setting(o, name).default,
    }
}

/// The text that an option stands at.
pub open spec fn text_of(o: OptionsView, name: Seq<char>) -> Option<Seq<char>> {
    match value_of(o, name) {
        Some(Held::Text(t)) => Some(t),
        _ => None,
    }
}

/// The integer that an option stands at.
pub open spec fn integer_of(o: OptionsView, name: Seq<char>) -> Option<i32> {
    match value_of(o, name) {
        Some(Held::Integer(v)) => Some(v),
        _ => None,
    }
}

/// The number that an option stands at.
pub open spec fn numeric_of(o: OptionsView, name: Seq<char>) -> Option<Number> {
    match value_of(o, name) {
        Some(Held::Numeric(v)) => Some(v),
        _ => None,
    }
}

/// The caller set the option to something else than its registered default.
pub open spec fn set_to_other_than_default(o: OptionsView, name: Seq<char>) -> bool {
    setting(o, name).set is Some && setting(o, name).set != setting(o, name).default
}

/// The caller set the option to something else than the given value.
pub open spec fn set_to_other_than(o: OptionsView, name: Seq<char>, value: Held) -> bool {
    setting(o, name).set is Some && setting(o, name).set != Some(value)
}

/// The switch that an option stands at: its text is `yes` or `no`.
pub open spec fn switch_of(o: OptionsView, name: Seq<char>) -> Option<bool> {
    match text_of(o, name) {
        Some(t) => if t == "yes"@ {
            Some(true)
        } else if t == "no"@ {
            Some(false)
        } else {
            None
        },
        None => None,
    }
}

/// The caller set the option.
pub open spec fn explicit(o: OptionsView, name: Seq<char>) -> bool {
    setting(o, name).set is Some
}

/// The text that the caller set.
pub open spec fn text_set(o: OptionsView, name: Seq<char>) -> Option<Seq<char>> {
    if explicit(o, name) {
        text_of(o, name)
    } else {
        None
    }
}

/// The integer that the caller set.
pub open spec fn integer_set(o: OptionsView, name: Seq<char>) -> Option<i32> {
    if explicit(o, name) {
        integer_of(o, name)
    } else {
        None
    }
}

/// The number that the caller set.
pub open spec fn numeric_set(o: OptionsView, name: Seq<char>) -> Option<Number> {
    if explicit(o, name) {
        numeric_of(o, name)
    } else {
        None
    }
}

/// The switch that the caller set.
pub open spec fn switch_set(o: OptionsView, name: Seq<char>) -> Option<bool> {
    if explicit(o, name) {
        switch_of(o, name)
    } else {
        None
    }
}

/// The number that the caller set, or the given one.
pub open spec fn numeric_or(o: OptionsView, name: Seq<char>, default: Number) -> Number {
    match numeric_set(o, name) {
        Some(v) => v,
        None => default,
    }
}

/// The integer that the caller set, or the given one.
pub open spec fn integer_or(o: OptionsView, name: Seq<char>, default: i32) -> i32 {
    match integer_set(o, name) {
        Some(v) => v,
        None => default,
    }
}

/// The switch that the caller set, or the given one.
pub open spec fn switch_or(o: OptionsView, name: Seq<char>, default: bool) -> bool {
    match switch_set(o, name) {
        Some(v) => v,
        None => default,
    }
}

/// Whether the caller's text is exactly `yes`; the given value where the caller
/// set none.
pub open spec fn yes_or(o: OptionsView, name: Seq<char>, default: bool) -> bool {
    match text_set(o, name) {
        Some(t) => t == "yes"@,
        None => default,
    }
}

/// Whether the caller's text is `yes` in any case; the given value where the
/// caller set none.
pub open spec fn any_yes_or(o: OptionsView, name: Seq<char>, default: bool) -> bool {
    match text_set(o, name) {
        Some(t) => alike(t, "yes"@),
        None => default,
    }
}

/// Nothing of the name comes out of entries that do not have it.
proof fn lemma_absent(entries: Seq<OptionEntry>, name: Seq<char>)
    requires
        forall|i: int| 0 <= i < entries.len() ==> (#[trigger] entries[i]).name@ != name,
    ensures
        !entries_view(entries).dom().contains(name),
    decreases entries.len(),
{
    if entries.len() > 0 {
        assert forall|i: int| 0 <= i < entries.drop_last().len() implies (
        #[trigger] entries.drop_last()[i]).name@ != name by {
            assert(entries.drop_last()[i] == entries[i]);
        }
        lemma_absent(entries.drop_last(), name);
        assert(entries.last() == entries[entries.len() - 1]);
    }
}

/// The last entry of a name is the one that counts.
proof fn lemma_present(entries: Seq<OptionEntry>, k: int)
    requires
        0 <= k < entries.len(),
        forall|i: int| k < i < entries.len() ==> (#[trigger] entries[i]).name@ != entries[k].name@,
    ensures
        entries_view(entries).dom().contains(entries[k].name@),
        entries_view(entries)[entries[k].name@] == entries[k]@,
    decreases entries.len(),
{
    if k < entries.len() - 1 {
        let rest = entries.drop_last();
        assert(rest[k] == entries[k]);
        assert forall|i: int| k < i < rest.len() implies (#[trigger] rest[i]).name@
            != rest[k].name@ by {
            assert(rest[i] == entries[i]);
        }
        lemma_present(rest, k);
        assert(entries.last() == entries[entries.len() - 1]);
    }
}

/// Changing the entry that counts for a name changes that name alone.
proof fn lemma_changed(before: Seq<OptionEntry>, k: int, e: OptionEntry)
    requires
        0 <= k < before.len(),
        e.name == before[k].name,
        forall|i: int| k < i < before.len() ==> (#[trigger] before[i]).name@ != e.name@,
    ensures
        entries_view(before.update(k, e)) == entries_view(before).insert(e.name@, e@),
    decreases before.len(),
{
    let after = before.update(k, e);
    if k == before.len() - 1 {
        assert(after.drop_last() =~= before.drop_last());
        assert(entries_view(after) =~= entries_view(before).insert(e.name@, e@));
    } else {
        let rest = before.drop_last();
        assert(after.drop_last() =~= rest.update(k, e));
        assert(rest[k] == before[k]);
        assert forall|i: int| k < i < rest.len() implies (#[trigger] rest[i]).name@ != e.name@ by {
            assert(rest[i] == before[i]);
        }
        lemma_changed(rest, k, e);
        let l = before.last();
        assert(l == before[before.len() - 1]);
        assert(entries_view(after) =~= entries_view(before).insert(e.name@, e@));
    }
}

impl OptionsList {
    pub open spec fn view(&self) -> OptionsView {
        entries_view(self.entries@)
    }

    /// No options.
    pub fn new() -> (r: OptionsList)
        ensures
            r@ == Map::<Seq<char>, Setting>::empty(),
    {
        OptionsList { entries: Vec::new() }
    }

    /// The entry that counts for the name.
    fn find(&self, name: &str) -> (r: Option<usize>)
        ensures
            match r {
                Some(k) => {
                    &&& k < self.entries.len()
                    &&& self.entries@[k as int].name@ == name@
                    &&& forall|i: int|
                        k < i < self.entries.len() ==> (#[trigger] self.entries@[i]).name@ != name@
                    &&& self@.dom().contains(name@)
                    &&& self@[name@] == self.entries@[k as int]@
                },
                None => !self@.dom().contains(name@),
            },
    {
        let n: usize = self.entries.len();
        let mut i: usize = n;
        while i > 0
            invariant
                i <= n,
                n == self.entries.len(),
                forall|j: int| i <= j < n ==> (#[trigger] self.entries@[j]).name@ != name@,
            decreases i,
        {
            i = i - 1;
            if same(self.entries[i].name.as_str(), name) {
                proof {
                    lemma_present(self.entries@, i as int);
                }
                return Some(i);
            }
        }
        proof {
            lemma_absent(self.entries@, name@);
        }
        None
    }

    /// Sets the option, and leaves its registered default alone.
    pub fn set_value(&mut self, name: &str, value: OptionValue)
        ensures
            final(self)@ == old(self)@.insert(
                name@,
                Setting { set: Some(value@), ..setting(old(self)@, name@) },
            ),
    {
        let ghost before = self.entries@;
        match self.find(name) {
            Some(k) => {
                let default = copy_of(&self.entries[k].default);
                let known = self.entries[k].name.clone();
                let e = OptionEntry { name: known, set: Some(value), default };
                proof {
                    lemma_changed(before, k as int, e);
                }
                self.entries.set(k, e);
            },
            None => {
                self.entries.push(
                    OptionEntry { name: name.to_owned(), set: Some(value), default: None },
                );
                proof {
                    assert(self.entries@.drop_last() =~= before);
                }
            },
        }
    }

    /// Registers the default of the option, and leaves what the caller set
    /// alone.
    pub fn register_default(&mut self, name: &str, value: OptionValue)
        ensures
            final(self)@ == old(self)@.insert(
                name@,
                Setting { default: Some(value@), ..setting(old(self)@, name@) },
            ),
    {
        let ghost before = self.entries@;
        match self.find(name) {
            Some(k) => {
                let set = copy_of(&self.entries[k].set);
                let known = self.entries[k].name.clone();
                let e = OptionEntry { name: known, set, default: Some(value) };
                proof {
                    lemma_changed(before, k as int, e);
                }
                self.entries.set(k, e);
            },
            None => {
                self.entries.push(
                    OptionEntry { name: name.to_owned(), set: None, default: Some(value) },
                );
                proof {
                    assert(self.entries@.drop_last() =~= before);
                }
            },
        }
    }

    /// Sets the option to a text.
    pub fn set_string_value(&mut self, name: &str, value: &str)
        ensures
            final(self)@ == old(self)@.insert(
                name@,
                Setting { set: Some(Held::Text(value@)), ..setting(old(self)@, name@) },
            ),
    {
        self.set_value(name, OptionValue::Text(value.to_owned()));
    }

    /// Sets the option to an integer.
    pub fn set_integer_value(&mut self, name: &str, value: i32)
        ensures
            final(self)@ == old(self)@.insert(
                name@,
                Setting { set: Some(Held::Integer(value)), ..setting(old(self)@, name@) },
            ),
    {
        self.set_value(name, OptionValue::Integer(value));
    }

    /// Sets the option to a number.
    pub fn set_numeric_value(&mut self, name: &str, value: Number)
        ensures
            final(self)@ == old(self)@.insert(
                name@,
                Setting { set: Some(Held::Numeric(value)), ..setting(old(self)@, name@) },
            ),
    {
        self.set_value(name, OptionValue::Numeric(value));
    }

    /// What the option stands at, and whether the caller set it.
    fn lookup(&self, name: &str) -> (r: Option<(&OptionValue, bool)>)
        ensures
            match r {
                Some(v) => value_of(self@, name@) == Some(v.0@) && v.1 == explicit(self@, name@),
                None => value_of(self@, name@) is None,
            },
    {
        match self.find(name) {
            Some(k) => match &self.entries[k].set {
                Some(v) => Some((v, true)),
                None => match &self.entries[k].default {
                    Some(v) => Some((v, false)),
                    None => None,
                },
            },
            None => None,
        }
    }

    /// The text that an option stands at, and whether the caller set it.
    pub fn get_string_value(&self, name: &str) -> (r: Option<(String, bool)>)
        ensures
            match r {
                Some(v) => text_of(self@, name@) == Some(v.0@) && v.1 == explicit(self@, name@),
                None => text_of(self@, name@) is None,
            },
    {
        match self.lookup(name) {
            Some((OptionValue::Text(s), set)) => Some((s.clone(), set)),
            _ => None,
        }
    }

    /// The integer that an option stands at, and whether the caller set it.
    pub fn get_integer_value(&self, name: &str) -> (r: Option<(i32, bool)>)
        ensures
            match r {
                Some(v) => integer_of(self@, name@) == Some(v.0) && v.1 == explicit(self@, name@),
                None => integer_of(self@, name@) is None,
            },
    {
        match self.lookup(name) {
            Some((OptionValue::Integer(v), set)) => Some((*v, set)),
            _ => None,
        }
    }

    /// The number that an option stands at, and whether the caller set it.
    pub fn get_numeric_value(&self, name: &str) -> (r: Option<(Number, bool)>)
        ensures
            match r {
                Some(v) => numeric_of(self@, name@) == Some(v.0) && v.1 == explicit(self@, name@),
                None => numeric_of(self@, name@) is None,
            },
    {
        match self.lookup(name) {
            Some((OptionValue::Numeric(v), set)) => Some((*v, set)),
            _ => None,
        }
    }

    /// The switch that an option stands at, and whether the caller set it.
    pub fn get_bool_value(&self, name: &str) -> (r: Option<(bool, bool)>)
        ensures
            match r {
                Some(v) => switch_of(self@, name@) == Some(v.0) && v.1 == explicit(self@, name@),
                None => switch_of(self@, name@) is None,
            },
    {
        match self.get_string_value(name) {
            Some((s, set)) => {
                if same(s.as_str(), "yes") {
                    Some((true, set))
                } else if same(s.as_str(), "no") {
                    Some((false, set))
                } else {
                    None
                }
            },
            None => None,
        }
    }

    /// Whether the caller set the option to something else than its registered
    /// default.
    pub fn set_to_a_non_default(&self, name: &str) -> (r: bool)
        ensures
            r == set_to_other_than_default(self@, name@),
    {
        match self.find(name) {
            Some(k) => match &self.entries[k].set {
                Some(v) => match &self.entries[k].default {
                    Some(d) => !v.same_value(d),
                    None => true,
                },
                None => false,
            },
            None => false,
        }
    }

    /// Whether the caller set the option to something else than the given value.
    pub fn is_set_to_other_than(&self, name: &str, value: &OptionValue) -> (r: bool)
        ensures
            r == set_to_other_than(self@, name@, value@),
    {
        match self.find(name) {
            Some(k) => match &self.entries[k].set {
                Some(v) => !v.same_value(value),
                None => false,
            },
            None => false,
        }
    }

    /// Whether the caller set the option.
    pub fn is_set(&self, name: &str) -> (r: bool)
        ensures
            r == explicit(self@, name@),
    {
        match self.find(name) {
            Some(k) => self.entries[k].set.is_some(),
            None => false,
        }
    }

    /// The text that the caller set.
    pub fn set_text(&self, name: &str) -> (r: Option<String>)
        ensures
            match r {
                Some(s) => text_set(self@, name@) == Some(s@),
                None => text_set(self@, name@) is None,
            },
    {
        match self.get_string_value(name) {
            Some((s, true)) => Some(s),
            _ => None,
        }
    }

    /// The integer that the caller set.
    pub fn set_integer(&self, name: &str) -> (r: Option<i32>)
        ensures
            r == integer_set(self@, name@),
    {
        match self.get_integer_value(name) {
            Some((v, true)) => Some(v),
            _ => None,
        }
    }

    /// The number that the caller set.
    pub fn set_numeric(&self, name: &str) -> (r: Option<Number>)
        ensures
            r == numeric_set(self@, name@),
    {
        match self.get_numeric_value(name) {
            Some((v, true)) => Some(v),
            _ => None,
        }
    }

    /// The switch that the caller set.
    pub fn set_switch(&self, name: &str) -> (r: Option<bool>)
        ensures
            r == switch_set(self@, name@),
    {
        match self.get_bool_value(name) {
            Some((v, true)) => Some(v),
            _ => None,
        }
    }

    /// The number that the caller set, or the given one.
    pub fn numeric(&self, name: &str, default: Number) -> (r: Number)
        ensures
            r == numeric_or(self@, name@, default),
    {
        match self.set_numeric(name) {
            Some(v) => v,
            None => default,
        }
    }

    /// The integer that the caller set, or the given one.
    pub fn integer(&self, name: &str, default: i32) -> (r: i32)
        ensures
            r == integer_or(self@, name@, default),
    {
        match self.set_integer(name) {
            Some(v) => v,
            None => default,
        }
    }

    /// The switch that the caller set, or the given one.
    pub fn switch(&self, name: &str, default: bool) -> (r: bool)
        ensures
            r == switch_or(self@, name@, default),
    {
        match self.set_switch(name) {
            Some(v) => v,
            None => default,
        }
    }

    /// Whether the caller's text is exactly `yes`.
    pub fn yes(&self, name: &str, default: bool) -> (r: bool)
        ensures
            r == yes_or(self@, name@, default),
    {
        match self.set_text(name) {
            Some(s) => same(s.as_str(), "yes"),
            None => default,
        }
    }

    /// Whether the caller's text is `yes` in any case.
    pub fn any_yes(&self, name: &str, default: bool) -> (r: bool)
        ensures
            r == any_yes_or(self@, name@, default),
    {
        match self.set_text(name) {
            Some(s) => same_ignoring_case(s.as_str(), "yes"),
            None => default,
        }
    }

    /// A table with the same settings.
    pub fn duplicate(&self) -> (r: OptionsList)
        ensures
            r@ == self@,
    {
        let mut entries: Vec<OptionEntry> = Vec::new();
        let mut i: usize = 0;
        proof {
            assert(self.entries@.take(0) =~= Seq::empty());
        }
        while i < self.entries.len()
            invariant
                i <= self.entries.len(),
                entries_view(entries@) == entries_view(self.entries@.take(i as int)),
            decreases self.entries.len() - i,
        {
            let e = &self.entries[i];
            let ghost before = entries@;
            entries.push(
                OptionEntry {
                    name: e.name.clone(),
                    set: copy_of(&e.set),
                    default: copy_of(&e.default),
                },
            );
            proof {
                assert(entries@.drop_last() =~= before);
                assert(self.entries@.take(i + 1).drop_last() =~= self.entries@.take(i as int));
            }
            i = i + 1;
        }
        proof {
            assert(self.entries@.take(self.entries.len() as int) =~= self.entries@);
        }
        OptionsList { entries }
    }
}

} // verus!
