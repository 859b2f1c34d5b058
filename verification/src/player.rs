use vstd::prelude::*;
use std::collections::{HashMap, HashSet};
use crate::text::{decimal, decimal_string};
use crate::cards::{Cards, Characters, Roles, Suits, Weapons};

verus! {

/// The lasting effects that a player can be under.
#[derive(PartialEq, Eq, Structural, Clone, Copy, Debug, Hash)]
pub enum Attributes {
    LowerMaxHP,
    Barrel,
    Targeted,
    Dynamite,
    Mustang,
    Scope,
    Jailed,
    BangSpam,
    ExtraDistance,
    ExtraRange,
}

/// The number of kinds of attribute.
pub const ATTRIBUTE_KINDS: usize = 10;

/// The position of an attribute in the order of its declaration.
pub open spec fn attribute_index(a: Attributes) -> int {
    match a {
        Attributes::LowerMaxHP => 0,
        Attributes::Barrel => 1,
        Attributes::Targeted => 2,
        Attributes::Dynamite => 3,
        Attributes::Mustang => 4,
        Attributes::Scope => 5,
        Attributes::Jailed => 6,
        Attributes::BangSpam => 7,
        Attributes::ExtraDistance => 8,
        Attributes::ExtraRange => 9,
    }
}

/// The attribute at a position in the order of declaration.
pub open spec fn attribute_at(i: int) -> Attributes {
    if i == 0 {
        Attributes::LowerMaxHP
    } else if i == 1 {
        Attributes::Barrel
    } else if i == 2 {
        Attributes::Targeted
    } else if i == 3 {
        Attributes::Dynamite
    } else if i == 4 {
        Attributes::Mustang
    } else if i == 5 {
        Attributes::Scope
    } else if i == 6 {
        Attributes::Jailed
    } else if i == 7 {
        Attributes::BangSpam
    } else if i == 8 {
        Attributes::ExtraDistance
    } else {
        Attributes::ExtraRange
    }
}

/// The name of an attribute, as its derived `Debug` writes it.
pub open spec fn attribute_name(a: Attributes) -> Seq<char> {
    match a {
        Attributes::LowerMaxHP => "LowerMaxHP"@,
        Attributes::Barrel => "Barrel"@,
        Attributes::Targeted => "Targeted"@,
        Attributes::Dynamite => "Dynamite"@,
        Attributes::Mustang => "Mustang"@,
        Attributes::Scope => "Scope"@,
        Attributes::Jailed => "Jailed"@,
        Attributes::BangSpam => "BangSpam"@,
        Attributes::ExtraDistance => "ExtraDistance"@,
        Attributes::ExtraRange => "ExtraRange"@,
    }
}

impl Attributes {
    /// The attribute at a position in the order of declaration.
    pub fn at(i: usize) -> (r: Attributes)
        requires
            i < ATTRIBUTE_KINDS,
        ensures
            r == attribute_at(i as int),
            attribute_index(r) == i,
    {
        if i == 0 {
            Attributes::LowerMaxHP
        } else if i == 1 {
            Attributes::Barrel
        } else if i == 2 {
            Attributes::Targeted
        } else if i == 3 {
            Attributes::Dynamite
        } else if i == 4 {
            Attributes::Mustang
        } else if i == 5 {
            Attributes::Scope
        } else if i == 6 {
            Attributes::Jailed
        } else if i == 7 {
            Attributes::BangSpam
        } else if i == 8 {
            Attributes::ExtraDistance
        } else {
            Attributes::ExtraRange
        }
    }

    /// The name of the attribute, as its derived `Debug` writes it.
    pub fn name(&self) -> (r: &'static str)
        ensures
            r@ == attribute_name(*self),
    {
        match self {
            Attributes::LowerMaxHP => "LowerMaxHP",
            Attributes::Barrel => "Barrel",
            Attributes::Targeted => "Targeted",
            Attributes::Dynamite => "Dynamite",
            Attributes::Mustang => "Mustang",
            Attributes::Scope => "Scope",
            Attributes::Jailed => "Jailed",
            Attributes::BangSpam => "BangSpam",
            Attributes::ExtraDistance => "ExtraDistance",
            Attributes::ExtraRange => "ExtraRange",
        }
    }

    pub fn index(&self) -> (r: usize)
        ensures
            r == attribute_index(*self),
            r < ATTRIBUTE_KINDS,
    {
        match self {
            Attributes::LowerMaxHP => 0,
            Attributes::Barrel => 1,
            Attributes::Targeted => 2,
            Attributes::Dynamite => 3,
            Attributes::Mustang => 4,
            Attributes::Scope => 5,
            Attributes::Jailed => 6,
            Attributes::BangSpam => 7,
            Attributes::ExtraDistance => 8,
            Attributes::ExtraRange => 9,
        }
    }
}

proof fn lemma_attribute_index_injective(a: Attributes, b: Attributes)
    ensures
        0 <= attribute_index(a) < ATTRIBUTE_KINDS,
        attribute_index(a) == attribute_index(b) ==> a == b,
        attribute_at(attribute_index(a)) == a,
{
}

/// A count kept for each attribute that a player holds: a map from attribute
/// to count, keyed by the attribute's position.
#[derive(Debug)]
pub struct AttributeCounts {
    counts: HashMap<usize, u8>,
}

impl View for AttributeCounts {
    type V = Map<Attributes, u8>;

    closed spec fn view(&self) -> Map<Attributes, u8> {
        Map::new(
            |a: Attributes| self.counts@.contains_key(attribute_index(a) as usize),
            |a: Attributes| self.counts@[attribute_index(a) as usize],
        )
    }
}

/// The entries of a count map in the order of declaration of the attributes,
/// among the first `k` kinds, each written `Name: count`.
pub open spec fn entry_texts(m: Map<Attributes, u8>, k: nat) -> Seq<Seq<char>>
    decreases k,
{
    if k == 0 {
        Seq::empty()
    } else {
        let prev = entry_texts(m, (k - 1) as nat);
        let a = attribute_at(k - 1);
        if m.contains_key(a) {
            prev.push(attribute_name(a) + ": "@ + decimal(m[a] as nat))
        } else {
            prev
        }
    }
}

/// The attributes held in a count map among the first `k` kinds.
pub open spec fn held_below(m: Map<Attributes, u8>, k: int) -> Set<Attributes> {
    m.dom().filter(|a: Attributes| attribute_index(a) < k)
}

proof fn lemma_entry_texts_count(m: Map<Attributes, u8>, k: nat)
    requires
        k <= ATTRIBUTE_KINDS,
    ensures
        held_below(m, k as int).finite(),
        entry_texts(m, k).len() == held_below(m, k as int).len(),
        forall|a: Attributes|
            m.contains_key(a) && attribute_index(a) < k ==> #[trigger] entry_texts(m, k).contains(
                attribute_name(a) + ": "@ + decimal(m[a] as nat),
            ),
    decreases k,
{
    if k == 0 {
        assert(held_below(m, 0) =~= Set::<Attributes>::empty());
    } else {
        let j = (k - 1) as nat;
        lemma_entry_texts_count(m, j);
        let b = attribute_at(j as int);
        lemma_attribute_index_injective(b, b);
        assert(attribute_index(b) == j) by {
            assert(attribute_at(attribute_index(b)) == b);
        }
        let prev = entry_texts(m, j);
        if m.contains_key(b) {
            assert(held_below(m, k as int) =~= held_below(m, j as int).insert(b)) by {
                assert forall|a: Attributes| #[trigger] held_below(m, k as int).contains(a) implies a == b
                    || held_below(m, j as int).contains(a) by {
                    if attribute_index(a) == j {
                        lemma_attribute_index_injective(a, b);
                    }
                }
            }
            assert(!held_below(m, j as int).contains(b));
        } else {
            assert(held_below(m, k as int) =~= held_below(m, j as int)) by {
                assert forall|a: Attributes| #[trigger] held_below(m, k as int).contains(a) implies held_below(
                    m,
                    j as int,
                ).contains(a) by {
                    if attribute_index(a) == j {
                        lemma_attribute_index_injective(a, b);
                    }
                }
            }
        }
        assert forall|a: Attributes|
            m.contains_key(a) && attribute_index(a) < k implies #[trigger] entry_texts(m, k).contains(
            attribute_name(a) + ": "@ + decimal(m[a] as nat),
        ) by {
            let e = attribute_name(a) + ": "@ + decimal(m[a] as nat);
            if attribute_index(a) == j {
                lemma_attribute_index_injective(a, b);
                assert(entry_texts(m, k) == prev.push(e));
                assert(entry_texts(m, k)[prev.len() as int] == e);
            } else {
                assert(prev.contains(e));
                let i = choose|i: int| 0 <= i < prev.len() && prev[i] == e;
                if m.contains_key(b) {
                    assert(entry_texts(m, k)[i] == e);
                }
            }
        }
    }
}

/// The printed counts list every attribute that the counts hold, with its
/// count, and nothing else: one entry `Name: count` for each held attribute,
/// and as many entries as attributes held.
pub proof fn lemma_counts_text_lists_all(m: Map<Attributes, u8>, a: Attributes)
    ensures
        m.dom().finite(),
        entry_texts(m, ATTRIBUTE_KINDS as nat).len() == m.dom().len(),
        m.contains_key(a) ==> entry_texts(m, ATTRIBUTE_KINDS as nat).contains(
            attribute_name(a) + ": "@ + decimal(m[a] as nat),
        ),
{
    lemma_entry_texts_count(m, ATTRIBUTE_KINDS as nat);
    assert(held_below(m, ATTRIBUTE_KINDS as int) =~= m.dom()) by {
        assert forall|b: Attributes| m.dom().contains(b) implies attribute_index(b) < ATTRIBUTE_KINDS by {
            lemma_attribute_index_injective(b, b);
        }
    }
    lemma_attribute_index_injective(a, a);
}

/// Texts joined with a separator between each two.
pub open spec fn join_texts(list: Seq<Seq<char>>, sep: Seq<char>) -> Seq<char>
    decreases list.len(),
{
    if list.len() == 0 {
        Seq::empty()
    } else if list.len() == 1 {
        list[0]
    } else {
        join_texts(list.drop_last(), sep) + sep + list.last()
    }
}

/// A count map written as a map's `Debug` writes it: `{Name: count, ...}`,
/// the attributes in the order of their declaration.
pub open spec fn counts_text(m: Map<Attributes, u8>) -> Seq<char> {
    "{"@ + join_texts(entry_texts(m, ATTRIBUTE_KINDS as nat), ", "@) + "}"@
}

impl AttributeCounts {
    /// No attribute held.
    pub fn new() -> (r: AttributeCounts)
        ensures
            r@ == Map::<Attributes, u8>::empty(),
    {
        let r = AttributeCounts { counts: HashMap::new() };
        assert(r@ =~= Map::<Attributes, u8>::empty());
        r
    }

    /// Sets the count of an attribute, and gives back the count it had, if any.
    pub fn insert(&mut self, key: Attributes, value: u8) -> (r: Option<u8>)
        ensures
            final(self)@ == old(self)@.insert(key, value),
            r == (if old(self)@.dom().contains(key) { Some(old(self)@[key]) } else { None }),
    {
        broadcast use vstd::std_specs::hash::group_hash_axioms;

        let i = key.index();
        let previous = self.counts.insert(i, value);
        proof {
            assert forall|a: Attributes| #[trigger] self@.dom().contains(a) == old(self)@.insert(
                key,
                value,
            ).dom().contains(a) && (self@.dom().contains(a) ==> self@[a] == old(self)@.insert(
                key,
                value,
            )[a]) by {
                lemma_attribute_index_injective(a, key);
            }
            assert(self@ =~= old(self)@.insert(key, value));
        }
        previous
    }

    /// The count of an attribute, if the player holds it.
    pub fn get(&self, key: Attributes) -> (r: Option<u8>)
        ensures
            r == (if self@.dom().contains(key) { Some(self@[key]) } else { None }),
    {
        broadcast use vstd::std_specs::hash::group_hash_axioms;

        let i = key.index();
        match self.counts.get(&i) {
            Some(v) => Some(*v),
            None => None,
        }
    }

    /// The counts written as a map's `Debug` writes them, in the order of
    /// declaration of the attributes: `{Mustang: 2}`.
    pub fn debug_text(&self) -> (r: String)
        ensures
            r@ == counts_text(self@),
    {
        let mut text = "{".to_owned();
        let mut any = false;
        let mut i: usize = 0;
        while i < ATTRIBUTE_KINDS
            invariant
                i <= ATTRIBUTE_KINDS,
                text@ == "{"@ + join_texts(entry_texts(self@, i as nat), ", "@),
                any == (entry_texts(self@, i as nat).len() > 0),
            decreases ATTRIBUTE_KINDS - i,
        {
            let a = Attributes::at(i);
            let ghost prev = entry_texts(self@, i as nat);
            match self.get(a) {
                Some(v) => {
                    let ghost entry = attribute_name(a) + ": "@ + decimal(v as nat);
                    if any {
                        text.append(", ");
                    }
                    text.append(a.name());
                    text.append(": ");
                    let digits = decimal_string(v as u16);
                    text.append(digits.as_str());
                    any = true;
                    proof {
                        let next = prev.push(entry);
                        assert(entry_texts(self@, (i + 1) as nat) == next);
                        assert(next.drop_last() =~= prev);
                        if prev.len() == 0 {
                            assert(join_texts(prev, ", "@) =~= Seq::<char>::empty());
                        }
                        assert(text@ =~= "{"@ + join_texts(next, ", "@));
                    }
                },
                None => {
                    assert(entry_texts(self@, (i + 1) as nat) == prev);
                },
            }
            i = i + 1;
        }
        text.append("}");
        text
    }
}

/// Reading a count after setting it gives the count set, and setting one
/// count leaves every other as it was: `after` is the counts that
/// `AttributeCounts::insert(key, value)` leaves of `before`, and `get` reads
/// a count from the view.
pub proof fn lemma_read_after_insert(
    before: AttributeCounts,
    after: AttributeCounts,
    key: Attributes,
    value: u8,
    other: Attributes,
)
    requires
        after@ == before@.insert(key, value),
    ensures
        after@.dom().contains(key),
        after@[key] == value,
        other != key ==> (after@.dom().contains(other) == before@.dom().contains(other)),
        other != key && before@.dom().contains(other) ==> after@[other] == before@[other],
{
}

/// The attributes that a player is under, as a set of attribute positions.
#[derive(Debug)]
pub struct AttributeSet {
    members: HashSet<usize>,
}

impl View for AttributeSet {
    type V = Set<Attributes>;

    closed spec fn view(&self) -> Set<Attributes> {
        Set::new(|a: Attributes| self.members@.contains(attribute_index(a) as usize))
    }
}

impl AttributeSet {
    /// No attribute.
    pub fn new() -> (r: AttributeSet)
        ensures
            r@ == Set::<Attributes>::empty(),
    {
        let r = AttributeSet { members: HashSet::new() };
        assert(r@ =~= Set::<Attributes>::empty());
        r
    }
}

/// A player at the table.
#[derive(Debug)]
pub struct Player {
    pub name: String,
    pub health: u8,
    pub weapon: Weapons,
    pub character: Characters,
    pub role: Roles,
    pub upper_cards: Vec<(Cards, Suits)>,
    pub lower_cards: Vec<Cards>,
    pub attributes: AttributeSet,
    pub attributes_num: AttributeCounts,
}

} // verus!
