//! Environment variables as a process is given them: one value a name, in the
//! order of the names.
use vstd::prelude::*;
use vstd::string::StrSliceExecFns;

verus! {

/// Environment variables, each name with one value, kept in the order of the names.
#[derive(Debug, PartialEq, Eq)]
pub struct Environment {
    pairs: Vec<(String, String)>,
}

/// Whether `one` comes before `other` in the order that compares texts character
/// by character.
pub open spec fn precedes(one: Seq<char>, other: Seq<char>) -> bool
    decreases one.len(),
{
    if other.len() == 0 {
        false
    } else if one.len() == 0 {
        true
    } else if one[0] != other[0] {
        one[0] < other[0]
    } else {
        precedes(one.drop_first(), other.drop_first())
    }
}

/// What a list of pairs says.
pub open spec fn spelled(pairs: Seq<(String, String)>) -> Seq<(Seq<char>, Seq<char>)> {
    pairs.map_values(|pair: (String, String)| (pair.0@, pair.1@))
}

/// The value of each name, where a later pair of a name replaces an earlier one.
pub open spec fn last_of_each(pairs: Seq<(Seq<char>, Seq<char>)>) -> Map<Seq<char>, Seq<char>>
    decreases pairs.len(),
{
    if pairs.len() == 0 {
        Map::empty()
    } else {
        last_of_each(pairs.drop_last()).insert(pairs.last().0, pairs.last().1)
    }
}

/// Whether the names ascend, so that none occurs twice.
pub open spec fn ascending(pairs: Seq<(Seq<char>, Seq<char>)>) -> bool {
    forall|i: int, j: int|
        0 <= i < j < pairs.len() ==> precedes((#[trigger] pairs[i]).0, (#[trigger] pairs[j]).0)
}

impl View for Environment {
    type V = Map<Seq<char>, Seq<char>>;

    closed spec fn view(&self) -> Map<Seq<char>, Seq<char>> {
        last_of_each(spelled(self.pairs@))
    }
}

proof fn lemma_order_is_total(one: Seq<char>, other: Seq<char>)
    ensures
        precedes(one, other) || one == other || precedes(other, one),
        !(precedes(one, other) && precedes(other, one)),
        !precedes(one, one),
    decreases one.len(),
{
    if one.len() == 0 || other.len() == 0 {
        if one.len() == 0 && other.len() == 0 {
            assert(one =~= other);
        }
        if one.len() > 0 {
            lemma_order_is_total(one.drop_first(), one.drop_first());
        }
    } else {
        lemma_order_is_total(one.drop_first(), other.drop_first());
        if one[0] == other[0] && one.drop_first() == other.drop_first() {
            assert(one =~= seq![one[0]] + one.drop_first());
            assert(other =~= seq![other[0]] + other.drop_first());
        }
    }
}

proof fn lemma_order_is_transitive(one: Seq<char>, two: Seq<char>, three: Seq<char>)
    requires
        precedes(one, two),
        precedes(two, three),
    ensures
        precedes(one, three),
    decreases one.len(),
{
    if one.len() > 0 && one[0] == two[0] && two[0] == three[0] {
        lemma_order_is_transitive(one.drop_first(), two.drop_first(), three.drop_first());
    }
}

/// Tells whether `one` comes before `other`.
fn comes_before(one: &str, other: &str) -> (before: bool)
    ensures
        before == precedes(one@, other@),
{
    let one_len = one.unicode_len();
    let other_len = other.unicode_len();
    let mut i: usize = 0;
    assert(one@.skip(0) =~= one@);
    assert(other@.skip(0) =~= other@);
    while i < one_len && i < other_len
        invariant
            one_len == one@.len(),
            other_len == other@.len(),
            i <= one_len,
            i <= other_len,
            precedes(one@, other@) == precedes(one@.skip(i as int), other@.skip(i as int)),
        decreases one_len - i,
    {
        let left = one.get_char(i);
        let right = other.get_char(i);
        assert(one@.skip(i as int)[0] == left);
        assert(other@.skip(i as int)[0] == right);
        if left != right {
            return left < right;
        }
        assert(one@.skip(i as int).drop_first() =~= one@.skip(i + 1));
        assert(other@.skip(i as int).drop_first() =~= other@.skip(i + 1));
        i = i + 1;
    }
    i < other_len
}

impl Clone for Environment {
    /// The same variables once more.
    fn clone(&self) -> (copy: Environment)
        ensures
            copy@ == self@,
    {
        Environment::from_pairs(&self.pairs)
    }
}

impl Environment {
    #[verifier::type_invariant]
    spec fn is_ascending(self) -> bool {
        ascending(spelled(self.pairs@))
    }

    /// An environment without variables.
    pub fn new() -> (env: Environment)
        ensures
            env@ == Map::<Seq<char>, Seq<char>>::empty(),
    {
        Environment { pairs: Vec::new() }
    }

    /// Gives `name` the value `value`, in place of the one that it had.
    pub fn set(&mut self, name: String, value: String)
        ensures
            final(self)@ == old(self)@.insert(name@, value@),
    {
        proof {
            use_type_invariant(&*self);
        }
        let mut pairs: Vec<(String, String)> = Vec::new();
        std::mem::swap(&mut pairs, &mut self.pairs);
        let ghost before = spelled(pairs@);
        let mut i: usize = 0;
        while i < pairs.len() && comes_before(pairs[i].0.as_str(), name.as_str())
            invariant
                i <= pairs.len(),
                spelled(pairs@) == before,
                forall|j: int| 0 <= j < i ==> precedes((#[trigger] before[j]).0, name@),
            decreases pairs.len() - i,
        {
            assert(before[i as int].0 == pairs@[i as int].0@);
            i = i + 1;
        }
        if i < pairs.len() {
            assert(before[i as int].0 == pairs@[i as int].0@);
            if pairs[i].0 == name {
                let _ = pairs.remove(i);
                assert(spelled(pairs@) =~= before.remove(i as int));
                proof {
                    lemma_without_one(before, i as int, value@);
                }
            }
        }
        let ghost kept = spelled(pairs@);
        proof {
            assert forall|j: int| 0 <= j < kept.len() implies if j < i {
                precedes((#[trigger] kept[j]).0, name@)
            } else {
                precedes(name@, kept[j].0)
            } by {
                if j < i {
                    assert(kept[j] == before[j]);
                } else if kept.len() < before.len() {
                    assert(kept[j] == before[j + 1]);
                    assert(precedes(before[i as int].0, before[j + 1].0));
                } else {
                    lemma_order_is_total(before[i as int].0, name@);
                    if j > i {
                        assert(precedes(before[i as int].0, before[j].0));
                        lemma_order_is_transitive(name@, before[i as int].0, before[j].0);
                    }
                }
            }
            assert forall|j: int| 0 <= j < kept.len() implies (#[trigger] kept[j]).0 != name@ by {
                lemma_order_is_total(name@, name@);
            }
            lemma_with_one_more(kept, i as int, (name@, value@));
        }
        pairs.insert(i, (name, value));
        assert(spelled(pairs@) =~= kept.insert(i as int, (name@, value@)));
        assert(ascending(spelled(pairs@))) by {
            let now = spelled(pairs@);
            assert forall|a: int, b: int| 0 <= a < b < now.len() implies precedes(
                (#[trigger] now[a]).0,
                (#[trigger] now[b]).0,
            ) by {
                let ka = if a < i { a } else { a - 1 };
                let kb = if b < i { b } else { b - 1 };
                if a != i {
                    assert(now[a] == kept[ka]);
                }
                if b != i {
                    assert(now[b] == kept[kb]);
                }
                if a != i && b != i {
                    let gone: int = before.len() - kept.len();
                    let oa = if ka < i { ka } else { ka + gone };
                    let ob = if kb < i { kb } else { kb + gone };
                    assert(kept[ka] == before[oa]);
                    assert(kept[kb] == before[ob]);
                }
            }
        }
        self.pairs = pairs;
    }

    /// The environment that `pairs` spell, the last pair of a name winning.
    pub fn from_pairs(pairs: &Vec<(String, String)>) -> (env: Environment)
        ensures
            env@ == last_of_each(spelled(pairs@)),
    {
        let mut env = Environment::new();
        let mut i: usize = 0;
        let ghost all = spelled(pairs@);
        assert(all.take(0) =~= Seq::empty());
        while i < pairs.len()
            invariant
                i <= pairs.len(),
                env@ == last_of_each(all.take(i as int)),
                all == spelled(pairs@),
            decreases pairs.len() - i,
        {
            assert(all.take(i + 1).drop_last() =~= all.take(i as int));
            assert(all.take(i + 1).last() == (pairs@[i as int].0@, pairs@[i as int].1@));
            env.set(pairs[i].0.clone(), pairs[i].1.clone());
            i = i + 1;
        }
        assert(all.take(i as int) =~= all);
        env
    }

    /// The variables as a list of pairs, in the order of the names.
    pub fn pairs(&self) -> (pairs: &Vec<(String, String)>)
        ensures
            last_of_each(spelled(pairs@)) == self@,
            ascending(spelled(pairs@)),
    {
        proof {
            use_type_invariant(self);
        }
        &self.pairs
    }
}

/// Leaving out one pair changes nothing that its name's next value would not hide.
proof fn lemma_without_one(pairs: Seq<(Seq<char>, Seq<char>)>, i: int, value: Seq<char>)
    requires
        0 <= i < pairs.len(),
    ensures
        last_of_each(pairs.remove(i)).insert(pairs[i].0, value) == last_of_each(pairs).insert(
            pairs[i].0,
            value,
        ),
    decreases pairs.len(),
{
    let name = pairs[i].0;
    let front = pairs.drop_last();
    if i == pairs.len() - 1 {
        assert(pairs.remove(i) =~= front);
        assert(last_of_each(front).insert(name, value) =~= last_of_each(pairs).insert(name, value));
    } else {
        lemma_without_one(front, i, value);
        let kept = pairs.remove(i);
        assert(kept.drop_last() =~= front.remove(i));
        assert(kept.last() == pairs.last());
        let less = last_of_each(front.remove(i));
        let more = last_of_each(front);
        assert(less.insert(name, value) == more.insert(name, value));
        let last = pairs.last();
        let less_after = less.insert(last.0, last.1).insert(name, value);
        let more_after = more.insert(last.0, last.1).insert(name, value);
        assert forall|key: Seq<char>| #[trigger]
            less_after.dom().contains(key) <==> more_after.dom().contains(key) by {
            assert(less.insert(name, value).dom().contains(key) == more.insert(
                name,
                value,
            ).dom().contains(key));
        }
        assert forall|key: Seq<char>| less_after.dom().contains(key) implies #[trigger] less_after[key]
            == more_after[key] by {
            assert(less.insert(name, value)[key] == more.insert(name, value)[key]);
        }
        assert(less_after =~= more_after);
    }
}

/// A pair of a new name adds that name, wherever in the list it goes.
proof fn lemma_with_one_more(pairs: Seq<(Seq<char>, Seq<char>)>, i: int, pair: (Seq<char>, Seq<char>))
    requires
        0 <= i <= pairs.len(),
        forall|j: int| 0 <= j < pairs.len() ==> (#[trigger] pairs[j]).0 != pair.0,
    ensures
        last_of_each(pairs.insert(i, pair)) == last_of_each(pairs).insert(pair.0, pair.1),
    decreases pairs.len(),
{
    let more = pairs.insert(i, pair);
    if i == pairs.len() {
        assert(more.drop_last() =~= pairs);
    } else {
        let front = pairs.drop_last();
        assert forall|j: int| 0 <= j < front.len() implies (#[trigger] front[j]).0 != pair.0 by {
            assert(front[j] == pairs[j]);
        }
        lemma_with_one_more(front, i, pair);
        assert(more.drop_last() =~= front.insert(i, pair));
        assert(more.last() == pairs.last());
        let last = pairs[pairs.len() - 1];
        assert(last_of_each(front).insert(pair.0, pair.1).insert(last.0, last.1)
            =~= last_of_each(front).insert(last.0, last.1).insert(pair.0, pair.1));
    }
}

/// Of several pairs of one name the last one counts.
pub proof fn law_the_last_of_a_name_wins(pairs: Seq<(Seq<char>, Seq<char>)>, i: int)
    requires
        0 <= i < pairs.len(),
        forall|j: int| i < j < pairs.len() ==> (#[trigger] pairs[j]).0 != pairs[i].0,
    ensures
        last_of_each(pairs).contains_pair(pairs[i].0, pairs[i].1),
    decreases pairs.len(),
{
    if i < pairs.len() - 1 {
        let front = pairs.drop_last();
        assert(front[i] == pairs[i]);
        assert forall|j: int| i < j < front.len() implies (#[trigger] front[j]).0
            != front[i].0 by {
            assert(front[j] == pairs[j]);
        }
        law_the_last_of_a_name_wins(front, i);
        assert(pairs[pairs.len() - 1].0 != pairs[i].0);
    }
}

/// Of the names that were given each one has a value, and no other name has.
pub proof fn law_only_given_names_have_values(
    pairs: Seq<(Seq<char>, Seq<char>)>,
    name: Seq<char>,
)
    ensures
        last_of_each(pairs).dom().contains(name) <==> exists|i: int|
            0 <= i < pairs.len() && (#[trigger] pairs[i]).0 == name,
    decreases pairs.len(),
{
    if pairs.len() > 0 {
        let front = pairs.drop_last();
        law_only_given_names_have_values(front, name);
        if last_of_each(pairs).dom().contains(name) {
            if pairs.last().0 == name {
                assert(pairs[pairs.len() - 1].0 == name);
            } else {
                let i = choose|i: int| 0 <= i < front.len() && (#[trigger] front[i]).0 == name;
                assert(pairs[i].0 == name);
            }
        }
        if exists|i: int| 0 <= i < pairs.len() && (#[trigger] pairs[i]).0 == name {
            let i = choose|i: int| 0 <= i < pairs.len() && (#[trigger] pairs[i]).0 == name;
            if i < pairs.len() - 1 {
                assert(front[i].0 == name);
            }
        }
    }
}

/// One text comes before another where it is the other's beginning, or where it has the smaller
/// character at the first place at which they differ.
pub proof fn law_texts_are_ordered_by_the_first_difference(one: Seq<char>, other: Seq<char>, i: int)
    requires
        0 <= i <= one.len(),
        0 <= i <= other.len(),
        forall|j: int| 0 <= j < i ==> one[j] == other[j],
        i < one.len() && i < other.len() ==> one[i] != other[i],
    ensures
        i < one.len() && i < other.len() ==> (precedes(one, other) <==> one[i] < other[i]),
        i == one.len() ==> (precedes(one, other) <==> one.len() < other.len()),
        i == other.len() ==> !precedes(one, other),
    decreases i,
{
    if i > 0 {
        let shorter = one.drop_first();
        let other_shorter = other.drop_first();
        assert forall|j: int| 0 <= j < i - 1 implies shorter[j] == other_shorter[j] by {
            assert(one[j + 1] == other[j + 1]);
        }
        law_texts_are_ordered_by_the_first_difference(shorter, other_shorter, i - 1);
    }
}

/// The variables of an environment come in the order of their names, so that none comes twice.
pub proof fn law_names_that_ascend_differ(
    pairs: Seq<(Seq<char>, Seq<char>)>,
    i: int,
    j: int,
)
    requires
        0 <= i < j < pairs.len(),
        ascending(pairs),
    ensures
        precedes(pairs[i].0, pairs[j].0),
        pairs[i].0 != pairs[j].0,
{
    lemma_order_is_total(pairs[i].0, pairs[j].0);
    assert(precedes(pairs[i].0, pairs[j].0));
}

} // verus!
