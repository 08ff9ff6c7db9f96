//! A user's directory record and its normal form.

use crate::attributes::{
    as_map, distinct_names, lemma_lookup, lemma_position, lemma_put, lookup, position, put,
    NormalizedAttributes,
};
use vstd::prelude::*;

verus! {

/// A user as the directory returns it.
#[derive(Clone, Debug, PartialEq, Eq)]
pub struct UserProfile {
    /// When the user was created: seconds since the epoch, written as a
    /// decimal number.
    pub user_create_date: String,
    /// When the user was last changed, written likewise.
    pub user_last_modified_date: String,
    /// Whether the user may sign in.
    pub enabled: bool,
    /// The label of the user's status, such as `CONFIRMED`.
    pub user_status: String,
    /// The user's own attributes, by name, in the directory's order.
    pub attributes: Vec<(String, String)>,
}

/// What a [`UserProfile`] holds.
pub struct UserProfileView {
    pub user_create_date: Seq<char>,
    pub user_last_modified_date: Seq<char>,
    pub enabled: bool,
    pub user_status: Seq<char>,
    pub attributes: Seq<(Seq<char>, Seq<char>)>,
}

impl View for UserProfile {
    type V = UserProfileView;

    open spec fn view(&self) -> UserProfileView {
        UserProfileView {
            user_create_date: self.user_create_date@,
            user_last_modified_date: self.user_last_modified_date@,
            enabled: self.enabled,
            user_status: self.user_status@,
            attributes: self.attributes.deep_view(),
        }
    }
}

impl DeepView for UserProfile {
    type V = UserProfileView;

    open spec fn deep_view(&self) -> UserProfileView {
        self@
    }
}

/// `true` or `false`, spelled out.
pub open spec fn bool_text(flag: bool) -> Seq<char> {
    if flag {
        "true"@
    } else {
        "false"@
    }
}

/// The four entries that every normal form starts from.
pub open spec fn fixed_pairs(user: UserProfileView) -> Seq<(Seq<char>, Seq<char>)> {
    seq![
        ("user_create_date"@, user.user_create_date),
        ("user_last_modified_date"@, user.user_last_modified_date),
        ("enabled"@, bool_text(user.enabled)),
        ("user_status"@, user.user_status),
    ]
}

/// `base` with each of `pairs` set in turn, so that a later pair wins over
/// an earlier one and over `base`.
pub open spec fn overlay(base: Seq<(Seq<char>, Seq<char>)>, pairs: Seq<(Seq<char>, Seq<char>)>) -> Seq<
    (Seq<char>, Seq<char>),
>
    decreases pairs.len(),
{
    if pairs.len() == 0 {
        base
    } else {
        put(overlay(base, pairs.drop_last()), pairs.last().0, pairs.last().1)
    }
}

/// The normal form of a user: the fixed entries, overlaid with the user's
/// own attributes.
pub open spec fn normalized(user: UserProfileView) -> Seq<(Seq<char>, Seq<char>)> {
    overlay(Seq::empty(), fixed_pairs(user) + user.attributes)
}

/// `true` or `false`, spelled out.
pub fn bool_to_text(flag: bool) -> (text: String)
    ensures
        text@ == bool_text(flag),
{
    if flag {
        "true".to_owned()
    } else {
        "false".to_owned()
    }
}

/// One flat mapping for a user: `user_create_date`, `user_last_modified_date`,
/// `enabled` and `user_status` from the record itself, then every attribute
/// of the user under its own name. An attribute called like one of the four
/// replaces it.
pub fn normalize_cognito_user_attributes(user: &UserProfile) -> (attributes: NormalizedAttributes)
    ensures
        attributes@ == normalized(user@),
{
    let ghost all = fixed_pairs(user@) + user.attributes.deep_view();
    let ghost none = Seq::<(Seq<char>, Seq<char>)>::empty();
    let mut attributes = NormalizedAttributes::new();
    proof {
        assert(all.take(1).drop_last() =~= all.take(0));
        assert(all.take(2).drop_last() =~= all.take(1));
        assert(all.take(3).drop_last() =~= all.take(2));
        assert(all.take(4).drop_last() =~= all.take(3));
        assert(overlay(none, all.take(0)) == none);
    }
    attributes.insert("user_create_date".to_owned(), user.user_create_date.clone());
    assert(attributes@ == overlay(none, all.take(1)));
    attributes.insert("user_last_modified_date".to_owned(), user.user_last_modified_date.clone());
    assert(attributes@ == overlay(none, all.take(2)));
    attributes.insert("enabled".to_owned(), bool_to_text(user.enabled));
    assert(attributes@ == overlay(none, all.take(3)));
    attributes.insert("user_status".to_owned(), user.user_status.clone());
    assert(attributes@ == overlay(none, all.take(4)));
    let mut i: usize = 0;
    while i < user.attributes.len()
        invariant
            i <= user.attributes.len(),
            all == fixed_pairs(user@) + user.attributes.deep_view(),
            attributes@ == overlay(none, all.take(4 + i)),
        decreases user.attributes.len() - i,
    {
        let name = user.attributes[i].0.clone();
        let value = user.attributes[i].1.clone();
        proof {
            assert(all.take(4 + i + 1).drop_last() =~= all.take(4 + i));
        }
        attributes.insert(name, value);
        i = i + 1;
    }
    proof {
        assert(all.take(4 + i) =~= all);
    }
    attributes
}

/// Looking a name up in two lists joined: the second list wins.
pub proof fn lemma_lookup_joined(
    first: Seq<(Seq<char>, Seq<char>)>,
    second: Seq<(Seq<char>, Seq<char>)>,
    name: Seq<char>,
)
    ensures
        lookup(first + second, name) == if lookup(second, name) is Some {
            lookup(second, name)
        } else {
            lookup(first, name)
        },
    decreases second.len(),
{
    if second.len() > 0 {
        assert((first + second).drop_last() =~= first + second.drop_last());
        lemma_lookup_joined(first, second.drop_last(), name);
    }
}

/// An overlay keeps names distinct, and under each name holds the last
/// value that `pairs` give it, or else the value of `base`.
pub proof fn lemma_overlay(
    base: Seq<(Seq<char>, Seq<char>)>,
    pairs: Seq<(Seq<char>, Seq<char>)>,
    name: Seq<char>,
)
    requires
        distinct_names(base),
    ensures
        distinct_names(overlay(base, pairs)),
        lookup(overlay(base, pairs), name) == if lookup(pairs, name) is Some {
            lookup(pairs, name)
        } else {
            lookup(base, name)
        },
    decreases pairs.len(),
{
    if pairs.len() > 0 {
        lemma_overlay(base, pairs.drop_last(), name);
        lemma_put(overlay(base, pairs.drop_last()), pairs.last().0, pairs.last().1);
    }
}

/// In the normal form a name holds the value of the user's own attribute of
/// that name, the last one if there are several; without such an attribute
/// it holds what the record itself gives under that name, if anything.
pub proof fn lemma_own_attribute_wins(user: UserProfileView, name: Seq<char>)
    ensures
        distinct_names(normalized(user)),
        lookup(normalized(user), name) == if lookup(user.attributes, name) is Some {
            lookup(user.attributes, name)
        } else {
            lookup(fixed_pairs(user), name)
        },
{
    let none = Seq::<(Seq<char>, Seq<char>)>::empty();
    lemma_overlay(none, fixed_pairs(user) + user.attributes, name);
    lemma_lookup_joined(fixed_pairs(user), user.attributes, name);
}

/// What the record itself gives under each of the four fixed names.
pub proof fn lemma_fixed_pairs(user: UserProfileView)
    ensures
        distinct_names(fixed_pairs(user)),
        lookup(fixed_pairs(user), "user_create_date"@) == Some(user.user_create_date),
        lookup(fixed_pairs(user), "user_last_modified_date"@) == Some(
            user.user_last_modified_date,
        ),
        lookup(fixed_pairs(user), "enabled"@) == Some(bool_text(user.enabled)),
        lookup(fixed_pairs(user), "user_status"@) == Some(user.user_status),
{
    reveal_strlit("user_create_date");
    reveal_strlit("user_last_modified_date");
    reveal_strlit("enabled");
    reveal_strlit("user_status");
    let fixed = fixed_pairs(user);
    assert("user_create_date"@[5] != "user_last_modified_date"@[5]);
    assert("user_create_date"@[0] != "enabled"@[0]);
    assert("user_create_date"@[5] != "user_status"@[5]);
    assert("user_last_modified_date"@[0] != "enabled"@[0]);
    assert("user_last_modified_date"@[5] != "user_status"@[5]);
    assert("enabled"@[0] != "user_status"@[0]);
    assert(distinct_names(fixed));
    lemma_lookup(fixed, "user_create_date"@);
    lemma_lookup(fixed, "user_last_modified_date"@);
    lemma_lookup(fixed, "enabled"@);
    lemma_lookup(fixed, "user_status"@);
}

/// Every normal form has the four fixed names. Each holds the record's own
/// value unless the user has an attribute of that name, whose value then
/// stands in its place.
pub proof fn lemma_fixed_names_present(user: UserProfileView, name: Seq<char>)
    requires
        name == "user_create_date"@ || name == "user_last_modified_date"@ || name == "enabled"@
            || name == "user_status"@,
    ensures
        as_map(normalized(user)).contains_key(name),
        lookup(user.attributes, name) is Some ==> as_map(normalized(user))[name] == lookup(
            user.attributes,
            name,
        )->0,
        lookup(user.attributes, name) is None ==> as_map(normalized(user))[name] == lookup(
            fixed_pairs(user),
            name,
        )->0,
        lookup(fixed_pairs(user), name) is Some,
{
    lemma_fixed_pairs(user);
    lemma_own_attribute_wins(user, name);
}

/// The order of a user's attributes does not matter to the mapping, as
/// long as no two of them share a name: two users that differ only in that
/// order have the same normal form, name by name.
pub proof fn lemma_order_independent(first: UserProfileView, second: UserProfileView)
    requires
        first.user_create_date == second.user_create_date,
        first.user_last_modified_date == second.user_last_modified_date,
        first.enabled == second.enabled,
        first.user_status == second.user_status,
        first.attributes.to_multiset() == second.attributes.to_multiset(),
        distinct_names(first.attributes),
    ensures
        as_map(normalized(first)) == as_map(normalized(second)),
{
    assert forall|name: Seq<char>| lookup(normalized(first), name) == lookup(
        normalized(second),
        name,
    ) by {
        lemma_own_attribute_wins(first, name);
        lemma_own_attribute_wins(second, name);
        lemma_same_entries(first.attributes, second.attributes, name);
    }
}

/// A list in which no name occurs twice keeps that property however its
/// entries are rearranged.
pub proof fn lemma_rearranged_names_stay_distinct(
    first: Seq<(Seq<char>, Seq<char>)>,
    second: Seq<(Seq<char>, Seq<char>)>,
)
    requires
        first.to_multiset() == second.to_multiset(),
        distinct_names(first),
    ensures
        distinct_names(second),
{
    assert forall|i: int, j: int| 0 <= i < j < second.len() implies (#[trigger] second[i]).0 != (
    #[trigger] second[j]).0 by {
        if second[i].0 == second[j].0 {
            first.to_multiset_ensures();
            second.to_multiset_ensures();
            assert(second.contains(second[i]));
            assert(second.contains(second[j]));
            assert(first.to_multiset().count(second[i]) > 0);
            assert(first.to_multiset().count(second[j]) > 0);
            assert(first.contains(second[i]));
            assert(first.contains(second[j]));
            let p = choose|p: int| 0 <= p < first.len() && first[p] == second[i];
            let q = choose|q: int| 0 <= q < first.len() && first[q] == second[j];
            assert(first[p].0 == first[q].0);
            assert(p == q);
            let first_rest = first.remove(p);
            let second_rest = second.remove(i);
            first_rest.to_multiset_ensures();
            second_rest.to_multiset_ensures();
            assert(first_rest.to_multiset() == second_rest.to_multiset());
            assert(second_rest[j - 1] == second[j]);
            assert(second_rest.contains(second[j]));
            assert(first_rest.to_multiset().count(second[j]) > 0);
            assert(first_rest.contains(second[j]));
            let r = choose|r: int| 0 <= r < first_rest.len() && first_rest[r] == second[j];
            let twin = if r < p {
                r
            } else {
                r + 1
            };
            assert(first_rest[r] == first[twin]);
            assert(first[twin] == first[p]);
        }
    }
}

/// Two lists with the same entries and no name twice hold the same value
/// under every name.
pub proof fn lemma_same_entries(
    first: Seq<(Seq<char>, Seq<char>)>,
    second: Seq<(Seq<char>, Seq<char>)>,
    name: Seq<char>,
)
    requires
        first.to_multiset() == second.to_multiset(),
        distinct_names(first),
    ensures
        lookup(first, name) == lookup(second, name),
{
    lemma_rearranged_names_stay_distinct(first, second);
    first.to_multiset_ensures();
    second.to_multiset_ensures();
    lemma_lookup(first, name);
    lemma_lookup(second, name);
    lemma_position(first, name, 0);
    lemma_position(second, name, 0);
    if lookup(first, name) is Some {
        let at = position(first, name, 0);
        let entry = first[at];
        assert(first.contains(entry));
        assert(second.to_multiset().count(entry) > 0);
        assert(second.contains(entry));
        let there = choose|j: int| 0 <= j < second.len() && second[j] == entry;
        assert(second[there].0 == name);
    } else if lookup(second, name) is Some {
        let at = position(second, name, 0);
        let entry = second[at];
        assert(second.contains(entry));
        assert(first.to_multiset().count(entry) > 0);
        assert(first.contains(entry));
        let there = choose|j: int| 0 <= j < first.len() && first[j] == entry;
        assert(first[there].0 == name);
    }
}

} // verus!
