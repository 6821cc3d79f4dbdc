use vstd::prelude::*;

use crate::config::{
    validate, ConfigError, GitUser, GitUserEmailAddress, GitUserName, IdentityField,
    LoadedConfiguration,
};
use crate::text::{
    is_blank, lemma_precedes_irreflexive, lemma_precedes_total, lemma_precedes_transitive,
    precedes, text_precedes,
};

verus! {

/// The map that inserting the pairs of `s` one after the other gives: where a
/// key repeats, the last pair wins.
pub open spec fn map_of<V>(s: Seq<(Seq<char>, V)>) -> Map<Seq<char>, V>
    decreases s.len(),
{
    if s.len() == 0 {
        Map::empty()
    } else {
        map_of(s.drop_last()).insert(s.last().0, s.last().1)
    }
}

/// The keys of `s` that `map_of(s)` holds are exactly those that occur in `s`.
pub proof fn lemma_map_of_keys<V>(s: Seq<(Seq<char>, V)>, k: Seq<char>)
    ensures
        map_of(s).contains_key(k) <==> exists|i: int| 0 <= i < s.len() && s[i].0 == k,
    decreases s.len(),
{
    if s.len() > 0 {
        lemma_map_of_keys(s.drop_last(), k);
        if map_of(s.drop_last()).contains_key(k) {
            let i = choose|i: int| 0 <= i < s.drop_last().len() && s.drop_last()[i].0 == k;
            assert(s[i].0 == k);
        }
        if exists|i: int| 0 <= i < s.len() && s[i].0 == k {
            let i = choose|i: int| 0 <= i < s.len() && s[i].0 == k;
            if i < s.len() - 1 {
                assert(s.drop_last()[i].0 == k);
            }
        }
    }
}

/// Where the keys of `s` are distinct, `map_of(s)` maps each to its own value.
pub proof fn lemma_map_of_values<V>(s: Seq<(Seq<char>, V)>, i: int)
    requires
        0 <= i < s.len(),
        forall|a: int, b: int| 0 <= a < b < s.len() ==> s[a].0 != s[b].0,
    ensures
        map_of(s).contains_key(s[i].0),
        map_of(s)[s[i].0] == s[i].1,
    decreases s.len(),
{
    if i < s.len() - 1 {
        assert(s.drop_last()[i] == s[i]);
        lemma_map_of_values(s.drop_last(), i);
        assert(s[i].0 != s[s.len() - 1].0);
    }
}

/// One identity of the catalog.
pub struct CatalogEntry {
    pub name: GitUserName,
    pub email: GitUserEmailAddress,
    pub description: Option<String>,
}

/// The description as listed: empty where there is none.
pub open spec fn description_text(d: Option<String>) -> Seq<char> {
    match d {
        Some(s) => s@,
        None => Seq::empty(),
    }
}

/// A record as the catalog sees it: its name, and its email and description.
pub open spec fn record_view(u: GitUser) -> (Seq<char>, (Seq<char>, Seq<char>)) {
    (u.name@, (u.email@, description_text(u.description)))
}

pub open spec fn entry_view(e: CatalogEntry) -> (Seq<char>, (Seq<char>, Seq<char>)) {
    (e.name@, (e.email@, description_text(e.description)))
}

/// The listed row of a record: name, email and description.
pub open spec fn user_row(u: GitUser) -> Seq<Seq<char>> {
    seq![u.name@, u.email@, description_text(u.description)]
}

/// The listed row of the name `k` of a catalog `m`.
pub open spec fn catalog_row(m: Map<Seq<char>, (Seq<char>, Seq<char>)>, k: Seq<char>) -> Seq<
    Seq<char>,
> {
    seq![k, m[k].0, m[k].1]
}

/// `names` lists the names of the catalog `m`, strictly ascending.
pub open spec fn sorted_names_of(
    names: Seq<Seq<char>>,
    m: Map<Seq<char>, (Seq<char>, Seq<char>)>,
) -> bool {
    &&& forall|i: int, j: int| 0 <= i < j < names.len() ==> precedes(names[i], names[j])
    &&& forall|k: Seq<char>| m.contains_key(k) <==> names.contains(k)
}

/// Whether a record passes `validate`.
pub open spec fn record_is_valid(u: GitUser) -> bool {
    !is_blank(u.name@) && !is_blank(u.email@)
}

/// The error that `validate` gives for an invalid record.
pub open spec fn record_error(u: GitUser) -> ConfigError {
    if is_blank(u.name@) {
        ConfigError::InvalidIdentity(IdentityField::Name)
    } else {
        ConfigError::InvalidIdentity(IdentityField::Email)
    }
}

/// Whether every record passes `validate`.
pub open spec fn all_records_valid(users: Seq<GitUser>) -> bool {
    forall|i: int| 0 <= i < users.len() ==> record_is_valid(#[trigger] users[i])
}

/// The catalog that the records give, name by name, the last record of a name
/// winning.
pub open spec fn catalog_of(users: Seq<GitUser>) -> Map<Seq<char>, (Seq<char>, Seq<char>)> {
    map_of(users.map_values(|u: GitUser| record_view(u)))
}

/// The validated identities of one invocation, sorted by name without
/// duplicates. Its view maps each name to its email and description.
pub struct ConfiguredGitUsers {
    entries: Vec<CatalogEntry>,
}

impl View for ConfiguredGitUsers {
    type V = Map<Seq<char>, (Seq<char>, Seq<char>)>;

    open spec fn view(&self) -> Map<Seq<char>, (Seq<char>, Seq<char>)> {
        map_of(self.pairs())
    }
}

impl ConfiguredGitUsers {
    pub closed spec fn pairs(&self) -> Seq<(Seq<char>, (Seq<char>, Seq<char>))> {
        self.entries@.map_values(|e: CatalogEntry| entry_view(e))
    }

    /// The names, in the catalog's order.
    pub open spec fn names(&self) -> Seq<Seq<char>> {
        self.pairs().map_values(|p: (Seq<char>, (Seq<char>, Seq<char>))| p.0)
    }

    /// Names strictly increase, so none repeats; no name or email is blank.
    pub open spec fn wf(&self) -> bool {
        &&& forall|i: int, j: int|
            0 <= i < j < self.names().len() ==> precedes(self.names()[i], self.names()[j])
        &&& forall|k: Seq<char>| #[trigger]
            self@.contains_key(k) ==> !is_blank(k) && !is_blank(self@[k].0)
        &&& forall|k: Seq<char>| self@.contains_key(k) <==> self.names().contains(k)
    }

    proof fn lemma_pairs_distinct(&self)
        requires
            self.wf(),
        ensures
            forall|a: int, b: int|
                0 <= a < b < self.pairs().len() ==> self.pairs()[a].0 != self.pairs()[b].0,
    {
        assert forall|a: int, b: int| 0 <= a < b < self.pairs().len() implies self.pairs()[a].0
            != self.pairs()[b].0 by {
            assert(self.names()[a] == self.pairs()[a].0 && self.names()[b] == self.pairs()[b].0);
            lemma_precedes_irreflexive(self.pairs()[a].0);
        }
    }

    /// The identities as records, sorted by name.
    pub fn to_users(&self) -> (r: Vec<GitUser>)
        requires
            self.wf(),
        ensures
            sorted_names_of(self.names(), self@),
            r@.map_values(|u: GitUser| user_row(u)) == self.names().map_values(
                |k: Seq<char>| catalog_row(self@, k),
            ),
    {
        proof {
            self.lemma_pairs_distinct();
        }
        let ghost pairs = self.pairs();
        let mut r: Vec<GitUser> = Vec::new();
        let mut i: usize = 0;
        while i < self.entries.len()
            invariant
                i <= self.entries@.len(),
                pairs == self.pairs(),
                pairs.len() == self.entries@.len(),
                forall|a: int, b: int| 0 <= a < b < pairs.len() ==> pairs[a].0 != pairs[b].0,
                r@.len() == i,
                forall|j: int|
                    0 <= j < i ==> #[trigger] user_row(r@[j]) == catalog_row(self@, pairs[j].0),
            decreases self.entries@.len() - i,
        {
            let e = &self.entries[i];
            let description = match &e.description {
                Some(d) => Some(d.clone()),
                None => None,
            };
            let u = GitUser { name: e.name.0.clone(), email: e.email.0.clone(), description };
            proof {
                assert(pairs[i as int] == entry_view(self.entries@[i as int]));
                lemma_map_of_values(pairs, i as int);
                assert(user_row(u) =~= catalog_row(self@, pairs[i as int].0));
            }
            r.push(u);
            i = i + 1;
        }
        proof {
            assert forall|j: int| 0 <= j < r@.len() implies self.names()[j] == pairs[j].0 by {}
            assert(r@.map_values(|u: GitUser| user_row(u)) =~= self.names().map_values(
                |k: Seq<char>| catalog_row(self@, k),
            ));
        }
        r
    }

    /// The empty catalog.
    pub fn new() -> (r: ConfiguredGitUsers)
        ensures
            r.wf(),
            r@ == Map::<Seq<char>, (Seq<char>, Seq<char>)>::empty(),
    {
        let r = ConfiguredGitUsers { entries: Vec::new() };
        assert(r.pairs() =~= Seq::empty());
        assert(r.names() =~= Seq::empty());
        r
    }

    /// Adds one identity; an entry of the same name is replaced.
    pub fn insert(
        &mut self,
        name: GitUserName,
        email: GitUserEmailAddress,
        description: Option<String>,
    )
        requires
            old(self).wf(),
            !is_blank(name@),
            !is_blank(email@),
        ensures
            final(self).wf(),
            final(self)@ == old(self)@.insert(name@, (email@, description_text(description))),
    {
        let ghost old_pairs = self.pairs();
        let ghost old_names = self.names();
        let ghost key = name@;
        let ghost val = (email@, description_text(description));
        proof {
            assert forall|a: int, b: int| 0 <= a < b < old_pairs.len() implies old_pairs[a].0
                != old_pairs[b].0 by {
                assert(old_names[a] == old_pairs[a].0 && old_names[b] == old_pairs[b].0);
                lemma_precedes_irreflexive(old_pairs[a].0);
            }
        }
        let n = self.entries.len();
        let mut i: usize = 0;
        let mut before = n > 0 && text_precedes(self.entries[0].name.0.as_str(), name.0.as_str());
        proof {
            if n > 0 {
                assert(old_names[0] == self.entries@[0].name@);
            }
        }
        while before
            invariant
                n == self.entries@.len(),
                i <= n,
                self.pairs() == old_pairs,
                self.names() == old_names,
                old_names.len() == n,
                name@ == key,
                forall|j: int| 0 <= j < i ==> precedes(old_names[j], key),
                before ==> i < n && precedes(old_names[i as int], key),
                !before ==> i == n || !precedes(old_names[i as int], key),
            decreases n - i,
        {
            i = i + 1;
            before = i < n && text_precedes(self.entries[i].name.0.as_str(), name.0.as_str());
            proof {
                if i < n {
                    assert(old_names[i as int] == self.entries@[i as int].name@);
                }
            }
        }
        let replace = i < n && !text_precedes(name.0.as_str(), self.entries[i].name.0.as_str());
        let ghost pos = i as int;
        proof {
            if pos < n {
                assert(old_names[pos] == self.entries@[pos].name@);
            }
            if replace {
                if old_names[pos] != key {
                    lemma_precedes_total(old_names[pos], key);
                }
            }
        }
        let entry = CatalogEntry { name, email, description };
        if replace {
            self.entries.set(i, entry);
            proof {
                assert(self.pairs() =~= old_pairs.update(pos, (key, val)));
                assert(self.names() =~= old_names);
            }
        } else {
            self.entries.insert(i, entry);
            proof {
                assert(self.pairs() =~= old_pairs.insert(pos, (key, val)));
                assert(self.names() =~= old_names.insert(pos, key));
                if pos < n {
                    lemma_precedes_total(old_names[pos], key);
                }
            }
        }
        let ghost new_pairs = self.pairs();
        let ghost new_names = self.names();
        proof {
            // the names still strictly increase
            assert forall|a: int, b: int| 0 <= a < b < new_names.len() implies precedes(
                new_names[a],
                new_names[b],
            ) by {
                if !replace {
                    if b == pos {
                    } else if a == pos {
                        assert(new_names[b] == old_names[b - 1]);
                        if b - 1 > pos {
                            lemma_precedes_transitive(key, old_names[pos], old_names[b - 1]);
                        }
                    } else if a < pos && b > pos {
                        assert(new_names[b] == old_names[b - 1]);
                        assert(precedes(old_names[a], key));
                        lemma_precedes_transitive(old_names[a], key, old_names[pos]);
                        if b - 1 > pos {
                            lemma_precedes_transitive(
                                old_names[a],
                                old_names[pos],
                                old_names[b - 1],
                            );
                        }
                    } else if a > pos {
                        assert(new_names[a] == old_names[a - 1]);
                        assert(new_names[b] == old_names[b - 1]);
                    }
                }
            }
            assert forall|a: int, b: int| 0 <= a < b < new_pairs.len() implies new_pairs[a].0
                != new_pairs[b].0 by {
                assert(new_names[a] == new_pairs[a].0 && new_names[b] == new_pairs[b].0);
                lemma_precedes_irreflexive(new_pairs[a].0);
            }
            let target = old(self)@.insert(key, val);
            assert forall|k: Seq<char>| #[trigger] self@.contains_key(k) == target.contains_key(k)
                && (self@.contains_key(k) ==> self@[k] == target[k]) by {
                lemma_map_of_keys(new_pairs, k);
                lemma_map_of_keys(old_pairs, k);
                if self@.contains_key(k) {
                    let j = choose|j: int| 0 <= j < new_pairs.len() && new_pairs[j].0 == k;
                    lemma_map_of_values(new_pairs, j);
                    if k != key {
                        let oj = if replace || j < pos {
                            j
                        } else {
                            j - 1
                        };
                        assert(old_pairs[oj] == new_pairs[j]);
                        lemma_map_of_values(old_pairs, oj);
                    } else {
                        assert(new_pairs[pos] == (key, val));
                        lemma_map_of_values(new_pairs, pos);
                    }
                }
                if target.contains_key(k) && k != key {
                    let j = choose|j: int| 0 <= j < old_pairs.len() && old_pairs[j].0 == k;
                    let nj = if replace || j < pos {
                        j
                    } else {
                        j + 1
                    };
                    assert(new_pairs[nj] == old_pairs[j]);
                }
                if k == key {
                    assert(new_pairs[pos].0 == key);
                }
            }
            assert(self@ =~= target);
            assert forall|k: Seq<char>| self@.contains_key(k) <==> new_names.contains(k) by {
                lemma_map_of_keys(new_pairs, k);
                if new_names.contains(k) {
                    let j = choose|j: int| 0 <= j < new_names.len() && new_names[j] == k;
                    assert(new_pairs[j].0 == k);
                }
                if self@.contains_key(k) {
                    let j = choose|j: int| 0 <= j < new_pairs.len() && new_pairs[j].0 == k;
                    assert(new_names[j] == k);
                }
            }
        }
    }

    /// Builds the catalog from the loaded records, in order, so that the last
    /// record of a name wins. Fails on the first record that `validate`
    /// refuses, with its error.
    pub fn try_from(config: LoadedConfiguration) -> (r: Result<ConfiguredGitUsers, ConfigError>)
        ensures
            r is Ok <==> all_records_valid(config.users@),
            r is Ok ==> r->Ok_0.wf() && r->Ok_0@ == catalog_of(config.users@),
            r is Err ==> exists|i: int|
                0 <= i < config.users@.len() && !record_is_valid(config.users@[i]) && (forall|
                    j: int,
                | 0 <= j < i ==> record_is_valid(#[trigger] config.users@[j])) && r->Err_0
                    == record_error(config.users@[i]),
    {
        let users = &config.users;
        let ghost records = users@.map_values(|u: GitUser| record_view(u));
        let mut catalog = ConfiguredGitUsers::new();
        let mut i: usize = 0;
        while i < users.len()
            invariant
                i <= users@.len(),
                users@ == config.users@,
                records == users@.map_values(|u: GitUser| record_view(u)),
                catalog.wf(),
                catalog@ == map_of(records.take(i as int)),
                forall|j: int| 0 <= j < i ==> record_is_valid(#[trigger] users@[j]),
            decreases users@.len() - i,
        {
            let u = &users[i];
            let description = match &u.description {
                Some(d) => Some(d.clone()),
                None => None,
            };
            match validate(u.name.clone(), u.email.clone()) {
                Ok((name, email)) => {
                    catalog.insert(name, email, description);
                    proof {
                        assert(records.take(i + 1).drop_last() =~= records.take(i as int));
                    }
                },
                Err(e) => {
                    proof {
                        assert(!record_is_valid(users@[i as int]));
                        assert(e == record_error(users@[i as int]));
                        assert(0 <= i < config.users@.len() && !record_is_valid(config.users@[i as int])
                            && (forall|j: int| 0 <= j < i ==> record_is_valid(#[trigger] config.users@[j]))
                            && e == record_error(config.users@[i as int]));
                    }
                    return Err(e);
                },
            }
            i = i + 1;
        }
        proof {
            assert(records.take(i as int) =~= records);
        }
        Ok(catalog)
    }

    /// The names, sorted ascending, each once.
    pub fn enumerate(&self) -> (r: Vec<GitUserName>)
        requires
            self.wf(),
        ensures
            r@.map_values(|n: GitUserName| n@) == self.names(),
            forall|i: int, j: int| 0 <= i < j < r@.len() ==> precedes(r@[i]@, r@[j]@),
            forall|i: int, j: int| 0 <= i < j < r@.len() ==> r@[i]@ != r@[j]@,
    {
        let mut r: Vec<GitUserName> = Vec::new();
        let mut i: usize = 0;
        while i < self.entries.len()
            invariant
                i <= self.entries@.len(),
                self.names().len() == self.entries@.len(),
                r@.len() == i,
                forall|j: int| 0 <= j < i ==> #[trigger] r@[j]@ == self.names()[j],
            decreases self.entries@.len() - i,
        {
            r.push(GitUserName(self.entries[i].name.0.clone()));
            proof {
                assert(self.names()[i as int] == self.entries@[i as int].name@);
            }
            i = i + 1;
        }
        proof {
            let names = self.names();
            assert(r@.map_values(|n: GitUserName| n@) =~= names);
            assert forall|a: int, b: int| 0 <= a < b < r@.len() implies r@[a]@ != r@[b]@ by {
                assert(r@[a]@ == names[a] && r@[b]@ == names[b]);
                lemma_precedes_irreflexive(names[a]);
            }
            assert forall|a: int, b: int| 0 <= a < b < r@.len() implies precedes(r@[a]@, r@[b]@) by {
                assert(r@[a]@ == names[a] && r@[b]@ == names[b]);
            }
        }
        r
    }

    /// The email address of `name`; `None` when the catalog has no such name.
    pub fn lookup(&self, name: &GitUserName) -> (r: Option<GitUserEmailAddress>)
        requires
            self.wf(),
        ensures
            r is Some <==> self@.contains_key(name@),
            r is Some ==> r->Some_0@ == self@[name@].0,
    {
        let ghost pairs = self.pairs();
        proof {
            assert forall|a: int, b: int| 0 <= a < b < pairs.len() implies pairs[a].0 != pairs[b].0 by {
                assert(self.names()[a] == pairs[a].0 && self.names()[b] == pairs[b].0);
                lemma_precedes_irreflexive(pairs[a].0);
            }
            lemma_map_of_keys(pairs, name@);
        }
        let mut i: usize = 0;
        while i < self.entries.len()
            invariant
                i <= self.entries@.len(),
                pairs == self.pairs(),
                pairs.len() == self.entries@.len(),
                forall|a: int, b: int| 0 <= a < b < pairs.len() ==> pairs[a].0 != pairs[b].0,
                forall|j: int| 0 <= j < i ==> pairs[j].0 != name@,
            decreases self.entries@.len() - i,
        {
            assert(pairs[i as int] == entry_view(self.entries@[i as int]));
            if self.entries[i].name.0 == name.0 {
                proof {
                    lemma_map_of_values(pairs, i as int);
                }
                return Some(GitUserEmailAddress(self.entries[i].email.0.clone()));
            }
            i = i + 1;
        }
        None
    }
}

/// Where a name is in the catalog built from `records`, its email address is the
/// one of the last record of that name.
pub proof fn lemma_last_record_wins(records: Seq<GitUser>, k: Seq<char>)
    requires
        catalog_of(records).contains_key(k),
    ensures
        exists|i: int|
            0 <= i < records.len() && records[i].name@ == k && (forall|j: int|
                i < j < records.len() ==> records[j].name@ != k) && catalog_of(records)[k].0
                == records[i].email@,
    decreases records.len(),
{
    let s = records.map_values(|u: GitUser| record_view(u));
    let last = records.len() - 1;
    assert(s.drop_last() =~= records.drop_last().map_values(|u: GitUser| record_view(u)));
    if records[last].name@ == k {
        assert(map_of(s)[k] == s.last().1);
    } else {
        lemma_last_record_wins(records.drop_last(), k);
        let i = choose|i: int|
            0 <= i < records.drop_last().len() && records.drop_last()[i].name@ == k && (forall|
                j: int,
            | i < j < records.drop_last().len() ==> records.drop_last()[j].name@ != k) && map_of(
                records.drop_last().map_values(|u: GitUser| record_view(u)),
            )[k].0 == records.drop_last()[i].email@;
        assert(records[i] == records.drop_last()[i]);
        assert forall|j: int| i < j < records.len() implies records[j].name@ != k by {
            if j < last {
                assert(records[j] == records.drop_last()[j]);
            }
        }
    }
}

} // verus!
