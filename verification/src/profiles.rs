//! Saved profiles: named sauna settings that can be applied in one go.
use vstd::prelude::*;
use vstd::string::*;
use crate::text::{
    int_string, int_text, lemma_text_lt_asymmetric, lemma_text_lt_irreflexive,
    lemma_text_lt_total, lemma_text_lt_trans, lowercase_str, str_eq, str_lt, text_lt,
    to_owned_string, unicode_lowercase,
};

verus! {

/// A saved profile containing sauna settings.
#[derive(Debug)]
pub struct Profile {
    /// Operating mode: "sauna" or "sanarium".
    pub mode: String,
    /// Target temperature in °C.
    pub temperature: i32,
    /// Humidity level (1-10, for sanarium mode).
    pub humidity: Option<i32>,
}

/// The abstract content of a [`Profile`].
pub struct ProfileView {
    pub mode: Seq<char>,
    pub temperature: i32,
    pub humidity: Option<i32>,
}

impl View for Profile {
    type V = ProfileView;

    open spec fn view(&self) -> ProfileView {
        ProfileView { mode: self.mode@, temperature: self.temperature, humidity: self.humidity }
    }
}

/// What creating a profile from the given settings yields: the profile (its mode in
/// lower case) or the message explaining why the settings are refused.
pub open spec fn profile_new_spec(mode: Seq<char>, temperature: i32, humidity: Option<i32>) -> Result<ProfileView, Seq<char>> {
    let lower = unicode_lowercase(mode);
    if lower != "sauna"@ && lower != "sanarium"@ {
        Err("Invalid mode '"@ + mode + "'. Use: sauna or sanarium"@)
    } else if lower == "sauna"@ && !(10 <= temperature <= 100) {
        Err("Sauna temperature must be between 10 and 100°C, got "@ + int_text(temperature as int))
    } else if lower == "sanarium"@ && !(40 <= temperature <= 75) {
        Err("Sanarium temperature must be between 40 and 75°C, got "@ + int_text(temperature as int))
    } else {
        match humidity {
            Some(h) => if lower != "sanarium"@ {
                Err("Humidity can only be set for sanarium mode"@)
            } else if !(1 <= h <= 10) {
                Err("Humidity level must be between 1 and 10, got "@ + int_text(h as int))
            } else {
                Ok(ProfileView { mode: lower, temperature, humidity })
            },
            None => Ok(ProfileView { mode: lower, temperature, humidity }),
        }
    }
}

/// The one-line description of a profile, e.g. `60°C, sanarium, humidity 7`.
pub open spec fn profile_description_text(p: ProfileView) -> Seq<char> {
    int_text(p.temperature as int) + "°C"@ + ", "@ + p.mode + match p.humidity {
        Some(h) => ", humidity "@ + int_text(h as int),
        None => Seq::<char>::empty(),
    }
}

impl Profile {
    /// Create a new profile: the mode must be sauna (10-100°C) or sanarium
    /// (40-75°C), and a humidity (1-10) is allowed for sanarium only.
    pub fn new(mode: &str, temperature: i32, humidity: Option<i32>) -> (r: Result<Profile, String>)
        ensures
            r matches Ok(p) ==> profile_new_spec(mode@, temperature, humidity) == Ok::<ProfileView, Seq<char>>(p@),
            r matches Err(e) ==> profile_new_spec(mode@, temperature, humidity) == Err::<ProfileView, Seq<char>>(e@),
    {
        let mode_lower = lowercase_str(mode);
        proof {
            reveal_strlit("sauna");
            reveal_strlit("sanarium");
            assert("sauna"@[1] != "sanarium"@[1] || "sauna"@.len() != "sanarium"@.len());
        }
        let is_sauna = str_eq(mode_lower.as_str(), "sauna");
        let is_sanarium = str_eq(mode_lower.as_str(), "sanarium");
        if !is_sauna && !is_sanarium {
            let mut msg = to_owned_string("Invalid mode '");
            msg.append(mode);
            msg.append("'. Use: sauna or sanarium");
            return Err(msg);
        }
        if is_sauna {
            if !(10 <= temperature && temperature <= 100) {
                let mut msg = to_owned_string("Sauna temperature must be between 10 and 100°C, got ");
                let n = int_string(temperature as i64);
                msg.append(n.as_str());
                return Err(msg);
            }
        } else {
            if !(40 <= temperature && temperature <= 75) {
                let mut msg = to_owned_string("Sanarium temperature must be between 40 and 75°C, got ");
                let n = int_string(temperature as i64);
                msg.append(n.as_str());
                return Err(msg);
            }
        }
        if let Some(hum) = humidity {
            if !is_sanarium {
                return Err(to_owned_string("Humidity can only be set for sanarium mode"));
            }
            if !(1 <= hum && hum <= 10) {
                let mut msg = to_owned_string("Humidity level must be between 1 and 10, got ");
                let n = int_string(hum as i64);
                msg.append(n.as_str());
                return Err(msg);
            }
        }
        Ok(Profile { mode: mode_lower, temperature, humidity })
    }

    /// Get a human-readable description.
    pub fn description(&self) -> (s: String)
        ensures
            s@ == profile_description_text(self@),
    {
        let mut s = int_string(self.temperature as i64);
        s.append("°C");
        s.append(", ");
        s.append(self.mode.as_str());
        if let Some(hum) = self.humidity {
            s.append(", humidity ");
            let n = int_string(hum as i64);
            s.append(n.as_str());
        }
        s
    }
}

/// The entries of a profile collection, as abstract values.
pub type ProfileEntries = Seq<(Seq<char>, ProfileView)>;

/// Names strictly increasing: no name twice, and listed in order.
pub open spec fn sorted_entries(s: ProfileEntries) -> bool {
    forall|i: int, j: int| 0 <= i < j < s.len() ==> text_lt(#[trigger] s[i].0, #[trigger] s[j].0)
}

/// Some entry has the name `k`.
pub open spec fn has_name(s: ProfileEntries, k: Seq<char>) -> bool {
    exists|i: int| 0 <= i < s.len() && #[trigger] s[i].0 == k
}

/// The profile stored under `k`, if any.
pub open spec fn lookup(s: ProfileEntries, k: Seq<char>) -> Option<ProfileView> {
    if has_name(s, k) {
        Some(s[choose|i: int| 0 <= i < s.len() && #[trigger] s[i].0 == k].1)
    } else {
        None
    }
}

/// The map from names to profiles that the entries hold.
pub open spec fn entries_map(s: ProfileEntries) -> Map<Seq<char>, ProfileView> {
    Map::new(|k: Seq<char>| has_name(s, k), |k: Seq<char>| lookup(s, k)->0)
}

/// In sorted entries the entry at `i` is the one found under its name.
pub proof fn lemma_lookup_at(s: ProfileEntries, i: int)
    requires
        sorted_entries(s),
        0 <= i < s.len(),
    ensures
        has_name(s, s[i].0),
        lookup(s, s[i].0) == Some(s[i].1),
{
    assert(0 <= i < s.len() && s[i].0 == s[i].0);
    let j = choose|j: int| 0 <= j < s.len() && #[trigger] s[j].0 == s[i].0;
    if j < i {
        assert(text_lt(s[j].0, s[i].0));
        lemma_text_lt_irreflexive(s[i].0);
    } else if i < j {
        assert(text_lt(s[i].0, s[j].0));
        lemma_text_lt_irreflexive(s[i].0);
    }
}

/// A collection of entries holds finitely many names, no more than its entries.
pub proof fn lemma_entries_map_finite(s: ProfileEntries)
    ensures
        entries_map(s).dom().finite(),
        entries_map(s).dom().len() <= s.len(),
{
    let names = s.map_values(|e: (Seq<char>, ProfileView)| e.0);
    assert forall|k: Seq<char>| entries_map(s).dom().contains(k) <==> names.to_set().contains(k) by {
        if has_name(s, k) {
            let i = choose|i: int| 0 <= i < s.len() && #[trigger] s[i].0 == k;
            assert(names[i] == k);
        }
        if names.to_set().contains(k) {
            let i = choose|i: int| 0 <= i < names.len() && names[i] == k;
            assert(s[i].0 == k);
        }
    }
    assert(entries_map(s).dom() =~= names.to_set());
    vstd::seq_lib::seq_to_set_is_finite(names);
    names.lemma_cardinality_of_set();
}

/// Collection of saved profiles, keyed by name.
pub struct Profiles {
    entries: Vec<(String, Profile)>,
}

impl Profiles {
    /// The entries, in the order they are kept (by name).
    pub closed spec fn entries_view(&self) -> ProfileEntries {
        self.entries@.map_values(|e: (String, Profile)| (e.0@, e.1@))
    }

    #[verifier::type_invariant]
    spec fn sorted(self) -> bool {
        sorted_entries(self.entries_view())
    }
}

impl View for Profiles {
    type V = Map<Seq<char>, ProfileView>;

    closed spec fn view(&self) -> Map<Seq<char>, ProfileView> {
        entries_map(self.entries_view())
    }
}

impl Profiles {
    /// A collection holds finitely many profiles.
    pub proof fn lemma_finite(&self)
        ensures
            self@.dom().finite(),
    {
        lemma_entries_map_finite(self.entries_view());
    }

    /// An empty collection.
    pub fn new() -> (r: Self)
        ensures
            r@ == Map::<Seq<char>, ProfileView>::empty(),
    {
        let r = Profiles { entries: Vec::new() };
        assert(r@ =~= Map::<Seq<char>, ProfileView>::empty());
        r
    }

    /// The position of the first entry whose name does not precede `name`.
    fn position(entries: &Vec<(String, Profile)>, name: &str) -> (i: usize)
        requires
            sorted_entries(entries@.map_values(|e: (String, Profile)| (e.0@, e.1@))),
        ensures
            i <= entries@.len(),
            forall|k: int| 0 <= k < i ==> text_lt(#[trigger] entries@[k].0@, name@),
            i < entries@.len() ==> !text_lt(entries@[i as int].0@, name@),
    {
        let mut i: usize = 0;
        while i < entries.len() && str_lt(entries[i].0.as_str(), name)
            invariant
                i <= entries@.len(),
                forall|k: int| 0 <= k < i ==> text_lt(#[trigger] entries@[k].0@, name@),
            decreases entries@.len() - i,
        {
            i += 1;
        }
        i
    }

    /// Add or update a profile.
    pub fn set(&mut self, name: &str, profile: Profile)
        ensures
            final(self)@ == old(self)@.insert(name@, profile@),
    {
        proof {
            use_type_invariant(&*self);
        }
        let ghost pv = profile@;
        let mut entries: Vec<(String, Profile)> = Vec::new();
        std::mem::swap(&mut entries, &mut self.entries);
        let ghost s = entries@.map_values(|e: (String, Profile)| (e.0@, e.1@));
        let i = Self::position(&entries, name);
        let same = i < entries.len() && str_eq(entries[i].0.as_str(), name);
        let key = to_owned_string(name);
        if same {
            entries.set(i, (key, profile));
        } else {
            entries.insert(i, (key, profile));
        }
        let ghost t = entries@.map_values(|e: (String, Profile)| (e.0@, e.1@));
        proof {
            if same {
                assert(t =~= s.update(i as int, (name@, pv)));
            } else {
                assert(t =~= s.insert(i as int, (name@, pv)));
            }
            assert forall|a: int, b: int| 0 <= a < b < t.len() implies text_lt(#[trigger] t[a].0, #[trigger] t[b].0) by {
                if same {
                    if a == i {
                        assert(text_lt(s[a].0, s[b].0));
                    } else if b == i {
                        assert(text_lt(s[a].0, s[b].0));
                    }
                } else {
                    if a < i && b == i {
                    } else if a == i && b > i {
                        if i < s.len() {
                            let p = s[i as int].0;
                            if p != name@ {
                                lemma_text_lt_total(p, name@);
                            }
                            if b - 1 > i {
                                assert(text_lt(s[i as int].0, s[b - 1].0));
                                lemma_text_lt_trans(name@, s[i as int].0, s[b - 1].0);
                            }
                        }
                    } else if a < i && b > i {
                        assert(text_lt(s[a].0, s[b - 1].0));
                    } else if a > i {
                        assert(text_lt(s[a - 1].0, s[b - 1].0));
                    }
                }
            }
            assert(sorted_entries(t));
            assert forall|k: Seq<char>| #[trigger] entries_map(t).contains_key(k) == entries_map(s).insert(name@, pv).contains_key(k) && (entries_map(t).contains_key(k) ==> entries_map(t)[k] == entries_map(s).insert(name@, pv)[k]) by {
                if k == name@ {
                    lemma_lookup_at(t, i as int);
                } else {
                    if has_name(s, k) {
                        let j = choose|j: int| 0 <= j < s.len() && #[trigger] s[j].0 == k;
                        lemma_lookup_at(s, j);
                        let jj = if same || j < i { j } else { j + 1 };
                        assert(t[jj].0 == k);
                        lemma_lookup_at(t, jj);
                    } else {
                        if has_name(t, k) {
                            let j = choose|j: int| 0 <= j < t.len() && #[trigger] t[j].0 == k;
                            if j != i {
                                let jj = if same || j < i { j } else { j - 1 };
                                assert(s[jj].0 == k);
                            }
                        }
                    }
                }
            }
            assert(entries_map(t) =~= entries_map(s).insert(name@, pv));
        }
        self.entries = entries;
    }

    /// Get a profile by name.
    pub fn get(&self, name: &str) -> (r: Option<&Profile>)
        ensures
            r is Some <==> self@.contains_key(name@),
            r matches Some(p) ==> p@ == self@[name@],
    {
        proof {
            use_type_invariant(&*self);
        }
        let ghost s = self.entries_view();
        let i = Self::position(&self.entries, name);
        if i < self.entries.len() && str_eq(self.entries[i].0.as_str(), name) {
            proof {
                assert(s[i as int].0 == name@);
                lemma_lookup_at(s, i as int);
            }
            Some(&self.entries[i].1)
        } else {
            proof {
                if has_name(s, name@) {
                    let j = choose|j: int| 0 <= j < s.len() && #[trigger] s[j].0 == name@;
                    if j < i {
                        assert(text_lt(s[j].0, name@));
                        lemma_text_lt_irreflexive(name@);
                    } else if j > i {
                        assert(text_lt(s[i as int].0, s[j].0));
                        if s[i as int].0 != name@ {
                            lemma_text_lt_total(s[i as int].0, name@);
                        }
                        lemma_text_lt_asymmetric(s[i as int].0, name@);
                    }
                }
            }
            None
        }
    }

    /// Remove a profile, giving it back if it was there.
    pub fn remove(&mut self, name: &str) -> (r: Option<Profile>)
        ensures
            final(self)@ == old(self)@.remove(name@),
            r is Some <==> old(self)@.contains_key(name@),
            r matches Some(p) ==> p@ == old(self)@[name@],
    {
        proof {
            use_type_invariant(&*self);
        }
        let mut entries: Vec<(String, Profile)> = Vec::new();
        std::mem::swap(&mut entries, &mut self.entries);
        let ghost s = entries@.map_values(|e: (String, Profile)| (e.0@, e.1@));
        let i = Self::position(&entries, name);
        if i < entries.len() && str_eq(entries[i].0.as_str(), name) {
            let (_, p) = entries.remove(i);
            let ghost t = entries@.map_values(|e: (String, Profile)| (e.0@, e.1@));
            proof {
                assert(t =~= s.remove(i as int));
                lemma_lookup_at(s, i as int);
                assert forall|a: int, b: int| 0 <= a < b < t.len() implies text_lt(#[trigger] t[a].0, #[trigger] t[b].0) by {
                    if a < i && b >= i {
                        assert(text_lt(s[a].0, s[b + 1].0));
                    } else if a >= i {
                        assert(text_lt(s[a + 1].0, s[b + 1].0));
                    }
                }
                assert forall|k: Seq<char>| #[trigger] entries_map(t).contains_key(k) == entries_map(s).remove(name@).contains_key(k) && (entries_map(t).contains_key(k) ==> entries_map(t)[k] == entries_map(s).remove(name@)[k]) by {
                    if has_name(t, k) {
                        let j = choose|j: int| 0 <= j < t.len() && #[trigger] t[j].0 == k;
                        lemma_lookup_at(t, j);
                        let jj = if j < i { j } else { j + 1 };
                        assert(s[jj].0 == k);
                        lemma_lookup_at(s, jj);
                        if k == name@ {
                            lemma_lookup_at(s, i as int);
                            if jj < i {
                                assert(text_lt(s[jj].0, s[i as int].0));
                            } else {
                                assert(text_lt(s[i as int].0, s[jj].0));
                            }
                            lemma_text_lt_irreflexive(k);
                        }
                    } else if has_name(s, k) && k != name@ {
                        let j = choose|j: int| 0 <= j < s.len() && #[trigger] s[j].0 == k;
                        let jj = if j < i { j } else { j - 1 };
                        assert(t[jj].0 == k);
                    }
                }
                assert(entries_map(t) =~= entries_map(s).remove(name@));
            }
            self.entries = entries;
            Some(p)
        } else {
            proof {
                if has_name(s, name@) {
                    let j = choose|j: int| 0 <= j < s.len() && #[trigger] s[j].0 == name@;
                    if j < i {
                        assert(text_lt(s[j].0, name@));
                        lemma_text_lt_irreflexive(name@);
                    } else if j > i {
                        assert(text_lt(s[i as int].0, s[j].0));
                        if s[i as int].0 != name@ {
                            lemma_text_lt_total(s[i as int].0, name@);
                        }
                        lemma_text_lt_asymmetric(s[i as int].0, name@);
                    }
                }
                assert(entries_map(s) =~= entries_map(s).remove(name@));
            }
            self.entries = entries;
            None
        }
    }

    /// List all profile names, in order.
    pub fn list(&self) -> (names: Vec<&String>)
        ensures
            forall|a: int, b: int| 0 <= a < b < names@.len() ==> text_lt(#[trigger] names@[a]@, #[trigger] names@[b]@),
            forall|a: int| 0 <= a < names@.len() ==> self@.contains_key(#[trigger] names@[a]@),
            forall|k: Seq<char>| #[trigger] self@.contains_key(k) ==> exists|a: int| 0 <= a < names@.len() && names@[a]@ == k,
    {
        proof {
            use_type_invariant(&*self);
        }
        let ghost s = self.entries_view();
        let mut names: Vec<&String> = Vec::new();
        let mut i: usize = 0;
        while i < self.entries.len()
            invariant
                s == self.entries_view(),
                sorted_entries(s),
                i <= s.len(),
                names@.len() == i,
                forall|a: int| 0 <= a < i ==> #[trigger] names@[a]@ == s[a].0,
            decreases s.len() - i,
        {
            names.push(&self.entries[i].0);
            i += 1;
        }
        proof {
            assert forall|a: int, b: int| 0 <= a < b < names@.len() implies text_lt(#[trigger] names@[a]@, #[trigger] names@[b]@) by {
                assert(text_lt(s[a].0, s[b].0));
            }
            assert forall|a: int| 0 <= a < names@.len() implies self@.contains_key(#[trigger] names@[a]@) by {
                lemma_lookup_at(s, a);
            }
            assert forall|k: Seq<char>| #[trigger] self@.contains_key(k) implies exists|a: int| 0 <= a < names@.len() && names@[a]@ == k by {
                let j = choose|j: int| 0 <= j < s.len() && #[trigger] s[j].0 == k;
                assert(names@[j]@ == k);
            }
        }
        names
    }

    /// Check if a profile exists.
    pub fn contains(&self, name: &str) -> (r: bool)
        ensures
            r == self@.contains_key(name@),
    {
        self.get(name).is_some()
    }
}

/// Reading a name after storing a profile under it gives that profile back, and
/// storing leaves every other name as it was.
pub proof fn lemma_get_after_set(m: Map<Seq<char>, ProfileView>, name: Seq<char>, p: ProfileView, other: Seq<char>)
    requires
        other != name,
    ensures
        m.insert(name, p).contains_key(name),
        m.insert(name, p)[name] == p,
        m.insert(name, p).contains_key(other) == m.contains_key(other),
        m.contains_key(other) ==> m.insert(name, p)[other] == m[other],
{
}

} // verus!
