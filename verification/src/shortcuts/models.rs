use vstd::prelude::*;

verus! {

/// The text views of a list of (shortcut, key) pairs.
pub open spec fn pairs_view(s: Seq<(String, String)>) -> Seq<(Seq<char>, Seq<char>)> {
    s.map_values(|p: (String, String)| (p.0@, p.1@))
}

/// Whether `k` is the shortcut of some pair.
pub open spec fn has_shortcut(pv: Seq<(Seq<char>, Seq<char>)>, k: Seq<char>) -> bool {
    exists|i: int| 0 <= i < pv.len() && #[trigger] pv[i].0 == k
}

/// The map from shortcut to key that a list of pairs stands for.
pub open spec fn map_of(pv: Seq<(Seq<char>, Seq<char>)>) -> Map<Seq<char>, Seq<char>> {
    Map::new(
        |k: Seq<char>| has_shortcut(pv, k),
        |k: Seq<char>| pv[choose|i: int| 0 <= i < pv.len() && #[trigger] pv[i].0 == k].1,
    )
}

/// The texts of a list of strings.
pub open spec fn texts(s: Seq<String>) -> Seq<Seq<char>> {
    s.map_values(|x: String| x@)
}

/// The shortcuts that `m` binds to `key`.
pub open spec fn bound_to(m: Map<Seq<char>, Seq<char>>, key: Seq<char>) -> Set<Seq<char>> {
    Set::new(|t: Seq<char>| m.dom().contains(t) && m[t] == key)
}

/// The shortcuts bound to a key are exactly those whose key is that key:
/// no shortcut bound to another key is among them, whatever the keys'
/// names share.
pub proof fn lemma_bound_to_is_exactly_the_key(m: Map<Seq<char>, Seq<char>>, key: Seq<char>, t: Seq<char>)
    ensures
        bound_to(m, key).contains(t) ==> m.dom().contains(t) && m[t] == key,
        m.dom().contains(t) && m[t] == key ==> bound_to(m, key).contains(t),
{
}

/// No shortcut occurs twice.
pub open spec fn shortcuts_unique(pv: Seq<(Seq<char>, Seq<char>)>) -> bool {
    forall|i: int, j: int| 0 <= i < pv.len() && 0 <= j < pv.len() && i != j ==> pv[i].0 != pv[j].0
}

/// In a list without repeated shortcuts, the map gives each pair's key for its shortcut.
pub proof fn lemma_map_of_at(pv: Seq<(Seq<char>, Seq<char>)>, i: int)
    requires
        shortcuts_unique(pv),
        0 <= i < pv.len(),
    ensures
        map_of(pv).dom().contains(pv[i].0),
        map_of(pv)[pv[i].0] == pv[i].1,
{
    let k = pv[i].0;
    assert(has_shortcut(pv, k));
    let j = choose|j: int| 0 <= j < pv.len() && #[trigger] pv[j].0 == k;
    assert(pv[j].0 == k);
}


/// Keyboard shortcuts: which key or mouse button name each shortcut is bound
/// to. A shortcut is bound to at most one key.
pub struct ShortcutMap {
    entries: Vec<(String, String)>,
}

impl View for ShortcutMap {
    type V = Map<Seq<char>, Seq<char>>;

    closed spec fn view(&self) -> Map<Seq<char>, Seq<char>> {
        map_of(pairs_view(self.entries@))
    }
}

impl ShortcutMap {
    #[verifier::type_invariant]
    spec fn unique(&self) -> bool {
        shortcuts_unique(pairs_view(self.entries@))
    }

    /// No shortcut.
    pub fn new() -> (m: Self)
        ensures
            m@ == Map::<Seq<char>, Seq<char>>::empty(),
    {
        let m = ShortcutMap { entries: Vec::new() };
        assert(m@ =~= Map::<Seq<char>, Seq<char>>::empty());
        m
    }

    /// The number of shortcuts.
    pub fn len(&self) -> (n: usize)
        ensures
            n == self@.dom().len(),
    {
        proof { use_type_invariant(self); self.lemma_len(); }
        self.entries.len()
    }

    proof fn lemma_len(&self)
        requires
            shortcuts_unique(pairs_view(self.entries@)),
        ensures
            self@.dom().finite(),
            self@.dom().len() == self.entries@.len(),
        decreases self.entries@.len(),
    {
        let pv = pairs_view(self.entries@);
        let keys = Seq::new(pv.len(), |i: int| pv[i].0);
        assert(keys.no_duplicates()) by {
            assert forall|i: int, j: int| 0 <= i < keys.len() && 0 <= j < keys.len() && i != j implies keys[i] != keys[j] by {
                assert(pv[i].0 != pv[j].0);
            }
        }
        assert(self@.dom() =~= keys.to_set()) by {
            assert forall|k: Seq<char>| self@.dom().contains(k) implies keys.to_set().contains(k) by {
                let i = choose|i: int| 0 <= i < pv.len() && #[trigger] pv[i].0 == k;
                assert(keys[i] == k);
            }
            assert forall|k: Seq<char>| keys.to_set().contains(k) implies self@.dom().contains(k) by {
                let i = choose|i: int| 0 <= i < keys.len() && keys[i] == k;
                assert(pv[i].0 == k);
            }
        }
        keys.unique_seq_to_set();
    }

    fn find(&self, shortcut: &String) -> (r: Option<usize>)
        ensures
            r is None <==> !self@.dom().contains(shortcut@),
            r matches Some(i) ==> i < self.entries@.len() && self.entries@[i as int].0@ == shortcut@,
    {
        let mut i: usize = 0;
        while i < self.entries.len()
            invariant
                i <= self.entries@.len(),
                forall|j: int| 0 <= j < i ==> self.entries@[j].0@ != shortcut@,
            decreases self.entries.len() - i,
        {
            if self.entries[i].0 == *shortcut {
                proof {
                    assert(pairs_view(self.entries@)[i as int].0 == shortcut@);
                }
                return Some(i);
            }
            i = i + 1;
        }
        proof {
            let pv = pairs_view(self.entries@);
            if has_shortcut(pv, shortcut@) {
                let j = choose|j: int| 0 <= j < pv.len() && #[trigger] pv[j].0 == shortcut@;
                assert(self.entries@[j].0@ == shortcut@);
            }
        }
        None
    }

    /// The key bound to `shortcut`, if any.
    pub fn get(&self, shortcut: &String) -> (r: Option<String>)
        ensures
            r is None <==> !self@.dom().contains(shortcut@),
            r matches Some(k) ==> k@ == self@[shortcut@],
    {
        proof { use_type_invariant(self); }
        match self.find(shortcut) {
            None => None,
            Some(i) => {
                proof { lemma_map_of_at(pairs_view(self.entries@), i as int); }
                Some(self.entries[i].1.clone())
            },
        }
    }

    /// Binds `shortcut` to `key`, replacing its previous key.
    pub fn insert(&mut self, shortcut: String, key: String)
        ensures
            final(self)@ == old(self)@.insert(shortcut@, key@),
    {
        proof { use_type_invariant(&*self); }
        let ghost old_pv = pairs_view(self.entries@);
        let ghost k = shortcut@;
        let ghost v = key@;
        match self.find(&shortcut) {
            Some(i) => {
                let mut entries: Vec<(String, String)> = Vec::new();
                std::mem::swap(&mut entries, &mut self.entries);
                entries.set(i, (shortcut, key));
                let ghost new_pv = pairs_view(entries@);
                assert(new_pv =~= old_pv.update(i as int, (k, v)));
                assert(old_pv[i as int].0 == k);
                assert(forall|j: int| 0 <= j < new_pv.len() ==> #[trigger] new_pv[j].0 == old_pv[j].0);
                assert(shortcuts_unique(new_pv));
                proof {
                    assert forall|q: Seq<char>| #[trigger] map_of(new_pv).dom().contains(q) <==> map_of(old_pv).insert(k, v).dom().contains(q) by {
                        if q != k && has_shortcut(old_pv, q) {
                            let j = choose|j: int| 0 <= j < old_pv.len() && #[trigger] old_pv[j].0 == q;
                            assert(new_pv[j].0 == q);
                        }
                        if has_shortcut(new_pv, q) {
                            let j = choose|j: int| 0 <= j < new_pv.len() && #[trigger] new_pv[j].0 == q;
                            if j != i {
                                assert(old_pv[j].0 == q);
                            }
                        }
                        assert(new_pv[i as int].0 == k);
                    }
                    assert forall|q: Seq<char>| #[trigger] map_of(new_pv).dom().contains(q) implies map_of(new_pv)[q] == map_of(old_pv).insert(k, v)[q] by {
                        let j = choose|j: int| 0 <= j < new_pv.len() && #[trigger] new_pv[j].0 == q;
                        lemma_map_of_at(new_pv, j);
                        if j != i {
                            assert(old_pv[j] == new_pv[j]);
                            lemma_map_of_at(old_pv, j);
                        }
                    }
                    assert(map_of(new_pv) =~= map_of(old_pv).insert(k, v));
                }
                self.entries = entries;
            },
            None => {
                let mut entries: Vec<(String, String)> = Vec::new();
                std::mem::swap(&mut entries, &mut self.entries);
                entries.push((shortcut, key));
                let ghost new_pv = pairs_view(entries@);
                assert(new_pv =~= old_pv.push((k, v)));
                proof {
                    assert forall|j: int| 0 <= j < old_pv.len() implies old_pv[j].0 != k by {
                        assert(!has_shortcut(old_pv, k));
                    }
                    assert(shortcuts_unique(new_pv));
                    assert forall|q: Seq<char>| #[trigger] map_of(new_pv).dom().contains(q) <==> map_of(old_pv).insert(k, v).dom().contains(q) by {
                        if q != k && has_shortcut(old_pv, q) {
                            let j = choose|j: int| 0 <= j < old_pv.len() && #[trigger] old_pv[j].0 == q;
                            assert(new_pv[j].0 == q);
                        }
                        if has_shortcut(new_pv, q) {
                            let j = choose|j: int| 0 <= j < new_pv.len() && #[trigger] new_pv[j].0 == q;
                            if j < old_pv.len() {
                                assert(old_pv[j].0 == q);
                            }
                        }
                        assert(new_pv[old_pv.len() as int].0 == k);
                    }
                    assert forall|q: Seq<char>| #[trigger] map_of(new_pv).dom().contains(q) implies map_of(new_pv)[q] == map_of(old_pv).insert(k, v)[q] by {
                        let j = choose|j: int| 0 <= j < new_pv.len() && #[trigger] new_pv[j].0 == q;
                        lemma_map_of_at(new_pv, j);
                        if j < old_pv.len() {
                            assert(old_pv[j] == new_pv[j]);
                            lemma_map_of_at(old_pv, j);
                        }
                    }
                    assert(map_of(new_pv) =~= map_of(old_pv).insert(k, v));
                }
                self.entries = entries;
            },
        }
    }
    /// Unbinds `shortcut`; returns whether it was bound.
    pub fn remove(&mut self, shortcut: &String) -> (was_bound: bool)
        ensures
            final(self)@ == old(self)@.remove(shortcut@),
            was_bound == old(self)@.dom().contains(shortcut@),
    {
        proof { use_type_invariant(&*self); }
        let ghost old_pv = pairs_view(self.entries@);
        let ghost k = shortcut@;
        match self.find(shortcut) {
            None => {
                assert(map_of(old_pv) =~= map_of(old_pv).remove(k));
                false
            },
            Some(i) => {
                let mut entries: Vec<(String, String)> = Vec::new();
                std::mem::swap(&mut entries, &mut self.entries);
                entries.remove(i);
                let ghost new_pv = pairs_view(entries@);
                assert(new_pv =~= old_pv.remove(i as int));
                assert(old_pv[i as int].0 == k);
                proof {
                    assert forall|a: int, b: int| 0 <= a < new_pv.len() && 0 <= b < new_pv.len() && a != b implies new_pv[a].0 != new_pv[b].0 by {
                        let oa = if a < i { a } else { a + 1 };
                        let ob = if b < i { b } else { b + 1 };
                        assert(new_pv[a] == old_pv[oa]);
                        assert(new_pv[b] == old_pv[ob]);
                    }
                    assert forall|q: Seq<char>| #[trigger] map_of(new_pv).dom().contains(q) <==> map_of(old_pv).remove(k).dom().contains(q) by {
                        if q != k && has_shortcut(old_pv, q) {
                            let j = choose|j: int| 0 <= j < old_pv.len() && #[trigger] old_pv[j].0 == q;
                            assert(j != i);
                            let nj = if j < i { j } else { j - 1 };
                            assert(new_pv[nj] == old_pv[j]);
                        }
                        if has_shortcut(new_pv, q) {
                            let j = choose|j: int| 0 <= j < new_pv.len() && #[trigger] new_pv[j].0 == q;
                            let oj = if j < i { j } else { j + 1 };
                            assert(new_pv[j] == old_pv[oj]);
                            assert(oj != i);
                        }
                    }
                    assert forall|q: Seq<char>| #[trigger] map_of(new_pv).dom().contains(q) implies map_of(new_pv)[q] == map_of(old_pv).remove(k)[q] by {
                        let j = choose|j: int| 0 <= j < new_pv.len() && #[trigger] new_pv[j].0 == q;
                        lemma_map_of_at(new_pv, j);
                        let oj = if j < i { j } else { j + 1 };
                        assert(new_pv[j] == old_pv[oj]);
                        lemma_map_of_at(old_pv, oj);
                    }
                    assert(map_of(new_pv) =~= map_of(old_pv).remove(k));
                }
                self.entries = entries;
                true
            },
        }
    }

    /// The shortcuts bound to `key`, each once, in no particular order.
    pub fn shortcuts_bound_to(&self, key: &String) -> (r: Vec<String>)
        ensures
            texts(r@).to_set() == bound_to(self@, key@),
            texts(r@).no_duplicates(),
    {
        proof { use_type_invariant(self); }
        let ghost pv = pairs_view(self.entries@);
        let mut r: Vec<String> = Vec::new();
        let ghost mut from: Seq<int> = Seq::empty();
        let mut i: usize = 0;
        while i < self.entries.len()
            invariant
                i <= self.entries@.len(),
                pv == pairs_view(self.entries@),
                shortcuts_unique(pv),
                from.len() == r@.len(),
                forall|a: int| 0 <= a < r@.len() ==> 0 <= #[trigger] from[a] < i && pv[from[a]].0 == r@[a]@
                    && pv[from[a]].1 == key@,
                forall|a: int, b: int| 0 <= a < b < r@.len() ==> from[a] < from[b],
                forall|j: int| 0 <= j < i && #[trigger] pv[j].1 == key@ ==> exists|a: int| 0 <= a < r@.len() && from[a] == j,
            decreases self.entries.len() - i,
        {
            let ghost old_from = from;
            let ghost old_r = r@;
            if self.entries[i].1 == *key {
                assert(pv[i as int].1 == key@);
                r.push(self.entries[i].0.clone());
                proof { from = from.push(i as int); }
                assert(pv[i as int].0 == r@[r@.len() - 1]@);
                assert(from[r@.len() - 1] == i);
            } else {
                assert(pv[i as int].1 != key@);
            }
            proof {
                assert forall|j: int| 0 <= j < i + 1 && #[trigger] pv[j].1 == key@ implies exists|a: int| 0 <= a < r@.len() && from[a] == j by {
                    if j < i {
                        let a = choose|a: int| 0 <= a < old_r.len() && old_from[a] == j;
                        assert(from[a] == j);
                    } else {
                        assert(from[r@.len() - 1] == j);
                    }
                }
            }
            i = i + 1;
        }
        proof {
            let tr = texts(r@);
            assert forall|t: Seq<char>| tr.to_set().contains(t) <==> bound_to(self@, key@).contains(t) by {
                if tr.to_set().contains(t) {
                    let a = choose|a: int| 0 <= a < tr.len() && tr[a] == t;
                    lemma_map_of_at(pv, from[a]);
                }
                if self@.dom().contains(t) && self@[t] == key@ {
                    let j = choose|j: int| 0 <= j < pv.len() && #[trigger] pv[j].0 == t;
                    lemma_map_of_at(pv, j);
                    assert(pv[j].1 == key@);
                    let a = choose|a: int| 0 <= a < r@.len() && from[a] == j;
                    assert(tr[a] == t);
                }
            }
            assert(tr.to_set() =~= bound_to(self@, key@));
            assert forall|a: int, b: int| 0 <= a < tr.len() && 0 <= b < tr.len() && a != b implies tr[a] != tr[b] by {
                if a < b {
                    assert(from[a] < from[b]);
                } else {
                    assert(from[b] < from[a]);
                }
            }
        }
        r
    }

    /// Every (shortcut, key) pair, each shortcut once.
    pub fn pairs(&self) -> (r: Vec<(String, String)>)
        ensures
            map_of(pairs_view(r@)) == self@,
            shortcuts_unique(pairs_view(r@)),
    {
        proof { use_type_invariant(self); }
        let mut r: Vec<(String, String)> = Vec::new();
        let mut i: usize = 0;
        while i < self.entries.len()
            invariant
                i <= self.entries@.len(),
                r@.len() == i,
                pairs_view(r@) == pairs_view(self.entries@).take(i as int),
            decreases self.entries.len() - i,
        {
            let s = self.entries[i].0.clone();
            let k = self.entries[i].1.clone();
            assert(s@ == self.entries@[i as int].0@ && k@ == self.entries@[i as int].1@);
            let ghost old_r = r@;
            r.push((s, k));
            proof {
                let pe = pairs_view(self.entries@);
                assert forall|j: int| 0 <= j < i + 1 implies #[trigger] pairs_view(r@)[j] == pe.take(i + 1)[j] by {
                    if j < i {
                        assert(r@[j] == old_r[j]);
                        assert(pairs_view(old_r)[j] == pe.take(i as int)[j]);
                    }
                }
                assert(pairs_view(r@) =~= pe.take(i + 1));
            }
            i = i + 1;
        }
        assert(pairs_view(r@) =~= pairs_view(self.entries@));
        r
    }

    /// An independent copy.
    pub fn copy(&self) -> (c: Self)
        ensures
            c@ == self@,
    {
        ShortcutMap { entries: self.pairs() }
    }
}

/// The message sent to the interface about a shortcut: the shortcut and the
/// name of the key bound to it (empty when it was unbound).
pub struct ShortcutPayload {
    pub shortcut: String,
    pub key: String,
}

impl View for ShortcutPayload {
    type V = (Seq<char>, Seq<char>);

    open spec fn view(&self) -> (Seq<char>, Seq<char>) {
        (self.shortcut@, self.key@)
    }
}

/// The saved form of the shortcuts.
pub struct ShortcutData {
    pub shortcuts: ShortcutMap,
}

} // verus!
