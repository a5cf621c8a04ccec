use vstd::prelude::*;

verus! {

/// The path-to-fingerprint pairs of the JSON object in `text`, in key order, or
/// `None` where `text` is not one JSON object whose values are all strings.
pub uninterp spec fn json_string_pairs(text: Seq<char>) -> Option<Seq<(Seq<char>, Seq<char>)>>;

/// The pretty-printed JSON object text of a string-to-string mapping.
pub uninterp spec fn json_text_of_strings(m: Map<Seq<char>, Seq<char>>) -> Seq<char>;

pub open spec fn pairs_view(v: Seq<(String, String)>) -> Seq<(Seq<char>, Seq<char>)> {
    v.map_values(|p: (String, String)| (p.0@, p.1@))
}

/// The mapping that pairs give when each is inserted in turn, a later pair
/// replacing an earlier one with the same key.
pub open spec fn pairs_map(pairs: Seq<(Seq<char>, Seq<char>)>) -> Map<Seq<char>, Seq<char>>
    decreases pairs.len(),
{
    if pairs.len() == 0 {
        Map::empty()
    } else {
        pairs_map(pairs.drop_last()).insert(pairs.last().0, pairs.last().1)
    }
}

/// What a store loaded from `text` holds: the parsed mapping, or nothing where
/// the text does not parse.
pub open spec fn loaded_store(text: Seq<char>) -> Map<Seq<char>, Seq<char>> {
    match json_string_pairs(text) {
        Some(pairs) => pairs_map(pairs),
        None => Map::empty(),
    }
}

/// Relies on `serde_json::from_str` into a `BTreeMap<String, String>`: the
/// object's pairs, or `None` where the text is not such an object.
#[verifier::external_body]
fn parse_string_pairs(text: &str) -> (r: Option<Vec<(String, String)>>)
    ensures
        r is Some == json_string_pairs(text@) is Some,
        r matches Some(v) ==> pairs_view(v@) == json_string_pairs(text@)->Some_0,
{
    serde_json::from_str::<std::collections::BTreeMap<String, String>>(text).ok().map(
        |m| m.into_iter().collect(),
    )
}

/// Relies on `serde_json::to_string_pretty` of a `BTreeMap<&str, &str>` built
/// from the pairs, whose keys are distinct. Its documented failures (a
/// failing `Serialize` impl, a map key that is not a string) cannot occur for
/// such a map, so it always returns the text.
#[verifier::external_body]
fn pretty_string_map(pairs: &Vec<(String, String)>) -> (r: Option<String>)
    requires
        forall|i: int, j: int|
            0 <= i < pairs@.len() && 0 <= j < pairs@.len() && i != j ==> pairs@[i].0@
                != pairs@[j].0@,
    ensures
        r is Some,
        r matches Some(t) ==> t@ == json_text_of_strings(pairs_map(pairs_view(pairs@))),
{
    let m: std::collections::BTreeMap<&str, &str> = pairs.iter().map(
        |p| (p.0.as_str(), p.1.as_str()),
    ).collect();
    serde_json::to_string_pretty(&m).ok()
}

/// Mapping from a file's canonical relative path to its last-known fingerprint.
pub struct ChecksumStore {
    entries: Vec<(String, String)>,
    contents: Ghost<Map<Seq<char>, Seq<char>>>,
}

impl View for ChecksumStore {
    type V = Map<Seq<char>, Seq<char>>;

    closed spec fn view(&self) -> Map<Seq<char>, Seq<char>> {
        self.contents@
    }
}

impl ChecksumStore {
    /// The entries hold each key once, and hold exactly the mapping.
    pub closed spec fn wf(&self) -> bool {
        let e = self.entries@;
        let m = self.contents@;
        &&& m.dom().finite()
        &&& m.len() == e.len()
        &&& forall|i: int|
            0 <= i < e.len() ==> #[trigger] m.contains_key(e[i].0@) && m[e[i].0@] == e[i].1@
        &&& forall|i: int, j: int|
            0 <= i < e.len() && 0 <= j < e.len() && i != j ==> e[i].0@ != e[j].0@
        &&& forall|k: Seq<char>|
            #[trigger] m.contains_key(k) ==> exists|i: int| 0 <= i < e.len() && e[i].0@ == k
    }

    /// An empty store.
    pub fn new() -> (r: ChecksumStore)
        ensures
            r.wf(),
            r@ == Map::<Seq<char>, Seq<char>>::empty(),
    {
        ChecksumStore { entries: Vec::new(), contents: Ghost(Map::empty()) }
    }

    /// The number of paths held.
    pub fn len(&self) -> (r: usize)
        requires
            self.wf(),
        ensures
            r == self@.len(),
    {
        self.entries.len()
    }

    fn index_of(&self, path: &String) -> (r: Option<usize>)
        requires
            self.wf(),
        ensures
            match r {
                Some(i) => i < self.entries@.len() && self.entries@[i as int].0@ == path@,
                None => !self@.contains_key(path@),
            },
    {
        let mut i: usize = 0;
        while i < self.entries.len()
            invariant
                self.wf(),
                i <= self.entries@.len(),
                forall|j: int| 0 <= j < i ==> self.entries@[j].0@ != path@,
            decreases self.entries.len() - i,
        {
            if self.entries[i].0 == *path {
                return Some(i);
            }
            i = i + 1;
        }
        None
    }

    /// The fingerprint stored for `path`, if any.
    pub fn get(&self, path: &String) -> (r: Option<&String>)
        requires
            self.wf(),
        ensures
            match r {
                Some(v) => self@.contains_key(path@) && v@ == self@[path@],
                None => !self@.contains_key(path@),
            },
    {
        match self.index_of(path) {
            Some(i) => {
                assert(self@.contains_key(self.entries@[i as int].0@));
                Some(&self.entries[i].1)
            },
            None => None,
        }
    }

    /// Sets the fingerprint of `path`, replacing any earlier one.
    pub fn insert(&mut self, path: String, checksum: String)
        requires
            old(self).wf(),
        ensures
            final(self).wf(),
            final(self)@ == old(self)@.insert(path@, checksum@),
    {
        let ghost m = self.contents@.insert(path@, checksum@);
        match self.index_of(&path) {
            Some(i) => {
                let ghost e0 = self.entries@;
                self.entries.set(i, (path, checksum));
                self.contents = Ghost(m);
                assert(m.dom() =~= old(self).contents@.dom());
                assert forall|k: Seq<char>| #[trigger] m.contains_key(k) implies exists|j: int|
                    0 <= j < self.entries@.len() && self.entries@[j].0@ == k by {
                    let j = choose|j: int| 0 <= j < e0.len() && e0[j].0@ == k;
                    assert(self.entries@[j].0@ == k);
                }
            },
            None => {
                let ghost e0 = self.entries@;
                self.entries.push((path, checksum));
                self.contents = Ghost(m);
                assert forall|k: Seq<char>| #[trigger] m.contains_key(k) implies exists|j: int|
                    0 <= j < self.entries@.len() && self.entries@[j].0@ == k by {
                    if k != self.entries@.last().0@ {
                        let j = choose|j: int| 0 <= j < e0.len() && e0[j].0@ == k;
                        assert(self.entries@[j].0@ == k);
                    } else {
                        assert(self.entries@[e0.len() as int].0@ == k);
                    }
                }
            },
        }
    }

    /// A store holding the given pairs, each inserted in turn (a later pair
    /// replacing an earlier one with the same path).
    pub fn from_pairs(pairs: &Vec<(String, String)>) -> (r: ChecksumStore)
        ensures
            r.wf(),
            r@ == pairs_map(pairs_view(pairs@)),
    {
        let ghost pv = pairs_view(pairs@);
        let mut store = ChecksumStore::new();
        let mut i: usize = 0;
        while i < pairs.len()
            invariant
                store.wf(),
                i <= pairs@.len(),
                pv == pairs_view(pairs@),
                store@ == pairs_map(pv.subrange(0, i as int)),
            decreases pairs.len() - i,
        {
            let path = pairs[i].0.clone();
            let checksum = pairs[i].1.clone();
            store.insert(path, checksum);
            assert(pv.subrange(0, i + 1).drop_last() =~= pv.subrange(0, i as int));
            i = i + 1;
        }
        assert(pv.subrange(0, pairs@.len() as int) =~= pv);
        store
    }

    /// A store holding the mapping that `text` gives, or an empty one where
    /// `text` does not parse as a path-to-fingerprint object.
    pub fn from_json(text: &str) -> (r: ChecksumStore)
        ensures
            r.wf(),
            r@ == loaded_store(text@),
    {
        match parse_string_pairs(text) {
            Some(pairs) => ChecksumStore::from_pairs(&pairs),
            None => ChecksumStore::new(),
        }
    }

    /// The store as pretty-printed JSON object text.
    pub fn to_json(&self) -> (r: Option<String>)
        requires
            self.wf(),
        ensures
            r is Some,
            r matches Some(t) ==> t@ == json_text_of_strings(self@),
    {
        proof {
            self.lemma_pairs_map();
        }
        pretty_string_map(&self.entries)
    }

    proof fn lemma_pairs_map(&self)
        requires
            self.wf(),
        ensures
            pairs_map(pairs_view(self.entries@)) == self@,
    {
        let e = self.entries@;
        assert forall|n: int| 0 <= n <= e.len() implies {
            let m = #[trigger] pairs_map(pairs_view(e.subrange(0, n)));
            &&& forall|k: Seq<char>|
                m.contains_key(k) <==> exists|i: int| 0 <= i < n && e[i].0@ == k
            &&& forall|i: int| 0 <= i < n ==> m[#[trigger] e[i].0@] == e[i].1@
        } by {
            self.lemma_prefix_map(n);
        }
        let m = pairs_map(pairs_view(e.subrange(0, e.len() as int)));
        assert(e.subrange(0, e.len() as int) =~= e);
        assert(m =~= self@) by {
            assert forall|k: Seq<char>| m.contains_key(k) <==> self@.contains_key(k) by {
                if self@.contains_key(k) {
                    let i = choose|i: int| 0 <= i < e.len() && e[i].0@ == k;
                }
            }
            assert forall|k: Seq<char>| m.contains_key(k) implies m[k] == self@[k] by {
                let i = choose|i: int| 0 <= i < e.len() && e[i].0@ == k;
                assert(m[e[i].0@] == e[i].1@);
            }
        }
    }

    proof fn lemma_prefix_map(&self, n: int)
        requires
            self.wf(),
            0 <= n <= self.entries@.len(),
        ensures
            ({
                let e = self.entries@;
                let m = pairs_map(pairs_view(e.subrange(0, n)));
                &&& forall|k: Seq<char>|
                    m.contains_key(k) <==> exists|i: int| 0 <= i < n && e[i].0@ == k
                &&& forall|i: int| 0 <= i < n ==> m[#[trigger] e[i].0@] == e[i].1@
            }),
        decreases n,
    {
        let e = self.entries@;
        if n > 0 {
            self.lemma_prefix_map(n - 1);
            let pv = pairs_view(e.subrange(0, n));
            assert(pv.drop_last() =~= pairs_view(e.subrange(0, n - 1)));
            assert(pv.last() == (e[n - 1].0@, e[n - 1].1@));
            let m = pairs_map(pv);
            assert(m == pairs_map(pairs_view(e.subrange(0, n - 1))).insert(e[n - 1].0@, e[n - 1].1@));
            assert forall|k: Seq<char>| m.contains_key(k) implies exists|i: int|
                0 <= i < n && e[i].0@ == k by {
                if k != e[n - 1].0@ {
                    let i = choose|i: int| 0 <= i < n - 1 && e[i].0@ == k;
                }
            }
        }
    }
}

} // verus!
