//! Hook tables: callbacks registered under string keys, found again either
//! by the exact key or by the topic hierarchy with trailing wildcards.
//!
//! A table of the `Tree` variant resolves a topic such as `a/b/c` in this
//! order: the topic itself; then `a/b/#`, `a/#` and `/#`, each made of fewer
//! leading segments than the one before; then the global wildcard `#`. The
//! first key that is registered wins. A table of the `Simple` variant knows
//! exact keys only.

use vstd::prelude::*;
use vstd::hash_map::StringHashMap;
use crate::text::{first_char, join, join_with, split, split_at_char, lemma_split_shape};

verus! {

/// How a table matches keys.
#[derive(Clone, Copy, Debug, PartialEq, Eq, Structural)]
pub enum HooksVariant {
    /// By the exact key.
    Simple,
    /// By the topic hierarchy.
    Tree,
}

/// What a table reads of a script value that is offered as a key: its text
/// if it is a string, and otherwise only that it is none.
#[derive(Debug)]
pub enum Topic {
    Text(String),
    Other,
}

/// A table from keys to callbacks of type `V`.
#[verifier::reject_recursive_types(V)]
pub struct Hooks<V> {
    variant: HooksVariant,
    hooks: StringHashMap<V>,
}

/// The separator of topic segments.
pub open spec fn slash() -> char {
    '/'
}

/// The key that matches every topic in a `Tree` table: `#`.
pub open spec fn global_wildcard() -> Seq<char> {
    seq!['#']
}

/// The segments of a topic as the lookup uses them: the pieces between
/// slashes, where for a topic that begins with a slash the empty first piece
/// is dropped and the slash is put in front of the piece after it.
pub open spec fn topic_parts(topic: Seq<char>) -> Seq<Seq<char>> {
    let parts = split(topic, slash());
    if topic.len() > 0 && topic[0] == slash() {
        let rest = parts.drop_first();
        rest.update(0, seq![slash()] + rest[0])
    } else {
        parts
    }
}

/// The wildcard key made of the first `k` segments: they are joined by
/// slashes and followed by `/#`. With no segment it is `/#`.
pub open spec fn wildcard_key(parts: Seq<Seq<char>>, k: int) -> Seq<char> {
    join(parts.take(k), slash()) + seq![slash(), '#']
}

/// The first registered wildcard key among those of fewer than `n` leading
/// segments, trying more segments before fewer.
pub open spec fn wildcard_match(keys: Set<Seq<char>>, parts: Seq<Seq<char>>, n: nat) -> Option<
    Seq<char>,
>
    decreases n,
{
    if n == 0 {
        None
    } else if keys.contains(wildcard_key(parts, n - 1)) {
        Some(wildcard_key(parts, n - 1))
    } else {
        wildcard_match(keys, parts, (n - 1) as nat)
    }
}

/// The registered key under which `topic` is found, if there is one.
pub open spec fn resolve(variant: HooksVariant, keys: Set<Seq<char>>, topic: Seq<char>) -> Option<
    Seq<char>,
> {
    if keys.contains(topic) {
        Some(topic)
    } else {
        match variant {
            HooksVariant::Simple => None,
            HooksVariant::Tree => {
                let parts = topic_parts(topic);
                match wildcard_match(keys, parts, parts.len()) {
                    Some(key) => Some(key),
                    None => if keys.contains(global_wildcard()) {
                        Some(global_wildcard())
                    } else {
                        None
                    },
                }
            },
        }
    }
}

/// The callback that a lookup of `topic` yields, if any.
pub open spec fn found<V>(variant: HooksVariant, table: Map<Seq<char>, V>, topic: Seq<char>)
    -> Option<V> {
    match resolve(variant, table.dom(), topic) {
        Some(key) => Some(table[key]),
        None => None,
    }
}

/// A topic that begins with a slash has at least two pieces, so that its
/// segments are never none.
pub proof fn lemma_topic_parts_nonempty(topic: Seq<char>)
    ensures
        topic_parts(topic).len() >= 1,
    decreases topic.len(),
{
    lemma_split_shape(topic, slash());
    if topic.len() > 0 && topic[0] == slash() {
        lemma_leading_separator(topic);
    }
}

proof fn lemma_leading_separator(topic: Seq<char>)
    requires
        topic.len() > 0,
        topic[0] == slash(),
    ensures
        split(topic, slash()).len() >= 2,
    decreases topic.len(),
{
    let front = topic.drop_last();
    lemma_split_shape(front, slash());
    if topic.len() > 1 {
        assert(front[0] == topic[0]);
        lemma_leading_separator(front);
    } else {
        assert(topic.last() == slash());
        assert(split(front, slash()).len() == 1);
    }
}

/// A wildcard match is one of the wildcard keys, it is registered, and no
/// wildcard key of more segments is registered.
pub proof fn lemma_wildcard_match(keys: Set<Seq<char>>, parts: Seq<Seq<char>>, n: nat)
    ensures
        match wildcard_match(keys, parts, n) {
            Some(key) => exists|k: int|
                0 <= k < n && key == #[trigger] wildcard_key(parts, k) && keys.contains(key)
                    && forall|j: int| k < j < n ==> !keys.contains(#[trigger] wildcard_key(parts, j)),
            None => forall|j: int| 0 <= j < n ==> !keys.contains(#[trigger] wildcard_key(parts, j)),
        },
    decreases n,
{
    if n > 0 {
        if keys.contains(wildcard_key(parts, n - 1)) {
            assert(wildcard_key(parts, n - 1) == wildcard_key(parts, n - 1));
        } else {
            lemma_wildcard_match(keys, parts, (n - 1) as nat);
            match wildcard_match(keys, parts, (n - 1) as nat) {
                Some(key) => {
                    let k = choose|k: int|
                        0 <= k < n - 1 && key == #[trigger] wildcard_key(parts, k)
                            && keys.contains(key) && forall|j: int|
                            k < j < n - 1 ==> !keys.contains(#[trigger] wildcard_key(parts, j));
                    assert(key == wildcard_key(parts, k));
                },
                None => {},
            }
        }
    }
}

/// An exact match wins: a topic that is itself registered is found under
/// its own key, whatever wildcards are registered beside it.
pub proof fn lemma_exact_wins(variant: HooksVariant, keys: Set<Seq<char>>, topic: Seq<char>)
    requires
        keys.contains(topic),
    ensures
        resolve(variant, keys, topic) == Some(topic),
{
}

/// The longest registered prefix wins: in a `Tree` table, a topic that is
/// not registered itself is found under the wildcard key of `k` leading
/// segments if that key is registered and none of more segments is.
pub proof fn lemma_longest_prefix_wins(keys: Set<Seq<char>>, topic: Seq<char>, k: int)
    requires
        !keys.contains(topic),
        0 <= k < topic_parts(topic).len(),
        keys.contains(wildcard_key(topic_parts(topic), k)),
        forall|j: int|
            k < j < topic_parts(topic).len() ==> !keys.contains(
                #[trigger] wildcard_key(topic_parts(topic), j),
            ),
    ensures
        resolve(HooksVariant::Tree, keys, topic) == Some(wildcard_key(topic_parts(topic), k)),
{
    let parts = topic_parts(topic);
    lemma_wildcard_match(keys, parts, parts.len());
    match wildcard_match(keys, parts, parts.len()) {
        Some(key) => {
            let i = choose|i: int|
                0 <= i < parts.len() && key == #[trigger] wildcard_key(parts, i) && keys.contains(
                    key,
                ) && forall|j: int|
                    i < j < parts.len() ==> !keys.contains(#[trigger] wildcard_key(parts, j));
            if i < k {
                assert(!keys.contains(wildcard_key(parts, k)));
            } else if k < i {
                assert(!keys.contains(wildcard_key(parts, i)));
            }
        },
        None => {
            assert(!keys.contains(wildcard_key(parts, k)));
        },
    }
}

/// The global wildcard is the last resort: in a `Tree` table, a topic for
/// which neither itself nor any of its wildcard keys is registered is found
/// under `#` if that is registered.
pub proof fn lemma_global_fallback(keys: Set<Seq<char>>, topic: Seq<char>)
    requires
        !keys.contains(topic),
        forall|j: int|
            0 <= j < topic_parts(topic).len() ==> !keys.contains(
                #[trigger] wildcard_key(topic_parts(topic), j),
            ),
    ensures
        resolve(HooksVariant::Tree, keys, topic) == if keys.contains(global_wildcard()) {
            Some(global_wildcard())
        } else {
            None
        },
{
    let parts = topic_parts(topic);
    lemma_wildcard_match(keys, parts, parts.len());
    match wildcard_match(keys, parts, parts.len()) {
        Some(key) => {
            let i = choose|i: int|
                0 <= i < parts.len() && key == #[trigger] wildcard_key(parts, i) && keys.contains(
                    key,
                );
            assert(!keys.contains(wildcard_key(parts, i)));
        },
        None => {},
    }
}

/// No match is no callback: with nothing registered, nothing is found; and
/// whatever is found is registered.
pub proof fn lemma_found_is_registered(
    variant: HooksVariant,
    keys: Set<Seq<char>>,
    topic: Seq<char>,
)
    ensures
        resolve(variant, keys, topic) matches Some(key) ==> keys.contains(key),
        keys =~= Set::<Seq<char>>::empty() ==> resolve(variant, keys, topic) is None,
{
    let parts = topic_parts(topic);
    lemma_wildcard_match(keys, parts, parts.len());
}

impl<V> View for Hooks<V> {
    type V = Map<Seq<char>, V>;

    closed spec fn view(&self) -> Map<Seq<char>, V> {
        self.hooks@
    }
}

impl<V> Hooks<V> {
    /// How this table matches keys.
    pub closed spec fn variant(&self) -> HooksVariant {
        self.variant
    }

    /// An empty table.
    pub fn new(variant: HooksVariant) -> (table: Hooks<V>)
        ensures
            table@ == Map::<Seq<char>, V>::empty(),
            table.variant() == variant,
    {
        let hooks = StringHashMap::new();
        Hooks { variant, hooks }
    }

    /// Registers `f` under `topic`, in place of what was registered there.
    /// A key that is not a string is refused: the table stays as it is and
    /// the result is `false`.
    pub fn add_hook(&mut self, topic: Topic, f: V) -> (added: bool)
        ensures
            final(self).variant() == old(self).variant(),
            match topic {
                Topic::Text(s) => added && final(self)@ == old(self)@.insert(s@, f),
                Topic::Other => !added && final(self)@ == old(self)@,
            },
    {
        match topic {
            Topic::Text(s) => {
                self.hooks.insert(s, f);
                true
            },
            Topic::Other => false,
        }
    }

    /// Looks `topic` up. `None` means that no callback is to run; it is not
    /// an error. A key that is not a string finds nothing.
    pub fn find_hook(&self, topic: &Topic) -> (hook: Option<&V>)
        ensures
            match topic {
                Topic::Text(s) => match hook {
                    Some(f) => found(self.variant(), self@, s@) == Some(*f),
                    None => found(self.variant(), self@, s@) is None,
                },
                Topic::Other => hook is None,
            },
    {
        match topic {
            Topic::Text(s) => {
                let f = self.hooks.get(s.as_str());
                match self.variant {
                    HooksVariant::Simple => f,
                    HooksVariant::Tree => self.find_in_tree(s.as_str(), f),
                }
            },
            Topic::Other => None,
        }
    }

    /// The hierarchical part of the lookup, entered with the outcome of the
    /// exact lookup.
    fn find_in_tree<'a>(&'a self, s: &str, exact: Option<&'a V>) -> (hook: Option<&'a V>)
        requires
            match exact {
                Some(f) => self@.contains_key(s@) && self@[s@] == *f,
                None => !self@.contains_key(s@),
            },
        ensures
            match hook {
                Some(f) => found(HooksVariant::Tree, self@, s@) == Some(*f),
                None => found(HooksVariant::Tree, self@, s@) is None,
            },
    {
        let mut f = exact;
        let mut topic_parts: Vec<String> = split_at_char(s, '/');
        proof {
            lemma_topic_parts_nonempty(s@);
            lemma_split_shape(s@, slash());
        }
        if first_char(s) == Some('/') {
            proof {
                lemma_leading_separator(s@);
            }
            let ghost pieces = topic_parts.deep_view();
            topic_parts.remove(0);
            assert(topic_parts.deep_view() =~= pieces.drop_first());
            let mut head: String = "/".to_owned();
            proof {
                reveal_strlit("/");
                assert("/"@ =~= seq![slash()]);
            }
            head.append(topic_parts[0].as_str());
            topic_parts.set(0, head);
            assert(topic_parts.deep_view() =~= crate::hooks::topic_parts(s@));
        }
        let ghost parts = crate::hooks::topic_parts(s@);
        let ghost keys = self@.dom();
        while f.is_none() && topic_parts.len() > 0
            invariant
                parts == crate::hooks::topic_parts(s@),
                keys == self@.dom(),
                topic_parts.len() <= parts.len(),
                topic_parts.deep_view() == parts.take(topic_parts.len() as int),
                match f {
                    Some(v) => found(HooksVariant::Tree, self@, s@) == Some(*v),
                    None => !keys.contains(s@) && wildcard_match(keys, parts, parts.len())
                        == wildcard_match(keys, parts, topic_parts.len() as nat),
                },
            decreases topic_parts.len(),
        {
            let ghost n = topic_parts.len() as int;
            topic_parts.pop();
            assert(topic_parts.deep_view() =~= parts.take(n - 1));
            let mut key: String = join_with(&topic_parts, '/');
            key.append("/#");
            proof {
                reveal_strlit("/#");
                assert("/#"@ =~= seq![slash(), '#']);
                assert(key@ == wildcard_key(parts, n - 1));
            }
            f = self.hooks.get(key.as_str());
        }
        match f {
            Some(v) => Some(v),
            None => {
                proof {
                    reveal_strlit("#");
                    assert("#"@ =~= global_wildcard());
                }
                self.hooks.get("#")
            },
        }
    }
}

} // verus!
