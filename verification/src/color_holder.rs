//! A per-user display-color cache: the first lookup of a user draws a random
//! color, every later lookup returns the same one.
use vstd::prelude::*;

use crate::color_gen;
use crate::parser::error::str_eq;

verus! {

/// The map held by a list of entries: a later entry would win, but the cache
/// keeps keys unique.
pub open spec fn cache_view(pairs: Seq<(String, (u8, u8, u8))>) -> Map<Seq<char>, (u8, u8, u8)>
    decreases pairs.len(),
{
    if pairs.len() == 0 {
        Map::empty()
    } else {
        cache_view(pairs.drop_last()).insert(pairs.last().0@, pairs.last().1)
    }
}

/// An entry is in the map it helps hold, with its own value, when no later
/// entry shares its key.
proof fn lemma_cache_view_at(pairs: Seq<(String, (u8, u8, u8))>, i: int)
    requires
        0 <= i < pairs.len(),
        forall|j: int| i < j < pairs.len() ==> (#[trigger] pairs[j]).0@ != pairs[i].0@,
    ensures
        cache_view(pairs).contains_key(pairs[i].0@),
        cache_view(pairs)[pairs[i].0@] == pairs[i].1,
    decreases pairs.len(),
{
    if i + 1 < pairs.len() {
        let t = pairs.drop_last();
        assert(t[i] == pairs[i]);
        assert forall|j: int| i < j < t.len() implies (#[trigger] t[j]).0@ != t[i].0@ by {
            assert(t[j] == pairs[j]);
        }
        lemma_cache_view_at(t, i);
    }
}

/// A key no entry holds is not in the map.
proof fn lemma_cache_view_missing(pairs: Seq<(String, (u8, u8, u8))>, key: Seq<char>)
    requires
        forall|j: int| 0 <= j < pairs.len() ==> (#[trigger] pairs[j]).0@ != key,
    ensures
        !cache_view(pairs).contains_key(key),
    decreases pairs.len(),
{
    if pairs.len() > 0 {
        let t = pairs.drop_last();
        assert forall|j: int| 0 <= j < t.len() implies (#[trigger] t[j]).0@ != key by {
            assert(t[j] == pairs[j]);
        }
        lemma_cache_view_missing(t, key);
    }
}

/// The per-user color cache.
pub struct ColorCache {
    cache: Vec<(String, (u8, u8, u8))>,
}

impl View for ColorCache {
    type V = Map<Seq<char>, (u8, u8, u8)>;

    closed spec fn view(&self) -> Map<Seq<char>, (u8, u8, u8)> {
        cache_view(self.cache@)
    }
}

impl ColorCache {
    /// Each user name is cached at most once.
    pub closed spec fn wf(&self) -> bool {
        forall|i: int, j: int|
            0 <= i < j < self.cache@.len() ==> (#[trigger] self.cache@[i]).0@ != (
            #[trigger] self.cache@[j]).0@
    }

    /// An empty cache.
    pub fn new() -> (r: ColorCache)
        ensures
            r@ == Map::<Seq<char>, (u8, u8, u8)>::empty(),
            r.wf(),
    {
        ColorCache { cache: Vec::new() }
    }

    /// The color for `username`: the cached one when there is one, otherwise
    /// a freshly drawn color that is cached for every later lookup.
    pub fn get(&mut self, username: &str) -> (r: (u8, u8, u8))
        requires
            old(self).wf(),
        ensures
            final(self).wf(),
            old(self)@.contains_key(username@) ==> r == old(self)@[username@] && final(self)@
                == old(self)@,
            !old(self)@.contains_key(username@) ==> final(self)@ == old(self)@.insert(
                username@,
                r,
            ),
    {
        let n = self.cache.len();
        let mut i: usize = 0;
        while i < n
            invariant
                0 <= i <= n,
                n == self.cache.len(),
                self.wf(),
                forall|j: int| 0 <= j < i ==> (#[trigger] self.cache@[j]).0@ != username@,
            decreases n - i,
        {
            let hit = str_eq(self.cache[i].0.as_str(), username);
            if hit {
                proof {
                    lemma_cache_view_at(self.cache@, i as int);
                }
                return self.cache[i].1;
            }
            i += 1;
        }
        proof {
            lemma_cache_view_missing(self.cache@, username@);
        }
        let color = color_gen::get_color();
        let ghost old_pairs = self.cache@;
        self.cache.push((username.to_owned(), color));
        proof {
            assert(self.cache@.drop_last() =~= old_pairs);
            assert forall|i2: int, j2: int|
                0 <= i2 < j2 < self.cache@.len() implies (#[trigger] self.cache@[i2]).0@ != (
                #[trigger] self.cache@[j2]).0@ by {
                if j2 < self.cache@.len() - 1 {
                    assert(self.cache@[i2] == old_pairs[i2]);
                    assert(self.cache@[j2] == old_pairs[j2]);
                } else {
                    assert(self.cache@[i2] == old_pairs[i2]);
                    assert(self.cache@[j2].0@ == username@);
                }
            }
        }
        color
    }
}

} // verus!
