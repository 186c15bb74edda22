use vstd::prelude::*;
use crate::color::valid_hex_color;
use crate::render::{decodes, decodes_rgba8, render_icon, RenderError};
use crate::text::{joined, opt_view, str_eq};

verus! {

/// The cache key of an icon reference and an optional overlay colour: the
/// reference, a dash, and the colour (nothing where there is none).
pub open spec fn cache_key_spec(reference: Seq<char>, color: Option<Seq<char>>) -> Seq<char> {
    reference + "-"@ + match color {
        Some(c) => c,
        None => Seq::<char>::empty(),
    }
}

/// The cache key of an icon reference and an optional overlay colour.
pub fn cache_key(reference: &str, color: &Option<String>) -> (k: String)
    ensures
        k@ == cache_key_spec(reference@, opt_view(*color)),
{
    let mut k = joined(reference, "-");
    match color {
        Some(c) => {
            k.append(c.as_str());
        },
        None => {
            assert(k@ + Seq::<char>::empty() =~= k@);
        },
    }
    k
}

/// True when some entry of `s` has key `key`.
pub open spec fn holds_key(s: Seq<(String, String)>, key: Seq<char>) -> bool {
    exists|k: int| 0 <= k < s.len() && (#[trigger] s[k]).0@ == key
}

/// No two entries of `s` share a key.
pub open spec fn keys_unique(s: Seq<(String, String)>) -> bool {
    forall|i: int, j: int|
        0 <= i < s.len() && 0 <= j < s.len() && i != j ==> (#[trigger] s[i]).0@ != (
        #[trigger] s[j]).0@
}

/// The map from key to encoded icon that `s` stands for.
pub open spec fn entries_map(s: Seq<(String, String)>) -> Map<Seq<char>, Seq<char>> {
    Map::new(
        |key: Seq<char>| holds_key(s, key),
        |key: Seq<char>| s[choose|k: int| 0 <= k < s.len() && (#[trigger] s[k]).0@ == key].1@,
    )
}

proof fn lemma_entries_map_at(s: Seq<(String, String)>, k: int)
    requires
        keys_unique(s),
        0 <= k < s.len(),
    ensures
        entries_map(s).contains_key(s[k].0@),
        entries_map(s)[s[k].0@] == s[k].1@,
{
    let key = s[k].0@;
    assert(holds_key(s, key));
    let c = choose|c: int| 0 <= c < s.len() && (#[trigger] s[c]).0@ == key;
    assert(c == k);
}

/// The cache contents after a render of the icon under `key`: the icon is
/// stored where the render produced one, and nothing changes otherwise.
pub open spec fn after_render(
    cache: Map<Seq<char>, Seq<char>>,
    key: Seq<char>,
    rendered: Option<Seq<char>>,
) -> Map<Seq<char>, Seq<char>> {
    match rendered {
        Some(icon) => cache.insert(key, icon),
        None => cache,
    }
}

/// Once an icon has been rendered and stored, the cache holds it under its
/// key: the next request with the same reference and colour is a hit and
/// returns the same text, without a fetch.
pub proof fn lemma_rendered_icon_is_hit(
    cache: Map<Seq<char>, Seq<char>>,
    reference: Seq<char>,
    color: Option<Seq<char>>,
    icon: Seq<char>,
)
    ensures
        after_render(cache, cache_key_spec(reference, color), Some(icon)).contains_key(
            cache_key_spec(reference, color),
        ),
        after_render(cache, cache_key_spec(reference, color), Some(icon))[cache_key_spec(
            reference,
            color,
        )] == icon,
{
}

/// A failed fetch or render stores nothing: an icon that was missing stays
/// missing, so the next request fetches again.
pub proof fn lemma_failed_render_stores_nothing(
    cache: Map<Seq<char>, Seq<char>>,
    reference: Seq<char>,
    color: Option<Seq<char>>,
)
    ensures
        after_render(cache, cache_key_spec(reference, color), None) == cache,
        !cache.contains_key(cache_key_spec(reference, color)) ==> !after_render(
            cache,
            cache_key_spec(reference, color),
            None,
        ).contains_key(cache_key_spec(reference, color)),
{
}

/// Rendered icons, memoised by reference and overlay colour. Entries are never
/// evicted.
pub struct ImageCache {
    entries: Vec<(String, String)>,
}

impl View for ImageCache {
    type V = Map<Seq<char>, Seq<char>>;

    closed spec fn view(&self) -> Map<Seq<char>, Seq<char>> {
        entries_map(self.entries@)
    }
}

impl ImageCache {
    /// No key is held twice.
    pub closed spec fn wf(&self) -> bool {
        keys_unique(self.entries@)
    }

    /// An empty cache.
    pub fn new() -> (r: ImageCache)
        ensures
            r.wf(),
            r@ == Map::<Seq<char>, Seq<char>>::empty(),
    {
        let r = ImageCache { entries: Vec::new() };
        assert(r@ =~= Map::<Seq<char>, Seq<char>>::empty());
        r
    }

    fn position(&self, key: &str) -> (r: Option<usize>)
        requires
            self.wf(),
        ensures
            r is None <==> !self@.contains_key(key@),
            r matches Some(k) ==> k < self.entries@.len() && self.entries@[k as int].0@ == key@,
    {
        let mut k: usize = 0;
        while k < self.entries.len()
            invariant
                k <= self.entries@.len(),
                forall|j: int| 0 <= j < k ==> (#[trigger] self.entries@[j]).0@ != key@,
            decreases self.entries@.len() - k,
        {
            if str_eq(self.entries[k].0.as_str(), key) {
                return Some(k);
            }
            k = k + 1;
        }
        None
    }

    /// The icon stored for `reference` and `color`, if any.
    pub fn lookup(&self, reference: &str, color: &Option<String>) -> (r: Option<String>)
        requires
            self.wf(),
        ensures
            r is None <==> !self@.contains_key(cache_key_spec(reference@, opt_view(*color))),
            r matches Some(icon) ==> icon@ == self@[cache_key_spec(reference@, opt_view(*color))],
    {
        let key = cache_key(reference, color);
        match self.position(key.as_str()) {
            Some(k) => {
                proof {
                    lemma_entries_map_at(self.entries@, k as int);
                }
                Some(self.entries[k].1.clone())
            },
            None => None,
        }
    }

    /// Stores `icon` under `key`, replacing what was there.
    pub fn store(&mut self, key: String, icon: String)
        requires
            old(self).wf(),
        ensures
            final(self).wf(),
            final(self)@ == old(self)@.insert(key@, icon@),
    {
        let ghost before = self.entries@;
        let ghost target = entries_map(before).insert(key@, icon@);
        match self.position(key.as_str()) {
            Some(p) => {
                let ghost kv = key@;
                self.entries.set(p, (key, icon));
                let ghost after = self.entries@;
                assert(keys_unique(after)) by {
                    assert forall|i: int, j: int|
                        0 <= i < after.len() && 0 <= j < after.len() && i != j implies (
                        #[trigger] after[i]).0@ != (#[trigger] after[j]).0@ by {
                        assert(after[i].0@ == before[i].0@);
                        assert(after[j].0@ == before[j].0@);
                    }
                }
                assert forall|x: Seq<char>| #[trigger] self@.contains_key(x) <==> target.contains_key(
                    x,
                ) by {
                    if holds_key(after, x) {
                        let c = choose|c: int| 0 <= c < after.len() && (#[trigger] after[c]).0@ == x;
                        assert(before[c].0@ == x);
                    }
                    if holds_key(before, x) {
                        let c = choose|c: int| 0 <= c < before.len() && (#[trigger] before[c]).0@ == x;
                        assert(after[c].0@ == x);
                    }
                    if x == kv {
                        assert(after[p as int].0@ == x);
                    }
                }
                assert forall|x: Seq<char>| #[trigger] self@.contains_key(x) implies self@[x]
                    == target[x] by {
                    let c = choose|c: int| 0 <= c < after.len() && (#[trigger] after[c]).0@ == x;
                    lemma_entries_map_at(after, c);
                    if c != p {
                        assert(before[c] == after[c]);
                        lemma_entries_map_at(before, c);
                    }
                }
                assert(self@ =~= target);
            },
            None => {
                let ghost kv = key@;
                self.entries.push((key, icon));
                let ghost after = self.entries@;
                assert(keys_unique(after)) by {
                    assert forall|i: int, j: int|
                        0 <= i < after.len() && 0 <= j < after.len() && i != j implies (
                        #[trigger] after[i]).0@ != (#[trigger] after[j]).0@ by {
                        if i < before.len() && j < before.len() {
                            assert(after[i] == before[i]);
                            assert(after[j] == before[j]);
                        } else if i < before.len() {
                            assert(after[i] == before[i]);
                            assert(!holds_key(before, kv));
                        } else {
                            assert(after[j] == before[j]);
                            assert(!holds_key(before, kv));
                        }
                    }
                }
                assert forall|x: Seq<char>| #[trigger] self@.contains_key(x) <==> target.contains_key(
                    x,
                ) by {
                    if holds_key(after, x) {
                        let c = choose|c: int| 0 <= c < after.len() && (#[trigger] after[c]).0@ == x;
                        if c < before.len() {
                            assert(before[c].0@ == x);
                        }
                    }
                    if holds_key(before, x) {
                        let c = choose|c: int| 0 <= c < before.len() && (#[trigger] before[c]).0@ == x;
                        assert(after[c].0@ == x);
                    }
                    if x == kv {
                        assert(after[before.len() as int].0@ == kv);
                    }
                }
                assert forall|x: Seq<char>| #[trigger] self@.contains_key(x) implies self@[x]
                    == target[x] by {
                    let c = choose|c: int| 0 <= c < after.len() && (#[trigger] after[c]).0@ == x;
                    lemma_entries_map_at(after, c);
                    if c < before.len() {
                        assert(before[c] == after[c]);
                        lemma_entries_map_at(before, c);
                    }
                }
                assert(self@ =~= target);
            },
        }
    }

    /// Finishes a cache miss for `reference` and `color` with the fetched icon
    /// file (`None` where the fetch failed): renders it and stores the result.
    /// A failed fetch gives `Fetch`; a failed fetch or render stores nothing.
    pub fn render_fetched(
        &mut self,
        reference: &str,
        color: &Option<String>,
        fetched: Option<Vec<u8>>,
    ) -> (r: Result<String, RenderError>)
        requires
            old(self).wf(),
        ensures
            final(self).wf(),
            fetched is None ==> r == Err::<String, RenderError>(RenderError::Fetch),
            final(self)@ == after_render(
                old(self)@,
                cache_key_spec(reference@, opt_view(*color)),
                match r {
                    Ok(icon) => Some(icon@),
                    Err(_) => None,
                },
            ),
            fetched matches Some(raw) && !decodes(raw@) ==> r == Err::<
                String,
                RenderError,
            >(RenderError::Decode),
            fetched matches Some(raw) && decodes(raw@) && (color matches Some(c)
                && !valid_hex_color(c@)) ==> r == Err::<String, RenderError>(
                RenderError::BadColor,
            ),
            fetched matches Some(raw) && decodes(raw@) && (color matches Some(c)
                && valid_hex_color(c@)) && !decodes_rgba8(raw@) ==> r == Err::<
                String,
                RenderError,
            >(RenderError::NoAlpha),
            fetched matches Some(raw) && decodes(raw@) && (color is None || (color matches Some(c)
                && valid_hex_color(c@) && decodes_rgba8(raw@))) ==> r is Ok,
    {
        let raw = match fetched {
            Some(raw) => raw,
            None => return Err(RenderError::Fetch),
        };
        let rendered = render_icon(&raw, color);
        self.record_render(reference, color, &rendered);
        rendered
    }

    /// Records the outcome of rendering the icon for `reference` and `color`:
    /// a rendered icon is stored, a failure stores nothing.
    pub fn record_render(
        &mut self,
        reference: &str,
        color: &Option<String>,
        rendered: &Result<String, RenderError>,
    )
        requires
            old(self).wf(),
        ensures
            final(self).wf(),
            final(self)@ == after_render(
                old(self)@,
                cache_key_spec(reference@, opt_view(*color)),
                match *rendered {
                    Ok(icon) => Some(icon@),
                    Err(_) => None,
                },
            ),
    {
        match rendered {
            Ok(icon) => self.store(cache_key(reference, color), icon.clone()),
            Err(_) => {},
        }
    }
}

} // verus!
