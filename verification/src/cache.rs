//! The keys that font descriptions were loaded under.

use vstd::prelude::*;

use crate::error::Error;
use crate::font::{FontDesc, FontDescView, FontKey, KeyAllocator, Size};

verus! {

/// What a font is cached by: its description, and its size where the
/// rasterizer loads a font anew for each size.
pub struct Slot {
    pub desc: FontDescView,
    pub size: Option<Size>,
}

#[derive(Debug)]
struct Entry {
    desc: FontDesc,
    size: Option<Size>,
    key: FontKey,
}

impl Entry {
    spec fn slot(self) -> Slot {
        Slot { desc: self.desc@, size: self.size }
    }
}

/// The key of the first entry for `slot`, if there is one.
spec fn find(entries: Seq<Entry>, slot: Slot) -> Option<FontKey>
    decreases entries.len(),
{
    if entries.len() == 0 {
        None
    } else if entries[0].slot() == slot {
        Some(entries[0].key)
    } else {
        find(entries.skip(1), slot)
    }
}

/// An entry at the end is found only for a slot that had none.
proof fn lemma_find_push(entries: Seq<Entry>, added: Entry, slot: Slot)
    ensures
        find(entries.push(added), slot) == if find(entries, slot) is Some {
            find(entries, slot)
        } else if added.slot() == slot {
            Some(added.key)
        } else {
            None
        },
    decreases entries.len(),
{
    if entries.len() == 0 {
        assert(entries.push(added).skip(1) =~= entries);
    } else {
        assert(entries.push(added).skip(1) =~= entries.skip(1).push(added));
        if entries[0].slot() != slot {
            lemma_find_push(entries.skip(1), added, slot);
        }
    }
}

/// No entry is found for a slot exactly if no entry has that slot.
proof fn lemma_find_none(entries: Seq<Entry>, slot: Slot)
    ensures
        find(entries, slot) is None <==> forall|i: int|
            0 <= i < entries.len() ==> (#[trigger] entries[i]).slot() != slot,
    decreases entries.len(),
{
    if entries.len() > 0 {
        lemma_find_none(entries.skip(1), slot);
        if entries[0].slot() != slot {
            if find(entries, slot) is None {
                assert forall|i: int| 0 <= i < entries.len() implies (#[trigger] entries[i]).slot()
                    != slot by {
                    if i > 0 {
                        assert(entries.skip(1)[i - 1] == entries[i]);
                    }
                }
            } else {
                let rest = entries.skip(1);
                let i = choose|i: int| 0 <= i < rest.len() && (#[trigger] rest[i]).slot() == slot;
                assert(entries[i + 1].slot() == slot);
            }
        }
    }
}

/// Whether no slot has two entries.
spec fn slots_differ(entries: Seq<Entry>) -> bool {
    forall|i: int, j: int|
        0 <= i < j < entries.len() ==> (#[trigger] entries[i]).slot() != (
        #[trigger] entries[j]).slot()
}

/// Maps the fonts that were loaded to their keys, and makes the key of each
/// font that is new. Each font has one entry.
#[derive(Debug)]
pub struct KeyCache {
    entries: Vec<Entry>,
    allocator: KeyAllocator,
}

impl View for KeyCache {
    type V = Map<Slot, FontKey>;

    closed spec fn view(&self) -> Map<Slot, FontKey> {
        Map::new(
            |slot: Slot| find(self.entries@, slot) is Some,
            |slot: Slot| find(self.entries@, slot).unwrap(),
        )
    }
}

/// The key that loading the font of `slot` returns, over a cache `cached`
/// whose next new key has the token `next_token`: the cached key, or else a
/// new one if the font was found. `None` stands for a font that is neither
/// cached nor found.
pub open spec fn loaded_key(
    cached: Map<Slot, FontKey>,
    next_token: u32,
    slot: Slot,
    found: bool,
) -> Option<FontKey> {
    if cached.contains_key(slot) {
        Some(cached[slot])
    } else if found {
        Some(FontKey::with_token(next_token))
    } else {
        None
    }
}

/// The cache after loading the font of `slot`: a font that is new and was
/// found is entered under its new key.
pub open spec fn cached_after(
    cached: Map<Slot, FontKey>,
    next_token: u32,
    slot: Slot,
    found: bool,
) -> Map<Slot, FontKey> {
    if !cached.contains_key(slot) && found {
        cached.insert(slot, FontKey::with_token(next_token))
    } else {
        cached
    }
}

/// Loading a font a second time returns the key of the first time and
/// leaves the cache as it is, whether the font is found again or not and
/// whatever key would be next.
pub proof fn lemma_load_is_idempotent(
    cached: Map<Slot, FontKey>,
    next_token: u32,
    slot: Slot,
    found: bool,
    later_token: u32,
    found_again: bool,
)
    requires
        loaded_key(cached, next_token, slot, found) is Some,
    ensures
        loaded_key(cached_after(cached, next_token, slot, found), later_token, slot, found_again)
            == loaded_key(cached, next_token, slot, found),
        cached_after(cached_after(cached, next_token, slot, found), later_token, slot, found_again)
            == cached_after(cached, next_token, slot, found),
{
}

/// Loading a font takes no font out of the cache and gives no cached font
/// another key.
pub proof fn lemma_load_keeps_keys(
    cached: Map<Slot, FontKey>,
    next_token: u32,
    slot: Slot,
    found: bool,
)
    ensures
        cached.submap_of(cached_after(cached, next_token, slot, found)),
        loaded_key(cached, next_token, slot, found) matches Some(key) ==> cached_after(
            cached,
            next_token,
            slot,
            found,
        ).contains_pair(slot, key),
{
}

impl KeyCache {
    #[verifier::type_invariant]
    spec fn inv(&self) -> bool {
        slots_differ(self.entries@)
    }

    /// The allocator that makes the key of the next new font.
    pub closed spec fn allocator(&self) -> KeyAllocator {
        self.allocator
    }

    /// A cache without fonts, whose first key has the token zero.
    pub fn new() -> (cache: KeyCache)
        ensures
            cache@ == Map::<Slot, FontKey>::empty(),
            cache.allocator().next_token() == 0,
    {
        let cache = KeyCache { entries: Vec::new(), allocator: KeyAllocator::new() };
        assert(cache@ =~= Map::<Slot, FontKey>::empty());
        cache
    }

    /// The key that the font was loaded under, if it was loaded.
    pub fn get(&self, desc: &FontDesc, size: Option<Size>) -> (key: Option<FontKey>)
        ensures
            key == if self@.contains_key(Slot { desc: desc@, size }) {
                Some(self@[Slot { desc: desc@, size }])
            } else {
                None
            },
    {
        let ghost slot = Slot { desc: desc@, size };
        let mut at: usize = 0;
        assert(self.entries@.skip(0) =~= self.entries@);
        while at < self.entries.len()
            invariant
                at <= self.entries@.len(),
                slot == (Slot { desc: desc@, size }),
                find(self.entries@, slot) == find(self.entries@.skip(at as int), slot),
            decreases self.entries@.len() - at,
        {
            let entry = &self.entries[at];
            proof {
                assert(self.entries@.skip(at as int)[0] == self.entries@[at as int]);
                assert(self.entries@.skip(at as int).skip(1) =~= self.entries@.skip(at + 1));
            }
            let same_size: bool = match (entry.size, size) {
                (Some(a), Some(b)) => a == b,
                (None, None) => true,
                _ => false,
            };
            if same_size && entry.desc == *desc {
                return Some(entry.key);
            }
            at += 1;
        }
        None
    }

    /// Load the font of a description: returns the key that it was loaded
    /// under before, or else a new key if `found` says that the platform has
    /// such a font. Fails with `FontNotFound` where the font is new and was
    /// not found.
    pub fn load(
        &mut self,
        desc: &FontDesc,
        size: Option<Size>,
        found: bool,
    ) -> (loaded: Result<FontKey, Error>)
        ensures
            match loaded_key(
                old(self)@,
                old(self).allocator().next_token(),
                Slot { desc: desc@, size },
                found,
            ) {
                Some(key) => loaded == Ok::<FontKey, Error>(key),
                None => loaded matches Err(Error::FontNotFound(missing)) && missing@ == desc@,
            },
            final(self)@ == cached_after(
                old(self)@,
                old(self).allocator().next_token(),
                Slot { desc: desc@, size },
                found,
            ),
            final(self).allocator() == if !old(self)@.contains_key(Slot { desc: desc@, size })
                && found {
                old(self).allocator().after(1)
            } else {
                old(self).allocator()
            },
    {
        let ghost slot = Slot { desc: desc@, size };
        proof {
            use_type_invariant(&*self);
        }
        match self.get(desc, size) {
            Some(key) => {
                return Ok(key);
            },
            None => {},
        }
        if !found {
            return Err(Error::FontNotFound(desc.duplicate()));
        }
        let mut allocator = self.allocator;
        let key = FontKey::next(&mut allocator);
        self.allocator = allocator;
        let entry = Entry { desc: desc.duplicate(), size, key };
        proof {
            lemma_find_none(old(self).entries@, slot);
            key.lemma_token_names_key();
            assert forall|other: Slot|
                find(old(self).entries@.push(entry), other) == if find(old(self).entries@, other)
                    is Some {
                    find(old(self).entries@, other)
                } else if entry.slot() == other {
                    Some(entry.key)
                } else {
                    None
                } by {
                lemma_find_push(old(self).entries@, entry, other);
            }
        }
        // The entries leave their place while the new one is added.
        let mut entries: Vec<Entry> = Vec::new();
        std::mem::swap(&mut entries, &mut self.entries);
        entries.push(entry);
        self.entries = entries;
        assert(self@ =~= old(self)@.insert(slot, key));
        Ok(key)
    }
}

} // verus!
