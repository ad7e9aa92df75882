//! Sets of characters, as fonts declare their coverage.

use vstd::prelude::*;

verus! {

/// A set of characters, held as a list of code point ranges.
#[derive(Debug)]
pub struct CharSet {
    /// Inclusive ranges; they may overlap and stand in any order.
    ranges: Vec<(u32, u32)>,
}

/// Number of code points that one page of a charset holds a bit for.
pub const PAGE_BITS: u32 = 256;

/// Whether the bit for the code point at `offset` from the start of a page
/// is set.
pub open spec fn page_bit(page: Seq<u32>, offset: int) -> bool {
    (page[offset / 32] >> ((offset % 32) as u32)) & 1u32 == 1u32
}

/// Whether the code point lies among the first `limit` of the page that
/// starts at `base`, and its bit is set.
pub open spec fn in_page(base: u32, page: Seq<u32>, limit: int, code: u32) -> bool {
    base <= code < base + limit && page_bit(page, code - base)
}

/// Whether one of the first `count` ranges holds the code point.
pub open spec fn ranges_hold(ranges: Seq<(u32, u32)>, count: int, code: u32) -> bool {
    exists|i: int| 0 <= i < count && (#[trigger] ranges[i]).0 <= code <= ranges[i].1
}

/// Two characters with one code point are one character.
proof fn lemma_code_point_names_char(c: char, d: char)
    ensures
        c as u32 == d as u32 ==> c == d,
{
    assert((c as int) as char == c);
    assert((d as int) as char == d);
}

impl View for CharSet {
    type V = Set<char>;

    closed spec fn view(&self) -> Set<char> {
        Set::new(|c: char| ranges_hold(self.ranges@, self.ranges@.len() as int, c as u32))
    }
}

impl CharSet {
    /// The characters from `first` to `last`, both included.
    pub open spec fn span(first: char, last: char) -> Set<char> {
        Set::new(|c: char| first as u32 <= c as u32 <= last as u32)
    }

    /// The empty set.
    pub fn new() -> (set: CharSet)
        ensures
            set@ == Set::<char>::empty(),
    {
        let set = CharSet { ranges: Vec::new() };
        assert(set@ =~= Set::<char>::empty());
        set
    }

    /// Adds one character.
    pub fn add(&mut self, character: char)
        ensures
            final(self)@ == old(self)@.insert(character),
    {
        self.add_range(character, character);
        assert forall|c: char| #[trigger]
            CharSet::span(character, character).contains(c) <==> c == character by {
            lemma_code_point_names_char(c, character);
        }
        assert(final(self)@ =~= old(self)@.insert(character));
    }

    /// Adds the characters from `first` to `last`, both included.
    pub fn add_range(&mut self, first: char, last: char)
        ensures
            final(self)@ == old(self)@.union(CharSet::span(first, last)),
    {
        self.add_codes(first as u32, last as u32);
        assert(CharSet::span(first, last) =~= CharSet::code_span(first as u32, last as u32));
    }

    /// The characters with a code point from `first` to `last`, both
    /// included.
    pub open spec fn code_span(first: u32, last: u32) -> Set<char> {
        Set::new(|c: char| first <= c as u32 <= last)
    }

    /// Adds the characters with a code point from `first` to `last`, both
    /// included.
    pub fn add_codes(&mut self, first: u32, last: u32)
        ensures
            final(self)@ == old(self)@.union(CharSet::code_span(first, last)),
    {
        let ghost before = self.ranges@;
        self.ranges.push((first, last));
        proof {
            let after = self.ranges@;
            assert forall|c: char| #[trigger]
                self@.contains(c) <==> old(self)@.contains(c) || CharSet::code_span(
                    first,
                    last,
                ).contains(c) by {
                if ranges_hold(before, before.len() as int, c as u32) {
                    let i = choose|i: int|
                        0 <= i < before.len() && (#[trigger] before[i]).0 <= c as u32 <= before[i].1;
                    assert(after[i] == before[i]);
                    assert(ranges_hold(after, after.len() as int, c as u32));
                }
                if CharSet::code_span(first, last).contains(c) {
                    assert(after[before.len() as int].0 <= c as u32 <= after[before.len() as int].1);
                    assert(ranges_hold(after, after.len() as int, c as u32));
                }
                if ranges_hold(after, after.len() as int, c as u32) {
                    let i = choose|i: int|
                        0 <= i < after.len() && (#[trigger] after[i]).0 <= c as u32 <= after[i].1;
                    if i < before.len() {
                        assert(after[i] == before[i]);
                        assert(ranges_hold(before, before.len() as int, c as u32));
                    }
                }
            }
            assert(self@ =~= old(self)@.union(CharSet::code_span(first, last)));
        }
    }

    /// The characters of a page that starts at the code point `base`: the
    /// page holds one bit for each of 256 code points, 32 to a word, the
    /// lowest bit of a word for the lowest code point.
    pub open spec fn page_chars(base: u32, page: Seq<u32>) -> Set<char> {
        Set::new(|c: char| in_page(base, page, PAGE_BITS as int, c as u32))
    }

    /// Adds the characters of a page, as Fontconfig hands the pages of a
    /// charset out. Code points that follow one another make one range.
    pub fn add_page(&mut self, base: u32, page: &[u32; 8])
        requires
            base + PAGE_BITS <= u32::MAX,
        ensures
            final(self)@ == old(self)@.union(CharSet::page_chars(base, page@)),
    {
        // Start of the run of set bits that ends just before `offset`.
        let mut run: Option<u32> = None;
        let mut offset: u32 = 0;
        assert(self@ =~= old(self)@.union(Set::<char>::empty()));
        while offset < PAGE_BITS
            invariant
                offset <= PAGE_BITS,
                base + PAGE_BITS <= u32::MAX,
                run matches Some(start) ==> start < offset && forall|o: int|
                    start <= o < offset ==> page_bit(page@, o),
                forall|c: char| #[trigger]
                    self@.contains(c) <==> old(self)@.contains(c) || in_page(
                        base,
                        page@,
                        match run {
                            Some(start) => start as int,
                            None => offset as int,
                        },
                        c as u32,
                    ),
            decreases PAGE_BITS - offset,
        {
            let word: u32 = page[(offset / 32) as usize];
            let set: bool = (word >> (offset % 32)) & 1u32 == 1u32;
            let ghost before = self@;
            match (run, set) {
                (None, true) => {
                    run = Some(offset);
                },
                (Some(start), false) => {
                    self.add_codes(base + start, base + offset - 1);
                    run = None;
                    assert forall|c: char| #[trigger]
                        self@.contains(c) <==> old(self)@.contains(c) || in_page(
                            base,
                            page@,
                            offset + 1,
                            c as u32,
                        ) by {
                        let code = c as u32;
                        if base + start <= code <= base + offset - 1 {
                            assert(page_bit(page@, code - base));
                        }
                    }
                },
                _ => {},
            }
            offset += 1;
        }
        match run {
            Some(start) => {
                self.add_codes(base + start, base + PAGE_BITS - 1);
                assert forall|c: char| #[trigger]
                    self@.contains(c) <==> old(self)@.contains(c) || in_page(
                        base,
                        page@,
                        PAGE_BITS as int,
                        c as u32,
                    ) by {
                    let code = c as u32;
                    if base + start <= code <= base + PAGE_BITS - 1 {
                        assert(page_bit(page@, code - base));
                    }
                }
            },
            None => {},
        }
        assert(self@ =~= old(self)@.union(CharSet::page_chars(base, page@)));
    }

    /// Adds every character of `other`. The set never loses a character by
    /// this.
    pub fn merge(&mut self, other: &CharSet)
        ensures
            final(self)@ == old(self)@.union(other@),
            old(self)@.subset_of(final(self)@),
    {
        let ghost before = self.ranges@;
        let mut at: usize = 0;
        while at < other.ranges.len()
            invariant
                at <= other.ranges@.len(),
                self.ranges@ == before + other.ranges@.take(at as int),
            decreases other.ranges@.len() - at,
        {
            let range: (u32, u32) = other.ranges[at];
            self.ranges.push(range);
            at += 1;
            assert(self.ranges@ =~= before + other.ranges@.take(at as int));
        }
        proof {
            assert(other.ranges@.take(at as int) =~= other.ranges@);
            let after = self.ranges@;
            let added = other.ranges@;
            assert forall|c: char| #[trigger]
                self@.contains(c) <==> old(self)@.contains(c) || other@.contains(c) by {
                if ranges_hold(before, before.len() as int, c as u32) {
                    let i = choose|i: int|
                        0 <= i < before.len() && (#[trigger] before[i]).0 <= c as u32 <= before[i].1;
                    assert(after[i] == before[i]);
                    assert(ranges_hold(after, after.len() as int, c as u32));
                }
                if ranges_hold(added, added.len() as int, c as u32) {
                    let i = choose|i: int|
                        0 <= i < added.len() && (#[trigger] added[i]).0 <= c as u32 <= added[i].1;
                    assert(after[before.len() + i] == added[i]);
                    assert(ranges_hold(after, after.len() as int, c as u32));
                }
                if ranges_hold(after, after.len() as int, c as u32) {
                    let i = choose|i: int|
                        0 <= i < after.len() && (#[trigger] after[i]).0 <= c as u32 <= after[i].1;
                    if i < before.len() {
                        assert(after[i] == before[i]);
                        assert(ranges_hold(before, before.len() as int, c as u32));
                    } else {
                        assert(after[i] == added[i - before.len()]);
                        assert(ranges_hold(added, added.len() as int, c as u32));
                    }
                }
            }
            assert(self@ =~= old(self)@.union(other@));
        }
    }

    /// Whether the set holds the character.
    pub fn has_char(&self, character: char) -> (found: bool)
        ensures
            found == self@.contains(character),
    {
        let code: u32 = character as u32;
        let mut at: usize = 0;
        while at < self.ranges.len()
            invariant
                at <= self.ranges@.len(),
                code == character as u32,
                !ranges_hold(self.ranges@, at as int, code),
            decreases self.ranges@.len() - at,
        {
            let range: (u32, u32) = self.ranges[at];
            if range.0 <= code && code <= range.1 {
                assert(self.ranges@[at as int].0 <= code <= self.ranges@[at as int].1);
                return true;
            }
            at += 1;
        }
        false
    }
}

impl Clone for CharSet {
    fn clone(&self) -> (copy: CharSet)
        ensures
            copy@ == self@,
    {
        let mut copy = CharSet::new();
        copy.merge(self);
        assert(copy@ =~= self@);
        copy
    }
}

} // verus!
