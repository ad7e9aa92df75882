//! Fallback fonts of a primary font, and the walk that finds the face for a
//! character.

use vstd::prelude::*;

use crate::font::FontKey;
use crate::ft::fc::CharSet;

verus! {

/// What a fallback font stands for in contracts: its key and the characters
/// that it declares. A font that declares nothing covers nothing.
pub struct Candidate {
    pub key: FontKey,
    pub coverage: Set<char>,
}

/// A font to fall back to, which is loaded only when a character asks for
/// it.
#[derive(Debug)]
pub struct FallbackFont {
    charset: Option<CharSet>,
    key: FontKey,
}

impl View for FallbackFont {
    type V = Candidate;

    closed spec fn view(&self) -> Candidate {
        Candidate {
            key: self.key,
            coverage: match self.charset {
                Some(charset) => charset@,
                None => Set::empty(),
            },
        }
    }
}

impl FallbackFont {
    /// A fallback font with the characters that it declares, if it declares
    /// any, and the key that it is loaded under.
    pub fn new(charset: Option<CharSet>, key: FontKey) -> (font: FallbackFont)
        ensures
            font@.key == key,
            font@.coverage == match charset {
                Some(charset) => charset@,
                None => Set::<char>::empty(),
            },
    {
        FallbackFont { charset, key }
    }

    /// The key that the font is loaded under.
    pub fn key(&self) -> (key: FontKey)
        ensures
            key == self@.key,
    {
        self.key
    }

    /// Whether the font declares the character.
    pub fn has_char(&self, character: char) -> (found: bool)
        ensures
            found == self@.coverage.contains(character),
    {
        match &self.charset {
            Some(charset) => charset.has_char(character),
            None => false,
        }
    }
}

/// The candidates that a sequence of fallback fonts stands for.
pub open spec fn candidates_of(fonts: Seq<FallbackFont>) -> Seq<Candidate> {
    Seq::new(fonts.len(), |i: int| fonts[i]@)
}

/// The characters that at least one of the candidates declares.
pub open spec fn combined_coverage(candidates: Seq<Candidate>) -> Set<char> {
    Set::new(
        |c: char|
            exists|i: int|
                0 <= i < candidates.len() && (#[trigger] candidates[i]).coverage.contains(c),
    )
}

/// A further candidate adds its characters to the combined coverage and
/// takes none away.
pub proof fn lemma_coverage_grows(candidates: Seq<Candidate>, added: Candidate)
    ensures
        combined_coverage(candidates.push(added)) == combined_coverage(candidates).union(
            added.coverage,
        ),
        combined_coverage(candidates).subset_of(combined_coverage(candidates.push(added))),
{
    let more = candidates.push(added);
    assert forall|c: char| #[trigger]
        combined_coverage(more).contains(c) <==> combined_coverage(candidates).contains(c)
            || added.coverage.contains(c) by {
        if combined_coverage(candidates).contains(c) {
            let i = choose|i: int|
                0 <= i < candidates.len() && (#[trigger] candidates[i]).coverage.contains(c);
            assert(more[i].coverage.contains(c));
        }
        if added.coverage.contains(c) {
            assert(more[candidates.len() as int].coverage.contains(c));
        }
        if combined_coverage(more).contains(c) {
            let i = choose|i: int| 0 <= i < more.len() && (#[trigger] more[i]).coverage.contains(c);
            if i < candidates.len() {
                assert(candidates[i].coverage.contains(c));
            }
        }
    }
    assert(combined_coverage(more) =~= combined_coverage(candidates).union(added.coverage));
}

/// The fallback fonts of one primary font, best match first, with the
/// characters that they declare between them.
#[derive(Debug)]
pub struct FallbackList {
    list: Vec<FallbackFont>,
    coverage: CharSet,
}

impl View for FallbackList {
    type V = Seq<Candidate>;

    closed spec fn view(&self) -> Seq<Candidate> {
        candidates_of(self.list@)
    }
}

impl FallbackList {
    #[verifier::type_invariant]
    spec fn inv(&self) -> bool {
        self.coverage@ == combined_coverage(candidates_of(self.list@))
    }

    /// The list of the given fonts, in their order.
    pub fn new(list: Vec<FallbackFont>) -> (fallbacks: FallbackList)
        ensures
            fallbacks@ == candidates_of(list@),
    {
        let mut coverage = CharSet::new();
        let mut at: usize = 0;
        assert(coverage@ =~= combined_coverage(candidates_of(list@.take(0))));
        while at < list.len()
            invariant
                at <= list@.len(),
                coverage@ == combined_coverage(candidates_of(list@.take(at as int))),
            decreases list@.len() - at,
        {
            proof {
                lemma_coverage_grows(candidates_of(list@.take(at as int)), list@[at as int]@);
                assert(candidates_of(list@.take(at as int)).push(list@[at as int]@)
                    =~= candidates_of(list@.take(at + 1)));
            }
            match &list[at].charset {
                Some(charset) => {
                    coverage.merge(charset);
                },
                None => {
                    assert(coverage@.union(Set::<char>::empty()) =~= coverage@);
                },
            }
            at += 1;
        }
        assert(list@.take(at as int) =~= list@);
        FallbackList { list, coverage }
    }

    /// A list has no more fonts than can be counted.
    pub proof fn lemma_len_fits(&self)
        ensures
            self@.len() <= usize::MAX,
    {
        assert(self.list.len() == self.list@.len());
    }

    /// Number of fallback fonts.
    pub fn len(&self) -> (len: usize)
        ensures
            len == self@.len(),
    {
        self.list.len()
    }

    /// The fallback font at `position`.
    pub fn get(&self, position: usize) -> (font: &FallbackFont)
        requires
            position < self@.len(),
        ensures
            font@ == self@[position as int],
    {
        &self.list[position]
    }

    /// Whether at least one fallback font declares the character.
    pub fn covers(&self, character: char) -> (found: bool)
        ensures
            found == combined_coverage(self@).contains(character),
    {
        proof {
            use_type_invariant(self);
        }
        self.coverage.has_char(character)
    }
}

/// What to do next in the search for the face of a character.
#[derive(Debug, Copy, Clone, PartialEq, Eq)]
#[allow(inconsistent_fields)]
pub enum Step {
    /// Ask the loaded face `key` for the glyph index of the character.
    /// `position` is the face's place among the fallback fonts: `None` for
    /// the primary face.
    Probe { key: FontKey, position: Option<usize> },
    /// Load the face of the fallback font at `position`, which goes by
    /// `key`.
    Load { key: FontKey, position: usize },
    /// Rasterize with the face `key`.
    Done { key: FontKey },
}

impl Step {
    /// Upper bound on the glyph index checks that are still to come when
    /// this step is due, its own included, with `candidates` fallback fonts.
    pub open spec fn checks_left(self, candidates: int) -> int {
        match self {
            Step::Probe { position: None, .. } => candidates + 1,
            Step::Probe { position: Some(position), .. } => candidates - position,
            Step::Load { position, .. } => candidates - position,
            Step::Done { .. } => 0,
        }
    }

    /// Upper bound on the steps that are still to come when this step is
    /// due, itself included, with `candidates` fallback fonts.
    pub open spec fn steps_left(self, candidates: int) -> int {
        match self {
            Step::Probe { position: None, .. } => 2 * candidates + 1,
            Step::Probe { position: Some(position), .. } => 2 * (candidates - position) - 1,
            Step::Load { position, .. } => 2 * (candidates - position),
            Step::Done { .. } => 0,
        }
    }
}

/// The step that the walk takes when it reaches the fallback font at `from`.
///
/// A font whose face is loaded is asked for the glyph. One that is not
/// loaded is loaded if it declares the character, and passed over if it does
/// not. After the last font the primary face is used.
pub open spec fn scan(
    loaded: Set<u32>,
    candidates: Seq<Candidate>,
    character: char,
    from: int,
    primary: FontKey,
) -> Step
    decreases candidates.len() - from,
{
    if from < 0 || from >= candidates.len() {
        Step::Done { key: primary }
    } else if loaded.contains(candidates[from].key.token()) {
        Step::Probe { key: candidates[from].key, position: Some(from as usize) }
    } else if candidates[from].coverage.contains(character) {
        Step::Load { key: candidates[from].key, position: from as usize }
    } else {
        scan(loaded, candidates, character, from + 1, primary)
    }
}

/// The walk only moves on: the step taken at `from` ends the search or
/// concerns a fallback font at `from` or after it.
pub proof fn lemma_scan_moves_on(
    loaded: Set<u32>,
    candidates: Seq<Candidate>,
    character: char,
    from: int,
    primary: FontKey,
)
    requires
        0 <= from,
        candidates.len() <= usize::MAX,
    ensures
        scan(loaded, candidates, character, from, primary).checks_left(candidates.len() as int)
            <= candidates.len() - from || from > candidates.len(),
        scan(loaded, candidates, character, from, primary).steps_left(candidates.len() as int) <= 2
            * (candidates.len() - from) || from > candidates.len(),
        scan(
            loaded,
            candidates,
            character,
            from,
            primary,
        ).checks_left(candidates.len() as int) >= 0,
        scan(loaded, candidates, character, from, primary).steps_left(candidates.len() as int) >= 0,
    decreases candidates.len() - from,
{
    if from < candidates.len() && !loaded.contains(candidates[from].key.token())
        && !candidates[from].coverage.contains(character) {
        lemma_scan_moves_on(loaded, candidates, character, from + 1, primary);
    }
}

/// Whether the walk has something to do at a fallback font: its face is
/// loaded, or the font declares the character.
pub open spec fn is_of_use(loaded: Set<u32>, candidate: Candidate, character: char) -> bool {
    loaded.contains(candidate.key.token()) || candidate.coverage.contains(character)
}

/// The walk stops at the first fallback font that is of use: a face is
/// probed only if it is loaded, and loaded only if it is not loaded yet and
/// its font declares the character. Every font that the walk passes is of
/// no use, and the walk ends with the primary face only if no font is of
/// use.
pub proof fn lemma_scan_stops_at_first_of_use(
    loaded: Set<u32>,
    candidates: Seq<Candidate>,
    character: char,
    from: int,
    primary: FontKey,
)
    requires
        0 <= from,
        candidates.len() <= usize::MAX,
    ensures
        match scan(loaded, candidates, character, from, primary) {
            Step::Probe { key, position: Some(position) } => {
                &&& from <= position < candidates.len()
                &&& key == candidates[position as int].key
                &&& loaded.contains(key.token())
                &&& forall|i: int|
                    from <= i < position ==> !is_of_use(loaded, #[trigger] candidates[i], character)
            },
            Step::Probe { key, position: None } => false,
            Step::Load { key, position } => {
                &&& from <= position < candidates.len()
                &&& key == candidates[position as int].key
                &&& !loaded.contains(key.token())
                &&& candidates[position as int].coverage.contains(character)
                &&& forall|i: int|
                    from <= i < position ==> !is_of_use(loaded, #[trigger] candidates[i], character)
            },
            Step::Done { key } => {
                &&& key == primary
                &&& forall|i: int|
                    from <= i < candidates.len() ==> !is_of_use(
                        loaded,
                        #[trigger] candidates[i],
                        character,
                    )
            },
        },
    decreases candidates.len() - from,
{
    if from < candidates.len() && !is_of_use(loaded, candidates[from], character) {
        lemma_scan_stops_at_first_of_use(loaded, candidates, character, from + 1, primary);
    }
}

} // verus!
