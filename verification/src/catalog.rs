//! The tracks of a session: an ordered list of stable names, each derived
//! from a file name.

use vstd::prelude::*;
use vstd::string::*;
use crate::text::{
    begins_with, chars_of, occurs_at, same_text, strip_whitespace, without_whitespace, word_at,
};

verus! {

/// Where `word` first stands in `s`; the length of `s` where it does not.
pub open spec fn first_occurrence(s: Seq<char>, word: Seq<char>) -> nat
    decreases s.len(),
{
    if s.len() == 0 || begins_with(s, word) {
        0
    } else {
        1 + first_occurrence(s.drop_first(), word)
    }
}

/// `first_occurrence` is the least position at which the word stands.
pub proof fn lemma_first_occurrence(s: Seq<char>, word: Seq<char>, at: int)
    requires
        0 <= at <= s.len(),
        forall|j: int| 0 <= j < at ==> !occurs_at(s, word, j),
        at < s.len() ==> occurs_at(s, word, at),
    ensures
        first_occurrence(s, word) == at,
    decreases s.len(),
{
    if s.len() == 0 {
    } else if begins_with(s, word) {
        if at > 0 {
            assert(occurs_at(s, word, 0));
        }
    } else {
        let rest = s.drop_first();
        assert(at > 0);
        assert forall|j: int| 0 <= j < at - 1 implies !occurs_at(rest, word, j) by {
            if occurs_at(rest, word, j) {
                assert(s.subrange(j + 1, j + 1 + word.len()) =~= rest.subrange(j, j + word.len()));
                assert(occurs_at(s, word, j + 1));
            }
        }
        if at < s.len() {
            assert(rest.subrange(at - 1, at - 1 + word.len()) =~= s.subrange(at, at + word.len()));
        }
        lemma_first_occurrence(rest, word, at - 1);
    }
}

/// Whether a file name is that of a track: whether `.mp3` stands in it.
pub open spec fn is_song(file_name: Seq<char>) -> bool {
    first_occurrence(file_name, ".mp3"@) < file_name.len()
}

/// The stable name of the track in the file `file_name`: what stands before
/// the first `.mp3`, with each `-` turned into a space.
pub open spec fn song_name(file_name: Seq<char>) -> Seq<char> {
    file_name.take(first_occurrence(file_name, ".mp3"@) as int).map_values(
        |c: char|
            if c == '-' {
                ' '
            } else {
                c
            },
    )
}

/// Finds the first `.mp3` in a file name.
fn find_extension(chars: &[char]) -> (at: usize)
    ensures
        at == first_occurrence(chars@, ".mp3"@),
        at <= chars@.len(),
{
    let extension = chars_of(".mp3");
    let mut at: usize = 0;
    while at < chars.len() && !word_at(chars, extension.as_slice(), at)
        invariant
            at <= chars@.len(),
            extension@ == ".mp3"@,
            forall|j: int| 0 <= j < at ==> !occurs_at(chars@, ".mp3"@, j),
        decreases chars@.len() - at,
    {
        at += 1;
    }
    proof {
        lemma_first_occurrence(chars@, ".mp3"@, at as int);
    }
    at
}

/// Tests whether a file name is that of a track.
pub fn is_song_file(file_name: &str) -> (song: bool)
    ensures
        song == is_song(file_name@),
{
    let chars = chars_of(file_name);
    find_extension(chars.as_slice()) < chars.len()
}

/// Derives the stable name of a track from its file name.
pub fn get_song_name(file_name: &str) -> (name: String)
    requires
        is_song(file_name@),
    ensures
        name@ == song_name(file_name@),
{
    let chars = chars_of(file_name);
    let end = find_extension(chars.as_slice());
    let mut name = String::new();
    let mut i: usize = 0;
    proof {
        reveal_strlit(" ");
    }
    while i < end
        invariant
            i <= end <= chars@.len(),
            chars@ == file_name@,
            end == first_occurrence(file_name@, ".mp3"@),
            " "@ == seq![' '],
            name@ == song_name(file_name@).take(i as int),
        decreases end - i,
    {
        if chars[i] == '-' {
            name.append(" ");
        } else {
            name.append(file_name.substring_char(i, i + 1));
        }
        assert(name@ =~= song_name(file_name@).take(i + 1));
        i += 1;
    }
    assert(song_name(file_name@).take(end as int) =~= song_name(file_name@));
    name
}

/// The texts of a list of strings.
pub open spec fn texts(strings: Seq<String>) -> Seq<Seq<char>> {
    Seq::new(strings.len(), |i: int| strings[i]@)
}

/// Whether `names[at]` repeats an earlier name.
pub open spec fn repeats(names: Seq<Seq<char>>, at: int) -> bool {
    exists|j: int| 0 <= j < at && names[j] == names[at]
}

/// Why a list of files or names does not make a catalog.
#[derive(Clone, Copy, Debug, PartialEq, Eq, Structural)]
pub enum CatalogError {
    /// The file at this place of the listing is no track.
    NotASong(usize),
    /// The track at this place of the catalog has the name of an earlier one.
    DuplicateName(usize),
}

/// The tracks of a session, in playing order. No two have the same name.
pub struct Catalog {
    names: Vec<String>,
}

impl View for Catalog {
    type V = Seq<Seq<char>>;

    closed spec fn view(&self) -> Seq<Seq<char>> {
        texts(self.names@)
    }
}

impl Catalog {
    /// Whether no name stands twice: what every catalog made by `new` or
    /// `from_listing` satisfies.
    pub open spec fn wf(&self) -> bool {
        self@.no_duplicates()
    }

    /// Makes a catalog of the given names, unless one of them stands twice:
    /// then the error names the first that repeats an earlier one.
    pub fn new(names: Vec<String>) -> (catalog: Result<Catalog, CatalogError>)
        ensures
            match catalog {
                Ok(catalog) => catalog@ == texts(names@) && catalog.wf(),
                Err(CatalogError::DuplicateName(at)) => at < names@.len() && repeats(
                    texts(names@),
                    at as int,
                ) && forall|k: int| 0 <= k < at ==> !repeats(texts(names@), k),
                Err(CatalogError::NotASong(_)) => false,
            },
    {
        let ghost all = texts(names@);
        let mut at: usize = 0;
        while at < names.len()
            invariant
                at <= names@.len(),
                all == texts(names@),
                forall|k: int| 0 <= k < at ==> !repeats(all, k),
            decreases names@.len() - at,
        {
            let name = chars_of(names[at].as_str());
            let mut j: usize = 0;
            while j < at
                invariant
                    j <= at < names@.len(),
                    all == texts(names@),
                    name@ == all[at as int],
                    forall|k: int| 0 <= k < at ==> !repeats(all, k),
                    forall|k: int| 0 <= k < j ==> all[k] != all[at as int],
                decreases at - j,
            {
                let earlier = chars_of(names[j].as_str());
                if same_text(earlier.as_slice(), name.as_slice()) {
                    assert(all[j as int] == all[at as int]);
                    return Err(CatalogError::DuplicateName(at));
                }
                j += 1;
            }
            at += 1;
        }
        let catalog = Catalog { names };
        assert forall|i: int, j: int|
            0 <= i < all.len() && 0 <= j < all.len() && i != j implies all[i] != all[j] by {
            if i < j {
                assert(!repeats(all, j));
            } else {
                assert(!repeats(all, i));
            }
        }
        Ok(catalog)
    }

    /// The number of tracks.
    pub fn len(&self) -> (len: usize)
        ensures
            len == self@.len(),
    {
        self.names.len()
    }

    /// The stable name of track `index`.
    pub fn name(&self, index: usize) -> (name: &str)
        requires
            index < self@.len(),
        ensures
            name@ == self@[index as int],
    {
        self.names[index].as_str()
    }
}

/// The first track whose name, written without white space, is `squeezed`.
pub open spec fn first_match(names: Seq<Seq<char>>, squeezed: Seq<char>) -> Option<int>
    decreases names.len(),
{
    if names.len() == 0 {
        None
    } else {
        match first_match(names.drop_last(), squeezed) {
            Some(index) => Some(index),
            None => if without_whitespace(names.last()) == squeezed {
                Some(names.len() - 1)
            } else {
                None
            },
        }
    }
}

/// What `first_match` finds is a track of that name, and the first such.
pub proof fn lemma_first_match(names: Seq<Seq<char>>, squeezed: Seq<char>)
    ensures
        match first_match(names, squeezed) {
            Some(index) => 0 <= index < names.len() && without_whitespace(names[index])
                == squeezed && forall|k: int|
                0 <= k < index ==> without_whitespace(#[trigger] names[k]) != squeezed,
            None => forall|k: int|
                0 <= k < names.len() ==> without_whitespace(#[trigger] names[k]) != squeezed,
        },
    decreases names.len(),
{
    if names.len() > 0 {
        let front = names.drop_last();
        lemma_first_match(front, squeezed);
        assert forall|k: int| 0 <= k < front.len() implies front[k] == names[k] by {}
        match first_match(front, squeezed) {
            Some(index) => {
                assert(front[index] == names[index]);
                assert forall|k: int| 0 <= k < index implies without_whitespace(
                    #[trigger] names[k],
                ) != squeezed by {
                    assert(front[k] == names[k]);
                }
            },
            None => {
                assert forall|k: int| 0 <= k < names.len() - 1 implies without_whitespace(
                    #[trigger] names[k],
                ) != squeezed by {
                    assert(front[k] == names[k]);
                }
            },
        }
    }
}

impl Catalog {
    /// Finds a track by its name written without white space.
    pub fn find_by_name(&self, squeezed: &[char]) -> (found: Option<usize>)
        ensures
            found matches Some(index) ==> index < self@.len(),
            match first_match(self@, squeezed@) {
                Some(index) => found == Some(index as usize),
                None => found is None,
            },
    {
        proof {
            lemma_first_match(self@, squeezed@);
        }
        let mut i: usize = 0;
        while i < self.names.len()
            invariant
                i <= self@.len(),
                self@.len() == self.names@.len(),
                first_match(self@.take(i as int), squeezed@) is None,
            decreases self@.len() - i,
        {
            let name = chars_of(self.names[i].as_str());
            let bare = strip_whitespace(name.as_slice());
            assert(self@.take(i + 1).drop_last() =~= self@.take(i as int));
            assert(self@.take(i + 1).last() == name@);
            if same_text(bare.as_slice(), squeezed) {
                proof {
                    lemma_first_match_stays(self@, squeezed@, i + 1);
                }
                return Some(i);
            }
            i += 1;
        }
        assert(self@.take(i as int) =~= self@);
        None
    }

    /// Makes the catalog of a directory listing. The first file of the
    /// listing is set aside; every other must be a track, and no two may have
    /// the same name.
    pub fn from_listing(file_names: &Vec<String>) -> (catalog: Result<Catalog, CatalogError>)
        ensures
            match catalog {
                Ok(catalog) => {
                    &&& forall|k: int|
                        1 <= k < file_names@.len() ==> is_song(#[trigger] file_names@[k]@)
                    &&& catalog@ == listing_names(texts(file_names@))
                    &&& catalog.wf()
                },
                Err(CatalogError::NotASong(at)) => {
                    &&& 1 <= at < file_names@.len()
                    &&& !is_song(file_names@[at as int]@)
                    &&& forall|k: int| 1 <= k < at ==> is_song(#[trigger] file_names@[k]@)
                },
                Err(CatalogError::DuplicateName(at)) => {
                    let names = listing_names(texts(file_names@));
                    &&& forall|k: int|
                        1 <= k < file_names@.len() ==> is_song(#[trigger] file_names@[k]@)
                    &&& at < names.len()
                    &&& repeats(names, at as int)
                    &&& forall|k: int| 0 <= k < at ==> !repeats(names, k)
                },
            },
    {
        let mut names: Vec<String> = Vec::new();
        if file_names.len() == 0 {
            assert(texts(names@) =~= listing_names(texts(file_names@)));
            return Catalog::new(names);
        }
        let mut i: usize = 1;
        while i < file_names.len()
            invariant
                1 <= i <= file_names@.len(),
                names@.len() == i - 1,
                forall|k: int| 1 <= k < i ==> is_song(#[trigger] file_names@[k]@),
                forall|k: int|
                    0 <= k < names@.len() ==> (#[trigger] names@[k])@ == song_name(
                        file_names@[k + 1]@,
                    ),
            decreases file_names@.len() - i,
        {
            if !is_song_file(file_names[i].as_str()) {
                return Err(CatalogError::NotASong(i));
            }
            names.push(get_song_name(file_names[i].as_str()));
            i += 1;
        }
        assert(texts(names@) =~= listing_names(texts(file_names@)));
        Catalog::new(names)
    }
}

/// A match among the first tracks is the match among all.
pub proof fn lemma_first_match_stays(names: Seq<Seq<char>>, squeezed: Seq<char>, k: int)
    requires
        0 <= k <= names.len(),
        first_match(names.take(k), squeezed) is Some,
    ensures
        first_match(names, squeezed) == first_match(names.take(k), squeezed),
    decreases names.len() - k,
{
    if k == names.len() {
        assert(names.take(k) =~= names);
    } else {
        assert(names.take(k + 1).drop_last() =~= names.take(k));
        lemma_first_match_stays(names, squeezed, k + 1);
    }
}

/// The names of the tracks of a directory listing: those of all its files
/// but the first, which is set aside and is no track.
pub open spec fn listing_names(file_names: Seq<Seq<char>>) -> Seq<Seq<char>> {
    if file_names.len() == 0 {
        Seq::<Seq<char>>::empty()
    } else {
        file_names.skip(1).map_values(|file_name: Seq<char>| song_name(file_name))
    }
}

} // verus!
