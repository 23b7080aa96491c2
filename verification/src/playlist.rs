//! Saved playlists: a name and the paths of its tracks. The file is written and
//! read by the program; the library decides the file name.
use vstd::prelude::*;

use crate::error::AppError;
use crate::text::{
    chars_of, control, is_control, push_char, push_str, string_from_chars, trim, trim_chars,
};

verus! {

/// A named list of track paths.
#[derive(Debug)]
pub struct Playlist {
    /// The name given by the user.
    pub name: String,
    /// The paths of the tracks, in order.
    pub paths: Vec<String>,
}

/// Whether `c` cannot stand in a file name and is replaced by `_`.
pub open spec fn unsafe_char(c: char) -> bool {
    c == '/' || c == '\0' || is_control(c)
}

/// `s` with every unsafe character replaced by `_`.
pub open spec fn safe_chars(s: Seq<char>) -> Seq<char> {
    Seq::new(s.len(), |i: int| if unsafe_char(s[i]) { '_' } else { s[i] })
}

/// The file name a playlist is saved under: the name without surrounding white
/// space, unsafe characters replaced, and `.json` appended; `None` when the name is
/// empty or only white space.
pub open spec fn playlist_file(name: Seq<char>) -> Option<Seq<char>> {
    if trim(name).len() == 0 {
        None
    } else {
        Some(safe_chars(trim(name)) + ".json"@)
    }
}

/// The message for a name that is empty or only white space.
pub open spec fn empty_name_message() -> Seq<char> {
    "playlist name must not be empty or whitespace-only"@
}

/// Whether `c` is the lower-case ASCII letter `lower` in either case.
pub open spec fn ascii_letter_is(c: char, lower: char) -> bool {
    c == lower || c as int + 32 == lower as int
}

/// Whether a file extension is `json` in any ASCII letter case
/// (`eq_ignore_ascii_case("json")`): the files the playlist directory holds.
pub open spec fn playlist_extension(ext: Seq<char>) -> bool {
    &&& ext.len() == 4
    &&& ascii_letter_is(ext[0], 'j')
    &&& ascii_letter_is(ext[1], 's')
    &&& ascii_letter_is(ext[2], 'o')
    &&& ascii_letter_is(ext[3], 'n')
}

fn letter_is(c: char, lower: char) -> (r: bool)
    requires
        'a' <= lower <= 'z',
    ensures
        r == ascii_letter_is(c, lower),
{
    c == lower || (c as u32) + 32 == lower as u32
}

/// Whether a file with extension `ext` is read as a saved playlist.
pub fn is_playlist_extension(ext: &str) -> (r: bool)
    ensures
        r == playlist_extension(ext@),
{
    let cs = chars_of(ext);
    cs.len() == 4 && letter_is(cs[0], 'j') && letter_is(cs[1], 's') && letter_is(cs[2], 'o')
        && letter_is(cs[3], 'n')
}

impl Playlist {
    /// A playlist called `name` holding `paths`.
    pub fn new(name: &str, paths: Vec<String>) -> (p: Self)
        ensures
            p.name@ == name@,
            p.paths@ == paths@,
    {
        Playlist { name: name.to_owned(), paths }
    }

    /// The name of the file the playlist is saved as inside the playlist
    /// directory. A name that is empty or only white space is refused.
    pub fn file_name(&self) -> (r: Result<String, AppError>)
        ensures
            match playlist_file(self.name@) {
                Some(f) => r matches Ok(s) && s@ == f,
                None => r matches Err(AppError::Other(m)) && m@ == empty_name_message(),
            },
    {
        let cs = chars_of(self.name.as_str());
        let trimmed = trim_chars(&cs);
        if trimmed.len() == 0 {
            return Err(AppError::Other(
                string_from_chars(&chars_of("playlist name must not be empty or whitespace-only")),
            ));
        }
        let mut out = String::new();
        let n = trimmed.len();
        let mut i: usize = 0;
        while i < n
            invariant
                i <= n,
                n == trimmed@.len(),
                out@ == safe_chars(trimmed@).take(i as int),
            decreases n - i,
        {
            let c = trimmed[i];
            if c == '/' || c == '\0' || control(c) {
                push_char(&mut out, '_');
            } else {
                push_char(&mut out, c);
            }
            i = i + 1;
            assert(out@ =~= safe_chars(trimmed@).take(i as int));
        }
        assert(safe_chars(trimmed@).take(n as int) =~= safe_chars(trimmed@));
        push_str(&mut out, ".json");
        Ok(out)
    }
}

/// Saving never fails for a name with a visible character, and the file name
/// always ends in `.json` and holds no `/`, NUL or control character.
pub proof fn lemma_file_name_safe(name: Seq<char>)
    requires
        playlist_file(name) is Some,
    ensures
        ({
            let f = playlist_file(name)->0;
            let stem = safe_chars(trim(name));
            &&& f == stem + ".json"@
            &&& stem.len() == trim(name).len()
            &&& forall|i: int| 0 <= i < stem.len() ==> !unsafe_char(#[trigger] stem[i])
        }),
{
}

} // verus!
