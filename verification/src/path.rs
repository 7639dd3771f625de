//! File system paths as a Unix host has them: strings of bytes in which `/` parts the names.

use vstd::prelude::*;
use vstd::utf8::{decode_utf8, encode_utf8, valid_utf8};

use crate::clean::{
    clean_text_path, cleaned_text, law_dots_take_the_name_away, lemma_clean_stays,
    lemma_cleaned_chars, lemma_cleaned_is_clean, proper_name,
};

verus! {

/// A path of the host's file system. Its bytes need not be UTF-8.
#[derive(Debug, Clone)]
pub struct LocalPath {
    pub bytes: Vec<u8>,
}

impl View for LocalPath {
    type V = Seq<u8>;

    open spec fn view(&self) -> Seq<u8> {
        self.bytes@
    }
}

// ---- What is said of paths ----

/// The byte that parts the names of a path.
pub const SEPARATOR: u8 = 47;

/// The path begins at the root.
pub open spec fn absolute(path: Seq<u8>) -> bool {
    path.len() > 0 && path[0] == SEPARATOR
}

/// `path` taken relative to `base`: an absolute path stands for itself; any other is put behind
/// the base and, unless the base is empty or ends in one, a separator.
pub open spec fn joined_path(base: Seq<u8>, path: Seq<u8>) -> Seq<u8> {
    if absolute(path) {
        path
    } else if base.len() == 0 || base.last() == SEPARATOR {
        base + path
    } else {
        base.push(SEPARATOR) + path
    }
}

/// The text with, for each byte, the character of the same number.
pub open spec fn widened(bytes: Seq<u8>) -> Seq<char> {
    bytes.map_values(|b: u8| b as char)
}

/// The bytes with, for each character, the byte of the same number.
pub open spec fn narrowed(s: Seq<char>) -> Seq<u8> {
    s.map_values(|c: char| c as u8)
}

/// The path without the elements that lead nowhere. Nothing but `/` and `.` has a part in that, so
/// it may be found with one character for each byte.
pub open spec fn cleaned(path: Seq<u8>) -> Seq<u8> {
    narrowed(cleaned_text(widened(path)))
}

/// The path is a clean one from the root.
pub open spec fn clean_path(path: Seq<u8>) -> bool {
    clean_text_path(widened(path))
}

/// What the standard library shows of bytes that are meant as UTF-8: `String::from_utf8_lossy`.
pub uninterp spec fn lossy_text(bytes: Seq<u8>) -> Seq<char>;

/// The text of a path, where its bytes are UTF-8.
pub open spec fn path_text(path: Seq<u8>) -> Option<Seq<char>> {
    if valid_utf8(path) {
        Some(decode_utf8(path))
    } else {
        None
    }
}

/// The path as it is shown to a reader: its text, or where its bytes are not UTF-8 what the
/// standard library makes of them.
pub open spec fn shown_path(path: Seq<u8>) -> Seq<char> {
    match path_text(path) {
        Some(s) => s,
        None => lossy_text(path),
    }
}

// ---- Calls into other code ----

/// `path_clean::clean`, on a path given as text. It goes through the components of the path, leaves
/// out those that lead nowhere, lets `..` take away the name before it, and puts what is left
/// together again; where that is nothing, it gives `.`.
#[verifier::external_body]
fn clean_text(path: &str) -> (r: String)
    ensures
        r@ == cleaned_text(path@),
{
    path_clean::clean(path).to_string_lossy().into_owned()
}

/// The standard library's `String::from_utf8_lossy`: it gives the text of bytes that are UTF-8,
/// and puts a replacement character where they are not.
#[verifier::external_body]
fn show_bytes(bytes: &Vec<u8>) -> (r: String)
    ensures
        r@ == lossy_text(bytes@),
        valid_utf8(bytes@) ==> r@ == decode_utf8(bytes@),
{
    String::from_utf8_lossy(bytes.as_slice()).into_owned()
}

/// The standard library's `String::from_utf8`: the text of bytes that are UTF-8, and nothing
/// where they are not.
#[verifier::external_body]
fn read_utf8(bytes: Vec<u8>) -> (r: Option<String>)
    ensures
        match r {
            Some(s) => valid_utf8(bytes@) && s@ == decode_utf8(bytes@),
            None => !valid_utf8(bytes@),
        },
{
    String::from_utf8(bytes).ok()
}

/// `dirs::home_dir`: the home directory of the user, where one is known. Which it is depends on
/// the environment and the user database; it is never the empty path.
#[verifier::external_body]
pub(crate) fn home_dir() -> (r: Option<LocalPath>)
    ensures
        r matches Some(home) ==> home@.len() > 0,
{
    match dirs::home_dir() {
        Some(home) => Some(LocalPath { bytes: home.into_os_string().into_encoded_bytes() }),
        None => None,
    }
}

// ---- Clean paths ----

/// Two dots take away the name before them: a path leads where it does without a name and two
/// dots behind it.
pub proof fn law_parent_of_a_name(front: Seq<u8>, name: Seq<u8>, rest: Seq<u8>)
    requires
        proper_name(widened(name)),
        rest.len() == 0 || rest[0] == SEPARATOR,
        front.len() + rest.len() > 0,
    ensures
        cleaned(front + seq![SEPARATOR] + name + seq![SEPARATOR, 46u8, 46u8] + rest) == cleaned(
            front + rest,
        ),
{
    law_dots_take_the_name_away(widened(front), widened(name), widened(rest));
    assert(widened(front + seq![SEPARATOR] + name + seq![SEPARATOR, 46u8, 46u8] + rest)
        =~= widened(front) + seq!['/'] + widened(name) + seq!['/', '.', '.'] + widened(rest));
    assert(widened(front + rest) =~= widened(front) + widened(rest));
}

// ---- Operations ----

impl LocalPath {
    /// The path that text stands for.
    pub fn from_text(s: &str) -> (r: LocalPath)
        ensures
            r@ == encode_utf8(s@),
    {
        LocalPath { bytes: s.as_bytes_vec() }
    }

    /// Another path of the same bytes.
    pub fn copy(&self) -> (r: LocalPath)
        ensures
            r@ == self@,
    {
        let mut bytes: Vec<u8> = Vec::new();
        push_all(&mut bytes, &self.bytes);
        assert(bytes@ =~= self@);
        LocalPath { bytes }
    }

    /// Whether the path begins at the root.
    pub fn is_absolute(&self) -> (r: bool)
        ensures
            r == absolute(self@),
    {
        self.bytes.len() > 0 && self.bytes[0] == SEPARATOR
    }

    /// `path` taken relative to this one.
    pub fn join(&self, path: &LocalPath) -> (r: LocalPath)
        ensures
            r@ == joined_path(self@, path@),
    {
        if path.is_absolute() {
            return path.copy();
        }
        let mut bytes: Vec<u8> = Vec::new();
        push_all(&mut bytes, &self.bytes);
        assert(bytes@ =~= self@);
        if bytes.len() > 0 && bytes[bytes.len() - 1] != SEPARATOR {
            bytes.push(SEPARATOR);
        }
        push_all(&mut bytes, &path.bytes);
        LocalPath { bytes }
    }

    /// The name `name` in this directory.
    pub fn entry(&self, name: &str) -> (r: LocalPath)
        ensures
            r@ == joined_path(self@, encode_utf8(name@)),
    {
        self.join(&LocalPath::from_text(name))
    }

    /// The path without the elements that lead nowhere.
    pub fn clean(&self) -> (r: LocalPath)
        ensures
            r@ == cleaned(self@),
            absolute(self@) ==> absolute(r@) && clean_path(r@),
            clean_path(self@) ==> r@ == self@,
    {
        let wide = widen(&self.bytes);
        let clean = clean_text(wide.as_str());
        proof {
            lemma_cleaned_chars(wide@);
            assert forall|i: int| 0 <= i < clean@.len() implies (#[trigger] clean@[i]) as u32
                <= 255 by {
                if clean@[i] != '/' && clean@[i] != '.' {
                    let j = choose|j: int| 0 <= j < wide@.len() && wide@[j] == clean@[i];
                    assert(wide@[j] == self@[j] as char);
                }
            }
            if absolute(self@) {
                assert(wide@[0] == self@[0] as char);
                lemma_cleaned_is_clean(wide@);
                lemma_clean_stays(clean@);
            }
            if clean_path(self@) {
                lemma_clean_stays(wide@);
            }
            assert(widened(narrowed(clean@)) =~= clean@);
            assert(narrowed(widened(self@)) =~= self@);
        }
        LocalPath { bytes: narrow(clean.as_str()) }
    }

    /// The text of the path, where its bytes are UTF-8.
    pub fn to_text(&self) -> (r: Option<String>)
        ensures
            match r {
                Some(s) => path_text(self@) == Some(s@),
                None => path_text(self@) is None,
            },
    {
        read_utf8(self.copy().bytes)
    }

    /// The path as it is shown to a reader.
    pub fn display(&self) -> (r: String)
        ensures
            r@ == shown_path(self@),
    {
        show_bytes(&self.bytes)
    }
}

/// Appends `more` to `bytes`.
fn push_all(bytes: &mut Vec<u8>, more: &Vec<u8>)
    ensures
        final(bytes)@ == old(bytes)@ + more@,
{
    let ghost start = bytes@;
    let mut i: usize = 0;
    while i < more.len()
        invariant
            i <= more@.len(),
            bytes@ == start + more@.take(i as int),
        decreases more@.len() - i,
    {
        bytes.push(more[i]);
        i += 1;
        assert(bytes@ =~= start + more@.take(i as int));
    }
    assert(more@.take(i as int) =~= more@);
}

/// The text with, for each byte, the character of the same number.
fn widen(bytes: &Vec<u8>) -> (r: String)
    ensures
        r@ == widened(bytes@),
{
    let mut r = String::new();
    let mut i: usize = 0;
    while i < bytes.len()
        invariant
            i <= bytes@.len(),
            r@ == widened(bytes@.take(i as int)),
        decreases bytes@.len() - i,
    {
        r.push(bytes[i] as char);
        i += 1;
        assert(r@ =~= widened(bytes@.take(i as int)));
    }
    assert(bytes@.take(i as int) =~= bytes@);
    r
}

/// The bytes with, for each character, the byte of the same number.
fn narrow(s: &str) -> (r: Vec<u8>)
    requires
        forall|i: int| 0 <= i < s@.len() ==> (#[trigger] s@[i]) as u32 <= 255,
    ensures
        r@ == narrowed(s@),
{
    let chars = crate::text::chars_of(s);
    let mut r: Vec<u8> = Vec::new();
    let mut i: usize = 0;
    while i < chars.len()
        invariant
            i <= chars@.len(),
            r@ == narrowed(chars@.take(i as int)),
        decreases chars@.len() - i,
    {
        r.push(chars[i] as u8);
        i += 1;
        assert(r@ =~= narrowed(chars@.take(i as int)));
    }
    assert(chars@.take(i as int) =~= chars@);
    r
}

} // verus!
