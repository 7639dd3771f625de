//! Laws of paths: what joining and showing them comes to, said of their bytes.

use vstd::prelude::*;
use vstd::utf8::{encode_utf8, encode_utf8_decode_utf8, encode_utf8_valid_utf8, valid_utf8};

use crate::clean::{
    cleaned_text, law_dot_leads_nowhere, law_root_has_no_parent, law_separators_in_a_row,
    lemma_clean_stays, lemma_cleaned_chars, lemma_cleaned_is_clean,
};
use crate::path::{
    absolute, clean_path, cleaned, joined_path, lossy_text, narrowed, path_text, shown_path,
    widened,
};

verus! {

/// A path is absolute just where a slash is its first byte.
pub proof fn law_absolute_path(first: u8, rest: Seq<u8>)
    ensures
        !absolute(Seq::empty()),
        absolute(seq![first] + rest) == (first == 47),
{
}

/// A relative path is put behind the base, with one slash between them; an absolute one stands
/// for itself.
pub proof fn law_joined_path(base: Seq<u8>, path: Seq<u8>)
    ensures
        path.len() > 0 && path[0] == 47 ==> joined_path(base, path) == path,
        !(path.len() > 0 && path[0] == 47) ==> {
            &&& joined_path(Seq::empty(), path) == path
            &&& joined_path(base + seq![47u8], path) == base + seq![47u8] + path
            &&& base.len() > 0 && base.last() != 47 ==> joined_path(base, path) == base + seq![47u8]
                + path
        },
{
    assert(Seq::<u8>::empty() + path =~= path);
    assert(base.push(47u8) =~= base + seq![47u8]);
    assert((base + seq![47u8]).last() == 47);
}

/// The text of a path is the text that it stands for, and so it is shown. Bytes that stand for no
/// text have none, and are shown as the standard library does it.
pub proof fn law_path_shows_its_text(s: Seq<char>)
    ensures
        forall|path: Seq<u8>|
            !valid_utf8(path) ==> path_text(path) is None && #[trigger] shown_path(path)
                == lossy_text(path),
        path_text(encode_utf8(s)) == Some(s),
        shown_path(encode_utf8(s)) == s,
{
    encode_utf8_valid_utf8(s);
    encode_utf8_decode_utf8(s);
}

/// A path that is clean stays as it is, and one from the root becomes clean once and for all.
pub proof fn law_cleaning_is_done_once(path: Seq<u8>)
    ensures
        clean_path(path) ==> cleaned(path) == path,
        absolute(path) ==> clean_path(cleaned(path)) && absolute(cleaned(path)) && cleaned(
            cleaned(path),
        ) == cleaned(path),
{
    let wide = widened(path);
    assert(narrowed(wide) =~= path);
    if clean_path(path) {
        lemma_clean_stays(wide);
    }
    if absolute(path) {
        let clean = cleaned_text(wide);
        assert(wide[0] == path[0] as char);
        lemma_cleaned_chars(wide);
        lemma_cleaned_is_clean(wide);
        lemma_clean_stays(clean);
        assert forall|i: int| 0 <= i < clean.len() implies (#[trigger] clean[i]) as u32 <= 255 by {
            if clean[i] != '/' && clean[i] != '.' {
                let j = choose|j: int| 0 <= j < wide.len() && wide[j] == clean[i];
                assert(wide[j] == path[j] as char);
            }
        }
        assert(widened(narrowed(clean)) =~= clean);
    }
}

/// In a path a dot leads nowhere, slashes in a row are one, and the root has no parent.
pub proof fn law_elements_that_lead_nowhere(front: Seq<u8>, rest: Seq<u8>)
    ensures
        cleaned(front + seq![47u8, 47u8] + rest) == cleaned(front + seq![47u8] + rest),
        (rest.len() == 0 || rest[0] == 47) && front.len() + rest.len() > 0 ==> cleaned(
            front + seq![47u8, 46u8] + rest,
        ) == cleaned(front + rest),
        rest.len() == 0 || rest[0] == 47 ==> cleaned(seq![47u8, 46u8, 46u8] + rest) == cleaned(
            seq![47u8] + rest,
        ),
{
    let f = widened(front);
    let r = widened(rest);
    assert(widened(front + seq![47u8, 47u8] + rest) =~= f + seq!['/', '/'] + r);
    assert(widened(front + seq![47u8] + rest) =~= f + seq!['/'] + r);
    law_separators_in_a_row(f, r);
    if rest.len() == 0 || rest[0] == 47 {
        assert(widened(front + seq![47u8, 46u8] + rest) =~= f + seq!['/', '.'] + r);
        assert(widened(front + rest) =~= f + r);
        if front.len() + rest.len() > 0 {
            law_dot_leads_nowhere(f, r);
        }
        assert(widened(seq![47u8, 46u8, 46u8] + rest) =~= seq!['/', '.', '.'] + r);
        assert(widened(seq![47u8] + rest) =~= seq!['/'] + r);
        law_root_has_no_parent(r);
    }
}

} // verus!
