//! Paths: as the bytes that name a folder in the file system, and as the text
//! that a path shows as, with the name a project shows and the parts of its
//! path.
//!
//! A path is kept as bytes, so that a name that is no Unicode text stays the
//! path it is. Where it has to be shown, bytes that are no text show as `ERROR`.

use crate::text::lemma_texts_push;
use crate::text::opt_text;
use crate::text::texts;
use vstd::prelude::*;
use vstd::string::*;
use vstd::utf8::decode_utf8;
use vstd::utf8::encode_utf8;
use vstd::utf8::encode_utf8_decode_utf8;
use vstd::utf8::encode_utf8_valid_utf8;
use vstd::utf8::valid_utf8;

verus! {

/// The separator of path components on Windows.
pub const WINDOWS_SEPARATOR: char = '\\';

/// The separator of path components everywhere else.
pub const SEPARATOR: char = '/';

/// The characters at which the path bar breaks a path: both separators.
pub open spec fn separators() -> Set<char> {
    set![SEPARATOR, WINDOWS_SEPARATOR]
}

/// Where the last run of characters outside `seps` starts in `text`: behind the
/// last character of `seps`, and at the front where `text` holds none.
pub open spec fn run_start(text: Seq<char>, seps: Set<char>) -> int
    decreases text.len(),
{
    if text.len() == 0 {
        0
    } else if seps.contains(text.last()) {
        text.len() as int
    } else {
        run_start(text.drop_last(), seps)
    }
}

/// What follows the last `sep` in `text`; all of `text` where it holds no `sep`.
pub open spec fn last_component(text: Seq<char>, sep: char) -> Seq<char> {
    text.skip(run_start(text, set![sep]))
}

/// The parts of `text` between characters of `seps`, empty parts left out.
///
/// Separators at the end count for nothing. Otherwise the last part is the longest
/// tail of `text` free of separators, and before it stand the parts of the rest.
pub open spec fn parts(text: Seq<char>, seps: Set<char>) -> Seq<Seq<char>>
    decreases text.len(),
{
    if text.len() == 0 {
        seq![]
    } else if seps.contains(text.last()) {
        parts(text.drop_last(), seps)
    } else {
        let start = run_start(text, seps);
        if 0 <= start < text.len() {
            parts(text.take(start), seps).push(text.skip(start))
        } else {
            seq![]
        }
    }
}

/// The components of a path written with either separator.
pub open spec fn segments(text: Seq<char>) -> Seq<Seq<char>> {
    parts(text, separators())
}

/// The first `index + 1` of `segments`, and all of them where there are fewer.
pub open spec fn through(segments: Seq<Seq<char>>, index: int) -> Seq<Seq<char>> {
    if index + 1 < segments.len() {
        segments.take(index + 1)
    } else {
        segments
    }
}

/// The last run starts inside the text, on a separator's heels, and holds none.
pub proof fn lemma_run_start(text: Seq<char>, seps: Set<char>)
    ensures
        0 <= run_start(text, seps) <= text.len(),
        run_start(text, seps) > 0 ==> seps.contains(text[run_start(text, seps) - 1]),
        forall|i: int| run_start(text, seps) <= i < text.len() ==> !seps.contains(#[trigger] text[i]),
        text.len() > 0 && !seps.contains(text.last()) ==> run_start(text, seps) < text.len(),
    decreases text.len(),
{
    if text.len() > 0 && !seps.contains(text.last()) {
        let front = text.drop_last();
        lemma_run_start(front, seps);
        assert forall|i: int| run_start(text, seps) <= i < text.len() implies !seps.contains(
            #[trigger] text[i],
        ) by {
            if i < front.len() {
                assert(text[i] == front[i]);
            }
        }
    }
}

/// The last component holds no separator, and what stands before it in the text
/// is nothing or ends with one.
pub proof fn law_last_component(text: Seq<char>, sep: char)
    ensures
        !last_component(text, sep).contains(sep),
        text.take(run_start(text, set![sep])) + last_component(text, sep) == text,
        run_start(text, set![sep]) > 0 ==> text[run_start(text, set![sep]) - 1] == sep,
        !text.contains(sep) ==> last_component(text, sep) == text,
{
    let start = run_start(text, set![sep]);
    let name = last_component(text, sep);
    lemma_run_start(text, set![sep]);
    if name.contains(sep) {
        let i = choose|i: int| 0 <= i < name.len() && name[i] == sep;
        assert(name[i] == text[start + i]);
    }
    assert(text.take(start) + name =~= text);
    if !text.contains(sep) {
        if start > 0 {
            assert(text[start - 1] == sep);
        }
        assert(name =~= text);
    }
}

/// Every part holds a character and no separator.
pub proof fn law_parts_are_clean(text: Seq<char>, seps: Set<char>)
    ensures
        forall|k: int| 0 <= k < parts(text, seps).len() ==> (#[trigger] parts(text, seps)[k]).len() > 0,
        forall|k: int, i: int|
            0 <= k < parts(text, seps).len() && 0 <= i < parts(text, seps)[k].len() ==> !seps.contains(
                #[trigger] parts(text, seps)[k][i],
            ),
    decreases text.len(),
{
    if text.len() == 0 {
        assert(parts(text, seps).len() == 0);
    } else if seps.contains(text.last()) {
        law_parts_are_clean(text.drop_last(), seps);
        assert(parts(text, seps) == parts(text.drop_last(), seps));
    } else {
        let start = run_start(text, seps);
        let front = parts(text.take(start), seps);
        let tail = text.skip(start);
        lemma_run_start(text, seps);
        law_parts_are_clean(text.take(start), seps);
        assert(parts(text, seps) == front.push(tail));
        assert forall|k: int| 0 <= k < parts(text, seps).len() implies (#[trigger] parts(
            text,
            seps,
        )[k]).len() > 0 by {
            if k < front.len() {
                assert(parts(text, seps)[k] == front[k]);
            }
        }
        assert forall|k: int, i: int|
            0 <= k < parts(text, seps).len() && 0 <= i < parts(text, seps)[k].len() implies !seps.contains(
            #[trigger] parts(text, seps)[k][i],
        ) by {
            if k < front.len() {
                assert(parts(text, seps)[k] == front[k]);
            } else {
                assert(tail[i] == text[start + i]);
            }
        }
    }
}

/// A text without separators is its own single part, unless it is empty.
pub proof fn law_parts_of_clean_text(text: Seq<char>, seps: Set<char>)
    requires
        forall|i: int| 0 <= i < text.len() ==> !seps.contains(#[trigger] text[i]),
    ensures
        parts(text, seps) == (if text.len() == 0 { Seq::<Seq<char>>::empty() } else { seq![text] }),
        run_start(text, seps) == 0,
    decreases text.len(),
{
    if text.len() > 0 {
        law_parts_of_clean_text(text.drop_last(), seps);
        assert(text.take(0) =~= Seq::<char>::empty());
        assert(text.skip(0) =~= text);
        assert(parts(text.take(0), seps) =~= Seq::<Seq<char>>::empty());
        assert(parts(text, seps) =~= seq![text]);
    }
}

/// The text that the bytes of a path spell: what they decode to as UTF-8, and
/// none where they are no UTF-8.
pub open spec fn text_of(path: Seq<u8>) -> Option<Seq<char>> {
    if valid_utf8(path) {
        Some(decode_utf8(path))
    } else {
        None
    }
}

/// What a path shows as: its text, and the word `ERROR` for a path that spells
/// none.
pub open spec fn shown_text(path: Seq<u8>) -> Seq<char> {
    match text_of(path) {
        Some(text) => text,
        None => "ERROR"@,
    }
}

/// A path written as text spells that text.
pub proof fn law_text_reads_back(text: Seq<char>)
    ensures
        text_of(encode_utf8(text)) == Some(text),
        shown_text(encode_utf8(text)) == text,
{
    encode_utf8_valid_utf8(text);
    encode_utf8_decode_utf8(text);
}

/// Calls `String::from_utf8` of std on a copy of the bytes. Not proved: that it
/// gives a string just for the bytes that are valid UTF-8, and that the string
/// then holds what the bytes decode to.
#[verifier::external_body]
fn utf8_text(bytes: &Vec<u8>) -> (text: Option<String>)
    ensures
        text.is_some() == valid_utf8(bytes@),
        text matches Some(s) ==> s@ == decode_utf8(bytes@),
{
    String::from_utf8(bytes.clone()).ok()
}

/// The text that the bytes of a path spell, where they spell one.
pub fn path_to_text(path: &Vec<u8>) -> (text: Option<String>)
    ensures
        opt_text(text) == text_of(path@),
{
    utf8_text(path)
}

/// The path that a text spells.
pub fn path_from_text(text: &str) -> (path: Vec<u8>)
    ensures
        path@ == encode_utf8(text@),
        text_of(path@) == Some(text@),
{
    proof {
        law_text_reads_back(text@);
    }
    text.as_bytes_vec()
}

/// What an optional text shows as: the text itself, and the word `ERROR` where
/// there is none.
pub fn path_text(text: Option<String>) -> (shown: String)
    ensures
        shown@ == (match text {
            Some(t) => t@,
            None => "ERROR"@,
        }),
{
    match text {
        Some(t) => t,
        None => String::from_str("ERROR"),
    }
}

/// What a path shows as: its text, and the word `ERROR` for a path that spells
/// none.
pub fn path_string_of(path: &Vec<u8>) -> (shown: String)
    ensures
        shown@ == shown_text(path@),
{
    path_text(utf8_text(path))
}

/// Index of the first character behind the last `sep`.
fn last_run_start(text: &str, sep: char) -> (start: usize)
    ensures
        start == run_start(text@, set![sep]),
        start <= text@.len(),
{
    broadcast use group_string_axioms;

    let len: usize = text.unicode_len();
    let mut start: usize = 0;
    let mut pos: usize = 0;
    for c in iter: text.chars()
        invariant
            len == text@.len(),
            iter.seq() == text@,
            pos == iter.index(),
            start == run_start(text@.take(pos as int), set![sep]),
            start <= pos,
    {
        pos = pos + 1;
        proof {
            assert(text@.take(pos as int).drop_last() =~= text@.take(pos as int - 1));
        }
        if c == sep {
            start = pos;
        }
    }
    proof {
        assert(text@.take(pos as int) =~= text@);
    }
    start
}

/// What follows the last `sep` in `text`.
pub fn last_component_of(text: &str, sep: char) -> (name: String)
    ensures
        name@ == last_component(text@, sep),
{
    let len: usize = text.unicode_len();
    let start: usize = last_run_start(text, sep);
    let name = text.substring_char(start, len);
    proof {
        assert(text@.subrange(start as int, len as int) =~= text@.skip(start as int));
    }
    String::from_str(name)
}

/// The components of a path, whichever separator it is written with.
pub fn path_segments(text: &str) -> (list: Vec<String>)
    ensures
        texts(list@) == segments(text@),
{
    broadcast use group_string_axioms;

    let ghost seps = separators();
    let len: usize = text.unicode_len();
    let mut list: Vec<String> = Vec::new();
    let mut start: usize = 0;
    let mut pos: usize = 0;
    proof {
        assert(text@.take(0) =~= Seq::<char>::empty());
        assert(texts(list@) =~= parts(text@.take(0), seps));
    }
    for c in iter: text.chars()
        invariant
            seps == separators(),
            len == text@.len(),
            iter.seq() == text@,
            pos == iter.index(),
            start <= pos,
            start == run_start(text@.take(pos as int), seps),
            texts(list@) == parts(text@.take(start as int), seps),
    {
        let ghost before = text@.take(pos as int);
        let ghost after = text@.take(pos as int + 1);
        proof {
            assert(after.drop_last() =~= before);
            assert(after.last() == c);
        }
        if c == SEPARATOR || c == WINDOWS_SEPARATOR {
            if start < pos {
                let part = String::from_str(text.substring_char(start, pos));
                proof {
                    lemma_run_start(before, seps);
                    assert(before.take(start as int) =~= text@.take(start as int));
                    assert(before.skip(start as int) =~= text@.subrange(start as int, pos as int));
                    assert(parts(after, seps) == parts(before, seps));
                    assert(parts(before, seps) == parts(before.take(start as int), seps).push(
                        before.skip(start as int),
                    ));
                    lemma_texts_push(list@, part);
                }
                list.push(part);
            } else {
                proof {
                    assert(before =~= text@.take(start as int));
                }
            }
            start = pos + 1;
        }
        pos = pos + 1;
    }
    proof {
        assert(text@.take(pos as int) =~= text@);
    }
    if start < len {
        let part = String::from_str(text.substring_char(start, len));
        proof {
            lemma_run_start(text@, seps);
            assert(text@.skip(start as int) =~= text@.subrange(start as int, len as int));
            lemma_texts_push(list@, part);
        }
        list.push(part);
    } else {
        proof {
            assert(text@.take(start as int) =~= text@);
        }
    }
    list
}

/// The components of a path through the one at `index`: where a click on that
/// component of the path bar leads.
pub fn breadcrumb(text: &str, index: usize) -> (list: Vec<String>)
    ensures
        texts(list@) == through(segments(text@), index as int),
{
    let mut list = path_segments(text);
    if index < list.len() {
        list.truncate(index + 1);
        proof {
            assert(texts(list@) =~= segments(text@).take(index as int + 1));
        }
    }
    list
}

} // verus!
