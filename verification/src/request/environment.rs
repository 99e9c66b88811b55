//! Environments and the templating of text with them: every `{{key}}` whose
//! key the environment knows stands for the value of that key.

use crate::request::response::pairs_view;
use crate::utils::text::chars_of;
use vstd::prelude::*;
use vstd::string::*;
use vstd::utf8::encode_utf8;

verus! {

/// A named mapping from keys to values, in the order of its file.
#[derive(Debug, PartialEq, Eq)]
pub struct Environment {
    pub name: String,
    /// Key and value of each entry. Of two entries with one key, the first counts.
    pub values: Vec<(String, String)>,
    /// Where the environment was read from.
    pub path: String,
}

/// What an [`Environment`] holds, as plain text.
pub struct EnvironmentView {
    pub name: Seq<char>,
    pub values: Seq<(Seq<char>, Seq<char>)>,
    pub path: Seq<char>,
}

impl View for Environment {
    type V = EnvironmentView;

    open spec fn view(&self) -> EnvironmentView {
        EnvironmentView { name: self.name@, values: pairs_view(self.values@), path: self.path@ }
    }
}

/// The text that stands for `key` in a template: the key in double braces.
pub open spec fn placeholder(key: Seq<char>) -> Seq<char> {
    seq!['{', '{'] + key + seq!['}', '}']
}

/// Whether `pattern` stands in `text` at position `at`.
pub open spec fn occurs_at(text: Seq<char>, pattern: Seq<char>, at: int) -> bool {
    &&& 0 <= at
    &&& at + pattern.len() <= text.len()
    &&& text.subrange(at, at + pattern.len()) == pattern
}

/// The first entry from `from` on whose placeholder stands in `text` at `at`.
pub open spec fn key_from(
    text: Seq<char>,
    values: Seq<(Seq<char>, Seq<char>)>,
    at: int,
    from: int,
) -> Option<int>
    decreases values.len() - from,
{
    if from < 0 || from >= values.len() {
        None
    } else if occurs_at(text, placeholder(values[from].0), at) {
        Some(from)
    } else {
        key_from(text, values, at, from + 1)
    }
}

/// The first entry whose placeholder stands in `text` at `at`.
pub open spec fn key_at(text: Seq<char>, values: Seq<(Seq<char>, Seq<char>)>, at: int) -> Option<
    int,
> {
    key_from(text, values, at, 0)
}

/// What `key_from` finds is an entry whose placeholder stands at `at`, and the
/// first such from `from` on.
pub proof fn lemma_key_from(
    text: Seq<char>,
    values: Seq<(Seq<char>, Seq<char>)>,
    at: int,
    from: int,
)
    requires
        0 <= from,
    ensures
        match key_from(text, values, at, from) {
            Some(entry) => {
                &&& from <= entry < values.len()
                &&& occurs_at(text, placeholder(values[entry].0), at)
                &&& at + 4 + values[entry].0.len() <= text.len()
                &&& forall|other: int|
                    from <= other < entry ==> !occurs_at(
                        text,
                        placeholder(#[trigger] values[other].0),
                        at,
                    )
            },
            None => forall|other: int|
                from <= other < values.len() ==> !occurs_at(
                    text,
                    placeholder(#[trigger] values[other].0),
                    at,
                ),
        },
    decreases values.len() - from,
{
    if from < values.len() && !occurs_at(text, placeholder(values[from].0), at) {
        lemma_key_from(text, values, at, from + 1);
    }
}

/// The text from `at` on, read once from left to right: a placeholder of a
/// known key gives the value of that key, any other character gives itself.
/// Values are not read again.
pub open spec fn substitute_from(
    text: Seq<char>,
    values: Seq<(Seq<char>, Seq<char>)>,
    at: int,
) -> Seq<char>
    decreases text.len() - at,
    via substitute_from_ends
{
    if at < 0 || at >= text.len() {
        Seq::empty()
    } else {
        match key_at(text, values, at) {
            Some(entry) => values[entry].1 + substitute_from(
                text,
                values,
                at + 4 + values[entry].0.len(),
            ),
            None => seq![text[at]] + substitute_from(text, values, at + 1),
        }
    }
}

#[via_fn]
proof fn substitute_from_ends(text: Seq<char>, values: Seq<(Seq<char>, Seq<char>)>, at: int) {
    lemma_key_from(text, values, at, 0);
}

/// The text with every placeholder of a known key replaced by its value.
pub open spec fn substitute(text: Seq<char>, values: Seq<(Seq<char>, Seq<char>)>) -> Seq<char> {
    substitute_from(text, values, 0)
}

/// The spans, from `at` on, that `substitute_from` replaces: start and end of
/// each, counted in characters.
pub open spec fn substitution_spans_from(
    text: Seq<char>,
    values: Seq<(Seq<char>, Seq<char>)>,
    at: int,
) -> Seq<(int, int)>
    decreases text.len() - at,
    via substitution_spans_from_ends
{
    if at < 0 || at >= text.len() {
        Seq::empty()
    } else {
        match key_at(text, values, at) {
            Some(entry) => {
                let end = at + 4 + values[entry].0.len();
                seq![(at, end)] + substitution_spans_from(text, values, end)
            },
            None => substitution_spans_from(text, values, at + 1),
        }
    }
}

#[via_fn]
proof fn substitution_spans_from_ends(
    text: Seq<char>,
    values: Seq<(Seq<char>, Seq<char>)>,
    at: int,
) {
    lemma_key_from(text, values, at, 0);
}

/// The spans that `substitute` replaces.
pub open spec fn substitution_spans(
    text: Seq<char>,
    values: Seq<(Seq<char>, Seq<char>)>,
) -> Seq<(int, int)> {
    substitution_spans_from(text, values, 0)
}

/// Whether the characters of `key` stand in `text` between braces at `at`.
fn placeholder_at(text: &Vec<char>, key: &Vec<char>, at: usize) -> (found: bool)
    ensures
        found == occurs_at(text@, placeholder(key@), at as int),
{
    let ghost pattern = placeholder(key@);
    if at > text.len() || text.len() - at < 4 || text.len() - at - 4 < key.len() {
        return false;
    }
    if text[at] != '{' || text[at + 1] != '{' {
        proof {
            let part = text@.subrange(at as int, at + pattern.len());
            assert(part[0] == text@[at as int]);
            assert(part[1] == text@[at + 1]);
        }
        return false;
    }
    let end = at + 2 + key.len();
    if text[end] != '}' || text[end + 1] != '}' {
        proof {
            let part = text@.subrange(at as int, at + pattern.len());
            assert(part[key@.len() as int + 2] == text@[end as int]);
            assert(part[key@.len() as int + 3] == text@[end + 1]);
        }
        return false;
    }
    for i in 0..key.len()
        invariant
            at + 4 + key@.len() <= text@.len() <= usize::MAX,
            pattern == placeholder(key@),
            forall|j: int| 0 <= j < i ==> text@[at + 2 + j] == key@[j],
    {
        if text[at + 2 + i] != key[i] {
            proof {
                let part = text@.subrange(at as int, at + pattern.len());
                assert(part[2 + i] == text@[at + 2 + i]);
            }
            return false;
        }
    }
    proof {
        assert(text@.subrange(at as int, at + pattern.len()) =~= pattern);
    }
    true
}

/// The characters of each key, entry by entry.
fn key_chars(values: &Vec<(String, String)>) -> (keys: Vec<Vec<char>>)
    ensures
        keys@.len() == values@.len(),
        forall|i: int| 0 <= i < keys@.len() ==> (#[trigger] keys@[i])@ == values@[i].0@,
{
    let mut keys: Vec<Vec<char>> = Vec::new();
    for i in 0..values.len()
        invariant
            keys@.len() == i,
            forall|j: int| 0 <= j < i ==> (#[trigger] keys@[j])@ == values@[j].0@,
    {
        keys.push(chars_of(values[i].0.as_str()));
    }
    keys
}

/// The first entry whose placeholder stands in `text` at `at`.
fn find_key_at(
    text: &Vec<char>,
    keys: &Vec<Vec<char>>,
    at: usize,
    Ghost(values): Ghost<Seq<(Seq<char>, Seq<char>)>>,
) -> (found: Option<usize>)
    requires
        keys@.len() == values.len(),
        forall|i: int| 0 <= i < keys@.len() ==> (#[trigger] keys@[i])@ == values[i].0,
    ensures
        match found {
            Some(entry) => key_at(text@, values, at as int) == Some(entry as int),
            None => key_at(text@, values, at as int) is None,
        },
        found matches Some(entry) ==> entry < keys@.len() && occurs_at(
            text@,
            placeholder(values[entry as int].0),
            at as int,
        ),
{
    let mut entry: usize = 0;
    while entry < keys.len()
        invariant
            entry <= keys@.len(),
            keys@.len() == values.len(),
            forall|i: int| 0 <= i < keys@.len() ==> (#[trigger] keys@[i])@ == values[i].0,
            key_at(text@, values, at as int) == key_from(text@, values, at as int, entry as int),
        decreases keys@.len() - entry,
    {
        if placeholder_at(text, &keys[entry], at) {
            return Some(entry);
        }
        entry += 1;
    }
    None
}

/// Whether `c` is a word character of regular expressions (`\w`), as
/// `regex_syntax::try_is_word_character` decides it; `false` if the crate was
/// built without its table of word characters.
pub uninterp spec fn is_word_character(c: char) -> bool;

/// Calls `try_is_word_character` of the crate `regex-syntax`, with `false`
/// for its error. The contract claims that the answer depends on the
/// character alone, and gives it the name `is_word_character`.
#[verifier::external_body]
fn word_character(c: char) -> (word: bool)
    ensures
        word == is_word_character(c),
{
    regex_syntax::try_is_word_character(c).unwrap_or(false)
}

/// Whether `c` may stand in the name of a placeholder: a word character. The
/// braces that delimit a placeholder are never part of a name.
pub open spec fn is_name_char(c: char) -> bool {
    is_word_character(c) && c != '{' && c != '}'
}

/// Whether every character of `name` may stand in the name of a placeholder,
/// and there is at least one.
pub open spec fn is_name(name: Seq<char>) -> bool {
    name.len() > 0 && forall|i: int| 0 <= i < name.len() ==> is_name_char(#[trigger] name[i])
}

/// The number of name characters that follow each other in `text` from `at` on.
pub open spec fn name_length(text: Seq<char>, at: int) -> nat
    decreases text.len() - at,
{
    if 0 <= at < text.len() && is_name_char(text[at]) {
        1 + name_length(text, at + 1)
    } else {
        0
    }
}

/// Where the placeholder that starts at `at` ends: two opening braces, the
/// longest run of name characters, which is not empty, and two closing braces.
pub open spec fn placeholder_end(text: Seq<char>, at: int) -> Option<int> {
    let length = name_length(text, at + 2);
    if 0 <= at && at + length + 4 <= text.len() && length > 0 && text[at] == '{' && text[at + 1]
        == '{' && text[at + 2 + length] == '}' && text[at + 3 + length] == '}' {
        Some(at + length + 4)
    } else {
        None
    }
}

/// Whether `name` is the key of an entry.
pub open spec fn has_key(values: Seq<(Seq<char>, Seq<char>)>, name: Seq<char>) -> bool {
    exists|entry: int| 0 <= entry < values.len() && (#[trigger] values[entry]).0 == name
}

/// The spans, from `at` on, of the placeholders whose name is a key: start and
/// end of each, counted in characters. The text is read once from left to
/// right; a placeholder with an unknown name is passed over as a whole.
pub open spec fn highlight_spans_from(
    text: Seq<char>,
    values: Seq<(Seq<char>, Seq<char>)>,
    at: int,
) -> Seq<(int, int)>
    decreases text.len() - at,
{
    if at < 0 || at >= text.len() {
        Seq::empty()
    } else {
        match placeholder_end(text, at) {
            Some(end) => if has_key(values, text.subrange(at + 2, end - 2)) {
                seq![(at, end)] + highlight_spans_from(text, values, end)
            } else {
                highlight_spans_from(text, values, end)
            },
            None => highlight_spans_from(text, values, at + 1),
        }
    }
}

/// The spans of the placeholders whose name is a key.
pub open spec fn highlight_spans(
    text: Seq<char>,
    values: Seq<(Seq<char>, Seq<char>)>,
) -> Seq<(int, int)> {
    highlight_spans_from(text, values, 0)
}

/// Whether every key whose placeholder stands somewhere in `text` is a name,
/// so that its placeholder can be highlighted.
pub open spec fn keys_in_use_are_names(
    text: Seq<char>,
    values: Seq<(Seq<char>, Seq<char>)>,
) -> bool {
    forall|entry: int, at: int|
        0 <= entry < values.len() && #[trigger] occurs_at(
            text,
            placeholder(values[entry].0),
            at,
        ) ==> is_name(values[entry].0)
}

/// The run of name characters from `at` on holds name characters only, and
/// ends at the end of the text or before a character that is none.
proof fn lemma_name_length(text: Seq<char>, at: int)
    requires
        0 <= at <= text.len(),
    ensures
        at + name_length(text, at) <= text.len(),
        forall|i: int| at <= i < at + name_length(text, at) ==> is_name_char(#[trigger] text[i]),
        at + name_length(text, at) < text.len() ==> !is_name_char(
            text[at + name_length(text, at)],
        ),
    decreases text.len() - at,
{
    if at < text.len() && is_name_char(text[at]) {
        lemma_name_length(text, at + 1);
    }
}

/// A run of `count` name characters that ends before another character has
/// the length `count`.
proof fn lemma_name_length_of_run(text: Seq<char>, at: int, count: int)
    requires
        0 <= at,
        0 <= count,
        at + count < text.len(),
        forall|i: int| at <= i < at + count ==> is_name_char(#[trigger] text[i]),
        !is_name_char(text[at + count]),
    ensures
        name_length(text, at) == count,
    decreases count,
{
    if count > 0 {
        lemma_name_length_of_run(text, at + 1, count - 1);
    }
}

/// Where the placeholder of a name stands, a placeholder starts, and its name
/// is that name.
proof fn lemma_placeholder_of_name(text: Seq<char>, key: Seq<char>, at: int)
    requires
        is_name(key),
        occurs_at(text, placeholder(key), at),
    ensures
        placeholder_end(text, at) == Some(at + key.len() + 4),
        text.subrange(at + 2, at + 2 + key.len()) == key,
{
    let pattern = placeholder(key);
    let part = text.subrange(at, at + pattern.len());
    assert(part[0] == text[at]);
    assert(part[1] == text[at + 1]);
    assert(part[key.len() as int + 2] == text[at + 2 + key.len()]);
    assert(part[key.len() as int + 3] == text[at + 3 + key.len()]);
    assert forall|i: int| at + 2 <= i < at + 2 + key.len() implies is_name_char(
        #[trigger] text[i],
    ) by {
        assert(part[i - at] == text[i]);
    }
    lemma_name_length_of_run(text, at + 2, key.len() as int);
    assert(text.subrange(at + 2, at + 2 + key.len()) =~= key) by {
        assert forall|j: int| 0 <= j < key.len() implies text[at + 2 + j] == key[j] by {
            assert(part[j + 2] == text[at + 2 + j]);
        }
    }
}

/// No placeholder of a key stands where the text does not hold two opening braces.
proof fn lemma_no_key_without_braces(
    text: Seq<char>,
    values: Seq<(Seq<char>, Seq<char>)>,
    at: int,
)
    requires
        0 <= at < text.len(),
        text[at] != '{' || at + 1 >= text.len() || text[at + 1] != '{',
    ensures
        key_at(text, values, at) is None,
{
    lemma_key_from(text, values, at, 0);
    if let Some(entry) = key_at(text, values, at) {
        let pattern = placeholder(values[entry].0);
        let part = text.subrange(at, at + pattern.len());
        assert(part[0] == text[at]);
        assert(part[1] == text[at + 1]);
    }
}

/// Inside a placeholder no placeholder of a key starts: reading for
/// substitution from any place inside it finds what it finds from its end.
proof fn lemma_no_key_inside_placeholder(
    text: Seq<char>,
    values: Seq<(Seq<char>, Seq<char>)>,
    start: int,
    end: int,
    at: int,
)
    requires
        placeholder_end(text, start) == Some(end),
        start < at <= end,
    ensures
        substitution_spans_from(text, values, at) == substitution_spans_from(text, values, end),
    decreases end - at,
{
    if at < end {
        lemma_name_length(text, start + 2);
        lemma_no_key_without_braces(text, values, at);
        lemma_no_key_inside_placeholder(text, values, start, end, at + 1);
    }
}

/// From any place on, reading for substitution and reading for highlighting
/// find the same spans, where every key in use is a name.
proof fn lemma_spans_agree_from(text: Seq<char>, values: Seq<(Seq<char>, Seq<char>)>, at: int)
    requires
        keys_in_use_are_names(text, values),
        0 <= at,
    ensures
        substitution_spans_from(text, values, at) == highlight_spans_from(text, values, at),
    decreases text.len() - at,
{
    if at < text.len() {
        lemma_key_from(text, values, at, 0);
        match key_at(text, values, at) {
            Some(entry) => {
                let key = values[entry].0;
                lemma_placeholder_of_name(text, key, at);
                lemma_spans_agree_from(text, values, at + 4 + key.len());
            },
            None => {
                match placeholder_end(text, at) {
                    Some(end) => {
                        let name = text.subrange(at + 2, end - 2);
                        if has_key(values, name) {
                            let entry = choose|entry: int|
                                0 <= entry < values.len() && (#[trigger] values[entry]).0 == name;
                            assert(text.subrange(at, at + placeholder(name).len()) =~= placeholder(
                                name,
                            ));
                        }
                        lemma_no_key_inside_placeholder(text, values, at, end, at + 1);
                        lemma_spans_agree_from(text, values, end);
                    },
                    None => {
                        lemma_spans_agree_from(text, values, at + 1);
                    },
                }
            },
        }
    }
}

/// The place in bytes of the place `at` in characters: the length of the
/// UTF-8 form of the text before it.
pub open spec fn byte_offset(text: Seq<char>, at: int) -> nat {
    encode_utf8(text.take(at)).len()
}

/// The spans, with start and end of each counted in bytes.
pub open spec fn byte_spans(text: Seq<char>, spans: Seq<(int, int)>) -> Seq<(nat, nat)> {
    Seq::new(
        spans.len(),
        |i: int| (byte_offset(text, spans[i].0), byte_offset(text, spans[i].1)),
    )
}

/// Substitution and highlighting agree: the spans that substitution replaces
/// are the spans that highlighting marks as known, whether they are counted
/// in characters or in bytes. This is so where every key whose placeholder
/// stands in the text is a name (word characters, at least one): the
/// placeholder of any other key is replaced, and never marked.
pub proof fn lemma_substitution_agrees_with_highlighting(
    text: Seq<char>,
    values: Seq<(Seq<char>, Seq<char>)>,
)
    requires
        keys_in_use_are_names(text, values),
    ensures
        substitution_spans(text, values) == highlight_spans(text, values),
        byte_spans(text, substitution_spans(text, values)) == byte_spans(
            text,
            highlight_spans(text, values),
        ),
{
    lemma_spans_agree_from(text, values, 0);
}

/// A piece of a text, and whether it is a placeholder of a known key.
#[derive(Debug, PartialEq, Eq)]
pub struct TextSegment {
    pub text: String,
    pub known: bool,
}

/// What a [`TextSegment`] holds.
pub struct TextSegmentView {
    pub text: Seq<char>,
    pub known: bool,
}

impl View for TextSegment {
    type V = TextSegmentView;

    open spec fn view(&self) -> TextSegmentView {
        TextSegmentView { text: self.text@, known: self.known }
    }
}

/// What a sequence of segments holds, one by one.
pub open spec fn segments_view(segments: Seq<TextSegment>) -> Seq<TextSegmentView> {
    Seq::new(segments.len(), |i: int| segments[i]@)
}

/// The text from `from` on, cut at `spans`: before each span the text that
/// leads up to it, which may be empty, then the span itself, marked as known;
/// at the end the rest of the text, which may be empty.
pub open spec fn segments_from(text: Seq<char>, spans: Seq<(int, int)>, from: int) -> Seq<
    TextSegmentView,
>
    decreases spans.len(),
{
    if spans.len() == 0 {
        seq![TextSegmentView { text: text.subrange(from, text.len() as int), known: false }]
    } else {
        seq![
            TextSegmentView { text: text.subrange(from, spans[0].0), known: false },
            TextSegmentView { text: text.subrange(spans[0].0, spans[0].1), known: true },
        ] + segments_from(text, spans.drop_first(), spans[0].1)
    }
}

/// The text as one segment that is not marked.
pub open spec fn plain_segment(text: Seq<char>) -> Seq<TextSegmentView> {
    seq![TextSegmentView { text: text, known: false }]
}

/// The length of the run of name characters from `start` on.
fn name_run(text: &Vec<char>, start: usize) -> (length: usize)
    requires
        start <= text@.len(),
    ensures
        length == name_length(text@, start as int),
        start + length <= text@.len(),
{
    let mut at = start;
    while at < text.len() && word_character(text[at]) && text[at] != '{' && text[at] != '}'
        invariant
            start <= at <= text@.len(),
            name_length(text@, start as int) == at - start + name_length(text@, at as int),
        decreases text@.len() - at,
    {
        at += 1;
    }
    at - start
}

/// The end of the placeholder that starts at `at`.
fn find_placeholder_end(text: &Vec<char>, at: usize) -> (end: Option<usize>)
    requires
        at < text@.len(),
    ensures
        match end {
            Some(end) => placeholder_end(text@, at as int) == Some(end as int) && at + 5 <= end
                <= text@.len(),
            None => placeholder_end(text@, at as int) is None,
        },
{
    if text.len() - at < 5 || text[at] != '{' || text[at + 1] != '{' {
        return None;
    }
    let length = name_run(text, at + 2);
    if length == 0 || text.len() - at - length < 4 {
        return None;
    }
    if text[at + 2 + length] != '}' || text[at + 3 + length] != '}' {
        return None;
    }
    Some(at + length + 4)
}

/// Whether the characters of `text` from `from` up to `to` are a key.
fn is_key(text: &Vec<char>, from: usize, to: usize, keys: &Vec<Vec<char>>) -> (known: bool)
    requires
        from <= to <= text@.len(),
    ensures
        known == exists|entry: int|
            0 <= entry < keys@.len() && (#[trigger] keys@[entry])@ == text@.subrange(
                from as int,
                to as int,
            ),
{
    let ghost name = text@.subrange(from as int, to as int);
    for entry in 0..keys.len()
        invariant
            from <= to <= text@.len(),
            name == text@.subrange(from as int, to as int),
            forall|other: int| 0 <= other < entry ==> (#[trigger] keys@[other])@ != name,
    {
        let key = &keys[entry];
        if key.len() == to - from {
            let mut same = true;
            let mut i: usize = 0;
            while i < key.len() && same
                invariant
                    from <= to <= text@.len(),
                    key@.len() == to - from,
                    i <= key@.len(),
                    name == text@.subrange(from as int, to as int),
                    same ==> forall|j: int| 0 <= j < i ==> key@[j] == name[j],
                    !same ==> key@ != name,
                decreases key@.len() - i + if same { 1int } else { 0int },
            {
                if key[i] != text[from + i] {
                    same = false;
                } else {
                    i += 1;
                }
            }
            if same {
                proof {
                    assert(key@ =~= name);
                }
                return true;
            }
        }
    }
    false
}

impl Environment {
    /// `input` cut into segments: every placeholder whose name is a key of
    /// this environment is a segment of its own, marked as known; the text
    /// between them, and every other placeholder, is not marked.
    pub fn highlight(&self, input: &str) -> (segments: Vec<TextSegment>)
        ensures
            segments_view(segments@) == segments_from(
                input@,
                highlight_spans(input@, self@.values),
                0,
            ),
    {
        let text = chars_of(input);
        let keys = key_chars(&self.values);
        let ghost values = self@.values;
        let mut segments: Vec<TextSegment> = Vec::new();
        let mut copied: usize = 0;
        let mut at: usize = 0;
        while at < text.len()
            invariant
                text@ == input@,
                values == self@.values,
                keys@.len() == values.len(),
                forall|i: int| 0 <= i < keys@.len() ==> (#[trigger] keys@[i])@ == values[i].0,
                copied <= at <= text@.len(),
                segments_view(segments@) + segments_from(
                    text@,
                    highlight_spans_from(text@, values, at as int),
                    copied as int,
                ) == segments_from(text@, highlight_spans(text@, values), 0),
            decreases text@.len() - at,
        {
            match find_placeholder_end(&text, at) {
                Some(end) => {
                    let known = is_key(&text, at + 2, end - 2, &keys);
                    proof {
                        let name = text@.subrange(at + 2, end - 2);
                        if !known && has_key(values, name) {
                            let entry = choose|entry: int|
                                0 <= entry < values.len() && (#[trigger] values[entry]).0 == name;
                            assert(keys@[entry]@ == name);
                        }
                    }
                    if known {
                        let ghost spans = highlight_spans_from(text@, values, at as int);
                        segments.push(
                            TextSegment {
                                text: input.substring_char(copied, at).to_string(),
                                known: false,
                            },
                        );
                        segments.push(
                            TextSegment {
                                text: input.substring_char(at, end).to_string(),
                                known: true,
                            },
                        );
                        proof {
                            let rest = highlight_spans_from(text@, values, end as int);
                            assert(spans.drop_first() =~= rest);
                        }
                        copied = end;
                    }
                    at = end;
                },
                None => {
                    at += 1;
                },
            }
        }
        segments.push(
            TextSegment { text: input.substring_char(copied, at).to_string(), known: false },
        );
        segments
    }

    /// `input` with every placeholder of a key of this environment replaced by
    /// the value of that key. The text is read once from left to right, so a
    /// value that looks like a placeholder stays as it is.
    pub fn substitute(&self, input: &str) -> (output: String)
        ensures
            output@ == substitute(input@, self@.values),
    {
        let text = chars_of(input);
        let keys = key_chars(&self.values);
        let ghost values = self@.values;
        let mut output = String::new();
        let mut copied: usize = 0;
        let mut at: usize = 0;
        while at < text.len()
            invariant
                text@ == input@,
                values == self@.values,
                keys@.len() == values.len(),
                forall|i: int| 0 <= i < keys@.len() ==> (#[trigger] keys@[i])@ == values[i].0,
                copied <= at <= text@.len(),
                output@ + text@.subrange(copied as int, at as int) + substitute_from(
                    text@,
                    values,
                    at as int,
                ) == substitute(text@, values),
            decreases text@.len() - at,
        {
            match find_key_at(&text, &keys, at, Ghost(values)) {
                Some(entry) => {
                    output.append(input.substring_char(copied, at));
                    output.append(self.values[entry].1.as_str());
                    at = at + 4 + keys[entry].len();
                    copied = at;
                },
                None => {
                    at += 1;
                },
            }
        }
        output.append(input.substring_char(copied, at));
        output
    }
}

} // verus!
