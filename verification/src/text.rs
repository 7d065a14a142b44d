//! Text primitives on which the rest of the library is built.
//!
//! A text is modelled as the sequence of its characters.
use vstd::prelude::*;
use vstd::utf8::*;

verus! {

/// `String::push` appends one character to the end of the string.
pub assume_specification[ String::push ](s: &mut String, c: char)
    ensures
        final(s)@ == old(s)@.push(c),
;

/// The model of an optional owned text.
pub open spec fn opt_text(text: Option<String>) -> Option<Seq<char>> {
    match text {
        Some(text) => Some(text@),
        None => None,
    }
}

/// The model of an optional borrowed text.
pub open spec fn opt_str(text: Option<&str>) -> Option<Seq<char>> {
    match text {
        Some(text) => Some(text@),
        None => None,
    }
}

/// The model of an optional text that may have failed to arrive.
pub open spec fn reply_view(reply: Result<Option<String>, String>) -> Result<
    Option<Seq<char>>,
    Seq<char>,
> {
    match reply {
        Ok(content) => Ok(opt_text(content)),
        Err(message) => Err(message@),
    }
}

/// The model of a text that may have failed to arrive.
pub open spec fn result_view(result: Result<String, String>) -> Result<Seq<char>, Seq<char>> {
    match result {
        Ok(content) => Ok(content@),
        Err(message) => Err(message@),
    }
}

/// The model of a list of texts.
pub open spec fn texts(list: Seq<String>) -> Seq<Seq<char>> {
    list.map_values(|text: String| text@)
}

// ---------------------------------------------------------------------------
// Conversion and comparison
// ---------------------------------------------------------------------------

/// The characters of a text, in order.
pub fn chars_of(text: &str) -> (chars: Vec<char>)
    ensures
        chars@ == text@,
{
    let mut chars: Vec<char> = Vec::new();
    for c in it: text.chars()
        invariant
            chars@ == text@.take(it.index() as int),
            it.seq() == text@,
    {
        chars.push(c);
    }
    chars
}

/// The text made of the characters `chars[from..to]`.
pub fn text_between(chars: &Vec<char>, from: usize, to: usize) -> (text: String)
    requires
        from <= to <= chars@.len(),
    ensures
        text@ == chars@.subrange(from as int, to as int),
{
    let mut text = String::new();
    let mut i: usize = from;
    while i < to
        invariant
            from <= i <= to <= chars@.len(),
            text@ == chars@.subrange(from as int, i as int),
        decreases to - i,
    {
        text.push(chars[i]);
        i += 1;
    }
    text
}

/// Whether two texts hold the same characters.
pub fn same_text(a: &str, b: &str) -> (same: bool)
    ensures
        same == (a@ == b@),
{
    let left = a.as_bytes();
    let right = b.as_bytes();
    if left.len() != right.len() {
        return false;
    }
    let mut i: usize = 0;
    while i < left.len()
        invariant
            left@ == encode_utf8(a@),
            right@ == encode_utf8(b@),
            left@.len() == right@.len(),
            i <= left@.len(),
            left@.take(i as int) == right@.take(i as int),
        decreases left@.len() - i,
    {
        if left[i] != right[i] {
            return false;
        }
        i += 1;
        assert(left@.take(i as int) =~= left@.take(i - 1).push(left@[i - 1]));
        assert(right@.take(i as int) =~= right@.take(i - 1).push(right@[i - 1]));
    }
    proof {
        assert(left@.take(i as int) =~= left@);
        assert(right@.take(i as int) =~= right@);
        encode_utf8_decode_utf8(a@);
        encode_utf8_decode_utf8(b@);
    }
    true
}

/// Whether the characters from `chars[at]` on start with `pattern`.
fn matches_at(chars: &Vec<char>, at: usize, pattern: &Vec<char>) -> (found: bool)
    requires
        at <= chars@.len(),
    ensures
        found == pattern@.is_prefix_of(chars@.skip(at as int)),
{
    let total: usize = chars.len();
    if total - at < pattern.len() {
        return false;
    }
    let mut i: usize = 0;
    while i < pattern.len()
        invariant
            total == chars@.len(),
            at + pattern@.len() <= total,
            i <= pattern@.len(),
            forall|k: int| 0 <= k < i ==> pattern@[k] == chars@.skip(at as int)[k],
        decreases pattern@.len() - i,
    {
        if chars[at + i] != pattern[i] {
            assert(chars@.skip(at as int)[i as int] != pattern@[i as int]);
            return false;
        }
        i += 1;
    }
    true
}

// ---------------------------------------------------------------------------
// Whitespace
// ---------------------------------------------------------------------------

/// The characters with the Unicode property `White_Space`.
pub open spec fn is_white_space(c: char) -> bool {
    let code = c as u32;
    ||| 0x09 <= code <= 0x0d
    ||| code == 0x20
    ||| code == 0x85
    ||| code == 0xa0
    ||| code == 0x1680
    ||| 0x2000 <= code <= 0x200a
    ||| code == 0x2028
    ||| code == 0x2029
    ||| code == 0x202f
    ||| code == 0x205f
    ||| code == 0x3000
}

/// Whether `c` has the Unicode property `White_Space`.
pub fn white_space(c: char) -> (white: bool)
    ensures
        white == is_white_space(c),
{
    let code: u32 = c as u32;
    (0x09 <= code && code <= 0x0d) || code == 0x20 || code == 0x85 || code == 0xa0
        || code == 0x1680 || (0x2000 <= code && code <= 0x200a) || code == 0x2028
        || code == 0x2029 || code == 0x202f || code == 0x205f || code == 0x3000
}

/// `text` without its leading white space.
pub open spec fn trim_start(text: Seq<char>) -> Seq<char>
    decreases text.len(),
{
    if text.len() > 0 && is_white_space(text.first()) {
        trim_start(text.drop_first())
    } else {
        text
    }
}

/// `text` without its trailing white space.
pub open spec fn trim_end(text: Seq<char>) -> Seq<char>
    decreases text.len(),
{
    if text.len() > 0 && is_white_space(text.last()) {
        trim_end(text.drop_last())
    } else {
        text
    }
}

/// `text` without its leading and trailing white space.
pub open spec fn trimmed(text: Seq<char>) -> Seq<char> {
    trim_end(trim_start(text))
}

/// A text that holds nothing but white space.
pub open spec fn is_blank(text: Seq<char>) -> bool {
    forall|i: int| 0 <= i < text.len() ==> is_white_space(#[trigger] text[i])
}

/// Removes leading and trailing white space.
pub fn trim(text: &str) -> (core: String)
    ensures
        core@ == trimmed(text@),
{
    let chars = chars_of(text);
    let mut from: usize = 0;
    assert(chars@.skip(0) =~= chars@);
    while from < chars.len() && white_space(chars[from])
        invariant
            from <= chars@.len(),
            trim_start(chars@) == trim_start(chars@.skip(from as int)),
        decreases chars@.len() - from,
    {
        assert(chars@.skip(from as int).drop_first() =~= chars@.skip(from + 1));
        from += 1;
    }
    let ghost rest = chars@.skip(from as int);
    let mut to: usize = chars.len();
    assert(chars@.subrange(from as int, to as int) =~= rest);
    while from < to && white_space(chars[to - 1])
        invariant
            from <= to <= chars@.len(),
            trim_end(rest) == trim_end(chars@.subrange(from as int, to as int)),
        decreases to - from,
    {
        assert(chars@.subrange(from as int, to as int).drop_last() =~= chars@.subrange(
            from as int,
            to - 1,
        ));
        to -= 1;
    }
    text_between(&chars, from, to)
}

/// Whether a text is empty once its white space is trimmed.
pub fn blank(text: &str) -> (empty: bool)
    ensures
        empty == is_blank(text@),
        empty == (trimmed(text@).len() == 0),
{
    let chars = chars_of(text);
    let mut i: usize = 0;
    while i < chars.len()
        invariant
            i <= chars@.len(),
            chars@ == text@,
            forall|k: int| 0 <= k < i ==> is_white_space(#[trigger] chars@[k]),
        decreases chars@.len() - i,
    {
        if !white_space(chars[i]) {
            proof {
                lemma_blank_iff_trimmed_empty(text@);
                assert(!is_white_space(text@[i as int]));
            }
            return false;
        }
        i += 1;
    }
    proof {
        lemma_blank_iff_trimmed_empty(text@);
    }
    true
}

/// Trimming leaves nothing exactly of a blank text.
pub proof fn lemma_blank_iff_trimmed_empty(text: Seq<char>)
    ensures
        is_blank(text) <==> trimmed(text).len() == 0,
{
    lemma_trim_start(text);
    lemma_trim_end(trim_start(text));
    let rest = trim_start(text);
    if is_blank(text) {
        if rest.len() > 0 {
            assert(rest.first() == text[text.len() - rest.len()]);
        }
    } else {
        let i = choose|i: int| 0 <= i < text.len() && !is_white_space(#[trigger] text[i]);
        assert(i >= text.len() - rest.len());
        assert(rest[i - (text.len() - rest.len())] == text[i]);
    }
}

proof fn lemma_trim_start(text: Seq<char>)
    ensures
        trim_start(text).len() <= text.len(),
        trim_start(text) == text.skip(text.len() - trim_start(text).len()),
        trim_start(text).len() > 0 ==> !is_white_space(trim_start(text).first()),
        forall|i: int|
            0 <= i < text.len() - trim_start(text).len() ==> is_white_space(#[trigger] text[i]),
    decreases text.len(),
{
    if text.len() > 0 && is_white_space(text.first()) {
        let rest = text.drop_first();
        lemma_trim_start(rest);
        let cut = rest.len() - trim_start(rest).len();
        assert(rest.skip(cut) =~= text.skip(cut + 1));
        assert forall|i: int| 0 <= i < cut + 1 implies is_white_space(#[trigger] text[i]) by {
            if i > 0 {
                assert(rest[i - 1] == text[i]);
            }
        }
    } else {
        assert(text.skip(0) =~= text);
    }
}

proof fn lemma_trim_end(text: Seq<char>)
    ensures
        trim_end(text).len() <= text.len(),
        trim_end(text) == text.take(trim_end(text).len() as int),
        trim_end(text).len() > 0 ==> !is_white_space(trim_end(text).last()),
        forall|i: int|
            trim_end(text).len() <= i < text.len() ==> is_white_space(#[trigger] text[i]),
    decreases text.len(),
{
    if text.len() > 0 && is_white_space(text.last()) {
        let rest = text.drop_last();
        lemma_trim_end(rest);
        let kept = trim_end(rest).len() as int;
        assert(rest.take(kept) =~= text.take(kept));
        assert forall|i: int| kept <= i < text.len() implies is_white_space(#[trigger] text[i]) by {
            if i < rest.len() {
                assert(rest[i] == text[i]);
            }
        }
    } else {
        assert(text.take(text.len() as int) =~= text);
    }
}

/// A trimmed text is its source without a blank beginning and a blank end, and
/// neither its first nor its last character is white space.
pub proof fn law_trim(text: Seq<char>)
    ensures
        exists|from: int, to: int|
            0 <= from <= to <= text.len() && trimmed(text) == #[trigger] text.subrange(from, to)
                && is_blank(text.take(from)) && is_blank(text.skip(to)),
        exists|from: int, to: int|
            0 <= from <= to <= text.len() && trimmed(text) == #[trigger] text.subrange(from, to)
                && (forall|i: int|
                0 <= i < text.len() && !(from <= i < to) ==> is_white_space(#[trigger] text[i])),
        trimmed(text).len() > 0 ==> !is_white_space(trimmed(text).first()) && !is_white_space(
            trimmed(text).last(),
        ),
{
    let rest = trim_start(text);
    let from = text.len() - rest.len();
    lemma_trim_start(text);
    lemma_trim_end(rest);
    let to = from + trimmed(text).len();
    assert(trimmed(text) =~= text.subrange(from, to));
    assert forall|i: int| 0 <= i < text.skip(to).len() implies is_white_space(
        #[trigger] text.skip(to)[i],
    ) by {
        assert(rest[i + to - from] == text.skip(to)[i]);
    }
    assert forall|i: int| 0 <= i < text.len() && !(from <= i < to) implies is_white_space(
        #[trigger] text[i],
    ) by {
        if i >= to {
            assert(text.skip(to)[i - to] == text[i]);
        }
    }
    if trimmed(text).len() > 0 {
        assert(trimmed(text).first() == rest.first());
    }
}

// ---------------------------------------------------------------------------
// Patterns
// ---------------------------------------------------------------------------

/// Whether `pattern` occurs somewhere in `text`.
pub open spec fn has_pattern(text: Seq<char>, pattern: Seq<char>) -> bool {
    exists|at: int| 0 <= at <= text.len() && #[trigger] pattern.is_prefix_of(text.skip(at))
}

/// `text` with every occurrence of `pattern`, read from left to right and
/// without overlap, replaced by `with`.
pub open spec fn replaced(text: Seq<char>, pattern: Seq<char>, with: Seq<char>) -> Seq<char>
    recommends
        pattern.len() > 0,
    decreases text.len(),
{
    if pattern.len() == 0 || text.len() == 0 {
        text
    } else if pattern.is_prefix_of(text) {
        with + replaced(text.skip(pattern.len() as int), pattern, with)
    } else {
        seq![text.first()] + replaced(text.drop_first(), pattern, with)
    }
}

/// Whether `pattern` occurs in `text`.
pub fn contains(text: &str, pattern: &str) -> (found: bool)
    ensures
        found == has_pattern(text@, pattern@),
{
    let chars = chars_of(text);
    let wanted = chars_of(pattern);
    let mut at: usize = 0;
    while at < chars.len()
        invariant
            at <= chars@.len(),
            chars@ == text@,
            wanted@ == pattern@,
            forall|k: int| 0 <= k < at ==> !(#[trigger] pattern@.is_prefix_of(text@.skip(k))),
        decreases chars@.len() - at,
    {
        if matches_at(&chars, at, &wanted) {
            return true;
        }
        at += 1;
    }
    matches_at(&chars, at, &wanted)
}

/// Replaces every occurrence of `pattern` by `with`.
pub fn replace_all(text: &str, pattern: &str, with: &str) -> (result: String)
    requires
        pattern@.len() > 0,
    ensures
        result@ == replaced(text@, pattern@, with@),
{
    let chars = chars_of(text);
    let wanted = chars_of(pattern);
    let total: usize = chars.len();
    let mut result = String::new();
    let mut at: usize = 0;
    assert(chars@.skip(0) =~= chars@);
    while at < total
        invariant
            at <= total == chars@.len(),
            wanted@ == pattern@,
            wanted@.len() > 0,
            result@ + replaced(chars@.skip(at as int), pattern@, with@) == replaced(
                chars@,
                pattern@,
                with@,
            ),
        decreases total - at,
    {
        let ghost rest = chars@.skip(at as int);
        let ghost done = result@;
        if matches_at(&chars, at, &wanted) {
            result.append(with);
            assert(rest.skip(wanted@.len() as int) =~= chars@.skip(at + wanted@.len()));
            at += wanted.len();
            assert(done + (with@ + replaced(chars@.skip(at as int), pattern@, with@)) =~= (done
                + with@) + replaced(chars@.skip(at as int), pattern@, with@));
        } else {
            result.push(chars[at]);
            assert(rest.drop_first() =~= chars@.skip(at + 1));
            at += 1;
            assert(done + (seq![rest.first()] + replaced(chars@.skip(at as int), pattern@, with@))
                =~= done.push(rest.first()) + replaced(chars@.skip(at as int), pattern@, with@));
        }
    }
    assert(result@ + chars@.skip(at as int) =~= result@);
    result
}

/// What stands between the occurrences of `pattern` in `text`, in order.
pub open spec fn pieces(text: Seq<char>, pattern: Seq<char>) -> Seq<Seq<char>>
    decreases text.len(),
{
    if pattern.len() == 0 || text.len() == 0 {
        seq![text]
    } else if pattern.is_prefix_of(text) {
        seq![Seq::<char>::empty()] + pieces(text.skip(pattern.len() as int), pattern)
    } else {
        let rest = pieces(text.drop_first(), pattern);
        rest.update(0, seq![text.first()] + rest[0])
    }
}

/// The texts of `list` in order, with `separator` between each two.
pub open spec fn joined(list: Seq<Seq<char>>, separator: Seq<char>) -> Seq<char>
    decreases list.len(),
{
    if list.len() == 0 {
        Seq::empty()
    } else if list.len() == 1 {
        list[0]
    } else {
        list[0] + separator + joined(list.drop_first(), separator)
    }
}

/// Replacing cuts a text at the occurrences of the pattern, into pieces in which
/// the pattern does not occur, and puts the replacement into each gap. A text
/// without the pattern stays as it is.
pub proof fn law_replaced(text: Seq<char>, pattern: Seq<char>, with: Seq<char>)
    requires
        pattern.len() > 0,
    ensures
        text == joined(pieces(text, pattern), pattern),
        replaced(text, pattern, with) == joined(pieces(text, pattern), with),
        forall|i: int|
            0 <= i < pieces(text, pattern).len() ==> !has_pattern(
                #[trigger] pieces(text, pattern)[i],
                pattern,
            ),
        !has_pattern(text, pattern) ==> replaced(text, pattern, with) == text,
    decreases text.len(),
{
    let list = pieces(text, pattern);
    lemma_pieces_not_empty(text, pattern);
    if text.len() == 0 {
        assert forall|at: int| 0 <= at <= text.len() implies !(#[trigger] pattern.is_prefix_of(
            text.skip(at),
        )) by {}
    } else if pattern.is_prefix_of(text) {
        let tail = text.skip(pattern.len() as int);
        let rest = pieces(tail, pattern);
        law_replaced(tail, pattern, with);
        lemma_pieces_not_empty(tail, pattern);
        assert(list.drop_first() =~= rest);
        assert(text =~= pattern + tail);
        assert(Seq::<char>::empty() + pattern + tail =~= text);
        assert(Seq::<char>::empty() + with + joined(rest, with) =~= with + joined(rest, with));
        assert forall|i: int| 0 <= i < list.len() implies !has_pattern(
            #[trigger] list[i],
            pattern,
        ) by {
            if i > 0 {
                assert(list[i] == rest[i - 1]);
            }
        }
        assert(text.skip(0) =~= text);
        assert(has_pattern(text, pattern));
    } else {
        let tail = text.drop_first();
        let rest = pieces(tail, pattern);
        let first = seq![text.first()];
        law_replaced(tail, pattern, with);
        lemma_pieces_not_empty(tail, pattern);
        lemma_join_longer_first(rest, first, pattern);
        lemma_join_longer_first(rest, first, with);
        assert(first + tail =~= text);
        assert forall|i: int| 0 <= i < list.len() implies !has_pattern(
            #[trigger] list[i],
            pattern,
        ) by {
            if i == 0 {
                lemma_joined_starts_with_first(rest, pattern);
                assert forall|at: int| 0 <= at <= list[0].len() implies !(
                #[trigger] pattern.is_prefix_of(list[0].skip(at))) by {
                    if at == 0 {
                        assert(list[0].skip(0) =~= list[0]);
                        if pattern.is_prefix_of(list[0]) {
                            assert(list[0] =~= text.take(list[0].len() as int));
                            assert(pattern =~= text.subrange(0, pattern.len() as int));
                        }
                    } else {
                        assert(list[0].skip(at) =~= rest[0].skip(at - 1));
                        assert(!has_pattern(rest[0], pattern));
                    }
                }
            } else {
                assert(list[i] == rest[i]);
            }
        }
        if has_pattern(tail, pattern) {
            let at = choose|at: int|
                0 <= at <= tail.len() && #[trigger] pattern.is_prefix_of(tail.skip(at));
            assert(tail.skip(at) =~= text.skip(at + 1));
            assert(has_pattern(text, pattern));
        }
    }
}

/// Trimming brings no pattern into a text.
pub proof fn lemma_trimmed_pattern(text: Seq<char>, pattern: Seq<char>)
    ensures
        has_pattern(trimmed(text), pattern) ==> has_pattern(text, pattern),
{
    law_trim(text);
    let core = trimmed(text);
    if has_pattern(core, pattern) {
        let (from, to) = choose|from: int, to: int|
            0 <= from <= to <= text.len() && core == #[trigger] text.subrange(from, to) && is_blank(
                text.take(from),
            ) && is_blank(text.skip(to));
        let at = choose|at: int|
            0 <= at <= core.len() && #[trigger] pattern.is_prefix_of(core.skip(at));
        assert(pattern =~= core.skip(at).subrange(0, pattern.len() as int));
        assert(pattern =~= text.skip(from + at).subrange(0, pattern.len() as int));
        assert(pattern.is_prefix_of(text.skip(from + at)));
    }
}

/// Where the pattern occurs, its replacement occurs in what comes of the text.
pub proof fn lemma_replacement_occurs(text: Seq<char>, pattern: Seq<char>, with: Seq<char>)
    requires
        pattern.len() > 0,
        has_pattern(text, pattern),
    ensures
        has_pattern(replaced(text, pattern, with), with),
{
    let list = pieces(text, pattern);
    law_replaced(text, pattern, with);
    lemma_pieces_not_empty(text, pattern);
    if list.len() == 1 {
        assert(!has_pattern(list[0], pattern));
    }
    let whole = joined(list, with);
    let at = list[0].len() as int;
    assert(with =~= whole.skip(at).subrange(0, with.len() as int));
    assert(with.is_prefix_of(whole.skip(at)));
}

proof fn lemma_pieces_not_empty(text: Seq<char>, pattern: Seq<char>)
    ensures
        pieces(text, pattern).len() > 0,
    decreases text.len(),
{
    if pattern.len() == 0 || text.len() == 0 {
    } else if pattern.is_prefix_of(text) {
    } else {
        lemma_pieces_not_empty(text.drop_first(), pattern);
    }
}

proof fn lemma_join_longer_first(list: Seq<Seq<char>>, front: Seq<char>, separator: Seq<char>)
    requires
        list.len() > 0,
    ensures
        joined(list.update(0, front + list[0]), separator) == front + joined(list, separator),
{
    let longer = list.update(0, front + list[0]);
    assert(longer.drop_first() =~= list.drop_first());
    if list.len() > 1 {
        let rest = joined(list.drop_first(), separator);
        assert(front + list[0] + separator + rest =~= front + (list[0] + separator + rest));
    }
}

proof fn lemma_joined_starts_with_first(list: Seq<Seq<char>>, separator: Seq<char>)
    requires
        list.len() > 0,
    ensures
        list[0].is_prefix_of(joined(list, separator)),
{
    assert(list[0] =~= joined(list, separator).subrange(0, list[0].len() as int));
}

/// `text` without `prefix` at its front, or `text` itself where it starts otherwise.
pub open spec fn without_prefix(text: Seq<char>, prefix: Seq<char>) -> Seq<char> {
    if prefix.is_prefix_of(text) {
        text.skip(prefix.len() as int)
    } else {
        text
    }
}

/// Removes `prefix` once from the front of `text`, where it stands there.
pub fn strip_prefix_or_self(text: &str, prefix: &str) -> (rest: String)
    ensures
        rest@ == without_prefix(text@, prefix@),
{
    let chars = chars_of(text);
    let wanted = chars_of(prefix);
    assert(chars@.skip(0) =~= chars@);
    if matches_at(&chars, 0, &wanted) {
        text_between(&chars, wanted.len(), chars.len())
    } else {
        text_between(&chars, 0, chars.len())
    }
}

/// `text` without the slashes at its end.
pub open spec fn without_end_slashes(text: Seq<char>) -> Seq<char>
    decreases text.len(),
{
    if text.len() > 0 && text.last() == '/' {
        without_end_slashes(text.drop_last())
    } else {
        text
    }
}

/// Removes every slash at the end of `text`.
pub fn trim_end_slashes(text: &str) -> (rest: String)
    ensures
        rest@ == without_end_slashes(text@),
{
    let chars = chars_of(text);
    let mut to: usize = chars.len();
    assert(chars@.take(to as int) =~= chars@);
    while 0 < to && chars[to - 1] == '/'
        invariant
            to <= chars@.len(),
            without_end_slashes(chars@) == without_end_slashes(chars@.take(to as int)),
        decreases to,
    {
        assert(chars@.take(to as int).drop_last() =~= chars@.take(to - 1));
        to -= 1;
    }
    text_between(&chars, 0, to)
}

/// `first` followed by `second`.
pub fn join2(first: &str, second: &str) -> (whole: String)
    ensures
        whole@ == first@ + second@,
{
    let mut whole = first.to_string();
    whole.append(second);
    whole
}

/// `first` followed by `second` and `third`.
pub fn join3(first: &str, second: &str, third: &str) -> (whole: String)
    ensures
        whole@ == first@ + second@ + third@,
{
    let mut whole = join2(first, second);
    whole.append(third);
    whole
}

// ---------------------------------------------------------------------------
// Numbers
// ---------------------------------------------------------------------------

/// A decimal digit.
pub open spec fn is_digit(c: char) -> bool {
    '0' <= c <= '9'
}

/// The value of a sequence of decimal digits.
pub open spec fn digits_value(digits: Seq<char>) -> int
    decreases digits.len(),
{
    if digits.len() == 0 {
        0
    } else {
        digits_value(digits.drop_last()) * 10 + (digits.last() as int - '0' as int)
    }
}

/// The digits of a signed number: what follows a leading `+` or `-`.
pub open spec fn unsigned_part(text: Seq<char>) -> Seq<char> {
    if text.len() > 0 && (text.first() == '-' || text.first() == '+') {
        text.drop_first()
    } else {
        text
    }
}

/// The 32-bit signed number that `text` writes in decimal, an optional sign
/// followed by at least one digit, or `None` where it writes none.
pub open spec fn decimal_i32(text: Seq<char>) -> Option<int> {
    let digits = unsigned_part(text);
    let value = if text.len() > 0 && text.first() == '-' {
        -digits_value(digits)
    } else {
        digits_value(digits)
    };
    if digits.len() > 0 && (forall|i: int|
        0 <= i < digits.len() ==> is_digit(#[trigger] digits[i])) && i32::MIN <= value <= i32::MAX {
        Some(value)
    } else {
        None
    }
}

/// Reads a 32-bit signed decimal number.
pub fn parse_i32(text: &str) -> (number: Option<i32>)
    ensures
        match number {
            Some(number) => decimal_i32(text@) == Some(number as int),
            None => decimal_i32(text@) is None,
        },
{
    let chars = chars_of(text);
    let total: usize = chars.len();
    if total == 0 {
        return None;
    }
    let negative = chars[0] == '-';
    let start: usize = if negative || chars[0] == '+' { 1 } else { 0 };
    let ghost digits = unsigned_part(text@);
    assert(digits =~= chars@.skip(start as int));
    if start == total {
        return None;
    }
    let mut value: i64 = 0;
    let mut too_large = false;
    let mut i: usize = start;
    assert(digits.take(0) =~= Seq::empty());
    while i < total
        invariant
            start <= 1,
            start <= i <= total == chars@.len(),
            digits == chars@.skip(start as int),
            digits == unsigned_part(text@),
            forall|k: int| 0 <= k < i - start ==> is_digit(#[trigger] digits[k]),
            0 <= value <= 0x8000_0000,
            !too_large ==> value == digits_value(digits.take(i - start)),
            too_large ==> digits_value(digits.take(i - start)) > 0x8000_0000,
        decreases total - i,
    {
        let c = chars[i];
        let ghost seen = digits.take(i - start);
        assert(digits[i - start] == c);
        if !('0' <= c && c <= '9') {
            assert(!is_digit(digits[i - start]));
            return None;
        }
        let digit: i64 = (c as u32 - '0' as u32) as i64;
        assert(digits.take(i + 1 - start).drop_last() =~= seen);
        if !too_large {
            let next: i64 = value * 10 + digit;
            if next > 0x8000_0000 {
                too_large = true;
            } else {
                value = next;
            }
        }
        i += 1;
    }
    assert(digits.take(i - start) =~= digits);
    if too_large {
        return None;
    }
    if negative {
        Some((-value) as i32)
    } else if value == 0x8000_0000 {
        None
    } else {
        Some(value as i32)
    }
}

// ---------------------------------------------------------------------------
// Laws
// ---------------------------------------------------------------------------

/// The model of an optional text tells whether there is one, and which.
pub proof fn law_text_models(content: String, list: Seq<String>)
    ensures
        opt_text(Some(content)) == Some(content@),
        opt_text(None) is None,
        result_view(Ok(content)) == Ok::<Seq<char>, Seq<char>>(content@),
        result_view(Err(content)) == Err::<Seq<char>, Seq<char>>(content@),
        reply_view(Ok(Some(content))) == Ok::<Option<Seq<char>>, Seq<char>>(Some(content@)),
        reply_view(Ok(None)) == Ok::<Option<Seq<char>>, Seq<char>>(None),
        reply_view(Err(content)) == Err::<Option<Seq<char>>, Seq<char>>(content@),
        texts(list).len() == list.len(),
        forall|i: int| 0 <= i < list.len() ==> #[trigger] texts(list)[i] == list[i]@,
{
}

/// A text is blank exactly where each of its characters is white space, and
/// exactly then trimming leaves nothing of it.
pub proof fn law_blank(text: Seq<char>)
    ensures
        is_blank(text) <==> (forall|i: int|
            0 <= i < text.len() ==> is_white_space(#[trigger] text[i])),
        is_blank(text) <==> trimmed(text).len() == 0,
{
    lemma_blank_iff_trimmed_empty(text);
}

/// A pattern occurs in whatever is put around it, and nowhere else: where it
/// occurs, some part of the text is that pattern.
pub proof fn law_has_pattern(before: Seq<char>, pattern: Seq<char>, after: Seq<char>, text: Seq<char>)
    ensures
        has_pattern(before + pattern + after, pattern),
        has_pattern(text, pattern) <==> exists|from: int, to: int|
            0 <= from <= to <= text.len() && #[trigger] text.subrange(from, to) == pattern,
{
    let whole = before + pattern + after;
    let at = before.len() as int;
    assert(pattern =~= whole.skip(at).subrange(0, pattern.len() as int));
    assert(pattern.is_prefix_of(whole.skip(at)));
    if has_pattern(text, pattern) {
        let from = choose|from: int|
            0 <= from <= text.len() && #[trigger] pattern.is_prefix_of(text.skip(from));
        assert(text.skip(from).subrange(0, pattern.len() as int) =~= text.subrange(
            from,
            from + pattern.len(),
        ));
    }
    if exists|from: int, to: int|
        0 <= from <= to <= text.len() && #[trigger] text.subrange(from, to) == pattern {
        let (from, to) = choose|from: int, to: int|
            0 <= from <= to <= text.len() && #[trigger] text.subrange(from, to) == pattern;
        assert(pattern =~= text.skip(from).subrange(0, pattern.len() as int));
        assert(pattern.is_prefix_of(text.skip(from)));
    }
}

/// The first occurrence of the pattern is cut out, and the replacement put in
/// its place; what stands before it stays, and what comes after it is treated in
/// the same way.
pub proof fn law_first_occurrence(
    before: Seq<char>,
    pattern: Seq<char>,
    after: Seq<char>,
    with: Seq<char>,
)
    requires
        pattern.len() > 0,
        forall|at: int|
            0 <= at < before.len() ==> !(#[trigger] pattern.is_prefix_of(
                (before + pattern + after).skip(at),
            )),
    ensures
        replaced(before + pattern + after, pattern, with) == before + with + replaced(
            after,
            pattern,
            with,
        ),
        pieces(before + pattern + after, pattern) == seq![before] + pieces(after, pattern),
    decreases before.len(),
{
    let whole = before + pattern + after;
    if before.len() == 0 {
        assert(whole =~= pattern + after);
        assert(pattern =~= whole.subrange(0, pattern.len() as int));
        assert(whole.skip(pattern.len() as int) =~= after);
        assert(before =~= Seq::empty());
        assert(before + with =~= with);
    } else {
        let rest = before.drop_first();
        assert(whole.drop_first() =~= rest + pattern + after);
        assert(whole.skip(0) =~= whole);
        assert(!pattern.is_prefix_of(whole.skip(0)));
        assert forall|at: int| 0 <= at < rest.len() implies !(#[trigger] pattern.is_prefix_of(
            (rest + pattern + after).skip(at),
        )) by {
            assert((rest + pattern + after).skip(at) =~= whole.skip(at + 1));
        }
        law_first_occurrence(rest, pattern, after, with);
        let tail = replaced(after, pattern, with);
        assert(seq![whole.first()] + (rest + with + tail) =~= before + with + tail);
        let list = pieces(rest + pattern + after, pattern);
        assert(list =~= seq![rest] + pieces(after, pattern));
        assert(seq![whole.first()] + rest =~= before);
        assert(list.update(0, seq![whole.first()] + list[0]) =~= seq![before] + pieces(
            after,
            pattern,
        ));
    }
}

/// A text without the pattern is a single piece.
pub proof fn law_single_piece(text: Seq<char>, pattern: Seq<char>)
    requires
        pattern.len() > 0,
        !has_pattern(text, pattern),
    ensures
        pieces(text, pattern) == seq![text],
    decreases text.len(),
{
    if text.len() > 0 {
        assert(text.skip(0) =~= text);
        if pattern.is_prefix_of(text) {
            assert(pattern.is_prefix_of(text.skip(0)));
        }
        let tail = text.drop_first();
        if has_pattern(tail, pattern) {
            let at = choose|at: int|
                0 <= at <= tail.len() && #[trigger] pattern.is_prefix_of(tail.skip(at));
            assert(tail.skip(at) =~= text.skip(at + 1));
            assert(pattern.is_prefix_of(text.skip(at + 1)));
        }
        law_single_piece(tail, pattern);
        assert(seq![text.first()] + tail =~= text);
        assert(pieces(text, pattern) =~= seq![text]);
    }
}

/// Joining puts each text after the ones before it, with the separator between.
pub proof fn law_joined(list: Seq<Seq<char>>, last: Seq<char>, separator: Seq<char>)
    ensures
        joined(Seq::empty(), separator) == Seq::<char>::empty(),
        joined(seq![last], separator) == last,
        list.len() > 0 ==> joined(list.push(last), separator) == joined(list, separator) + separator
            + last,
    decreases list.len(),
{
    if list.len() > 0 {
        let rest = list.drop_first();
        assert(list.push(last).drop_first() =~= rest.push(last));
        if list.len() == 1 {
            assert(rest.push(last) =~= seq![last]);
            assert(joined(rest.push(last), separator) == last);
        } else {
            law_joined(rest, last, separator);
            let head = list[0] + separator;
            assert(head + (joined(rest, separator) + separator + last) =~= head + joined(
                rest,
                separator,
            ) + separator + last);
        }
    }
}

/// A prefix is removed from the front of what follows it, once; a text that
/// starts otherwise stays as it is.
pub proof fn law_without_prefix(prefix: Seq<char>, rest: Seq<char>, text: Seq<char>)
    ensures
        without_prefix(prefix + rest, prefix) == rest,
        !prefix.is_prefix_of(text) ==> without_prefix(text, prefix) == text,
{
    assert(prefix =~= (prefix + rest).subrange(0, prefix.len() as int));
    assert((prefix + rest).skip(prefix.len() as int) =~= rest);
}

/// The value of digits is positional: what stands in front counts ten times as
/// much for each digit behind it.
pub proof fn law_digits_value(front: Seq<char>, rest: Seq<char>, digit: char)
    ensures
        digits_value(seq![digit]) == digit as int - '0' as int,
        digits_value(front + rest) == digits_value(front) * vstd::arithmetic::power::pow(
            10,
            rest.len(),
        ) + digits_value(rest),
    decreases rest.len(),
{
    assert(seq![digit].drop_last() =~= Seq::empty());
    assert(digits_value(seq![digit].drop_last()) == 0);
    reveal(vstd::arithmetic::power::pow);
    if rest.len() == 0 {
        assert(front + rest =~= front);
    } else {
        let less = rest.drop_last();
        law_digits_value(front, less, digit);
        assert((front + rest).drop_last() =~= front + less);
        let a = digits_value(front);
        let p = vstd::arithmetic::power::pow(10, less.len());
        assert(vstd::arithmetic::power::pow(10, rest.len()) == 10 * p);
        assert((a * p) * 10 == a * (10 * p)) by (nonlinear_arith);
    }
}

/// A number is written by at least one digit, with or without a sign in front:
/// a minus negates it, a plus does not count. What does not fit in 32 bits, or
/// holds anything else, is no number.
pub proof fn law_decimal_i32(digits: Seq<char>, other: Seq<char>, at: int)
    requires
        digits.len() > 0,
        forall|i: int| 0 <= i < digits.len() ==> '0' <= #[trigger] digits[i] <= '9',
    ensures
        decimal_i32(digits) == (if digits_value(digits) <= i32::MAX {
            Some(digits_value(digits))
        } else {
            None
        }),
        decimal_i32(seq!['+'] + digits) == decimal_i32(digits),
        decimal_i32(seq!['-'] + digits) == (if -digits_value(digits) >= i32::MIN {
            Some(-digits_value(digits))
        } else {
            None
        }),
        decimal_i32(Seq::empty()) is None,
        decimal_i32(seq!['+']) is None,
        decimal_i32(seq!['-']) is None,
        0 <= at < other.len() && !('0' <= other[at] <= '9') && (at > 0 || (other[at] != '-'
            && other[at] != '+')) ==> decimal_i32(other) is None,
{
    lemma_digits_not_negative(digits);
    assert(is_digit(digits[0]));
    assert(unsigned_part(digits) == digits);
    assert((seq!['+'] + digits).drop_first() =~= digits);
    assert((seq!['-'] + digits).drop_first() =~= digits);
    assert(unsigned_part(seq!['+']) =~= Seq::empty());
    assert(unsigned_part(seq!['-']) =~= Seq::empty());
    if 0 <= at < other.len() && !('0' <= other[at] <= '9') && (at > 0 || (other[at] != '-'
        && other[at] != '+')) {
        let part = unsigned_part(other);
        let k = at - (other.len() - part.len());
        assert(part[k] == other[at]);
        assert(!is_digit(part[k]));
    }
}

proof fn lemma_digits_not_negative(digits: Seq<char>)
    requires
        forall|i: int| 0 <= i < digits.len() ==> '0' <= #[trigger] digits[i] <= '9',
    ensures
        digits_value(digits) >= 0,
    decreases digits.len(),
{
    if digits.len() > 0 {
        let front = digits.drop_last();
        assert forall|i: int| 0 <= i < front.len() implies '0' <= #[trigger] front[i] <= '9' by {
            assert(front[i] == digits[i]);
        }
        lemma_digits_not_negative(front);
        assert('0' <= digits[digits.len() - 1] <= '9');
    }
}

}
