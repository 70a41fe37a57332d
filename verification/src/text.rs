//! Text as sequences of characters: reading a text's characters, finding one text in
//! another, and cutting a text at a delimiter.
use vstd::prelude::*;

verus! {

/// `String::push` appends one character.
pub assume_specification[ String::push ](s: &mut String, c: char)
    ensures
        final(s)@ == old(s)@.push(c),
;

/// The characters of `s`, in order.
pub fn chars_of(s: &str) -> (chars: Vec<char>)
    ensures
        chars@ == s@,
{
    let mut chars: Vec<char> = Vec::new();
    for c in it: s.chars()
        invariant
            it.seq() == s@,
            chars@ == it.seq().take(it.index() as int),
    {
        chars.push(c);
    }
    chars
}

/// The text made of `chars[from..to]`.
pub fn text_of(chars: &Vec<char>, from: usize, to: usize) -> (s: String)
    requires
        from <= to <= chars.len(),
    ensures
        s@ == chars@.subrange(from as int, to as int),
{
    let mut s = String::new();
    let mut i: usize = from;
    while i < to
        invariant
            from <= i <= to <= chars.len(),
            s@ == chars@.subrange(from as int, i as int),
        decreases to - i,
    {
        s.push(chars[i]);
        i = i + 1;
        assert(chars@.subrange(from as int, i as int) == chars@.subrange(from as int, i - 1).push(
            chars@[i - 1],
        ));
    }
    s
}

/// A character with ASCII capitals turned into small letters.
pub open spec fn lower(c: char) -> char {
    if 'A' <= c && c <= 'Z' {
        ((c as u8) + 32) as char
    } else {
        c
    }
}

/// The text with its ASCII capitals turned into small letters.
pub fn lowercased(text: &str) -> (out: String)
    ensures
        out@ == text@.map_values(|c: char| lower(c)),
{
    let mut out = String::new();
    for c in it: text.chars()
        invariant
            it.seq() == text@,
            out@ == it.seq().take(it.index() as int).map_values(|c: char| lower(c)),
    {
        let ghost before = it.seq().take(it.index() as int);
        let mapped = if 'A' <= c && c <= 'Z' {
            ((c as u8) + 32) as char
        } else {
            c
        };
        out.push(mapped);
        assert(it.seq().take(it.index() + 1) =~= before.push(c));
        assert(before.push(c).map_values(|c: char| lower(c)) =~= before.map_values(
            |c: char| lower(c),
        ).push(lower(c)));
    }
    assert(text@.take(text@.len() as int) =~= text@);
    out
}

/// Whether `needle` stands in `hay` at position `at`.
pub open spec fn occurs_at(hay: Seq<char>, needle: Seq<char>, at: int) -> bool {
    0 <= at && at + needle.len() <= hay.len() && hay.subrange(at, at + needle.len()) == needle
}

/// Tests whether `needle` stands in `hay` at position `at`.
pub fn matches_at(hay: &Vec<char>, needle: &Vec<char>, at: usize) -> (found: bool)
    ensures
        found == occurs_at(hay@, needle@, at as int),
{
    if needle.len() > hay.len() || at > hay.len() - needle.len() {
        return false;
    }
    let mut k: usize = 0;
    while k < needle.len()
        invariant
            k <= needle.len(),
            at + needle.len() <= hay.len(),
            forall|j: int| 0 <= j < k ==> hay@[at + j] == needle@[j],
        decreases needle.len() - k,
    {
        if hay[at + k] != needle[k] {
            assert(hay@.subrange(at as int, at + needle.len())[k as int] != needle@[k as int]);
            return false;
        }
        k = k + 1;
    }
    assert(hay@.subrange(at as int, at + needle.len()) =~= needle@);
    true
}

/// The values of a list of texts.
pub open spec fn texts(list: Seq<String>) -> Seq<Seq<char>> {
    list.map_values(|text: String| text@)
}

/// The pieces of `text` from `start` on, once it is known that no occurrence of
/// `delimiter` begins in `start..at`.
pub open spec fn split_from(text: Seq<char>, delimiter: Seq<char>, start: int, at: int) -> Seq<
    Seq<char>,
>
    decreases text.len() - at,
{
    if delimiter.len() == 0 || at < 0 || at + delimiter.len() > text.len() {
        seq![text.subrange(start, text.len() as int)]
    } else if occurs_at(text, delimiter, at) {
        seq![text.subrange(start, at)] + split_from(
            text,
            delimiter,
            at + delimiter.len(),
            at + delimiter.len(),
        )
    } else {
        split_from(text, delimiter, start, at + 1)
    }
}

/// The characters of a text, each as a text of its own.
pub open spec fn singles(text: Seq<char>) -> Seq<Seq<char>> {
    text.map_values(|c: char| seq![c])
}

/// The pieces into which an empty delimiter cuts `text`: it stands before and behind
/// every character, so the pieces are an empty one, every character, and an empty one.
pub open spec fn split_everywhere(text: Seq<char>) -> Seq<Seq<char>> {
    seq![Seq::<char>::empty()] + singles(text) + seq![Seq::<char>::empty()]
}

/// The pieces into which the occurrences of `delimiter` cut `text`, from left to right,
/// as `str::split` cuts. An occurrence starts where the delimiter stands and no earlier
/// occurrence covers the place. There is always a first piece: the text before the first
/// occurrence, or the whole text where the delimiter does not occur. An empty delimiter
/// occurs between all characters and at both ends.
pub open spec fn split_on(text: Seq<char>, delimiter: Seq<char>) -> Seq<Seq<char>> {
    if delimiter.len() == 0 {
        split_everywhere(text)
    } else {
        split_from(text, delimiter, 0, 0)
    }
}

/// The pieces rejoined with `delimiter` between them.
pub open spec fn joined(pieces: Seq<Seq<char>>, delimiter: Seq<char>) -> Seq<char>
    decreases pieces.len(),
{
    if pieces.len() == 0 {
        Seq::empty()
    } else if pieces.len() == 1 {
        pieces[0]
    } else {
        pieces[0] + delimiter + joined(pieces.drop_first(), delimiter)
    }
}

/// Cutting never yields nothing, and the pieces joined by the delimiter are the text
/// from the start of the current piece on.
proof fn lemma_split_from_joins(text: Seq<char>, delimiter: Seq<char>, start: int, at: int)
    requires
        0 <= start <= at <= text.len(),
    ensures
        split_from(text, delimiter, start, at).len() >= 1,
        joined(split_from(text, delimiter, start, at), delimiter) == text.subrange(
            start,
            text.len() as int,
        ),
    decreases text.len() - at,
{
    if delimiter.len() == 0 || at + delimiter.len() > text.len() {
    } else if occurs_at(text, delimiter, at) {
        let next = at + delimiter.len();
        let rest = split_from(text, delimiter, next, next);
        lemma_split_from_joins(text, delimiter, next, next);
        let all = seq![text.subrange(start, at)] + rest;
        assert(all.drop_first() =~= rest);
        assert(all[0] == text.subrange(start, at));
        assert(text.subrange(start, at) + delimiter + text.subrange(next, text.len() as int)
            =~= text.subrange(start, text.len() as int));
    } else {
        lemma_split_from_joins(text, delimiter, start, at + 1);
    }
}

/// The characters of a text and an empty piece behind them, joined by nothing, are the
/// text.
proof fn lemma_singles_join(text: Seq<char>)
    ensures
        joined(singles(text) + seq![Seq::<char>::empty()], Seq::empty()) == text,
    decreases text.len(),
{
    let nothing = Seq::<char>::empty();
    let pieces = singles(text) + seq![nothing];
    if text.len() == 0 {
        assert(pieces =~= seq![nothing]);
        assert(pieces[0] =~= text);
    } else {
        let rest = text.drop_first();
        lemma_singles_join(rest);
        assert(pieces.drop_first() =~= singles(rest) + seq![nothing]);
        assert(pieces[0] == seq![text[0]]);
        assert(seq![text[0]] + nothing + rest =~= text);
    }
}

/// The pieces of a text, joined by the delimiter, give the text back.
pub proof fn lemma_split_joins(text: Seq<char>, delimiter: Seq<char>)
    ensures
        split_on(text, delimiter).len() >= 1,
        joined(split_on(text, delimiter), delimiter) == text,
{
    if delimiter.len() == 0 {
        let nothing = Seq::<char>::empty();
        let pieces = split_everywhere(text);
        lemma_singles_join(text);
        assert(pieces.drop_first() =~= singles(text) + seq![nothing]);
        assert(pieces[0] == nothing);
        assert(delimiter =~= nothing);
        assert(nothing + nothing + text =~= text);
    } else {
        lemma_split_from_joins(text, delimiter, 0, 0);
        assert(text.subrange(0, text.len() as int) =~= text);
    }
}

/// What stands before the first occurrence of the delimiter: the first piece is a prefix
/// of the text, and the delimiter, unless it is empty, does not occur in it.
pub proof fn lemma_first_piece_excludes_delimiter(text: Seq<char>, delimiter: Seq<char>)
    requires
        delimiter.len() > 0,
    ensures
        split_on(text, delimiter)[0].is_prefix_of(text),
        forall|at: int| !occurs_at(split_on(text, delimiter)[0], delimiter, at),
{
    lemma_first_piece_from(text, delimiter, 0);
}

proof fn lemma_first_piece_from(text: Seq<char>, delimiter: Seq<char>, at: int)
    requires
        delimiter.len() > 0,
        0 <= at,
        forall|k: int| 0 <= k < at ==> !occurs_at(text, delimiter, k),
    ensures
        split_from(text, delimiter, 0, at)[0].is_prefix_of(text),
        forall|k: int| !occurs_at(split_from(text, delimiter, 0, at)[0], delimiter, k),
    decreases text.len() - at,
{
    let first = split_from(text, delimiter, 0, at)[0];
    if at + delimiter.len() > text.len() {
        assert(first == text.subrange(0, text.len() as int));
        assert(first =~= text);
        assert forall|k: int| !occurs_at(first, delimiter, k) by {
            if occurs_at(first, delimiter, k) {
                assert(k + delimiter.len() <= text.len());
                assert(k < at);
            }
        }
    } else if occurs_at(text, delimiter, at) {
        assert(first == text.subrange(0, at));
        assert forall|k: int| !occurs_at(first, delimiter, k) by {
            if occurs_at(first, delimiter, k) {
                assert(first.subrange(k, k + delimiter.len()) =~= text.subrange(
                    k,
                    k + delimiter.len(),
                ));
                assert(occurs_at(text, delimiter, k));
            }
        }
    } else {
        lemma_first_piece_from(text, delimiter, at + 1);
    }
}

/// Cutting goes by what stands from the current piece on: the text before it may be
/// left out.
proof fn lemma_split_from_shift(text: Seq<char>, delimiter: Seq<char>, n: int, start: int, at: int)
    requires
        0 <= n <= start <= at <= text.len(),
    ensures
        split_from(text, delimiter, start, at) == split_from(
            text.skip(n),
            delimiter,
            start - n,
            at - n,
        ),
    decreases text.len() - at,
{
    let tail = text.skip(n);
    let width = delimiter.len() as int;
    if delimiter.len() == 0 || at + width > text.len() {
        assert(text.subrange(start, text.len() as int) =~= tail.subrange(
            start - n,
            tail.len() as int,
        ));
    } else {
        assert(text.subrange(at, at + width) =~= tail.subrange(at - n, at - n + width));
        if occurs_at(text, delimiter, at) {
            lemma_split_from_shift(text, delimiter, n, at + width, at + width);
            assert(text.subrange(start, at) =~= tail.subrange(start - n, at - n));
        } else {
            lemma_split_from_shift(text, delimiter, n, start, at + 1);
        }
    }
}

/// Up to the first occurrence of the delimiter nothing is cut.
proof fn lemma_split_from_first(text: Seq<char>, delimiter: Seq<char>, at: int, first: int)
    requires
        delimiter.len() > 0,
        0 <= at <= first,
        occurs_at(text, delimiter, first),
        forall|k: int| 0 <= k < first ==> !occurs_at(text, delimiter, k),
    ensures
        split_from(text, delimiter, 0, at) == seq![text.subrange(0, first)] + split_from(
            text,
            delimiter,
            first + delimiter.len(),
            first + delimiter.len(),
        ),
    decreases first - at,
{
    if at < first {
        lemma_split_from_first(text, delimiter, at + 1, first);
    }
}

/// A text that holds the delimiter first behind `head` is cut into `head` and the pieces
/// of what follows the delimiter.
pub proof fn lemma_split_at_first_occurrence(
    head: Seq<char>,
    delimiter: Seq<char>,
    rest: Seq<char>,
)
    requires
        delimiter.len() > 0,
        forall|k: int| 0 <= k < head.len() ==> !occurs_at(head + delimiter + rest, delimiter, k),
    ensures
        split_on(head + delimiter + rest, delimiter) == seq![head] + split_on(rest, delimiter),
{
    let text = head + delimiter + rest;
    let first = head.len() as int;
    let next = first + delimiter.len();
    assert(text.subrange(first, next) =~= delimiter);
    lemma_split_from_first(text, delimiter, 0, first);
    lemma_split_from_shift(text, delimiter, next, next, next);
    assert(text.skip(next) =~= rest);
    assert(text.subrange(0, first) =~= head);
}

/// A text with two delimiters, each the first in what stands from its piece on, and none
/// behind them, is cut into three pieces.
pub proof fn lemma_split_in_three(
    first: Seq<char>,
    second: Seq<char>,
    third: Seq<char>,
    delimiter: Seq<char>,
)
    requires
        delimiter.len() > 0,
        forall|k: int|
            0 <= k < first.len() ==> !occurs_at(
                first + delimiter + (second + delimiter + third),
                delimiter,
                k,
            ),
        forall|k: int|
            0 <= k < second.len() ==> !occurs_at(second + delimiter + third, delimiter, k),
        forall|k: int| !occurs_at(third, delimiter, k),
    ensures
        split_on(first + delimiter + (second + delimiter + third), delimiter) == seq![
            first,
            second,
            third,
        ],
{
    lemma_split_at_first_occurrence(first, delimiter, second + delimiter + third);
    lemma_split_at_first_occurrence(second, delimiter, third);
    lemma_split_without_delimiter(third, delimiter);
    assert(seq![first] + (seq![second] + seq![third]) =~= seq![first, second, third]);
}

/// A text in which the delimiter does not occur is its own single piece.
pub proof fn lemma_split_without_delimiter(text: Seq<char>, delimiter: Seq<char>)
    requires
        forall|at: int| !occurs_at(text, delimiter, at),
    ensures
        split_on(text, delimiter) == seq![text],
{
    if delimiter.len() == 0 {
        assert(text.subrange(0, 0) =~= delimiter);
        assert(occurs_at(text, delimiter, 0));
    }
    lemma_no_occurrence_from(text, delimiter, 0);
    assert(text.subrange(0, text.len() as int) =~= text);
}

proof fn lemma_no_occurrence_from(text: Seq<char>, delimiter: Seq<char>, at: int)
    requires
        0 <= at,
        forall|k: int| !occurs_at(text, delimiter, k),
    ensures
        split_from(text, delimiter, 0, at) == seq![text.subrange(0, text.len() as int)],
    decreases text.len() - at,
{
    if delimiter.len() == 0 || at + delimiter.len() > text.len() {
    } else {
        lemma_no_occurrence_from(text, delimiter, at + 1);
    }
}

/// Cuts a text before and behind every character.
fn split_at_every_character(chars: &Vec<char>) -> (pieces: Vec<String>)
    ensures
        texts(pieces@) == split_everywhere(chars@),
{
    let mut pieces: Vec<String> = Vec::new();
    pieces.push(String::new());
    assert(texts(pieces@) =~= seq![Seq::<char>::empty()] + singles(chars@.take(0)));
    let mut i: usize = 0;
    while i < chars.len()
        invariant
            i <= chars.len(),
            texts(pieces@) == seq![Seq::<char>::empty()] + singles(chars@.take(i as int)),
        decreases chars.len() - i,
    {
        let ghost before = texts(pieces@);
        let piece = text_of(chars, i, i + 1);
        assert(piece@ =~= seq![chars@[i as int]]);
        pieces.push(piece);
        assert(texts(pieces@) =~= before.push(seq![chars@[i as int]]));
        assert(singles(chars@.take(i + 1)) =~= singles(chars@.take(i as int)).push(
            seq![chars@[i as int]],
        ));
        i = i + 1;
        assert(texts(pieces@) =~= seq![Seq::<char>::empty()] + singles(chars@.take(i as int)));
    }
    let ghost before = texts(pieces@);
    pieces.push(String::new());
    assert(chars@.take(chars.len() as int) =~= chars@);
    assert(texts(pieces@) =~= before.push(Seq::<char>::empty()));
    assert(texts(pieces@) =~= split_everywhere(chars@));
    pieces
}

/// Cuts `text` at every occurrence of `delimiter`, as `str::split` does.
pub fn split_text(text: &str, delimiter: &str) -> (pieces: Vec<String>)
    ensures
        texts(pieces@) == split_on(text@, delimiter@),
        pieces@.len() >= 1,
{
    let hay = chars_of(text);
    let needle = chars_of(delimiter);
    if needle.len() == 0 {
        return split_at_every_character(&hay);
    }
    let mut pieces: Vec<String> = Vec::new();
    let mut start: usize = 0;
    let mut at: usize = 0;
    assert(texts(pieces@) =~= Seq::empty());
    assert(Seq::<Seq<char>>::empty() + split_from(hay@, needle@, 0, 0) =~= split_from(
        hay@,
        needle@,
        0,
        0,
    ));
    while needle.len() > 0 && needle.len() <= hay.len() && at <= hay.len() - needle.len()
        invariant
            hay@ == text@,
            needle@ == delimiter@,
            start <= at <= hay.len(),
            texts(pieces@) + split_from(hay@, needle@, start as int, at as int) == split_on(
                hay@,
                needle@,
            ),
        decreases hay.len() - at,
    {
        if matches_at(&hay, &needle, at) {
            let ghost before = texts(pieces@);
            let ghost rest = split_from(
                hay@,
                needle@,
                at + needle.len(),
                at + needle.len(),
            );
            let piece = text_of(&hay, start, at);
            pieces.push(piece);
            proof {
                assert(texts(pieces@) =~= before.push(hay@.subrange(start as int, at as int)));
                assert(before + (seq![hay@.subrange(start as int, at as int)] + rest)
                    =~= before.push(hay@.subrange(start as int, at as int)) + rest);
            }
            at = at + needle.len();
            start = at;
        } else {
            at = at + 1;
        }
    }
    let ghost before = texts(pieces@);
    let last = text_of(&hay, start, hay.len());
    pieces.push(last);
    proof {
        assert(texts(pieces@) =~= before.push(hay@.subrange(start as int, hay.len() as int)));
        assert(before.push(hay@.subrange(start as int, hay.len() as int)) =~= before
            + seq![hay@.subrange(start as int, hay.len() as int)]);
    }
    pieces
}

} // verus!
