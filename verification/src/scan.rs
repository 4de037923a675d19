//! The fence scanner: from a buffer and an offset to the next block.

use vstd::prelude::*;
use crate::chars::{CharKind, string_of};
use crate::block::{
    BlockView, ExtractedBlock, Failure, FailureView, Outcome, OutcomeView, ScanError,
};

verus! {

/// The fence marker: three backticks.
pub open spec fn fence() -> Seq<char> {
    seq!['`', '`', '`']
}

/// A fence marker starts at offset `at` of `text`.
pub open spec fn is_fence_at(text: Seq<char>, at: int) -> bool {
    &&& 0 <= at
    &&& at + 3 <= text.len()
    &&& text[at] == '`'
    &&& text[at + 1] == '`'
    &&& text[at + 2] == '`'
}

/// The offset of the first fence marker that starts at or after `from`.
pub open spec fn fence_from(text: Seq<char>, from: int) -> Option<int>
    decreases text.len() - from,
{
    if from + 3 > text.len() {
        None
    } else if is_fence_at(text, from) {
        Some(from)
    } else {
        fence_from(text, from + 1)
    }
}

/// The first offset at or after `from` that holds no whitespace, or the end.
pub open spec fn space_end(kinds: Seq<CharKind>, from: int) -> int
    decreases kinds.len() - from,
{
    if 0 <= from < kinds.len() && kinds[from] == CharKind::Space {
        space_end(kinds, from + 1)
    } else {
        from
    }
}

/// The first offset at or after `from` that holds whitespace, or the end.
pub open spec fn token_end(kinds: Seq<CharKind>, from: int) -> int
    decreases kinds.len() - from,
{
    if 0 <= from < kinds.len() && kinds[from] != CharKind::Space {
        token_end(kinds, from + 1)
    } else {
        from
    }
}

/// `prefix` occurs in `text` at offset `at`.
pub open spec fn has_prefix_at(text: Seq<char>, prefix: Seq<char>, at: int) -> bool {
    &&& 0 <= at
    &&& at + prefix.len() <= text.len()
    &&& text.subrange(at, at + prefix.len()) == prefix
}

/// Where the language tag that starts at `start` ends. A tag is present only
/// if `start` holds an alphanumeric character; without one this is `start`.
pub open spec fn tag_end(kinds: Seq<CharKind>, start: int) -> int {
    if 0 <= start < kinds.len() && kinds[start] == CharKind::Alnum {
        token_end(kinds, start)
    } else {
        start
    }
}

/// Where the comment prefix of a path annotation would stand: the first
/// offset after the tag that holds no whitespace.
pub open spec fn mark_at(kinds: Seq<CharKind>, start: int) -> int {
    space_end(kinds, tag_end(kinds, start))
}

/// The header that starts at `start` carries a path annotation.
pub open spec fn has_path(
    text: Seq<char>,
    kinds: Seq<CharKind>,
    prefix: Seq<char>,
    start: int,
) -> bool {
    has_prefix_at(text, prefix, mark_at(kinds, start))
}

/// Where the path token of an annotated header starts.
pub open spec fn path_start(kinds: Seq<CharKind>, prefix: Seq<char>, start: int) -> int {
    space_end(kinds, mark_at(kinds, start) + prefix.len())
}

/// Where the path token of an annotated header ends.
pub open spec fn path_end(kinds: Seq<CharKind>, prefix: Seq<char>, start: int) -> int {
    token_end(kinds, path_start(kinds, prefix, start))
}

/// Where the body of the block whose header starts at `start` begins.
pub open spec fn body_start(
    text: Seq<char>,
    kinds: Seq<CharKind>,
    prefix: Seq<char>,
    start: int,
) -> int {
    if has_path(text, kinds, prefix, start) {
        space_end(kinds, path_end(kinds, prefix, start))
    } else {
        mark_at(kinds, start)
    }
}

/// The block whose opening fence is at `open` and whose closing fence is at
/// `close`.
pub open spec fn block_at(
    text: Seq<char>,
    kinds: Seq<CharKind>,
    prefix: Seq<char>,
    open: int,
    close: int,
) -> BlockView {
    let start = open + 3;
    BlockView {
        language: text.subrange(start, tag_end(kinds, start)),
        path: if has_path(text, kinds, prefix, start) {
            Some(text.subrange(path_start(kinds, prefix, start), path_end(kinds, prefix, start)))
        } else {
            None
        },
        body: text.subrange(body_start(text, kinds, prefix, start), close),
    }
}

/// What scanning `text` from `from` finds. `kinds` classifies `text` position
/// by position and `prefix` introduces a path annotation.
pub open spec fn outcome_at(
    text: Seq<char>,
    kinds: Seq<CharKind>,
    prefix: Seq<char>,
    from: int,
) -> OutcomeView {
    match fence_from(text, from) {
        None => OutcomeView::End,
        Some(open) => match fence_from(text, body_start(text, kinds, prefix, open + 3)) {
            None => OutcomeView::Malformed(
                FailureView { reason: ScanError::UnterminatedFence, fence_at: open },
                text.len() as int,
            ),
            Some(close) => OutcomeView::Found(
                block_at(text, kinds, prefix, open, close),
                close + 3,
            ),
        },
    }
}

/// `fence_from` gives the first fence at or after `from`, and none only if
/// there is none.
pub proof fn lemma_fence_from(text: Seq<char>, from: int)
    requires
        0 <= from,
    ensures
        match fence_from(text, from) {
            Some(at) => {
                &&& from <= at
                &&& is_fence_at(text, at)
                &&& forall|j: int| from <= j < at ==> !is_fence_at(text, j)
            },
            None => forall|j: int| from <= j ==> !is_fence_at(text, j),
        },
    decreases text.len() - from,
{
    if from + 3 <= text.len() && !is_fence_at(text, from) {
        lemma_fence_from(text, from + 1);
    }
}

/// `space_end` stays within the buffer, passes only whitespace, and stops at
/// the first character that is none.
pub proof fn lemma_space_end(kinds: Seq<CharKind>, from: int)
    requires
        0 <= from <= kinds.len(),
    ensures
        from <= space_end(kinds, from) <= kinds.len(),
        forall|j: int| from <= j < space_end(kinds, from) ==> kinds[j] == CharKind::Space,
        space_end(kinds, from) < kinds.len() ==> kinds[space_end(kinds, from)] != CharKind::Space,
    decreases kinds.len() - from,
{
    if from < kinds.len() && kinds[from] == CharKind::Space {
        lemma_space_end(kinds, from + 1);
    }
}

/// `token_end` stays within the buffer, passes no whitespace, and stops at
/// the first whitespace.
pub proof fn lemma_token_end(kinds: Seq<CharKind>, from: int)
    requires
        0 <= from <= kinds.len(),
    ensures
        from <= token_end(kinds, from) <= kinds.len(),
        forall|j: int| from <= j < token_end(kinds, from) ==> kinds[j] != CharKind::Space,
        token_end(kinds, from) < kinds.len() ==> kinds[token_end(kinds, from)] == CharKind::Space,
    decreases kinds.len() - from,
{
    if from < kinds.len() && kinds[from] != CharKind::Space {
        lemma_token_end(kinds, from + 1);
    }
}

/// The parts of a header follow one another within the buffer.
pub proof fn lemma_header_order(
    text: Seq<char>,
    kinds: Seq<CharKind>,
    prefix: Seq<char>,
    start: int,
)
    requires
        kinds.len() == text.len(),
        0 <= start <= text.len(),
    ensures
        start <= tag_end(kinds, start) <= mark_at(kinds, start) <= body_start(
            text,
            kinds,
            prefix,
            start,
        ) <= text.len(),
        has_path(text, kinds, prefix, start) ==> mark_at(kinds, start) + prefix.len()
            <= path_start(kinds, prefix, start) <= path_end(kinds, prefix, start) <= body_start(
            text,
            kinds,
            prefix,
            start,
        ),
{
    lemma_token_end(kinds, start);
    lemma_space_end(kinds, tag_end(kinds, start));
    if has_path(text, kinds, prefix, start) {
        lemma_space_end(kinds, mark_at(kinds, start) + prefix.len());
        lemma_token_end(kinds, path_start(kinds, prefix, start));
        lemma_space_end(kinds, path_end(kinds, prefix, start));
    }
}

/// Finds the first fence marker that starts at or after `from`.
pub fn find_fence(text: &[char], from: usize) -> (found: Option<usize>)
    requires
        from <= text.len(),
    ensures
        match found {
            Some(at) => fence_from(text@, from as int) == Some(at as int),
            None => fence_from(text@, from as int) is None,
        },
{
    let mut i: usize = from;
    while i < text.len() && text.len() - i >= 3
        invariant
            from <= i <= text.len(),
            fence_from(text@, i as int) == fence_from(text@, from as int),
        decreases text.len() - i,
    {
        if text[i] == '`' && text[i + 1] == '`' && text[i + 2] == '`' {
            return Some(i);
        }
        i += 1;
    }
    None
}

/// Skips whitespace: the first offset at or after `from` that holds none.
pub fn skip_space(kinds: &[CharKind], from: usize) -> (end: usize)
    requires
        from <= kinds.len(),
    ensures
        end == space_end(kinds@, from as int),
        from <= end <= kinds.len(),
{
    let mut i: usize = from;
    while i < kinds.len() && kinds[i] == CharKind::Space
        invariant
            from <= i <= kinds.len(),
            space_end(kinds@, i as int) == space_end(kinds@, from as int),
        decreases kinds.len() - i,
    {
        i += 1;
    }
    i
}

/// Skips a token: the first offset at or after `from` that holds whitespace.
pub fn skip_token(kinds: &[CharKind], from: usize) -> (end: usize)
    requires
        from <= kinds.len(),
    ensures
        end == token_end(kinds@, from as int),
        from <= end <= kinds.len(),
{
    let mut i: usize = from;
    while i < kinds.len() && kinds[i] != CharKind::Space
        invariant
            from <= i <= kinds.len(),
            token_end(kinds@, i as int) == token_end(kinds@, from as int),
        decreases kinds.len() - i,
    {
        i += 1;
    }
    i
}

/// Tells whether `prefix` occurs in `text` at offset `at`.
pub fn starts_with_at(text: &[char], prefix: &[char], at: usize) -> (yes: bool)
    requires
        at <= text.len(),
    ensures
        yes == has_prefix_at(text@, prefix@, at as int),
{
    if prefix.len() > text.len() - at {
        return false;
    }
    let mut k: usize = 0;
    while k < prefix.len()
        invariant
            at + prefix.len() <= text.len(),
            k <= prefix.len(),
            forall|j: int| 0 <= j < k ==> text[at + j] == prefix[j],
        decreases prefix.len() - k,
    {
        if text[at + k] != prefix[k] {
            return false;
        }
        k += 1;
    }
    assert(text@.subrange(at as int, at + prefix.len()) =~= prefix@);
    true
}

/// Scans `text` from `offset` for the next block.
///
/// `kinds` classifies `text` position by position; `prefix` is the comment
/// prefix that introduces a path annotation.
pub fn next_block(text: &[char], kinds: &[CharKind], prefix: &[char], offset: usize) -> (out:
    Outcome)
    requires
        kinds.len() == text.len(),
        offset <= text.len(),
    ensures
        out@ == outcome_at(text@, kinds@, prefix@, offset as int),
        match out {
            Outcome::Found(_, next) => offset < next <= text.len(),
            Outcome::End => true,
            Outcome::Malformed(failure, resume) => offset <= failure.fence_at < resume
                == text.len(),
        },
{
    let open = match find_fence(text, offset) {
        Some(open) => open,
        None => { return Outcome::End; },
    };
    proof {
        lemma_fence_from(text@, offset as int);
        lemma_header_order(text@, kinds@, prefix@, open + 3);
    }
    let start: usize = open + 3;
    let tag_stop: usize = if start < kinds.len() && kinds[start] == CharKind::Alnum {
        skip_token(kinds, start)
    } else {
        start
    };
    let language = string_of(text, start, tag_stop);
    let mark: usize = skip_space(kinds, tag_stop);
    let mut path: Option<String> = None;
    let mut cursor: usize = mark;
    if starts_with_at(text, prefix, mark) {
        let path_from: usize = skip_space(kinds, mark + prefix.len());
        let path_to: usize = skip_token(kinds, path_from);
        path = Some(string_of(text, path_from, path_to));
        cursor = skip_space(kinds, path_to);
    }
    match find_fence(text, cursor) {
        None => Outcome::Malformed(
            Failure { reason: ScanError::UnterminatedFence, fence_at: open },
            text.len(),
        ),
        Some(close) => {
            proof {
                lemma_fence_from(text@, cursor as int);
            }
            let body = string_of(text, cursor, close);
            Outcome::Found(ExtractedBlock { language, path, body }, close + 3)
        },
    }
}

} // verus!
