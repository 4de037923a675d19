//! What holds of scanning in general.

use vstd::prelude::*;
use crate::block::{block_views, BlockView, ExtractedBlock, FailureView, OutcomeView};
use crate::chars::{char_is_whitespace, kinds_of, CharKind};
use crate::parser::{blocks_from, failures_from};
use crate::scan::{
    block_at, body_start, fence, fence_from, has_path, is_fence_at, lemma_fence_from,
    lemma_header_order, lemma_space_end, lemma_token_end, mark_at, outcome_at, path_end,
    path_start, tag_end,
};

verus! {

/// The first fence at or after `from` starts at `at`.
pub open spec fn is_first_fence(text: Seq<char>, from: int, at: int) -> bool {
    &&& 0 <= from <= at
    &&& is_fence_at(text, at)
    &&& forall|j: int| from <= j < at ==> !is_fence_at(text, j)
}

/// No fence starts at or after `from`.
pub open spec fn no_fence_from(text: Seq<char>, from: int) -> bool {
    forall|j: int| from <= j ==> !is_fence_at(text, j)
}

/// From `from` on, `text` holds exactly the fence pairs that open at `opens`
/// and close at `closes`: each opening fence is the first fence after what
/// came before, each closing fence is the first fence after the header of its
/// block, and no fence follows the last pair.
pub open spec fn fence_pairs(
    text: Seq<char>,
    kinds: Seq<CharKind>,
    prefix: Seq<char>,
    from: int,
    opens: Seq<int>,
    closes: Seq<int>,
) -> bool
    decreases opens.len(),
{
    &&& opens.len() == closes.len()
    &&& if opens.len() == 0 {
        no_fence_from(text, from)
    } else {
        &&& is_first_fence(text, from, opens[0])
        &&& is_first_fence(text, body_start(text, kinds, prefix, opens[0] + 3), closes[0])
        &&& fence_pairs(
            text,
            kinds,
            prefix,
            closes[0] + 3,
            opens.drop_first(),
            closes.drop_first(),
        )
    }
}

/// The text of a block from its opening fence up to its body.
pub open spec fn header_text(
    text: Seq<char>,
    kinds: Seq<CharKind>,
    prefix: Seq<char>,
    open: int,
) -> Seq<char> {
    text.subrange(open, body_start(text, kinds, prefix, open + 3))
}

/// Every character of `s` is whitespace.
pub open spec fn all_whitespace(s: Seq<char>) -> bool {
    forall|i: int| 0 <= i < s.len() ==> char_is_whitespace(#[trigger] s[i])
}

/// No character of `s` is whitespace.
pub open spec fn no_whitespace(s: Seq<char>) -> bool {
    forall|i: int| 0 <= i < s.len() ==> !char_is_whitespace(#[trigger] s[i])
}

/// A fence that is the first one after `from` is the one that `fence_from`
/// gives.
pub proof fn lemma_first_fence_found(text: Seq<char>, from: int, at: int)
    requires
        is_first_fence(text, from, at),
    ensures
        fence_from(text, from) == Some(at),
{
    lemma_fence_from(text, from);
}

/// Where no fence follows, `fence_from` gives none.
pub proof fn lemma_no_fence_none(text: Seq<char>, from: int)
    requires
        0 <= from,
        no_fence_from(text, from),
    ensures
        fence_from(text, from) is None,
{
    lemma_fence_from(text, from);
}

/// A block that is found ends after the offset from which it was sought and
/// within the text; a malformed one opens at or after that offset and takes
/// the rest of the text.
pub proof fn lemma_outcome_advances(
    text: Seq<char>,
    kinds: Seq<CharKind>,
    prefix: Seq<char>,
    from: int,
)
    requires
        kinds.len() == text.len(),
        0 <= from <= text.len(),
    ensures
        match outcome_at(text, kinds, prefix, from) {
            OutcomeView::Found(_, next) => from < next <= text.len(),
            OutcomeView::End => no_fence_from(text, from),
            OutcomeView::Malformed(failure, resume) => {
                &&& is_first_fence(text, from, failure.fence_at)
                &&& no_fence_from(text, body_start(text, kinds, prefix, failure.fence_at + 3))
                &&& failure.fence_at < resume == text.len()
            },
        },
{
    lemma_fence_from(text, from);
    if let Some(open) = fence_from(text, from) {
        lemma_header_order(text, kinds, prefix, open + 3);
        lemma_fence_from(text, body_start(text, kinds, prefix, open + 3));
    }
}

/// In a block that is found, the language holds no whitespace, the path, if
/// there is one, is not empty and holds no whitespace, and no fence starts
/// within the body.
pub proof fn lemma_block_shape(text: Seq<char>, prefix: Seq<char>, from: int)
    requires
        0 <= from <= text.len(),
    ensures
        match outcome_at(text, kinds_of(text), prefix, from) {
            OutcomeView::Found(block, _) => {
                &&& no_whitespace(block.language)
                &&& match block.path {
                    Some(path) => path.len() > 0 && no_whitespace(path),
                    None => true,
                }
                &&& forall|k: int| !is_fence_at(block.body, k)
            },
            _ => true,
        },
{
    let kinds = kinds_of(text);
    lemma_fence_from(text, from);
    if let Some(open) = fence_from(text, from) {
        let start = open + 3;
        let body = body_start(text, kinds, prefix, start);
        lemma_header_order(text, kinds, prefix, start);
        lemma_fence_from(text, body);
        lemma_token_end(kinds, start);
        if let Some(close) = fence_from(text, body) {
            let block = block_at(text, kinds, prefix, open, close);
            assert(no_whitespace(block.language)) by {
                assert forall|i: int| 0 <= i < block.language.len() implies !char_is_whitespace(
                    #[trigger] block.language[i],
                ) by {
                    assert(kinds[start + i] != CharKind::Space);
                }
            }
            if has_path(text, kinds, prefix, start) {
                let from_p = path_start(kinds, prefix, start);
                let to_p = path_end(kinds, prefix, start);
                lemma_space_end(kinds, mark_at(kinds, start) + prefix.len());
                lemma_token_end(kinds, from_p);
                let path = text.subrange(from_p, to_p);
                assert forall|i: int| 0 <= i < path.len() implies !char_is_whitespace(
                    #[trigger] path[i],
                ) by {
                    assert(kinds[from_p + i] != CharKind::Space);
                }
            }
            assert forall|k: int| !is_fence_at(block.body, k) by {
                if is_fence_at(block.body, k) {
                    assert(is_fence_at(text, body + k));
                }
            }
        }
    }
}

/// A text that holds `opens.len()` fence pairs yields exactly that many
/// blocks, the block of each pair in the order of the pairs, and no failure.
pub proof fn lemma_fence_pairs_all_found(
    text: Seq<char>,
    kinds: Seq<CharKind>,
    prefix: Seq<char>,
    from: int,
    opens: Seq<int>,
    closes: Seq<int>,
)
    requires
        kinds.len() == text.len(),
        0 <= from <= text.len(),
        fence_pairs(text, kinds, prefix, from, opens, closes),
    ensures
        blocks_from(text, kinds, prefix, from) == Seq::new(
            opens.len(),
            |i: int| block_at(text, kinds, prefix, opens[i], closes[i]),
        ),
        failures_from(text, kinds, prefix, from) == Seq::<FailureView>::empty(),
    decreases opens.len(),
{
    if opens.len() == 0 {
        lemma_no_fence_none(text, from);
    } else {
        let open = opens[0];
        let close = closes[0];
        let rest_opens = opens.drop_first();
        let rest_closes = closes.drop_first();
        lemma_first_fence_found(text, from, open);
        lemma_header_order(text, kinds, prefix, open + 3);
        lemma_first_fence_found(text, body_start(text, kinds, prefix, open + 3), close);
        lemma_fence_pairs_all_found(text, kinds, prefix, close + 3, rest_opens, rest_closes);
    }
}

/// The header of a block that is found, its body and a fence, put together,
/// are the text from its opening fence to the end of its closing fence. The
/// header is the fence, the language, whitespace and, where the block has a
/// path, the comment prefix, whitespace, the path and whitespace.
pub proof fn lemma_round_trip(text: Seq<char>, prefix: Seq<char>, from: int)
    requires
        0 <= from <= text.len(),
    ensures
        match outcome_at(text, kinds_of(text), prefix, from) {
            OutcomeView::Found(block, next) => {
                let kinds = kinds_of(text);
                let open = fence_from(text, from)->0;
                let start = open + 3;
                let gap = text.subrange(tag_end(kinds, start), mark_at(kinds, start));
                &&& from <= open
                &&& text.subrange(open, next) == header_text(text, kinds, prefix, open)
                    + block.body + fence()
                &&& all_whitespace(gap)
                &&& match block.path {
                    None => header_text(text, kinds, prefix, open) == fence() + block.language
                        + gap,
                    Some(path) => {
                        let before = text.subrange(
                            mark_at(kinds, start) + prefix.len(),
                            path_start(kinds, prefix, start),
                        );
                        let after = text.subrange(
                            path_end(kinds, prefix, start),
                            body_start(text, kinds, prefix, start),
                        );
                        &&& all_whitespace(before)
                        &&& all_whitespace(after)
                        &&& header_text(text, kinds, prefix, open) == fence() + block.language
                            + gap + prefix + before + path + after
                    },
                }
            },
            _ => true,
        },
{
    let kinds = kinds_of(text);
    lemma_fence_from(text, from);
    if let Some(open) = fence_from(text, from) {
        let start = open + 3;
        let body = body_start(text, kinds, prefix, start);
        lemma_header_order(text, kinds, prefix, start);
        lemma_fence_from(text, body);
        if let Some(close) = fence_from(text, body) {
            let tag = tag_end(kinds, start);
            let mark = mark_at(kinds, start);
            let gap = text.subrange(tag, mark);
            lemma_space_end(kinds, tag);
            assert(all_whitespace(gap)) by {
                assert forall|i: int| 0 <= i < gap.len() implies char_is_whitespace(
                    #[trigger] gap[i],
                ) by {
                    assert(kinds[tag + i] == CharKind::Space);
                }
            }
            if has_path(text, kinds, prefix, start) {
                let from_p = path_start(kinds, prefix, start);
                let to_p = path_end(kinds, prefix, start);
                let before = text.subrange(mark + prefix.len(), from_p);
                let after = text.subrange(to_p, body);
                lemma_space_end(kinds, mark + prefix.len());
                lemma_space_end(kinds, to_p);
                assert forall|i: int| 0 <= i < before.len() implies char_is_whitespace(
                    #[trigger] before[i],
                ) by {
                    assert(kinds[mark + prefix.len() + i] == CharKind::Space);
                }
                assert forall|i: int| 0 <= i < after.len() implies char_is_whitespace(
                    #[trigger] after[i],
                ) by {
                    assert(kinds[to_p + i] == CharKind::Space);
                }
            }
        }
    }
}

/// Scanning is a function of the text, the comment prefix and the offset:
/// two results of scanning the same input hold the same blocks in the same
/// order.
pub proof fn lemma_same_input_same_blocks(
    first: Seq<ExtractedBlock>,
    second: Seq<ExtractedBlock>,
    text: Seq<char>,
    prefix: Seq<char>,
    from: int,
)
    requires
        block_views(first) == blocks_from(text, kinds_of(text), prefix, from),
        block_views(second) == blocks_from(text, kinds_of(text), prefix, from),
    ensures
        first.len() == second.len(),
        forall|i: int| 0 <= i < first.len() ==> first[i]@ == second[i]@,
{
    assert(block_views(first).len() == first.len());
    assert(block_views(second).len() == second.len());
    assert forall|i: int| 0 <= i < first.len() implies first[i]@ == second[i]@ by {
        assert(block_views(first)[i] == first[i]@);
        assert(block_views(second)[i] == second[i]@);
    }
}

/// A fence that is never closed takes the rest of the text with it, so
/// scanning meets at most one failure.
pub proof fn lemma_at_most_one_failure(
    text: Seq<char>,
    kinds: Seq<CharKind>,
    prefix: Seq<char>,
    from: int,
)
    ensures
        failures_from(text, kinds, prefix, from).len() <= 1,
    decreases text.len() - from,
{
    if let OutcomeView::Found(_, next) = outcome_at(text, kinds, prefix, from) {
        if from < next <= text.len() {
            lemma_at_most_one_failure(text, kinds, prefix, next);
        }
    }
}

/// A text without a backtick holds no block and no failure: scanning it ends
/// at once.
pub proof fn lemma_no_backtick_no_block(
    text: Seq<char>,
    kinds: Seq<CharKind>,
    prefix: Seq<char>,
    from: int,
)
    requires
        0 <= from,
        forall|i: int| 0 <= i < text.len() ==> text[i] != '`',
    ensures
        outcome_at(text, kinds, prefix, from) == OutcomeView::End,
        blocks_from(text, kinds, prefix, from) == Seq::<BlockView>::empty(),
        failures_from(text, kinds, prefix, from) == Seq::<FailureView>::empty(),
{
    lemma_fence_from(text, from);
}

} // verus!
