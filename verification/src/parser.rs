//! A cursor over a buffer that hands out its fenced blocks one by one, or all
//! at once.

use vstd::prelude::*;
use crate::block::{
    block_views, failure_views, BlockView, ExtractedBlock, Failure, FailureView, Outcome,
    OutcomeView,
};
use crate::chars::{chars_of, classify_all, kinds_of, CharKind};
use crate::scan::{next_block, outcome_at, skip_space, space_end};

verus! {

/// The blocks that scanning `text` from `from` to its end yields, in the order
/// in which they stand in `text`.
pub open spec fn blocks_from(
    text: Seq<char>,
    kinds: Seq<CharKind>,
    prefix: Seq<char>,
    from: int,
) -> Seq<BlockView>
    decreases text.len() - from,
{
    match outcome_at(text, kinds, prefix, from) {
        OutcomeView::Found(block, next) => if from < next <= text.len() {
            seq![block] + blocks_from(text, kinds, prefix, next)
        } else {
            seq![]
        },
        _ => seq![],
    }
}

/// The failures that scanning `text` from `from` to its end meets. A fence
/// that is never closed takes the rest of the input with it, so there is at
/// most one.
pub open spec fn failures_from(
    text: Seq<char>,
    kinds: Seq<CharKind>,
    prefix: Seq<char>,
    from: int,
) -> Seq<FailureView>
    decreases text.len() - from,
{
    match outcome_at(text, kinds, prefix, from) {
        OutcomeView::Found(_, next) => if from < next <= text.len() {
            failures_from(text, kinds, prefix, next)
        } else {
            seq![]
        },
        OutcomeView::End => seq![],
        OutcomeView::Malformed(failure, _) => seq![failure],
    }
}

/// The comment prefix that introduces a path annotation unless another is
/// chosen: two slashes.
pub open spec fn default_prefix() -> Seq<char> {
    seq!['/', '/']
}

/// A buffer of text with a cursor into it.
pub struct CodeParser {
    llm_out: Vec<char>,
    kinds: Vec<CharKind>,
    prefix: Vec<char>,
    strict: bool,
    cur_idx: usize,
    failures: Vec<Failure>,
}

impl CodeParser {
    /// The text being scanned.
    pub closed spec fn text(&self) -> Seq<char> {
        self.llm_out@
    }

    /// The comment prefix that introduces a path annotation.
    pub closed spec fn comment_prefix(&self) -> Seq<char> {
        self.prefix@
    }

    /// Whether `parse` stops at the first malformed block.
    pub closed spec fn is_strict(&self) -> bool {
        self.strict
    }

    /// The offset at which scanning resumes.
    pub closed spec fn cursor(&self) -> int {
        self.cur_idx as int
    }

    /// The failures recorded so far, oldest first.
    pub closed spec fn recorded(&self) -> Seq<Failure> {
        self.failures@
    }

    /// Every character of the text is classified.
    pub closed spec fn classified(&self) -> bool {
        self.kinds@ == kinds_of(self.llm_out@)
    }

    /// The cursor is within the text, and every character is classified.
    pub open spec fn wf(&self) -> bool {
        &&& 0 <= self.cursor() <= self.text().len()
        &&& self.classified()
    }

    /// A parser whose state differs from `before` at most in the cursor.
    pub open spec fn moved_from(&self, before: &CodeParser) -> bool {
        &&& self.wf()
        &&& self.text() == before.text()
        &&& self.comment_prefix() == before.comment_prefix()
        &&& self.is_strict() == before.is_strict()
        &&& self.recorded() == before.recorded()
    }

    /// A lenient parser at the start of `string`, with `//` as the comment
    /// prefix and no failure recorded.
    pub fn from_str(string: &str) -> (parser: Self)
        ensures
            parser.wf(),
            parser.text() == string@,
            parser.comment_prefix() == default_prefix(),
            !parser.is_strict(),
            parser.cursor() == 0,
            parser.recorded() == Seq::<Failure>::empty(),
    {
        let llm_out = chars_of(string);
        let kinds = classify_all(llm_out.as_slice());
        let mut prefix: Vec<char> = Vec::new();
        prefix.push('/');
        prefix.push('/');
        CodeParser { llm_out, kinds, prefix, strict: false, cur_idx: 0, failures: Vec::new() }
    }

    /// The same parser with `prefix` as the comment prefix.
    pub fn with_prefix(self, prefix: &str) -> (parser: Self)
        requires
            self.wf(),
        ensures
            parser.wf(),
            parser.comment_prefix() == prefix@,
            parser.text() == self.text(),
            parser.is_strict() == self.is_strict(),
            parser.cursor() == self.cursor(),
            parser.recorded() == self.recorded(),
    {
        let mut parser = self;
        parser.prefix = chars_of(prefix);
        parser
    }

    /// The same parser, strict or lenient as `strict` says.
    pub fn with_strict(self, strict: bool) -> (parser: Self)
        requires
            self.wf(),
        ensures
            parser.wf(),
            parser.is_strict() == strict,
            parser.text() == self.text(),
            parser.comment_prefix() == self.comment_prefix(),
            parser.cursor() == self.cursor(),
            parser.recorded() == self.recorded(),
    {
        let mut parser = self;
        parser.strict = strict;
        parser
    }

    /// The offset at which scanning resumes.
    pub fn offset(&self) -> (at: usize)
        ensures
            at == self.cursor(),
    {
        self.cur_idx
    }

    /// The failures recorded so far, oldest first.
    pub fn failures(&self) -> (list: &Vec<Failure>)
        ensures
            list@ == self.recorded(),
    {
        &self.failures
    }

    /// Whether the cursor has passed the last character.
    pub fn is_at_end(&self) -> (yes: bool)
        ensures
            yes == (self.cursor() >= self.text().len()),
    {
        self.cur_idx >= self.llm_out.len()
    }

    /// The character under the cursor, if there is one.
    pub fn peek(&self) -> (c: Option<char>)
        ensures
            c == if 0 <= self.cursor() < self.text().len() {
                Some(self.text()[self.cursor()])
            } else {
                None
            },
    {
        if self.cur_idx < self.llm_out.len() {
            Some(self.llm_out[self.cur_idx])
        } else {
            None
        }
    }

    /// Moves the cursor one character on, unless it is at the end.
    pub fn next_char(&mut self)
        requires
            old(self).wf(),
        ensures
            final(self).moved_from(old(self)),
            final(self).cursor() == if old(self).cursor() < old(self).text().len() {
                old(self).cursor() + 1
            } else {
                old(self).cursor()
            },
    {
        if self.cur_idx < self.llm_out.len() {
            self.cur_idx = self.cur_idx + 1;
        }
    }

    /// Moves the cursor `num_char_skipped` characters on, but not past the
    /// end.
    pub fn skip_char_to(&mut self, num_char_skipped: usize)
        requires
            old(self).wf(),
        ensures
            final(self).moved_from(old(self)),
            final(self).cursor() == if old(self).cursor() + num_char_skipped <= old(
                self,
            ).text().len() {
                old(self).cursor() + num_char_skipped
            } else {
                old(self).text().len() as int
            },
    {
        if num_char_skipped <= self.llm_out.len() - self.cur_idx {
            self.cur_idx = self.cur_idx + num_char_skipped;
        } else {
            self.cur_idx = self.llm_out.len();
        }
    }

    /// Moves the cursor to the first character at or after it that is no
    /// whitespace, or to the end.
    pub fn skip_whitespace(&mut self)
        requires
            old(self).wf(),
        ensures
            final(self).moved_from(old(self)),
            final(self).cursor() == space_end(kinds_of(old(self).text()), old(self).cursor()),
    {
        self.cur_idx = skip_space(self.kinds.as_slice(), self.cur_idx);
    }

    /// Puts the cursor back at the start and forgets the recorded failures.
    pub fn rewind(&mut self)
        requires
            old(self).wf(),
        ensures
            final(self).wf(),
            final(self).text() == old(self).text(),
            final(self).comment_prefix() == old(self).comment_prefix(),
            final(self).is_strict() == old(self).is_strict(),
            final(self).cursor() == 0,
            final(self).recorded() == Seq::<Failure>::empty(),
    {
        self.cur_idx = 0;
        self.failures = Vec::new();
    }

    /// Scans from the cursor for the next block and moves the cursor past
    /// it: past the closing fence of a block that was found, to the end after
    /// a malformed one. Where no fence is left the cursor stays.
    pub fn next_block(&mut self) -> (out: Outcome)
        requires
            old(self).wf(),
        ensures
            final(self).moved_from(old(self)),
            out@ == outcome_at(
                old(self).text(),
                kinds_of(old(self).text()),
                old(self).comment_prefix(),
                old(self).cursor(),
            ),
            final(self).cursor() == match out@ {
                OutcomeView::Found(_, next) => next,
                OutcomeView::End => old(self).cursor(),
                OutcomeView::Malformed(_, resume) => resume,
            },
            old(self).cursor() <= final(self).cursor(),
            !(out is End) ==> old(self).cursor() < final(self).cursor(),
    {
        let out = next_block(
            self.llm_out.as_slice(),
            self.kinds.as_slice(),
            self.prefix.as_slice(),
            self.cur_idx,
        );
        match &out {
            Outcome::Found(_, next) => {
                self.cur_idx = *next;
            },
            Outcome::End => {},
            Outcome::Malformed(_, resume) => {
                self.cur_idx = *resume;
            },
        }
        out
    }

    /// Scans from the cursor to the end of the text. Returns the blocks found,
    /// in the order in which they stand in the text, and records the failure
    /// of a block that was never closed. A strict parser stops at that
    /// failure; a lenient one resumes after it, where nothing is left to find.
    /// Either way the cursor ends at the end of the text.
    pub fn parse(&mut self) -> (blocks: Vec<ExtractedBlock>)
        requires
            old(self).wf(),
        ensures
            final(self).wf(),
            final(self).text() == old(self).text(),
            final(self).comment_prefix() == old(self).comment_prefix(),
            final(self).is_strict() == old(self).is_strict(),
            final(self).cursor() == old(self).text().len(),
            block_views(blocks@) == blocks_from(
                old(self).text(),
                kinds_of(old(self).text()),
                old(self).comment_prefix(),
                old(self).cursor(),
            ),
            failure_views(final(self).recorded()) == failure_views(old(self).recorded())
                + failures_from(
                old(self).text(),
                kinds_of(old(self).text()),
                old(self).comment_prefix(),
                old(self).cursor(),
            ),
    {
        let ghost text = self.text();
        let ghost kinds = kinds_of(text);
        let ghost prefix = self.comment_prefix();
        let ghost start = self.cursor();
        let ghost before = self.recorded();
        let ghost strict = self.is_strict();
        let mut blocks: Vec<ExtractedBlock> = Vec::new();
        let mut done = false;
        while !done
            invariant
                self.wf(),
                self.text() == text,
                kinds == kinds_of(text),
                self.comment_prefix() == prefix,
                self.is_strict() == strict,
                block_views(blocks@) + blocks_from(text, kinds, prefix, self.cursor())
                    == blocks_from(text, kinds, prefix, start),
                failure_views(self.recorded()) + failures_from(text, kinds, prefix, self.cursor())
                    == failure_views(before) + failures_from(text, kinds, prefix, start),
                done ==> self.cursor() == text.len(),
            decreases text.len() - self.cursor() + if done { 0int } else { 1int },
        {
            let out = next_block(
                self.llm_out.as_slice(),
                self.kinds.as_slice(),
                self.prefix.as_slice(),
                self.cur_idx,
            );
            match out {
                Outcome::Found(block, next) => {
                    blocks.push(block);
                    self.cur_idx = next;
                },
                Outcome::End => {
                    self.cur_idx = self.llm_out.len();
                    done = true;
                },
                Outcome::Malformed(failure, resume) => {
                    self.failures.push(failure);
                    self.cur_idx = resume;
                    if self.strict {
                        done = true;
                    }
                },
            }
        }
        blocks
    }
}

} // verus!
