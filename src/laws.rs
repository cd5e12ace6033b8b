use vstd::prelude::*;

use crate::instruction::{instruction_of, statement_of, Instruction};
use crate::translate::{body_of, epilogue, line_of, prologue, translation};

verus! {

/// The number of lines a text holds, counted by its newline characters.
pub open spec fn line_count(t: Seq<char>) -> nat
    decreases t.len(),
{
    if t.len() == 0 {
        0
    } else {
        line_count(t.drop_last()) + if t.last() == '\n' {
            1nat
        } else {
            0nat
        }
    }
}

/// The number of characters of a source text that are instructions.
pub open spec fn recognized_count(s: Seq<char>) -> nat
    decreases s.len(),
{
    if s.len() == 0 {
        0
    } else {
        recognized_count(s.drop_last()) + if instruction_of(s.last()) is Some {
            1nat
        } else {
            0nat
        }
    }
}

proof fn lemma_line_count_concat(a: Seq<char>, b: Seq<char>)
    ensures
        line_count(a + b) == line_count(a) + line_count(b),
    decreases b.len(),
{
    if b.len() == 0 {
        assert(a + b == a);
    } else {
        assert((a + b).drop_last() == a + b.drop_last());
        lemma_line_count_concat(a, b.drop_last());
    }
}

proof fn lemma_statement_is_one_line(i: Instruction)
    ensures
        line_count(statement_of(i)) == 1,
{
    reveal_strlit("     ++ptr;\n");
    reveal_strlit("     --ptr;\n");
    reveal_strlit("     ++*ptr;\n");
    reveal_strlit("     --*ptr;\n");
    reveal_strlit("     putchar(*ptr);\n");
    reveal_strlit("     *ptr = getchar();\n");
    reveal_strlit("     while (*ptr) {\n");
    reveal_strlit("     }\n");
    reveal_with_fuel(line_count, 24);
}

/// Every recognized character of the source gives exactly one line of the
/// body, and every other character gives none.
pub proof fn lemma_body_lines_match_instructions(s: Seq<char>)
    ensures
        line_count(body_of(s)) == recognized_count(s),
    decreases s.len(),
{
    if s.len() > 0 {
        lemma_body_lines_match_instructions(s.drop_last());
        lemma_line_count_concat(body_of(s.drop_last()), line_of(s.last()));
        if let Some(i) = instruction_of(s.last()) {
            lemma_statement_is_one_line(i);
        }
    }
}

/// Empty source text translates to the prologue followed by the epilogue.
pub proof fn lemma_empty_translation()
    ensures
        translation(Seq::empty()) == prologue() + epilogue(),
{
    assert(prologue() + Seq::<char>::empty() == prologue());
}

/// Source text that holds no instruction gives an empty body.
pub proof fn lemma_comments_only_give_empty_body(s: Seq<char>)
    requires
        forall|k: int| 0 <= k < s.len() ==> instruction_of(#[trigger] s[k]) is None,
    ensures
        body_of(s) == Seq::<char>::empty(),
        translation(s) == prologue() + epilogue(),
    decreases s.len(),
{
    if s.len() > 0 {
        assert(instruction_of(s[s.len() - 1]) is None);
        lemma_comments_only_give_empty_body(s.drop_last());
        assert(body_of(s.drop_last()) + Seq::<char>::empty() == body_of(s.drop_last()));
    }
    assert(prologue() + Seq::<char>::empty() == prologue());
}

/// Translation depends on the source text alone: equal texts give equal units.
pub proof fn lemma_translation_is_pure(a: Seq<char>, b: Seq<char>)
    requires
        a == b,
    ensures
        translation(a) == translation(b),
{
}

} // verus!
