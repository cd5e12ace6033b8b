use vstd::prelude::*;

use crate::instruction::{instruction_of, statement_of, Instruction};

verus! {

pub const HEADER_INCLUDE: &'static str = "#include <stdio.h>\n\nint main() {\n";
pub const TAPE_DECLARATION: &'static str = "     unsigned char tape[30000] = {0};\n";
pub const POINTER_DECLARATION: &'static str = "     unsigned char* ptr = tape;\n\n";
pub const EPILOGUE: &'static str = "     return 0;\n}";

/// The fixed text that opens every translation unit: the include, the entry
/// point, the zeroed tape of 30000 byte cells and the pointer to its start.
pub open spec fn prologue() -> Seq<char> {
    HEADER_INCLUDE@ + TAPE_DECLARATION@ + POINTER_DECLARATION@
}

/// The fixed text that closes every translation unit.
pub open spec fn epilogue() -> Seq<char> {
    EPILOGUE@
}

/// What one source character contributes to the body: its statement line, or
/// nothing for a comment character.
pub open spec fn line_of(c: char) -> Seq<char> {
    match instruction_of(c) {
        Some(i) => statement_of(i),
        None => Seq::empty(),
    }
}

/// The body: the statement lines of the recognized characters, in order.
pub open spec fn body_of(s: Seq<char>) -> Seq<char>
    decreases s.len(),
{
    if s.len() == 0 {
        Seq::empty()
    } else {
        body_of(s.drop_last()) + line_of(s.last())
    }
}

/// The complete translation unit for a source text.
pub open spec fn translation(s: Seq<char>) -> Seq<char> {
    prologue() + body_of(s) + epilogue()
}

/// Translates tape-language source text into a complete C translation unit.
/// Total: every character is either mapped to its statement or ignored.
pub fn translate(source: &str) -> (r: String)
    ensures
        r@ == translation(source@),
{
    let mut out = String::new();
    out.append(HEADER_INCLUDE);
    out.append(TAPE_DECLARATION);
    out.append(POINTER_DECLARATION);
    let ghost mut done: Seq<char> = Seq::empty();
    for c in it: source.chars()
        invariant
            it.seq() == source@,
            done == it.seq().take(it.index() as int),
            out@ == prologue() + body_of(done),
    {
        proof {
            assert(done.push(c).drop_last() == done);
            done = done.push(c);
        }
        match Instruction::from_char(c) {
            Some(i) => out.append(i.statement()),
            None => {},
        }
    }
    assert(done == source@);
    out.append(EPILOGUE);
    out
}

} // verus!
