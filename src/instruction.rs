use vstd::prelude::*;

verus! {

/// One of the eight symbols of the tape language.
#[derive(Clone, Copy, Debug, PartialEq, Eq, Structural)]
pub enum Instruction {
    MovePointerRight,
    MovePointerLeft,
    IncrementCell,
    DecrementCell,
    Output,
    Input,
    LoopOpen,
    LoopClose,
}

/// The instruction a character stands for; every other character is a comment.
pub open spec fn instruction_of(c: char) -> Option<Instruction> {
    if c == '>' {
        Some(Instruction::MovePointerRight)
    } else if c == '<' {
        Some(Instruction::MovePointerLeft)
    } else if c == '+' {
        Some(Instruction::IncrementCell)
    } else if c == '-' {
        Some(Instruction::DecrementCell)
    } else if c == '.' {
        Some(Instruction::Output)
    } else if c == ',' {
        Some(Instruction::Input)
    } else if c == '[' {
        Some(Instruction::LoopOpen)
    } else if c == ']' {
        Some(Instruction::LoopClose)
    } else {
        None
    }
}

pub const ADVANCE_LINE: &'static str = "     ++ptr;\n";
pub const RETREAT_LINE: &'static str = "     --ptr;\n";
pub const INCREMENT_LINE: &'static str = "     ++*ptr;\n";
pub const DECREMENT_LINE: &'static str = "     --*ptr;\n";
pub const OUTPUT_LINE: &'static str = "     putchar(*ptr);\n";
pub const INPUT_LINE: &'static str = "     *ptr = getchar();\n";
pub const LOOP_OPEN_LINE: &'static str = "     while (*ptr) {\n";
pub const LOOP_CLOSE_LINE: &'static str = "     }\n";

/// The target statement line emitted for an instruction.
pub open spec fn statement_of(i: Instruction) -> Seq<char> {
    match i {
        Instruction::MovePointerRight => ADVANCE_LINE@,
        Instruction::MovePointerLeft => RETREAT_LINE@,
        Instruction::IncrementCell => INCREMENT_LINE@,
        Instruction::DecrementCell => DECREMENT_LINE@,
        Instruction::Output => OUTPUT_LINE@,
        Instruction::Input => INPUT_LINE@,
        Instruction::LoopOpen => LOOP_OPEN_LINE@,
        Instruction::LoopClose => LOOP_CLOSE_LINE@,
    }
}

impl Instruction {
    /// Classifies a character of the source text.
    pub fn from_char(c: char) -> (r: Option<Instruction>)
        ensures
            r == instruction_of(c),
    {
        match c {
            '>' => Some(Instruction::MovePointerRight),
            '<' => Some(Instruction::MovePointerLeft),
            '+' => Some(Instruction::IncrementCell),
            '-' => Some(Instruction::DecrementCell),
            '.' => Some(Instruction::Output),
            ',' => Some(Instruction::Input),
            '[' => Some(Instruction::LoopOpen),
            ']' => Some(Instruction::LoopClose),
            _ => None,
        }
    }

    /// The statement line of this instruction, indented by a fixed prefix.
    pub fn statement(&self) -> (r: &'static str)
        ensures
            r@ == statement_of(*self),
    {
        match self {
            Instruction::MovePointerRight => ADVANCE_LINE,
            Instruction::MovePointerLeft => RETREAT_LINE,
            Instruction::IncrementCell => INCREMENT_LINE,
            Instruction::DecrementCell => DECREMENT_LINE,
            Instruction::Output => OUTPUT_LINE,
            Instruction::Input => INPUT_LINE,
            Instruction::LoopOpen => LOOP_OPEN_LINE,
            Instruction::LoopClose => LOOP_CLOSE_LINE,
        }
    }
}

} // verus!
