use vstd::prelude::*;

use crate::backend::backend_arguments;
use crate::config::{output_flag, resolve, tape_extension, ConfigError};
use crate::translate::{translate, translation};

verus! {

/// One run of the translator: where the source comes from, its text, where
/// the binary goes, the extra compiler flag, and the generated C text.
#[derive(Clone, Debug)]
pub struct Program {
    pub compiler_flag: Option<String>,
    pub input: String,
    pub brainfuck: String,
    pub output: String,
    pub c: String,
}

impl Program {
    /// A fresh run: both paths at the current directory `.`, no source, no
    /// generated text, no extra flag.
    pub fn new() -> (r: Program)
        ensures
            r.compiler_flag is None,
            r.input@ == "."@,
            r.brainfuck@ == Seq::<char>::empty(),
            r.output@ == "."@,
            r.c@ == Seq::<char>::empty(),
    {
        Program {
            compiler_flag: None,
            input: String::from_str("."),
            brainfuck: String::new(),
            output: String::from_str("."),
            c: String::new(),
        }
    }

    /// Resolves a command line (program name first) into the input path, the
    /// output path and the extra compiler flag. On an error nothing changes.
    pub fn handle_arguments(&mut self, args: Vec<String>) -> (r: Result<(), ConfigError>)
        ensures
            match resolve(args.deep_view()) {
                Ok(settings) => {
                    &&& r is Ok
                    &&& final(self).input@ == settings.0
                    &&& final(self).output@ == settings.1
                    &&& final(self).compiler_flag.deep_view() == settings.2
                    &&& final(self).brainfuck == old(self).brainfuck
                    &&& final(self).c == old(self).c
                },
                Err(e) => r == Err::<(), ConfigError>(e) && *final(self) == *old(self),
            },
    {
        let ghost view = args.deep_view();
        let n = args.len();
        if n < 3 || n > 5 {
            return Err(ConfigError::ArgumentCount);
        }
        assert(view[1] == args[1]@ && view[2] == args[2]@);
        if n >= 4 && !output_flag(args[2].as_str()) {
            return Err(ConfigError::InvalidFlag);
        }
        if !tape_extension(args[1].as_str()) {
            return Err(ConfigError::BadExtension);
        }
        let out_index: usize = if n == 3 { 2 } else { 3 };
        assert(view[out_index as int] == args[out_index as int]@);
        self.input = args[1].clone();
        self.output = args[out_index].clone();
        if n == 5 {
            assert(view[4] == args[4]@);
            self.compiler_flag = Some(args[4].clone());
        } else {
            self.compiler_flag = None;
        }
        Ok(())
    }

    /// Sets the generated text to the translation unit of the source text;
    /// whatever it held before is replaced, so repeating the call changes nothing.
    pub fn transpile_to_c(&mut self)
        ensures
            final(self).c@ == translation(old(self).brainfuck@),
            final(self).brainfuck == old(self).brainfuck,
            final(self).input == old(self).input,
            final(self).output == old(self).output,
            final(self).compiler_flag == old(self).compiler_flag,
    {
        self.c = translate(self.brainfuck.as_str());
    }

    /// The arguments for the backend compiler, which reads the generated text
    /// from its standard input and writes the binary to the output path.
    pub fn compiler_arguments(&self) -> (r: Vec<String>)
        ensures
            r.deep_view() == backend_arguments(self.output@, self.compiler_flag.deep_view()),
    {
        proof {
            reveal_strlit("-o");
            reveal_strlit("-x");
            reveal_strlit("c");
            reveal_strlit("-");
            assert("-o"@ =~= seq!['-', 'o']);
            assert("-x"@ =~= seq!['-', 'x']);
            assert("c"@ =~= seq!['c']);
            assert("-"@ =~= seq!['-']);
        }
        let mut r: Vec<String> = Vec::new();
        r.push(String::from_str("-o"));
        r.push(self.output.clone());
        r.push(String::from_str("-x"));
        r.push(String::from_str("c"));
        match &self.compiler_flag {
            Some(f) => r.push(f.clone()),
            None => {},
        }
        r.push(String::from_str("-"));
        let ghost expected = backend_arguments(self.output@, self.compiler_flag.deep_view());
        assert(r.deep_view().len() == expected.len());
        assert forall|k: int| 0 <= k < expected.len() implies r.deep_view()[k] == expected[k] by {
            assert(r.deep_view()[k] == r@[k]@);
        }
        assert(r.deep_view() =~= expected);
        r
    }
}

} // verus!
