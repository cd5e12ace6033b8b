use vstd::prelude::*;

verus! {

/// Why a command line cannot be resolved into a configuration.
#[derive(Clone, Copy, Debug, PartialEq, Eq, Structural)]
pub enum ConfigError {
    /// Neither two, three nor four arguments follow the program name.
    ArgumentCount,
    /// The token before the output path is not `-o`.
    InvalidFlag,
    /// The input path does not end in `.bf` or `.b`.
    BadExtension,
}

/// The input path names a tape-language source: its extension is `bf` or `b`.
pub open spec fn has_tape_extension(name: Seq<char>) -> bool {
    let n = name.len();
    ||| (n >= 2 && name[n - 2] == '.' && name[n - 1] == 'b')
    ||| (n >= 3 && name[n - 3] == '.' && name[n - 2] == 'b' && name[n - 1] == 'f')
}

/// The token is the output flag `-o`.
pub open spec fn is_output_flag(token: Seq<char>) -> bool {
    token == seq!['-', 'o']
}

/// What a command line (program name first) resolves to: the input path, the
/// output path and the optional extra compiler flag, or the first error found.
/// The flag token is checked before the input's extension.
pub open spec fn resolve(args: Seq<Seq<char>>) -> Result<
    (Seq<char>, Seq<char>, Option<Seq<char>>),
    ConfigError,
> {
    let n = args.len();
    if n < 3 || n > 5 {
        Err(ConfigError::ArgumentCount)
    } else if n >= 4 && !is_output_flag(args[2]) {
        Err(ConfigError::InvalidFlag)
    } else if !has_tape_extension(args[1]) {
        Err(ConfigError::BadExtension)
    } else if n == 3 {
        Ok((args[1], args[2], None))
    } else if n == 4 {
        Ok((args[1], args[3], None))
    } else {
        Ok((args[1], args[3], Some(args[4])))
    }
}

/// Tells whether a path ends in `.bf` or `.b`.
pub fn tape_extension(name: &str) -> (r: bool)
    ensures
        r == has_tape_extension(name@),
{
    let n = name.unicode_len();
    if n >= 2 && name.get_char(n - 2) == '.' && name.get_char(n - 1) == 'b' {
        return true;
    }
    n >= 3 && name.get_char(n - 3) == '.' && name.get_char(n - 2) == 'b' && name.get_char(n - 1)
        == 'f'
}

/// Tells whether a token is the output flag `-o`.
pub fn output_flag(token: &str) -> (r: bool)
    ensures
        r == is_output_flag(token@),
{
    let n = token.unicode_len();
    let r = n == 2 && token.get_char(0) == '-' && token.get_char(1) == 'o';
    assert(r ==> token@ == seq!['-', 'o']);
    r
}

} // verus!
