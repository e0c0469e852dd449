use vstd::prelude::*;
use vstd::string::StringExecFns;

verus! {

/// What the command line asks for.
#[derive(Debug)]
pub struct CommandLine {
    /// `--regen_key` was given somewhere.
    pub regen_key: bool,
    /// The first argument that is not the flag; empty when there is none.
    pub key_name: String,
    /// The remaining arguments, in order.
    pub command_args: Vec<String>,
}

/// What to do with the credential once the key is derived.
#[derive(Debug, Clone, Copy, PartialEq, Eq, Structural)]
pub enum Mode {
    /// Restore the plaintext and leave it in place.
    Decrypt,
    /// Encrypt the plaintext and remove it.
    Encrypt,
    /// Read commands from standard input.
    Interactive,
    /// Run one external command on the credential.
    Run,
}

/// The character sequences of a list of strings.
pub open spec fn strings_view(s: Seq<String>) -> Seq<Seq<char>> {
    s.map_values(|x: String| x@)
}

/// One argument's effect on the parse so far.
pub open spec fn parse_step(st: (bool, Seq<char>, Seq<Seq<char>>), arg: Seq<char>) -> (bool, Seq<char>, Seq<Seq<char>>) {
    if arg == "--regen_key"@ {
        (true, st.1, st.2)
    } else if st.1.len() == 0 {
        (st.0, arg, st.2)
    } else {
        (st.0, st.1, st.2.push(arg))
    }
}

/// The parse of a list of arguments, taken from first to last.
pub open spec fn parse_spec(args: Seq<Seq<char>>) -> (bool, Seq<char>, Seq<Seq<char>>)
    decreases args.len(),
{
    if args.len() == 0 {
        (false, Seq::empty(), Seq::empty())
    } else {
        parse_step(parse_spec(args.drop_last()), args.last())
    }
}

/// The mode that the remaining arguments select.
pub open spec fn mode_of(command_args: Seq<Seq<char>>) -> Mode {
    if command_args.len() == 0 {
        Mode::Interactive
    } else if command_args[0] == "decrypt"@ {
        Mode::Decrypt
    } else if command_args[0] == "encrypt"@ {
        Mode::Encrypt
    } else {
        Mode::Run
    }
}

/// Splits the program's arguments (without the program name) into the
/// regeneration flag, the key name and the command's own arguments.
pub fn parse_command_line(args: &Vec<String>) -> (r: CommandLine)
    ensures
        (r.regen_key, r.key_name@, strings_view(r.command_args@)) == parse_spec(strings_view(args@)),
{
    let flag = String::from_str("--regen_key");
    let mut regen_key = false;
    let mut key_name = String::new();
    let mut command_args: Vec<String> = Vec::new();
    let mut i: usize = 0;
    while i < args.len()
        invariant
            i <= args@.len(),
            flag@ == "--regen_key"@,
            (regen_key, key_name@, strings_view(command_args@)) == parse_spec(strings_view(args@.subrange(0, i as int))),
        decreases args@.len() - i,
    {
        let arg = &args[i];
        proof {
            let prefix = strings_view(args@.subrange(0, i as int + 1));
            assert(prefix.drop_last() =~= strings_view(args@.subrange(0, i as int)));
            assert(prefix.last() == arg@);
        }
        if *arg == flag {
            regen_key = true;
        } else if key_name.as_str().is_empty() {
            key_name = arg.clone();
        } else {
            let ghost before = command_args@;
            command_args.push(arg.clone());
            assert(strings_view(command_args@) =~= strings_view(before).push(arg@));
        }
        i = i + 1;
    }
    assert(args@.subrange(0, args@.len() as int) =~= args@);
    CommandLine { regen_key, key_name, command_args }
}

/// Picks the mode from the command's arguments: `decrypt` and `encrypt` as
/// the first one name those operations, no arguments at all means
/// interactive use, anything else is an external command.
pub fn choose_mode(command_args: &Vec<String>) -> (r: Mode)
    ensures
        r == mode_of(strings_view(command_args@)),
{
    if command_args.len() == 0 {
        return Mode::Interactive;
    }
    let decrypt = String::from_str("decrypt");
    let encrypt = String::from_str("encrypt");
    if command_args[0] == decrypt {
        Mode::Decrypt
    } else if command_args[0] == encrypt {
        Mode::Encrypt
    } else {
        Mode::Run
    }
}

/// The whitespace-separated words of a line, in order.
pub uninterp spec fn words_of(line: Seq<char>) -> Seq<Seq<char>>;

/// The lowercase form of a string.
pub uninterp spec fn lowercase_of(s: Seq<char>) -> Seq<char>;

/// Relies on str::split_whitespace: the words of the line, split at Unicode
/// whitespace, without empty words; they depend on the line alone.
#[verifier::external_body]
fn split_words(line: &str) -> (r: Vec<String>)
    ensures
        strings_view(r@) == words_of(line@),
{
    line.split_whitespace().map(String::from).collect()
}

/// Relies on str::to_lowercase: the lowercase form depends on the characters
/// alone.
#[verifier::external_body]
fn lowercase(s: &str) -> (r: String)
    ensures
        r@ == lowercase_of(s@),
{
    s.to_lowercase()
}

/// What one line typed in interactive use asks for.
#[derive(Debug)]
pub enum LineCommand {
    /// Run `comx` with these arguments.
    Run(Vec<String>),
    /// Leave interactive use.
    Exit,
    /// Anything else.
    Invalid,
}

/// The command that a line's words make: `comx` followed by at least one
/// argument runs it, the single word `exit` in any case leaves.
pub open spec fn line_command_of(words: Seq<Seq<char>>) -> (Option<Seq<Seq<char>>>, bool) {
    if words.len() > 1 && words[0] == "comx"@ {
        (Some(words.drop_first()), false)
    } else if words.len() == 1 && lowercase_of(words[0]) == "exit"@ {
        (None, true)
    } else {
        (None, false)
    }
}

/// Spec view of a line command: the arguments to run, and whether to leave.
pub open spec fn line_command_view(c: LineCommand) -> (Option<Seq<Seq<char>>>, bool) {
    match c {
        LineCommand::Run(args) => (Some(strings_view(args@)), false),
        LineCommand::Exit => (None, true),
        LineCommand::Invalid => (None, false),
    }
}

/// Classifies a line by its words.
pub fn classify_words(words: &Vec<String>) -> (r: LineCommand)
    ensures
        line_command_view(r) == line_command_of(strings_view(words@)),
{
    let comx = String::from_str("comx");
    let exit = String::from_str("exit");
    if words.len() > 1 && words[0] == comx {
        let mut args: Vec<String> = Vec::new();
        let mut i: usize = 1;
        while i < words.len()
            invariant
                1 <= i <= words@.len(),
                strings_view(args@) == strings_view(words@).subrange(1, i as int),
            decreases words@.len() - i,
        {
            let ghost before = args@;
            args.push(words[i].clone());
            assert(strings_view(args@) =~= strings_view(before).push(words@[i as int]@));
            assert(strings_view(words@).subrange(1, i as int + 1) =~= strings_view(words@).subrange(1, i as int).push(words@[i as int]@));
            i = i + 1;
        }
        assert(strings_view(words@).drop_first() =~= strings_view(words@).subrange(1, words@.len() as int));
        LineCommand::Run(args)
    } else if words.len() == 1 && lowercase(words[0].as_str()) == exit {
        LineCommand::Exit
    } else {
        LineCommand::Invalid
    }
}

/// Classifies a line typed in interactive use.
pub fn parse_line(line: &str) -> (r: LineCommand)
    ensures
        line_command_view(r) == line_command_of(words_of(line@)),
{
    let words = split_words(line);
    classify_words(&words)
}

} // verus!
