//! The configuration parser: from the argument vector of the process to a
//! validated configuration, or to the reason why there is none.

use vstd::prelude::*;
use vstd::utf8::*;

verus! {

/// Why an argument vector gives no configuration.
#[derive(Debug, Clone, Copy, PartialEq, Eq, Structural)]
pub enum ParseError {
    /// The arguments ended where a token was still owed.
    MissingArguments,
    /// No file was named.
    NoFilename,
}

impl ParseError {
    /// The line shown to the user for this error.
    pub open spec fn text(self) -> Seq<char> {
        match self {
            ParseError::MissingArguments => "Not enough arguments provided!"@,
            ParseError::NoFilename => "No filename provided!"@,
        }
    }

    /// The line shown to the user for this error.
    pub fn message(&self) -> (m: &'static str)
        ensures
            m@ == self.text(),
    {
        match self {
            ParseError::MissingArguments => "Not enough arguments provided!",
            ParseError::NoFilename => "No filename provided!",
        }
    }
}

/// What a run was asked to do.
#[derive(Debug)]
pub struct Config {
    /// Show the usage text and do nothing else.
    pub help: bool,
    /// Report characters in place of bytes.
    pub chars: bool,
    /// The files to report on, in the order given.
    pub file_paths: Vec<String>,
}

/// The mathematical value of a [`Config`].
pub ghost struct ConfigView {
    pub help: bool,
    pub chars: bool,
    pub file_paths: Seq<Seq<char>>,
}

/// The texts of a sequence of strings.
pub open spec fn texts(v: Seq<String>) -> Seq<Seq<char>> {
    Seq::new(v.len(), |i: int| v[i]@)
}

impl View for Config {
    type V = ConfigView;

    open spec fn view(&self) -> ConfigView {
        ConfigView { help: self.help, chars: self.chars, file_paths: texts(self.file_paths@) }
    }
}

impl ConfigView {
    /// A configuration that asks for no help names at least one file.
    pub open spec fn wf(self) -> bool {
        !self.help ==> self.file_paths.len() > 0
    }
}

impl Config {
    /// A configuration that asks for no help names at least one file.
    pub open spec fn wf(&self) -> bool {
        self@.wf()
    }
}

/// Whether `token` asks for the usage text: `-h` or `--help`, to the letter.
pub open spec fn is_help_flag(token: Seq<char>) -> bool {
    token == seq!['-', 'h'] || token == seq!['-', '-', 'h', 'e', 'l', 'p']
}

/// Whether `token` asks for characters: `-c` or `--chars`, to the letter.
pub open spec fn is_chars_flag(token: Seq<char>) -> bool {
    token == seq!['-', 'c'] || token == seq!['-', '-', 'c', 'h', 'a', 'r', 's']
}

/// The configuration that asks for the usage text. Its one path is an empty
/// placeholder that nothing reads.
pub open spec fn help_view() -> ConfigView {
    ConfigView { help: true, chars: false, file_paths: seq![Seq::<char>::empty()] }
}

/// What an argument vector means. The first token names the program and is
/// passed over. The second may be a flag; after the characters flag the third
/// may still ask for help. Every token after that names a file, whatever it
/// looks like.
pub open spec fn parse(tokens: Seq<Seq<char>>) -> Result<ConfigView, ParseError> {
    if tokens.len() < 2 {
        Err(ParseError::MissingArguments)
    } else if is_help_flag(tokens[1]) {
        Ok(help_view())
    } else if is_chars_flag(tokens[1]) {
        if tokens.len() < 3 {
            Err(ParseError::MissingArguments)
        } else if is_help_flag(tokens[2]) {
            Ok(help_view())
        } else {
            Ok(ConfigView { help: false, chars: true, file_paths: tokens.skip(2) })
        }
    } else {
        Ok(ConfigView { help: false, chars: false, file_paths: tokens.skip(1) })
    }
}

/// The mathematical value of what [`Config::build`] returns.
pub open spec fn outcome_view(r: Result<Config, ParseError>) -> Result<ConfigView, ParseError> {
    match r {
        Ok(c) => Ok(c@),
        Err(e) => Err(e),
    }
}

/// Whether two texts are the same, character for character.
pub fn same_text(a: &str, b: &str) -> (r: bool)
    ensures
        r == (a@ == b@),
{
    let x = a.as_bytes();
    let y = b.as_bytes();
    proof {
        encode_utf8_decode_utf8(a@);
        encode_utf8_decode_utf8(b@);
    }
    if x.len() != y.len() {
        return false;
    }
    let mut i: usize = 0;
    while i < x.len()
        invariant
            i <= x.len(),
            x.len() == y.len(),
            x@ == encode_utf8(a@),
            y@ == encode_utf8(b@),
            forall|j: int| 0 <= j < i ==> x@[j] == y@[j],
        decreases x.len() - i,
    {
        if x[i] != y[i] {
            return false;
        }
        i = i + 1;
    }
    assert(x@ =~= y@);
    true
}

/// Whether `token` is `-h` or `--help`.
pub fn asks_help(token: &str) -> (r: bool)
    ensures
        r == is_help_flag(token@),
{
    proof {
        reveal_strlit("-h");
        reveal_strlit("--help");
        assert("-h"@ =~= seq!['-', 'h']);
        assert("--help"@ =~= seq!['-', '-', 'h', 'e', 'l', 'p']);
    }
    same_text(token, "-h") || same_text(token, "--help")
}

/// Whether `token` is `-c` or `--chars`.
pub fn asks_chars(token: &str) -> (r: bool)
    ensures
        r == is_chars_flag(token@),
{
    proof {
        reveal_strlit("-c");
        reveal_strlit("--chars");
        assert("-c"@ =~= seq!['-', 'c']);
        assert("--chars"@ =~= seq!['-', '-', 'c', 'h', 'a', 'r', 's']);
    }
    same_text(token, "-c") || same_text(token, "--chars")
}

/// The configuration that asks for the usage text.
fn help_config() -> (c: Config)
    ensures
        c@ == help_view(),
{
    let mut file_paths: Vec<String> = Vec::new();
    file_paths.push(String::new());
    let c = Config { help: true, chars: false, file_paths };
    assert(c@.file_paths =~= help_view().file_paths);
    c
}

/// Where the scanner stands between two tokens.
#[derive(Debug, Clone, Copy, PartialEq, Eq, Structural)]
pub enum ScanState {
    /// Nothing but the program's name is behind: a flag may come.
    ExpectFirstToken,
    /// The characters flag is just behind: a help flag may still come.
    ExpectCharsFollowup,
    /// A path is behind: whatever comes is a path.
    CollectingPaths,
}

/// What the scanner makes of one token.
#[derive(Debug, Clone, Copy, PartialEq, Eq, Structural)]
pub enum Scanned {
    /// The token asks for the usage text: the scan ends.
    Help,
    /// The token asks for characters.
    CharsFlag,
    /// The token names a file.
    Path,
}

impl ScanState {
    /// What a token is taken for in this state.
    pub open spec fn reads(self, token: Seq<char>) -> Scanned {
        match self {
            ScanState::ExpectFirstToken => if is_help_flag(token) {
                Scanned::Help
            } else if is_chars_flag(token) {
                Scanned::CharsFlag
            } else {
                Scanned::Path
            },
            ScanState::ExpectCharsFollowup => if is_help_flag(token) {
                Scanned::Help
            } else {
                Scanned::Path
            },
            ScanState::CollectingPaths => Scanned::Path,
        }
    }

    /// The state after a token that was taken for `scanned`. A help flag ends
    /// the scan, so the state stays.
    pub open spec fn after(self, scanned: Scanned) -> ScanState {
        match scanned {
            Scanned::Help => self,
            Scanned::CharsFlag => ScanState::ExpectCharsFollowup,
            Scanned::Path => ScanState::CollectingPaths,
        }
    }

    /// What `token` is taken for in this state.
    pub fn scan(&self, token: &str) -> (scanned: Scanned)
        ensures
            scanned == self.reads(token@),
    {
        match self {
            ScanState::ExpectFirstToken => {
                if asks_help(token) {
                    Scanned::Help
                } else if asks_chars(token) {
                    Scanned::CharsFlag
                } else {
                    Scanned::Path
                }
            },
            ScanState::ExpectCharsFollowup => {
                if asks_help(token) {
                    Scanned::Help
                } else {
                    Scanned::Path
                }
            },
            ScanState::CollectingPaths => Scanned::Path,
        }
    }
}

/// Whether the scanner, having read the first `i` of `tokens`, none of them
/// for a help flag, stands in `state` with `chars` set and `paths` collected.
pub open spec fn scanned_so_far(
    tokens: Seq<Seq<char>>,
    i: int,
    state: ScanState,
    chars: bool,
    paths: Seq<Seq<char>>,
) -> bool {
    match state {
        ScanState::ExpectFirstToken => i == 1 && !chars && paths.len() == 0,
        ScanState::ExpectCharsFollowup => i == 2 && chars && paths.len() == 0 && is_chars_flag(
            tokens[1],
        ) && !is_help_flag(tokens[1]),
        ScanState::CollectingPaths => {
            let first: int = if chars { 2 } else { 1 };
            &&& first < i
            &&& !is_help_flag(tokens[1])
            &&& chars == is_chars_flag(tokens[1])
            &&& chars ==> !is_help_flag(tokens[2])
            &&& paths == tokens.subrange(first, i)
        },
    }
}

impl Config {
    /// Reads the argument vector of the process in one pass from left to
    /// right, the program's name first.
    pub fn build(args: Vec<String>) -> (r: Result<Config, ParseError>)
        ensures
            outcome_view(r) == parse(texts(args@)),
            r matches Ok(c) ==> c.wf(),
    {
        let ghost tokens = texts(args@);
        let mut state = ScanState::ExpectFirstToken;
        let mut chars = false;
        let mut file_paths: Vec<String> = Vec::new();
        let mut i: usize = 1;
        while i < args.len()
            invariant
                1 <= i,
                tokens == texts(args@),
                i <= args.len() || state == ScanState::ExpectFirstToken,
                scanned_so_far(tokens, i as int, state, chars, texts(file_paths@)),
            decreases args.len() - i,
        {
            let scanned = state.scan(args[i].as_str());
            assert(tokens[i as int] == args[i as int]@);
            match scanned {
                Scanned::Help => {
                    return Ok(help_config());
                },
                Scanned::CharsFlag => {
                    chars = true;
                    state = ScanState::ExpectCharsFollowup;
                },
                Scanned::Path => {
                    let ghost before = texts(file_paths@);
                    file_paths.push(args[i].clone());
                    proof {
                        let first: int = if chars { 2 } else { 1 };
                        assert(texts(file_paths@) =~= before.push(tokens[i as int]));
                        assert(before =~= tokens.subrange(first, i as int));
                        assert(texts(file_paths@) =~= tokens.subrange(first, i + 1));
                    }
                    state = ScanState::CollectingPaths;
                },
            }
            i = i + 1;
        }
        match state {
            ScanState::CollectingPaths => {
                assert(texts(file_paths@).len() == file_paths.len());
                if file_paths.len() == 0 {
                    return Err(ParseError::NoFilename);
                }
                let c = Config { help: false, chars, file_paths };
                assert(c@.file_paths =~= tokens.skip(if chars { 2int } else { 1int }));
                Ok(c)
            },
            _ => Err(ParseError::MissingArguments),
        }
    }
}

/// No argument vector is refused for want of a file name alone: where the
/// tokens run out, an argument is missing. A configuration that was built
/// asks for help or names a file.
pub proof fn lemma_parse_names_a_file(tokens: Seq<Seq<char>>)
    ensures
        parse(tokens) != Err::<ConfigView, ParseError>(ParseError::NoFilename),
        parse(tokens) matches Ok(v) ==> v.wf(),
{
}

/// A help flag is seen in the first place after the program's name, or right
/// after the characters flag there, and nowhere else: later it names a file.
pub proof fn lemma_help_is_shallow(tokens: Seq<Seq<char>>)
    ensures
        (parse(tokens) matches Ok(v) && v.help) <==> (tokens.len() >= 2 && (is_help_flag(tokens[1])
            || (is_chars_flag(tokens[1]) && tokens.len() >= 3 && is_help_flag(tokens[2])))),
{
}

/// The program's name has no part in what the arguments mean.
pub proof fn lemma_program_name_is_ignored(tokens: Seq<Seq<char>>, name: Seq<char>)
    requires
        tokens.len() > 0,
    ensures
        parse(tokens.update(0, name)) == parse(tokens),
{
    let renamed = tokens.update(0, name);
    assert(renamed.skip(1) =~= tokens.skip(1));
    if tokens.len() >= 2 {
        assert(renamed.skip(2) =~= tokens.skip(2));
    }
}

/// The files of a configuration are the tokens that were given for them, in
/// the order given: the tokens after the program's name and a characters
/// flag, if there is one.
pub proof fn lemma_paths_keep_their_order(tokens: Seq<Seq<char>>)
    ensures
        match parse(tokens) {
            Ok(v) => !v.help ==> {
                let first: int = if v.chars { 2 } else { 1 };
                &&& v.chars == is_chars_flag(tokens[1])
                &&& v.file_paths.len() == tokens.len() - first
                &&& forall|i: int|
                    0 <= i < v.file_paths.len() ==> v.file_paths[i] == tokens[first + i]
            },
            Err(_) => true,
        },
{
}

} // verus!
