//! Command-line tokens and the invocation they describe.

use vstd::prelude::*;
use vstd::string::StringExecFns;
use crate::flags::{flags_mask, mask_of};

verus! {

/// What a single command-line token means.
#[derive(Clone, Copy, Debug, PartialEq, Eq, Structural)]
pub enum TokenKind {
    /// `--disable-verity`
    DisableVerity,
    /// `--disable-verification`
    DisableVerification,
    /// `--help`
    Help,
    /// Anything else: the name of the image to patch.
    File,
}

/// The meaning of a token, by its characters.
pub open spec fn kind_of(token: Seq<char>) -> TokenKind {
    if token == "--disable-verity"@ {
        TokenKind::DisableVerity
    } else if token == "--disable-verification"@ {
        TokenKind::DisableVerification
    } else if token == "--help"@ {
        TokenKind::Help
    } else {
        TokenKind::File
    }
}

/// Classifies one token.
pub fn classify(token: &String) -> (kind: TokenKind)
    ensures
        kind == kind_of(token@),
{
    if *token == String::from_str("--disable-verity") {
        TokenKind::DisableVerity
    } else if *token == String::from_str("--disable-verification") {
        TokenKind::DisableVerification
    } else if *token == String::from_str("--help") {
        TokenKind::Help
    } else {
        TokenKind::File
    }
}

/// A request to patch one image.
///
/// At least one of the two switches is set: a command line that names
/// neither asks for both.
#[derive(Clone, Debug, PartialEq, Eq)]
pub struct Invocation {
    pub filename: String,
    pub disable_verity: bool,
    pub disable_verification: bool,
}

/// The mathematical content of an [`Invocation`].
pub struct InvocationView {
    pub filename: Seq<char>,
    pub disable_verity: bool,
    pub disable_verification: bool,
}

impl View for Invocation {
    type V = InvocationView;

    open spec fn view(&self) -> InvocationView {
        InvocationView {
            filename: self.filename@,
            disable_verity: self.disable_verity,
            disable_verification: self.disable_verification,
        }
    }
}

impl Invocation {
    /// An invocation always asks for at least one flag.
    pub open spec fn wf(&self) -> bool {
        self.disable_verity || self.disable_verification
    }

    /// The bits that the invocation sets in the flags byte.
    pub fn mask(&self) -> (mask: u8)
        ensures
            mask == mask_of(self.disable_verity, self.disable_verification),
    {
        flags_mask(self.disable_verity, self.disable_verification)
    }
}

/// The result of reading a command line.
#[derive(Clone, Debug, PartialEq, Eq)]
pub enum Parsed {
    /// Patch the named image.
    Run(Invocation),
    /// Print the usage text and leave with success: `--help` was given, or
    /// no image was named.
    ShowHelp,
    /// More than one image was named: a usage error.
    TooManyFiles,
}

/// The mathematical content of a [`Parsed`].
pub enum ParsedView {
    Run(InvocationView),
    ShowHelp,
    TooManyFiles,
}

impl View for Parsed {
    type V = ParsedView;

    open spec fn view(&self) -> ParsedView {
        match self {
            Parsed::Run(inv) => ParsedView::Run(inv@),
            Parsed::ShowHelp => ParsedView::ShowHelp,
            Parsed::TooManyFiles => ParsedView::TooManyFiles,
        }
    }
}

/// What becomes of the switches once the whole line is read: a line that
/// names neither switch asks for both.
pub open spec fn finish(filename: Seq<char>, verity: bool, verification: bool) -> InvocationView {
    InvocationView {
        filename,
        disable_verity: verity || !verification,
        disable_verification: verification || !verity,
    }
}

/// Reads `tokens` from left to right, starting from what was gathered so far.
///
/// `--help` ends the reading at once, and so does a second file name; the
/// tokens behind either are never looked at.
pub open spec fn scan(
    tokens: Seq<Seq<char>>,
    filename: Option<Seq<char>>,
    verity: bool,
    verification: bool,
) -> ParsedView
    decreases tokens.len(),
{
    if tokens.len() == 0 {
        match filename {
            Some(name) => ParsedView::Run(finish(name, verity, verification)),
            None => ParsedView::ShowHelp,
        }
    } else {
        let rest = tokens.drop_first();
        match kind_of(tokens[0]) {
            TokenKind::DisableVerity => scan(rest, filename, true, verification),
            TokenKind::DisableVerification => scan(rest, filename, verity, true),
            TokenKind::Help => ParsedView::ShowHelp,
            TokenKind::File => if filename is Some {
                ParsedView::TooManyFiles
            } else {
                scan(rest, Some(tokens[0]), verity, verification)
            },
        }
    }
}

/// The meaning of a whole command line (without the program's name).
pub open spec fn parse_spec(tokens: Seq<Seq<char>>) -> ParsedView {
    scan(tokens, None, false, false)
}

/// The tokens of a command line as sequences of characters.
pub open spec fn token_views(tokens: Seq<String>) -> Seq<Seq<char>> {
    Seq::new(tokens.len(), |i: int| tokens[i]@)
}

/// Reads a command line, given without the program's name.
pub fn parse_args(tokens: &Vec<String>) -> (parsed: Parsed)
    ensures
        parsed@ == parse_spec(token_views(tokens@)),
        parsed matches Parsed::Run(inv) ==> inv.wf(),
{
    let ghost all = token_views(tokens@);
    let mut filename: Option<String> = None;
    let mut verity = false;
    let mut verification = false;
    let mut i: usize = 0;
    assert(all.subrange(0, all.len() as int) == all);
    while i < tokens.len()
        invariant
            i <= tokens.len(),
            all == token_views(tokens@),
            parse_spec(all) == scan(
                all.subrange(i as int, all.len() as int),
                match filename {
                    Some(name) => Some(name@),
                    None => None,
                },
                verity,
                verification,
            ),
        decreases tokens.len() - i,
    {
        let ghost here = all.subrange(i as int, all.len() as int);
        proof {
            assert(here[0] == tokens@[i as int]@);
            assert(here.drop_first() == all.subrange(i as int + 1, all.len() as int));
        }
        match classify(&tokens[i]) {
            TokenKind::DisableVerity => {
                verity = true;
            },
            TokenKind::DisableVerification => {
                verification = true;
            },
            TokenKind::Help => {
                return Parsed::ShowHelp;
            },
            TokenKind::File => {
                if filename.is_some() {
                    return Parsed::TooManyFiles;
                }
                filename = Some(tokens[i].clone());
            },
        }
        i += 1;
    }
    assert(all.subrange(i as int, all.len() as int).len() == 0);
    match filename {
        Some(name) => Parsed::Run(
            Invocation {
                filename: name,
                disable_verity: verity || !verification,
                disable_verification: verification || !verity,
            },
        ),
        None => Parsed::ShowHelp,
    }
}

/// How many of the tokens are of the given kind.
pub open spec fn count_of(tokens: Seq<Seq<char>>, kind: TokenKind) -> nat
    decreases tokens.len(),
{
    if tokens.len() == 0 {
        0
    } else if kind_of(tokens[0]) == kind {
        1 + count_of(tokens.drop_first(), kind)
    } else {
        count_of(tokens.drop_first(), kind)
    }
}

/// The first file name among the tokens, if there is one.
pub open spec fn first_file(tokens: Seq<Seq<char>>) -> Option<Seq<char>>
    decreases tokens.len(),
{
    if tokens.len() == 0 {
        None
    } else if kind_of(tokens[0]) == TokenKind::File {
        Some(tokens[0])
    } else {
        first_file(tokens.drop_first())
    }
}

/// What a reading that is under way comes to, by what the remaining tokens
/// hold: how many file names, whether a `--help`, which switches.
proof fn lemma_scan(
    tokens: Seq<Seq<char>>,
    filename: Option<Seq<char>>,
    verity: bool,
    verification: bool,
)
    ensures
        ({
            let files = count_of(tokens, TokenKind::File) + if filename is Some {
                1nat
            } else {
                0nat
            };
            let helps = count_of(tokens, TokenKind::Help);
            let name = if filename is Some {
                filename
            } else {
                first_file(tokens)
            };
            &&& files == 0 ==> scan(tokens, filename, verity, verification)
                == ParsedView::ShowHelp
            &&& files <= 1 && helps > 0 ==> scan(tokens, filename, verity, verification)
                == ParsedView::ShowHelp
            &&& files >= 2 && helps == 0 ==> scan(tokens, filename, verity, verification)
                == ParsedView::TooManyFiles
            &&& files == 1 && helps == 0 ==> name is Some && scan(
                tokens,
                filename,
                verity,
                verification,
            ) == ParsedView::Run(
                finish(
                    name->Some_0,
                    verity || count_of(tokens, TokenKind::DisableVerity) > 0,
                    verification || count_of(tokens, TokenKind::DisableVerification) > 0,
                ),
            )
        }),
    decreases tokens.len(),
{
    if tokens.len() > 0 {
        let rest = tokens.drop_first();
        match kind_of(tokens[0]) {
            TokenKind::DisableVerity => lemma_scan(rest, filename, true, verification),
            TokenKind::DisableVerification => lemma_scan(rest, filename, verity, true),
            TokenKind::Help => {},
            TokenKind::File => {
                if filename is None {
                    lemma_scan(rest, Some(tokens[0]), verity, verification);
                }
            },
        }
    }
}

/// A command line that names no image asks for the usage text.
pub proof fn lemma_no_file_shows_help(tokens: Seq<Seq<char>>)
    requires
        count_of(tokens, TokenKind::File) == 0,
    ensures
        parse_spec(tokens) == ParsedView::ShowHelp,
{
    lemma_scan(tokens, None, false, false);
}

/// `--help` asks for the usage text, alone or beside the name of an image,
/// wherever it stands among the tokens.
pub proof fn lemma_help_shows_help(tokens: Seq<Seq<char>>)
    requires
        count_of(tokens, TokenKind::Help) > 0,
        count_of(tokens, TokenKind::File) <= 1,
    ensures
        parse_spec(tokens) == ParsedView::ShowHelp,
{
    lemma_scan(tokens, None, false, false);
}

/// Two or more file names, with no `--help` among the tokens, are a usage
/// error; no invocation comes of them, so no file is named for patching.
pub proof fn lemma_several_files_rejected(tokens: Seq<Seq<char>>)
    requires
        count_of(tokens, TokenKind::File) >= 2,
        count_of(tokens, TokenKind::Help) == 0,
    ensures
        parse_spec(tokens) == ParsedView::TooManyFiles,
{
    lemma_scan(tokens, None, false, false);
}

/// One file name and no `--help` give an invocation for that file. A switch
/// is set if it stands among the tokens, in any place and any number of
/// times; where neither stands there, both are set.
pub proof fn lemma_one_file_runs(tokens: Seq<Seq<char>>)
    requires
        count_of(tokens, TokenKind::File) == 1,
        count_of(tokens, TokenKind::Help) == 0,
    ensures
        first_file(tokens) is Some,
        parse_spec(tokens) == ParsedView::Run(
            finish(
                first_file(tokens)->Some_0,
                count_of(tokens, TokenKind::DisableVerity) > 0,
                count_of(tokens, TokenKind::DisableVerification) > 0,
            ),
        ),
{
    lemma_scan(tokens, None, false, false);
}

/// The three option tokens are told apart, and none is taken for a file.
pub proof fn lemma_option_kinds()
    ensures
        kind_of("--disable-verity"@) == TokenKind::DisableVerity,
        kind_of("--disable-verification"@) == TokenKind::DisableVerification,
        kind_of("--help"@) == TokenKind::Help,
{
    reveal_strlit("--disable-verity");
    reveal_strlit("--disable-verification");
    reveal_strlit("--help");
    assert("--disable-verity"@.len() == 16);
    assert("--disable-verification"@.len() == 22);
    assert("--help"@.len() == 6);
}

/// A file name alone asks for both flags.
pub proof fn lemma_file_alone_sets_both(name: Seq<char>)
    requires
        kind_of(name) == TokenKind::File,
    ensures
        parse_spec(seq![name]) == ParsedView::Run(
            InvocationView { filename: name, disable_verity: true, disable_verification: true },
        ),
{
    let tokens = seq![name];
    assert(tokens.drop_first().len() == 0);
    assert(scan(tokens.drop_first(), Some(name), false, false) == ParsedView::Run(
        finish(name, false, false),
    ));
}

/// A file name with `--disable-verity` alone asks for that flag only, and
/// likewise with `--disable-verification` alone, on either side of the name.
pub proof fn lemma_one_switch_sets_one(name: Seq<char>)
    requires
        kind_of(name) == TokenKind::File,
    ensures
        parse_spec(seq!["--disable-verity"@, name]) == ParsedView::Run(
            InvocationView { filename: name, disable_verity: true, disable_verification: false },
        ),
        parse_spec(seq![name, "--disable-verity"@]) == parse_spec(seq!["--disable-verity"@, name]),
        parse_spec(seq!["--disable-verification"@, name]) == ParsedView::Run(
            InvocationView { filename: name, disable_verity: false, disable_verification: true },
        ),
        parse_spec(seq![name, "--disable-verification"@]) == parse_spec(
            seq!["--disable-verification"@, name],
        ),
{
    lemma_option_kinds();
    lemma_pair_tails("--disable-verity"@, name);
    lemma_pair_tails(name, "--disable-verity"@);
    lemma_pair_tails("--disable-verification"@, name);
    lemma_pair_tails(name, "--disable-verification"@);
    reveal_with_fuel(scan, 3);
}

/// Two file names and nothing else are a usage error.
pub proof fn lemma_two_files_rejected(first: Seq<char>, second: Seq<char>)
    requires
        kind_of(first) == TokenKind::File,
        kind_of(second) == TokenKind::File,
    ensures
        parse_spec(seq![first, second]) == ParsedView::TooManyFiles,
{
    lemma_pair_tails(first, second);
    reveal_with_fuel(scan, 3);
}

/// What is left of a command line of two tokens as it is read.
proof fn lemma_pair_tails(first: Seq<char>, second: Seq<char>)
    ensures
        seq![first, second].len() == 2,
        seq![first, second][0] == first,
        seq![first, second].drop_first() == seq![second],
        seq![second].len() == 1,
        seq![second][0] == second,
        seq![second].drop_first().len() == 0,
{
    assert(seq![first, second].drop_first() =~= seq![second]);
}

} // verus!
