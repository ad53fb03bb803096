//! The command line's values, as plain data, and the check on the thread
//! count argument.
use vstd::prelude::*;

verus! {

/// Why a thread count argument was refused.
#[derive(Debug, Clone, Copy, PartialEq, Eq, Structural)]
pub enum CliError {
    /// It is not a decimal number that fits a `usize`.
    Io,
    /// It is zero.
    BelowOne,
}

/// Whether `c` is an ASCII decimal digit.
pub open spec fn is_digit(c: char) -> bool {
    48 <= (c as u32) <= 57
}

/// The value of the decimal digits `s`.
pub open spec fn digits_value(s: Seq<char>) -> int
    decreases s.len(),
{
    if s.len() == 0 {
        0
    } else {
        digits_value(s.drop_last()) * 10 + ((s.last() as u32) - 48)
    }
}

/// The digits of a numeral: what follows an optional leading `+`.
pub open spec fn numeral_digits(s: Seq<char>) -> Seq<char> {
    if s.len() > 0 && s[0] == '+' {
        s.drop_first()
    } else {
        s
    }
}

/// What reading `s` as a `usize` gives: an optional `+`, then at least one
/// decimal digit and nothing else, of a value that fits.
pub open spec fn decimal_usize(s: Seq<char>) -> Option<usize> {
    let d = numeral_digits(s);
    if d.len() > 0 && (forall|i: int| 0 <= i < d.len() ==> is_digit(#[trigger] d[i])) && digits_value(d)
        <= usize::MAX {
        Some(digits_value(d) as usize)
    } else {
        None
    }
}

proof fn lemma_digits_grow(d: Seq<char>, i: int)
    requires
        0 <= i <= d.len(),
        forall|k: int| 0 <= k < d.len() ==> is_digit(#[trigger] d[k]),
    ensures
        digits_value(d.subrange(0, i)) <= digits_value(d),
    decreases d.len() - i,
{
    if i < d.len() {
        lemma_digits_grow(d, i + 1);
        let pre = d.subrange(0, i + 1);
        assert(pre.drop_last() =~= d.subrange(0, i));
        assert(is_digit(pre.last()));
        assert(digits_value(pre) == digits_value(d.subrange(0, i)) * 10 + ((pre.last() as u32) - 48));
        assert(digits_value(d.subrange(0, i)) >= 0) by {
            lemma_digits_nonneg(d.subrange(0, i));
        }
    } else {
        assert(d.subrange(0, i) =~= d);
    }
}

proof fn lemma_digits_nonneg(d: Seq<char>)
    requires
        forall|k: int| 0 <= k < d.len() ==> is_digit(#[trigger] d[k]),
    ensures
        digits_value(d) >= 0,
    decreases d.len(),
{
    if d.len() > 0 {
        lemma_digits_nonneg(d.drop_last());
        assert(is_digit(d[d.len() - 1]));
    }
}

/// Reads `s` as a `usize`, as `str::parse::<usize>` does.
pub fn parse_usize(s: &str) -> (r: Option<usize>)
    ensures
        r == decimal_usize(s@),
{
    let n = s.unicode_len();
    let mut i: usize = 0;
    if n > 0 && s.get_char(0) == '+' {
        i = 1;
    }
    let ghost d = numeral_digits(s@);
    assert(d =~= s@.subrange(i as int, n as int));
    if i == n {
        return None;
    }
    let start = i;
    let mut acc: usize = 0;
    while i < n
        invariant
            n == s@.len(),
            start <= i <= n,
            start < n,
            d == s@.subrange(start as int, n as int),
            d == numeral_digits(s@),
            forall|k: int| 0 <= k < i - start ==> is_digit(#[trigger] d[k]),
            acc == digits_value(d.subrange(0, i - start)),
        decreases n - i,
    {
        let c = s.get_char(i);
        let ghost pre = d.subrange(0, i - start + 1);
        assert(pre.drop_last() =~= d.subrange(0, i - start));
        assert(pre.last() == c);
        if !((c as u32) >= 48 && (c as u32) <= 57) {
            assert(!is_digit(d[i - start]));
            assert(!(forall|k: int| 0 <= k < d.len() ==> is_digit(#[trigger] d[k])));
            return None;
        }
        let v = (c as u32 - 48) as usize;
        if acc > (usize::MAX - v) / 10 {
            proof {
                assert(acc * 10 + v > usize::MAX) by (nonlinear_arith)
                    requires acc > (usize::MAX - v) / 10, v <= 9;
                assert(digits_value(pre) == digits_value(pre.drop_last()) * 10 + ((pre.last() as u32) - 48));
                assert(digits_value(pre) == acc * 10 + v);
                assert(digits_value(pre) > usize::MAX);
                if (forall|k: int| 0 <= k < d.len() ==> is_digit(#[trigger] d[k])) {
                    lemma_digits_grow(d, i - start + 1);
                    assert(digits_value(d) > usize::MAX);
                }
            }
            return None;
        }
        assert(acc * 10 + v <= usize::MAX) by (nonlinear_arith)
            requires acc <= (usize::MAX - v) / 10, v <= 9;
        assert(digits_value(pre) == digits_value(pre.drop_last()) * 10 + ((pre.last() as u32) - 48));
        acc = acc * 10 + v;
        i = i + 1;
    }
    assert(d.subrange(0, n - start) =~= d);
    Some(acc)
}

pub open spec fn thread_count_of(parsed: Option<usize>) -> Result<usize, CliError> {
    match parsed {
        None => Err(CliError::Io),
        Some(0) => Err(CliError::BelowOne),
        Some(n) => Ok(n),
    }
}

/// A parsed thread count, refused when it is zero.
pub fn thread_count(parsed: Option<usize>) -> (r: Result<usize, CliError>)
    ensures
        r == thread_count_of(parsed),
{
    match parsed {
        None => Err(CliError::Io),
        Some(n) => if n == 0 {
            Err(CliError::BelowOne)
        } else {
            Ok(n)
        },
    }
}

/// Reads a thread count: a decimal number of at least one.
pub fn none_zeor_parser(s: &str) -> (r: Result<usize, CliError>)
    ensures
        r == thread_count_of(decimal_usize(s@)),
{
    thread_count(parse_usize(s))
}

/// Package manager for vim.
#[derive(Debug)]
pub struct CliArgs {
    pub cmd: Command,
}

/// Lists installed packages.
#[derive(Debug)]
pub struct List {
    /// List start packages.
    pub start: bool,
    /// List optional packages.
    pub opt: bool,
    /// List detached (untracked) packages.
    pub detached: bool,
    pub category: Option<String>,
}

/// Installs plugins.
#[derive(Debug)]
pub struct Install {
    /// Install plugins as optional.
    pub opt: bool,
    /// Install the plugins under this category.
    pub category: String,
    /// Install local plugins.
    pub local: bool,
    /// Command that loads the plugins.
    pub on: Option<String>,
    /// File types that load the plugins, separated by commas.
    pub for_: Option<String>,
    /// Command that builds the plugins.
    pub build: Option<String>,
    /// Branch to check out.
    pub branch: Option<String>,
    /// How many plugins to install at once.
    pub threads: Option<usize>,
    pub package: Vec<String>,
}

/// Uninstalls plugins.
#[derive(Debug)]
pub struct Uninstall {
    /// Remove the plugins' configuration files as well.
    pub all: bool,
    pub package: Vec<String>,
}

/// Edits a plugin's configuration file.
#[derive(Debug)]
pub struct Config {
    /// Delete the configuration file.
    pub delete: bool,
    pub package: String,
}

/// Moves a plugin to another category, or makes it optional.
#[derive(Debug)]
pub struct Move {
    /// Make the plugin optional.
    pub opt: bool,
    /// Plugin to move.
    pub package: String,
    /// Category to move the plugin to.
    pub category: String,
}

/// Updates plugins.
#[derive(Debug)]
pub struct Update {
    /// Skip plugins whose names contain one of these.
    pub skip: Vec<String>,
    /// Only regenerate the combined pack file.
    pub packfile: bool,
    /// How many plugins to update at once.
    pub threads: Option<usize>,
    /// Plugins to update; all when empty.
    pub package: Vec<String>,
}

/// Generates a completion script.
#[derive(Debug)]
pub struct Completions {
    pub shell: Shell,
}

#[derive(Debug)]
pub enum Command {
    List(List),
    Install(Install),
    Uninstall(Uninstall),
    Config(Config),
    Move(Move),
    Update(Update),
    Generate,
    Completions(Completions),
}

#[derive(Debug, Copy, Clone, PartialEq, Eq, PartialOrd, Ord)]
pub enum Shell {
    Bash,
    Fish,
    Zsh,
}

} // verus!
