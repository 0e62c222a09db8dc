//! The `regex` command: testing, listing and replacing the matches of a
//! regular expression.
//!
//! Compiling and matching are `regex`'s. What it finds comes back as plain
//! text: for each match its groups in order, group 0 being the whole match
//! and a group that took no part being `None`.

use vstd::prelude::*;
use crate::cli::{RegexMatchOptions, RegexMethod, RegexReplaceOptions, RegexTestOptions};
use crate::handlers::{handled, CommandHandlerError, HandlerFailure};
use crate::text::{decimal, push_decimal};

verus! {

/// Whether `Regex::new` accepts the pattern.
pub uninterp spec fn regex_valid(pattern: Seq<char>) -> bool;

/// Whether `Regex::find` finds a match of the pattern in the text.
pub uninterp spec fn regex_found(pattern: Seq<char>, text: Seq<char>) -> bool;

/// What `Regex::captures_iter` yields for the pattern in the text: for each
/// match in turn the text of each of its groups.
pub uninterp spec fn regex_captures(pattern: Seq<char>, text: Seq<char>) -> Seq<
    Seq<Option<Seq<char>>>,
>;

/// What `Regex::replace_all` returns for the pattern, the text and the
/// replacement.
pub uninterp spec fn regex_replaced(
    pattern: Seq<char>,
    text: Seq<char>,
    replacement: Seq<char>,
) -> Seq<char>;

/// The text of a group, if the group took part in the match.
pub open spec fn group_view(group: Option<String>) -> Option<Seq<char>> {
    match group {
        Some(text) => Some(text@),
        None => None,
    }
}

/// The texts of the groups of one match.
pub open spec fn groups_view(groups: Seq<Option<String>>) -> Seq<Option<Seq<char>>> {
    Seq::new(groups.len(), |i: int| group_view(groups[i]))
}

/// The texts of the groups of each match.
pub open spec fn captures_view(found: Seq<Vec<Option<String>>>) -> Seq<Seq<Option<Seq<char>>>> {
    Seq::new(found.len(), |i: int| groups_view(found[i]@))
}

/// `Regex::new`: whether the pattern compiles.
#[verifier::external_body]
fn compiles(pattern: &str) -> (valid: bool)
    ensures
        valid == regex_valid(pattern@),
{
    ::regex::Regex::new(pattern).is_ok()
}

/// `Regex::find` on the compiled pattern: whether there is a match.
#[verifier::external_body]
fn finds(pattern: &str, text: &str) -> (found: bool)
    requires
        regex_valid(pattern@),
    ensures
        found == regex_found(pattern@, text@),
{
    ::regex::Regex::new(pattern).unwrap().find(text).is_some()
}

/// `Regex::captures_iter` on the compiled pattern, each match as the texts
/// of its groups.
#[verifier::external_body]
fn captures(pattern: &str, text: &str) -> (found: Vec<Vec<Option<String>>>)
    requires
        regex_valid(pattern@),
    ensures
        captures_view(found@) == regex_captures(pattern@, text@),
{
    let re = ::regex::Regex::new(pattern).unwrap();
    re.captures_iter(text)
        .map(|groups| groups.iter().map(|group| group.map(|m| m.as_str().to_string())).collect())
        .collect()
}

/// `Regex::replace_all` on the compiled pattern.
#[verifier::external_body]
fn replace_all(pattern: &str, text: &str, replacement: &str) -> (changed: String)
    requires
        regex_valid(pattern@),
    ensures
        changed@ == regex_replaced(pattern@, text@, replacement@),
{
    ::regex::Regex::new(pattern).unwrap().replace_all(text, replacement).to_string()
}

/// A pattern that compiles.
pub struct CompiledPattern {
    pattern: String,
}

impl View for CompiledPattern {
    type V = Seq<char>;

    closed spec fn view(&self) -> Seq<char> {
        self.pattern@
    }
}

impl CompiledPattern {
    #[verifier::type_invariant]
    spec fn compiled(self) -> bool {
        regex_valid(self.pattern@)
    }

    /// The pattern's text.
    pub fn as_str(&self) -> (pattern: &str)
        ensures
            pattern@ == self@,
            regex_valid(pattern@),
    {
        proof {
            use_type_invariant(self);
        }
        self.pattern.as_str()
    }

    /// Whether the pattern matches somewhere in `text`.
    pub fn is_found_in(&self, text: &str) -> (found: bool)
        ensures
            found == regex_found(self@, text@),
    {
        proof {
            use_type_invariant(self);
        }
        finds(self.pattern.as_str(), text)
    }

    /// The matches of the pattern in `text`, each as the texts of its groups.
    pub fn captures_in(&self, text: &str) -> (found: Vec<Vec<Option<String>>>)
        ensures
            captures_view(found@) == regex_captures(self@, text@),
    {
        proof {
            use_type_invariant(self);
        }
        captures(self.pattern.as_str(), text)
    }

    /// `text` with each match of the pattern replaced.
    pub fn replace_in(&self, text: &str, replacement: &str) -> (changed: String)
        ensures
            changed@ == regex_replaced(self@, text@, replacement@),
    {
        proof {
            use_type_invariant(self);
        }
        replace_all(self.pattern.as_str(), text, replacement)
    }
}

/// The rule above and below the lines of a match.
pub open spec fn rule() -> Seq<char> {
    "------------\n"@
}

/// The line of group `number` where it took part in the match.
pub open spec fn group_line(number: nat, group: Option<Seq<char>>) -> Seq<char> {
    match group {
        Some(text) => "\tGroup "@ + decimal(number) + ": \""@ + text + "\"\n"@,
        None => Seq::empty(),
    }
}

/// The lines of the groups from 1 up to but not counting `upto`.
pub open spec fn group_lines(groups: Seq<Option<Seq<char>>>, upto: nat) -> Seq<char>
    decreases upto,
{
    if upto <= 1 {
        Seq::empty()
    } else {
        group_lines(groups, (upto - 1) as nat) + group_line(
            (upto - 1) as nat,
            groups[upto - 1],
        )
    }
}

/// The block of one match: between two rules the whole match under its
/// number, then its groups. A match without a group 0 has no block.
pub open spec fn match_block(number: nat, groups: Seq<Option<Seq<char>>>) -> Seq<char> {
    if groups.len() > 0 && groups[0] is Some {
        rule() + "Match "@ + decimal(number) + ": \""@ + groups[0]->0 + "\"\n"@ + group_lines(
            groups,
            groups.len(),
        ) + rule()
    } else {
        Seq::empty()
    }
}

/// The blocks of the first `upto` matches, numbered from zero.
pub open spec fn match_blocks(found: Seq<Seq<Option<Seq<char>>>>, upto: nat) -> Seq<char>
    decreases upto,
{
    if upto == 0 {
        Seq::empty()
    } else {
        match_blocks(found, (upto - 1) as nat) + match_block((upto - 1) as nat, found[upto - 1])
    }
}

/// The report of the matches, or the answer that there are none.
pub open spec fn matches_report(found: Seq<Seq<Option<Seq<char>>>>) -> Result<
    Seq<char>,
    HandlerFailure,
> {
    let blocks = match_blocks(found, found.len());
    if blocks.len() == 0 {
        Err(HandlerFailure::NegativeResult("No matches found!"@))
    } else {
        Ok(blocks)
    }
}

/// The failure for a pattern that does not compile.
pub open spec fn invalid_pattern() -> HandlerFailure {
    HandlerFailure::RuntimeError(Some("Invalid RegEx expression!"@))
}

/// What a request returns.
pub open spec fn answered(method: &RegexMethod) -> Result<Seq<char>, HandlerFailure> {
    match method {
        RegexMethod::Test { options } => if !regex_valid(options.pattern@) {
            Err(invalid_pattern())
        } else if regex_found(options.pattern@, options.text@) {
            Ok("Match found!"@)
        } else {
            Err(HandlerFailure::NegativeResult("No match found!"@))
        },
        RegexMethod::Match { options } => if !regex_valid(options.pattern@) {
            Err(invalid_pattern())
        } else {
            matches_report(regex_captures(options.pattern@, options.text@))
        },
        RegexMethod::Replace { options } => if !regex_valid(options.pattern@) {
            Err(invalid_pattern())
        } else {
            Ok(regex_replaced(options.pattern@, options.text@, options.replacement@))
        },
    }
}

fn push_groups(out: &mut String, groups: &Vec<Option<String>>)
    ensures
        final(out)@ == old(out)@ + group_lines(groups_view(groups@), groups.len() as nat),
{
    let ghost start = out@;
    let ghost view = groups_view(groups@);
    if groups.len() <= 1 {
        proof {
            assert(start + group_lines(view, groups.len() as nat) =~= start);
        }
        return ;
    }
    let mut number: usize = 1;
    proof {
        assert(start + group_lines(view, 1) =~= start);
    }
    while number < groups.len()
        invariant
            1 <= number <= groups.len(),
            view == groups_view(groups@),
            out@ == start + group_lines(view, number as nat),
        decreases groups.len() - number,
    {
        let ghost before = out@;
        match &groups[number] {
            Some(text) => {
                out.append("\tGroup ");
                push_decimal(out, number as u64);
                out.append(": \"");
                out.append(text.as_str());
                out.append("\"\n");
            },
            None => {},
        }
        proof {
            assert(view[number as int] == group_view(groups@[number as int]));
            assert(out@ =~= before + group_line(number as nat, view[number as int]));
            assert(out@ =~= start + group_lines(view, (number + 1) as nat));
        }
        number += 1;
    }
}

fn push_block(out: &mut String, number: usize, groups: &Vec<Option<String>>)
    ensures
        final(out)@ == old(out)@ + match_block(number as nat, groups_view(groups@)),
{
    let ghost start = out@;
    let ghost view = groups_view(groups@);
    if groups.len() == 0 {
        proof {
            assert(start + match_block(number as nat, view) =~= start);
        }
        return ;
    }
    proof {
        assert(view[0] == group_view(groups@[0]));
    }
    match &groups[0] {
        Some(whole) => {
            out.append("------------\n");
            out.append("Match ");
            push_decimal(out, number as u64);
            out.append(": \"");
            out.append(whole.as_str());
            out.append("\"\n");
            push_groups(out, groups);
            out.append("------------\n");
            proof {
                assert(out@ =~= start + match_block(number as nat, view));
            }
        },
        None => {
            proof {
                assert(start + match_block(number as nat, view) =~= start);
            }
        },
    }
}

pub struct RegexHandler {}

impl RegexHandler {
    /// Carries out a request. A pattern that does not compile is a runtime
    /// error; a pattern that matches nothing is a negative result.
    pub fn handle_method(method: &RegexMethod) -> (r: Result<String, CommandHandlerError>)
        ensures
            handled(r) == answered(method),
    {
        match method {
            RegexMethod::Test { options } => Self::test_expr(options),
            RegexMethod::Match { options } => Self::match_expr(options),
            RegexMethod::Replace { options } => Self::replace_text(options),
        }
    }

    /// Compiles `pattern`.
    pub fn parse_regex(pattern: &str) -> (r: Result<CompiledPattern, CommandHandlerError>)
        ensures
            match r {
                Ok(compiled) => regex_valid(pattern@) && compiled@ == pattern@,
                Err(e) => !regex_valid(pattern@) && e@ == invalid_pattern(),
            },
    {
        if compiles(pattern) {
            Ok(CompiledPattern { pattern: String::from_str(pattern) })
        } else {
            Err(CommandHandlerError::runtime(String::from_str("Invalid RegEx expression!")))
        }
    }

    /// The report of the given matches: one block for each, numbered from
    /// zero; or the negative result where there is nothing to report.
    pub fn report_matches(found: &Vec<Vec<Option<String>>>) -> (r: Result<
        String,
        CommandHandlerError,
    >)
        ensures
            handled(r) == matches_report(captures_view(found@)),
    {
        let mut result = String::new();
        let ghost view = captures_view(found@);
        let mut index: usize = 0;
        while index < found.len()
            invariant
                index <= found.len(),
                view == captures_view(found@),
                result@ == match_blocks(view, index as nat),
            decreases found.len() - index,
        {
            proof {
                assert(view[index as int] == groups_view(found@[index as int]@));
            }
            push_block(&mut result, index, &found[index]);
            index += 1;
        }
        if result.as_str().is_empty() {
            Err(CommandHandlerError::NegativeResult(String::from_str("No matches found!")))
        } else {
            Ok(result)
        }
    }

    pub fn test_expr(options: &RegexTestOptions) -> (r: Result<String, CommandHandlerError>)
        ensures
            handled(r) == answered(&RegexMethod::Test { options: *options }),
    {
        let re = match Self::parse_regex(options.pattern.as_str()) {
            Ok(re) => re,
            Err(e) => {
                return Err(e);
            },
        };
        if re.is_found_in(options.text.as_str()) {
            Ok(String::from_str("Match found!"))
        } else {
            Err(CommandHandlerError::NegativeResult(String::from_str("No match found!")))
        }
    }

    pub fn match_expr(options: &RegexMatchOptions) -> (r: Result<String, CommandHandlerError>)
        ensures
            handled(r) == answered(&RegexMethod::Match { options: *options }),
    {
        let re = match Self::parse_regex(options.pattern.as_str()) {
            Ok(re) => re,
            Err(e) => {
                return Err(e);
            },
        };
        Self::report_matches(&re.captures_in(options.text.as_str()))
    }

    pub fn replace_text(options: &RegexReplaceOptions) -> (r: Result<String, CommandHandlerError>)
        ensures
            handled(r) == answered(&RegexMethod::Replace { options: *options }),
    {
        let re = match Self::parse_regex(options.pattern.as_str()) {
            Ok(re) => re,
            Err(e) => {
                return Err(e);
            },
        };
        Ok(re.replace_in(options.text.as_str(), options.replacement.as_str()))
    }
}

} // verus!
