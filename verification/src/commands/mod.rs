//! Subcommands: the decisions they take on fetched data and on the user's
//! answers. Reading answers and printing results is done around them.
use vstd::prelude::*;

use crate::error::{CliarrError, Result};
use crate::text::{
    chars_eq_ignore_ascii_case, chars_of, dec, eq_ignore_ascii_case, joined, parse_u64,
    parse_unsigned, push_str, string_of, string_views, join_strings,
};

pub mod calendar;
pub mod config_cmd;
pub mod missing;
pub mod movie;
pub mod nzb;
pub mod output;
pub mod torrents;

verus! {

/// A yes/no answer counts as yes when it is `y` or `yes`, in any ASCII case.
pub open spec fn is_yes(answer: Seq<char>) -> bool {
    eq_ignore_ascii_case(answer, "y"@) || eq_ignore_ascii_case(answer, "yes"@)
}

/// `[y/N]` questions default to no.
pub fn confirm_answer(answer: &str) -> (r: bool)
    ensures
        r == is_yes(answer@),
{
    let a = chars_of(answer);
    chars_eq_ignore_ascii_case(&a, &chars_of("y")) || chars_eq_ignore_ascii_case(
        &a,
        &chars_of("yes"),
    )
}

/// The first step of a numbered pick list.
#[derive(Debug)]
pub enum ChooseStep {
    /// Use the item at this index without asking.
    Pick(usize),
    /// Ask the user to pick from the numbered list.
    Ask,
}

pub open spec fn no_choice_message(what: Seq<char>) -> Seq<char> {
    "no "@ + what + " available"@
}

pub open spec fn ambiguous_choice_message(what: Seq<char>, labels: Seq<Seq<char>>) -> Seq<char> {
    "multiple "@ + what + " available, pass one explicitly: "@ + joined(labels, ", "@)
}

/// A pick list with nothing in it fails; one entry is taken as is; several
/// entries are asked about on a terminal, and otherwise fail listing the
/// choices so that scripts know what to pass.
pub fn choose_step(what: &str, labels: &[String], interactive: bool) -> (r: Result<ChooseStep>)
    ensures
        labels@.len() == 0 ==> (r matches Err(e) && e is Other && e->Other_0@
            == no_choice_message(what@)),
        labels@.len() == 1 ==> (r matches Ok(ChooseStep::Pick(i)) && i == 0),
        labels@.len() > 1 && interactive ==> (r matches Ok(ChooseStep::Ask)),
        labels@.len() > 1 && !interactive ==> (r matches Err(e) && e is Other && e->Other_0@
            == ambiguous_choice_message(what@, string_views(labels@))),
{
    if labels.len() == 0 {
        let mut m = chars_of("no ");
        push_str(&mut m, what);
        push_str(&mut m, " available");
        return Err(CliarrError::Other(string_of(&m)));
    }
    if labels.len() == 1 {
        return Ok(ChooseStep::Pick(0));
    }
    if interactive {
        return Ok(ChooseStep::Ask);
    }
    let mut m = chars_of("multiple ");
    push_str(&mut m, what);
    push_str(&mut m, " available, pass one explicitly: ");
    let opts = join_strings(labels, ", ");
    push_str(&mut m, opts.as_str());
    Err(CliarrError::Other(string_of(&m)))
}

pub open spec fn invalid_selection_message(answer: Seq<char>) -> Seq<char> {
    "invalid selection: "@ + answer
}

/// The list is numbered from 1: the answer `n` picks index `n - 1`; `0`,
/// numbers past the end and anything that is not an unsigned number are
/// refused.
pub fn pick_selection(answer: &str, len: usize) -> (r: Result<usize>)
    ensures
        match parse_unsigned(answer@) {
            Some(n) => if 1 <= n <= len {
                r == Ok::<usize, CliarrError>((n - 1) as usize)
            } else {
                r matches Err(e) && e is Other && e->Other_0@ == invalid_selection_message(answer@)
            },
            None => r matches Err(e) && e is Other && e->Other_0@ == invalid_selection_message(
                answer@,
            ),
        },
{
    let a = chars_of(answer);
    let parsed = parse_u64(&a);
    let ok = match parsed {
        Some(n) => if 1 <= n && n <= len as u64 {
            Some((n - 1) as usize)
        } else {
            None
        },
        None => None,
    };
    match ok {
        Some(i) => Ok(i),
        None => {
            let mut m = chars_of("invalid selection: ");
            push_str(&mut m, answer);
            Err(CliarrError::Other(string_of(&m)))
        },
    }
}

} // verus!
