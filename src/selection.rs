use crate::battle::Action;
use crate::character::ClassType;
use vstd::prelude::*;

verus! {

/// The text of `s` without its leading and trailing whitespace.
pub uninterp spec fn trimmed(s: Seq<char>) -> Seq<char>;

/// Relies on `str::trim`: the slice of `s` without leading and trailing
/// whitespace, which depends on the characters of `s` alone.
#[verifier::external_body]
fn trim_line(s: &str) -> (r: &str)
    ensures
        r@ == trimmed(s@),
{
    s.trim()
}

/// The action that a selector names: "1" attacks, "2" heals.
pub open spec fn action_for(selector: Seq<char>) -> Option<Action> {
    if selector == seq!['1'] {
        Some(Action::Attack)
    } else if selector == seq!['2'] {
        Some(Action::Heal)
    } else {
        None
    }
}

/// The class that a selector names: "1" Warrior, "2" Mage, "3" Rogue.
pub open spec fn class_for(selector: Seq<char>) -> Option<ClassType> {
    if selector == seq!['1'] {
        Some(ClassType::Warrior)
    } else if selector == seq!['2'] {
        Some(ClassType::Mage)
    } else if selector == seq!['3'] {
        Some(ClassType::Rogue)
    } else {
        None
    }
}

/// The only character of `s`, if it has exactly one.
fn sole_char(s: &str) -> (r: Option<char>)
    ensures
        r == (if s@.len() == 1 {
            Some(s@[0])
        } else {
            None::<char>
        }),
{
    if s.unicode_len() == 1 {
        Some(s.get_char(0))
    } else {
        None
    }
}

/// The action named by an already trimmed selector.
pub fn action_from_selector(selector: &str) -> (r: Option<Action>)
    ensures
        r == action_for(selector@),
{
    let c = sole_char(selector);
    assert(selector@.len() == 1 ==> selector@ == seq![selector@[0]]);
    match c {
        Some('1') => Some(Action::Attack),
        Some('2') => Some(Action::Heal),
        _ => None,
    }
}

/// The class named by an already trimmed selector.
pub fn class_from_selector(selector: &str) -> (r: Option<ClassType>)
    ensures
        r == class_for(selector@),
{
    let c = sole_char(selector);
    assert(selector@.len() == 1 ==> selector@ == seq![selector@[0]]);
    match c {
        Some('1') => Some(ClassType::Warrior),
        Some('2') => Some(ClassType::Mage),
        Some('3') => Some(ClassType::Rogue),
        _ => None,
    }
}

/// The action named by an input line, ignoring surrounding whitespace;
/// `None` for any other input.
pub fn parse_action(line: &str) -> (r: Option<Action>)
    ensures
        r == action_for(trimmed(line@)),
{
    action_from_selector(trim_line(line))
}

/// The class named by an input line, ignoring surrounding whitespace;
/// `None` for any other input.
pub fn parse_class(line: &str) -> (r: Option<ClassType>)
    ensures
        r == class_for(trimmed(line@)),
{
    class_from_selector(trim_line(line))
}

} // verus!
