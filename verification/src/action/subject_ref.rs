//! The three forms of an action's `subject`.
//!
//! - `a<digits>~<hash>`: a content-addressed action id.
//! - `@<digits>`: a placeholder for an action created in the same request.
//! - `@<id_tag>`: an identity; the subject is a tenant, not an action.
use crate::decimal;
use crate::text;
use vstd::prelude::*;

verus! {

/// A parsed subject reference.
#[derive(Debug, Clone, Copy, PartialEq, Eq)]
pub enum SubjectRef<'a> {
    /// A content-addressed action id, such as `a1~abc`.
    Action(&'a str),
    /// The number of an action created in the same request, such as `@42`.
    Placeholder(u64),
    /// An identity, such as `@community.example.com`.
    Identity(&'a str),
}

/// What a subject refers to.
pub enum SubjectView {
    Action(Seq<char>),
    Placeholder(u64),
    Identity(Seq<char>),
}

impl<'a> View for SubjectRef<'a> {
    type V = SubjectView;

    open spec fn view(&self) -> SubjectView {
        match self {
            SubjectRef::Action(s) => SubjectView::Action(s@),
            SubjectRef::Placeholder(n) => SubjectView::Placeholder(*n),
            SubjectRef::Identity(s) => SubjectView::Identity(s@),
        }
    }
}

/// Whether a text is wholly made of digits and denotes a number of 64 bits.
pub open spec fn is_number(s: Seq<char>) -> bool {
    s.len() > 0 && decimal::all_digits(s) && decimal::digits_value(s) <= u64::MAX
}

/// The meaning of a subject text: nothing for the empty text and for `@` alone; after an `@`, a
/// number of 64 bits is a placeholder and anything else an identity; the rest are action ids.
pub open spec fn subject_of(s: Seq<char>) -> Option<SubjectView> {
    if s.len() == 0 {
        None
    } else if s[0] == '@' {
        let rest = s.skip(1);
        if rest.len() == 0 {
            None
        } else if is_number(rest) {
            Some(SubjectView::Placeholder(decimal::digits_value(rest) as u64))
        } else {
            Some(SubjectView::Identity(rest))
        }
    } else {
        Some(SubjectView::Action(s))
    }
}

/// Parses a subject.
pub fn parse_subject_ref(s: &str) -> (r: Option<SubjectRef<'_>>)
    ensures
        match r {
            Some(x) => subject_of(s@) == Some(x@),
            None => subject_of(s@) is None,
        },
{
    if s.is_empty() {
        return None;
    }
    if s.get_char(0) == '@' {
        let n: usize = s.unicode_len();
        let rest = s.substring_char(1, n);
        proof {
            assert(rest@ =~= s@.skip(1));
        }
        if rest.is_empty() {
            return None;
        }
        if rest.get_char(0) == '+' {
            assert(!decimal::is_digit(rest@[0]));
            return Some(SubjectRef::Identity(rest));
        }
        match decimal::parse_unsigned(rest, u64::MAX) {
            Some(k) => Some(SubjectRef::Placeholder(k)),
            None => Some(SubjectRef::Identity(rest)),
        }
    } else {
        Some(SubjectRef::Action(s))
    }
}

/// The identity that a subject names, if it names one.
pub open spec fn identity_of(s: Seq<char>) -> Option<Seq<char>> {
    match subject_of(s) {
        Some(SubjectView::Identity(id)) => Some(id),
        _ => None,
    }
}

/// Whether a subject names an action.
pub fn is_action_subject(s: &str) -> (r: bool)
    ensures
        r == (subject_of(s@) matches Some(SubjectView::Action(_))),
{
    match parse_subject_ref(s) {
        Some(SubjectRef::Action(_)) => true,
        _ => false,
    }
}

/// The three forms never overlap: an identity written with a leading `@` reads back as that
/// identity exactly when it is non-empty and no 64-bit number, and a text without a leading
/// `@` is never an identity.
pub proof fn law_identity_subjects(id_tag: Seq<char>)
    ensures
        identity_of(seq!['@'] + id_tag) == (if id_tag.len() > 0 && !is_number(id_tag) {
            Some(id_tag)
        } else {
            None
        }),
        id_tag.len() > 0 && id_tag[0] != '@' ==> subject_of(id_tag) == Some(
            SubjectView::Action(id_tag),
        ),
{
    assert((seq!['@'] + id_tag).skip(1) =~= id_tag);
}

/// A domain-form identity, which holds a dot, is never taken for a placeholder.
pub proof fn law_domain_is_an_identity(id_tag: Seq<char>)
    requires
        id_tag.contains('.'),
    ensures
        identity_of(seq!['@'] + id_tag) == Some(id_tag),
{
    law_identity_subjects(id_tag);
    let i = choose|i: int| 0 <= i < id_tag.len() && id_tag[i] == '.';
    assert(!decimal::is_digit(id_tag[i]));
}

} // verus!
