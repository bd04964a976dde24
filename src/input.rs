//! Validated terminal input: what each line typed by the operator is taken
//! to mean, and the retry loops that run over a finite stream of lines.
use crate::role::{role_of, Role};
use crate::text::{is_blank, is_ws, lemma_trimmed_empty_iff_blank, lemma_trimmed_not_blank,
    trim_start, trim_string, trimmed};
use vstd::prelude::*;

verus! {

/// A line satisfies a required prompt when it holds a non-whitespace character.
pub open spec fn required_accepts(line: Seq<char>) -> bool {
    !is_blank(line)
}

/// The role a line selects: its trimmed text must name a role exactly.
pub open spec fn role_choice(line: Seq<char>) -> Option<Role> {
    role_of(trimmed(line))
}

/// A confirmation is given when the first non-whitespace character is `y`
/// in either case; `Y` is the only character whose lower case is `y`.
pub open spec fn confirms(line: Seq<char>) -> bool {
    let t = trim_start(line);
    t.len() > 0 && (t[0] == 'y' || t[0] == 'Y')
}

/// The account field that an update touches.
#[derive(Clone, Copy, Debug, PartialEq, Eq, Structural)]
pub enum UpdateField {
    Role,
    Password,
    Consent,
}

/// The field a line names, after trimming.
pub open spec fn field_choice(line: Seq<char>) -> Option<UpdateField> {
    let t = trimmed(line);
    if t == "role"@ {
        Some(UpdateField::Role)
    } else if t == "password"@ {
        Some(UpdateField::Password)
    } else if t == "consent"@ {
        Some(UpdateField::Consent)
    } else {
        None
    }
}

/// Decides one line of a required (plain or secret) prompt: the trimmed text
/// when it is not blank, otherwise `None`, which asks for another line.
pub fn accept_required(line: &str) -> (r: Option<String>)
    ensures
        r is Some == required_accepts(line@),
        r matches Some(t) ==> t@ == trimmed(line@) && t@.len() > 0 && !is_blank(t@),
{
    let t = trim_string(line);
    proof {
        lemma_trimmed_empty_iff_blank(line@);
        lemma_trimmed_not_blank(line@);
    }
    if t.as_str().is_empty() {
        None
    } else {
        Some(t)
    }
}

/// Decides one line of a role prompt.
pub fn accept_role(line: &str) -> (r: Option<Role>)
    ensures
        r == role_choice(line@),
{
    let t = trim_string(line);
    Role::parse(t.as_str())
}

/// Decides the answer to a yes/no question.
pub fn is_confirmed(line: &str) -> (r: bool)
    ensures
        r == confirms(line@),
{
    let n = line.unicode_len();
    let mut i: usize = 0;
    while i < n && crate::text::is_whitespace_char(line.get_char(i))
        invariant
            n == line@.len(),
            0 <= i <= n,
            forall|k: int| 0 <= k < i ==> is_ws(#[trigger] line@[k]),
        decreases n - i,
    {
        i = i + 1;
    }
    proof {
        crate::text::lemma_trim_start_ws_prefix(line@, i as int);
        let rest = line@.subrange(i as int, n as int);
        if i < n {
            assert(rest[0] == line@[i as int]);
            assert(trim_start(rest) == rest);
        } else {
            assert(rest.len() == 0);
        }
    }
    if i < n {
        let c = line.get_char(i);
        c == 'y' || c == 'Y'
    } else {
        false
    }
}

/// Decides which field an update prompt names.
pub fn parse_field(line: &str) -> (r: Option<UpdateField>)
    ensures
        r == field_choice(line@),
{
    let t = trim_string(line);
    if crate::text::text_is(t.as_str(), "role") {
        Some(UpdateField::Role)
    } else if crate::text::text_is(t.as_str(), "password") {
        Some(UpdateField::Password)
    } else if crate::text::text_is(t.as_str(), "consent") {
        Some(UpdateField::Consent)
    } else {
        None
    }
}

/// Runs a required prompt over a finite stream of lines. Returns the number
/// of lines refused before one was accepted, and the accepted trimmed text;
/// `None` when every line is blank.
pub fn read_required_from(lines: &Vec<String>) -> (r: Option<(usize, String)>)
    ensures
        r is None ==> forall|k: int| 0 <= k < lines@.len() ==> is_blank(#[trigger] lines@[k]@),
        r matches Some((n, t)) ==> {
            &&& n < lines@.len()
            &&& forall|k: int| 0 <= k < n ==> is_blank(#[trigger] lines@[k]@)
            &&& !is_blank(lines@[n as int]@)
            &&& t@ == trimmed(lines@[n as int]@)
            &&& t@.len() > 0
            &&& !is_blank(t@)
        },
{
    let mut i: usize = 0;
    while i < lines.len()
        invariant
            0 <= i <= lines@.len(),
            forall|k: int| 0 <= k < i ==> is_blank(#[trigger] lines@[k]@),
        decreases lines@.len() - i,
    {
        match accept_required(lines[i].as_str()) {
            Some(t) => {
                return Some((i, t));
            },
            None => {},
        }
        i = i + 1;
    }
    None
}

/// Runs a role prompt over a finite stream of lines. Returns the number of
/// lines refused before a role was recognised, and that role; `None` when no
/// line names a role.
pub fn read_role_from(lines: &Vec<String>) -> (r: Option<(usize, Role)>)
    ensures
        r is None ==> forall|k: int|
            0 <= k < lines@.len() ==> role_choice(#[trigger] lines@[k]@) is None,
        r matches Some((n, role)) ==> {
            &&& n < lines@.len()
            &&& forall|k: int| 0 <= k < n ==> role_choice(#[trigger] lines@[k]@) is None
            &&& role_choice(lines@[n as int]@) == Some(role)
        },
{
    let mut i: usize = 0;
    while i < lines.len()
        invariant
            0 <= i <= lines@.len(),
            forall|k: int| 0 <= k < i ==> role_choice(#[trigger] lines@[k]@) is None,
        decreases lines@.len() - i,
    {
        match accept_role(lines[i].as_str()) {
            Some(role) => {
                return Some((i, role));
            },
            None => {},
        }
        i = i + 1;
    }
    None
}

} // verus!
