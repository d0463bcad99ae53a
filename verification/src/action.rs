//! The closed set of grantable actions and their canonical text encoding.

use crate::text::same_text;
use vstd::prelude::*;

verus! {

/// The error of decoding a text that is not the canonical name of an action.
#[derive(Debug, Clone, Copy, PartialEq, Eq, Structural)]
pub struct InvalidAction;

impl InvalidAction {
    /// A short text that says what went wrong.
    pub fn message(&self) -> (text: String)
        ensures
            text@ == "Invalid action"@,
    {
        "Invalid action".to_owned()
    }
}

/// One unit of grantable capability.
///
/// The set is flat: no action implies another.
#[derive(Debug, Clone, Copy, PartialEq, Eq, Structural)]
pub enum Action {
    Admin,
    Read,
    List,
    Write,
    Delete,
}

impl Action {
    /// The canonical lower-case name under which the action is stored.
    pub open spec fn name(self) -> Seq<char> {
        match self {
            Action::Admin => "admin"@,
            Action::Read => "read"@,
            Action::List => "list"@,
            Action::Write => "write"@,
            Action::Delete => "delete"@,
        }
    }

    /// The action that a text names, if it names one.
    ///
    /// The match is exact: case counts and nothing is trimmed.
    pub open spec fn parse(text: Seq<char>) -> Option<Action> {
        if text == Action::Admin.name() {
            Some(Action::Admin)
        } else if text == Action::Read.name() {
            Some(Action::Read)
        } else if text == Action::List.name() {
            Some(Action::List)
        } else if text == Action::Write.name() {
            Some(Action::Write)
        } else if text == Action::Delete.name() {
            Some(Action::Delete)
        } else {
            None
        }
    }

    /// Encodes the action as its canonical name, which decodes to the action
    /// again.
    pub fn as_string(&self) -> (text: String)
        ensures
            text@ == self.name(),
            Action::parse(text@) == Some(*self),
    {
        proof {
            lemma_parse_name(*self);
        }
        match self {
            Action::Admin => "admin".to_owned(),
            Action::Read => "read".to_owned(),
            Action::List => "list".to_owned(),
            Action::Write => "write".to_owned(),
            Action::Delete => "delete".to_owned(),
        }
    }

    /// Decodes a canonical name.
    ///
    /// Succeeds on exactly the five canonical names and fails on every other
    /// text, the empty one and other spellings of a name included.
    pub fn from_string(action: &str) -> (decoded: Result<Action, InvalidAction>)
        ensures
            decoded == match Action::parse(action@) {
                Some(a) => Ok::<Action, InvalidAction>(a),
                None => Err(InvalidAction),
            },
    {
        if same_text(action, "admin") {
            Ok(Action::Admin)
        } else if same_text(action, "read") {
            Ok(Action::Read)
        } else if same_text(action, "list") {
            Ok(Action::List)
        } else if same_text(action, "write") {
            Ok(Action::Write)
        } else if same_text(action, "delete") {
            Ok(Action::Delete)
        } else {
            Err(InvalidAction)
        }
    }
}

/// No two actions share a canonical name.
pub proof fn lemma_names_distinct(a: Action, b: Action)
    ensures
        a.name() == b.name() <==> a == b,
{
    reveal_strlit("admin");
    reveal_strlit("read");
    reveal_strlit("list");
    reveal_strlit("write");
    reveal_strlit("delete");
    if a != b {
        assert(a.name().len() != b.name().len() || a.name()[0] != b.name()[0]);
    }
}

/// The canonical names, character by character.
pub proof fn lemma_name_characters()
    ensures
        Action::Admin.name() == seq!['a', 'd', 'm', 'i', 'n'],
        Action::Read.name() == seq!['r', 'e', 'a', 'd'],
        Action::List.name() == seq!['l', 'i', 's', 't'],
        Action::Write.name() == seq!['w', 'r', 'i', 't', 'e'],
        Action::Delete.name() == seq!['d', 'e', 'l', 'e', 't', 'e'],
{
    reveal_strlit("admin");
    reveal_strlit("read");
    reveal_strlit("list");
    reveal_strlit("write");
    reveal_strlit("delete");
    assert(Action::Admin.name() =~= seq!['a', 'd', 'm', 'i', 'n']);
    assert(Action::Read.name() =~= seq!['r', 'e', 'a', 'd']);
    assert(Action::List.name() =~= seq!['l', 'i', 's', 't']);
    assert(Action::Write.name() =~= seq!['w', 'r', 'i', 't', 'e']);
    assert(Action::Delete.name() =~= seq!['d', 'e', 'l', 'e', 't', 'e']);
}

/// Round trip: decoding the canonical name of an action gives the action back.
pub proof fn lemma_parse_name(a: Action)
    ensures
        Action::parse(a.name()) == Some(a),
{
    lemma_names_distinct(a, Action::Admin);
    lemma_names_distinct(a, Action::Read);
    lemma_names_distinct(a, Action::List);
    lemma_names_distinct(a, Action::Write);
    lemma_names_distinct(a, Action::Delete);
}

/// Decoding is the inverse of encoding: a text decodes to an action exactly
/// when it is that action's canonical name.
pub proof fn lemma_parse_inverts_name(text: Seq<char>, a: Action)
    ensures
        Action::parse(text) == Some(a) <==> text == a.name(),
{
    if text == a.name() {
        lemma_parse_name(a);
    }
}

/// Decoding succeeds on the five canonical names and on no other text.
pub proof fn lemma_parse_domain(text: Seq<char>)
    ensures
        Action::parse(text) is Some <==> (text == "admin"@ || text == "read"@ || text == "list"@
            || text == "write"@ || text == "delete"@),
{
}

} // verus!
