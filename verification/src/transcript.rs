//! Role-tagged conversation turns and the append-only transcript.

use vstd::prelude::*;

verus! {

/// Role of one conversation turn: a fixed, closed set.
#[derive(Clone, Copy, PartialEq, Eq, Structural, Debug)]
pub enum Role {
    System,
    User,
    Assistant,
}

/// One role-tagged unit of conversation content.
pub struct Turn {
    pub role: Role,
    pub content: String,
    /// Optional label, unused in the default flow.
    pub name: Option<String>,
}

/// Mathematical model of a turn: text as sequences of characters.
#[verifier::ext_equal]
pub ghost struct TurnView {
    pub role: Role,
    pub content: Seq<char>,
    pub name: Option<Seq<char>>,
}

impl View for Turn {
    type V = TurnView;

    open spec fn view(&self) -> TurnView {
        TurnView {
            role: self.role,
            content: self.content@,
            name: match self.name {
                Some(n) => Some(n@),
                None => None,
            },
        }
    }
}

impl Clone for Turn {
    fn clone(&self) -> (r: Self)
        ensures
            r@ == self@,
    {
        Turn {
            role: self.role,
            content: self.content.clone(),
            name: match &self.name {
                Some(n) => Some(n.clone()),
                None => None,
            },
        }
    }
}

/// The system turn that seeds every transcript.
pub open spec fn spec_system_turn(content: Seq<char>) -> TurnView {
    TurnView { role: Role::System, content, name: None }
}

/// A user turn carrying one inbound frame's payload.
pub open spec fn spec_user_turn(content: Seq<char>) -> TurnView {
    TurnView { role: Role::User, content, name: None }
}

/// The assistant turn built from one generation reply.
pub open spec fn spec_assistant_turn(content: Seq<char>, name: Option<Seq<char>>) -> TurnView {
    TurnView { role: Role::Assistant, content, name }
}

pub fn system_turn(content: String) -> (t: Turn)
    ensures
        t@ == spec_system_turn(content@),
{
    Turn { role: Role::System, content, name: None }
}

pub fn user_turn(content: String) -> (t: Turn)
    ensures
        t@ == spec_user_turn(content@),
{
    Turn { role: Role::User, content, name: None }
}

pub fn assistant_turn(content: String, name: Option<String>) -> (t: Turn)
    ensures
        t@ == spec_assistant_turn(
            content@,
            match name {
                Some(n) => Some(n@),
                None => None,
            },
        ),
{
    Turn { role: Role::Assistant, content, name }
}

/// The model of a sequence of turns.
pub open spec fn turns_view(turns: Seq<Turn>) -> Seq<TurnView> {
    turns.map_values(|t: Turn| t@)
}

/// Ordered, append-only log of role-tagged turns; its order is the literal
/// request payload sent to the generation backend.
pub struct Transcript {
    turns: Vec<Turn>,
}

impl View for Transcript {
    type V = Seq<TurnView>;

    closed spec fn view(&self) -> Seq<TurnView> {
        turns_view(self.turns@)
    }
}

impl Transcript {
    /// Well-formed: seeded, with the system turn first.
    pub open spec fn wf(&self) -> bool {
        &&& self@.len() >= 1
        &&& self@[0].role == Role::System
    }

    /// A new transcript holding exactly the system turn for `prompt`.
    pub fn new(prompt: String) -> (t: Transcript)
        ensures
            t@ =~= seq![spec_system_turn(prompt@)],
            t.wf(),
    {
        let mut turns: Vec<Turn> = Vec::new();
        turns.push(system_turn(prompt));
        Transcript { turns }
    }

    /// Appends one turn; nothing is ever removed or reordered.
    pub fn append(&mut self, turn: Turn)
        ensures
            final(self)@ =~= old(self)@.push(turn@),
    {
        self.turns.push(turn);
    }

    /// The full ordered sequence, for use as a request payload.
    pub fn snapshot(&self) -> (r: &Vec<Turn>)
        ensures
            turns_view(r@) == self@,
    {
        &self.turns
    }
}

} // verus!
