//! What passes between the scheduler and the driver that holds the
//! connections: statements to send, and what came back.
//!
//! The scheduler never sends anything itself. Each step of a phase hands the
//! driver a [`Command`]; the driver carries it out on the connection that the
//! statement names and hands the [`Reply`] to the next step. Rows come back
//! as strings, whatever the wire protocol: the scheduler reads the numbers in
//! them itself.
use crate::messages::{Message, MessageView};
use vstd::prelude::*;

verus! {

/// The server that a statement is sent to.
#[derive(Clone, Copy, Debug, PartialEq, Eq, Structural)]
pub enum Target {
    /// The router's admin interface.
    Router,
    /// The Readyset instance at this place in the router's list of them.
    Readyset(usize),
}

/// What a statement does, by the words it begins with.
#[derive(Clone, Copy, Debug, PartialEq, Eq, Structural)]
pub enum StatementKind {
    Select,
    Show,
    Explain,
    Use,
    Insert,
    Update,
    Load,
    Save,
    CreateCache,
}

impl StatementKind {
    /// The words that a statement of this kind begins with.
    pub open spec fn keyword(self) -> Seq<char> {
        match self {
            StatementKind::Select => "SELECT"@,
            StatementKind::Show => "SHOW"@,
            StatementKind::Explain => "EXPLAIN"@,
            StatementKind::Use => "USE"@,
            StatementKind::Insert => "INSERT"@,
            StatementKind::Update => "UPDATE"@,
            StatementKind::Load => "LOAD"@,
            StatementKind::Save => "SAVE"@,
            StatementKind::CreateCache => "CREATE CACHE"@,
        }
    }

    /// Whether a statement of this kind changes what the router or a
    /// Readyset instance holds.
    pub open spec fn writes(self) -> bool {
        match self {
            StatementKind::Insert
            | StatementKind::Update
            | StatementKind::Load
            | StatementKind::Save
            | StatementKind::CreateCache => true,
            _ => false,
        }
    }

    /// Whether a statement of this kind is answered with rows.
    pub open spec fn returns_rows(self) -> bool {
        match self {
            StatementKind::Select | StatementKind::Show | StatementKind::Explain => true,
            _ => false,
        }
    }

    /// Whether a statement of this kind changes what the router or a
    /// Readyset instance holds.
    pub fn is_write(&self) -> (r: bool)
        ensures
            r == self.writes(),
    {
        match self {
            StatementKind::Insert => true,
            StatementKind::Update => true,
            StatementKind::Load => true,
            StatementKind::Save => true,
            StatementKind::CreateCache => true,
            _ => false,
        }
    }
}

/// One SQL statement and the server it is for.
#[derive(Clone, Debug)]
pub struct Statement {
    pub target: Target,
    pub kind: StatementKind,
    pub text: String,
}

/// A statement, with its text as a sequence of characters.
pub struct StatementView {
    pub target: Target,
    pub kind: StatementKind,
    pub text: Seq<char>,
}

impl StatementView {
    /// Whether the text begins with the words of the statement's kind.
    pub open spec fn well_formed(self) -> bool {
        crate::text::occurs_at(self.text, self.kind.keyword(), 0)
    }
}

impl View for Statement {
    type V = StatementView;

    open spec fn view(&self) -> StatementView {
        StatementView { target: self.target, kind: self.kind, text: self.text@ }
    }
}

impl DeepView for Statement {
    type V = StatementView;

    open spec fn deep_view(&self) -> StatementView {
        self@
    }
}

impl Statement {
    /// A copy of the statement.
    pub fn clone_statement(&self) -> (r: Statement)
        ensures
            r@ == self@,
    {
        Statement { target: self.target, kind: self.kind, text: self.text.clone() }
    }
}

/// How a phase ended.
#[derive(Clone, Debug)]
pub enum Outcome {
    /// The phase ran to its end.
    Completed,
    /// The phase was given up; the run ends in failure with this message.
    Failed(String),
}

/// How a phase ended, with the message as a sequence of characters.
pub enum OutcomeView {
    Completed,
    Failed(Seq<char>),
}

impl View for Outcome {
    type V = OutcomeView;

    open spec fn view(&self) -> OutcomeView {
        match self {
            Outcome::Completed => OutcomeView::Completed,
            Outcome::Failed(message) => OutcomeView::Failed(message@),
        }
    }
}

/// What the driver does next.
#[derive(Clone, Debug)]
pub enum Command {
    /// Send the statement and answer with its rows, or with the failure.
    Query(Statement),
    /// Send the statements in this order and stop at the first that fails;
    /// answer that all were done, or with the failure.
    Execute(Vec<Statement>),
    /// Nothing more: the phase has ended.
    Finish(Outcome),
}

/// A command, with its texts as sequences of characters.
pub enum CommandView {
    Query(StatementView),
    Execute(Seq<StatementView>),
    Finish(OutcomeView),
}

impl View for Command {
    type V = CommandView;

    open spec fn view(&self) -> CommandView {
        match self {
            Command::Query(statement) => CommandView::Query(statement@),
            Command::Execute(statements) => CommandView::Execute(statements.deep_view()),
            Command::Finish(outcome) => CommandView::Finish(outcome@),
        }
    }
}

/// How many of the statements are of the kind `kind`.
pub open spec fn count_kind(statements: Seq<StatementView>, kind: StatementKind) -> nat
    decreases statements.len(),
{
    if statements.len() == 0 {
        0
    } else {
        count_kind(statements.drop_last(), kind) + if statements.last().kind == kind {
            1nat
        } else {
            0nat
        }
    }
}

/// Where no statement is of the kind `kind`, none is counted.
pub proof fn lemma_count_kind_none(statements: Seq<StatementView>, kind: StatementKind)
    requires
        forall|i: int| 0 <= i < statements.len() ==> (#[trigger] statements[i]).kind != kind,
    ensures
        count_kind(statements, kind) == 0,
    decreases statements.len(),
{
    if statements.len() > 0 {
        lemma_count_kind_none(statements.drop_last(), kind);
    }
}

impl CommandView {
    /// How many rules the command adds in the router.
    pub open spec fn inserts(self) -> nat {
        count_kind(self.statements(), StatementKind::Insert)
    }

    /// The statements that the command has sent, in their order.
    pub open spec fn statements(self) -> Seq<StatementView> {
        match self {
            CommandView::Query(statement) => seq![statement],
            CommandView::Execute(statements) => statements,
            CommandView::Finish(_) => Seq::empty(),
        }
    }

    /// Whether each statement of the command begins with the words of its
    /// kind, and is sent as its kind asks: as a query where it is answered
    /// with rows, and among the statements to carry out where it is not.
    pub open spec fn well_formed(self) -> bool {
        &&& forall|i: int|
            0 <= i < self.statements().len() ==> (#[trigger] self.statements()[i]).well_formed()
        &&& match self {
            CommandView::Query(statement) => statement.kind.returns_rows(),
            CommandView::Execute(statements) => forall|i: int|
                0 <= i < statements.len() ==> !(#[trigger] statements[i]).kind.returns_rows(),
            CommandView::Finish(_) => true,
        }
    }

    /// Whether the command sends nothing that changes what the router or a
    /// Readyset instance holds.
    pub open spec fn writes_nothing(self) -> bool {
        forall|i: int| 0 <= i < self.statements().len() ==> !(#[trigger] self.statements()[i]).kind.writes()
    }
}

/// What the driver answers a command with.
#[derive(Clone, Debug)]
pub enum Reply {
    /// The phase begins: there was no command yet.
    Start,
    /// The rows that a query gave, each with its columns as text.
    Rows(Vec<Vec<String>>),
    /// Every statement of the command was carried out.
    Done,
    /// A statement failed, or there was no connection to send it on.
    Failed(String),
}

/// A reply, with its texts as sequences of characters.
pub enum ReplyView {
    Start,
    Rows(Seq<Seq<Seq<char>>>),
    Done,
    Failed(Seq<char>),
}

impl View for Reply {
    type V = ReplyView;

    open spec fn view(&self) -> ReplyView {
        match self {
            Reply::Start => ReplyView::Start,
            Reply::Rows(rows) => ReplyView::Rows(rows.deep_view()),
            Reply::Done => ReplyView::Done,
            Reply::Failed(error) => ReplyView::Failed(error@),
        }
    }
}

/// One step of a phase: what to log, then what to send.
#[derive(Clone, Debug)]
pub struct Step {
    pub messages: Vec<Message>,
    pub command: Command,
}

/// A step, with its texts as sequences of characters.
pub struct StepView {
    pub messages: Seq<MessageView>,
    pub command: CommandView,
}

impl View for Step {
    type V = StepView;

    open spec fn view(&self) -> StepView {
        StepView { messages: self.messages.deep_view(), command: self.command@ }
    }
}

} // verus!
