//! Asking a chain of credentials for a token, one after the other.

use vstd::prelude::*;

use crate::text;

verus! {

/// What to do next for a token.
pub enum TokenAction {
    /// Ask the credential at this place of the chain. It is the last that is asked where `last`.
    Ask { source: usize, last: bool },
    /// Use the token that the credential at this place gave.
    Use { source: usize },
    /// Give up with this message. The error of the credential at `cause` is the cause.
    Fail { message: String, cause: usize },
}

/// What to do next, as contracts speak of it.
pub enum TokenActionView {
    Ask { source: int, last: bool },
    Use { source: int },
    Fail { message: Seq<char>, cause: int },
}

impl View for TokenAction {
    type V = TokenActionView;

    open spec fn view(&self) -> TokenActionView {
        match *self {
            TokenAction::Ask { source, last } => TokenActionView::Ask {
                source: source as int,
                last,
            },
            TokenAction::Use { source } => TokenActionView::Use { source: source as int },
            TokenAction::Fail { message, cause } => TokenActionView::Fail {
                message: message@,
                cause: cause as int,
            },
        }
    }
}

/// One request for a token, put to the credentials of a chain in turn.
pub struct TokenRound {
    sources: usize,
    messages: Vec<String>,
}

/// A round, as contracts speak of it: how many credentials there are, and what those that were
/// asked so far said why they failed.
#[verifier::ext_equal]
pub struct RoundView {
    pub sources: int,
    pub failures: Seq<Seq<char>>,
}

impl RoundView {
    /// The next credential to ask, or the failure once all have failed.
    pub open spec fn next(self) -> TokenActionView {
        if self.failures.len() < self.sources {
            TokenActionView::Ask {
                source: self.failures.len() as int,
                last: self.failures.len() + 1 == self.sources,
            }
        } else {
            TokenActionView::Fail {
                message: "all default azure credential sources failed: "@ + text::joined_with(
                    self.failures,
                    "; "@,
                ),
                cause: 0,
            }
        }
    }

    /// The round after one more credential failed.
    pub open spec fn failed(self, message: Seq<char>) -> RoundView {
        RoundView { sources: self.sources, failures: self.failures.push(message) }
    }
}

impl View for TokenRound {
    type V = RoundView;

    closed spec fn view(&self) -> RoundView {
        RoundView { sources: self.sources as int, failures: text::views(self.messages@) }
    }
}

impl TokenRound {
    /// A round over so many credentials. There has to be one at least.
    pub fn start(sources: usize) -> (round: TokenRound)
        requires
            sources > 0,
        ensures
            round@ == (RoundView { sources: sources as int, failures: Seq::empty() }),
    {
        let round: TokenRound = TokenRound { sources, messages: Vec::new() };
        assert(round@.failures =~= Seq::<Seq<char>>::empty());
        round
    }

    /// What to do next.
    pub fn next(&self) -> (action: TokenAction)
        ensures
            action@ == self@.next(),
    {
        let asked: usize = self.messages.len();
        if asked < self.sources {
            TokenAction::Ask { source: asked, last: asked == self.sources - 1 }
        } else {
            let reasons: String = text::join_with(&self.messages, "; ");
            TokenAction::Fail {
                message: text::joined(
                    "all default azure credential sources failed: ",
                    reasons.as_str(),
                ),
                cause: 0,
            }
        }
    }

    /// Takes in how the credential that was to be asked answered, and says what to do next.
    pub fn answered(&mut self, answer: Result<(), String>) -> (action: TokenAction)
        requires
            old(self)@.next() is Ask,
        ensures
            match answer {
                Ok(_) => {
                    &&& action@ == (TokenActionView::Use { source: old(self)@.next()->Ask_source })
                    &&& final(self)@ == old(self)@
                },
                Err(message) => {
                    &&& final(self)@ == old(self)@.failed(message@)
                    &&& action@ == final(self)@.next()
                },
            },
    {
        match answer {
            Ok(_) => TokenAction::Use { source: self.messages.len() },
            Err(message) => {
                self.messages.push(message);
                assert(self@.failures =~= old(self)@.failures.push(message@));
                self.next()
            },
        }
    }
}

/// How a round ends where the credentials answer like this: `None` is a token, and a text why
/// there is none.
pub open spec fn round_end(round: RoundView, answers: Seq<Option<Seq<char>>>) -> TokenActionView
    decreases round.sources - round.failures.len(),
{
    match round.next() {
        TokenActionView::Ask { source, .. } if round.failures.len() < round.sources => match answers[source] {
            None => TokenActionView::Use { source },
            Some(message) => round_end(round.failed(message), answers),
        },
        action => action,
    }
}

/// The first credential that gives a token is used: those before it were asked and failed, and
/// none after it is asked.
pub proof fn first_token_is_used(round: RoundView, answers: Seq<Option<Seq<char>>>, first: int)
    requires
        round.failures.len() <= first < round.sources,
        answers.len() == round.sources,
        answers[first] is None,
        forall|i: int|
            round.failures.len() <= i < first ==> (#[trigger] answers[i]) is Some,
    ensures
        round_end(round, answers) == (TokenActionView::Use { source: first }),
    decreases first - round.failures.len(),
{
    if round.failures.len() < first {
        let message = answers[round.failures.len() as int].unwrap();
        first_token_is_used(round.failed(message), answers, first);
    }
}

/// Where every credential fails, so does the round. Its message gives the reasons of all in their
/// order, and the first credential's error is the cause.
pub proof fn all_failures_are_reported(round: RoundView, answers: Seq<Option<Seq<char>>>)
    requires
        round.failures.len() <= round.sources,
        answers.len() == round.sources,
        forall|i: int|
            0 <= i < round.sources ==> (#[trigger] answers[i]) is Some,
        forall|i: int|
            0 <= i < round.failures.len() ==> answers[i] == Some(#[trigger] round.failures[i]),
    ensures
        round_end(round, answers) == (TokenActionView::Fail {
            message: "all default azure credential sources failed: "@ + text::joined_with(
                Seq::new(answers.len(), |i: int| answers[i].unwrap()),
                "; "@,
            ),
            cause: 0,
        }),
    decreases round.sources - round.failures.len(),
{
    if round.failures.len() < round.sources {
        let message = answers[round.failures.len() as int].unwrap();
        all_failures_are_reported(round.failed(message), answers);
    } else {
        assert(round.failures =~= Seq::new(answers.len(), |i: int| answers[i].unwrap()));
    }
}

/// The credentials are asked one after the other, each known as the last where it is. Once all
/// have failed, the round fails with the reasons of all.
pub proof fn credentials_are_asked_in_turn(round: RoundView)
    ensures
        round.failures.len() < round.sources ==> round.next() == (TokenActionView::Ask {
            source: round.failures.len() as int,
            last: round.failures.len() == round.sources - 1,
        }),
        round.failures.len() >= round.sources ==> (round.next() matches TokenActionView::Fail {
            message,
            cause,
        } && {
            let reasons = message.skip("all default azure credential sources failed: "@.len() as int);
            &&& cause == 0
            &&& "all default azure credential sources failed: "@.is_prefix_of(message)
            &&& text::is_joined(reasons, round.failures, seq![';', ' '])
        }),
{
    let prefix = "all default azure credential sources failed: "@;
    reveal_strlit("; ");
    assert("; "@ =~= seq![';', ' ']);
    text::joining_keeps_all_parts(round.failures, "; "@);
    let reasons = text::joined_with(round.failures, "; "@);
    assert((prefix + reasons).skip(prefix.len() as int) =~= reasons);
    assert((prefix + reasons).subrange(0, prefix.len() as int) =~= prefix);
}

/// A failure is added to those before it, and nothing else changes.
pub proof fn failures_add_up(round: RoundView, message: Seq<char>)
    ensures
        round.failed(message).sources == round.sources,
        round.failed(message).failures == round.failures.push(message),
{
}

/// An action is seen as it is.
pub proof fn actions_are_seen_in_full(action: TokenAction)
    ensures
        match action {
            TokenAction::Ask { source, last } => action@ == (TokenActionView::Ask {
                source: source as int,
                last,
            }),
            TokenAction::Use { source } => action@ == (TokenActionView::Use {
                source: source as int,
            }),
            TokenAction::Fail { message, cause } => action@ == (TokenActionView::Fail {
                message: message@,
                cause: cause as int,
            }),
        },
{
}

/// A round is seen in full.
proof fn lemma_view_is_whole(round: TokenRound)
    ensures
        round@.sources == round.sources,
        round@.failures.len() == round.messages@.len(),
        forall|i: int|
            0 <= i < round.messages@.len() ==> (#[trigger] round@.failures[i])
                == round.messages@[i]@,
{
}

}
