//! Testing the connection to a vCenter: first REST, then SOAP, each in a new session.

use crate::call::{Call, CallView, Question, QuestionView};
use crate::config::{VcenterEntry, VcenterEntryView};
use crate::request::HttpMethod;
use crate::vcenter;
use crate::vcenter::{Upstream, UpstreamView, VcError, VcErrorView};
use vstd::prelude::*;

verus! {

/// How far a test has come.
enum Stage {
    /// Nothing has been done.
    Start,
    /// The old sessions are dropped, and REST is asked.
    Rest,
    /// REST is fine, which the text says, and SOAP is asked.
    Soap(String),
}

/// A test of the connection to a vCenter.
pub struct ConnectionTest {
    entry: VcenterEntry,
    stage: Stage,
}

/// How far a test has come.
#[verifier::ext_equal]
pub enum StageView {
    Start,
    Rest,
    Soap(Seq<char>),
}

/// What a [`ConnectionTest`] holds.
#[verifier::ext_equal]
pub struct ConnectionTestView {
    pub entry: VcenterEntryView,
    pub stage: StageView,
}

impl View for ConnectionTest {
    type V = ConnectionTestView;

    closed spec fn view(&self) -> ConnectionTestView {
        ConnectionTestView {
            entry: self.entry@,
            stage: match self.stage {
                Stage::Start => StageView::Start,
                Stage::Rest => StageView::Rest,
                Stage::Soap(rest) => StageView::Soap(rest@),
            },
        }
    }
}

/// What to do next in a test.
pub enum TestStep {
    /// Log out and drop the sessions of the vCenter with this id.
    Forget(ConnectionTest, String),
    /// Ask this, and hand the answer to the next step.
    Ask(ConnectionTest, Call),
    /// The test is over, with this to say.
    Done(Result<String, VcError>),
}

/// What to do next in a test.
#[verifier::ext_equal]
pub enum TestStepView {
    Forget(ConnectionTestView, Seq<char>),
    Ask(ConnectionTestView, CallView),
    Done(Result<Seq<char>, VcErrorView>),
}

impl View for TestStep {
    type V = TestStepView;

    open spec fn view(&self) -> TestStepView {
        match self {
            TestStep::Forget(test, id) => TestStepView::Forget(test@, id@),
            TestStep::Ask(test, call) => TestStepView::Ask(test@, call@),
            TestStep::Done(Ok(message)) => TestStepView::Done(Ok(message@)),
            TestStep::Done(Err(error)) => TestStepView::Done(Err(error@)),
        }
    }
}

/// What a vCenter answered, or why it could not be asked.
pub open spec fn answer_view(answer: Result<Upstream, VcError>) -> Result<
    UpstreamView,
    VcErrorView,
> {
    match answer {
        Ok(upstream) => Ok(upstream@),
        Err(error) => Err(error@),
    }
}

/// The last answer in a test, if anything has been asked.
pub open spec fn last_view(last: Option<Result<Upstream, VcError>>) -> Option<
    Result<UpstreamView, VcErrorView>,
> {
    match last {
        Some(answer) => Some(answer_view(answer)),
        None => None,
    }
}

/// What is asked of the REST API.
pub open spec fn rest_question() -> QuestionView {
    QuestionView::Rest(HttpMethod::Get, vcenter::VERSION_PATH@)
}

/// What is asked of the SOAP API.
pub open spec fn soap_question() -> QuestionView {
    QuestionView::Soap(vcenter::SERVICE_CONTENT_OPERATION@)
}

impl ConnectionTestView {
    /// A test of which nothing has been done.
    pub open spec fn start(entry: VcenterEntryView) -> ConnectionTestView {
        ConnectionTestView { entry, stage: StageView::Start }
    }

    /// Asking a question, after which the test is at `stage`.
    pub open spec fn ask(self, stage: StageView, question: QuestionView) -> TestStepView {
        match vcenter::completeness(self.entry) {
            None => TestStepView::Ask(
                ConnectionTestView { stage, ..self },
                CallView { entry: self.entry, question, retried: false },
            ),
            Some(error) => TestStepView::Done(Err(error)),
        }
    }

    /// What to do next, where `last` is what came of the last question: first the sessions are
    /// dropped, then REST is asked, then SOAP, and the first failure ends the test. A question that
    /// has no answer yet is put.
    pub open spec fn step(self, last: Option<Result<UpstreamView, VcErrorView>>) -> TestStepView {
        match (self.stage, last) {
            (StageView::Start, _) => TestStepView::Forget(
                ConnectionTestView { stage: StageView::Rest, ..self },
                self.entry.id,
            ),
            (StageView::Rest, None) => self.ask(StageView::Rest, rest_question()),
            (StageView::Soap(rest), None) => self.ask(StageView::Soap(rest), soap_question()),
            (_, Some(Err(error))) => TestStepView::Done(Err(error)),
            (StageView::Rest, Some(Ok(upstream))) => match vcenter::rest_test_outcome(upstream) {
                Ok(rest) => self.ask(StageView::Soap(rest), soap_question()),
                Err(error) => TestStepView::Done(Err(error)),
            },
            (StageView::Soap(rest), Some(Ok(upstream))) => TestStepView::Done(
                vcenter::soap_test_outcome(rest, upstream.status),
            ),
        }
    }
}

impl ConnectionTest {
    /// A test of which nothing has been done.
    pub fn new(entry: VcenterEntry) -> (test: Self)
        ensures
            test@ == ConnectionTestView::start(entry@),
    {
        ConnectionTest { entry, stage: Stage::Start }
    }

    /// Asking a question, after which the test is at `stage`.
    fn ask(entry: VcenterEntry, stage: Stage, question: Question) -> (step: TestStep)
        ensures
            step@ == (ConnectionTest { entry, stage })@.ask(
                (ConnectionTest { entry, stage })@.stage,
                question@,
            ),
    {
        match Call::start(entry.clone(), question) {
            Ok(call) => TestStep::Ask(ConnectionTest { entry, stage }, call),
            Err(error) => TestStep::Done(Err(error)),
        }
    }

    /// Asking the REST API.
    fn ask_rest(entry: VcenterEntry) -> (step: TestStep)
        ensures
            step@ == ConnectionTestView::start(entry@).ask(StageView::Rest, rest_question()),
    {
        let question = Question::Rest(HttpMethod::Get, vcenter::VERSION_PATH.to_owned());
        Self::ask(entry, Stage::Rest, question)
    }

    /// Asking the SOAP API, after REST said `rest`.
    fn ask_soap(entry: VcenterEntry, rest: String) -> (step: TestStep)
        ensures
            step@ == ConnectionTestView::start(entry@).ask(StageView::Soap(rest@), soap_question()),
    {
        let question = Question::Soap(vcenter::SERVICE_CONTENT_OPERATION.to_owned());
        Self::ask(entry, Stage::Soap(rest), question)
    }

    /// What to do next, where `last` is what came of the last question.
    pub fn step(self, last: Option<Result<Upstream, VcError>>) -> (step: TestStep)
        ensures
            step@ == self@.step(last_view(last)),
    {
        let entry = self.entry;
        match (self.stage, last) {
            (Stage::Start, _) => {
                let id = entry.id.clone();
                TestStep::Forget(ConnectionTest { entry, stage: Stage::Rest }, id)
            },
            (Stage::Rest, None) => Self::ask_rest(entry),
            (Stage::Soap(rest), None) => Self::ask_soap(entry, rest),
            (Stage::Rest, Some(Ok(upstream))) => match vcenter::test_rest(&upstream) {
                Ok(rest) => Self::ask_soap(entry, rest),
                Err(error) => TestStep::Done(Err(error)),
            },
            (Stage::Soap(rest), Some(Ok(upstream))) => TestStep::Done(
                vcenter::test_soap(rest, &upstream),
            ),
            (_, Some(Err(error))) => TestStep::Done(Err(error)),
        }
    }
}

/// A test of a complete entry drops the old sessions, asks REST, and asks SOAP only where REST
/// was fine. It is over after at most two questions, and says that all is well only where both
/// are.
pub proof fn law_test_checks_rest_then_soap(
    entry: VcenterEntryView,
    rest: Result<UpstreamView, VcErrorView>,
    soap: Result<UpstreamView, VcErrorView>,
)
    requires
        entry.is_complete(),
    ensures
        ({
            let begun = ConnectionTestView { entry, stage: StageView::Rest };
            let call = |question: QuestionView| CallView { entry, question, retried: false };
            &&& ConnectionTestView::start(entry).step(None) == TestStepView::Forget(begun, entry.id)
            &&& begun.step(None) == TestStepView::Ask(begun, call(rest_question()))
            &&& match rest {
                Err(error) => begun.step(Some(rest)) == TestStepView::Done(Err(error)),
                Ok(upstream) => match vcenter::rest_test_outcome(upstream) {
                    Err(error) => begun.step(Some(rest)) == TestStepView::Done(Err(error)),
                    Ok(said) => {
                        let asked = ConnectionTestView { entry, stage: StageView::Soap(said) };
                        &&& begun.step(Some(rest)) == TestStepView::Ask(
                            asked,
                            call(soap_question()),
                        )
                        &&& asked.step(Some(soap)) is Done
                        &&& asked.step(Some(soap)) matches TestStepView::Done(Ok(_)) ==> (
                        soap matches Ok(upstream) && vcenter::is_success(upstream.status))
                    },
                },
            }
        }),
{
}

} // verus!
