//! Asking a vCenter: the request in a session, and once more in a new one where that had expired.

use crate::config::{VcenterEntry, VcenterEntryView};
use crate::request;
use crate::request::{HttpMethod, HttpRequest, HttpRequestView};
use crate::vcenter;
use crate::vcenter::{Upstream, UpstreamView, VcError};
use vstd::prelude::*;
use vstd::string::StringExecFns;

verus! {

/// What is asked of a vCenter.
pub enum Question {
    /// `method` on a path of the REST API.
    Rest(HttpMethod, String),
    /// One SOAP operation (already validated as read-only).
    Soap(String),
}

/// What a [`Question`] says.
#[verifier::ext_equal]
pub enum QuestionView {
    Rest(HttpMethod, Seq<char>),
    Soap(Seq<char>),
}

impl View for Question {
    type V = QuestionView;

    open spec fn view(&self) -> QuestionView {
        match self {
            Question::Rest(method, path) => QuestionView::Rest(*method, path@),
            Question::Soap(operation) => QuestionView::Soap(operation@),
        }
    }
}

impl QuestionView {
    /// Whether an answer to the question says that the session it was put in has expired.
    pub open spec fn has_expired(self, status: u16, body: Seq<u8>) -> bool {
        match self {
            QuestionView::Rest(_, _) => status == 401,
            QuestionView::Soap(_) => vcenter::says_not_authenticated(status, body),
        }
    }

    /// What failed where the question could not be sent.
    pub open spec fn context(self) -> Seq<char> {
        match self {
            QuestionView::Rest(_, _) => "vCenter request failed"@,
            QuestionView::Soap(_) => "vCenter SOAP request failed"@,
        }
    }
}

/// The request that puts a question in the session that `credential` names: a token for REST, a
/// cookie for SOAP.
pub open spec fn request_for(
    entry: VcenterEntryView,
    question: QuestionView,
    credential: Seq<char>,
) -> HttpRequestView {
    match question {
        QuestionView::Rest(method, path) => request::rest_request_view(
            method,
            entry.base_url() + path,
            credential,
        ),
        QuestionView::Soap(operation) => request::soap_request_view(
            entry.base_url(),
            Some(credential),
            operation,
        ),
    }
}

/// A question that is being put to a vCenter.
pub struct Call {
    entry: VcenterEntry,
    question: Question,
    retried: bool,
}

/// What a [`Call`] holds.
#[verifier::ext_equal]
pub struct CallView {
    pub entry: VcenterEntryView,
    pub question: QuestionView,
    /// Whether the question has been put before.
    pub retried: bool,
}

impl View for Call {
    type V = CallView;

    closed spec fn view(&self) -> CallView {
        CallView { entry: self.entry@, question: self.question@, retried: self.retried }
    }
}

/// What to do after an answer.
pub enum Next {
    /// The answer is the outcome.
    Finish,
    /// Open another session than the one that the credential names, and put the question again.
    Again(Call, String),
}

/// What to do after an answer.
pub enum NextView {
    Finish,
    Again(CallView, Seq<char>),
}

impl View for Next {
    type V = NextView;

    open spec fn view(&self) -> NextView {
        match self {
            Next::Finish => NextView::Finish,
            Next::Again(call, stale) => NextView::Again(call@, stale@),
        }
    }
}

impl CallView {
    /// What to do after an answer in the session that `credential` names.
    pub open spec fn answered(
        self,
        credential: Seq<char>,
        status: u16,
        body: Seq<u8>,
    ) -> NextView {
        if self.question.has_expired(status, body) && !self.retried {
            NextView::Again(CallView { retried: true, ..self }, credential)
        } else {
            NextView::Finish
        }
    }
}

impl Call {
    /// A question to be put for the first time.
    pub fn start(entry: VcenterEntry, question: Question) -> (r: Result<Call, VcError>)
        ensures
            match r {
                Ok(call) => {
                    &&& vcenter::completeness(entry@) is None
                    &&& call@ == CallView { entry: entry@, question: question@, retried: false }
                },
                Err(error) => vcenter::completeness(entry@) == Some(error@),
            },
    {
        match vcenter::require_complete(&entry) {
            Ok(()) => Ok(Call { entry, question, retried: false }),
            Err(error) => Err(error),
        }
    }

    /// The vCenter that is asked.
    pub fn entry(&self) -> (entry: &VcenterEntry)
        ensures
            entry@ == self@.entry,
    {
        &self.entry
    }

    /// What is asked.
    pub fn question(&self) -> (question: &Question)
        ensures
            question@ == self@.question,
    {
        &self.question
    }

    /// What failed where the question could not be sent.
    pub fn context(&self) -> (context: &'static str)
        ensures
            context@ == self@.question.context(),
    {
        match &self.question {
            Question::Rest(_, _) => "vCenter request failed",
            Question::Soap(_) => "vCenter SOAP request failed",
        }
    }

    /// The request to send in the session that `credential` names.
    pub fn request(&self, credential: String) -> (request: HttpRequest)
        ensures
            request@ == request_for(self@.entry, self@.question, credential@),
    {
        match &self.question {
            Question::Rest(method, path) => request::rest_request(
                *method,
                self.entry.base_url().concat(path),
                &credential,
            ),
            Question::Soap(operation) => request::soap_request(
                self.entry.base_url(),
                Some(credential),
                operation,
            ),
        }
    }

    /// What to do after an answer in the session that `credential` names. vCenter idles sessions
    /// out, so where one has expired the helper logs in again and retries once. The body decides
    /// nothing in an answer to a REST question, and may be left out there.
    pub fn answered(self, credential: String, answer: &Upstream) -> (next: Next)
        ensures
            next@ == self@.answered(credential@, answer@.status, answer@.body),
    {
        let expired = match &self.question {
            Question::Rest(_, _) => answer.status == 401,
            Question::Soap(_) => vcenter::is_not_authenticated(answer),
        };
        if expired && !self.retried {
            Next::Again(
                Call { entry: self.entry, question: self.question, retried: true },
                credential,
            )
        } else {
            Next::Finish
        }
    }
}

/// A question is put at most twice: the second answer is the outcome, whatever it is. The second
/// time, the same is asked of the same vCenter.
pub proof fn law_retries_once(
    call: CallView,
    first: Seq<char>,
    answer: UpstreamView,
    second: Seq<char>,
    second_answer: UpstreamView,
)
    ensures
        match call.answered(first, answer.status, answer.body) {
            NextView::Again(again, stale) => {
                &&& stale == first
                &&& again.entry == call.entry && again.question == call.question
                &&& again.answered(second, second_answer.status, second_answer.body) is Finish
            },
            NextView::Finish => call.retried || !call.question.has_expired(
                answer.status,
                answer.body,
            ),
        },
{
}

} // verus!
