use vstd::prelude::*;
use vstd::string::{StrSliceExecFns, StringExecFns};

use crate::types::ErrorResponse;

verus! {

/// Status of every rejection by a validator.
pub const BAD_REQUEST: u16 = 400;

/// Longest accepted username, contact or password, in characters.
pub const MAX_FIELD_CHARS: usize = 255;

/// Longest accepted message text, in characters.
pub const MAX_MESSAGE_CHARS: usize = 4096;

/// A field of a validated request body.
#[derive(Clone, Copy, Debug, PartialEq, Eq, Structural)]
pub enum Field {
    Username,
    Contact,
    Password,
    MessageText,
}

/// One violation found in a request body.
#[derive(Clone, Copy, Debug, PartialEq, Eq, Structural)]
pub enum FieldProblem {
    Missing(Field),
    Empty(Field),
    TooLong(Field),
}

/// The aggregate of all violations found in a request body.
#[derive(Debug)]
pub struct ValidationError {
    pub problems: Vec<FieldProblem>,
}

/// A registration body as decoded, before its fields are checked.
#[derive(Clone, Debug)]
pub struct RegisterBody {
    pub username: Option<String>,
    pub contact: Option<String>,
    pub password: Option<String>,
}

/// A registration body whose fields passed validation.
#[derive(Clone, Debug)]
pub struct RegisterRequest {
    pub username: String,
    pub contact: String,
    pub password: String,
}

/// A new-message body as decoded, before its fields are checked.
#[derive(Clone, Debug)]
pub struct NewMessageBody {
    pub message_text: Option<String>,
}

/// A new-message body whose fields passed validation.
#[derive(Clone, Debug)]
pub struct NewMessageRequest {
    pub message_text: String,
}

/// What a validator decided: hand the typed value on, or answer at once.
#[derive(Debug)]
pub enum Gate<T> {
    Forward(T),
    Reject(ErrorResponse),
}

/// The violation of a field holding `v`, with at most `max` characters allowed.
pub open spec fn field_problem(f: Field, v: Option<String>, max: usize) -> Option<FieldProblem> {
    match v {
        None => Some(FieldProblem::Missing(f)),
        Some(s) => if s@.len() == 0 {
            Some(FieldProblem::Empty(f))
        } else if s@.len() > max {
            Some(FieldProblem::TooLong(f))
        } else {
            None
        },
    }
}

/// A possible violation as a sequence of zero or one.
pub open spec fn as_seq(p: Option<FieldProblem>) -> Seq<FieldProblem> {
    match p {
        Some(x) => seq![x],
        None => Seq::empty(),
    }
}

/// All violations of a registration body, in field order.
pub open spec fn register_problems(b: RegisterBody) -> Seq<FieldProblem> {
    as_seq(field_problem(Field::Username, b.username, MAX_FIELD_CHARS)) + as_seq(
        field_problem(Field::Contact, b.contact, MAX_FIELD_CHARS),
    ) + as_seq(field_problem(Field::Password, b.password, MAX_FIELD_CHARS))
}

/// All violations of a new-message body.
pub open spec fn new_message_problems(b: NewMessageBody) -> Seq<FieldProblem> {
    as_seq(field_problem(Field::MessageText, b.message_text, MAX_MESSAGE_CHARS))
}

/// The name of a field as clients write it.
pub open spec fn field_name(f: Field) -> Seq<char> {
    match f {
        Field::Username => "username"@,
        Field::Contact => "contact"@,
        Field::Password => "password"@,
        Field::MessageText => "message_text"@,
    }
}

/// The sentence describing one violation.
pub open spec fn problem_text(p: FieldProblem) -> Seq<char> {
    match p {
        FieldProblem::Missing(f) => field_name(f) + " is required"@,
        FieldProblem::Empty(f) => field_name(f) + " must not be empty"@,
        FieldProblem::TooLong(f) => field_name(f) + " is too long"@,
    }
}

/// The violations' sentences joined by "; ".
pub open spec fn summary(ps: Seq<FieldProblem>) -> Seq<char>
    decreases ps.len(),
{
    if ps.len() == 0 {
        Seq::empty()
    } else if ps.len() == 1 {
        problem_text(ps[0])
    } else {
        summary(ps.drop_last()) + "; "@ + problem_text(ps.last())
    }
}

fn field_label(f: Field) -> (r: String)
    ensures
        r@ == field_name(f),
{
    match f {
        Field::Username => String::from_str("username"),
        Field::Contact => String::from_str("contact"),
        Field::Password => String::from_str("password"),
        Field::MessageText => String::from_str("message_text"),
    }
}

impl FieldProblem {
    /// The sentence describing this violation.
    pub fn describe(&self) -> (r: String)
        ensures
            r@ == problem_text(*self),
    {
        match self {
            FieldProblem::Missing(f) => field_label(*f).concat(" is required"),
            FieldProblem::Empty(f) => field_label(*f).concat(" must not be empty"),
            FieldProblem::TooLong(f) => field_label(*f).concat(" is too long"),
        }
    }
}

impl ValidationError {
    /// All violations in one human-readable message.
    pub fn message(&self) -> (r: String)
        ensures
            r@ == summary(self.problems@),
    {
        let ps = &self.problems;
        let mut out = String::new();
        let mut i: usize = 0;
        while i < ps.len()
            invariant
                i <= ps@.len(),
                out@ == summary(ps@.subrange(0, i as int)),
            decreases ps@.len() - i,
        {
            let text = ps[i].describe();
            let ghost prefix = ps@.subrange(0, i as int + 1);
            assert(prefix.drop_last() =~= ps@.subrange(0, i as int));
            if i > 0 {
                out.append("; ");
            }
            out.append(text.as_str());
            i = i + 1;
        }
        assert(ps@.subrange(0, ps@.len() as int) =~= ps@);
        out
    }

    /// The response that ends a request with an invalid body.
    pub fn response(&self) -> (r: ErrorResponse)
        ensures
            r.status == BAD_REQUEST,
            r.message@ == summary(self.problems@),
    {
        ErrorResponse { status: BAD_REQUEST, message: self.message() }
    }
}

/// The violation of a field holding `v`, with at most `max` characters allowed.
fn check_field(f: Field, v: &Option<String>, max: usize) -> (r: Option<FieldProblem>)
    ensures
        r == field_problem(f, *v, max),
{
    match v {
        None => Some(FieldProblem::Missing(f)),
        Some(s) => {
            let n = s.as_str().unicode_len();
            if n == 0 {
                Some(FieldProblem::Empty(f))
            } else if n > max {
                Some(FieldProblem::TooLong(f))
            } else {
                None
            }
        },
    }
}

fn push_problem(ps: &mut Vec<FieldProblem>, p: Option<FieldProblem>)
    ensures
        final(ps)@ == old(ps)@ + as_seq(p),
{
    if let Some(x) = p {
        ps.push(x);
    }
    assert(final(ps)@ =~= old(ps)@ + as_seq(p));
}

/// Checks a registration body: every field present, non-empty and at most
/// `MAX_FIELD_CHARS` characters long.
pub fn validate_register(body: RegisterBody) -> (r: Result<RegisterRequest, ValidationError>)
    ensures
        r is Ok <==> register_problems(body).len() == 0,
        r matches Ok(req) ==> body.username == Some(req.username) && body.contact == Some(
            req.contact,
        ) && body.password == Some(req.password),
        r matches Err(e) ==> e.problems@ == register_problems(body),
{
    let mut problems: Vec<FieldProblem> = Vec::new();
    push_problem(&mut problems, check_field(Field::Username, &body.username, MAX_FIELD_CHARS));
    push_problem(&mut problems, check_field(Field::Contact, &body.contact, MAX_FIELD_CHARS));
    push_problem(&mut problems, check_field(Field::Password, &body.password, MAX_FIELD_CHARS));
    assert(problems@ =~= register_problems(body));
    match (body.username, body.contact, body.password) {
        (Some(username), Some(contact), Some(password)) => {
            if problems.len() == 0 {
                Ok(RegisterRequest { username, contact, password })
            } else {
                Err(ValidationError { problems })
            }
        },
        _ => Err(ValidationError { problems }),
    }
}

/// Checks a new-message body: text present, non-empty and at most
/// `MAX_MESSAGE_CHARS` characters long.
pub fn validate_new_message(body: NewMessageBody) -> (r: Gate<NewMessageRequest>)
    ensures
        r is Forward <==> new_message_problems(body).len() == 0,
        r matches Gate::Forward(req) ==> body.message_text == Some(req.message_text),
        r matches Gate::Reject(resp) ==> resp.status == BAD_REQUEST && resp.message@ == summary(
            new_message_problems(body),
        ),
{
    let mut problems: Vec<FieldProblem> = Vec::new();
    push_problem(
        &mut problems,
        check_field(Field::MessageText, &body.message_text, MAX_MESSAGE_CHARS),
    );
    assert(problems@ =~= new_message_problems(body));
    match body.message_text {
        Some(message_text) => {
            if problems.len() == 0 {
                Gate::Forward(NewMessageRequest { message_text })
            } else {
                ValidationError { problems }.response_gate()
            }
        },
        None => ValidationError { problems }.response_gate(),
    }
}

impl ValidationError {
    fn response_gate<T>(&self) -> (r: Gate<T>)
        ensures
            r matches Gate::Reject(resp) && resp.status == BAD_REQUEST && resp.message@ == summary(
                self.problems@,
            ),
    {
        Gate::Reject(self.response())
    }
}

/// Validator placed in front of the registration handler.
#[derive(Clone, Copy, Debug)]
pub struct ValidateRegister;

/// The registration validator wrapped around the service it guards.
pub struct ValidateRegisterMiddleware<S> {
    service: S,
}

impl ValidateRegister {
    /// Wraps `service`, which only ever sees bodies that passed validation.
    pub fn new_transform<S>(&self, service: S) -> (r: ValidateRegisterMiddleware<S>)
        ensures
            r.inner() == service,
    {
        ValidateRegisterMiddleware { service }
    }
}

impl<S> ValidateRegisterMiddleware<S> {
    /// The guarded service.
    pub closed spec fn inner(&self) -> S {
        self.service
    }

    /// The guarded service.
    pub fn service(&self) -> (r: &S)
        ensures
            *r == self.inner(),
    {
        &self.service
    }

    /// Decides a registration request: the validated value goes on to the
    /// service, exactly as decoded; any violation answers with 400 and the
    /// service is not reached.
    pub fn call(&self, body: RegisterBody) -> (r: Gate<RegisterRequest>)
        ensures
            r is Forward <==> register_problems(body).len() == 0,
            r matches Gate::Forward(req) ==> body.username == Some(req.username)
                && body.contact == Some(req.contact) && body.password == Some(req.password),
            r matches Gate::Reject(resp) ==> resp.status == BAD_REQUEST && resp.message@
                == summary(register_problems(body)),
    {
        match validate_register(body) {
            Ok(req) => Gate::Forward(req),
            Err(e) => e.response_gate(),
        }
    }
}

} // verus!
