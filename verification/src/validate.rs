//! Validation of request bodies: minimum lengths in characters and the
//! e-mail address shape, with one message per failing field.

use vstd::prelude::*;
use vstd::string::{StrSliceExecFns, StringExecFns};
use validator::ValidateEmail;
use crate::models::{CreateTodoReq, LoginUserReq, RegisterUserReq};
use crate::text::join_with;

verus! {

/// One failing field and the message of its rule.
#[derive(Clone, Debug, PartialEq)]
pub struct FieldError {
    pub field: String,
    pub message: String,
}

impl FieldError {
    /// The field's name and message as character sequences.
    pub open spec fn pair(self) -> (Seq<char>, Seq<char>) {
        (self.field@, self.message@)
    }
}

/// The (field, message) pairs of a list of failures, in order.
pub open spec fn failure_pairs(errs: Seq<FieldError>) -> Seq<(Seq<char>, Seq<char>)> {
    errs.map_values(|e: FieldError| e.pair())
}

/// The failure of one rule, when it fails.
pub open spec fn failure_if(
    fails: bool,
    field: Seq<char>,
    message: Seq<char>,
) -> Seq<(Seq<char>, Seq<char>)> {
    if fails {
        seq![(field, message)]
    } else {
        seq![]
    }
}

/// The failures of a todo body, in field order: a title of at least one
/// character and a description of at least five.
pub open spec fn create_todo_failures(r: CreateTodoReq) -> Seq<(Seq<char>, Seq<char>)> {
    failure_if(r.title@.len() < 1, "title"@, "title must be filled and min 5 char"@)
        + failure_if(
        r.description@.len() < 5,
        "description"@,
        "description must be filled and min 5 char"@,
    )
}

/// Whether the address passes the e-mail rule (named result of the
/// outside check).
pub uninterp spec fn email_valid(s: Seq<char>) -> bool;

/// The failures of a registration body, in field order: name and username
/// of at least five characters, a password of at least eight, and an
/// address that passes the e-mail rule.
pub open spec fn register_user_failures(r: RegisterUserReq) -> Seq<(Seq<char>, Seq<char>)> {
    failure_if(r.name@.len() < 5, "name"@, "name must be filled and min 5 char"@)
        + failure_if(r.username@.len() < 5, "username"@, "username must be filled and min 5 char"@)
        + failure_if(r.password@.len() < 8, "password"@, "password mus be filled and min 8 char"@)
        + failure_if(!email_valid(r.email@), "email"@, "email must be filled"@)
}

/// The failures of a login body, in field order: a username of at least
/// five characters and a password of at least eight.
pub open spec fn login_user_failures(r: LoginUserReq) -> Seq<(Seq<char>, Seq<char>)> {
    failure_if(r.username@.len() < 5, "username"@, "username must be filled and min 5 char"@)
        + failure_if(r.password@.len() < 8, "password"@, "password must be filled and min 8 char"@)
}

/// What validating a body with these failures returns: success when there
/// are none, else the failures in field order.
pub open spec fn validation_result(
    res: Result<(), Vec<FieldError>>,
    failures: Seq<(Seq<char>, Seq<char>)>,
) -> bool {
    match res {
        Ok(()) => failures.len() == 0,
        Err(errs) => failures.len() > 0 && failure_pairs(errs@) == failures,
    }
}

/// Whether `s` passes the e-mail rule.
///
/// Calls `validator::ValidateEmail::validate_email`. The result is named
/// `email_valid`; the source shows that an address that is empty or holds
/// no '@' fails.
#[verifier::external_body]
fn is_valid_email(s: &String) -> (b: bool)
    ensures
        b == email_valid(s@),
        b ==> s@.len() > 0 && s@.contains('@'),
{
    s.validate_email()
}

/// Whether `s` has at least `min` characters.
fn has_min_chars(s: &String, min: usize) -> (b: bool)
    ensures
        b == (s@.len() >= min),
{
    s.as_str().unicode_len() >= min
}

/// Appends a failure to `errs`.
fn push_failure(errs: &mut Vec<FieldError>, field: &str, message: &str)
    ensures
        failure_pairs(final(errs)@) == failure_pairs(old(errs)@).push((field@, message@)),
{
    let e = FieldError { field: String::from_str(field), message: String::from_str(message) };
    errs.push(e);
    assert(failure_pairs(errs@) =~= failure_pairs(old(errs)@).push((field@, message@)));
}

/// Records the failure of one rule when it fails.
fn check_rule(errs: &mut Vec<FieldError>, ok: bool, field: &str, message: &str)
    ensures
        failure_pairs(final(errs)@) == failure_pairs(old(errs)@) + failure_if(
            !ok,
            field@,
            message@,
        ),
{
    if !ok {
        push_failure(errs, field, message);
        assert(failure_pairs(old(errs)@).push((field@, message@)) =~= failure_pairs(old(errs)@)
            + failure_if(!ok, field@, message@));
    } else {
        assert(failure_pairs(old(errs)@) =~= failure_pairs(old(errs)@) + failure_if(
            !ok,
            field@,
            message@,
        ));
    }
}

/// Turns collected failures into the validation result.
fn finish(errs: Vec<FieldError>) -> (res: Result<(), Vec<FieldError>>)
    ensures
        validation_result(res, failure_pairs(errs@)),
{
    if errs.len() == 0 {
        assert(failure_pairs(errs@).len() == 0);
        Ok(())
    } else {
        Err(errs)
    }
}

impl CreateTodoReq {
    /// Checks the rules of a todo body.
    pub fn validate(&self) -> (res: Result<(), Vec<FieldError>>)
        ensures
            validation_result(res, create_todo_failures(*self)),
            res is Ok <==> (self.title@.len() >= 1 && self.description@.len() >= 5),
    {
        let mut errs: Vec<FieldError> = Vec::new();
        assert(failure_pairs(errs@) =~= seq![]);
        let ok = has_min_chars(&self.title, 1);
        check_rule(&mut errs, ok, "title", "title must be filled and min 5 char");
        let ok = has_min_chars(&self.description, 5);
        check_rule(&mut errs, ok, "description", "description must be filled and min 5 char");
        assert(failure_pairs(errs@) =~= create_todo_failures(*self));
        finish(errs)
    }
}

impl RegisterUserReq {
    /// Checks the rules of a registration body.
    pub fn validate(&self) -> (res: Result<(), Vec<FieldError>>)
        ensures
            validation_result(res, register_user_failures(*self)),
            res is Ok <==> (self.name@.len() >= 5 && self.username@.len() >= 5
                && self.password@.len() >= 8 && email_valid(self.email@)),
    {
        let mut errs: Vec<FieldError> = Vec::new();
        assert(failure_pairs(errs@) =~= seq![]);
        let ok = has_min_chars(&self.name, 5);
        check_rule(&mut errs, ok, "name", "name must be filled and min 5 char");
        let ok = has_min_chars(&self.username, 5);
        check_rule(&mut errs, ok, "username", "username must be filled and min 5 char");
        let ok = has_min_chars(&self.password, 8);
        check_rule(&mut errs, ok, "password", "password mus be filled and min 8 char");
        let ok = is_valid_email(&self.email);
        check_rule(&mut errs, ok, "email", "email must be filled");
        assert(failure_pairs(errs@) =~= register_user_failures(*self));
        finish(errs)
    }
}

impl LoginUserReq {
    /// Checks the rules of a login body.
    pub fn validate(&self) -> (res: Result<(), Vec<FieldError>>)
        ensures
            validation_result(res, login_user_failures(*self)),
            res is Ok <==> (self.username@.len() >= 5 && self.password@.len() >= 8),
    {
        let mut errs: Vec<FieldError> = Vec::new();
        assert(failure_pairs(errs@) =~= seq![]);
        let ok = has_min_chars(&self.username, 5);
        check_rule(&mut errs, ok, "username", "username must be filled and min 5 char");
        let ok = has_min_chars(&self.password, 8);
        check_rule(&mut errs, ok, "password", "password must be filled and min 8 char");
        assert(failure_pairs(errs@) =~= login_user_failures(*self));
        finish(errs)
    }
}

/// A todo body fails no rule exactly when its title has at least one
/// character and its description at least five.
pub proof fn lemma_todo_body_rules(r: CreateTodoReq)
    ensures
        create_todo_failures(r).len() == 0 <==> (r.title@.len() >= 1 && r.description@.len() >= 5),
{
}

/// A registration body fails no rule exactly when its name and username
/// have at least five characters, its password at least eight, and its
/// address passes the e-mail rule.
pub proof fn lemma_register_body_rules(r: RegisterUserReq)
    ensures
        register_user_failures(r).len() == 0 <==> (r.name@.len() >= 5 && r.username@.len() >= 5
            && r.password@.len() >= 8 && email_valid(r.email@)),
{
}

/// A login body fails no rule exactly when its username has at least five
/// characters and its password at least eight.
pub proof fn lemma_login_body_rules(r: LoginUserReq)
    ensures
        login_user_failures(r).len() == 0 <==> (r.username@.len() >= 5 && r.password@.len() >= 8),
{
}

/// The messages of the failures joined by ", ", in order.
pub open spec fn failure_message(failures: Seq<(Seq<char>, Seq<char>)>) -> Seq<char> {
    join_with(failures.map_values(|p: (Seq<char>, Seq<char>)| p.1), ", "@)
}

/// The text of a failed validation: the message of each failing field,
/// joined by ", ".
pub fn error_message(errs: &Vec<FieldError>) -> (s: String)
    ensures
        s@ == failure_message(failure_pairs(errs@)),
{
    let ghost msgs = failure_pairs(errs@).map_values(|p: (Seq<char>, Seq<char>)| p.1);
    let mut s = String::new();
    let n = errs.len();
    let mut i: usize = 0;
    while i < n
        invariant
            n == errs@.len(),
            i <= n,
            msgs.len() == n,
            msgs == failure_pairs(errs@).map_values(|p: (Seq<char>, Seq<char>)| p.1),
            forall|j: int| 0 <= j < n ==> #[trigger] msgs[j] == errs@[j].message@,
            s@ == join_with(msgs.take(i as int), ", "@),
        decreases n - i,
    {
        if i != 0 {
            s.append(", ");
        }
        s.append(errs[i].message.as_str());
        assert(msgs.take(i + 1).drop_last() =~= msgs.take(i as int));
        assert(i == 0 ==> msgs.take(i + 1) =~= seq![msgs[0]]);
        i = i + 1;
    }
    assert(msgs.take(n as int) =~= msgs);
    s
}

} // verus!
