//! Codecs for the two closed vocabularies of the service: task status and
//! issue kind. Each decodes from the numeric selector a user types and from
//! the wire token the service sends, and encodes to the numeric wire value.

use vstd::prelude::*;
use vstd::string::StringExecFns;
use crate::text::str_eq;

verus! {

/// The kind of a task: a top-level item or a sub-item of another task.
#[derive(Clone, Copy, Debug, PartialEq, Eq, Structural)]
pub enum Issue {
    EPIC,
    SUBTASK,
}

/// The closed status vocabulary, ordered by its stable wire rank 1..=7.
#[allow(non_camel_case_types)]
#[derive(Clone, Copy, Debug, PartialEq, Eq, Structural)]
pub enum Status {
    DRAFT,
    READY,
    TO_DO,
    IN_PROGRESS,
    REVIEW,
    COMPLETE,
    ARCHIVE,
}

/// A decode failure of either codec. Unknown inputs are always an error,
/// never silently defaulted.
#[derive(Clone, Copy, Debug, PartialEq, Eq, Structural)]
pub enum CodecError {
    InvalidIssue,
    InvalidStatus,
}

pub open spec fn issue_rank(i: Issue) -> int {
    match i {
        Issue::EPIC => 1,
        Issue::SUBTASK => 2,
    }
}

pub open spec fn issue_selector(i: Issue) -> Seq<char> {
    match i {
        Issue::EPIC => "1"@,
        Issue::SUBTASK => "2"@,
    }
}

pub open spec fn issue_wire_token(i: Issue) -> Seq<char> {
    match i {
        Issue::EPIC => "EPIC"@,
        Issue::SUBTASK => "SUBTASK"@,
    }
}

pub open spec fn issue_of_selector(s: Seq<char>) -> Option<Issue> {
    if s == "1"@ {
        Some(Issue::EPIC)
    } else if s == "2"@ {
        Some(Issue::SUBTASK)
    } else {
        None
    }
}

pub open spec fn issue_of_wire(s: Seq<char>) -> Option<Issue> {
    if s == "EPIC"@ {
        Some(Issue::EPIC)
    } else if s == "SUBTASK"@ {
        Some(Issue::SUBTASK)
    } else {
        None
    }
}

impl Issue {
    /// The numeric wire value of this kind.
    pub fn to_value(&self) -> (r: i32)
        ensures
            r == issue_rank(*self),
    {
        match *self {
            Issue::EPIC => 1,
            Issue::SUBTASK => 2,
        }
    }

    /// Decodes the numeric selector a user types ("1" or "2").
    pub fn from_str(s: &str) -> (r: Result<Issue, CodecError>)
        ensures
            r == match issue_of_selector(s@) {
                Some(i) => Ok::<Issue, CodecError>(i),
                None => Err(CodecError::InvalidIssue),
            },
    {
        if str_eq(s, "1") {
            Ok(Issue::EPIC)
        } else if str_eq(s, "2") {
            Ok(Issue::SUBTASK)
        } else {
            Err(CodecError::InvalidIssue)
        }
    }

    /// Decodes the wire token the service returns ("EPIC" or "SUBTASK").
    pub fn from_api_str(s: &str) -> (r: Result<Issue, CodecError>)
        ensures
            r == match issue_of_wire(s@) {
                Some(i) => Ok::<Issue, CodecError>(i),
                None => Err(CodecError::InvalidIssue),
            },
    {
        if str_eq(s, "EPIC") {
            Ok(Issue::EPIC)
        } else if str_eq(s, "SUBTASK") {
            Ok(Issue::SUBTASK)
        } else {
            Err(CodecError::InvalidIssue)
        }
    }
}

pub open spec fn status_rank(s: Status) -> int {
    match s {
        Status::DRAFT => 1,
        Status::READY => 2,
        Status::TO_DO => 3,
        Status::IN_PROGRESS => 4,
        Status::REVIEW => 5,
        Status::COMPLETE => 6,
        Status::ARCHIVE => 7,
    }
}

pub open spec fn status_selector(s: Status) -> Seq<char> {
    match s {
        Status::DRAFT => "1"@,
        Status::READY => "2"@,
        Status::TO_DO => "3"@,
        Status::IN_PROGRESS => "4"@,
        Status::REVIEW => "5"@,
        Status::COMPLETE => "6"@,
        Status::ARCHIVE => "7"@,
    }
}

pub open spec fn status_wire_token(s: Status) -> Seq<char> {
    match s {
        Status::DRAFT => "DRAFT"@,
        Status::READY => "READY"@,
        Status::TO_DO => "TO_DO"@,
        Status::IN_PROGRESS => "IN_PROGRESS"@,
        Status::REVIEW => "REVIEW"@,
        Status::COMPLETE => "COMPLETE"@,
        Status::ARCHIVE => "ARCHIVE"@,
    }
}

/// The display label equals the wire token: a stable, uncolored string.
pub open spec fn status_label(s: Status) -> Seq<char> {
    status_wire_token(s)
}

pub open spec fn status_of_selector(s: Seq<char>) -> Option<Status> {
    if s == "1"@ {
        Some(Status::DRAFT)
    } else if s == "2"@ {
        Some(Status::READY)
    } else if s == "3"@ {
        Some(Status::TO_DO)
    } else if s == "4"@ {
        Some(Status::IN_PROGRESS)
    } else if s == "5"@ {
        Some(Status::REVIEW)
    } else if s == "6"@ {
        Some(Status::COMPLETE)
    } else if s == "7"@ {
        Some(Status::ARCHIVE)
    } else {
        None
    }
}

pub open spec fn status_of_wire(s: Seq<char>) -> Option<Status> {
    if s == "DRAFT"@ {
        Some(Status::DRAFT)
    } else if s == "READY"@ {
        Some(Status::READY)
    } else if s == "TO_DO"@ {
        Some(Status::TO_DO)
    } else if s == "IN_PROGRESS"@ {
        Some(Status::IN_PROGRESS)
    } else if s == "REVIEW"@ {
        Some(Status::REVIEW)
    } else if s == "COMPLETE"@ {
        Some(Status::COMPLETE)
    } else if s == "ARCHIVE"@ {
        Some(Status::ARCHIVE)
    } else {
        None
    }
}

impl Status {
    /// The numeric wire value of this status: its rank 1..=7.
    pub fn to_value(&self) -> (r: i32)
        ensures
            r == status_rank(*self),
    {
        match *self {
            Status::DRAFT => 1,
            Status::READY => 2,
            Status::TO_DO => 3,
            Status::IN_PROGRESS => 4,
            Status::REVIEW => 5,
            Status::COMPLETE => 6,
            Status::ARCHIVE => 7,
        }
    }

    /// Decodes the numeric selector a user types ("1" through "7").
    pub fn from_str(s: &str) -> (r: Result<Status, CodecError>)
        ensures
            r == match status_of_selector(s@) {
                Some(st) => Ok::<Status, CodecError>(st),
                None => Err(CodecError::InvalidStatus),
            },
    {
        if str_eq(s, "1") {
            Ok(Status::DRAFT)
        } else if str_eq(s, "2") {
            Ok(Status::READY)
        } else if str_eq(s, "3") {
            Ok(Status::TO_DO)
        } else if str_eq(s, "4") {
            Ok(Status::IN_PROGRESS)
        } else if str_eq(s, "5") {
            Ok(Status::REVIEW)
        } else if str_eq(s, "6") {
            Ok(Status::COMPLETE)
        } else if str_eq(s, "7") {
            Ok(Status::ARCHIVE)
        } else {
            Err(CodecError::InvalidStatus)
        }
    }

    /// Decodes the exact upper-case wire token the service returns;
    /// case-sensitive, with no fuzzy matching.
    pub fn from_api_str(s: &str) -> (r: Result<Status, CodecError>)
        ensures
            r == match status_of_wire(s@) {
                Some(st) => Ok::<Status, CodecError>(st),
                None => Err(CodecError::InvalidStatus),
            },
    {
        if str_eq(s, "DRAFT") {
            Ok(Status::DRAFT)
        } else if str_eq(s, "READY") {
            Ok(Status::READY)
        } else if str_eq(s, "TO_DO") {
            Ok(Status::TO_DO)
        } else if str_eq(s, "IN_PROGRESS") {
            Ok(Status::IN_PROGRESS)
        } else if str_eq(s, "REVIEW") {
            Ok(Status::REVIEW)
        } else if str_eq(s, "COMPLETE") {
            Ok(Status::COMPLETE)
        } else if str_eq(s, "ARCHIVE") {
            Ok(Status::ARCHIVE)
        } else {
            Err(CodecError::InvalidStatus)
        }
    }

    /// The stable display label of this status, without terminal coloring.
    pub fn display(&self) -> (r: String)
        ensures
            r@ == status_label(*self),
    {
        match *self {
            Status::DRAFT => String::from_str("DRAFT"),
            Status::READY => String::from_str("READY"),
            Status::TO_DO => String::from_str("TO_DO"),
            Status::IN_PROGRESS => String::from_str("IN_PROGRESS"),
            Status::REVIEW => String::from_str("REVIEW"),
            Status::COMPLETE => String::from_str("COMPLETE"),
            Status::ARCHIVE => String::from_str("ARCHIVE"),
        }
    }
}

proof fn reveal_selector_literals()
    ensures
        "1"@ =~= seq!['1'],
        "2"@ =~= seq!['2'],
        "3"@ =~= seq!['3'],
        "4"@ =~= seq!['4'],
        "5"@ =~= seq!['5'],
        "6"@ =~= seq!['6'],
        "7"@ =~= seq!['7'],
        "1"@[0] == '1',
        "2"@[0] == '2',
        "3"@[0] == '3',
        "4"@[0] == '4',
        "5"@[0] == '5',
        "6"@[0] == '6',
        "7"@[0] == '7',
{
    reveal_strlit("1");
    reveal_strlit("2");
    reveal_strlit("3");
    reveal_strlit("4");
    reveal_strlit("5");
    reveal_strlit("6");
    reveal_strlit("7");
}

proof fn reveal_status_wire_literals()
    ensures
        "DRAFT"@.len() == 5,
        "READY"@.len() == 5,
        "TO_DO"@.len() == 5,
        "IN_PROGRESS"@.len() == 11,
        "REVIEW"@.len() == 6,
        "COMPLETE"@.len() == 8,
        "ARCHIVE"@.len() == 7,
        "DRAFT"@[0] == 'D',
        "READY"@[0] == 'R',
        "TO_DO"@[0] == 'T',
        "REVIEW"@[0] == 'R',
        "REVIEW"@[1] == 'E',
        "READY"@[1] == 'E',
        "COMPLETE"@[0] == 'C',
        "ARCHIVE"@[0] == 'A',
{
    reveal_strlit("DRAFT");
    reveal_strlit("READY");
    reveal_strlit("TO_DO");
    reveal_strlit("IN_PROGRESS");
    reveal_strlit("REVIEW");
    reveal_strlit("COMPLETE");
    reveal_strlit("ARCHIVE");
}

/// Law: decoding the selector that carries a status's rank yields exactly
/// that status back, and the selector is the single digit of the rank.
pub proof fn lemma_status_selector_round_trip(s: Status)
    ensures
        status_of_selector(status_selector(s)) == Some(s),
        status_selector(s) =~= seq![crate::digits::digit_char(status_rank(s))],
{
    reveal_selector_literals();
}

/// Law: decoding a wire token and re-encoding gives back the token's
/// documented rank; every wire token round-trips through the codec.
pub proof fn lemma_status_wire_round_trip(s: Status)
    ensures
        status_of_wire(status_wire_token(s)) == Some(s),
{
    reveal_status_wire_literals();
}

/// Law: the selector codec accepts exactly the seven selector strings;
/// every other input is rejected, never silently defaulted.
pub proof fn lemma_status_selector_exact(s: Seq<char>)
    ensures
        status_of_selector(s) is Some <==> exists|st: Status| status_selector(st) == s,
{
    if status_of_selector(s) is Some {
        if s == "1"@ {
            assert(status_selector(Status::DRAFT) == s);
        } else if s == "2"@ {
            assert(status_selector(Status::READY) == s);
        } else if s == "3"@ {
            assert(status_selector(Status::TO_DO) == s);
        } else if s == "4"@ {
            assert(status_selector(Status::IN_PROGRESS) == s);
        } else if s == "5"@ {
            assert(status_selector(Status::REVIEW) == s);
        } else if s == "6"@ {
            assert(status_selector(Status::COMPLETE) == s);
        } else {
            assert(status_selector(Status::ARCHIVE) == s);
        }
    }
}

/// Law: the wire codec accepts exactly the seven wire tokens.
pub proof fn lemma_status_wire_exact(s: Seq<char>)
    ensures
        status_of_wire(s) is Some <==> exists|st: Status| status_wire_token(st) == s,
{
    if status_of_wire(s) is Some {
        if s == "DRAFT"@ {
            assert(status_wire_token(Status::DRAFT) == s);
        } else if s == "READY"@ {
            assert(status_wire_token(Status::READY) == s);
        } else if s == "TO_DO"@ {
            assert(status_wire_token(Status::TO_DO) == s);
        } else if s == "IN_PROGRESS"@ {
            assert(status_wire_token(Status::IN_PROGRESS) == s);
        } else if s == "REVIEW"@ {
            assert(status_wire_token(Status::REVIEW) == s);
        } else if s == "COMPLETE"@ {
            assert(status_wire_token(Status::COMPLETE) == s);
        } else {
            assert(status_wire_token(Status::ARCHIVE) == s);
        }
    }
}

/// Law: the issue selector codec decodes each kind's selector to that kind,
/// and accepts nothing else.
pub proof fn lemma_issue_selector_round_trip(i: Issue)
    ensures
        issue_of_selector(issue_selector(i)) == Some(i),
        issue_selector(i) =~= seq![crate::digits::digit_char(issue_rank(i))],
{
    reveal_selector_literals();
}

/// Law: the issue wire codec decodes each kind's token to that kind.
pub proof fn lemma_issue_wire_round_trip(i: Issue)
    ensures
        issue_of_wire(issue_wire_token(i)) == Some(i),
{
    reveal_strlit("EPIC");
    reveal_strlit("SUBTASK");
    assert("EPIC"@.len() == 4);
    assert("SUBTASK"@.len() == 7);
}

/// Law: the issue selector codec accepts exactly the two selector strings.
pub proof fn lemma_issue_selector_exact(s: Seq<char>)
    ensures
        issue_of_selector(s) is Some <==> exists|i: Issue| issue_selector(i) == s,
{
    if issue_of_selector(s) is Some {
        if s == "1"@ {
            assert(issue_selector(Issue::EPIC) == s);
        } else {
            assert(issue_selector(Issue::SUBTASK) == s);
        }
    }
}

/// Law: the issue wire codec accepts exactly the two wire tokens.
pub proof fn lemma_issue_wire_exact(s: Seq<char>)
    ensures
        issue_of_wire(s) is Some <==> exists|i: Issue| issue_wire_token(i) == s,
{
    if issue_of_wire(s) is Some {
        if s == "EPIC"@ {
            assert(issue_wire_token(Issue::EPIC) == s);
        } else {
            assert(issue_wire_token(Issue::SUBTASK) == s);
        }
    }
}

} // verus!
