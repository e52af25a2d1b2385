//! Ticket status and its case-insensitive textual form.

use vstd::prelude::*;
use vstd::string::StrSliceExecFns;
use vstd::string::StringExecFns;
use vstd::std_specs::convert::TryFromSpecImpl;

verus! {

/// Where a ticket stands in its lifecycle.
#[derive(Debug, PartialEq, Eq, Clone, Copy, Structural)]
pub enum Status {
    ToDo,
    InProgress,
    Done,
}

/// `c` with the ASCII capital letters mapped to their small counterparts.
pub open spec fn ascii_lower(c: char) -> char {
    if 'A' <= c && c <= 'Z' {
        ((c as u32) + 32) as char
    } else {
        c
    }
}

/// `text` with every ASCII capital letter replaced by its small counterpart.
pub open spec fn lowered(text: Seq<char>) -> Seq<char> {
    Seq::new(text.len(), |i: int| ascii_lower(text[i]))
}

/// The status that `text` spells, ignoring case, if it spells one.
pub open spec fn parse_status(text: Seq<char>) -> Option<Status> {
    let folded = lowered(text);
    if folded == "todo"@ {
        Some(Status::ToDo)
    } else if folded == "inprogress"@ {
        Some(Status::InProgress)
    } else if folded == "done"@ {
        Some(Status::Done)
    } else {
        None
    }
}

fn lower_char(c: char) -> (r: char)
    ensures
        r == ascii_lower(c),
{
    if 'A' <= c && c <= 'Z' {
        ((c as u8) + 32u8) as char
    } else {
        c
    }
}

/// Whether `text` and `word` are the same up to the case of ASCII letters.
fn same_ignoring_case(text: &str, word: &str) -> (r: bool)
    ensures
        r == (lowered(text@) == lowered(word@)),
{
    let n: usize = word.unicode_len();
    if text.unicode_len() != n {
        assert(lowered(text@).len() != lowered(word@).len());
        return false;
    }
    let mut i: usize = 0;
    while i < n
        invariant
            i <= n,
            n == word@.len(),
            n == text@.len(),
            forall|j: int| 0 <= j < i ==> ascii_lower(text@[j]) == ascii_lower(word@[j]),
        decreases n - i,
    {
        if lower_char(text.get_char(i)) != lower_char(word.get_char(i)) {
            assert(lowered(text@)[i as int] != lowered(word@)[i as int]);
            return false;
        }
        i += 1;
    }
    assert(lowered(text@) =~= lowered(word@));
    true
}

impl Status {
    /// The canonical spelling of the status.
    pub open spec fn name(self) -> Seq<char> {
        match self {
            Status::ToDo => "ToDo"@,
            Status::InProgress => "InProgress"@,
            Status::Done => "Done"@,
        }
    }

    /// Reads a status from its spelling in any mix of upper and lower case.
    pub fn parse(text: &str) -> (r: Option<Status>)
        ensures
            r == parse_status(text@),
    {
        proof {
            reveal_strlit("todo");
            reveal_strlit("inprogress");
            reveal_strlit("done");
            assert(lowered("todo"@) =~= "todo"@);
            assert(lowered("inprogress"@) =~= "inprogress"@);
            assert(lowered("done"@) =~= "done"@);
        }
        if same_ignoring_case(text, "todo") {
            Some(Status::ToDo)
        } else if same_ignoring_case(text, "inprogress") {
            Some(Status::InProgress)
        } else if same_ignoring_case(text, "done") {
            Some(Status::Done)
        } else {
            None
        }
    }

    /// The canonical spelling of the status.
    pub fn as_str(&self) -> (r: &'static str)
        ensures
            r@ == self.name(),
    {
        match self {
            Status::ToDo => "ToDo",
            Status::InProgress => "InProgress",
            Status::Done => "Done",
        }
    }

    /// Parsing the canonical spelling of a status gives that status back.
    pub proof fn lemma_parse_name(self)
        ensures
            parse_status(self.name()) == Some(self),
    {
        reveal_strlit("todo");
        reveal_strlit("inprogress");
        reveal_strlit("done");
        reveal_strlit("ToDo");
        reveal_strlit("InProgress");
        reveal_strlit("Done");
        assert(lowered("ToDo"@) =~= "todo"@);
        assert(lowered("InProgress"@) =~= "inprogress"@);
        assert(lowered("Done"@) =~= "done"@);
        assert("done"@[0] != "todo"@[0]);
    }
}

/// A text spells a status exactly if it is that status's canonical
/// spelling up to the case of ASCII letters; every other text spells none.
pub proof fn lemma_parse_iff_name(text: Seq<char>, status: Status)
    ensures
        parse_status(text) == Some(status) <==> lowered(text) == lowered(status.name()),
{
    reveal_strlit("todo");
    reveal_strlit("inprogress");
    reveal_strlit("done");
    reveal_strlit("ToDo");
    reveal_strlit("InProgress");
    reveal_strlit("Done");
    assert(lowered("ToDo"@) =~= "todo"@);
    assert(lowered("InProgress"@) =~= "inprogress"@);
    assert(lowered("Done"@) =~= "done"@);
    assert("done"@[0] != "todo"@[0]);
}

/// A text that spells no status. It carries the text that was refused.
#[derive(Debug)]
pub struct StatusError(String);

impl View for StatusError {
    type V = Seq<char>;

    /// The text that could not be read as a status.
    closed spec fn view(&self) -> Seq<char> {
        self.0@
    }
}

impl StatusError {
    /// The error that carries exactly the string `text`.
    pub closed spec fn carrying(text: String) -> StatusError {
        StatusError(text)
    }

    /// `carrying(text)` is viewed as `text`.
    pub proof fn lemma_carrying_view(text: String)
        ensures
            StatusError::carrying(text)@ == text@,
    {
    }

    /// The text that could not be read as a status.
    pub fn text(&self) -> (r: &str)
        ensures
            r@ == self@,
    {
        self.0.as_str()
    }

    /// The sentence that reports this error.
    pub open spec fn spec_message(self) -> Seq<char> {
        "Can't parse "@ + self@ + " as `Status`."@
    }

    /// The sentence that reports this error.
    pub fn message(&self) -> (r: String)
        ensures
            r@ == self.spec_message(),
    {
        let mut out = String::from_str("Can't parse ");
        out.append(self.0.as_str());
        out.append(" as `Status`.");
        out
    }
}

impl TryFromSpecImpl<String> for Status {
    open spec fn obeys_try_from_spec() -> bool {
        true
    }

    open spec fn try_from_spec(value: String) -> Result<Status, StatusError> {
        match parse_status(value@) {
            Some(status) => Ok(status),
            None => Err(StatusError::carrying(value)),
        }
    }
}

impl TryFrom<String> for Status {
    type Error = StatusError;

    /// Reads a status from its spelling, ignoring case; a text that spells
    /// none comes back inside the error.
    fn try_from(value: String) -> (r: Result<Status, StatusError>)
        ensures
            match r {
                Ok(status) => parse_status(value@) == Some(status),
                Err(e) => parse_status(value@) is None && e@ == value@,
            },
    {
        match Status::parse(value.as_str()) {
            Some(status) => Ok(status),
            None => Err(StatusError(value)),
        }
    }
}

impl<'a> TryFromSpecImpl<&'a str> for Status {
    /// The error owns a fresh copy of the text, which only its view pins
    /// down; the contract of `try_from` states the result over views.
    open spec fn obeys_try_from_spec() -> bool {
        false
    }

    open spec fn try_from_spec(value: &'a str) -> Result<Status, StatusError> {
        match parse_status(value@) {
            Some(status) => Ok(status),
            None => Err(arbitrary()),
        }
    }
}

impl<'a> TryFrom<&'a str> for Status {
    type Error = StatusError;

    /// Reads a status from its spelling, ignoring case; the error carries a
    /// copy of a text that spells none.
    fn try_from(value: &'a str) -> (r: Result<Status, StatusError>)
        ensures
            match r {
                Ok(status) => parse_status(value@) == Some(status),
                Err(e) => parse_status(value@) is None && e@ == value@,
            },
    {
        match Status::parse(value) {
            Some(status) => Ok(status),
            None => Err(StatusError(value.to_owned())),
        }
    }
}

} // verus!
