//! The hand-off of an account token to a tunnel process through a file.
//!
//! The process is told a path on its command line and never the token. The
//! token is written to the file at that path: the file is created, written
//! one or more times and closed, and nothing else touches the path in
//! between. Whoever watches the path can hold the events it sees against
//! that order with [`verify_handoff`].

use vstd::prelude::*;
use vstd::string::*;

verus! {

/// Something that happened to the watched path.
#[derive(Debug, Clone, Copy, PartialEq, Eq, Hash, Structural)]
pub enum PathEvent {
    /// The file was created.
    Create,
    /// The file was written to.
    Write,
    /// The file was closed after writing.
    Close,
    /// The file was opened once more.
    Open,
    /// The file was removed.
    Remove,
}

/// How far a hand-off has come.
#[derive(Debug, Clone, Copy, PartialEq, Eq, Hash, Structural)]
pub enum HandoffState {
    /// Nothing has happened yet.
    AwaitingCreate,
    /// The file exists and is empty.
    Created,
    /// At least one write has been seen.
    Writing,
    /// The file is closed: its content is final and may be read.
    Closed,
}

/// Why a sequence of events is no hand-off.
#[derive(Debug, Clone, Copy, PartialEq, Eq, Structural)]
pub enum HandoffViolation {
    /// The event at `index` must not follow the events before it.
    UnexpectedEvent { index: usize },
    /// Every event was in order, but the file was not closed at the end.
    Incomplete,
}

impl HandoffState {
    /// The state after `event`, or `None` where the event is out of order.
    pub open spec fn next(self, event: PathEvent) -> Option<HandoffState> {
        match (self, event) {
            (HandoffState::AwaitingCreate, PathEvent::Create) => Some(HandoffState::Created),
            (HandoffState::Created, PathEvent::Write) => Some(HandoffState::Writing),
            (HandoffState::Writing, PathEvent::Write) => Some(HandoffState::Writing),
            (HandoffState::Writing, PathEvent::Close) => Some(HandoffState::Closed),
            _ => None,
        }
    }

    /// Takes one event: the state that follows, or `None` where the event
    /// violates the order.
    pub fn advance(self, event: PathEvent) -> (result: Option<HandoffState>)
        ensures
            result == self.next(event),
    {
        match (self, event) {
            (HandoffState::AwaitingCreate, PathEvent::Create) => Some(HandoffState::Created),
            (HandoffState::Created, PathEvent::Write) => Some(HandoffState::Writing),
            (HandoffState::Writing, PathEvent::Write) => Some(HandoffState::Writing),
            (HandoffState::Writing, PathEvent::Close) => Some(HandoffState::Closed),
            _ => None,
        }
    }
}

/// `events` is what a hand-off in `state` has shown so far.
pub open spec fn reaches(events: Seq<PathEvent>, state: HandoffState) -> bool {
    match state {
        HandoffState::AwaitingCreate => events.len() == 0,
        HandoffState::Created => events.len() == 1 && events[0] == PathEvent::Create,
        HandoffState::Writing => {
            &&& events.len() >= 2
            &&& events[0] == PathEvent::Create
            &&& forall|j: int| 1 <= j < events.len() ==> events[j] == PathEvent::Write
        },
        HandoffState::Closed => {
            &&& events.len() >= 3
            &&& events[0] == PathEvent::Create
            &&& events[events.len() - 1] == PathEvent::Close
            &&& forall|j: int| 1 <= j < events.len() - 1 ==> events[j] == PathEvent::Write
        },
    }
}

/// A whole hand-off: one create, then one or more writes, then one close,
/// and nothing else.
pub open spec fn is_complete_handoff(events: Seq<PathEvent>) -> bool {
    reaches(events, HandoffState::Closed)
}

/// The beginning of a hand-off, or a whole one.
pub open spec fn is_handoff_prefix(events: Seq<PathEvent>) -> bool {
    ||| reaches(events, HandoffState::AwaitingCreate)
    ||| reaches(events, HandoffState::Created)
    ||| reaches(events, HandoffState::Writing)
    ||| reaches(events, HandoffState::Closed)
}

/// The events seen so far determine the state.
pub proof fn lemma_state_is_unique(events: Seq<PathEvent>, a: HandoffState, b: HandoffState)
    requires
        reaches(events, a),
        reaches(events, b),
    ensures
        a == b,
{
    if events.len() >= 2 {
        let last = events.len() - 1;
        assert(events[last] == PathEvent::Write || events[last] == PathEvent::Close);
    }
}

/// One more event in order leads to the next state; one out of order leaves
/// a sequence that is no beginning of a hand-off.
pub proof fn lemma_step_extends(events: Seq<PathEvent>, state: HandoffState, event: PathEvent)
    requires
        reaches(events, state),
    ensures
        match state.next(event) {
            Some(next) => reaches(events.push(event), next),
            None => !is_handoff_prefix(events.push(event)),
        },
{
    let longer = events.push(event);
    assert(longer[events.len() as int] == event);
    assert(forall|j: int| 0 <= j < events.len() ==> longer[j] == events[j]);
    if events.len() >= 1 {
        assert(longer[events.len() - 1] == events[events.len() - 1]);
        assert(longer[0] == events[0]);
    }
}

/// Whatever a hand-off begins with is itself the beginning of a hand-off.
pub proof fn lemma_prefix_closed(events: Seq<PathEvent>, k: int)
    requires
        is_handoff_prefix(events),
        0 <= k <= events.len(),
    ensures
        is_handoff_prefix(events.take(k)),
{
    let shorter = events.take(k);
    if k == events.len() {
        assert(shorter =~= events);
    } else if k == 0 {
        assert(reaches(shorter, HandoffState::AwaitingCreate));
    } else if k == 1 {
        assert(shorter[0] == events[0]);
        assert(reaches(shorter, HandoffState::Created));
    } else {
        assert(shorter[0] == events[0]);
        assert(forall|j: int| 1 <= j < k ==> shorter[j] == events[j]);
        assert(reaches(shorter, HandoffState::Writing));
    }
}

/// The event at `index` is the first one out of order: the events before it
/// are the beginning of a hand-off, and with it they no longer are.
pub open spec fn is_first_violation(events: Seq<PathEvent>, index: int) -> bool {
    &&& 0 <= index < events.len()
    &&& is_handoff_prefix(events.take(index))
    &&& !is_handoff_prefix(events.take(index + 1))
}

/// A sequence of events goes wrong at one place at most, and only where it
/// is no beginning of a hand-off.
pub proof fn lemma_first_violation_is_unique(events: Seq<PathEvent>, i: int, j: int)
    requires
        is_first_violation(events, i),
    ensures
        !is_handoff_prefix(events),
        is_first_violation(events, j) ==> i == j,
{
    if is_handoff_prefix(events) {
        lemma_prefix_closed(events, i + 1);
    }
    if is_first_violation(events, j) {
        if i < j {
            lemma_prefix_closed(events.take(j), i + 1);
            assert(events.take(j).take(i + 1) =~= events.take(i + 1));
        } else if j < i {
            lemma_prefix_closed(events.take(i), j + 1);
            assert(events.take(i).take(j + 1) =~= events.take(j + 1));
        }
    }
}

/// Holds the events seen on the path against the order of a hand-off:
/// create, then one or more writes, then close, and nothing else.
///
/// The result is `Ok` for a whole hand-off and for nothing else. Where an
/// event is out of order, the error names the first such event. Where all
/// events are in order but the close is missing, the hand-off is incomplete.
pub fn verify_handoff(events: &[PathEvent]) -> (result: Result<(), HandoffViolation>)
    ensures
        result is Ok <==> is_complete_handoff(events@),
        result == Err::<(), HandoffViolation>(HandoffViolation::Incomplete) <==> is_handoff_prefix(
            events@,
        ) && !is_complete_handoff(events@),
        forall|index: usize|
            result == Err::<(), HandoffViolation>(HandoffViolation::UnexpectedEvent { index })
                <==> is_first_violation(events@, index as int),
{
    let mut state = HandoffState::AwaitingCreate;
    let mut i: usize = 0;
    assert(events@.take(0) =~= Seq::<PathEvent>::empty());
    while i < events.len()
        invariant
            i <= events@.len(),
            reaches(events@.take(i as int), state),
        decreases events@.len() - i,
    {
        proof {
            lemma_step_extends(events@.take(i as int), state, events@[i as int]);
            assert(events@.take(i as int).push(events@[i as int]) =~= events@.take(i + 1));
        }
        match state.advance(events[i]) {
            Some(next) => {
                state = next;
            },
            None => {
                proof {
                    assert(is_first_violation(events@, i as int));
                    assert forall|index: usize| is_first_violation(events@, index as int) implies index
                        == i by {
                        lemma_first_violation_is_unique(events@, i as int, index as int);
                    }
                    lemma_first_violation_is_unique(events@, i as int, i as int);
                }
                return Err(HandoffViolation::UnexpectedEvent { index: i });
            },
        }
        i += 1;
    }
    proof {
        assert(events@.take(i as int) =~= events@);
        if is_complete_handoff(events@) {
            lemma_state_is_unique(events@, state, HandoffState::Closed);
        }
        assert forall|index: usize| !is_first_violation(events@, index as int) by {
            if is_first_violation(events@, index as int) {
                lemma_first_violation_is_unique(events@, index as int, index as int);
            }
        }
    }
    match state {
        HandoffState::Closed => Ok(()),
        _ => Err(HandoffViolation::Incomplete),
    }
}

/// The second line of the credentials file. The tunnel process wants two
/// lines; only the first one carries anything.
pub open spec fn placeholder_line() -> Seq<char> {
    seq!['-']
}

/// What the credentials file holds for an account token: the token and the
/// placeholder, each ended by a newline.
pub open spec fn credentials_text(account_token: Seq<char>) -> Seq<char> {
    account_token + seq!['\n'] + placeholder_line() + seq!['\n']
}

/// Whether a character is white space, as Unicode defines it.
pub open spec fn is_whitespace(c: char) -> bool {
    let code = c as u32;
    ||| 0x09 <= code <= 0x0d
    ||| code == 0x20
    ||| code == 0x85
    ||| code == 0xa0
    ||| code == 0x1680
    ||| 0x2000 <= code <= 0x200a
    ||| code == 0x2028
    ||| code == 0x2029
    ||| code == 0x202f
    ||| code == 0x205f
    ||| code == 0x3000
}

/// The text up to the first newline, or all of it where there is none.
pub open spec fn first_line(text: Seq<char>) -> Seq<char>
    decreases text.len(),
{
    if text.len() == 0 || text[0] == '\n' {
        Seq::empty()
    } else {
        seq![text[0]] + first_line(text.drop_first())
    }
}

/// The text without the white space at its end.
pub open spec fn trim_end(text: Seq<char>) -> Seq<char>
    decreases text.len(),
{
    if text.len() > 0 && is_whitespace(text.last()) {
        trim_end(text.drop_last())
    } else {
        text
    }
}

/// The account token that a credentials file hands over: its first line
/// without white space at the end.
pub open spec fn account_token_of(content: Seq<char>) -> Seq<char> {
    trim_end(first_line(content))
}

/// The first line ends at the first newline.
pub proof fn lemma_first_line_is_prefix(text: Seq<char>, n: int)
    requires
        0 <= n <= text.len(),
        forall|j: int| 0 <= j < n ==> text[j] != '\n',
        n == text.len() || text[n] == '\n',
    ensures
        first_line(text) == text.take(n),
    decreases n,
{
    if n == 0 {
        assert(text.take(0) =~= Seq::<char>::empty());
    } else {
        let rest = text.drop_first();
        assert(forall|j: int| 0 <= j < n - 1 ==> rest[j] == text[j + 1]);
        lemma_first_line_is_prefix(rest, n - 1);
        assert(seq![text[0]] + rest.take(n - 1) =~= text.take(n));
    }
}

/// What is written for a token is read back as that token, for every token
/// that fits on a line: one without a newline in it and without white space
/// at its end.
pub proof fn lemma_token_round_trip(account_token: Seq<char>)
    requires
        forall|j: int| 0 <= j < account_token.len() ==> account_token[j] != '\n',
        account_token.len() > 0 ==> !is_whitespace(account_token.last()),
    ensures
        account_token_of(credentials_text(account_token)) == account_token,
{
    let text = credentials_text(account_token);
    let n = account_token.len() as int;
    assert(forall|j: int| 0 <= j < n ==> text[j] == account_token[j]);
    assert(text[n] == '\n');
    lemma_first_line_is_prefix(text, n);
    assert(text.take(n) =~= account_token);
}

fn char_is_whitespace(c: char) -> (result: bool)
    ensures
        result == is_whitespace(c),
{
    let code: u32 = c as u32;
    (0x09 <= code && code <= 0x0d) || code == 0x20 || code == 0x85 || code == 0xa0 || code
        == 0x1680 || (0x2000 <= code && code <= 0x200a) || code == 0x2028 || code == 0x2029
        || code == 0x202f || code == 0x205f || code == 0x3000
}

/// The content of the credentials file for an account token: two lines,
/// the token and a placeholder.
pub fn credentials_file_content(account_token: &str) -> (result: String)
    ensures
        result@ == credentials_text(account_token@),
{
    proof {
        reveal_strlit("\n");
        reveal_strlit("-");
    }
    let mut result = String::from_str(account_token);
    result.append("\n");
    result.append("-");
    result.append("\n");
    assert("\n"@ =~= seq!['\n']);
    assert("-"@ =~= seq!['-']);
    result
}

/// Reads the account token out of the content of a credentials file: the
/// first line, without the white space at its end.
pub fn read_account_token(content: &str) -> (result: String)
    ensures
        result@ == account_token_of(content@),
{
    let len = content.unicode_len();
    let mut end: usize = 0;
    while end < len && content.get_char(end) != '\n'
        invariant
            end <= len,
            len == content@.len(),
            forall|j: int| 0 <= j < end ==> content@[j] != '\n',
        decreases len - end,
    {
        end += 1;
    }
    proof {
        lemma_first_line_is_prefix(content@, end as int);
    }
    let mut stop = end;
    while stop > 0 && char_is_whitespace(content.get_char(stop - 1))
        invariant
            stop <= end <= len,
            len == content@.len(),
            trim_end(content@.take(end as int)) == trim_end(content@.take(stop as int)),
        decreases stop,
    {
        proof {
            let line = content@.take(stop as int);
            assert(line.last() == content@[stop - 1]);
            assert(line.drop_last() =~= content@.take(stop - 1));
        }
        stop -= 1;
    }
    proof {
        let line = content@.take(stop as int);
        if stop > 0 {
            assert(line.last() == content@[stop - 1]);
        }
        assert(trim_end(line) == line);
    }
    let token = content.substring_char(0, stop);
    assert(token@ =~= content@.take(stop as int));
    String::from_str(token)
}

/// The arguments that tell the tunnel process where its credentials are:
/// the flag and the path of the credentials file. The token itself is never
/// an argument.
pub fn auth_user_pass_arguments(credentials_path: &str) -> (result: Vec<String>)
    ensures
        result@.len() == 2,
        result@[0]@ == "--auth-user-pass"@,
        result@[1]@ == credentials_path@,
{
    let mut result = Vec::new();
    result.push(String::from_str("--auth-user-pass"));
    result.push(String::from_str(credentials_path));
    result
}

} // verus!
