use vstd::prelude::*;
use vstd::string::StrSliceExecFns;
use vstd::string::StringExecFns;

verus! {

/// Seconds allowed for opening the socket to the printer.
pub const CONNECT_TIMEOUT_SECS: u64 = 5;

/// The transport prefix of a network printer's connection descriptor.
pub open spec fn tcp_prefix() -> Seq<char> {
    seq!['t', 'c', 'p', ':']
}

/// `s` begins with `tcp:`.
pub open spec fn has_tcp_prefix(s: Seq<char>) -> bool {
    s.len() >= 4 && s.subrange(0, 4) == tcp_prefix()
}

/// `s` with every leading `tcp:` removed, however many times it repeats.
pub open spec fn strip_tcp(s: Seq<char>) -> Seq<char>
    decreases s.len(),
{
    if has_tcp_prefix(s) {
        strip_tcp(s.subrange(4, s.len() as int))
    } else {
        s
    }
}

/// Whether `s` holds `tcp:` at character position `i`.
fn tcp_prefix_at(s: &str, n: usize, i: usize) -> (r: bool)
    requires
        n == s@.len(),
        i <= n,
    ensures
        r == has_tcp_prefix(s@.subrange(i as int, n as int)),
{
    let sub = Ghost(s@.subrange(i as int, n as int));
    if n - i < 4 {
        return false;
    }
    let r = s.get_char(i) == 't' && s.get_char(i + 1) == 'c' && s.get_char(i + 2) == 'p'
        && s.get_char(i + 3) == ':';
    assert(r ==> sub@.subrange(0, 4) =~= tcp_prefix());
    assert(sub@.subrange(0, 4) == tcp_prefix() ==> {
        &&& sub@.subrange(0, 4)[0] == 't'
        &&& sub@.subrange(0, 4)[1] == 'c'
        &&& sub@.subrange(0, 4)[2] == 'p'
        &&& sub@.subrange(0, 4)[3] == ':'
    });
    r
}

/// The socket address of a network printer's descriptor: `Some` exactly when
/// `connection` begins with `tcp:`, holding the rest once every leading `tcp:`
/// is removed.
pub fn tcp_address(connection: &str) -> (r: Option<String>)
    ensures
        r.is_some() == has_tcp_prefix(connection@),
        r.is_some() ==> r.unwrap()@ == strip_tcp(connection@),
{
    let n = connection.unicode_len();
    proof {
        assert(connection@.subrange(0, n as int) =~= connection@);
    }
    if !tcp_prefix_at(connection, n, 0) {
        return None;
    }
    let mut i: usize = 0;
    while tcp_prefix_at(connection, n, i)
        invariant
            n == connection@.len(),
            i <= n,
            strip_tcp(connection@) == strip_tcp(connection@.subrange(i as int, n as int)),
        decreases n - i,
    {
        proof {
            let rest = connection@.subrange(i as int, n as int);
            assert(rest.subrange(4, rest.len() as int) =~= connection@.subrange(
                i + 4,
                n as int,
            ));
        }
        i = i + 4;
    }
    let rest = connection.substring_char(i, n);
    Some(String::from_str(rest))
}

/// Which step of a print job failed.
#[derive(Clone, Copy, Debug, PartialEq, Eq, Structural)]
pub enum FailureKind {
    /// The descriptor names a transport other than TCP.
    UnsupportedConnection,
    /// The text after `tcp:` is not a socket address.
    InvalidAddress,
    /// The socket could not be opened in time.
    Connect,
    /// The payload could not be written.
    Write,
    /// The socket could not be flushed.
    Flush,
}

/// A failed print job: the step that failed and the text that describes why
/// (the descriptor itself for an unsupported transport, else the system's
/// error text).
#[derive(Debug, PartialEq, Eq)]
pub struct PrintError {
    pub kind: FailureKind,
    pub detail: String,
}

/// The fixed lead of the message for each kind of failure.
pub open spec fn message_lead(kind: FailureKind) -> Seq<char> {
    match kind {
        FailureKind::UnsupportedConnection => "Unsupported connection type: "@,
        FailureKind::InvalidAddress => "Invalid address: "@,
        FailureKind::Connect => "Failed to connect: "@,
        FailureKind::Write => "Failed to write: "@,
        FailureKind::Flush => "Failed to flush: "@,
    }
}

impl PrintError {
    /// The human-readable message handed back to the caller.
    pub open spec fn message_spec(&self) -> Seq<char> {
        message_lead(self.kind) + self.detail@
    }

    pub fn message(&self) -> (r: String)
        ensures
            r@ == self.message_spec(),
    {
        let lead = match self.kind {
            FailureKind::UnsupportedConnection => "Unsupported connection type: ",
            FailureKind::InvalidAddress => "Invalid address: ",
            FailureKind::Connect => "Failed to connect: ",
            FailureKind::Write => "Failed to write: ",
            FailureKind::Flush => "Failed to flush: ",
        };
        String::from_str(lead).concat(self.detail.as_str())
    }
}

/// Where a print job stands.
#[derive(Clone, Copy, Debug, PartialEq, Eq, Structural)]
pub enum Stage {
    /// Waiting for the address to be parsed.
    Resolve,
    /// Waiting for the socket to open.
    Connect,
    /// Waiting for the payload to be written.
    Write,
    /// Waiting for the socket to be flushed.
    Flush,
    /// Nothing more to do.
    Finished,
}

/// What the caller performs next for a print job.
#[derive(Debug)]
pub enum Action {
    /// Parse this text as a socket address.
    ParseAddress(String),
    /// Open a socket to the parsed address, giving up after this many seconds.
    Connect { timeout_secs: u64 },
    /// Write all of these bytes to the socket, as they are.
    Write(Vec<u8>),
    /// Flush the socket.
    Flush,
    /// The job succeeded: close the socket.
    Done,
    /// The job failed.
    Fail(PrintError),
}

/// The abstract content of an [`Action`].
pub enum Step {
    ParseAddress(Seq<char>),
    Connect(u64),
    Write(Seq<u8>),
    Flush,
    Done,
    Fail(FailureKind, Seq<char>),
}

impl View for Action {
    type V = Step;

    open spec fn view(&self) -> Step {
        match self {
            Action::ParseAddress(a) => Step::ParseAddress(a@),
            Action::Connect { timeout_secs } => Step::Connect(*timeout_secs),
            Action::Write(b) => Step::Write(b@),
            Action::Flush => Step::Flush,
            Action::Done => Step::Done,
            Action::Fail(e) => Step::Fail(e.kind, e.detail@),
        }
    }
}

impl Step {
    /// The step makes the caller touch the network.
    pub open spec fn is_io(self) -> bool {
        match self {
            Step::Connect(_) | Step::Write(_) | Step::Flush => true,
            _ => false,
        }
    }
}

/// How the last action went: it succeeded, or it failed with the system's
/// error text.
#[derive(Debug)]
pub enum Outcome {
    Succeeded,
    Failed(String),
}

impl View for Outcome {
    type V = Option<Seq<char>>;

    open spec fn view(&self) -> Option<Seq<char>> {
        match self {
            Outcome::Succeeded => None,
            Outcome::Failed(e) => Some(e@),
        }
    }
}

/// The stage and first step of a job for `connection`.
pub open spec fn start_spec(connection: Seq<char>) -> (Stage, Step) {
    if has_tcp_prefix(connection) {
        (Stage::Resolve, Step::ParseAddress(strip_tcp(connection)))
    } else {
        (Stage::Finished, Step::Fail(FailureKind::UnsupportedConnection, connection))
    }
}

/// The kind of failure reported when the action of `stage` fails.
pub open spec fn failure_of(stage: Stage) -> FailureKind {
    match stage {
        Stage::Resolve => FailureKind::InvalidAddress,
        Stage::Connect => FailureKind::Connect,
        Stage::Write => FailureKind::Write,
        _ => FailureKind::Flush,
    }
}

/// The next stage and step of a job at `stage`, with payload `data`, once the
/// action of that stage has had `outcome`.
pub open spec fn step_spec(stage: Stage, data: Seq<u8>, outcome: Option<Seq<char>>) -> (
    Stage,
    Step,
) {
    match outcome {
        Some(e) => (Stage::Finished, Step::Fail(failure_of(stage), e)),
        None => match stage {
            Stage::Resolve => (Stage::Connect, Step::Connect(CONNECT_TIMEOUT_SECS)),
            Stage::Connect => (Stage::Write, Step::Write(data)),
            Stage::Write => (Stage::Flush, Step::Flush),
            _ => (Stage::Finished, Step::Done),
        },
    }
}

/// One raw print job: a connection descriptor and the bytes to send to it.
pub struct PrintJob {
    pub connection: String,
    pub data: Vec<u8>,
    pub stage: Stage,
}

impl PrintJob {
    /// Starts a job. A descriptor that does not begin with `tcp:` fails at
    /// once; otherwise the caller first parses the address.
    pub fn new(connection: String, data: Vec<u8>) -> (r: (PrintJob, Action))
        ensures
            r.0.connection@ == connection@,
            r.0.data@ == data@,
            (r.0.stage, r.1@) == start_spec(connection@),
    {
        match tcp_address(connection.as_str()) {
            Some(address) => (PrintJob { connection, data, stage: Stage::Resolve }, Action::ParseAddress(address)),
            None => {
                let detail = connection.clone();
                (
                    PrintJob { connection, data, stage: Stage::Finished },
                    Action::Fail(PrintError { kind: FailureKind::UnsupportedConnection, detail }),
                )
            },
        }
    }

    /// Moves the job on once the last action handed out has had `outcome`.
    pub fn advance(&mut self, outcome: Outcome) -> (r: Action)
        requires
            old(self).stage != Stage::Finished,
        ensures
            final(self).connection@ == old(self).connection@,
            final(self).data@ == old(self).data@,
            (final(self).stage, r@) == step_spec(old(self).stage, old(self).data@, outcome@),
    {
        match outcome {
            Outcome::Failed(detail) => {
                let kind = match self.stage {
                    Stage::Resolve => FailureKind::InvalidAddress,
                    Stage::Connect => FailureKind::Connect,
                    Stage::Write => FailureKind::Write,
                    _ => FailureKind::Flush,
                };
                self.stage = Stage::Finished;
                Action::Fail(PrintError { kind, detail })
            },
            Outcome::Succeeded => match self.stage {
                Stage::Resolve => {
                    self.stage = Stage::Connect;
                    Action::Connect { timeout_secs: CONNECT_TIMEOUT_SECS }
                },
                Stage::Connect => {
                    self.stage = Stage::Write;
                    let payload = self.data.clone();
                    proof {
                        assert(payload@ =~= self.data@);
                    }
                    Action::Write(payload)
                },
                Stage::Write => {
                    self.stage = Stage::Flush;
                    Action::Flush
                },
                _ => {
                    self.stage = Stage::Finished;
                    Action::Done
                },
            },
        }
    }

    /// The job has nothing more to do.
    pub fn is_finished(&self) -> (r: bool)
        ensures
            r == (self.stage == Stage::Finished),
    {
        self.stage == Stage::Finished
    }
}

/// The steps a job at `stage` hands out when its actions have, one after
/// the other, the outcomes `outcomes`; it stops once finished.
pub open spec fn steps_from(stage: Stage, data: Seq<u8>, outcomes: Seq<Option<Seq<char>>>) -> Seq<
    Step,
>
    decreases outcomes.len(),
{
    if stage == Stage::Finished || outcomes.len() == 0 {
        Seq::empty()
    } else {
        let (next, step) = step_spec(stage, data, outcomes[0]);
        seq![step] + steps_from(next, data, outcomes.drop_first())
    }
}

/// Every step a job for `connection` and `data` hands out, from its start,
/// when its actions have the outcomes `outcomes`.
pub open spec fn run_spec(connection: Seq<char>, data: Seq<u8>, outcomes: Seq<Option<Seq<char>>>) -> Seq<
    Step,
> {
    let (stage, first) = start_spec(connection);
    seq![first] + steps_from(stage, data, outcomes)
}

/// A descriptor without the `tcp:` prefix fails with an unsupported-connection
/// error that quotes it, and the job never asks for any network action,
/// whatever outcomes follow.
pub proof fn unsupported_connection_never_touches_network(
    connection: Seq<char>,
    data: Seq<u8>,
    outcomes: Seq<Option<Seq<char>>>,
)
    requires
        !has_tcp_prefix(connection),
    ensures
        run_spec(connection, data, outcomes) == seq![
            Step::Fail(FailureKind::UnsupportedConnection, connection),
        ],
        forall|i: int|
            0 <= i < run_spec(connection, data, outcomes).len() ==> !(#[trigger] run_spec(
                connection,
                data,
                outcomes,
            )[i]).is_io(),
{
    assert(run_spec(connection, data, outcomes) =~= seq![
        Step::Fail(FailureKind::UnsupportedConnection, connection),
    ]);
}

/// When the text after `tcp:` fails to parse, the job fails with an
/// invalid-address error carrying the parser's text, before any connect.
pub proof fn unparsable_address_fails_before_connect(
    connection: Seq<char>,
    data: Seq<u8>,
    error: Seq<char>,
    outcomes: Seq<Option<Seq<char>>>,
)
    requires
        has_tcp_prefix(connection),
    ensures
        run_spec(connection, data, seq![Some(error)] + outcomes) == seq![
            Step::ParseAddress(strip_tcp(connection)),
            Step::Fail(FailureKind::InvalidAddress, error),
        ],
{
    let o = seq![Some(error)] + outcomes;
    assert(o.drop_first() =~= outcomes);
    assert(steps_from(Stage::Finished, data, outcomes) =~= Seq::empty());
    assert(run_spec(connection, data, o) =~= seq![
        Step::ParseAddress(strip_tcp(connection)),
        Step::Fail(FailureKind::InvalidAddress, error),
    ]);
}

/// Once the address parsed, the job asks to connect with the fixed timeout;
/// when that fails it ends with a connect error carrying the system's text.
pub proof fn failed_connect_is_reported(
    connection: Seq<char>,
    data: Seq<u8>,
    error: Seq<char>,
    outcomes: Seq<Option<Seq<char>>>,
)
    requires
        has_tcp_prefix(connection),
    ensures
        run_spec(connection, data, seq![None, Some(error)] + outcomes) == seq![
            Step::ParseAddress(strip_tcp(connection)),
            Step::Connect(CONNECT_TIMEOUT_SECS),
            Step::Fail(FailureKind::Connect, error),
        ],
{
    let o = seq![None, Some(error)] + outcomes;
    let o1 = seq![Some(error)] + outcomes;
    assert(o.drop_first() =~= o1);
    assert(o1.drop_first() =~= outcomes);
    assert(steps_from(Stage::Finished, data, outcomes) =~= Seq::empty());
    let s1 = steps_from(Stage::Connect, data, o1);
    assert(s1 =~= seq![Step::Fail(FailureKind::Connect, error)]);
    assert(steps_from(Stage::Resolve, data, o) =~= seq![Step::Connect(CONNECT_TIMEOUT_SECS)] + s1);
    assert(run_spec(connection, data, o) =~= seq![
        Step::ParseAddress(strip_tcp(connection)),
        Step::Connect(CONNECT_TIMEOUT_SECS),
        Step::Fail(FailureKind::Connect, error),
    ]);
}

/// When every action succeeds, a job for a `tcp:` descriptor parses the
/// address, connects, writes the payload exactly as given, flushes and is
/// done, and hands out nothing more.
pub proof fn successful_job_sends_payload_once(
    connection: Seq<char>,
    data: Seq<u8>,
    outcomes: Seq<Option<Seq<char>>>,
)
    requires
        has_tcp_prefix(connection),
        outcomes.len() >= 4,
        forall|i: int| 0 <= i < 4 ==> outcomes[i] is None,
    ensures
        run_spec(connection, data, outcomes) == seq![
            Step::ParseAddress(strip_tcp(connection)),
            Step::Connect(CONNECT_TIMEOUT_SECS),
            Step::Write(data),
            Step::Flush,
            Step::Done,
        ],
{
    let o1 = outcomes.drop_first();
    let o2 = o1.drop_first();
    let o3 = o2.drop_first();
    let o4 = o3.drop_first();
    assert(outcomes[0] is None);
    assert(o1[0] == outcomes[1]);
    assert(o2[0] == outcomes[2]);
    assert(o3[0] == outcomes[3]);
    assert(steps_from(Stage::Finished, data, o4) =~= Seq::empty());
    let s3 = steps_from(Stage::Flush, data, o3);
    assert(s3 =~= seq![Step::Done]);
    let s2 = steps_from(Stage::Write, data, o2);
    assert(s2 =~= seq![Step::Flush] + s3);
    let s1 = steps_from(Stage::Connect, data, o1);
    assert(s1 =~= seq![Step::Write(data)] + s2);
    assert(steps_from(Stage::Resolve, data, outcomes) =~= seq![Step::Connect(CONNECT_TIMEOUT_SECS)] + s1);
    assert(run_spec(connection, data, outcomes) =~= seq![
        Step::ParseAddress(strip_tcp(connection)),
        Step::Connect(CONNECT_TIMEOUT_SECS),
        Step::Write(data),
        Step::Flush,
        Step::Done,
    ]);
}

/// Whatever the outcomes, the only payload a job ever asks to write is its
/// own, unchanged, and it asks at most once.
pub proof fn writes_only_own_payload(
    connection: Seq<char>,
    data: Seq<u8>,
    outcomes: Seq<Option<Seq<char>>>,
)
    ensures
        forall|i: int|
            0 <= i < run_spec(connection, data, outcomes).len() && (#[trigger] run_spec(
                connection,
                data,
                outcomes,
            )[i]) is Write ==> run_spec(connection, data, outcomes)[i] == Step::Write(data),
        forall|i: int, j: int|
            0 <= i < j < run_spec(connection, data, outcomes).len() && (#[trigger] run_spec(
                connection,
                data,
                outcomes,
            )[i]) is Write ==> !(#[trigger] run_spec(connection, data, outcomes)[j] is Write),
{
    let (stage, first) = start_spec(connection);
    let rest = steps_from(stage, data, outcomes);
    let all = run_spec(connection, data, outcomes);
    steps_write_only_own_payload(stage, data, outcomes);
    assert(all == seq![first] + rest);
    assert forall|i: int| 0 <= i < all.len() && (#[trigger] all[i]) is Write implies all[i]
        == Step::Write(data) by {
        assert(all[i] == rest[i - 1]);
    }
    assert forall|i: int, j: int|
        0 <= i < j < all.len() && (#[trigger] all[i]) is Write implies !(#[trigger] all[j] is Write) by {
        assert(all[i] == rest[i - 1]);
        assert(all[j] == rest[j - 1]);
    }
}

/// From any stage, the steps handed out write only the job's own payload,
/// and at most once.
proof fn steps_write_only_own_payload(
    stage: Stage,
    data: Seq<u8>,
    outcomes: Seq<Option<Seq<char>>>,
)
    ensures
        forall|i: int|
            0 <= i < steps_from(stage, data, outcomes).len() && (#[trigger] steps_from(
                stage,
                data,
                outcomes,
            )[i]) is Write ==> steps_from(stage, data, outcomes)[i] == Step::Write(data),
        forall|i: int, j: int|
            0 <= i < j < steps_from(stage, data, outcomes).len() && (#[trigger] steps_from(
                stage,
                data,
                outcomes,
            )[i]) is Write ==> !(#[trigger] steps_from(stage, data, outcomes)[j] is Write),
    decreases outcomes.len(),
{
    if stage == Stage::Finished || outcomes.len() == 0 {
    } else {
        let (next, step) = step_spec(stage, data, outcomes[0]);
        let rest = steps_from(next, data, outcomes.drop_first());
        steps_write_only_own_payload(next, data, outcomes.drop_first());
        let all = steps_from(stage, data, outcomes);
        assert(all == seq![step] + rest);
        if step is Write {
            no_write_after_write_stage(data, outcomes.drop_first());
        }
        assert forall|i: int, j: int|
            0 <= i < j < all.len() && (#[trigger] all[i]) is Write implies !(#[trigger] all[j] is Write) by {
            if i > 0 {
                assert(all[i] == rest[i - 1]);
                assert(all[j] == rest[j - 1]);
            } else {
                assert(all[j] == rest[j - 1]);
            }
        }
    }
}

/// After the write stage a job hands out no further write.
proof fn no_write_after_write_stage(data: Seq<u8>, outcomes: Seq<Option<Seq<char>>>)
    ensures
        forall|i: int|
            0 <= i < steps_from(Stage::Write, data, outcomes).len() ==> !(#[trigger] steps_from(
                Stage::Write,
                data,
                outcomes,
            )[i] is Write),
{
    let all = steps_from(Stage::Write, data, outcomes);
    if outcomes.len() > 0 {
        let o1 = outcomes.drop_first();
        if outcomes[0] is None {
            let s2 = steps_from(Stage::Flush, data, o1);
            if o1.len() > 0 {
                assert(steps_from(Stage::Finished, data, o1.drop_first()) =~= Seq::empty());
                assert(s2.len() == 1);
            } else {
                assert(s2.len() == 0);
            }
            assert forall|i: int| 0 <= i < all.len() implies !(#[trigger] all[i] is Write) by {
                if i > 0 {
                    assert(all[i] == s2[i - 1]);
                }
            }
        } else {
            assert(steps_from(Stage::Finished, data, o1) =~= Seq::empty());
        }
    }
}

} // verus!
