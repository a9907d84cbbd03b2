use vstd::prelude::*;
use vstd::string::*;

verus! {

broadcast use vstd::string::to_string_from_display_ensures_for_str;

/// Whether `word` stands in `text` at position `i`.
pub open spec fn occurs_at(text: Seq<char>, word: Seq<char>, i: int) -> bool {
    0 <= i && i + word.len() <= text.len() && text.subrange(i, i + word.len()) == word
}

/// Whether `word` stands somewhere in `text`.
pub open spec fn mentions(text: Seq<char>, word: Seq<char>) -> bool {
    exists|i: int| occurs_at(text, word, i)
}

/// Whether `text` mentions a closed connection.
pub open spec fn tells_of_closure(text: Seq<char>) -> bool {
    mentions(text, "closed"@)
}

/// Whether the failure description `error_msg` tells of a closed connection:
/// it contains "closed", as "Connection closed" does.
pub fn is_connection_closed_error(error_msg: &str) -> (r: bool)
    ensures
        r == tells_of_closure(error_msg@),
{
    proof {
        reveal_strlit("closed");
    }
    let word = "closed";
    let n: usize = error_msg.unicode_len();
    let m: usize = word.unicode_len();
    if n < m {
        return false;
    }
    let mut i: usize = 0;
    while i <= n - m
        invariant
            n == error_msg@.len(),
            m == word@.len(),
            word@ == "closed"@,
            0 < m <= n,
            i <= n - m + 1,
            forall|j: int| 0 <= j < i ==> !occurs_at(error_msg@, word@, j),
        decreases n - m + 1 - i,
    {
        let mut k: usize = 0;
        let mut same: bool = true;
        while k < m
            invariant
                n == error_msg@.len(),
                m == word@.len(),
                m <= n,
                i <= n - m,
                k <= m,
                same == (error_msg@.subrange(i as int, i + k) =~= word@.subrange(0, k as int)),
            decreases m - k,
        {
            let a = error_msg.get_char(i + k);
            let b = word.get_char(k);
            proof {
                let t0 = error_msg@.subrange(i as int, i + k);
                let t1 = error_msg@.subrange(i as int, i + k + 1);
                let w0 = word@.subrange(0, k as int);
                let w1 = word@.subrange(0, k + 1);
                assert(t1 =~= t0.push(a));
                assert(w1 =~= w0.push(b));
                if t1 =~= w1 {
                    assert(t0 =~= t1.drop_last());
                    assert(w0 =~= w1.drop_last());
                    assert(a == t1[k as int]);
                }
            }
            same = same && a == b;
            k = k + 1;
        }
        assert(word@.subrange(0, m as int) =~= word@);
        if same {
            assert(occurs_at(error_msg@, word@, i as int));
            return true;
        }
        i = i + 1;
    }
    assert forall|j: int| #![auto] occurs_at(error_msg@, word@, j) implies j < i by {};
    false
}

/// The way one read failed, as the caller observed it.
#[derive(Clone, Debug, PartialEq, Eq)]
pub enum ReadFailure {
    /// No data was ready on a socket that does not block; the text describes it.
    WouldBlock(String),
    /// The read timed out; the text describes it.
    TimedOut(String),
    /// The engine reports that the connection has ended.
    ConnectionClosed,
    /// Any other failure, described.
    Other(String),
}

/// What a read failure means for the loop.
#[derive(Clone, Debug, PartialEq, Eq)]
pub enum ReadVerdict {
    /// No data yet: the loop goes on and reports idleness.
    NoData,
    /// The connection closed, for this reason: the loop ends.
    Closed(String),
    /// The loop ends on this failure.
    Fatal(String),
}

/// Which wording a loop reports its read failures in.
#[derive(Clone, Copy, Debug, PartialEq, Eq, Structural)]
pub enum LoopKind {
    /// The loop of a non-blocking socket, on the caller's thread or a worker
    /// thread; the detail of a failure is the engine error's debug text.
    NonBlocking,
    /// The loop of a blocking socket; the detail of a failure is the engine
    /// error's description.
    Blocking,
}

/// The text that a failed read is reported with.
pub open spec fn read_failure_message(kind: LoopKind, detail: Seq<char>) -> Seq<char> {
    match kind {
        LoopKind::NonBlocking => "Failed to read from socket: "@ + detail,
        LoopKind::Blocking => "Error reading message: "@ + detail,
    }
}

/// The reason given when the engine reports that the connection has ended.
pub open spec fn normal_closure_reason(kind: LoopKind) -> Seq<char> {
    match kind {
        LoopKind::NonBlocking => "Connection closed normally"@,
        LoopKind::Blocking => "Connection closed"@,
    }
}

/// The verdict on a read that failed as `detail` describes: the loop ends
/// on it, with that failure's message.
pub open spec fn described_failure(kind: LoopKind, detail: Seq<char>, r: ReadVerdict) -> bool {
    r matches ReadVerdict::Fatal(s) && s@ == read_failure_message(kind, detail)
}

/// The verdict on a read failure, where the loop expects reads without data
/// (`no_data_expected`) or does not, in the wording of `kind`.
pub open spec fn read_verdict(
    failure: ReadFailure,
    no_data_expected: bool,
    kind: LoopKind,
    r: ReadVerdict,
) -> bool {
    match failure {
        ReadFailure::WouldBlock(t) => if no_data_expected {
            r is NoData
        } else {
            described_failure(kind, t@, r)
        },
        ReadFailure::TimedOut(t) => if no_data_expected {
            r is NoData
        } else {
            described_failure(kind, t@, r)
        },
        ReadFailure::ConnectionClosed => r matches ReadVerdict::Closed(s) && s@
            == normal_closure_reason(kind),
        ReadFailure::Other(t) => described_failure(kind, t@, r),
    }
}

fn describe_failure(kind: LoopKind, detail: String) -> (r: ReadVerdict)
    ensures
        described_failure(kind, detail@, r),
{
    let mut msg = match kind {
        LoopKind::NonBlocking => "Failed to read from socket: ".to_string(),
        LoopKind::Blocking => "Error reading message: ".to_string(),
    };
    msg.append(detail.as_str());
    ReadVerdict::Fatal(msg)
}

/// Classifies a failed read, reported in the wording of `kind`.
///
/// Would-block and timed-out reads are the loop's idle state where it expects
/// them (a non-blocking socket, or a blocking one with a read timeout); on a
/// blocking socket without a timeout they are fatal. An ended connection is a
/// normal closure. Any other failure is fatal.
pub fn classify_read_failure(failure: ReadFailure, no_data_expected: bool, kind: LoopKind) -> (r: ReadVerdict)
    ensures
        read_verdict(failure, no_data_expected, kind, r),
{
    match failure {
        ReadFailure::WouldBlock(t) => if no_data_expected {
            ReadVerdict::NoData
        } else {
            describe_failure(kind, t)
        },
        ReadFailure::TimedOut(t) => if no_data_expected {
            ReadVerdict::NoData
        } else {
            describe_failure(kind, t)
        },
        ReadFailure::ConnectionClosed => match kind {
            LoopKind::NonBlocking => ReadVerdict::Closed("Connection closed normally".to_string()),
            LoopKind::Blocking => ReadVerdict::Closed("Connection closed".to_string()),
        },
        ReadFailure::Other(t) => describe_failure(kind, t),
    }
}

} // verus!
