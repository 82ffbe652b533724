use vstd::prelude::*;
use vstd::string::StringSliceAdditionalSpecFns;

verus! {

/// The file descriptor of standard error.
pub const STDERR_FILENO: i32 = 2;
/// The path of the kernel log device, NUL-terminated.
pub const DEV_KMSG_PATH_BYTES: [u8; 10] = [47, 100, 101, 118, 47, 107, 109, 115, 103, 0];

/// The text that starts every log line.
pub const LOG_PREFIX: &'static str = "init-wrapper: ";

/// Where log lines go: a file descriptor, and whether it is the kernel log,
/// which takes one record per line.
#[derive(Debug, Clone, Copy, PartialEq, Eq, Structural)]
pub struct LogTarget {
    pub fd: i32,
    pub kmsg: bool,
}

impl LogTarget {
    /// Logging goes to standard error until the kernel log is opened.
    pub fn initial() -> (t: LogTarget)
        ensures
            t == (LogTarget { fd: STDERR_FILENO, kmsg: false }),
    {
        LogTarget { fd: STDERR_FILENO, kmsg: false }
    }
}

/// Takes the result of opening the kernel log device (`DEV_KMSG_PATH_BYTES`,
/// write-only, appending, synchronous): a descriptor becomes the log target, `-1` (the open
/// failed) leaves the target as it was.
pub fn init_kmsg(target: &mut LogTarget, open_result: i32)
    ensures
        open_result == -1 ==> *final(target) == *old(target),
        open_result != -1 ==> *final(target) == (LogTarget { fd: open_result, kmsg: true }),
{
    if open_result != -1 {
        *target = LogTarget { fd: open_result, kmsg: true };
    }
}

/// Carriage return.
pub const CR: u8 = 13;
/// Line feed.
pub const LF: u8 = 10;

/// A line without the carriage return that ended it, if one did.
pub open spec fn strip_cr(line: Seq<u8>) -> Seq<u8> {
    if line.len() > 0 && line.last() == CR {
        line.drop_last()
    } else {
        line
    }
}

/// The lines of `text`, the current line having begun with `current`: a line
/// ends at each line feed and loses a carriage return just before it; a last
/// line without a line feed counts when it is not empty.
pub open spec fn split_lines(text: Seq<u8>, current: Seq<u8>) -> Seq<Seq<u8>>
    decreases text.len(),
{
    if text.len() == 0 {
        if current.len() == 0 {
            seq![]
        } else {
            seq![current]
        }
    } else if text[0] == LF {
        seq![strip_cr(current)] + split_lines(text.drop_first(), seq![])
    } else {
        split_lines(text.drop_first(), current.push(text[0]))
    }
}

/// The lines of `text`.
pub open spec fn text_lines(text: Seq<u8>) -> Seq<Seq<u8>> {
    split_lines(text, seq![])
}

/// What is written to the log for `message`, one write per element: on the
/// kernel log, each line of the prefixed message as a record of its own;
/// elsewhere, the prefix, the message and a line feed.
pub open spec fn spec_log_records(message: Seq<u8>, kmsg: bool) -> Seq<Seq<u8>> {
    if kmsg {
        text_lines(LOG_PREFIX.spec_bytes() + message)
    } else {
        seq![LOG_PREFIX.spec_bytes(), message, seq![LF]]
    }
}

/// The contents of each buffer of `v`.
pub open spec fn contents(v: Seq<Vec<u8>>) -> Seq<Seq<u8>> {
    v.map_values(|b: Vec<u8>| b@)
}

/// Copies `bytes` into a new buffer.
fn to_vec(bytes: &[u8]) -> (v: Vec<u8>)
    ensures
        v@ == bytes@,
{
    let mut v: Vec<u8> = Vec::new();
    let mut i: usize = 0;
    while i < bytes.len()
        invariant
            i <= bytes@.len(),
            v@ == bytes@.subrange(0, i as int),
        decreases bytes@.len() - i,
    {
        v.push(bytes[i]);
        i = i + 1;
        assert(v@ =~= bytes@.subrange(0, i as int));
    }
    assert(v@ =~= bytes@);
    v
}

/// Splits `text` into its lines.
fn lines_of(text: &[u8]) -> (lines: Vec<Vec<u8>>)
    ensures
        contents(lines@) == text_lines(text@),
{
    let mut lines: Vec<Vec<u8>> = Vec::new();
    let mut current: Vec<u8> = Vec::new();
    let mut i: usize = 0;
    assert(text@.subrange(0, text@.len() as int) =~= text@);
    assert(contents(lines@) =~= Seq::<Seq<u8>>::empty());
    while i < text.len()
        invariant
            i <= text@.len(),
            contents(lines@) + split_lines(text@.subrange(i as int, text@.len() as int), current@)
                == text_lines(text@),
        decreases text@.len() - i,
    {
        let ghost rest = text@.subrange(i as int, text@.len() as int);
        assert(rest.drop_first() =~= text@.subrange(i + 1, text@.len() as int));
        let ghost cur0 = current@;
        let ghost before = contents(lines@);
        let b = text[i];
        if b == LF {
            if current.len() > 0 && current[current.len() - 1] == CR {
                current.pop();
            }
            assert(current@ =~= strip_cr(cur0));
            lines.push(current);
            assert(contents(lines@) =~= before.push(strip_cr(cur0)));
            current = Vec::new();
            assert(before.push(strip_cr(cur0)) + split_lines(rest.drop_first(), seq![]) =~= before + (
            seq![strip_cr(cur0)] + split_lines(rest.drop_first(), seq![])));
            assert(current@ =~= Seq::<u8>::empty());
        } else {
            current.push(b);
        }
        i = i + 1;
    }
    let ghost before = contents(lines@);
    let ghost cur0 = current@;
    assert(text@.subrange(i as int, text@.len() as int) =~= Seq::<u8>::empty());
    if current.len() > 0 {
        lines.push(current);
        assert(contents(lines@) =~= before + seq![cur0]);
    } else {
        assert(before + Seq::<Seq<u8>>::empty() =~= before);
    }
    lines
}

/// What to write to the log target for `message`, one write per element
/// (see `spec_log_records`).
pub fn log_line_records(message: &str, kmsg: bool) -> (records: Vec<Vec<u8>>)
    ensures
        contents(records@) == spec_log_records(message.spec_bytes(), kmsg),
{
    let prefix = LOG_PREFIX.as_bytes();
    let body = message.as_bytes();
    if kmsg {
        let mut line = to_vec(prefix);
        let mut i: usize = 0;
        while i < body.len()
            invariant
                i <= body@.len(),
                line@ == prefix@ + body@.subrange(0, i as int),
            decreases body@.len() - i,
        {
            line.push(body[i]);
            i = i + 1;
            assert(line@ =~= prefix@ + body@.subrange(0, i as int));
        }
        assert(body@.subrange(0, body@.len() as int) =~= body@);
        lines_of(line.as_slice())
    } else {
        let mut records: Vec<Vec<u8>> = Vec::new();
        records.push(to_vec(prefix));
        records.push(to_vec(body));
        let mut nl: Vec<u8> = Vec::new();
        nl.push(LF);
        records.push(nl);
        assert(contents(records@) =~= spec_log_records(message.spec_bytes(), kmsg));
        records
    }
}

/// Law: a text without a line feed is one line, the whole text, when it is
/// not empty, and no line at all when it is empty.
pub proof fn lemma_text_without_line_feed_is_one_line(text: Seq<u8>)
    requires
        forall|i: int| 0 <= i < text.len() ==> text[i] != LF,
    ensures
        text.len() > 0 ==> text_lines(text) == seq![text],
        text.len() == 0 ==> text_lines(text) == Seq::<Seq<u8>>::empty(),
{
    lemma_split_without_line_feed(text, seq![]);
    assert(Seq::<u8>::empty() + text =~= text);
}

proof fn lemma_split_without_line_feed(text: Seq<u8>, current: Seq<u8>)
    requires
        forall|i: int| 0 <= i < text.len() ==> text[i] != LF,
    ensures
        current.len() + text.len() > 0 ==> split_lines(text, current) == seq![current + text],
        current.len() + text.len() == 0 ==> split_lines(text, current) == Seq::<Seq<u8>>::empty(),
    decreases text.len(),
{
    if text.len() == 0 {
        assert(current + text =~= current);
    } else {
        lemma_split_without_line_feed(text.drop_first(), current.push(text[0]));
        assert(current.push(text[0]) + text.drop_first() =~= current + text);
    }
}

/// Law: a text is split at its first line feed. The first line is what comes
/// before it, without a carriage return just before the line feed; the other
/// lines are those of what comes after it.
pub proof fn lemma_text_splits_at_first_line_feed(text: Seq<u8>, k: int)
    requires
        0 <= k < text.len(),
        text[k] == LF,
        forall|i: int| 0 <= i < k ==> text[i] != LF,
    ensures
        text_lines(text) == seq![
            if k > 0 && text[k - 1] == CR {
                text.subrange(0, k - 1)
            } else {
                text.subrange(0, k)
            },
        ] + text_lines(text.subrange(k + 1, text.len() as int)),
{
    lemma_split_to_line_feed(text, seq![], k);
    assert(Seq::<u8>::empty() + text.subrange(0, k) =~= text.subrange(0, k));
    if k > 0 {
        assert(text.subrange(0, k).drop_last() =~= text.subrange(0, k - 1));
    }
}

proof fn lemma_split_to_line_feed(text: Seq<u8>, current: Seq<u8>, k: int)
    requires
        0 <= k < text.len(),
        text[k] == LF,
        forall|i: int| 0 <= i < k ==> text[i] != LF,
    ensures
        split_lines(text, current) == seq![strip_cr(current + text.subrange(0, k))] + split_lines(
            text.subrange(k + 1, text.len() as int),
            seq![],
        ),
    decreases k,
{
    if k == 0 {
        assert(current + text.subrange(0, 0) =~= current);
        assert(text.drop_first() =~= text.subrange(1, text.len() as int));
    } else {
        let rest = text.drop_first();
        assert forall|i: int| 0 <= i < k - 1 implies rest[i] != LF by {
            assert(rest[i] == text[i + 1]);
        }
        lemma_split_to_line_feed(rest, current.push(text[0]), k - 1);
        assert(current.push(text[0]) + rest.subrange(0, k - 1) =~= current + text.subrange(0, k));
        assert(rest.subrange(k, rest.len() as int) =~= text.subrange(k + 1, text.len() as int));
    }
}

/// Law: on the kernel log, the records are the lines of the whole prefixed
/// message; a message without a line feed is one record, the prefix followed
/// by the whole message, whatever its length. Elsewhere the three writes are
/// the prefix, the whole message and a line feed.
pub proof fn lemma_log_records_keep_the_whole_message(message: Seq<u8>)
    ensures
        spec_log_records(message, true) == text_lines(LOG_PREFIX.spec_bytes() + message),
        (forall|i: int| 0 <= i < message.len() ==> message[i] != LF) ==> spec_log_records(message, true)
            == seq![LOG_PREFIX.spec_bytes() + message],
        spec_log_records(message, false) == seq![LOG_PREFIX.spec_bytes(), message, seq![LF]],
{
    let prefix = LOG_PREFIX.spec_bytes();
    lemma_prefix_bytes();
    let text = prefix + message;
    if forall|i: int| 0 <= i < message.len() ==> message[i] != LF {
        assert forall|i: int| 0 <= i < text.len() implies text[i] != LF by {
            if i < prefix.len() {
                assert(text[i] == prefix[i]);
            } else {
                assert(text[i] == message[i - prefix.len()]);
            }
        }
        lemma_text_without_line_feed_is_one_line(text);
    }
}

/// The prefix is not empty and holds no line feed.
proof fn lemma_prefix_bytes()
    ensures
        LOG_PREFIX.spec_bytes().len() > 0,
        forall|i: int| 0 <= i < LOG_PREFIX.spec_bytes().len() ==> LOG_PREFIX.spec_bytes()[i] != LF,
{
    reveal_strlit("init-wrapper: ");
    broadcast use vstd::string::is_ascii_spec_bytes;
    assert(vstd::string::is_ascii(LOG_PREFIX));
    assert(LOG_PREFIX.spec_bytes() =~= Seq::new(LOG_PREFIX@.len(), |i| LOG_PREFIX@.index(i) as u8));
}

} // verus!
