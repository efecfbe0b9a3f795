use vstd::prelude::*;

verus! {

/// How many of the oldest messages of a device are dropped when its log
/// overflows.
pub const RETAIN_LOGS_THRESHOLD: usize = 4000;

/// How many messages a device's log holds before it overflows.
pub const MAX_LOGS_PER_DEVICE: usize = 5000;

/// The log of one device: the messages kept so far, oldest first, the
/// number of the reader following it, if any, and how many readers were
/// started on it so far. Readers are numbered from 0 in the order they
/// start.
struct DeviceLog {
    history: Vec<String>,
    reader: Option<u64>,
    readers_started: u64,
}

/// The logs of all devices of a running simulation.
pub struct LogsService {
    logs: Vec<DeviceLog>,
}

/// The log of one device, seen from outside.
pub struct DeviceLogState {
    pub history: Seq<String>,
    pub reader: Option<u64>,
    pub readers_started: u64,
}

/// What a log keeps of `history` before it takes a new message: all of it,
/// or, once it holds more than the maximum, all but the oldest
/// `RETAIN_LOGS_THRESHOLD` messages.
pub open spec fn retained(history: Seq<String>) -> Seq<String> {
    if history.len() > MAX_LOGS_PER_DEVICE {
        history.skip(RETAIN_LOGS_THRESHOLD as int)
    } else {
        history
    }
}

/// A device log holds at most one message more than the maximum, and its
/// reader, if any, is one of the readers started on it.
pub open spec fn device_log_wf(l: DeviceLogState) -> bool {
    &&& l.history.len() <= MAX_LOGS_PER_DEVICE + 1
    &&& l.reader matches Some(g) ==> g < l.readers_started
}

/// The same log with a new history.
pub open spec fn with_history(l: DeviceLogState, history: Seq<String>) -> DeviceLogState {
    DeviceLogState { history, reader: l.reader, readers_started: l.readers_started }
}

/// The same log followed by reader `reader`, or by none.
pub open spec fn with_reader(l: DeviceLogState, reader: Option<u64>) -> DeviceLogState {
    DeviceLogState { history: l.history, reader, readers_started: l.readers_started }
}

/// The same log, now followed by a new reader that takes the next number.
pub open spec fn with_new_reader(l: DeviceLogState) -> DeviceLogState {
    DeviceLogState {
        history: l.history,
        reader: Some(l.readers_started),
        readers_started: (l.readers_started + 1) as u64,
    }
}

/// A log with no message and no reader, on which no reader started yet.
pub open spec fn empty_log() -> DeviceLogState {
    DeviceLogState { history: Seq::<String>::empty(), reader: None, readers_started: 0 }
}

spec fn log_view(l: DeviceLog) -> DeviceLogState {
    DeviceLogState { history: l.history@, reader: l.reader, readers_started: l.readers_started }
}

impl View for LogsService {
    type V = Seq<DeviceLogState>;

    closed spec fn view(&self) -> Seq<DeviceLogState> {
        self.logs@.map_values(|l: DeviceLog| log_view(l))
    }
}

impl LogsService {
    /// Every device log is well formed.
    #[verifier::type_invariant]
    spec fn inv(&self) -> bool {
        forall|i: int| 0 <= i < self.logs@.len() ==> #[trigger] device_log_wf(log_view(self.logs@[i]))
    }

    /// Empty logs, with no reader, for `n_devices` devices.
    pub fn new(n_devices: usize) -> (r: LogsService)
        ensures
            r@.len() == n_devices,
            forall|i: int|
                0 <= i < n_devices ==> #[trigger] r@[i] == empty_log(),
    {
        let mut logs: Vec<DeviceLog> = Vec::new();
        let mut k: usize = 0;
        while k < n_devices
            invariant
                k <= n_devices,
                logs@.len() == k,
                forall|i: int|
                    0 <= i < k ==> #[trigger] log_view(logs@[i]) == empty_log(),
            decreases n_devices - k,
        {
            let log = DeviceLog { history: Vec::new(), reader: None, readers_started: 0 };
            assert(log_view(log).history =~= Seq::<String>::empty());
            logs.push(log);
            k = k + 1;
        }
        LogsService { logs }
    }

    /// The number of devices whose logs are kept.
    pub fn device_count(&self) -> (r: usize)
        ensures
            r == self@.len(),
    {
        self.logs.len()
    }

    /// Records `message` in the log of device `device_id`, and tells which
    /// reader, if any, follows that log and must be sent the message.
    pub fn log(&mut self, device_id: u32, message: String) -> (forward: Option<u64>)
        requires
            device_id < old(self)@.len(),
        ensures
            final(self)@ == old(self)@.update(
                device_id as int,
                with_history(
                    old(self)@[device_id as int],
                    retained(old(self)@[device_id as int].history).push(message),
                ),
            ),
            forward == old(self)@[device_id as int].reader,
            final(self)@[device_id as int].history.len() <= MAX_LOGS_PER_DEVICE + 1,
    {
        proof {
            use_type_invariant(&*self);
        }
        let ghost old_logs = self.logs@;
        let mut logs: Vec<DeviceLog> = Vec::new();
        std::mem::swap(&mut logs, &mut self.logs);
        assert(device_log_wf(log_view(logs@[device_id as int])));
        let log = &mut logs[device_id as usize];
        if log.history.len() > MAX_LOGS_PER_DEVICE {
            let rest = log.history.split_off(RETAIN_LOGS_THRESHOLD);
            log.history = rest;
        }
        log.history.push(message);
        let forward = log.reader;
        proof {
            lemma_log_stays_bounded(old(self)@[device_id as int].history, message);
        }
        assert forall|i: int| 0 <= i < logs@.len() implies #[trigger] device_log_wf(
            log_view(logs@[i]),
        ) by {
            assert(device_log_wf(log_view(old_logs[i])));
            if i != device_id as int {
                assert(old_logs[i] == logs@[i]);
            }
        }
        self.logs = logs;
        assert(self@ =~= old(self)@.update(
            device_id as int,
            with_history(
                old(self)@[device_id as int],
                retained(old(self)@[device_id as int].history).push(message),
            ),
        ));
        forward
    }

    /// Whether a new reader can start on the log of device `device_id`: the
    /// device exists and its readers have not used up their numbers.
    pub fn can_start_reader(&self, device_id: u32) -> (r: bool)
        ensures
            r == (device_id < self@.len() && self@[device_id as int].readers_started < u64::MAX),
    {
        (device_id as usize) < self.logs.len()
            && self.logs[device_id as usize].readers_started < u64::MAX
    }

    /// Starts a reader on the log of device `device_id`, in place of any
    /// earlier one, and returns the messages kept so far, oldest first, for
    /// the reader to be sent before the new ones, and the new reader's
    /// number.
    pub fn log_stream(&mut self, device_id: u32) -> (r: (Vec<String>, u64))
        requires
            device_id < old(self)@.len(),
            old(self)@[device_id as int].readers_started < u64::MAX,
        ensures
            r.0@ == old(self)@[device_id as int].history,
            r.1 == old(self)@[device_id as int].readers_started,
            final(self)@ == old(self)@.update(
                device_id as int,
                with_new_reader(old(self)@[device_id as int]),
            ),
    {
        proof {
            use_type_invariant(&*self);
        }
        let ghost old_logs = self.logs@;
        let mut logs: Vec<DeviceLog> = Vec::new();
        std::mem::swap(&mut logs, &mut self.logs);
        let log = &mut logs[device_id as usize];
        let replay = log.history.clone();
        assert(replay@ =~= log.history@);
        let reader = log.readers_started;
        log.reader = Some(reader);
        log.readers_started = reader + 1;
        assert forall|i: int| 0 <= i < logs@.len() implies #[trigger] device_log_wf(
            log_view(logs@[i]),
        ) by {
            assert(device_log_wf(log_view(old_logs[i])));
            if i != device_id as int {
                assert(old_logs[i] == logs@[i]);
            }
        }
        self.logs = logs;
        assert(self@ =~= old(self)@.update(
            device_id as int,
            with_new_reader(old(self)@[device_id as int]),
        ));
        (replay, reader)
    }

    /// Records how the delivery of a forwarded message to the reader of the
    /// log of device `device_id` went: a reader that could not be reached is
    /// gone and is followed no longer; one that received the message stays.
    pub fn record_delivery(&mut self, device_id: u32, delivered: bool)
        requires
            device_id < old(self)@.len(),
        ensures
            final(self)@ == old(self)@.update(
                device_id as int,
                with_reader(
                    old(self)@[device_id as int],
                    if delivered {
                        old(self)@[device_id as int].reader
                    } else {
                        None
                    },
                ),
            ),
    {
        if !delivered {
            self.end_stream(device_id);
        } else {
            assert(self@ =~= old(self)@.update(
                device_id as int,
                with_reader(old(self)@[device_id as int], old(self)@[device_id as int].reader),
            ));
        }
    }

    /// Drops the reader of the log of device `device_id`, once it is gone.
    pub fn end_stream(&mut self, device_id: u32)
        requires
            device_id < old(self)@.len(),
        ensures
            final(self)@ == old(self)@.update(
                device_id as int,
                with_reader(old(self)@[device_id as int], None),
            ),
    {
        proof {
            use_type_invariant(&*self);
        }
        let ghost old_logs = self.logs@;
        let mut logs: Vec<DeviceLog> = Vec::new();
        std::mem::swap(&mut logs, &mut self.logs);
        let log = &mut logs[device_id as usize];
        log.reader = None;
        assert forall|i: int| 0 <= i < logs@.len() implies #[trigger] device_log_wf(
            log_view(logs@[i]),
        ) by {
            assert(device_log_wf(log_view(old_logs[i])));
            if i != device_id as int {
                assert(old_logs[i] == logs@[i]);
            }
        }
        self.logs = logs;
        assert(self@ =~= old(self)@.update(
            device_id as int,
            with_reader(old(self)@[device_id as int], None),
        ));
    }
}

/// Of two readers started one after the other on a device's log, only the
/// newer one is sent the messages recorded after: the log reports the newer
/// reader's number, which differs from the older one's.
pub proof fn lemma_only_newest_reader_receives(
    s0: Seq<DeviceLogState>,
    s1: Seq<DeviceLogState>,
    s2: Seq<DeviceLogState>,
    d: int,
    first: u64,
    second: u64,
    history: Seq<String>,
    forward: Option<u64>,
)
    requires
        0 <= d < s0.len(),
        s0[d].readers_started < u64::MAX,
        s1[d].readers_started < u64::MAX,
        first == s0[d].readers_started,
        s1 == s0.update(d, with_new_reader(s0[d])),
        second == s1[d].readers_started,
        s2 == s1.update(d, with_new_reader(s1[d])),
        forward == s2[d].reader,
    ensures
        forward == Some(second),
        first != second,
{
}

/// Reader numbers are never handed out twice: each new reader of a log takes
/// a number above that of every reader started on it before.
pub proof fn lemma_reader_numbers_increase(l: DeviceLogState, earlier: u64)
    requires
        earlier < l.readers_started,
    ensures
        earlier < with_new_reader(l).reader->Some_0,
        with_new_reader(l).reader->Some_0 == l.readers_started,
{
}

/// Recording a message keeps the newest messages in order: the new log is
/// the old log with the message added, less some of its oldest entries, and
/// it ends with the message.
pub proof fn lemma_log_keeps_newest(history: Seq<String>, message: String)
    ensures
        ({
            let all = history.push(message);
            let kept = retained(history).push(message);
            &&& kept.len() <= all.len()
            &&& kept == all.skip(all.len() - kept.len())
            &&& kept.last() == message
        }),
{
    let all = history.push(message);
    let kept = retained(history).push(message);
    assert(kept =~= all.skip(all.len() - kept.len()));
}

/// A log that holds at most one message more than the maximum still does
/// after it records another one.
pub proof fn lemma_log_stays_bounded(history: Seq<String>, message: String)
    requires
        history.len() <= MAX_LOGS_PER_DEVICE + 1,
    ensures
        retained(history).push(message).len() <= MAX_LOGS_PER_DEVICE + 1,
{
}

/// A log of at most `MAX_LOGS_PER_DEVICE` messages keeps them all before it
/// takes a new one; a longer log drops exactly its oldest
/// `RETAIN_LOGS_THRESHOLD` messages.
pub proof fn lemma_retention(history: Seq<String>)
    ensures
        history.len() <= 5000 ==> retained(history) == history,
        history.len() > 5000 ==> retained(history) == history.subrange(4000, history.len() as int),
{
}

} // verus!
