//! Suspending every other thread of the process, one step at a time.
//!
//! Listing, opening and suspending threads is done outside. A scan says what
//! is to be done next and takes what came back. However it ends, it knows which
//! threads it suspended and in which order they are resumed.
use vstd::prelude::*;
use crate::inline_hooks::quiescence::{
    enumeration_ended, in_window, judge_thread, suspends_thread, QuiescenceError, API_FAILURE,
    ERROR_NO_MORE_FILES,
};

verus! {

/// An entry of the list of threads.
#[derive(Clone, Copy, Debug, PartialEq, Eq, Structural)]
pub struct ListedThread {
    /// Process that the thread belongs to.
    pub owner: u32,
    /// Identity of the thread.
    pub thread: u32,
}

/// What a scan does next.
#[derive(Clone, Copy, Debug, PartialEq, Eq, Structural)]
pub enum ScanStep {
    /// The threads are listed.
    Snapshot,
    /// The first entry of the list is read.
    First,
    /// Room is made for another thread, and the thread is opened.
    Open(u32),
    /// The opened thread is suspended.
    Suspend(u32),
    /// It is read where the suspended thread stands.
    ReadContext(u32),
    /// The next entry of the list is read.
    Next,
    /// Every other thread is suspended.
    Finished,
}

/// What a step handed back.
#[derive(Clone, Copy, Debug, PartialEq, Eq)]
pub enum ScanReply {
    /// Whether the list could be made.
    Snapshot(bool),
    /// The first entry, if it could be read.
    First(Option<ListedThread>),
    /// Whether there was room, and whether the thread could be opened.
    Opened {
        /// Whether there was room.
        allocated: bool,
        /// Whether the thread could be opened.
        opened: bool,
    },
    /// The suspension count before the call, or the mark of a failure.
    Suspended(u32),
    /// Where the thread stands, or the code of the failure.
    Context(Result<usize, u32>),
    /// The next entry, or the code that ended the list.
    Next(Result<ListedThread, u32>),
}

/// Whether a reply is one to a step.
pub open spec fn replies_to(step: ScanStep, reply: ScanReply) -> bool {
    match step {
        ScanStep::Snapshot => reply is Snapshot,
        ScanStep::First => reply is First,
        ScanStep::Open(_) => reply is Opened,
        ScanStep::Suspend(_) => reply is Suspended,
        ScanStep::ReadContext(_) => reply is Context,
        ScanStep::Next => reply is Next,
        ScanStep::Finished => false,
    }
}

/// Whether an entry is another thread of the process.
pub open spec fn is_peer(process: u32, current_thread: u32, entry: ListedThread) -> bool {
    entry.owner == process && entry.thread != current_thread
}

/// The step that an entry of the list calls for.
pub open spec fn visit(process: u32, current_thread: u32, entry: ListedThread) -> ScanStep {
    if is_peer(process, current_thread, entry) {
        ScanStep::Open(entry.thread)
    } else {
        ScanStep::Next
    }
}

/// Whether an address lies in the patch window of a target.
pub open spec fn in_some_window(address: usize, targets: Seq<usize>) -> bool {
    exists|i: int| 0 <= i < targets.len() && #[trigger] in_window(address, targets[i])
}

/// The step that follows a reply, or why the scan fails.
pub open spec fn advance(
    process: u32,
    current_thread: u32,
    targets: Seq<usize>,
    step: ScanStep,
    reply: ScanReply,
) -> Result<ScanStep, QuiescenceError> {
    match reply {
        ScanReply::Snapshot(made) => if made {
            Ok(ScanStep::First)
        } else {
            Err(QuiescenceError::Snapshot)
        },
        ScanReply::First(Some(entry)) => Ok(visit(process, current_thread, entry)),
        ScanReply::First(None) => Err(QuiescenceError::Enumeration),
        ScanReply::Opened { allocated, opened } => if !allocated {
            Err(QuiescenceError::OutOfMemory)
        } else if !opened {
            Err(QuiescenceError::OpenThread)
        } else {
            Ok(ScanStep::Suspend(step->Open_0))
        },
        ScanReply::Suspended(count) => if count == API_FAILURE {
            Err(QuiescenceError::SuspendThread)
        } else {
            Ok(ScanStep::ReadContext(step->Suspend_0))
        },
        ScanReply::Context(Err(code)) => Err(QuiescenceError::ThreadContext(code)),
        ScanReply::Context(Ok(address)) => if in_some_window(address, targets) {
            Err(QuiescenceError::TargetBusy)
        } else {
            Ok(ScanStep::Next)
        },
        ScanReply::Next(Ok(entry)) => Ok(visit(process, current_thread, entry)),
        ScanReply::Next(Err(code)) => if code == ERROR_NO_MORE_FILES {
            Ok(ScanStep::Finished)
        } else {
            Err(QuiescenceError::Enumeration)
        },
    }
}

/// The other threads of the process among entries of the list.
pub open spec fn peers(process: u32, current_thread: u32, listed: Seq<ListedThread>) -> Seq<u32>
    decreases listed.len(),
{
    if listed.len() == 0 {
        Seq::empty()
    } else {
        let rest = peers(process, current_thread, listed.drop_last());
        if is_peer(process, current_thread, listed.last()) {
            rest.push(listed.last().thread)
        } else {
            rest
        }
    }
}

/// The order in which the suspended threads are resumed: the latest first
/// after a finished scan, else the thread being judged, then the others.
pub open spec fn resume_order(step: ScanStep, held: Seq<u32>) -> Seq<u32> {
    match step {
        ScanStep::Finished => held.reverse(),
        ScanStep::ReadContext(_) => seq![held.last()] + held.drop_last(),
        _ => held,
    }
}

/// A scan over the threads of the process.
pub struct PeerScan {
    process: u32,
    current_thread: u32,
    targets: Vec<usize>,
    step: ScanStep,
    suspended: Vec<u32>,
    listed: Ghost<Seq<ListedThread>>,
    standing: Ghost<Seq<usize>>,
}

impl PeerScan {
    /// The process that is scanned.
    pub closed spec fn process(&self) -> u32 {
        self.process
    }

    /// The thread that scans.
    pub closed spec fn current_thread(&self) -> u32 {
        self.current_thread
    }

    /// The targets to keep threads away from.
    pub closed spec fn targets(&self) -> Seq<usize> {
        self.targets@
    }

    /// What is done next.
    pub closed spec fn next(&self) -> ScanStep {
        self.step
    }

    /// The threads that the scan has suspended, in order.
    pub closed spec fn held(&self) -> Seq<u32> {
        self.suspended@
    }

    /// The entries of the list that were read.
    pub closed spec fn listed(&self) -> Seq<ListedThread> {
        self.listed@
    }

    /// Where the judged threads stand.
    pub closed spec fn standing(&self) -> Seq<usize> {
        self.standing@
    }

    /// Every listed peer is suspended and judged, but for the one at hand, and
    /// no judged thread stands in a patch window.
    pub open spec fn wf(&self) -> bool {
        let visited = peers(self.process(), self.current_thread(), self.listed());
        &&& match self.next() {
            ScanStep::Snapshot | ScanStep::First => {
                &&& self.listed().len() == 0
                &&& self.held().len() == 0
                &&& self.standing().len() == 0
            },
            ScanStep::Open(thread) | ScanStep::Suspend(thread) => {
                &&& visited == self.held().push(thread)
                &&& self.standing().len() == self.held().len()
            },
            ScanStep::ReadContext(thread) => {
                &&& visited == self.held()
                &&& self.held().len() > 0
                &&& self.held().last() == thread
                &&& self.standing().len() == self.held().len() - 1
            },
            ScanStep::Next | ScanStep::Finished => {
                &&& visited == self.held()
                &&& self.standing().len() == self.held().len()
            },
        }
        &&& forall|i: int|
            0 <= i < self.standing().len() ==> !in_some_window(
                #[trigger] self.standing()[i],
                self.targets(),
            )
    }

    /// Begins a scan that keeps threads away from the targets.
    pub fn begin(process: u32, current_thread: u32, targets: &[usize]) -> (scan: Self)
        ensures
            scan.wf(),
            scan.process() == process,
            scan.current_thread() == current_thread,
            scan.targets() == targets@,
            scan.next() == ScanStep::Snapshot,
            scan.held() == Seq::<u32>::empty(),
            scan.listed() == Seq::<ListedThread>::empty(),
            scan.standing() == Seq::<usize>::empty(),
    {
        Self {
            process,
            current_thread,
            targets: vstd::slice::slice_to_vec(targets),
            step: ScanStep::Snapshot,
            suspended: Vec::new(),
            listed: Ghost(Seq::empty()),
            standing: Ghost(Seq::empty()),
        }
    }

    /// Returns what is done next.
    pub fn step(&self) -> (step: ScanStep)
        ensures
            step == self.next(),
    {
        self.step
    }

    /// Takes what the step handed back. A failed scan stays where it was, and
    /// [`release`](Self::release) says what it has to give back.
    pub fn accept(&mut self, reply: ScanReply) -> (result: Result<(), QuiescenceError>)
        requires
            old(self).wf(),
            replies_to(old(self).next(), reply),
        ensures
            final(self).wf(),
            final(self).process() == old(self).process(),
            final(self).current_thread() == old(self).current_thread(),
            final(self).targets() == old(self).targets(),
            match advance(
                old(self).process(),
                old(self).current_thread(),
                old(self).targets(),
                old(self).next(),
                reply,
            ) {
                Err(error) => {
                    &&& result == Err::<(), QuiescenceError>(error)
                    &&& *final(self) == *old(self)
                },
                Ok(next) => {
                    &&& result is Ok
                    &&& final(self).next() == next
                    &&& final(self).held() == match old(self).next() {
                        ScanStep::Suspend(thread) => old(self).held().push(thread),
                        _ => old(self).held(),
                    }
                    &&& final(self).listed() == match reply {
                        ScanReply::First(Some(entry)) => old(self).listed().push(entry),
                        ScanReply::Next(Ok(entry)) => old(self).listed().push(entry),
                        _ => old(self).listed(),
                    }
                    &&& final(self).standing() == match reply {
                        ScanReply::Context(Ok(address)) => old(self).standing().push(address),
                        _ => old(self).standing(),
                    }
                },
            },
    {
        match (self.step, reply) {
            (ScanStep::Snapshot, ScanReply::Snapshot(made)) => {
                if !made {
                    return Err(QuiescenceError::Snapshot);
                }
                self.step = ScanStep::First;
            },
            (ScanStep::First, ScanReply::First(first)) => match first {
                None => {
                    return Err(QuiescenceError::Enumeration);
                },
                Some(entry) => {
                    proof {
                        assert(peers(self.process, self.current_thread, self.listed@)
                            =~= self.suspended@);
                    }
                    self.visit(entry);
                },
            },
            (ScanStep::Open(thread), ScanReply::Opened { allocated, opened }) => {
                if !allocated {
                    return Err(QuiescenceError::OutOfMemory);
                }
                if !opened {
                    return Err(QuiescenceError::OpenThread);
                }
                self.step = ScanStep::Suspend(thread);
            },
            (ScanStep::Suspend(thread), ScanReply::Suspended(previous_count)) => {
                if previous_count == API_FAILURE {
                    return Err(QuiescenceError::SuspendThread);
                }
                self.suspended.push(thread);
                self.step = ScanStep::ReadContext(thread);
            },
            (ScanStep::ReadContext(_), ScanReply::Context(address)) => {
                if let Err(error) = judge_thread(address, self.targets.as_slice()) {
                    return Err(error);
                }
                proof {
                    self.standing@ = self.standing@.push(address->Ok_0);
                }
                self.step = ScanStep::Next;
            },
            (ScanStep::Next, ScanReply::Next(next)) => match next {
                Ok(entry) => {
                    self.visit(entry);
                },
                Err(code) => {
                    if let Err(error) = enumeration_ended(code) {
                        return Err(error);
                    }
                    self.step = ScanStep::Finished;
                },
            },
            _ => {},
        }
        Ok(())
    }

    fn visit(&mut self, entry: ListedThread)
        ensures
            final(self).process() == old(self).process(),
            final(self).current_thread() == old(self).current_thread(),
            final(self).targets() == old(self).targets(),
            final(self).held() == old(self).held(),
            final(self).standing() == old(self).standing(),
            final(self).listed() == old(self).listed().push(entry),
            final(self).next() == visit(old(self).process(), old(self).current_thread(), entry),
            peers(old(self).process(), old(self).current_thread(), final(self).listed()) == if is_peer(
                old(self).process(),
                old(self).current_thread(),
                entry,
            ) {
                peers(old(self).process(), old(self).current_thread(), old(self).listed()).push(
                    entry.thread,
                )
            } else {
                peers(old(self).process(), old(self).current_thread(), old(self).listed())
            },
    {
        proof {
            assert(self.listed@.push(entry).drop_last() =~= self.listed@);
            self.listed@ = self.listed@.push(entry);
        }
        if suspends_thread(entry.owner, entry.thread, self.process, self.current_thread) {
            self.step = ScanStep::Open(entry.thread);
        } else {
            self.step = ScanStep::Next;
        }
    }

    /// Gives up the scan and returns the threads to resume, in order.
    pub fn release(self) -> (threads: Vec<u32>)
        requires
            self.wf(),
        ensures
            threads@ == resume_order(self.next(), self.held()),
    {
        let mut threads: Vec<u32> = Vec::new();
        match self.step {
            ScanStep::Finished => {
                let mut left: usize = self.suspended.len();
                while left > 0
                    invariant
                        left <= self.suspended@.len(),
                        threads@ == self.suspended@.subrange(
                            left as int,
                            self.suspended@.len() as int,
                        ).reverse(),
                    decreases left,
                {
                    left = left - 1;
                    threads.push(self.suspended[left]);
                    assert(threads@ =~= self.suspended@.subrange(
                        left as int,
                        self.suspended@.len() as int,
                    ).reverse());
                }
                assert(self.suspended@.subrange(0, self.suspended@.len() as int)
                    =~= self.suspended@);
            },
            ScanStep::ReadContext(thread) => {
                threads.push(thread);
                let judged: usize = self.suspended.len() - 1;
                let mut index: usize = 0;
                while index < judged
                    invariant
                        index <= judged,
                        judged == self.suspended@.len() - 1,
                        threads@ == seq![thread] + self.suspended@.subrange(0, index as int),
                    decreases judged - index,
                {
                    threads.push(self.suspended[index]);
                    index = index + 1;
                    assert(threads@ =~= seq![thread] + self.suspended@.subrange(0, index as int));
                }
                assert(self.suspended@.subrange(0, judged as int) =~= self.suspended@.drop_last());
            },
            _ => {
                return self.suspended;
            },
        }
        threads
    }
}

/// However a scan ends, every thread that it suspended is resumed exactly once,
/// and no other thread is.
pub proof fn law_every_suspended_thread_is_resumed_once(scan: PeerScan)
    requires
        scan.wf(),
    ensures
        resume_order(scan.next(), scan.held()).to_multiset() == scan.held().to_multiset(),
{
    let held = scan.held();
    match scan.next() {
        ScanStep::Finished => {
            held.lemma_reverse_to_multiset();
        },
        ScanStep::ReadContext(_) => {
            vstd::seq_lib::lemma_multiset_commutative(seq![held.last()], held.drop_last());
            vstd::seq_lib::lemma_multiset_commutative(held.drop_last(), seq![held.last()]);
            assert(held.drop_last() + seq![held.last()] =~= held);
        },
        _ => {},
    }
}

/// A finished scan holds every other thread of the process that was listed, and
/// none of them stands where code will be patched.
pub proof fn law_a_finished_scan_keeps_every_peer_away(scan: PeerScan, entry: ListedThread, i: int)
    requires
        scan.wf(),
        scan.next() == ScanStep::Finished,
    ensures
        scan.listed().contains(entry) && is_peer(scan.process(), scan.current_thread(), entry)
            ==> scan.held().contains(entry.thread),
        scan.standing().len() == scan.held().len(),
        0 <= i < scan.standing().len() ==> !in_some_window(scan.standing()[i], scan.targets()),
{
    if scan.listed().contains(entry) && is_peer(scan.process(), scan.current_thread(), entry) {
        lemma_peers_are_found(scan.process(), scan.current_thread(), scan.listed(), entry);
    }
}

proof fn lemma_peers_are_found(
    process: u32,
    current_thread: u32,
    listed: Seq<ListedThread>,
    entry: ListedThread,
)
    requires
        listed.contains(entry),
        is_peer(process, current_thread, entry),
    ensures
        peers(process, current_thread, listed).contains(entry.thread),
    decreases listed.len(),
{
    let found = peers(process, current_thread, listed);
    if listed.last() == entry {
        assert(found.last() == entry.thread);
    } else {
        let i = choose|i: int| 0 <= i < listed.len() && listed[i] == entry;
        assert(listed.drop_last()[i] == entry);
        lemma_peers_are_found(process, current_thread, listed.drop_last(), entry);
        let rest = peers(process, current_thread, listed.drop_last());
        let j = choose|j: int| 0 <= j < rest.len() && rest[j] == entry.thread;
        assert(found[j] == entry.thread);
    }
}

/// A step succeeds exactly when what it did succeeded: the reply says so.
pub proof fn law_a_scan_stops_at_the_first_failure(
    process: u32,
    current_thread: u32,
    targets: Seq<usize>,
    step: ScanStep,
    reply: ScanReply,
)
    ensures
        ({
            let next = advance(process, current_thread, targets, step, reply);
            &&& reply matches ScanReply::Snapshot(made) ==> (next is Ok <==> made)
            &&& reply matches ScanReply::First(first) ==> (next is Ok <==> first is Some)
            &&& reply matches ScanReply::Opened { allocated, opened } ==> (next is Ok <==> allocated
                && opened)
            &&& reply matches ScanReply::Suspended(count) ==> (next is Ok <==> count
                != 0xffff_ffff)
            &&& reply matches ScanReply::Next(listed) ==> (next is Err <==> listed is Err
                && listed->Err_0 != 18)
        }),
{
}

/// Each failure of a scan is named after the step at which it came.
pub proof fn law_a_scan_failure_names_its_step(
    process: u32,
    current_thread: u32,
    targets: Seq<usize>,
    step: ScanStep,
    reply: ScanReply,
)
    requires
        replies_to(step, reply),
        advance(process, current_thread, targets, step, reply) is Err,
    ensures
        ({
            let error = advance(process, current_thread, targets, step, reply)->Err_0;
            &&& error is Snapshot <==> step is Snapshot
            &&& error is Enumeration <==> (step is First || step is Next)
            &&& (error is OutOfMemory || error is OpenThread) <==> step is Open
            &&& error is OutOfMemory <==> (reply is Opened && !reply->allocated)
            &&& error is SuspendThread <==> step is Suspend
            &&& (error is ThreadContext || error is TargetBusy) <==> step is ReadContext
            &&& error matches QuiescenceError::ThreadContext(code) ==> reply
                == ScanReply::Context(Err(code))
            &&& error is TargetBusy <==> (reply is Context && reply->Context_0 is Ok)
        }),
{
}

/// A scan opens, suspends and reads one and the same thread before it goes on
/// to the next.
pub proof fn law_a_peer_is_opened_suspended_and_read(
    process: u32,
    current_thread: u32,
    targets: Seq<usize>,
    step: ScanStep,
    reply: ScanReply,
)
    requires
        replies_to(step, reply),
        advance(process, current_thread, targets, step, reply) is Ok,
    ensures
        ({
            let next = advance(process, current_thread, targets, step, reply)->Ok_0;
            &&& step is Snapshot <==> next is First
            &&& step matches ScanStep::Open(thread) ==> next == ScanStep::Suspend(thread)
            &&& step matches ScanStep::Suspend(thread) ==> next == ScanStep::ReadContext(thread)
            &&& step is ReadContext ==> next is Next
            &&& next is Finished ==> step is Next
        }),
{
}

/// A listed thread is opened exactly when it belongs to the process and is not
/// the scanning thread itself.
pub proof fn law_only_peers_are_opened(process: u32, current_thread: u32, entry: ListedThread)
    ensures
        visit(process, current_thread, entry) == ScanStep::Open(entry.thread) <==> (entry.owner
            == process && entry.thread != current_thread),
        visit(process, current_thread, entry) is Next <==> (entry.owner != process || entry.thread
            == current_thread),
{
}

/// A thread is busy when it stands in the window of any one target, and a
/// target more makes no thread less busy.
pub proof fn law_any_target_makes_a_thread_busy(
    address: usize,
    targets: Seq<usize>,
    more: Seq<usize>,
    i: int,
)
    requires
        0 <= i < targets.len(),
    ensures
        in_window(address, targets[i]) ==> in_some_window(address, targets),
        in_some_window(address, targets) ==> in_some_window(address, targets + more),
        in_some_window(address, targets) ==> in_some_window(address, more + targets),
        !in_some_window(address, Seq::empty()),
{
    if in_some_window(address, targets) {
        let j = choose|j: int| 0 <= j < targets.len() && #[trigger] in_window(address, targets[j]);
        assert((targets + more)[j] == targets[j]);
        assert((more + targets)[more.len() + j] == targets[j]);
    }
}

/// The threads that a scan visits are those of the process other than its own,
/// in the order in which they are listed.
pub proof fn law_visited_threads_are_the_listed_peers(
    process: u32,
    current_thread: u32,
    listed: Seq<ListedThread>,
    further: Seq<ListedThread>,
)
    ensures
        !peers(process, current_thread, listed).contains(current_thread),
        peers(process, current_thread, listed).len() <= listed.len(),
        peers(process, current_thread, listed + further) == peers(process, current_thread, listed)
            + peers(process, current_thread, further),
        (forall|i: int| 0 <= i < listed.len() ==> (#[trigger] listed[i]).owner == process
            && listed[i].thread != current_thread) ==> peers(process, current_thread, listed)
            == listed.map_values(|entry: ListedThread| entry.thread),
        (forall|i: int| 0 <= i < listed.len() ==> (#[trigger] listed[i]).owner != process) ==> peers(
            process,
            current_thread,
            listed,
        ).len() == 0,
    decreases listed.len() + further.len(),
{
    let found = peers(process, current_thread, listed);
    if further.len() > 0 {
        law_visited_threads_are_the_listed_peers(
            process,
            current_thread,
            listed,
            further.drop_last(),
        );
        assert((listed + further).drop_last() =~= listed + further.drop_last());
        assert(peers(process, current_thread, listed + further) =~= found + peers(
            process,
            current_thread,
            further,
        ));
    } else {
        assert(listed + further =~= listed);
        assert(peers(process, current_thread, further) =~= Seq::<u32>::empty());
        assert(peers(process, current_thread, listed + further) =~= found + peers(
            process,
            current_thread,
            further,
        ));
        if listed.len() > 0 {
            let rest = listed.drop_last();
            law_visited_threads_are_the_listed_peers(process, current_thread, rest, further);
            assert forall|i: int| 0 <= i < found.len() implies found[i] != current_thread by {
                let earlier = peers(process, current_thread, rest);
                if i < earlier.len() {
                    assert(found[i] == earlier[i]);
                    assert(earlier.contains(earlier[i]));
                }
            }
            if forall|i: int| 0 <= i < listed.len() ==> (#[trigger] listed[i]).owner == process
                && listed[i].thread != current_thread {
                assert forall|i: int| 0 <= i < rest.len() implies (#[trigger] rest[i]).owner
                    == process && rest[i].thread != current_thread by {
                    assert(rest[i] == listed[i]);
                }
                assert(listed.last() == listed[listed.len() - 1]);
                assert(listed.map_values(|entry: ListedThread| entry.thread) =~= rest.map_values(
                    |entry: ListedThread| entry.thread,
                ).push(listed.last().thread));
            }
            if forall|i: int| 0 <= i < listed.len() ==> (#[trigger] listed[i]).owner != process {
                assert forall|i: int| 0 <= i < rest.len() implies (#[trigger] rest[i]).owner
                    != process by {
                    assert(rest[i] == listed[i]);
                }
                assert(listed.last() == listed[listed.len() - 1]);
            }
        } else {
            assert(listed.map_values(|entry: ListedThread| entry.thread) =~= found);
        }
    }
}

/// Threads are let go in the opposite order to that in which they were held
/// once a scan is through; a thread whose place could not be told is let go
/// before all others.
pub proof fn law_threads_are_let_go_in_order(step: ScanStep, held: Seq<u32>, i: int)
    requires
        0 <= i < held.len(),
    ensures
        resume_order(step, held).len() == held.len(),
        step is Finished ==> resume_order(step, held)[i] == held[held.len() - 1 - i],
        step is ReadContext ==> resume_order(step, held)[0] == held[held.len() - 1],
        step is ReadContext && i > 0 ==> resume_order(step, held)[i] == held[i - 1],
        !(step is Finished) && !(step is ReadContext) ==> resume_order(step, held)[i] == held[i],
{
}

} // verus!
