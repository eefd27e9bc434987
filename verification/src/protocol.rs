use vstd::prelude::*;

verus! {

/// One operation on the state file. An actor that loads or saves the record
/// carries out a fixed list of these.
#[derive(Clone, Copy, Debug, PartialEq, Eq, Structural)]
pub enum FileOp {
    /// Wait for the shared lock: granted while nobody holds the exclusive one.
    LockShared,
    /// Wait for the exclusive lock: granted while nobody holds any lock.
    LockExclusive,
    /// Cut the file to length zero.
    Truncate,
    /// Write the whole text, in as many pieces as the system makes of it.
    WriteAll,
    /// Read the whole file.
    ReadAll,
    /// Give the lock back.
    Unlock,
}

/// What an actor does with the file.
pub enum Job {
    Load,
    Save(Seq<char>),
}

/// The operations of a load, in order.
pub open spec fn load_protocol() -> Seq<FileOp> {
    seq![FileOp::LockShared, FileOp::ReadAll, FileOp::Unlock]
}

/// The operations of a save, in order: the file is cut and written only
/// under the exclusive lock.
pub open spec fn save_protocol() -> Seq<FileOp> {
    seq![FileOp::LockExclusive, FileOp::Truncate, FileOp::WriteAll, FileOp::Unlock]
}

/// The operations of a job.
pub open spec fn protocol(job: Job) -> Seq<FileOp> {
    match job {
        Job::Load => load_protocol(),
        Job::Save(_) => save_protocol(),
    }
}

/// The operations of a load, in order.
pub fn load_ops() -> (ops: Vec<FileOp>)
    ensures
        ops@ == load_protocol(),
{
    let mut ops: Vec<FileOp> = Vec::new();
    ops.push(FileOp::LockShared);
    ops.push(FileOp::ReadAll);
    ops.push(FileOp::Unlock);
    assert(ops@ =~= load_protocol());
    ops
}

/// The operations of a save, in order.
pub fn save_ops() -> (ops: Vec<FileOp>)
    ensures
        ops@ == save_protocol(),
{
    let mut ops: Vec<FileOp> = Vec::new();
    ops.push(FileOp::LockExclusive);
    ops.push(FileOp::Truncate);
    ops.push(FileOp::WriteAll);
    ops.push(FileOp::Unlock);
    assert(ops@ =~= save_protocol());
    ops
}

/// Where an actor stands in its list of jobs.
pub struct Actor {
    /// The jobs that the actor carries out, one after the other.
    pub jobs: Seq<Job>,
    /// How many of them are done.
    pub done: nat,
    /// How many operations of the current job are done.
    pub at: nat,
    /// How many characters of the current save are written.
    pub written: nat,
    /// What the actor's reads have returned so far.
    pub seen: Seq<Seq<char>>,
}

/// The file, its locks, and the actors that share it.
pub struct Shared {
    /// What the file held before any actor touched it.
    pub initial: Seq<char>,
    pub content: Seq<char>,
    /// The actors that hold the shared lock.
    pub readers: Set<int>,
    /// The actor that holds the exclusive lock.
    pub writer: Option<int>,
    pub actors: Seq<Actor>,
}

/// Whether an actor has a job left.
pub open spec fn busy(a: Actor) -> bool {
    a.done < a.jobs.len()
}

/// The text that the actor's current job writes.
pub open spec fn text_of(a: Actor) -> Seq<char> {
    if busy(a) {
        match a.jobs[a.done as int] {
            Job::Save(t) => t,
            Job::Load => Seq::empty(),
        }
    } else {
        Seq::empty()
    }
}

/// The actor after one more operation of its current job.
pub open spec fn advanced(a: Actor) -> Actor {
    if a.at + 1 >= protocol(a.jobs[a.done as int]).len() {
        Actor { done: a.done + 1, at: 0, written: 0, ..a }
    } else {
        Actor { at: a.at + 1, ..a }
    }
}

/// The system after actor `i` was given a turn: it carries out its next
/// operation, or one more character of a write; it stays where it is while
/// it waits for a lock, and when it has no job left.
pub open spec fn turn(s: Shared, i: int) -> Shared {
    if 0 <= i < s.actors.len() && busy(s.actors[i]) && s.actors[i].at < protocol(
        s.actors[i].jobs[s.actors[i].done as int],
    ).len() {
        let a = s.actors[i];
        match protocol(a.jobs[a.done as int])[a.at as int] {
            FileOp::LockShared => if s.writer is None {
                Shared { readers: s.readers.insert(i), actors: s.actors.update(i, advanced(a)), ..s }
            } else {
                s
            },
            FileOp::LockExclusive => if s.writer is None && s.readers =~= Set::<int>::empty() {
                Shared { writer: Some(i), actors: s.actors.update(i, advanced(a)), ..s }
            } else {
                s
            },
            FileOp::Truncate => Shared {
                content: Seq::empty(),
                actors: s.actors.update(i, Actor { written: 0, ..advanced(a) }),
                ..s
            },
            FileOp::WriteAll => if a.written < text_of(a).len() {
                Shared {
                    content: s.content.push(text_of(a)[a.written as int]),
                    actors: s.actors.update(i, Actor { written: a.written + 1, ..a }),
                    ..s
                }
            } else {
                Shared { actors: s.actors.update(i, advanced(a)), ..s }
            },
            FileOp::ReadAll => Shared {
                actors: s.actors.update(i, Actor { seen: a.seen.push(s.content), ..advanced(a) }),
                ..s
            },
            FileOp::Unlock => Shared {
                readers: s.readers.remove(i),
                writer: if s.writer == Some(i) {
                    None
                } else {
                    s.writer
                },
                actors: s.actors.update(i, advanced(a)),
                ..s
            },
        }
    } else {
        s
    }
}

/// The system after the actors were given turns in the order of `schedule`.
pub open spec fn scheduled(s: Shared, schedule: Seq<int>) -> Shared
    decreases schedule.len(),
{
    if schedule.len() == 0 {
        s
    } else {
        turn(scheduled(s, schedule.drop_last()), schedule.last())
    }
}

/// A system in which no actor has touched the file yet.
pub open spec fn fresh(s: Shared) -> bool {
    &&& s.content == s.initial
    &&& s.readers =~= Set::<int>::empty()
    &&& s.writer is None
    &&& forall|i: int|
        0 <= i < s.actors.len() ==> {
            let a = #[trigger] s.actors[i];
            a.done == 0 && a.at == 0 && a.written == 0 && a.seen.len() == 0
        }
}

/// Whether a text is one that was in the file as a whole: what the file held
/// at first, or the text of one save.
pub open spec fn whole(s: Shared, text: Seq<char>) -> bool {
    text == s.initial || exists|i: int, j: int|
        0 <= i < s.actors.len() && 0 <= j < s.actors[i].jobs.len() && #[trigger] s.actors[i].jobs[j]
            == Job::Save(text)
}

/// Whether actor `i` stands where its place in its jobs and the locks agree:
/// it holds the shared lock exactly from the lock to the unlock of a load,
/// the exclusive one exactly from the lock to the unlock of a save, and all
/// that it has read was in the file as a whole.
pub open spec fn actor_in_order(s: Shared, i: int) -> bool {
    let a = s.actors[i];
    &&& a.done <= a.jobs.len()
    &&& busy(a) ==> a.at < protocol(a.jobs[a.done as int]).len()
    &&& s.readers.contains(i) <==> busy(a) && a.jobs[a.done as int] is Load && 1 <= a.at
    &&& s.writer == Some(i) <==> busy(a) && a.jobs[a.done as int] is Save && 1 <= a.at
    &&& forall|k: int| 0 <= k < a.seen.len() ==> whole(s, #[trigger] a.seen[k])
}

/// Whether the file holds what the locks allow: a whole text while nobody
/// holds the exclusive lock, and under that lock what its holder has made of
/// the file so far.
pub open spec fn content_in_order(s: Shared) -> bool {
    match s.writer {
        None => whole(s, s.content),
        Some(w) => {
            let a = s.actors[w];
            &&& a.at == 1 ==> whole(s, s.content)
            &&& a.at == 2 ==> a.written <= text_of(a).len() && s.content == text_of(a).take(
                a.written as int,
            )
            &&& a.at == 3 ==> s.content == text_of(a)
        },
    }
}

/// What holds of the system at every moment.
pub open spec fn in_order(s: Shared) -> bool {
    &&& forall|i: int| 0 <= i < s.actors.len() ==> actor_in_order(s, i)
    &&& forall|i: int| s.readers.contains(i) ==> 0 <= i < s.actors.len()
    &&& s.writer matches Some(w) ==> 0 <= w < s.actors.len() && s.readers =~= Set::<int>::empty()
    &&& content_in_order(s)
}

/// Whether two systems are made of the same actors with the same jobs on a
/// file with the same first contents.
pub open spec fn same_jobs(s: Shared, t: Shared) -> bool {
    &&& s.initial == t.initial
    &&& s.actors.len() == t.actors.len()
    &&& forall|i: int| 0 <= i < s.actors.len() ==> (#[trigger] s.actors[i]).jobs == t.actors[i].jobs
}

/// Two systems with the same jobs have the same whole texts.
proof fn lemma_whole_carries(s: Shared, t: Shared, text: Seq<char>)
    requires
        same_jobs(s, t),
    ensures
        whole(s, text) == whole(t, text),
{
    if whole(s, text) && text != s.initial {
        let (i, j) = choose|i: int, j: int|
            0 <= i < s.actors.len() && 0 <= j < s.actors[i].jobs.len() && #[trigger] s.actors[i].jobs[j]
                == Job::Save(text);
        assert(s.actors[i].jobs == t.actors[i].jobs);
        assert(t.actors[i].jobs[j] == Job::Save(text));
    }
    if whole(t, text) && text != t.initial {
        let (i, j) = choose|i: int, j: int|
            0 <= i < t.actors.len() && 0 <= j < t.actors[i].jobs.len() && #[trigger] t.actors[i].jobs[j]
                == Job::Save(text);
        assert(s.actors[i].jobs == t.actors[i].jobs);
        assert(s.actors[i].jobs[j] == Job::Save(text));
    }
}

proof fn lemma_turn_keeps_jobs(s: Shared, i: int)
    ensures
        same_jobs(s, turn(s, i)),
{
    let t = turn(s, i);
    assert forall|k: int| 0 <= k < s.actors.len() implies (#[trigger] s.actors[k]).jobs
        == t.actors[k].jobs by {}
}

proof fn lemma_turn_keeps_order(s: Shared, i: int)
    requires
        in_order(s),
    ensures
        in_order(turn(s, i)),
{
    let t = turn(s, i);
    lemma_turn_keeps_jobs(s, i);
    if t != s {
        let a = s.actors[i];
        let job = a.jobs[a.done as int];
        let op = protocol(job)[a.at as int];
        assert(actor_in_order(s, i));
        assert forall|x: Seq<char>| whole(s, x) implies whole(t, x) by {
            lemma_whole_carries(s, t, x);
        }
        if job is Save {
            assert(whole(s, text_of(a))) by {
                assert(s.actors[i].jobs[a.done as int] == Job::Save(text_of(a)));
            }
        }
        assert(text_of(a).take(text_of(a).len() as int) =~= text_of(a));
        if op is WriteAll && a.written < text_of(a).len() {
            assert(s.content.push(text_of(a)[a.written as int]) =~= text_of(a).take(
                a.written as int + 1,
            ));
        }
        if op is Truncate {
            assert(text_of(a).take(0) =~= Seq::<char>::empty());
        }
        assert forall|k: int| 0 <= k < t.actors.len() implies actor_in_order(t, k) by {
            assert(actor_in_order(s, k));
            let b = t.actors[k];
            assert forall|n: int| 0 <= n < b.seen.len() implies whole(t, #[trigger] b.seen[n]) by {
                if k == i && op is ReadAll && n == a.seen.len() {
                    assert(s.readers.contains(i));
                    assert(s.writer is None);
                    assert(whole(s, s.content));
                } else {
                    assert(whole(s, s.actors[k].seen[n]));
                }
            }
        }
        assert(content_in_order(t));
    }
}

/// Every system that the actors can reach from a fresh one is in order.
proof fn lemma_order_is_kept(s: Shared, schedule: Seq<int>)
    requires
        fresh(s),
    ensures
        in_order(scheduled(s, schedule)),
        same_jobs(s, scheduled(s, schedule)),
    decreases schedule.len(),
{
    if schedule.len() == 0 {
        assert forall|i: int| 0 <= i < s.actors.len() implies actor_in_order(s, i) by {
            assert(s.actors[i].done == 0);
        }
    } else {
        let before = scheduled(s, schedule.drop_last());
        lemma_order_is_kept(s, schedule.drop_last());
        lemma_turn_keeps_order(before, schedule.last());
        lemma_turn_keeps_jobs(before, schedule.last());
    }
}

/// No torn reads: whatever number of actors load and save, and in whatever
/// order they get their turns, a write split into single characters
/// included, each load returns a text that was in the file as a whole: what
/// the file held at first, or the full text of one of the saves.
pub proof fn lemma_reads_are_whole(s: Shared, schedule: Seq<int>, i: int, k: int)
    requires
        fresh(s),
        0 <= i < s.actors.len(),
        0 <= k < scheduled(s, schedule).actors[i].seen.len(),
    ensures
        whole(s, scheduled(s, schedule).actors[i].seen[k]),
{
    let end = scheduled(s, schedule);
    lemma_order_is_kept(s, schedule);
    assert(actor_in_order(end, i));
    lemma_whole_carries(s, end, end.actors[i].seen[k]);
}

/// What holds of the file's first text and of the text of every save holds
/// of every text that a load returns. Where each of these texts was stored
/// by a save that read it back as its record, each load gives a text that
/// is read as one of those records: never an empty, partial or mixed one.
pub proof fn lemma_reads_keep(
    s: Shared,
    schedule: Seq<int>,
    i: int,
    k: int,
    good: spec_fn(Seq<char>) -> bool,
)
    requires
        fresh(s),
        0 <= i < s.actors.len(),
        0 <= k < scheduled(s, schedule).actors[i].seen.len(),
        good(s.initial),
        forall|a: int, j: int|
            0 <= a < s.actors.len() && 0 <= j < s.actors[a].jobs.len() ==> (
            #[trigger] s.actors[a].jobs[j] matches Job::Save(text) ==> good(text)),
    ensures
        good(scheduled(s, schedule).actors[i].seen[k]),
{
    let text = scheduled(s, schedule).actors[i].seen[k];
    lemma_reads_are_whole(s, schedule, i, k);
    if text != s.initial {
        let (a, j) = choose|a: int, j: int|
            0 <= a < s.actors.len() && 0 <= j < s.actors[a].jobs.len() && #[trigger] s.actors[a].jobs[j]
                == Job::Save(text);
        assert(s.actors[a].jobs[j] == Job::Save(text));
    }
}

/// While nobody holds the exclusive lock, the file holds a whole text: what
/// it held at first, or the full text of one save, never a mix of two and
/// never a part of one. So it is once all saves have returned.
pub proof fn lemma_unlocked_file_is_whole(s: Shared, schedule: Seq<int>)
    requires
        fresh(s),
        scheduled(s, schedule).writer is None,
    ensures
        whole(s, scheduled(s, schedule).content),
{
    let end = scheduled(s, schedule);
    lemma_order_is_kept(s, schedule);
    lemma_whole_carries(s, end, end.content);
}

/// Whether a text is the full text of one of the saves.
pub open spec fn saved_text(s: Shared, text: Seq<char>) -> bool {
    exists|i: int, j: int|
        0 <= i < s.actors.len() && 0 <= j < s.actors[i].jobs.len() && #[trigger] s.actors[i].jobs[j]
            == Job::Save(text)
}

/// Whether one of the actors has carried a save out to its end.
pub open spec fn save_returned(s: Shared) -> bool {
    exists|i: int, j: int|
        0 <= i < s.actors.len() && 0 <= j < s.actors[i].done && j < s.actors[i].jobs.len()
            && (#[trigger] s.actors[i].jobs[j]) is Save
}

/// Whether the file, while nobody holds the exclusive lock, holds the text
/// of a save, or still its first text because no save has returned yet.
pub open spec fn settled(s: Shared) -> bool {
    s.writer is None ==> saved_text(s, s.content) || (s.content == s.initial && !save_returned(s))
}

proof fn lemma_turn_keeps_settled(s: Shared, i: int)
    requires
        in_order(s),
        settled(s),
    ensures
        settled(turn(s, i)),
{
    let t = turn(s, i);
    lemma_turn_keeps_jobs(s, i);
    lemma_turn_keeps_order(s, i);
    if t != s && t.writer is None {
        let a = s.actors[i];
        let job = a.jobs[a.done as int];
        assert(actor_in_order(s, i));
        if s.writer is Some {
            assert(s.writer == Some(i));
            assert(a.at == 3);
            assert(s.actors[i].jobs[a.done as int] == Job::Save(text_of(a)));
            assert(t.actors[i].jobs == s.actors[i].jobs);
            assert(t.actors[i].jobs[a.done as int] == Job::Save(t.content));
        } else {
            assert(t.content == s.content);
            if saved_text(s, s.content) {
                let (x, j) = choose|x: int, j: int|
                    0 <= x < s.actors.len() && 0 <= j < s.actors[x].jobs.len()
                        && #[trigger] s.actors[x].jobs[j] == Job::Save(s.content);
                assert(t.actors[x].jobs == s.actors[x].jobs);
                assert(t.actors[x].jobs[j] == Job::Save(t.content));
            } else if save_returned(t) {
                let (x, j) = choose|x: int, j: int|
                    0 <= x < t.actors.len() && 0 <= j < t.actors[x].done && j
                        < t.actors[x].jobs.len() && (#[trigger] t.actors[x].jobs[j]) is Save;
                assert(t.actors[x].jobs == s.actors[x].jobs);
                assert(s.actors[x].jobs[j] is Save);
                if x == i && j >= a.done {
                    assert(j == a.done);
                    assert(job is Save);
                    assert(a.at >= 1);
                    assert(s.writer == Some(i));
                }
                assert(0 <= j < s.actors[x].done);
                assert(save_returned(s));
            }
        }
    }
}

proof fn lemma_settled_is_kept(s: Shared, schedule: Seq<int>)
    requires
        fresh(s),
    ensures
        settled(scheduled(s, schedule)),
    decreases schedule.len(),
{
    if schedule.len() > 0 {
        let before = scheduled(s, schedule.drop_last());
        lemma_settled_is_kept(s, schedule.drop_last());
        lemma_order_is_kept(s, schedule.drop_last());
        lemma_turn_keeps_settled(before, schedule.last());
    }
}

/// No torn or lost writes: once a save has returned, the file, whenever
/// nobody holds the exclusive lock, holds exactly the text of one of the
/// saves, never a mix of two texts, a part of one, or what it held at first.
/// So after two actors have each saved, the file holds the text of the one
/// or of the other.
pub proof fn lemma_file_holds_a_saved_text(s: Shared, schedule: Seq<int>)
    requires
        fresh(s),
        scheduled(s, schedule).writer is None,
        save_returned(scheduled(s, schedule)),
    ensures
        saved_text(s, scheduled(s, schedule).content),
{
    let end = scheduled(s, schedule);
    lemma_settled_is_kept(s, schedule);
    lemma_order_is_kept(s, schedule);
    let (x, j) = choose|x: int, j: int|
        0 <= x < end.actors.len() && 0 <= j < end.actors[x].jobs.len() && #[trigger] end.actors[x].jobs[j]
            == Job::Save(end.content);
    assert(s.actors[x].jobs == end.actors[x].jobs);
    assert(s.actors[x].jobs[j] == Job::Save(end.content));
}

/// While one actor is cutting or writing the file, no other actor holds a
/// lock on it.
pub proof fn lemma_writer_is_alone(s: Shared, schedule: Seq<int>)
    requires
        fresh(s),
    ensures
        scheduled(s, schedule).writer is Some ==> scheduled(s, schedule).readers =~= Set::<int>::empty(),
        forall|i: int|
            0 <= i < s.actors.len() && busy(#[trigger] scheduled(s, schedule).actors[i]) && scheduled(
                s,
                schedule,
            ).actors[i].jobs[scheduled(s, schedule).actors[i].done as int] is Save && scheduled(
                s,
                schedule,
            ).actors[i].at >= 1 ==> scheduled(s, schedule).writer == Some(i),
{
    let end = scheduled(s, schedule);
    lemma_order_is_kept(s, schedule);
    assert forall|i: int|
        0 <= i < s.actors.len() && busy(#[trigger] end.actors[i]) && end.actors[i].jobs[end.actors[i].done as int] is Save
            && end.actors[i].at >= 1 implies end.writer == Some(i) by {
        assert(actor_in_order(end, i));
    }
}

} // verus!
