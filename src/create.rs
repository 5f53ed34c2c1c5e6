use vstd::prelude::*;
use crate::error::KeystoreError;

verus! {

/// Where the creation of a keystore file stands.
///
/// The new record is first written to a temporary file beside the target, then
/// moved to the target in one step that never replaces an existing file. The
/// target path is never opened for writing.
#[derive(Debug, Clone, Copy)]
pub enum CreatePhase {
    /// Nothing done yet.
    Start,
    /// Waiting to learn whether the target path is taken.
    Checking,
    /// Waiting for the temporary file to be written.
    Writing,
    /// Waiting for the temporary file to be moved to the target.
    Publishing,
    /// Waiting for the temporary file to be removed after the failure kept here.
    CleaningUp(KeystoreError),
    /// Finished, successfully or not.
    Done(Result<(), KeystoreError>),
}

/// What the caller must do next.
#[derive(Debug, Clone, Copy)]
pub enum CreateAction {
    /// Find out whether a file is present at the target path.
    CheckTarget,
    /// Write the encoded record to the temporary file.
    WriteTemp,
    /// Move the temporary file to the target path, failing if the target exists.
    Publish,
    /// Remove the temporary file.
    RemoveTemp,
    /// Report this outcome; nothing remains to be done.
    Finish(Result<(), KeystoreError>),
}

/// What came of the last action.
#[derive(Debug, Clone, Copy)]
pub enum CreateEvent {
    /// The protocol is started.
    Begin,
    /// The answer to `CheckTarget`.
    TargetChecked { exists: bool },
    /// The result of `WriteTemp`, `Publish` or `RemoveTemp`.
    Completed(Result<(), KeystoreError>),
}

/// Whether `e` answers the action that phase `p` waits on.
pub open spec fn accepts_spec(p: CreatePhase, e: CreateEvent) -> bool {
    match p {
        CreatePhase::Start => e == CreateEvent::Begin,
        CreatePhase::Checking => e is TargetChecked,
        CreatePhase::Writing | CreatePhase::Publishing | CreatePhase::CleaningUp(_) => e is Completed,
        CreatePhase::Done(_) => false,
    }
}

/// The next phase and action after event `e` in phase `p`.
pub open spec fn next_spec(p: CreatePhase, e: CreateEvent) -> (CreatePhase, CreateAction) {
    match (p, e) {
        (CreatePhase::Start, _) => (CreatePhase::Checking, CreateAction::CheckTarget),
        (CreatePhase::Checking, CreateEvent::TargetChecked { exists }) => {
            if exists {
                (
                    CreatePhase::Done(Err(KeystoreError::AlreadyExists)),
                    CreateAction::Finish(Err(KeystoreError::AlreadyExists)),
                )
            } else {
                (CreatePhase::Writing, CreateAction::WriteTemp)
            }
        },
        (CreatePhase::Writing, CreateEvent::Completed(r)) => match r {
            Ok(()) => (CreatePhase::Publishing, CreateAction::Publish),
            Err(err) => (CreatePhase::CleaningUp(err), CreateAction::RemoveTemp),
        },
        (CreatePhase::Publishing, CreateEvent::Completed(r)) => match r {
            Ok(()) => (CreatePhase::Done(Ok(())), CreateAction::Finish(Ok(()))),
            Err(err) => (CreatePhase::CleaningUp(err), CreateAction::RemoveTemp),
        },
        (CreatePhase::CleaningUp(err), _) => (CreatePhase::Done(Err(err)), CreateAction::Finish(Err(err))),
        _ => (p, CreateAction::Finish(Err(KeystoreError::Io))),
    }
}

/// Whether a temporary file may be on disk in phase `p`.
pub open spec fn temp_may_exist(p: CreatePhase) -> bool {
    p is Writing || p is Publishing || p is CleaningUp
}

/// The steps of creating a keystore file without ever overwriting one or
/// leaving a partial file at the target path.
pub struct CreateFlow {
    pub phase: CreatePhase,
}

impl CreateFlow {
    /// A flow that has done nothing yet.
    pub fn new() -> (r: CreateFlow)
        ensures
            r.phase == CreatePhase::Start,
    {
        CreateFlow { phase: CreatePhase::Start }
    }

    /// Whether `e` answers the action that this flow waits on.
    pub fn accepts(&self, e: &CreateEvent) -> (r: bool)
        ensures
            r == accepts_spec(self.phase, *e),
    {
        match self.phase {
            CreatePhase::Start => match e {
                CreateEvent::Begin => true,
                _ => false,
            },
            CreatePhase::Checking => match e {
                CreateEvent::TargetChecked { .. } => true,
                _ => false,
            },
            CreatePhase::Writing | CreatePhase::Publishing | CreatePhase::CleaningUp(_) => match e {
                CreateEvent::Completed(_) => true,
                _ => false,
            },
            CreatePhase::Done(_) => false,
        }
    }

    /// Takes the outcome of the last action and returns the next one.
    pub fn step(&mut self, e: CreateEvent) -> (a: CreateAction)
        requires
            accepts_spec(old(self).phase, e),
        ensures
            (final(self).phase, a) == next_spec(old(self).phase, e),
    {
        match (self.phase, e) {
            (CreatePhase::Start, _) => {
                self.phase = CreatePhase::Checking;
                CreateAction::CheckTarget
            },
            (CreatePhase::Checking, CreateEvent::TargetChecked { exists }) => {
                if exists {
                    self.phase = CreatePhase::Done(Err(KeystoreError::AlreadyExists));
                    CreateAction::Finish(Err(KeystoreError::AlreadyExists))
                } else {
                    self.phase = CreatePhase::Writing;
                    CreateAction::WriteTemp
                }
            },
            (CreatePhase::Writing, CreateEvent::Completed(r)) => match r {
                Ok(()) => {
                    self.phase = CreatePhase::Publishing;
                    CreateAction::Publish
                },
                Err(err) => {
                    self.phase = CreatePhase::CleaningUp(err);
                    CreateAction::RemoveTemp
                },
            },
            (CreatePhase::Publishing, CreateEvent::Completed(r)) => match r {
                Ok(()) => {
                    self.phase = CreatePhase::Done(Ok(()));
                    CreateAction::Finish(Ok(()))
                },
                Err(err) => {
                    self.phase = CreatePhase::CleaningUp(err);
                    CreateAction::RemoveTemp
                },
            },
            (CreatePhase::CleaningUp(err), _) => {
                self.phase = CreatePhase::Done(Err(err));
                CreateAction::Finish(Err(err))
            },
            _ => CreateAction::Finish(Err(KeystoreError::Io)),
        }
    }
}

/// When the target path is already taken, creation ends with `AlreadyExists`
/// at once, and nothing is written or moved anywhere.
pub proof fn lemma_no_overwrite(p: CreatePhase)
    requires
        p == CreatePhase::Checking,
    ensures
        next_spec(p, CreateEvent::TargetChecked { exists: true }) == (
            CreatePhase::Done(Err(KeystoreError::AlreadyExists)),
            CreateAction::Finish(Err(KeystoreError::AlreadyExists)),
        ),
        forall|e: CreateEvent| !accepts_spec(next_spec(p, CreateEvent::TargetChecked { exists: true }).0, e),
{
}

/// The target path is touched only by `Publish`, which comes only after the
/// temporary file was written in full; no failure ends the flow while a
/// temporary file may remain; and a flow never reports success unless the
/// move to the target succeeded.
pub proof fn lemma_atomic_create(p: CreatePhase, e: CreateEvent)
    requires
        accepts_spec(p, e),
    ensures
        next_spec(p, e).1 == CreateAction::Publish ==> p == CreatePhase::Writing && e == CreateEvent::Completed(Ok(())),
        next_spec(p, e).1 is Finish && next_spec(p, e).0 is Done ==> !temp_may_exist(p) || p is CleaningUp
            || next_spec(p, e).1 == CreateAction::Finish(Ok(())),
        next_spec(p, e).1 == CreateAction::Finish(Ok(())) ==> p == CreatePhase::Publishing && e == CreateEvent::Completed(Ok(())),
        temp_may_exist(p) && e is Completed && e->Completed_0 is Err ==> (p is CleaningUp || next_spec(p, e).1 == CreateAction::RemoveTemp),
{
    if let CreateEvent::Completed(r) = e {
        if let Ok(u) = r {
            assert(u == ());
            assert(r == Ok::<(), KeystoreError>(()));
        }
    }
}

/// The actions that a flow in phase `p` asks for when it is handed the events
/// `es` in turn, up to the first event that it does not accept.
pub open spec fn run(p: CreatePhase, es: Seq<CreateEvent>) -> Seq<CreateAction>
    decreases es.len(),
{
    if es.len() == 0 || !accepts_spec(p, es[0]) {
        Seq::empty()
    } else {
        seq![next_spec(p, es[0]).1] + run(next_spec(p, es[0]).0, es.drop_first())
    }
}

/// Whatever events follow, a creation whose target check finds a file asks
/// for nothing but that check and then ends with `AlreadyExists`.
pub proof fn lemma_no_overwrite_run(es: Seq<CreateEvent>)
    requires
        es.len() >= 2,
        es[0] == CreateEvent::Begin,
        es[1] == (CreateEvent::TargetChecked { exists: true }),
    ensures
        run(CreatePhase::Start, es) == seq![CreateAction::CheckTarget, CreateAction::Finish(Err(KeystoreError::AlreadyExists))],
{
    let es1 = es.drop_first();
    let es2 = es1.drop_first();
    let done = CreatePhase::Done(Err(KeystoreError::AlreadyExists));
    assert(run(done, es2) == Seq::<CreateAction>::empty());
    assert(run(CreatePhase::Checking, es1) == seq![CreateAction::Finish(Err(KeystoreError::AlreadyExists))] + run(done, es2));
    assert(run(CreatePhase::Start, es) == seq![CreateAction::CheckTarget] + run(CreatePhase::Checking, es1));
    assert(run(CreatePhase::Start, es) =~= seq![CreateAction::CheckTarget, CreateAction::Finish(Err(KeystoreError::AlreadyExists))]);
}

/// In any sequence of steps, `Publish` (the one action that touches the
/// target) comes right after `WriteTemp`, or first where the flow was already
/// waiting on that write.
pub proof fn lemma_publish_follows_write(p: CreatePhase, es: Seq<CreateEvent>, k: int)
    requires
        0 <= k < run(p, es).len(),
        run(p, es)[k] == CreateAction::Publish,
    ensures
        k == 0 ==> p == CreatePhase::Writing,
        k > 0 ==> run(p, es)[k - 1] == CreateAction::WriteTemp,
    decreases es.len(),
{
    let q = next_spec(p, es[0]).0;
    let rest = es.drop_first();
    assert(run(p, es) == seq![next_spec(p, es[0]).1] + run(q, rest));
    if k == 0 {
        lemma_atomic_create(p, es[0]);
    } else {
        lemma_publish_follows_write(q, rest, k - 1);
        if k - 1 == 0 {
            lemma_atomic_create(p, es[0]);
            assert(q == CreatePhase::Writing);
        }
    }
}

/// In any sequence of steps, a failure is reported only right after
/// `RemoveTemp`, or right after the first target check found a file (before
/// anything was written), or first where no temporary file can exist.
pub proof fn lemma_failure_after_cleanup(p: CreatePhase, es: Seq<CreateEvent>, k: int)
    requires
        0 <= k < run(p, es).len(),
        run(p, es)[k] is Finish,
        run(p, es)[k]->Finish_0 is Err,
    ensures
        k == 0 ==> p is Checking || p is CleaningUp,
        k > 0 ==> run(p, es)[k - 1] == CreateAction::RemoveTemp
            || (k == 1 && p == CreatePhase::Start && run(p, es)[0] == CreateAction::CheckTarget),
    decreases es.len(),
{
    let q = next_spec(p, es[0]).0;
    let rest = es.drop_first();
    assert(run(p, es) == seq![next_spec(p, es[0]).1] + run(q, rest));
    if k > 0 {
        lemma_failure_after_cleanup(q, rest, k - 1);
        assert(!(q is Start));
    }
}

} // verus!
