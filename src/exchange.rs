use vstd::prelude::*;

verus! {

/// The execution strategy of one evaluation.
#[derive(Debug, Clone, Copy, PartialEq, Eq, Structural)]
pub enum BackendKind {
    /// Runs the kernel on the host; needs no device. The correctness oracle.
    SequentialReference,
    /// Device execution that tracks both input writes by events and lets the
    /// device write the counts straight into host memory.
    DeviceBackendA,
    /// Device execution with a blocking write of the real coordinates and a
    /// tracked write of the imaginary ones.
    DeviceBackendB,
}

/// The three buffers of one evaluation.
#[derive(Debug, Clone, Copy, PartialEq, Eq, Structural)]
pub enum Operand {
    /// Real-axis coordinates, one per grid point.
    Xs,
    /// Imaginary-axis coordinates, one per grid point.
    Ys,
    /// Iteration counts, one per grid point.
    Counts,
}

/// How the kernel may use a buffer.
#[derive(Debug, Clone, Copy, PartialEq, Eq, Structural)]
pub enum Access {
    ReadOnly,
    WriteOnly,
    ReadWrite,
}

/// Who holds a buffer's storage.
#[derive(Debug, Clone, Copy, PartialEq, Eq, Structural)]
pub enum Backing {
    /// The device owns the storage.
    Owned,
    /// The storage is the host's array; the host must leave it untouched
    /// until the read that fills it has been awaited.
    Borrowed,
}

/// A buffer to create: which one, its access, its length and its backing.
#[derive(Debug, Clone, Copy, PartialEq, Eq, Structural)]
pub struct BufferSpec {
    pub operand: Operand,
    pub access: Access,
    pub len: usize,
    pub backing: Backing,
}

/// One step of an evaluation on a backend. A step that is not blocking
/// yields an event, named by the step's position in the plan; `wait` lists
/// the events that must have completed before the step starts.
#[derive(Debug, Clone)]
pub enum Command {
    /// Find a device and open a session (context and queue) on it.
    Acquire,
    /// Build the kernel program and look up its entry point.
    Build,
    /// Create a buffer.
    Allocate(BufferSpec),
    /// Copy the host's coordinates into a buffer.
    Write { target: Operand, blocking: bool, wait: Vec<usize> },
    /// Run the kernel on `work_size` points, reading the coordinate buffers
    /// and writing the counts buffer.
    Launch { work_size: usize, wait: Vec<usize> },
    /// Copy a buffer back into the host's array.
    Read { source: Operand, blocking: bool, wait: Vec<usize> },
    /// Suspend until the event of step `event` has completed.
    Await { event: usize },
}

/// Whether the step hands back an event that later steps may wait on.
pub open spec fn yields_event(c: Command) -> bool {
    match c {
        Command::Write { blocking, .. } => !blocking,
        Command::Launch { .. } => true,
        Command::Read { blocking, .. } => !blocking,
        _ => false,
    }
}

/// The events a step waits on.
pub open spec fn wait_of(c: Command) -> Seq<usize> {
    match c {
        Command::Write { wait, .. } => wait@,
        Command::Launch { wait, .. } => wait@,
        Command::Read { wait, .. } => wait@,
        Command::Await { event } => seq![event],
        _ => Seq::empty(),
    }
}

/// Whether the step changes the contents of buffer `b`.
pub open spec fn writes_to(c: Command, b: Operand) -> bool {
    match c {
        Command::Write { target, .. } => target == b,
        Command::Launch { .. } => b == Operand::Counts,
        _ => false,
    }
}

/// Whether the step reads the contents of buffer `b`.
pub open spec fn reads_from(c: Command, b: Operand) -> bool {
    match c {
        Command::Launch { .. } => b == Operand::Xs || b == Operand::Ys,
        Command::Read { source, .. } => source == b,
        _ => false,
    }
}

/// Whether the step touches buffer `b` at all.
pub open spec fn uses(c: Command, b: Operand) -> bool {
    writes_to(c, b) || reads_from(c, b)
}

/// Whether the step creates buffer `b`.
pub open spec fn allocates(c: Command, b: Operand) -> bool {
    c matches Command::Allocate(s) && s.operand == b
}

/// Whether step `k` of plan `p` can only start once step `w` has completed:
/// `w` was blocking, `k` waits on its event, or an earlier await did.
pub open spec fn settled(p: Seq<Command>, w: int, k: int) -> bool {
    ||| !yields_event(p[w])
    ||| wait_of(p[k]).contains(w as usize)
    ||| exists|a: int| w < a < k && #[trigger] awaits(p[a], w)
}

/// Whether the step is an await of the event of step `e`.
pub open spec fn awaits(c: Command, e: int) -> bool {
    c matches Command::Await { event } && event == e
}

/// The dependency rules of a plan:
/// every wait names an earlier step that yields an event; every buffer is
/// created before it is used; a step that reads a buffer starts only after
/// every earlier step that wrote it has completed; and the plan ends with
/// an await of the read that fills the host's counts.
pub open spec fn ordered(p: Seq<Command>) -> bool {
    &&& forall|k: int, i: int|
        0 <= k < p.len() && 0 <= i < wait_of(#[trigger] p[k]).len() ==> {
            let e = #[trigger] wait_of(p[k])[i] as int;
            0 <= e < k && yields_event(p[e])
        }
    &&& forall|k: int, b: Operand|
        0 <= k < p.len() && #[trigger] uses(p[k], b) ==> exists|a: int|
            0 <= a < k && #[trigger] allocates(p[a], b)
    &&& forall|w: int, k: int, b: Operand|
        0 <= w < k < p.len() && #[trigger] writes_to(p[w], b) && #[trigger] reads_from(p[k], b)
            ==> settled(p, w, k)
    &&& p.len() >= 2
    &&& awaits(p.last(), p.len() - 2)
    &&& reads_from(p[p.len() - 2], Operand::Counts)
}

/// The counts buffer of a backend: the device writes into host memory on
/// `DeviceBackendA`, into storage of its own on the others.
pub open spec fn counts_backing(kind: BackendKind) -> Backing {
    if kind == BackendKind::DeviceBackendA {
        Backing::Borrowed
    } else {
        Backing::Owned
    }
}

/// Whether the real-axis write blocks the host.
pub open spec fn blocks_xs_write(kind: BackendKind) -> bool {
    kind == BackendKind::DeviceBackendB
}

/// Whether `c` creates buffer `b` with the given access, length and backing.
pub open spec fn is_allocation(c: Command, b: Operand, access: Access, n: int, backing: Backing) -> bool {
    c matches Command::Allocate(s) && s.operand == b && s.access == access && s.len == n
        && s.backing == backing
}

/// The plan of one evaluation of `n` points on backend `kind`, step by step.
pub open spec fn is_plan(kind: BackendKind, n: int, p: Seq<Command>) -> bool {
    &&& p.len() == 10
    &&& p[0] is Acquire
    &&& p[1] is Build
    &&& is_allocation(p[2], Operand::Xs, Access::ReadOnly, n, Backing::Owned)
    &&& is_allocation(p[3], Operand::Ys, Access::ReadOnly, n, Backing::Owned)
    &&& is_allocation(p[4], Operand::Counts, Access::WriteOnly, n, counts_backing(kind))
    &&& p[5] matches Command::Write { target, blocking, wait } && target == Operand::Xs
        && blocking == blocks_xs_write(kind) && wait@ == Seq::<usize>::empty()
    &&& p[6] matches Command::Write { target, blocking, wait } && target == Operand::Ys
        && !blocking && wait@ == Seq::<usize>::empty()
    &&& p[7] matches Command::Launch { work_size, wait } && work_size == n && wait@ == (
    if blocks_xs_write(kind) {
        seq![6usize]
    } else {
        seq![5usize, 6usize]
    })
    &&& p[8] matches Command::Read { source, blocking, wait } && source == Operand::Counts
        && !blocking && wait@ == seq![7usize]
    &&& p[9] matches Command::Await { event } && event == 8
}

/// Every plan of `is_plan` obeys the dependency rules.
pub proof fn lemma_plan_is_ordered(kind: BackendKind, n: int, p: Seq<Command>)
    requires
        is_plan(kind, n, p),
    ensures
        ordered(p),
{
    assert forall|k: int, i: int|
        0 <= k < p.len() && 0 <= i < wait_of(#[trigger] p[k]).len() implies {
            let e = #[trigger] wait_of(p[k])[i] as int;
            0 <= e < k && yields_event(p[e])
        } by {
        if k == 7 && !blocks_xs_write(kind) {
            assert(i == 0 || i == 1);
        }
    }
    assert forall|k: int, b: Operand| 0 <= k < p.len() && #[trigger] uses(p[k], b) implies exists|
        a: int,
    | 0 <= a < k && #[trigger] allocates(p[a], b) by {
        if b == Operand::Xs {
            assert(allocates(p[2], b));
        } else if b == Operand::Ys {
            assert(allocates(p[3], b));
        } else {
            assert(allocates(p[4], b));
        }
    }
    assert forall|w: int, k: int, b: Operand|
        0 <= w < k < p.len() && #[trigger] writes_to(p[w], b) && #[trigger] reads_from(
            p[k],
            b,
        ) implies settled(p, w, k) by {
        if k == 7 && w == 6 {
            let ws = wait_of(p[k]);
            assert(ws[ws.len() - 1] == 6usize);
        }
        if k == 8 {
            assert(wait_of(p[k])[0] == 7usize);
        }
    }
}

/// Lays out the steps of one evaluation of `n` points on backend `kind`:
/// create the three buffers, write both coordinate arrays, launch once both
/// writes are done, read the counts back once the launch is done, and await
/// that read.
pub fn plan(kind: BackendKind, n: usize) -> (p: Vec<Command>)
    ensures
        is_plan(kind, n as int, p@),
        ordered(p@),
{
    let tracked_xs = match kind {
        BackendKind::DeviceBackendB => false,
        _ => true,
    };
    let counts = match kind {
        BackendKind::DeviceBackendA => Backing::Borrowed,
        _ => Backing::Owned,
    };
    let mut launch_wait: Vec<usize> = Vec::new();
    if tracked_xs {
        launch_wait.push(5);
    }
    launch_wait.push(6);
    let xs_wait: Vec<usize> = Vec::new();
    let ys_wait: Vec<usize> = Vec::new();
    let read_wait: Vec<usize> = vec![7];
    assert(xs_wait@ =~= Seq::<usize>::empty());
    assert(ys_wait@ =~= Seq::<usize>::empty());
    assert(read_wait@ =~= seq![7usize]);
    assert(launch_wait@ =~= (if blocks_xs_write(kind) {
        seq![6usize]
    } else {
        seq![5usize, 6usize]
    }));
    let mut p: Vec<Command> = Vec::new();
    p.push(Command::Acquire);
    p.push(Command::Build);
    p.push(
        Command::Allocate(
            BufferSpec { operand: Operand::Xs, access: Access::ReadOnly, len: n, backing: Backing::Owned },
        ),
    );
    p.push(
        Command::Allocate(
            BufferSpec { operand: Operand::Ys, access: Access::ReadOnly, len: n, backing: Backing::Owned },
        ),
    );
    p.push(
        Command::Allocate(
            BufferSpec { operand: Operand::Counts, access: Access::WriteOnly, len: n, backing: counts },
        ),
    );
    p.push(Command::Write { target: Operand::Xs, blocking: !tracked_xs, wait: xs_wait });
    p.push(Command::Write { target: Operand::Ys, blocking: false, wait: ys_wait });
    p.push(Command::Launch { work_size: n, wait: launch_wait });
    p.push(Command::Read { source: Operand::Counts, blocking: false, wait: read_wait });
    p.push(Command::Await { event: 8 });
    proof {
        lemma_plan_is_ordered(kind, n as int, p@);
    }
    p
}

} // verus!
