//! A mathematical model of the two mount tables — the host's and the
//! isolated context's — and proofs that the isolation plan reshapes them
//! as intended: read-only exposure holds, ephemeral mounts start empty,
//! no mount event leaks to the host, and the hostname is isolated.

use vstd::prelude::*;
use crate::config::ConfigView;
use crate::plan::{
    StepView, closing_steps, container_hostname, isolation_plan, readonly_step_pair,
    readonly_steps, tmpfs_steps,
};

verus! {

/// The conventional path of the proc filesystem.
pub open spec fn proc_path() -> Seq<char> {
    "/proc"@
}

/// One mount namespace's view of the world, reduced to what the
/// isolation steps decide: which paths are read-only, which carry a
/// fresh ephemeral mount (and the files written into it), whether proc
/// is mounted, the hostname, and the working directory.
pub struct FsView {
    /// Whether the root mount has been marked slave and recursive, so
    /// that mount events no longer propagate out of this namespace.
    pub propagation_isolated: bool,
    /// Paths carrying a recursive self-bind that a read-only remount can
    /// act on.
    pub bound: Set<Seq<char>>,
    /// Paths whose topmost mount is read-only.
    pub readonly: Set<Seq<char>>,
    /// Ephemeral mounts: each mount point maps to the names of the files
    /// written under it since it was mounted.
    pub tmpfs: Map<Seq<char>, Set<Seq<char>>>,
    /// Whether a proc filesystem is mounted at the conventional path.
    pub proc_mounted: bool,
    /// The hostname this namespace reports.
    pub hostname: Seq<char>,
    /// The working directory of the context.
    pub cwd: Seq<char>,
}

/// The two namespaces an invocation involves: the originating (host)
/// one and the freshly created context's one.
pub struct World {
    pub host: FsView,
    pub ctx: FsView,
}

/// The effect of one isolation step on a single mount table.
pub open spec fn step_effect(v: FsView, s: StepView) -> FsView {
    match s {
        StepView::IsolatePropagation => FsView { propagation_isolated: true, ..v },
        // A fresh self-bind shadows whatever mount was on top of the
        // path — including an earlier read-only one — and can itself be
        // remounted read-only.
        StepView::BindSelf { path } => FsView {
            bound: v.bound.insert(path),
            readonly: v.readonly.remove(path),
            ..v
        },
        // A read-only remount acts only on an existing bind mount.
        StepView::RemountReadonly { path } => if v.bound.contains(path) {
            FsView { readonly: v.readonly.insert(path), ..v }
        } else {
            v
        },
        // A fresh ephemeral mount shadows the path and starts empty.
        StepView::MountTmpfs { path } => FsView {
            readonly: v.readonly.remove(path),
            tmpfs: v.tmpfs.insert(path, Set::empty()),
            ..v
        },
        StepView::UnmountProc => FsView { proc_mounted: false, ..v },
        // A fresh proc mount shadows whatever was at the proc path.
        StepView::MountProc => FsView {
            proc_mounted: true,
            readonly: v.readonly.remove(proc_path()),
            tmpfs: v.tmpfs.remove(proc_path()),
            ..v
        },
        StepView::SetHostname { name } => FsView { hostname: name, ..v },
        StepView::ChangeDir { path } => FsView { cwd: path, ..v },
    }
}

/// Whether a step is a mount event, i.e. a change to the mount table
/// that propagation could carry into another namespace.
pub open spec fn is_mount_event(s: StepView) -> bool {
    match s {
        StepView::IsolatePropagation => false,
        StepView::SetHostname { .. } => false,
        StepView::ChangeDir { .. } => false,
        _ => true,
    }
}

/// One step applied to the world: the context always takes the effect;
/// the host takes a mount event's effect too as long as the context has
/// not yet isolated its propagation.
pub open spec fn apply_step(w: World, s: StepView) -> World {
    World {
        ctx: step_effect(w.ctx, s),
        host: if is_mount_event(s) && !w.ctx.propagation_isolated {
            step_effect(w.host, s)
        } else {
            w.host
        },
    }
}

/// A sequence of steps applied in order.
pub open spec fn apply_steps(w: World, ss: Seq<StepView>) -> World
    decreases ss.len(),
{
    if ss.len() == 0 {
        w
    } else {
        apply_steps(apply_step(w, ss[0]), ss.skip(1))
    }
}

/// The whole isolation plan of a configuration applied to the world.
pub open spec fn apply_plan(c: ConfigView, w: World) -> World {
    apply_steps(w, isolation_plan(c))
}

/// Whether a write under the path can succeed in this namespace.
pub open spec fn write_allowed(v: FsView, path: Seq<char>) -> bool {
    !v.readonly.contains(path)
}

/// Writing a file into an ephemeral mount.
pub open spec fn write_file(v: FsView, dir: Seq<char>, name: Seq<char>) -> FsView {
    if v.tmpfs.dom().contains(dir) {
        FsView { tmpfs: v.tmpfs.insert(dir, v.tmpfs[dir].insert(name)), ..v }
    } else {
        v
    }
}

/// Whether a file is visible in an ephemeral mount.
pub open spec fn file_visible(v: FsView, dir: Seq<char>, name: Seq<char>) -> bool {
    v.tmpfs.dom().contains(dir) && v.tmpfs[dir].contains(name)
}

/// Applying a concatenation is applying the parts in order.
pub proof fn lemma_apply_steps_app(w: World, a: Seq<StepView>, b: Seq<StepView>)
    ensures
        apply_steps(w, a + b) == apply_steps(apply_steps(w, a), b),
    decreases a.len(),
{
    if a.len() == 0 {
        assert(a + b =~= b);
    } else {
        assert((a + b)[0] == a[0]);
        assert((a + b).skip(1) =~= a.skip(1) + b);
        lemma_apply_steps_app(apply_step(w, a[0]), a.skip(1), b);
    }
}

/// No step ever takes propagation isolation away again.
pub proof fn lemma_steps_keep_isolation(w: World, ss: Seq<StepView>)
    requires
        w.ctx.propagation_isolated,
    ensures
        apply_steps(w, ss).ctx.propagation_isolated,
        apply_steps(w, ss).host == w.host,
    decreases ss.len(),
{
    if ss.len() > 0 {
        lemma_steps_keep_isolation(apply_step(w, ss[0]), ss.skip(1));
    }
}

/// Mount-event containment: the plan changes nothing in the host's
/// mount table, because its very first step stops propagation before
/// any mount event is performed.
pub proof fn lemma_host_unchanged(c: ConfigView, w: World)
    ensures
        apply_plan(c, w).host == w.host,
{
    reveal_with_fuel(apply_steps, 3);
    let plan = isolation_plan(c);
    let rest = readonly_steps(c.readonly_dirs) + tmpfs_steps(c.tmpfs_dirs) + closing_steps(c);
    assert(plan =~= seq![StepView::IsolatePropagation] + rest);
    lemma_apply_steps_app(w, seq![StepView::IsolatePropagation], rest);
    let w1 = apply_steps(w, seq![StepView::IsolatePropagation]);
    assert(seq![StepView::IsolatePropagation].skip(1) =~= Seq::<StepView>::empty());
    assert(w1 == apply_step(w, StepView::IsolatePropagation));
    lemma_steps_keep_isolation(w1, rest);
}

/// The read-only exposure steps leave every listed directory read-only
/// and bound in the context; directories already both read-only and
/// bound stay so.
pub proof fn lemma_readonly_steps_establish(w: World, dirs: Seq<Seq<char>>, d: Seq<char>)
    requires
        dirs.contains(d) || (w.ctx.readonly.contains(d) && w.ctx.bound.contains(d)),
    ensures
        apply_steps(w, readonly_steps(dirs)).ctx.readonly.contains(d),
        apply_steps(w, readonly_steps(dirs)).ctx.bound.contains(d),
    decreases dirs.len(),
{
    reveal_with_fuel(apply_steps, 4);
    if dirs.len() == 0 {
        assert(!dirs.contains(d));
    } else {
        let front = dirs.drop_last();
        let x = dirs.last();
        lemma_apply_steps_app(w, readonly_steps(front), readonly_step_pair(x));
        let w1 = apply_steps(w, readonly_steps(front));
        if front.contains(d) || (w.ctx.readonly.contains(d) && w.ctx.bound.contains(d)) {
            lemma_readonly_steps_establish(w, front, d);
            assert(w1.ctx.readonly.contains(d) && w1.ctx.bound.contains(d));
        } else {
            // d can only be the last directory.
            let i = choose|i: int| 0 <= i < dirs.len() && dirs[i] == d;
            if i < dirs.len() - 1 {
                assert(front[i] == d);
                assert(front.contains(d));
            }
            assert(x == d);
        }
        let pair = readonly_step_pair(x);
        let w2 = apply_step(w1, pair[0]);
        let w3 = apply_step(w2, pair[1]);
        assert(pair.skip(1) =~= seq![pair[1]]);
        assert(seq![pair[1]].skip(1) =~= Seq::<StepView>::empty());
        assert(apply_steps(w1, pair) == w3);
        // After the bind, x is bound; after the remount, x is read-only.
        assert(w2.ctx.bound.contains(x));
        assert(w3.ctx.readonly.contains(x) && w3.ctx.bound.contains(x));
        if d != x {
            assert(w3.ctx.readonly.contains(d) == w1.ctx.readonly.contains(d));
            assert(w3.ctx.bound.contains(d) == w1.ctx.bound.contains(d));
        }
    }
}

/// The read-only exposure steps touch nothing but the bind and
/// read-only state: ephemeral mounts, proc, hostname, working directory
/// and propagation are untouched, and paths outside the list keep their
/// read-only status.
pub proof fn lemma_readonly_steps_frame(w: World, dirs: Seq<Seq<char>>)
    ensures
        apply_steps(w, readonly_steps(dirs)).ctx.tmpfs == w.ctx.tmpfs,
        apply_steps(w, readonly_steps(dirs)).ctx.proc_mounted == w.ctx.proc_mounted,
        apply_steps(w, readonly_steps(dirs)).ctx.hostname == w.ctx.hostname,
        apply_steps(w, readonly_steps(dirs)).ctx.cwd == w.ctx.cwd,
        apply_steps(w, readonly_steps(dirs)).ctx.propagation_isolated
            == w.ctx.propagation_isolated,
    decreases dirs.len(),
{
    reveal_with_fuel(apply_steps, 4);
    if dirs.len() > 0 {
        let front = dirs.drop_last();
        let x = dirs.last();
        lemma_readonly_steps_frame(w, front);
        lemma_apply_steps_app(w, readonly_steps(front), readonly_step_pair(x));
        let w1 = apply_steps(w, readonly_steps(front));
        let pair = readonly_step_pair(x);
        assert(pair.skip(1) =~= seq![pair[1]]);
        assert(seq![pair[1]].skip(1) =~= Seq::<StepView>::empty());
        assert(apply_steps(w1, pair) == apply_step(apply_step(w1, pair[0]), pair[1]));
    }
}

/// The ephemeral exposure steps leave every listed directory carrying a
/// fresh, empty ephemeral mount; a directory already carrying an empty
/// one keeps it.
pub proof fn lemma_tmpfs_steps_establish(w: World, dirs: Seq<Seq<char>>, d: Seq<char>)
    requires
        dirs.contains(d) || (w.ctx.tmpfs.dom().contains(d) && w.ctx.tmpfs[d]
            == Set::<Seq<char>>::empty()),
    ensures
        apply_steps(w, tmpfs_steps(dirs)).ctx.tmpfs.dom().contains(d),
        apply_steps(w, tmpfs_steps(dirs)).ctx.tmpfs[d] == Set::<Seq<char>>::empty(),
    decreases dirs.len(),
{
    reveal_with_fuel(apply_steps, 3);
    if dirs.len() == 0 {
        assert(!dirs.contains(d));
    } else {
        let front = dirs.drop_last();
        let x = dirs.last();
        let tail = seq![StepView::MountTmpfs { path: x }];
        lemma_apply_steps_app(w, tmpfs_steps(front), tail);
        let w1 = apply_steps(w, tmpfs_steps(front));
        if front.contains(d) || (w.ctx.tmpfs.dom().contains(d) && w.ctx.tmpfs[d]
            == Set::<Seq<char>>::empty()) {
            lemma_tmpfs_steps_establish(w, front, d);
        } else {
            let i = choose|i: int| 0 <= i < dirs.len() && dirs[i] == d;
            if i < dirs.len() - 1 {
                assert(front[i] == d);
                assert(front.contains(d));
            }
            assert(x == d);
        }
        assert(tail.skip(1) =~= Seq::<StepView>::empty());
        assert(apply_steps(w1, tail) == apply_step(w1, tail[0]));
    }
}

/// The ephemeral exposure steps touch nothing but the ephemeral mounts
/// of the listed directories.
pub proof fn lemma_tmpfs_steps_frame(w: World, dirs: Seq<Seq<char>>, p: Seq<char>)
    requires
        !dirs.contains(p),
    ensures
        apply_steps(w, tmpfs_steps(dirs)).ctx.readonly.contains(p)
            == w.ctx.readonly.contains(p),
        apply_steps(w, tmpfs_steps(dirs)).ctx.proc_mounted == w.ctx.proc_mounted,
        apply_steps(w, tmpfs_steps(dirs)).ctx.hostname == w.ctx.hostname,
        apply_steps(w, tmpfs_steps(dirs)).ctx.cwd == w.ctx.cwd,
        apply_steps(w, tmpfs_steps(dirs)).ctx.propagation_isolated
            == w.ctx.propagation_isolated,
    decreases dirs.len(),
{
    reveal_with_fuel(apply_steps, 3);
    if dirs.len() > 0 {
        let front = dirs.drop_last();
        let x = dirs.last();
        assert(dirs[dirs.len() - 1] == x);
        assert(forall|i: int| 0 <= i < front.len() ==> front[i] == dirs[i]);
        assert(!front.contains(p)) by {
            if front.contains(p) {
                let i = choose|i: int| 0 <= i < front.len() && front[i] == p;
                assert(dirs[i] == p);
            }
        }
        assert(x != p);
        lemma_tmpfs_steps_frame(w, front, p);
        let tail = seq![StepView::MountTmpfs { path: x }];
        lemma_apply_steps_app(w, tmpfs_steps(front), tail);
        let w1 = apply_steps(w, tmpfs_steps(front));
        assert(tail.skip(1) =~= Seq::<StepView>::empty());
        assert(apply_steps(w1, tail) == apply_step(w1, tail[0]));
    }
}

/// The closing steps: proc ends up freshly mounted, the hostname is the
/// fixed value, the working directory is the configured one, and every
/// path other than the proc path keeps its read-only status and its
/// ephemeral mount.
pub proof fn lemma_closing_steps(w: World, c: ConfigView)
    ensures
        apply_steps(w, closing_steps(c)).ctx.proc_mounted,
        apply_steps(w, closing_steps(c)).ctx.hostname == container_hostname(),
        apply_steps(w, closing_steps(c)).ctx.cwd == c.initial_dir,
        forall|p: Seq<char>|
            p != proc_path() ==> apply_steps(w, closing_steps(c)).ctx.readonly.contains(p)
                == #[trigger] w.ctx.readonly.contains(p),
        forall|p: Seq<char>|
            p != proc_path() ==> apply_steps(w, closing_steps(c)).ctx.tmpfs.dom().contains(p)
                == #[trigger] w.ctx.tmpfs.dom().contains(p),
        forall|p: Seq<char>|
            p != proc_path() && w.ctx.tmpfs.dom().contains(p)
                ==> apply_steps(w, closing_steps(c)).ctx.tmpfs[p] == #[trigger] w.ctx.tmpfs[p],
        apply_steps(w, closing_steps(c)).ctx.propagation_isolated
            == w.ctx.propagation_isolated,
{
    reveal_with_fuel(apply_steps, 6);
    let ss = closing_steps(c);
    let w1 = apply_step(w, ss[0]);
    let w2 = apply_step(w1, ss[1]);
    let w3 = apply_step(w2, ss[2]);
    let w4 = apply_step(w3, ss[3]);
    assert(ss.skip(1) =~= seq![ss[1], ss[2], ss[3]]);
    assert(seq![ss[1], ss[2], ss[3]].skip(1) =~= seq![ss[2], ss[3]]);
    assert(seq![ss[2], ss[3]].skip(1) =~= seq![ss[3]]);
    assert(seq![ss[3]].skip(1) =~= Seq::<StepView>::empty());
    assert(apply_steps(w, ss) == w4);
}

/// The plan, decomposed into its four phases.
proof fn lemma_plan_decompose(c: ConfigView, w: World)
    ensures
        apply_plan(c, w) == apply_steps(
            apply_steps(
                apply_steps(
                    apply_step(w, StepView::IsolatePropagation),
                    readonly_steps(c.readonly_dirs),
                ),
                tmpfs_steps(c.tmpfs_dirs),
            ),
            closing_steps(c),
        ),
{
    reveal_with_fuel(apply_steps, 3);
    let head = seq![StepView::IsolatePropagation];
    let ro = readonly_steps(c.readonly_dirs);
    let tf = tmpfs_steps(c.tmpfs_dirs);
    let cl = closing_steps(c);
    assert(isolation_plan(c) == head + ro + tf + cl);
    lemma_apply_steps_app(w, head + ro + tf, cl);
    lemma_apply_steps_app(w, head + ro, tf);
    lemma_apply_steps_app(w, head, ro);
    assert(head.skip(1) =~= Seq::<StepView>::empty());
    assert(apply_steps(w, head) == apply_step(w, StepView::IsolatePropagation));
}

/// Read-only exposure holds: after the plan, a configured read-only
/// directory — as long as it is not also replaced by an ephemeral mount
/// and is not the proc path, both of which shadow it with a fresh
/// writable mount — admits no write inside the context, while writes to
/// the same path on the host are unaffected, since the host's table is
/// unchanged.
pub proof fn lemma_readonly_enforced(c: ConfigView, w: World, d: Seq<char>)
    requires
        c.readonly_dirs.contains(d),
        !c.tmpfs_dirs.contains(d),
        d != proc_path(),
    ensures
        !write_allowed(apply_plan(c, w).ctx, d),
        write_allowed(apply_plan(c, w).host, d) == write_allowed(w.host, d),
{
    lemma_plan_decompose(c, w);
    let w1 = apply_step(w, StepView::IsolatePropagation);
    let w2 = apply_steps(w1, readonly_steps(c.readonly_dirs));
    let w3 = apply_steps(w2, tmpfs_steps(c.tmpfs_dirs));
    lemma_readonly_steps_establish(w1, c.readonly_dirs, d);
    lemma_tmpfs_steps_frame(w2, c.tmpfs_dirs, d);
    lemma_closing_steps(w3, c);
    lemma_host_unchanged(c, w);
}

/// Ephemeral exposure holds: after the plan, a configured ephemeral
/// directory (other than the proc path, which the proc refresh shadows)
/// carries a fresh, empty mount; a file written there is visible within
/// the same invocation; and at the start of a second, independently
/// built invocation — whatever world it starts from — that file is
/// absent.
pub proof fn lemma_tmpfs_ephemeral(
    c: ConfigView,
    w: World,
    w_later: World,
    d: Seq<char>,
    name: Seq<char>,
)
    requires
        c.tmpfs_dirs.contains(d),
        d != proc_path(),
    ensures
        apply_plan(c, w).ctx.tmpfs.dom().contains(d),
        apply_plan(c, w).ctx.tmpfs[d] == Set::<Seq<char>>::empty(),
        file_visible(write_file(apply_plan(c, w).ctx, d, name), d, name),
        !file_visible(apply_plan(c, w_later).ctx, d, name),
{
    lemma_plan_decompose(c, w);
    let w1 = apply_step(w, StepView::IsolatePropagation);
    let w2 = apply_steps(w1, readonly_steps(c.readonly_dirs));
    let w3 = apply_steps(w2, tmpfs_steps(c.tmpfs_dirs));
    lemma_tmpfs_steps_establish(w2, c.tmpfs_dirs, d);
    lemma_closing_steps(w3, c);

    lemma_plan_decompose(c, w_later);
    let u1 = apply_step(w_later, StepView::IsolatePropagation);
    let u2 = apply_steps(u1, readonly_steps(c.readonly_dirs));
    let u3 = apply_steps(u2, tmpfs_steps(c.tmpfs_dirs));
    lemma_tmpfs_steps_establish(u2, c.tmpfs_dirs, d);
    lemma_closing_steps(u3, c);
}

/// Identity isolation holds: after the plan, the context reports the
/// fixed hostname, the configured working directory and a freshly
/// mounted proc filesystem, while the host's hostname — like the rest
/// of the host's view — is unchanged.
pub proof fn lemma_identity_isolated(c: ConfigView, w: World)
    ensures
        apply_plan(c, w).ctx.hostname == container_hostname(),
        apply_plan(c, w).ctx.cwd == c.initial_dir,
        apply_plan(c, w).ctx.proc_mounted,
        apply_plan(c, w).host.hostname == w.host.hostname,
{
    lemma_plan_decompose(c, w);
    let w1 = apply_step(w, StepView::IsolatePropagation);
    let w2 = apply_steps(w1, readonly_steps(c.readonly_dirs));
    let w3 = apply_steps(w2, tmpfs_steps(c.tmpfs_dirs));
    lemma_closing_steps(w3, c);
    lemma_host_unchanged(c, w);
}


/// Law: the one tolerated failure is harmless. The proc unmount may
/// fail (proc may simply not be mounted); a run that skips it ends in
/// exactly the world a fully successful run ends in, because the fresh
/// proc mount right after it overwrites its only effect.
pub proof fn lemma_tolerated_failure_harmless(c: ConfigView, w: World)
    ensures
        apply_steps(
            w,
            seq![StepView::IsolatePropagation] + readonly_steps(c.readonly_dirs)
                + tmpfs_steps(c.tmpfs_dirs) + closing_steps(c).skip(1),
        ) == apply_plan(c, w),
{
    reveal_with_fuel(apply_steps, 6);
    let head = seq![StepView::IsolatePropagation];
    let ro = readonly_steps(c.readonly_dirs);
    let tf = tmpfs_steps(c.tmpfs_dirs);
    let cl = closing_steps(c);
    let cl_skipped = cl.skip(1);
    lemma_plan_decompose(c, w);
    lemma_apply_steps_app(w, head + ro + tf, cl_skipped);
    lemma_apply_steps_app(w, head + ro, tf);
    lemma_apply_steps_app(w, head, ro);
    assert(head.skip(1) =~= Seq::<StepView>::empty());
    assert(apply_steps(w, head) == apply_step(w, StepView::IsolatePropagation));
    let w3 = apply_steps(
        apply_steps(apply_step(w, StepView::IsolatePropagation), ro),
        tf,
    );

    // With the unmount, proc is set unmounted and then freshly mounted;
    // without it, it is freshly mounted directly: the same world.
    assert(cl_skipped =~= seq![cl[1], cl[2], cl[3]]);
    assert(seq![cl[1], cl[2], cl[3]].skip(1) =~= seq![cl[2], cl[3]]);
    assert(seq![cl[2], cl[3]].skip(1) =~= seq![cl[3]]);
    assert(seq![cl[3]].skip(1) =~= Seq::<StepView>::empty());
    assert(cl.skip(1) == cl_skipped);
    let full = apply_step(w3, cl[0]);
    assert(step_effect(w3.ctx, cl[1]) == step_effect(full.ctx, cl[1]));
    // Host sides agree because propagation was isolated first.
    lemma_steps_keep_isolation(
        apply_step(w, StepView::IsolatePropagation),
        ro,
    );
    lemma_steps_keep_isolation(
        apply_steps(apply_step(w, StepView::IsolatePropagation), ro),
        tf,
    );
    assert(apply_steps(w3, cl) == apply_steps(w3, cl_skipped));
}


} // verus!
