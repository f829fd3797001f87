//! The filesystem-isolation plan: the strictly ordered sequence of steps
//! the isolated context performs before handing off to the command.

use vstd::prelude::*;
use crate::config::{Config, ConfigView};

verus! {

/// One step of the isolation sequence.
#[derive(Debug, PartialEq, Eq)]
pub enum MountStep {
    /// Mark the root mount slave and recursive, so that no mount event
    /// performed afterwards leaks into the originating mount table.
    IsolatePropagation,
    /// Bind a directory onto itself, recursively: the first half of
    /// read-only exposure. A fresh bind mount cannot be made read-only
    /// atomically, so a remount must follow.
    BindSelf { path: String },
    /// Remount an existing self-bind read-only, recursively: the second
    /// half of read-only exposure.
    RemountReadonly { path: String },
    /// Mount a fresh, empty, in-memory filesystem over the directory,
    /// discarding whatever was visible there.
    MountTmpfs { path: String },
    /// Unmount the proc filesystem if it is mounted; failure here is
    /// tolerated, since it may simply not be mounted yet.
    UnmountProc,
    /// Mount a fresh proc filesystem at the conventional path; failure
    /// here is fatal.
    MountProc,
    /// Set the context's hostname, isolated by the private UTS namespace.
    SetHostname { name: String },
    /// Change the working directory; last, because it depends on the
    /// final filesystem shape.
    ChangeDir { path: String },
}

/// Mathematical image of a [`MountStep`].
pub enum StepView {
    IsolatePropagation,
    BindSelf { path: Seq<char> },
    RemountReadonly { path: Seq<char> },
    MountTmpfs { path: Seq<char> },
    UnmountProc,
    MountProc,
    SetHostname { name: Seq<char> },
    ChangeDir { path: Seq<char> },
}

impl View for MountStep {
    type V = StepView;

    open spec fn view(&self) -> StepView {
        match self {
            MountStep::IsolatePropagation => StepView::IsolatePropagation,
            MountStep::BindSelf { path } => StepView::BindSelf { path: path@ },
            MountStep::RemountReadonly { path } => StepView::RemountReadonly { path: path@ },
            MountStep::MountTmpfs { path } => StepView::MountTmpfs { path: path@ },
            MountStep::UnmountProc => StepView::UnmountProc,
            MountStep::MountProc => StepView::MountProc,
            MountStep::SetHostname { name } => StepView::SetHostname { name: name@ },
            MountStep::ChangeDir { path } => StepView::ChangeDir { path: path@ },
        }
    }
}

/// The views of a sequence of steps.
pub open spec fn steps_view(s: Seq<MountStep>) -> Seq<StepView> {
    s.map_values(|m: MountStep| m@)
}

/// The fixed hostname given to every isolated context.
pub open spec fn container_hostname() -> Seq<char> {
    "container"@
}

/// The two-phase read-only exposure of one directory.
pub open spec fn readonly_step_pair(path: Seq<char>) -> Seq<StepView> {
    seq![StepView::BindSelf { path }, StepView::RemountReadonly { path }]
}

/// Read-only exposure of each directory, in order.
pub open spec fn readonly_steps(dirs: Seq<Seq<char>>) -> Seq<StepView>
    decreases dirs.len(),
{
    if dirs.len() == 0 {
        Seq::empty()
    } else {
        readonly_steps(dirs.drop_last()) + readonly_step_pair(dirs.last())
    }
}

/// Ephemeral exposure of each directory, in order.
pub open spec fn tmpfs_steps(dirs: Seq<Seq<char>>) -> Seq<StepView>
    decreases dirs.len(),
{
    if dirs.len() == 0 {
        Seq::empty()
    } else {
        tmpfs_steps(dirs.drop_last()) + seq![StepView::MountTmpfs { path: dirs.last() }]
    }
}

/// The closing steps: proc refresh, identity isolation, working directory.
pub open spec fn closing_steps(c: ConfigView) -> Seq<StepView> {
    seq![
        StepView::UnmountProc,
        StepView::MountProc,
        StepView::SetHostname { name: container_hostname() },
        StepView::ChangeDir { path: c.initial_dir },
    ]
}

/// The whole isolation plan for a configuration: propagation isolation
/// first, then read-only exposure, then ephemeral exposure, then the
/// closing steps.
pub open spec fn isolation_plan(c: ConfigView) -> Seq<StepView> {
    seq![StepView::IsolatePropagation] + readonly_steps(c.readonly_dirs)
        + tmpfs_steps(c.tmpfs_dirs) + closing_steps(c)
}

/// The view of a step sequence is its elementwise view.
pub proof fn lemma_steps_view_index(s: Seq<MountStep>)
    ensures
        steps_view(s).len() == s.len(),
        forall|k: int|
            #![trigger steps_view(s)[k]]
            #![trigger s[k]]
            0 <= k < s.len() ==> steps_view(s)[k] == s[k]@,
{
}

/// Builds the isolation plan as a value, in the exact order the isolated
/// context must perform it.
pub fn build_isolation_steps(config: &Config) -> (steps: Vec<MountStep>)
    ensures
        steps_view(steps@) == isolation_plan(config@),
{
    let mut steps: Vec<MountStep> = Vec::new();
    steps.push(MountStep::IsolatePropagation);

    let ro = config.readonly_dirs();
    let ghost ro_dirs = config@.readonly_dirs;
    assert(steps_view(steps@) =~= seq![StepView::IsolatePropagation] + readonly_steps(
        ro_dirs.take(0),
    )) by {
        assert(ro_dirs.take(0) =~= Seq::<Seq<char>>::empty());
    }
    for i in 0..ro.len()
        invariant
            ro.deep_view() == ro_dirs,
            steps_view(steps@) == seq![StepView::IsolatePropagation] + readonly_steps(
                ro_dirs.take(i as int),
            ),
    {
        let ghost entry = steps@;
        steps.push(MountStep::BindSelf { path: ro[i].clone() });
        steps.push(MountStep::RemountReadonly { path: ro[i].clone() });
        proof {
            let t1 = ro_dirs.take(i + 1);
            assert(t1.drop_last() =~= ro_dirs.take(i as int));
            assert(t1.last() == ro_dirs[i as int]);
            assert(readonly_steps(t1) == readonly_steps(ro_dirs.take(i as int))
                + readonly_step_pair(ro_dirs[i as int]));
            lemma_steps_view_index(entry);
            lemma_steps_view_index(steps@);
            assert(steps@[entry.len() as int]@ == StepView::BindSelf { path: ro_dirs[i as int] });
            assert(steps@[entry.len() as int + 1]@ == StepView::RemountReadonly {
                path: ro_dirs[i as int],
            });
            assert(steps_view(steps@) =~= seq![StepView::IsolatePropagation] + readonly_steps(t1));
        }
    }
    proof {
        assert(ro_dirs.take(ro_dirs.len() as int) =~= ro_dirs);
    }

    let tf = config.tmpfs_dirs();
    let ghost tf_dirs = config@.tmpfs_dirs;
    let ghost prefix = seq![StepView::IsolatePropagation] + readonly_steps(ro_dirs);
    assert(tf_dirs.take(0) =~= Seq::<Seq<char>>::empty());
    assert(steps_view(steps@) =~= prefix + tmpfs_steps(tf_dirs.take(0)));
    for i in 0..tf.len()
        invariant
            tf.deep_view() == tf_dirs,
            steps_view(steps@) == prefix + tmpfs_steps(tf_dirs.take(i as int)),
    {
        let ghost entry = steps@;
        steps.push(MountStep::MountTmpfs { path: tf[i].clone() });
        proof {
            let t1 = tf_dirs.take(i + 1);
            assert(t1.drop_last() =~= tf_dirs.take(i as int));
            assert(t1.last() == tf_dirs[i as int]);
            assert(tmpfs_steps(t1) == tmpfs_steps(tf_dirs.take(i as int))
                + seq![StepView::MountTmpfs { path: tf_dirs[i as int] }]);
            lemma_steps_view_index(entry);
            lemma_steps_view_index(steps@);
            assert(steps@[entry.len() as int]@ == StepView::MountTmpfs { path: tf_dirs[i as int] });
            assert(steps_view(steps@) =~= prefix + tmpfs_steps(t1));
        }
    }
    proof {
        assert(tf_dirs.take(tf_dirs.len() as int) =~= tf_dirs);
    }

    let ghost entry = steps@;
    steps.push(MountStep::UnmountProc);
    steps.push(MountStep::MountProc);
    steps.push(MountStep::SetHostname { name: container_hostname_value() });
    steps.push(MountStep::ChangeDir { path: config.initial_dir().clone() });
    proof {
        lemma_steps_view_index(entry);
        lemma_steps_view_index(steps@);
        assert(steps@[entry.len() as int + 2]@ == StepView::SetHostname { name: container_hostname() });
        assert(steps@[entry.len() as int + 3]@ == StepView::ChangeDir { path: config@.initial_dir });
        assert(steps_view(steps@) =~= isolation_plan(config@));
    }
    steps
}

/// The fixed hostname as a value.
pub fn container_hostname_value() -> (r: String)
    ensures
        r@ == container_hostname(),
{
    "container".to_owned()
}

} // verus!
