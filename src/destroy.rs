use vstd::prelude::*;
use crate::memo::{clone_opt, clone_string, Memo};
use crate::protocol::{Action, Event};
use crate::resources::{ProviderError, Resources};
use crate::role::text;

verus! {

/// How long, in seconds, the container instances may take to deregister.
pub const DEREGISTER_TIMEOUT_SECS: u64 = 1500;

/// The pause, in seconds, between two listings of the container instances.
pub const POLL_INTERVAL_SECS: u64 = 10;

pub const STATUS_CLUSTER_DELETED: &'static str = "Cluster deleted";

/// Where a destruction stands: each step names the action whose outcome it awaits.
#[derive(PartialEq, Eq, Structural, Clone, Copy, Debug)]
pub enum DestroyStep {
    LoadingMemo,
    BuildingConfig,
    WaitingForInstances,
    DeletingCluster,
    SentDeleted,
    Finished,
    Failed,
}

/// What a failure at `step` leaves behind: the cluster is known to exist
/// until the wait for its instances begins; from then on its state is unknown.
pub open spec fn destroy_failure_resources(step: DestroyStep) -> Resources {
    match step {
        DestroyStep::LoadingMemo | DestroyStep::BuildingConfig => Resources::Remaining,
        _ => Resources::Unknown,
    }
}

/// The cause that a failing outcome reports.
pub open spec fn destroy_cause_of(event: Event) -> Seq<char> {
    match event {
        Event::Failed(c) => c@,
        _ => Seq::empty(),
    }
}

/// The removal of the cluster that a progress record describes. Start it with
/// `Action::GetInfo`, then feed each action's outcome to `step` until it
/// returns `Destroyed` or `Fail`.
pub struct EcsDestroyer {
    pub memo: Memo,
    pub step: DestroyStep,
    pub cluster_name: String,
}

impl EcsDestroyer {
    /// Past the first step, the record names the cluster being removed.
    pub open spec fn wf(self) -> bool {
        match self.step {
            DestroyStep::BuildingConfig | DestroyStep::WaitingForInstances
            | DestroyStep::DeletingCluster | DestroyStep::SentDeleted => self.memo.cluster_name
                == Some(self.cluster_name),
            _ => true,
        }
    }

    pub fn new() -> (r: EcsDestroyer)
        ensures
            r.step == DestroyStep::LoadingMemo,
            r.wf(),
    {
        EcsDestroyer { memo: Memo::empty(), step: DestroyStep::LoadingMemo, cluster_name: String::new() }
    }

    /// The first action of a destruction.
    pub fn start(&self) -> (r: Action)
        ensures
            r is GetInfo,
    {
        Action::GetInfo
    }

    pub fn is_done(&self) -> (r: bool)
        ensures
            r == (self.step == DestroyStep::Finished || self.step == DestroyStep::Failed),
    {
        self.step == DestroyStep::Finished || self.step == DestroyStep::Failed
    }

    fn fail(&mut self, context: &str, event: Event) -> (r: Action)
        ensures
            r is Fail,
            r->Fail_0.resources == destroy_failure_resources(old(self).step),
            r->Fail_0.cause@ == destroy_cause_of(event),
            final(self).step == DestroyStep::Failed,
            final(self).memo == old(self).memo,
            final(self).cluster_name == old(self).cluster_name,
    {
        let resources = match self.step {
            DestroyStep::LoadingMemo | DestroyStep::BuildingConfig => Resources::Remaining,
            _ => Resources::Unknown,
        };
        let cause = match event {
            Event::Failed(c) => c,
            _ => String::new(),
        };
        self.step = DestroyStep::Failed;
        Action::Fail(ProviderError::new(resources, context, cause))
    }

    /// Takes the outcome of the last action and returns the next action.
    /// A record that names no cluster ends the destruction at once, with no
    /// cloud action. The cluster is deleted only after a listing, within the
    /// bound, that shows no container instance; a wait that passes the bound
    /// fails with the resources unknown. A failure to publish the final record
    /// does not fail the destruction.
    pub fn step(&mut self, event: Event) -> (r: Action)
        requires
            old(self).wf(),
            old(self).step != DestroyStep::Finished,
            old(self).step != DestroyStep::Failed,
        ensures
            final(self).wf(),
            r is DeleteCluster ==> {
                &&& old(self).step == DestroyStep::WaitingForInstances
                &&& event is ContainerInstances
                &&& event->arns@.len() == 0
                &&& event->elapsed_secs < DEREGISTER_TIMEOUT_SECS
            },
            r is Fail ==> final(self).step == DestroyStep::Failed
                && r->Fail_0.resources == destroy_failure_resources(old(self).step)
                && r->Fail_0.cause@ == destroy_cause_of(event),
            old(self).step != DestroyStep::LoadingMemo ==> final(self).cluster_name
                == old(self).cluster_name,
            old(self).step != DestroyStep::LoadingMemo && !(r is SendInfo) ==> final(self).memo
                == old(self).memo,
            old(self).step == DestroyStep::LoadingMemo ==> match event {
                Event::Info(m) => match m.cluster_name {
                    None => r is Destroyed && final(self).step == DestroyStep::Finished,
                    Some(name) => {
                        &&& r is BuildConfig
                        &&& r->aws_secret_name == m.aws_secret_name
                        &&& r->BuildConfig_assume_role == m.assume_role
                        &&& r->BuildConfig_region == m.region
                        &&& final(self).memo == m
                        &&& final(self).cluster_name == name
                        &&& final(self).step == DestroyStep::BuildingConfig
                    },
                },
                _ => r is Fail && r->Fail_0.resources == Resources::Remaining,
            },
            old(self).step == DestroyStep::BuildingConfig ==> match event {
                Event::Completed => r == (Action::ListContainerInstances {
                    cluster_name: old(self).cluster_name,
                    delay_secs: 0,
                }) && final(self).step == DestroyStep::WaitingForInstances,
                _ => r is Fail && r->Fail_0.resources == Resources::Remaining,
            },
            old(self).step == DestroyStep::WaitingForInstances ==> match event {
                Event::ContainerInstances { arns, elapsed_secs } => if elapsed_secs
                    >= DEREGISTER_TIMEOUT_SECS {
                    r is Fail && r->Fail_0.resources == Resources::Unknown
                } else if arns@.len() == 0 {
                    r == (Action::DeleteCluster { cluster_name: old(self).cluster_name })
                        && final(self).step == DestroyStep::DeletingCluster
                } else {
                    r == (Action::ListContainerInstances {
                        cluster_name: old(self).cluster_name,
                        delay_secs: POLL_INTERVAL_SECS,
                    }) && final(self).step == DestroyStep::WaitingForInstances
                },
                _ => r is Fail && r->Fail_0.resources == Resources::Unknown,
            },
            old(self).step == DestroyStep::DeletingCluster ==> match event {
                Event::Completed => {
                    &&& final(self).memo.current_status@ == STATUS_CLUSTER_DELETED@
                    &&& final(self).memo.aws_secret_name == old(self).memo.aws_secret_name
                    &&& final(self).memo.assume_role == old(self).memo.assume_role
                    &&& final(self).memo.cluster_name == old(self).memo.cluster_name
                    &&& final(self).memo.region == old(self).memo.region
                    &&& r == Action::SendInfo(final(self).memo)
                    &&& final(self).step == DestroyStep::SentDeleted
                },
                _ => r is Fail && r->Fail_0.resources == Resources::Unknown,
            },
            old(self).step == DestroyStep::SentDeleted ==> r is Destroyed && final(self).step
                == DestroyStep::Finished,
    {
        match self.step {
            DestroyStep::LoadingMemo => match event {
                Event::Info(m) => match &m.cluster_name {
                    None => {
                        self.step = DestroyStep::Finished;
                        Action::Destroyed
                    },
                    Some(name) => {
                        self.cluster_name = clone_string(name);
                        let action = Action::BuildConfig {
                            aws_secret_name: clone_opt(&m.aws_secret_name),
                            assume_role: clone_opt(&m.assume_role),
                            region: clone_opt(&m.region),
                        };
                        self.memo = m;
                        self.step = DestroyStep::BuildingConfig;
                        action
                    },
                },
                other => self.fail("Unable to get info from client", other),
            },
            DestroyStep::BuildingConfig => match event {
                Event::Completed => {
                    self.step = DestroyStep::WaitingForInstances;
                    Action::ListContainerInstances {
                        cluster_name: clone_string(&self.cluster_name),
                        delay_secs: 0,
                    }
                },
                other => self.fail("Error creating config", other),
            },
            DestroyStep::WaitingForInstances => match event {
                Event::ContainerInstances { arns, elapsed_secs } => {
                    if elapsed_secs >= DEREGISTER_TIMEOUT_SECS {
                        self.fail("Timed out waiting for ECS instances to deregister.", Event::TimedOut)
                    } else if arns.len() == 0 {
                        self.step = DestroyStep::DeletingCluster;
                        Action::DeleteCluster { cluster_name: clone_string(&self.cluster_name) }
                    } else {
                        Action::ListContainerInstances {
                            cluster_name: clone_string(&self.cluster_name),
                            delay_secs: POLL_INTERVAL_SECS,
                        }
                    }
                },
                Event::TimedOut => self.fail("Timed out waiting for ECS instances to deregister.", Event::TimedOut),
                other => self.fail("Unable to list container instances for ECS cluster", other),
            },
            DestroyStep::DeletingCluster => match event {
                Event::Completed => {
                    self.memo.current_status = text(STATUS_CLUSTER_DELETED);
                    self.step = DestroyStep::SentDeleted;
                    Action::SendInfo(self.memo.snapshot())
                },
                other => self.fail("The cluster could not be deleted.", other),
            },
            _ => {
                self.step = DestroyStep::Finished;
                Action::Destroyed
            },
        }
    }
}

} // verus!
