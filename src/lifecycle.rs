//! The lifecycle decisions of the supervisor: whether a service may start and
//! how it is spawned, the two-phase stop, and what happens when an observed
//! process exits.
//!
//! The operating-system work (spawning, signalling, waiting, the grace pause)
//! and the reads and writes of the persisted configuration happen around these
//! functions; each of them is one read-modify step on a configuration value.
use vstd::prelude::*;
use crate::launch::{LaunchPlan, plan_launch, program_of, args_of, strings_view, pairs_view};
use crate::model::{
    ConfigurationView, Service, ServiceState, ServicesConfiguration, SupervisorError, with_flag,
};
use crate::table::{keys_unique, table_view, find_key, table_get, lemma_view_at, lemma_view_update};

verus! {

/// `plan` spawns the definition `s`.
pub open spec fn launches(plan: LaunchPlan, s: Service) -> bool {
    &&& plan.program@ == program_of(s.command@)
    &&& strings_view(plan.args@) == args_of(s.command@)
    &&& plan.working_directory@ == s.working_directory@
    &&& pairs_view(plan.environment@) == match s.environment {
        Some(e) => pairs_view(e@),
        None => Seq::empty(),
    }
}

/// What the second phase of a stop needs: the process that was signalled and
/// the restart flag the definition had before the stop.
#[derive(Clone, Copy, Debug, PartialEq, Eq, Structural)]
pub struct KillPlan {
    /// The recorded process of the service.
    pub pid: u32,
    /// The restart flag to put back once the grace interval is over.
    pub restart: bool,
}

/// What a stop does once the termination signal has been tried.
#[derive(Clone, Copy, Debug, PartialEq, Eq)]
pub struct StopFollowUp {
    /// Wait the grace interval before going on.
    pub pause: bool,
    /// Put the restart flag back (second phase).
    pub restore: bool,
    /// What the stop reports.
    pub outcome: Result<(), SupervisorError>,
}

/// Set the restart flag of the definition at position `i`.
fn set_restart_at(e: &mut Vec<(String, Service)>, i: usize, flag: bool)
    requires
        keys_unique(old(e)@),
        i < old(e)@.len(),
    ensures
        keys_unique(final(e)@),
        table_view(final(e)@) == table_view(old(e)@).insert(
            old(e)@[i as int].0@,
            with_flag(old(e)@[i as int].1, flag),
        ),
{
    let ghost e0 = e@;
    e[i].1.restart = flag;
    proof {
        assert(e@ == e0.update(i as int, (e0[i as int].0, with_flag(e0[i as int].1, flag))));
        lemma_view_update(e0, i as int, e0[i as int].0, with_flag(e0[i as int].1, flag));
    }
}

impl Service {
    /// Check that `name` may be started, and work out how to spawn it.
    ///
    /// Fails `NotFound` if no such service is defined and `AlreadyRunning`
    /// if a record shows it running.
    pub fn run(name: &String, cnf: &ServicesConfiguration) -> (r: Result<
        LaunchPlan,
        SupervisorError,
    >)
        requires
            cnf.wf(),
        ensures
            match r {
                Ok(plan) => cnf@.start_check(name@) is Ok && launches(plan, cnf@.services[name@]),
                Err(e) => cnf@.start_check(name@) == Err::<(), SupervisorError>(e),
            },
    {
        let service = match table_get(&cnf.services, name) {
            Some(s) => s,
            None => return Err(SupervisorError::NotFound),
        };
        if let Some(rec) = cnf.get_state(name) {
            if rec.0 == ServiceState::Running {
                return Err(SupervisorError::AlreadyRunning);
            }
        }
        Ok(plan_launch(&service.command, &service.working_directory, &service.environment))
    }

    /// Record that `name` is running as process `pid`.
    pub fn record_started(name: &String, pid: u32, cnf: &mut ServicesConfiguration)
        requires
            old(cnf).wf(),
        ensures
            final(cnf).wf(),
            final(cnf)@ == old(cnf)@.with_started(name@, pid),
    {
        cnf.put_state(name.clone(), (ServiceState::Running, pid));
    }

    /// The first phase of a stop: find the process to signal and switch the
    /// restart flag off, so that an observation task that sees the process
    /// exit does not spawn it again. The returned plan carries the flag to put
    /// back.
    ///
    /// Fails `NotFound` if no such service is defined and `NotRunning` if no
    /// record shows it running; the configuration is then unchanged.
    pub fn kill(name: &String, cnf: &mut ServicesConfiguration) -> (r: Result<
        KillPlan,
        SupervisorError,
    >)
        requires
            old(cnf).wf(),
        ensures
            final(cnf).wf(),
            match r {
                Ok(plan) => {
                    &&& old(cnf)@.running_pid(name@) == Ok::<u32, SupervisorError>(plan.pid)
                    &&& plan.restart == old(cnf)@.services[name@].restart
                    &&& final(cnf)@ == old(cnf)@.with_restart(name@, false)
                },
                Err(e) => {
                    &&& old(cnf)@.running_pid(name@) == Err::<u32, SupervisorError>(e)
                    &&& final(cnf)@ == old(cnf)@
                },
            },
    {
        let i = match find_key(&cnf.services, name) {
            Some(i) => i,
            None => return Err(SupervisorError::NotFound),
        };
        proof {
            lemma_view_at(cnf.services@, i as int);
        }
        let pid = match cnf.get_state(name) {
            Some(rec) => {
                if rec.0 == ServiceState::Running {
                    rec.1
                } else {
                    return Err(SupervisorError::NotRunning);
                }
            },
            None => return Err(SupervisorError::NotRunning),
        };
        let restart = cnf.services[i].1.restart;
        if restart {
            set_restart_at(&mut cnf.services, i, false);
        } else {
            let ghost s = cnf@.services[name@];
            assert(with_flag(s, false) == s);
            assert(cnf@.services.insert(name@, with_flag(s, false)) =~= cnf@.services);
        }
        Ok(KillPlan { pid, restart })
    }

    /// The second phase of a stop whose service had its restart flag on, on
    /// the configuration as read after the grace interval: put the flag back.
    /// Everything else, the runtime record included, is left as read; the
    /// record is the observation task's to drop.
    pub fn restore_after_kill(name: &String, plan: KillPlan, cnf: &mut ServicesConfiguration)
        requires
            old(cnf).wf(),
        ensures
            final(cnf).wf(),
            final(cnf)@ == old(cnf)@.with_restart(name@, plan.restart),
    {
        if let Some(i) = find_key(&cnf.services, name) {
            proof {
                lemma_view_at(cnf.services@, i as int);
            }
            set_restart_at(&mut cnf.services, i, plan.restart);
        }
    }

    /// What follows the termination signal of a stop: whether the process was
    /// there to be signalled decides the pause and the outcome; the restart
    /// flag is put back exactly when the first phase switched it off.
    pub fn after_signal(plan: KillPlan, found: bool) -> (r: StopFollowUp)
        ensures
            r.pause == found,
            r.restore == plan.restart,
            r.outcome == (if found {
                Ok::<(), SupervisorError>(())
            } else {
                Err::<(), SupervisorError>(SupervisorError::ProcessLookupFailed)
            }),
    {
        StopFollowUp {
            pause: found,
            restore: plan.restart,
            outcome: if found {
                Ok(())
            } else {
                Err(SupervisorError::ProcessLookupFailed)
            },
        }
    }

    /// What an observation task does once the process of `name` has exited,
    /// on the configuration as read at that moment: drop the record, and
    /// answer whether to spawn the service again (it is still defined and its
    /// restart flag is on).
    pub fn on_exit(name: &String, cnf: &mut ServicesConfiguration) -> (again: bool)
        requires
            old(cnf).wf(),
        ensures
            final(cnf).wf(),
            final(cnf)@ == old(cnf)@.without_record(name@),
            again == old(cnf)@.restarts(name@),
    {
        let again = match table_get(&cnf.services, name) {
            Some(s) => s.restart,
            None => false,
        };
        cnf.remove_state(name);
        again
    }

    /// The recorded process of `name`, for an information query.
    ///
    /// Fails `NotFound` if no such service is defined and `NotRunning` if no
    /// record shows it running.
    pub fn info(name: &String, cnf: &ServicesConfiguration) -> (r: Result<u32, SupervisorError>)
        requires
            cnf.wf(),
        ensures
            r == cnf@.running_pid(name@),
    {
        if !cnf.is_defined(name) {
            return Err(SupervisorError::NotFound);
        }
        match cnf.get_state(name) {
            Some(rec) => {
                if rec.0 == ServiceState::Running {
                    Ok(rec.1)
                } else {
                    Err(SupervisorError::NotRunning)
                }
            },
            None => Err(SupervisorError::NotRunning),
        }
    }

    /// The process an observation task for `name` waits on: the one its
    /// record names. Fails `NotFound` without a record and `NotRunning` if
    /// the record is not a running one.
    pub fn observe(name: &String, cnf: &ServicesConfiguration) -> (r: Result<u32, SupervisorError>)
        requires
            cnf.wf(),
        ensures
            r == cnf@.observed_pid(name@),
    {
        match cnf.get_state(name) {
            Some(rec) => {
                if rec.0 == ServiceState::Running {
                    Ok(rec.1)
                } else {
                    Err(SupervisorError::NotRunning)
                }
            },
            None => Err(SupervisorError::NotFound),
        }
    }
}

/// A service that was never started has no record, so stopping it or asking
/// for its process fails `NotRunning`; starting a name that is not defined
/// fails `NotFound`.
pub proof fn lemma_never_started(c: ConfigurationView, n: Seq<char>)
    requires
        !c.states.contains_key(n),
    ensures
        c.is_defined(n) ==> c.running_pid(n) == Err::<u32, SupervisorError>(
            SupervisorError::NotRunning,
        ),
        !c.is_defined(n) ==> c.start_check(n) == Err::<(), SupervisorError>(
            SupervisorError::NotFound,
        ),
{
}

/// Once a start has gone ahead and its process is recorded, the service has
/// one running record, naming that process; a second start fails
/// `AlreadyRunning`; and starting, stopping or observing the exit of another
/// service leaves that record in place.
pub proof fn lemma_started_exclusive(c: ConfigurationView, n: Seq<char>, pid: u32)
    requires
        c.start_check(n) is Ok,
    ensures
        c.with_started(n, pid).running_pid(n) == Ok::<u32, SupervisorError>(pid),
        c.with_started(n, pid).start_check(n) == Err::<(), SupervisorError>(
            SupervisorError::AlreadyRunning,
        ),
        forall|m: Seq<char>, q: u32|
            m != n ==> #[trigger] c.with_started(n, pid).with_started(m, q).running_pid(n) == Ok::<
                u32,
                SupervisorError,
            >(pid),
        forall|m: Seq<char>|
            m != n ==> #[trigger] c.with_started(n, pid).without_record(m).running_pid(n) == Ok::<
                u32,
                SupervisorError,
            >(pid),
{
}

/// Two-phase stop: while the flag is switched off, an observation task that
/// sees the exit does not spawn the service again. Putting the flag back on
/// the configuration read after the grace interval restores the definitions
/// as they were before the stop and changes nothing else, so whatever other
/// actors wrote meanwhile is kept; in particular, once the observation task
/// has handled the exit, no record of the service remains.
pub proof fn lemma_two_phase_stop(c: ConfigurationView, n: Seq<char>, later: ConfigurationView)
    requires
        c.running_pid(n) is Ok,
        c.services[n].restart,
        later.services == c.with_restart(n, false).services,
    ensures
        !c.with_restart(n, false).restarts(n),
        later.with_restart(n, c.services[n].restart).services == c.services,
        later.with_restart(n, c.services[n].restart).services[n].restart,
        later.with_restart(n, c.services[n].restart).states == later.states,
        later.with_restart(n, c.services[n].restart).server == later.server,
        later.with_restart(n, c.services[n].restart).inherit == later.inherit,
        later == c.with_restart(n, false).without_record(n) ==> !later.with_restart(
            n,
            c.services[n].restart,
        ).states.contains_key(n),
{
    let s = c.services[n];
    assert(with_flag(with_flag(s, false), true) == s);
    assert(later.with_restart(n, true).services =~= c.services);
}

/// Stopping a service whose restart flag is off changes nothing in the
/// configuration: there is no flag to switch off and none to put back.
pub proof fn lemma_plain_stop_changes_nothing(c: ConfigurationView, n: Seq<char>)
    requires
        c.running_pid(n) is Ok,
        !c.services[n].restart,
    ensures
        c.with_restart(n, false) == c,
{
    let s = c.services[n];
    assert(with_flag(s, false) == s);
    assert(c.services.insert(n, with_flag(s, false)) =~= c.services);
}

/// A restart flag switched off while the service runs is what the
/// observation task reads when the process exits: the record is dropped and
/// the service is not spawned again.
pub proof fn lemma_disabled_restart_not_respawned(c: ConfigurationView, n: Seq<char>)
    requires
        c.is_running(n),
    ensures
        !c.with_restart(n, false).restarts(n),
        !c.with_restart(n, false).without_record(n).is_running(n),
        !c.with_restart(n, false).without_record(n).states.contains_key(n),
{
}

} // verus!
