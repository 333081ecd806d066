//! What holds of every maintenance run, whatever the caller reports.

use vstd::prelude::*;
use crate::maintenance::orchestrator::{ActionModel, EventModel, MaintOutcome, Phase, RunModel};
use crate::guid::database_subkey_text;
use crate::maintenance::orchestrator::lemma_step_keeps_wf;
use crate::service::SERVICE_STOPPED;

verus! {

/// Whether a run is in the middle of its deletions.
pub open spec fn is_deleting(m: RunModel) -> bool {
    m.in_target_phase() || m.phase == Phase::AwaitOrphanDelete
}

/// Whether two states agree on everything that is counted or recorded.
pub open spec fn same_tally(a: RunModel, b: RunModel) -> bool {
    &&& a.errors == b.errors
    &&& a.files_deleted == b.files_deleted
    &&& a.registry_deleted == b.registry_deleted
    &&& a.orphans_deleted == b.orphans_deleted
}

/// Whether two states agree on everything that decides which operation
/// comes next.
pub open spec fn same_course(a: RunModel, b: RunModel) -> bool {
    &&& a.request == b.request
    &&& a.targets == b.targets
    &&& a.orphans == b.orphans
    &&& a.was_running == b.was_running
    &&& a.phase == b.phase
    &&& a.cursor == b.cursor
}

/// Whether two next steps are the same but for the verdict of a run that
/// ends.
pub open spec fn same_step(a: (RunModel, ActionModel), b: (RunModel, ActionModel)) -> bool {
    &&& same_course(a.0, b.0)
    &&& (a.1 == b.1 || (a.1 is Finish && b.1 is Finish))
}

/// Going on to the next operation counts and records nothing.
pub proof fn lemma_moving_on_keeps_tally(m: RunModel, position: nat)
    ensures
        same_tally(m.target_op(position).0, m),
        same_tally(m.orphan_op(position).0, m),
        same_tally(m.after_file().0, m),
    decreases m.targets.len() - position,
{
    if position < m.targets.len() && !m.wants_file(position as int) && !m.request.delete_registry {
        lemma_moving_on_keeps_tally(m, position + 1);
    }
    lemma_target_op_keeps_tally(m, m.cursor + 1);
}

proof fn lemma_target_op_keeps_tally(m: RunModel, position: nat)
    ensures
        same_tally(m.target_op(position).0, m),
        m.errors.len() == 0 ==> !(m.target_op(position).1 matches ActionModel::Finish {
            outcome: MaintOutcome::Failed { .. },
        }),
    decreases m.targets.len() - position,
{
    if position < m.targets.len() && !m.wants_file(position as int) && !m.request.delete_registry {
        lemma_target_op_keeps_tally(m, position + 1);
    }
}

/// Which operation comes next does not depend on what was counted or
/// recorded before.
pub proof fn lemma_course_ignores_tally(a: RunModel, b: RunModel, position: nat)
    requires
        a.request == b.request,
        a.targets == b.targets,
        a.orphans == b.orphans,
        a.was_running == b.was_running,
        a.cursor == b.cursor,
    ensures
        same_step(a.target_op(position), b.target_op(position)),
        same_step(a.orphan_op(position), b.orphan_op(position)),
    decreases a.targets.len() - position,
{
    if position < a.targets.len() && !a.wants_file(position as int) && !a.request.delete_registry {
        lemma_course_ignores_tally(a, b, position + 1);
    }
}

/// A database file that is already gone is no failure: the run goes on
/// with nothing counted and nothing recorded, and if no deletion has failed
/// before, the run cannot end in failure at this step.
pub proof fn lemma_absent_file_is_no_failure(m: RunModel)
    requires
        m.wf(),
        m.phase == Phase::AwaitProbe,
    ensures
        same_tally(m.on_file_probed(false).0, m),
        m.errors.len() == 0 ==> !(m.on_file_probed(false).1 matches ActionModel::Finish {
            outcome: MaintOutcome::Failed { .. },
        }),
{
    lemma_moving_on_keeps_tally(m, m.cursor + 1);
    lemma_target_op_keeps_tally(m, m.cursor + 1);
}

/// A deletion that fails is recorded and changes nothing else: the run
/// goes on to exactly the operation that would have followed a success.
pub proof fn lemma_failure_does_not_stop_the_batch(m: RunModel, code: u32)
    requires
        m.wf(),
        m.phase == Phase::AwaitFileDelete || m.phase == Phase::AwaitKeyDelete || m.phase
            == Phase::AwaitOrphanDelete,
    ensures
        same_step(m.on_operation(Err(code)), m.on_operation(Ok(()))),
        m.on_operation(Err(code)).0.errors.len() == m.errors.len() + 1,
        m.on_operation(Err(code)).0.errors.last().code == code,
        m.on_operation(Ok(())).0.errors == m.errors,
{
    let failed = m.recorded(Err(code));
    let done = m.recorded(Ok(()));
    lemma_course_ignores_tally(failed, done, m.cursor + 1);
    lemma_moving_on_keeps_tally(failed, m.cursor + 1);
    lemma_moving_on_keeps_tally(done, m.cursor + 1);
    lemma_target_op_keeps_tally(failed, m.cursor + 1);
    lemma_target_op_keeps_tally(done, m.cursor + 1);
}

/// Whether an action touches a file or a registry entry of a database.
pub open spec fn touches_databases(action: ActionModel) -> bool {
    action is ProbeFile || action is DeleteFile || action is DeleteRegistryKey
}

/// Nothing is deleted while the service may run: a file or registry entry
/// is touched only by a run that knows the service stopped, and it comes to
/// know that only by a reading that shows it stopped. So a request that is
/// refused, a listing that fails and a service that does not stop all end
/// the run before anything is touched.
pub proof fn lemma_service_is_stopped_before_deletions(m: RunModel, event: EventModel)
    requires
        m.wf(),
        touches_databases(m.step(event).1),
    ensures
        m.step(event).0.was_running is Some,
        m.was_running is None ==> event == (EventModel::ServiceState {
            result: Ok::<u32, crate::service::ServiceFault>(SERVICE_STOPPED),
        }) && (m.phase == Phase::AwaitServiceState || m.phase == Phase::AwaitStopped),
{
    lemma_step_keeps_wf(m, event);
    if m.was_running is None {
        match event {
            EventModel::ServiceState { result } => {
                lemma_target_op_keeps_service(
                    RunModel { was_running: Some(false), ..m },
                    0,
                );
                lemma_target_op_keeps_service(
                    RunModel { was_running: Some(true), polls: m.polls + 1, ..m },
                    0,
                );
            },
            _ => {},
        }
    } else {
        match event {
            EventModel::FileProbed { exists } => {
                lemma_target_op_keeps_service(m, m.cursor + 1);
            },
            EventModel::Operation { result } => {
                lemma_target_op_keeps_service(m.recorded(result), m.cursor + 1);
            },
            EventModel::ServiceState { result } => {
                lemma_target_op_keeps_service(
                    RunModel { was_running: Some(false), ..m },
                    0,
                );
                lemma_target_op_keeps_service(
                    RunModel { was_running: Some(true), polls: m.polls + 1, ..m },
                    0,
                );
            },
            _ => {},
        }
    }
}

proof fn lemma_target_op_keeps_service(m: RunModel, position: nat)
    ensures
        m.target_op(position).0.was_running == m.was_running,
    decreases m.targets.len() - position,
{
    if position < m.targets.len() && !m.wants_file(position as int) && !m.request.delete_registry {
        lemma_target_op_keeps_service(m, position + 1);
    }
}

/// Whether a run has stopped the service and still has deletions to do.
pub open spec fn owes_restart(m: RunModel) -> bool {
    m.was_running == Some(true) && is_deleting(m)
}

/// Once the service is seen stopped after a stop request, the run either
/// has deletions to do or asks at once for the service to start again.
pub proof fn lemma_stopping_leads_to_restart(m: RunModel)
    requires
        m.wf(),
        m.phase == Phase::AwaitStopped,
    ensures
        ({
            let (next, action) = m.on_service_state(Ok(SERVICE_STOPPED));
            owes_restart(next) || (action == ActionModel::StartService && next.phase
                == Phase::AwaitStartControl)
        }),
{
    lemma_target_op_reaches_restart(
        RunModel { was_running: Some(true), polls: m.polls + 1, ..m },
        0,
    );
}

proof fn lemma_target_op_reaches_restart(m: RunModel, position: nat)
    requires
        m.was_running == Some(true),
    ensures
        ({
            let (next, action) = m.target_op(position);
            &&& !(action is Finish)
            &&& owes_restart(next) || (action == ActionModel::StartService && next.phase
                == Phase::AwaitStartControl)
        }),
    decreases m.targets.len() - position,
{
    if position < m.targets.len() && !m.wants_file(position as int) && !m.request.delete_registry {
        lemma_target_op_reaches_restart(m, position + 1);
    }
}

/// While a run that stopped the service has deletions to do, no report,
/// of success or of failure, ends it: the next step is another deletion or
/// the request to start the service.
pub proof fn lemma_restart_is_owed(m: RunModel, event: EventModel)
    requires
        m.wf(),
        owes_restart(m),
    ensures
        ({
            let (next, action) = m.step(event);
            &&& !(action is Finish)
            &&& owes_restart(next) || (action == ActionModel::StartService && next.phase
                == Phase::AwaitStartControl)
        }),
{
    match event {
        EventModel::FileProbed { exists } => {
            lemma_target_op_reaches_restart(m, m.cursor + 1);
        },
        EventModel::Operation { result } => {
            lemma_target_op_reaches_restart(m.recorded(result), m.cursor + 1);
        },
        _ => {},
    }
}

/// The actions a run asks for, one for each report it is given.
pub open spec fn actions_of(m: RunModel, events: Seq<EventModel>) -> Seq<ActionModel>
    decreases events.len(),
{
    if events.len() == 0 {
        Seq::empty()
    } else {
        seq![m.step(events[0]).1] + actions_of(m.step(events[0]).0, events.drop_first())
    }
}

/// A run that stopped the service asks for it to start again before it
/// ends, whatever is reported to it and whatever fails.
pub proof fn lemma_service_is_restarted(m: RunModel, events: Seq<EventModel>, end: int)
    requires
        m.wf(),
        owes_restart(m),
        0 <= end < events.len(),
        actions_of(m, events)[end] is Finish,
    ensures
        exists|j: int| 0 <= j < end && actions_of(m, events)[j] == ActionModel::StartService,
    decreases events.len(),
{
    let (next, action) = m.step(events[0]);
    let rest = actions_of(next, events.drop_first());
    lemma_restart_is_owed(m, events[0]);
    crate::maintenance::orchestrator::lemma_step_keeps_wf(m, events[0]);
    lemma_actions_len(next, events.drop_first());
    assert(actions_of(m, events) == seq![action] + rest);
    if end == 0 {
        assert(actions_of(m, events)[0] == action);
    } else if action == ActionModel::StartService {
        assert(actions_of(m, events)[0] == ActionModel::StartService);
    } else {
        assert(actions_of(m, events)[end] == rest[end - 1]);
        lemma_service_is_restarted(next, events.drop_first(), end - 1);
        let j = choose|j: int| 0 <= j < end - 1 && rest[j] == ActionModel::StartService;
        assert(actions_of(m, events)[j + 1] == rest[j]);
    }
}

/// A run asks for one action for each report.
pub proof fn lemma_actions_len(m: RunModel, events: Seq<EventModel>)
    ensures
        actions_of(m, events).len() == events.len(),
    decreases events.len(),
{
    if events.len() > 0 {
        lemma_actions_len(m.step(events[0]).0, events.drop_first());
    }
}

/// The state of a run after the given reports.
pub open spec fn state_after(m: RunModel, events: Seq<EventModel>) -> RunModel
    decreases events.len(),
{
    if events.len() == 0 {
        m
    } else {
        state_after(m.step(events[0]).0, events.drop_first())
    }
}

/// The registry subkeys of the targets from `position` on, if registry
/// entries are to be deleted at all.
pub open spec fn keys_from(m: RunModel, position: int) -> Seq<Seq<char>>
    decreases m.targets.len() - position,
{
    if position >= m.targets.len() || !m.request.delete_registry {
        Seq::empty()
    } else {
        seq![database_subkey_text(m.targets[position].db_id)] + keys_from(m, position + 1)
    }
}

/// The files of the targets from `position` on that are to be looked for.
pub open spec fn probes_from(m: RunModel, position: int) -> Seq<Seq<char>>
    decreases m.targets.len() - position,
{
    if position >= m.targets.len() {
        Seq::empty()
    } else if m.wants_file(position) {
        seq![m.targets[position].file_path] + probes_from(m, position + 1)
    } else {
        probes_from(m, position + 1)
    }
}

/// The registry subkeys whose deletion has yet to be asked for.
pub open spec fn keys_to_come(m: RunModel) -> Seq<Seq<char>> {
    if !m.in_target_phase() {
        Seq::empty()
    } else if m.phase == Phase::AwaitKeyDelete {
        keys_from(m, m.cursor as int + 1)
    } else {
        keys_from(m, m.cursor as int)
    }
}

/// The files that have yet to be looked for.
pub open spec fn probes_to_come(m: RunModel) -> Seq<Seq<char>> {
    if !m.in_target_phase() {
        Seq::empty()
    } else {
        probes_from(m, m.cursor as int + 1)
    }
}

/// The registry subkey an action asks to delete, if it asks for that.
pub open spec fn key_of(action: ActionModel) -> Seq<Seq<char>> {
    match action {
        ActionModel::DeleteRegistryKey { subkey } => seq![subkey],
        _ => Seq::empty(),
    }
}

/// The file an action asks to look for, if it asks for that.
pub open spec fn probe_of(action: ActionModel) -> Seq<Seq<char>> {
    match action {
        ActionModel::ProbeFile { path } => seq![path],
        _ => Seq::empty(),
    }
}

/// The registry subkeys that the actions ask to delete, in order.
pub open spec fn keys_in(actions: Seq<ActionModel>) -> Seq<Seq<char>>
    decreases actions.len(),
{
    if actions.len() == 0 {
        Seq::empty()
    } else {
        key_of(actions[0]) + keys_in(actions.drop_first())
    }
}

/// The files that the actions ask to look for, in order.
pub open spec fn probes_in(actions: Seq<ActionModel>) -> Seq<Seq<char>>
    decreases actions.len(),
{
    if actions.len() == 0 {
        Seq::empty()
    } else {
        probe_of(actions[0]) + probes_in(actions.drop_first())
    }
}

/// Going on to the targets from `position` on asks for the first of
/// their operations and leaves the others to come.
proof fn lemma_target_op_schedule(m: RunModel, position: nat)
    requires
        position <= m.targets.len(),
    ensures
        ({
            let (next, action) = m.target_op(position);
            &&& keys_from(m, position as int) == key_of(action) + keys_to_come(next)
            &&& probes_from(m, position as int) == probe_of(action) + probes_to_come(next)
            &&& !next.before_deletions()
        }),
    decreases m.targets.len() - position,
{
    let (next, action) = m.target_op(position);
    if position < m.targets.len() {
        if m.wants_file(position as int) {
            assert(keys_from(next, position as int) == keys_from(m, position as int)) by {
                lemma_keys_depend_on_targets(m, next, position as int);
            }
            assert(probes_from(next, position as int + 1) == probes_from(m, position as int + 1)) by {
                lemma_keys_depend_on_targets(m, next, position as int + 1);
            }
            assert(keys_from(m, position as int) =~= key_of(action) + keys_to_come(next));
            assert(probes_from(m, position as int) =~= probe_of(action) + probes_to_come(next));
        } else if m.request.delete_registry {
            lemma_keys_depend_on_targets(m, next, position as int + 1);
            assert(keys_from(m, position as int) =~= key_of(action) + keys_to_come(next));
            assert(probes_from(m, position as int) =~= probe_of(action) + probes_to_come(next));
        } else {
            lemma_target_op_schedule(m, position + 1);
        }
    } else {
        assert(keys_from(m, position as int) =~= key_of(action) + keys_to_come(next));
        assert(probes_from(m, position as int) =~= probe_of(action) + probes_to_come(next));
    }
}

/// What is to come depends on the request and the targets alone.
proof fn lemma_keys_depend_on_targets(a: RunModel, b: RunModel, position: int)
    requires
        a.request == b.request,
        a.targets == b.targets,
    ensures
        keys_from(a, position) == keys_from(b, position),
        probes_from(a, position) == probes_from(b, position),
    decreases a.targets.len() - position,
{
    if position < a.targets.len() {
        lemma_keys_depend_on_targets(a, b, position + 1);
    }
}

/// Every step of a run that has begun its deletions asks for the next
/// operation that is due or leaves it to come: what was to come before the
/// step is what the step asks for and what is to come after it. This holds
/// whatever the report says, so that no failure takes an operation away.
pub proof fn lemma_step_keeps_schedule(m: RunModel, event: EventModel)
    requires
        m.wf(),
        !m.before_deletions(),
    ensures
        ({
            let (next, action) = m.step(event);
            &&& keys_to_come(m) == key_of(action) + keys_to_come(next)
            &&& probes_to_come(m) == probe_of(action) + probes_to_come(next)
            &&& !next.before_deletions()
            &&& next.wf()
        }),
{
    let (next, action) = m.step(event);
    lemma_step_keeps_wf(m, event);
    let same = (next == m && action == ActionModel::OutOfTurn);
    if same {
        assert(keys_to_come(m) =~= key_of(action) + keys_to_come(next));
        assert(probes_to_come(m) =~= probe_of(action) + probes_to_come(next));
    } else if m.in_target_phase() {
        match event {
            EventModel::FileProbed { exists } => {
                if exists {
                    lemma_keys_depend_on_targets(m, next, m.cursor as int);
                    lemma_keys_depend_on_targets(m, next, m.cursor as int + 1);
                } else if m.request.delete_registry {
                    lemma_keys_depend_on_targets(m, next, m.cursor as int + 1);
                    assert(keys_from(m, m.cursor as int) == seq![
                        database_subkey_text(m.targets[m.cursor as int].db_id),
                    ] + keys_from(m, m.cursor as int + 1));
                } else {
                    lemma_target_op_schedule(m, m.cursor + 1);
                    lemma_no_keys_without_request(m, m.cursor as int);
                    lemma_no_keys_without_request(m, m.cursor as int + 1);
                }
            },
            EventModel::Operation { result } => {
                let taken = m.recorded(result);
                lemma_keys_depend_on_targets(m, taken, m.cursor as int);
                lemma_keys_depend_on_targets(m, taken, m.cursor as int + 1);
                if m.phase == Phase::AwaitFileDelete && m.request.delete_registry {
                    lemma_keys_depend_on_targets(m, next, m.cursor as int + 1);
                    assert(keys_from(m, m.cursor as int) == seq![
                        database_subkey_text(m.targets[m.cursor as int].db_id),
                    ] + keys_from(m, m.cursor as int + 1));
                } else {
                    lemma_target_op_schedule(taken, m.cursor + 1);
                    if !m.request.delete_registry {
                        lemma_no_keys_without_request(m, m.cursor as int);
                        lemma_no_keys_without_request(m, m.cursor as int + 1);
                    }
                }
            },
            _ => {},
        }
        assert(keys_to_come(m) =~= key_of(action) + keys_to_come(next));
        assert(probes_to_come(m) =~= probe_of(action) + probes_to_come(next));
    } else {
        assert(keys_to_come(m) =~= key_of(action) + keys_to_come(next));
        assert(probes_to_come(m) =~= probe_of(action) + probes_to_come(next));
    }
}

proof fn lemma_no_keys_without_request(m: RunModel, position: int)
    requires
        !m.request.delete_registry,
    ensures
        keys_from(m, position) == Seq::<Seq<char>>::empty(),
{
}

/// Through any reports, a run that has begun its deletions asks for the
/// deletion of each registry entry that was to come and looks for each file
/// that was to come, in order and once each, until none is left: what it
/// has asked for and what is still to come is at every point what was to
/// come at first. Operations are neither dropped nor repeated because
/// another one failed.
pub proof fn lemma_every_operation_is_attempted(m: RunModel, events: Seq<EventModel>)
    requires
        m.wf(),
        !m.before_deletions(),
    ensures
        keys_to_come(m) == keys_in(actions_of(m, events)) + keys_to_come(state_after(m, events)),
        probes_to_come(m) == probes_in(actions_of(m, events)) + probes_to_come(
            state_after(m, events),
        ),
        !state_after(m, events).in_target_phase() ==> keys_in(actions_of(m, events))
            == keys_to_come(m) && probes_in(actions_of(m, events)) == probes_to_come(m),
    decreases events.len(),
{
    let actions = actions_of(m, events);
    let end = state_after(m, events);
    if events.len() == 0 {
        assert(keys_to_come(m) =~= keys_in(actions) + keys_to_come(end));
        assert(probes_to_come(m) =~= probes_in(actions) + probes_to_come(end));
    } else {
        let (next, action) = m.step(events[0]);
        let rest = actions_of(next, events.drop_first());
        lemma_step_keeps_schedule(m, events[0]);
        lemma_every_operation_is_attempted(next, events.drop_first());
        assert(actions == seq![action] + rest);
        assert(actions[0] == action);
        assert(actions.drop_first() =~= rest);
        assert(keys_to_come(m) =~= keys_in(actions) + keys_to_come(end));
        assert(probes_to_come(m) =~= probes_in(actions) + probes_to_come(end));
    }
    if !end.in_target_phase() {
        assert(keys_in(actions) =~= keys_to_come(m));
        assert(probes_in(actions) =~= probes_to_come(m));
    }
}

/// When the service is seen stopped, the run begins with the first
/// operation on its targets, and every operation on every target is then
/// either asked for at once or to come.
pub proof fn lemma_deletions_begin_with_all_targets(m: RunModel, reading: u32)
    requires
        m.wf(),
        (m.phase == Phase::AwaitStopped || m.phase == Phase::AwaitServiceState),
        reading == SERVICE_STOPPED,
    ensures
        ({
            let (next, action) = m.on_service_state(Ok(reading));
            &&& keys_from(m, 0) == key_of(action) + keys_to_come(next)
            &&& probes_from(m, 0) == probe_of(action) + probes_to_come(next)
            &&& !next.before_deletions()
        }),
{
    let begun = if m.phase == Phase::AwaitStopped {
        RunModel { was_running: Some(true), polls: m.polls + 1, ..m }
    } else {
        RunModel { was_running: Some(false), ..m }
    };
    lemma_target_op_schedule(begun, 0);
    lemma_keys_depend_on_targets(m, begun, 0);
}

} // verus!
