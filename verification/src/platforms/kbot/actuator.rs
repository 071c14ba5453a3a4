//! Routing of actuator requests to motor buses, and the per-target outcome
//! of a batch.
//!
//! Every motor is reached through one bus port under a local number. A
//! batch is first routed, target by target; the motors are then driven
//! outside this module; the outcomes are finally folded into one result per
//! target. A target that cannot be routed, or whose motor fails, never
//! keeps the other targets from being processed.

use crate::error::{Error, ErrorCode, ErrorView, HalError};
use crate::hal::{
    error_view, ActionResponse, ActionResponseView, ActionResult, ActionResultView,
    ActuatorCommand, ActuatorStateResponse, ConfigureActuatorRequest,
};
use crate::scalar::Double;
use crate::text::{decimal, decimal_digits};
use std::collections::HashMap;
use vstd::prelude::*;
use vstd::string::*;

verus! {

/// The largest motor number a bus can address.
pub const MAX_LOCAL_ID: u32 = 255;

/// Where a motor is reached: the port of its bus and its number there.
pub struct MotorRouteView {
    pub motor_id: u32,
    pub port: Seq<char>,
    pub local_id: u8,
}

/// The routes that a table of motors stands for: each motor that the table
/// holds, with its port and its number there.
pub open spec fn route_map(table: Map<u32, (String, u8)>) -> Map<u32, MotorRouteView> {
    Map::new(
        |id: u32| table.contains_key(id),
        |id: u32| MotorRouteView { motor_id: id, port: table[id].0@, local_id: table[id].1 },
    )
}

/// The route of a motor, if it has one.
pub open spec fn route_of(routes: Map<u32, MotorRouteView>, motor_id: u32) -> Option<
    MotorRouteView,
> {
    if routes.contains_key(motor_id) {
        Some(routes[motor_id])
    } else {
        None
    }
}

/// Whether the motor has a route.
pub open spec fn routed(routes: Map<u32, MotorRouteView>, motor_id: u32) -> bool {
    routes.contains_key(motor_id)
}

/// The failure for a motor that no port leads to.
pub open spec fn motor_not_found(motor_id: u32) -> ErrorView {
    ErrorView {
        code: ErrorCode::InvalidArgument,
        message: "Motor ID "@ + decimal_digits(motor_id as nat) + " not found"@,
    }
}

/// The failure for a motor that is listed twice.
pub open spec fn duplicate_motor(motor_id: u32) -> ErrorView {
    ErrorView {
        code: ErrorCode::InvalidArgument,
        message: "Duplicate motor ID: "@ + decimal_digits(motor_id as nat),
    }
}

/// The failure for a motor number that no bus can address.
pub open spec fn motor_too_large(motor_id: u32) -> ErrorView {
    ErrorView {
        code: ErrorCode::InvalidArgument,
        message: "Motor ID "@ + decimal_digits(motor_id as nat) + " too large for u8"@,
    }
}

/// The first motor of `ids` that is routed already or listed earlier in
/// `ids`, as the motors of `port` are added one by one.
pub open spec fn first_duplicate(
    routes: Map<u32, MotorRouteView>,
    port: Seq<char>,
    ids: Seq<u32>,
) -> Option<u32>
    decreases ids.len(),
{
    if ids.len() == 0 {
        None
    } else if routed(routes, ids[0]) {
        Some(ids[0])
    } else {
        first_duplicate(routes.insert(ids[0], local_route(port, ids[0])), port, ids.drop_first())
    }
}

/// The first motor of `ids` whose number no bus can address.
pub open spec fn first_too_large(ids: Seq<u32>) -> Option<u32>
    decreases ids.len(),
{
    if ids.len() == 0 {
        None
    } else if ids[0] > MAX_LOCAL_ID {
        Some(ids[0])
    } else {
        first_too_large(ids.drop_first())
    }
}

/// The route of a motor on `port` under its own number.
pub open spec fn local_route(port: Seq<char>, motor_id: u32) -> MotorRouteView {
    MotorRouteView { motor_id, port, local_id: (motor_id % 256) as u8 }
}

/// The routes with the motors `ids` of `port` added under their own
/// numbers; a motor that is routed already keeps its route.
pub open spec fn with_motors(
    routes: Map<u32, MotorRouteView>,
    port: Seq<char>,
    ids: Seq<u32>,
) -> Map<u32, MotorRouteView> {
    Map::new(
        |id: u32| routes.contains_key(id) || ids.contains(id),
        |id: u32|
            if routes.contains_key(id) {
                routes[id]
            } else {
                local_route(port, id)
            },
    )
}

/// The routes after the motors of one port were added, or the first fault
/// among them: a motor listed twice is reported before a number that is
/// too large.
pub open spec fn with_port(
    routes: Map<u32, MotorRouteView>,
    port: Seq<char>,
    ids: Seq<u32>,
) -> Result<Map<u32, MotorRouteView>, ErrorView> {
    match first_duplicate(routes, port, ids) {
        Some(id) => Err(duplicate_motor(id)),
        None => match first_too_large(ids) {
            Some(id) => Err(motor_too_large(id)),
            None => Ok(with_motors(routes, port, ids)),
        },
    }
}

/// The model of the motors of one port.
pub open spec fn port_view(p: (String, Vec<u32>)) -> (Seq<char>, Seq<u32>) {
    (p.0@, p.1@)
}

/// The routes after the motors of every port were added, port by port, or
/// the fault of the first port that has one.
pub open spec fn with_ports(
    routes: Map<u32, MotorRouteView>,
    ports: Seq<(String, Vec<u32>)>,
) -> Result<Map<u32, MotorRouteView>, ErrorView>
    decreases ports.len(),
{
    if ports.len() == 0 {
        Ok(routes)
    } else {
        match with_port(routes, ports[0].0@, ports[0].1@) {
            Err(e) => Err(e),
            Ok(next) => with_ports(next, ports.drop_first()),
        }
    }
}

/// How one write to a motor ended.
#[derive(Debug)]
pub enum SetterOutcome {
    /// The motor took the value.
    Done,
    /// The write failed.
    Failed {
        /// The bus knows no such motor.
        not_found: bool,
        /// What the bus reported.
        message: String,
    },
}

/// The model of a [`SetterOutcome`].
pub enum SetterOutcomeView {
    Done,
    Failed { not_found: bool, message: Seq<char> },
}

impl View for SetterOutcome {
    type V = SetterOutcomeView;

    open spec fn view(&self) -> SetterOutcomeView {
        match self {
            SetterOutcome::Done => SetterOutcomeView::Done,
            SetterOutcome::Failed { not_found, message } => SetterOutcomeView::Failed {
                not_found: *not_found,
                message: message@,
            },
        }
    }
}

/// The models of a run of outcomes.
pub open spec fn outcome_views(outcomes: Seq<SetterOutcome>) -> Seq<SetterOutcomeView> {
    outcomes.map_values(|o: SetterOutcome| o@)
}

/// Whether every write went through.
pub open spec fn all_done(outcomes: Seq<SetterOutcomeView>) -> bool {
    forall|i: int| 0 <= i < outcomes.len() ==> (#[trigger] outcomes[i]) is Done
}

/// Whether some write failed because the bus knows no such motor.
pub open spec fn any_not_found(outcomes: Seq<SetterOutcomeView>) -> bool {
    exists|i: int|
        0 <= i < outcomes.len() && (#[trigger] outcomes[i]) is Failed && outcomes[i]->not_found
}

/// The reports of the failed writes, in order, with a semicolon and a
/// space between them.
pub open spec fn joined_failures(outcomes: Seq<SetterOutcomeView>) -> Seq<char>
    decreases outcomes.len(),
{
    if outcomes.len() == 0 {
        Seq::empty()
    } else {
        let head = joined_failures(outcomes.drop_last());
        match outcomes.last() {
            SetterOutcomeView::Done => head,
            SetterOutcomeView::Failed { message, .. } => if all_done(outcomes.drop_last()) {
                message
            } else {
                head + "; "@ + message
            },
        }
    }
}

/// Where every write went through there is nothing to report.
pub proof fn lemma_no_failures_no_text(outcomes: Seq<SetterOutcomeView>)
    requires
        all_done(outcomes),
    ensures
        joined_failures(outcomes) == Seq::<char>::empty(),
    decreases outcomes.len(),
{
    if outcomes.len() > 0 {
        let head = outcomes.drop_last();
        assert forall|i: int| 0 <= i < head.len() implies (#[trigger] head[i]) is Done by {
            assert(head[i] == outcomes[i]);
        }
        lemma_no_failures_no_text(head);
        assert(outcomes.last() == outcomes[outcomes.len() - 1]);
    }
}

/// The failure reported for a target whose writes did not all go through:
/// an invalid argument where the bus knows no such motor, a hardware
/// failure otherwise; nothing where every write went through.
pub open spec fn failure_of(outcomes: Seq<SetterOutcomeView>) -> Option<ErrorView> {
    if all_done(outcomes) {
        None
    } else {
        Some(
            ErrorView {
                code: if any_not_found(outcomes) {
                    ErrorCode::InvalidArgument
                } else {
                    ErrorCode::HardwareFailure
                },
                message: joined_failures(outcomes),
            },
        )
    }
}

/// Folds the outcomes of the writes to one motor into the failure to
/// report, if any.
pub fn summarize(outcomes: &Vec<SetterOutcome>) -> (e: Option<Error>)
    ensures
        error_view(e) == failure_of(outcome_views(outcomes@)),
{
    let ghost views = outcome_views(outcomes@);
    let mut failed = false;
    let mut not_found_seen = false;
    let mut text = String::new();
    let mut i: usize = 0;
    while i < outcomes.len()
        invariant
            i <= outcomes@.len(),
            views == outcome_views(outcomes@),
            failed == !all_done(views.subrange(0, i as int)),
            not_found_seen == any_not_found(views.subrange(0, i as int)),
            text@ == joined_failures(views.subrange(0, i as int)),
        decreases outcomes@.len() - i,
    {
        let ghost before = views.subrange(0, i as int);
        let ghost after = views.subrange(0, i + 1);
        proof {
            assert(after.drop_last() =~= before);
            assert(after.last() == views[i as int]);
            assert(views[i as int] == outcomes@[i as int]@);
        }
        match &outcomes[i] {
            SetterOutcome::Done => {
                proof {
                    assert(all_done(after) == all_done(before)) by {
                        if all_done(before) {
                            assert forall|k: int| 0 <= k < after.len() implies (
                            #[trigger] after[k]) is Done by {
                                if k < i {
                                    assert(before[k] == after[k]);
                                }
                            }
                        } else {
                            let k = choose|k: int| 0 <= k < before.len() && !(before[k] is Done);
                            assert(after[k] == before[k]);
                        }
                    }
                    assert(any_not_found(after) == any_not_found(before)) by {
                        if any_not_found(before) {
                            let k = choose|k: int|
                                0 <= k < before.len() && (#[trigger] before[k]) is Failed
                                    && before[k]->not_found;
                            assert(after[k] == before[k]);
                        }
                        if any_not_found(after) {
                            let k = choose|k: int|
                                0 <= k < after.len() && (#[trigger] after[k]) is Failed
                                    && after[k]->not_found;
                            assert(after[k] == before[k]);
                        }
                    }
                }
            },
            SetterOutcome::Failed { not_found, message } => {
                if failed {
                    text.append("; ");
                }
                text.append(message.as_str());
                proof {
                    if any_not_found(before) {
                        let k = choose|k: int|
                            0 <= k < before.len() && (#[trigger] before[k]) is Failed
                                && before[k]->not_found;
                        assert(after[k] == before[k]);
                    }
                    if *not_found {
                        assert(after[i as int] is Failed && after[i as int]->not_found);
                    }
                    if any_not_found(after) && !*not_found {
                        let k = choose|k: int|
                            0 <= k < after.len() && (#[trigger] after[k]) is Failed
                                && after[k]->not_found;
                        assert(after[k] == before[k]);
                    }
                    assert(!(after[i as int] is Done));
                    if !failed {
                        lemma_no_failures_no_text(before);
                        assert(text@ =~= message@);
                    }
                }
                failed = true;
                if *not_found {
                    not_found_seen = true;
                }
            },
        }
        i = i + 1;
    }
    assert(views.subrange(0, i as int) =~= views);
    if failed {
        let code = if not_found_seen {
            ErrorCode::InvalidArgument
        } else {
            ErrorCode::HardwareFailure
        };
        Some(Error { code, message: text })
    } else {
        None
    }
}

/// An actuator bank whose motors are reached through bus ports.
pub struct KBotActuator {
    motor_id_map: HashMap<u32, (String, u8)>,
}

impl View for KBotActuator {
    /// The route of each motor that can be addressed.
    type V = Map<u32, MotorRouteView>;

    closed spec fn view(&self) -> Map<u32, MotorRouteView> {
        route_map(self.motor_id_map@)
    }
}

/// The model of a [`Dispatch`].
pub enum DispatchView {
    Rejected(ActionResultView),
    Send {
        actuator_id: u32,
        port: Seq<char>,
        local_id: u8,
        position: Option<Double>,
        velocity: Option<Double>,
        torque: Option<Double>,
    },
}

/// What is to be done with one command of a batch.
#[derive(Debug)]
pub enum Dispatch {
    /// The command cannot be routed; this is its result.
    Rejected(ActionResult),
    /// The command goes to the motor `local_id` on `port`, with the targets
    /// that are present; the outcome of every write that it takes is
    /// reported back.
    Send {
        actuator_id: u32,
        port: String,
        local_id: u8,
        position: Option<Double>,
        velocity: Option<Double>,
        torque: Option<Double>,
    },
}

impl View for Dispatch {
    type V = DispatchView;

    open spec fn view(&self) -> DispatchView {
        match self {
            Dispatch::Rejected(r) => DispatchView::Rejected(r@),
            Dispatch::Send { actuator_id, port, local_id, position, velocity, torque } =>
                DispatchView::Send {
                actuator_id: *actuator_id,
                port: port@,
                local_id: *local_id,
                position: *position,
                velocity: *velocity,
                torque: *torque,
            },
        }
    }
}

/// The models of a run of dispatches.
pub open spec fn dispatch_views(plan: Seq<Dispatch>) -> Seq<DispatchView> {
    plan.map_values(|d: Dispatch| d@)
}

/// What is to be done with one command: it goes to its motor where the
/// motor is routed, and is rejected as an invalid argument where it is not.
pub open spec fn planned(
    routes: Map<u32, MotorRouteView>,
    command: ActuatorCommand,
) -> DispatchView {
    match route_of(routes, command.actuator_id) {
        None => DispatchView::Rejected(
            ActionResultView {
                actuator_id: command.actuator_id,
                success: false,
                error: Some(motor_not_found(command.actuator_id)),
            },
        ),
        Some(route) => DispatchView::Send {
            actuator_id: command.actuator_id,
            port: route.port,
            local_id: route.local_id,
            position: command.position,
            velocity: command.velocity,
            torque: command.torque,
        },
    }
}

/// The failure for a command that was sent but whose outcome was never
/// reported: nothing is known of what became of it.
pub open spec fn unreported() -> ErrorView {
    ErrorView { code: ErrorCode::Unknown, message: "No outcome reported"@ }
}

/// The result for one command: the rejection where it was rejected; a
/// failure where it was sent and no outcome is reported; otherwise success
/// exactly where every write went through, and the failure folded from the
/// writes where not.
pub open spec fn result_of(
    d: DispatchView,
    reported: Option<Seq<SetterOutcomeView>>,
) -> ActionResultView {
    match d {
        DispatchView::Rejected(r) => r,
        DispatchView::Send { actuator_id, .. } => match reported {
            Some(outcomes) => ActionResultView {
                actuator_id,
                success: all_done(outcomes),
                error: failure_of(outcomes),
            },
            None => ActionResultView { actuator_id, success: false, error: Some(unreported()) },
        },
    }
}

/// The outcomes reported for the command at position `i`, if the report
/// reaches that far.
pub open spec fn outcomes_at(outcomes: Seq<Vec<SetterOutcome>>, i: int) -> Option<
    Seq<SetterOutcomeView>,
> {
    if 0 <= i < outcomes.len() {
        Some(outcome_views(outcomes[i]@))
    } else {
        None
    }
}

/// The results of a batch: one per command, in the order of the commands.
pub open spec fn batch_results(
    plan: Seq<DispatchView>,
    outcomes: Seq<Vec<SetterOutcome>>,
) -> Seq<ActionResultView> {
    Seq::new(plan.len(), |i: int| result_of(plan[i], outcomes_at(outcomes, i)))
}

/// The response to a configuration: success exactly where every write went
/// through.
pub open spec fn configured(outcomes: Seq<SetterOutcomeView>) -> ActionResponseView {
    ActionResponseView { success: all_done(outcomes), error: failure_of(outcomes) }
}

fn not_found_error(motor_id: u32) -> (e: Error)
    ensures
        e@ == motor_not_found(motor_id),
{
    let mut message = String::from_str("Motor ID ");
    let digits = decimal(motor_id as u64);
    message.append(digits.as_str());
    message.append(" not found");
    Error { code: ErrorCode::InvalidArgument, message }
}

fn find_route(table: &HashMap<u32, (String, u8)>, motor_id: u32) -> (found: Option<(String, u8)>)
    ensures
        match route_of(route_map(table@), motor_id) {
            Some(route) => found is Some && found->Some_0.0@ == route.port && found->Some_0.1
                == route.local_id,
            None => found is None,
        },
{
    match table.get(&motor_id) {
        Some(route) => Some((route.0.clone(), route.1)),
        None => None,
    }
}

impl KBotActuator {
    /// An actuator bank for the motors listed port by port. A motor listed
    /// twice, on one port or on two, is refused, and so is a motor number
    /// that no bus can address.
    pub fn new(port_motor_map: Vec<(String, Vec<u32>)>) -> (r: Result<KBotActuator, HalError>)
        ensures
            match with_ports(Map::empty(), port_motor_map@) {
                Ok(routes) => r is Ok && r->Ok_0@ == routes,
                Err(e) => r is Err && r->Err_0@ == e,
            },
    {
        let mut table: HashMap<u32, (String, u8)> = HashMap::new();
        let ghost all = port_motor_map@;
        assert(route_map(table@) =~= Map::empty());
        assert(all.subrange(0, all.len() as int) =~= all);
        let mut p: usize = 0;
        while p < port_motor_map.len()
            invariant
                p <= port_motor_map@.len(),
                all == port_motor_map@,
                with_ports(Map::empty(), all) == with_ports(
                    route_map(table@),
                    all.subrange(p as int, all.len() as int),
                ),
            decreases port_motor_map@.len() - p,
        {
            let ghost rest = all.subrange(p as int, all.len() as int);
            let ghost start = route_map(table@);
            let port = &port_motor_map[p].0;
            let ids = &port_motor_map[p].1;
            assert(rest[0] == port_motor_map@[p as int]);
            assert(rest.drop_first() =~= all.subrange(p + 1, all.len() as int));
            assert(ids@.subrange(0, ids@.len() as int) =~= ids@);
            assert(with_motors(start, port@, ids@.subrange(0, 0)) =~= start);
            let ghost goal = with_ports(Map::empty(), all);
            assert(with_port(start, port@, ids@) is Err ==> goal == Err::<
                Map<u32, MotorRouteView>,
                ErrorView,
            >(with_port(start, port@, ids@)->Err_0));
            let mut k: usize = 0;
            while k < ids.len()
                invariant
                    k <= ids@.len(),
                    goal == with_ports(Map::empty(), port_motor_map@),
                    with_port(start, port@, ids@) is Err ==> goal == Err::<
                        Map<u32, MotorRouteView>,
                        ErrorView,
                    >(with_port(start, port@, ids@)->Err_0),
                    route_map(table@) == with_motors(start, port@, ids@.subrange(0, k as int)),
                    first_duplicate(start, port@, ids@) == first_duplicate(
                        route_map(table@),
                        port@,
                        ids@.subrange(k as int, ids@.len() as int),
                    ),
                decreases ids@.len() - k,
            {
                let ghost tail = ids@.subrange(k as int, ids@.len() as int);
                assert(tail[0] == ids@[k as int]);
                assert(tail.drop_first() =~= ids@.subrange(k + 1, ids@.len() as int));
                let id = ids[k];
                if table.contains_key(&id) {
                    let mut message = String::from_str("Duplicate motor ID: ");
                    let digits = decimal(id as u64);
                    message.append(digits.as_str());
                    assert(first_duplicate(start, port@, ids@) == Some(id));
                    assert(with_port(start, port@, ids@) == Err::<
                        Map<u32, MotorRouteView>,
                        ErrorView,
                    >(duplicate_motor(id)));
                    return Err(HalError::new(ErrorCode::InvalidArgument, message));
                }
                let ghost before = route_map(table@);
                let ghost sofar = ids@.subrange(0, k as int);
                table.insert(id, (port.clone(), (id % 256) as u8));
                assert(route_map(table@) =~= before.insert(id, local_route(port@, id)));
                k = k + 1;
                assert(ids@.subrange(0, k as int) =~= sofar.push(id));
                assert forall|m: u32| ids@.subrange(0, k as int).contains(m) <==> (sofar.contains(m)
                    || m == id) by {
                    if sofar.contains(m) {
                        let at = choose|at: int| 0 <= at < sofar.len() && sofar[at] == m;
                        assert(sofar.push(id)[at] == m);
                    }
                    if m == id {
                        assert(sofar.push(id)[sofar.len() as int] == m);
                    }
                }
                assert(route_map(table@) =~= with_motors(
                    start,
                    port@,
                    ids@.subrange(0, k as int),
                ));
            }
            assert(ids@.subrange(0, k as int) =~= ids@);
            assert(first_duplicate(start, port@, ids@) is None);
            let mut j: usize = 0;
            while j < ids.len()
                invariant
                    j <= ids@.len(),
                    goal == with_ports(Map::empty(), port_motor_map@),
                    with_port(start, port@, ids@) is Err ==> goal == Err::<
                        Map<u32, MotorRouteView>,
                        ErrorView,
                    >(with_port(start, port@, ids@)->Err_0),
                    first_duplicate(start, port@, ids@) is None,
                    first_too_large(ids@) == first_too_large(
                        ids@.subrange(j as int, ids@.len() as int),
                    ),
                decreases ids@.len() - j,
            {
                let ghost tail = ids@.subrange(j as int, ids@.len() as int);
                assert(tail[0] == ids@[j as int]);
                assert(tail.drop_first() =~= ids@.subrange(j + 1, ids@.len() as int));
                let id = ids[j];
                if id > MAX_LOCAL_ID {
                    let mut message = String::from_str("Motor ID ");
                    let digits = decimal(id as u64);
                    message.append(digits.as_str());
                    message.append(" too large for u8");
                    assert(first_too_large(ids@) == Some(id));
                    assert(with_port(start, port@, ids@) == Err::<
                        Map<u32, MotorRouteView>,
                        ErrorView,
                    >(motor_too_large(id)));
                    return Err(HalError::new(ErrorCode::InvalidArgument, message));
                }
                j = j + 1;
            }
            assert(first_too_large(ids@) is None);
            assert(with_port(start, port@, ids@) == Ok::<Map<u32, MotorRouteView>, ErrorView>(
                route_map(table@),
            ));
            p = p + 1;
        }
        Ok(KBotActuator { motor_id_map: table })
    }

    /// Where the motor `motor_id` is reached: its port and its number on
    /// that port.
    pub fn get_supervisor_for_motor(&self, motor_id: u32) -> (r: Result<(String, u8), HalError>)
        ensures
            match route_of(self@, motor_id) {
                Some(route) => r is Ok && r->Ok_0.0@ == route.port && r->Ok_0.1 == route.local_id,
                None => r is Err && r->Err_0@ == motor_not_found(motor_id),
            },
    {
        match find_route(&self.motor_id_map, motor_id) {
            Some(route) => Ok(route),
            None => {
                let e = not_found_error(motor_id);
                Err(HalError::new(e.code, e.message))
            },
        }
    }

    /// Routes a batch: one dispatch per command, in order. A command whose
    /// motor is unknown is rejected on its own; the others are not affected.
    pub fn plan_commands(&self, commands: &Vec<ActuatorCommand>) -> (plan: Vec<Dispatch>)
        ensures
            dispatch_views(plan@) == commands@.map_values(
                |c: ActuatorCommand| planned(self@, c),
            ),
    {
        let mut plan: Vec<Dispatch> = Vec::new();
        let mut i: usize = 0;
        while i < commands.len()
            invariant
                i <= commands@.len(),
                plan@.len() == i,
                forall|k: int|
                    0 <= k < i ==> (#[trigger] plan@[k])@ == planned(self@, commands@[k]),
            decreases commands@.len() - i,
        {
            let command = &commands[i];
            let dispatch = match find_route(&self.motor_id_map, command.actuator_id) {
                None => Dispatch::Rejected(
                    ActionResult {
                        actuator_id: command.actuator_id,
                        success: false,
                        error: Some(not_found_error(command.actuator_id)),
                    },
                ),
                Some(route) => Dispatch::Send {
                    actuator_id: command.actuator_id,
                    port: route.0,
                    local_id: route.1,
                    position: command.position,
                    velocity: command.velocity,
                    torque: command.torque,
                },
            };
            plan.push(dispatch);
            i = i + 1;
        }
        assert(dispatch_views(plan@) =~= commands@.map_values(
            |c: ActuatorCommand| planned(self@, c),
        ));
        plan
    }

    /// Folds the outcomes of a routed batch into its results: exactly one
    /// result per command, in the order of the commands. `outcomes` holds,
    /// at the place of each command that was sent, how its writes ended; a
    /// command that was sent and has no entry there is reported as failed.
    pub fn command_actuators(plan: &Vec<Dispatch>, outcomes: &Vec<Vec<SetterOutcome>>) -> (results:
        Vec<ActionResult>)
        ensures
            results@.map_values(|r: ActionResult| r@) == batch_results(
                dispatch_views(plan@),
                outcomes@,
            ),
    {
        let mut results: Vec<ActionResult> = Vec::new();
        let mut i: usize = 0;
        while i < plan.len()
            invariant
                i <= plan@.len(),
                results@.len() == i,
                forall|k: int|
                    0 <= k < i ==> (#[trigger] results@[k])@ == result_of(
                        plan@[k]@,
                        outcomes_at(outcomes@, k),
                    ),
            decreases plan@.len() - i,
        {
            let result = match &plan[i] {
                Dispatch::Rejected(r) => r.clone(),
                Dispatch::Send { actuator_id, .. } => {
                    if i < outcomes.len() {
                        let error = summarize(&outcomes[i]);
                        ActionResult { actuator_id: *actuator_id, success: error.is_none(), error }
                    } else {
                        ActionResult {
                            actuator_id: *actuator_id,
                            success: false,
                            error: Some(
                                Error {
                                    code: ErrorCode::Unknown,
                                    message: String::from_str("No outcome reported"),
                                },
                            ),
                        }
                    }
                },
            };
            results.push(result);
            i = i + 1;
        }
        assert(results@.map_values(|r: ActionResult| r@) =~= batch_results(
            dispatch_views(plan@),
            outcomes@,
        ));
        results
    }

    /// Routes a configuration request: the motor to write to, or the
    /// response that rejects the request as an invalid argument.
    pub fn plan_configuration(&self, config: &ConfigureActuatorRequest) -> (r: Result<
        (String, u8),
        ActionResponse,
    >)
        ensures
            match route_of(self@, config.actuator_id) {
                Some(route) => r is Ok && r->Ok_0.0@ == route.port && r->Ok_0.1 == route.local_id,
                None => r is Err && r->Err_0@ == (ActionResponseView {
                    success: false,
                    error: Some(motor_not_found(config.actuator_id)),
                }),
            },
    {
        match find_route(&self.motor_id_map, config.actuator_id) {
            Some(route) => Ok(route),
            None => Err(
                ActionResponse { success: false, error: Some(not_found_error(config.actuator_id)) },
            ),
        }
    }

    /// Folds the outcomes of the writes of a configuration into its
    /// response.
    pub fn configure_actuator(outcomes: &Vec<SetterOutcome>) -> (r: ActionResponse)
        ensures
            r@ == configured(outcome_views(outcomes@)),
    {
        let error = summarize(outcomes);
        ActionResponse { success: error.is_none(), error }
    }
}

/// The state reported for a motor from its latest feedback: online exactly
/// while the motor runs; position, velocity and torque as measured; nothing
/// else.
pub fn feedback_state(
    local_id: u8,
    running: bool,
    position: Double,
    velocity: Double,
    torque: Double,
) -> (s: ActuatorStateResponse)
    ensures
        s == (ActuatorStateResponse {
            actuator_id: local_id as u32,
            online: running,
            position: Some(position),
            velocity: Some(velocity),
            torque: Some(torque),
            temperature: None,
            voltage: None,
            current: None,
        }),
{
    ActuatorStateResponse {
        actuator_id: local_id as u32,
        online: running,
        position: Some(position),
        velocity: Some(velocity),
        torque: Some(torque),
        temperature: None,
        voltage: None,
        current: None,
    }
}

/// One result per target: whatever motors are routed and however the writes
/// end, a batch has exactly one result for each of its commands, at the
/// place of the command and under its target.
pub proof fn law_one_result_per_command(
    routes: Map<u32, MotorRouteView>,
    commands: Seq<ActuatorCommand>,
    outcomes: Seq<Vec<SetterOutcome>>,
)
    ensures
        ({
            let results = batch_results(
                commands.map_values(|c: ActuatorCommand| planned(routes, c)),
                outcomes,
            );
            &&& results.len() == commands.len()
            &&& forall|i: int|
                0 <= i < commands.len() ==> (#[trigger] results[i]).actuator_id
                    == commands[i].actuator_id
        }),
{
}

/// Partial failure of a batch: where exactly one command names a motor that
/// is not routed, and every write to the other motors goes through, the
/// batch has one result per command, the result of that one command reports
/// an invalid argument, and every other result reports success.
pub proof fn law_batch_partial_failure(
    routes: Map<u32, MotorRouteView>,
    commands: Seq<ActuatorCommand>,
    outcomes: Seq<Vec<SetterOutcome>>,
    bad: int,
)
    requires
        0 <= bad < commands.len(),
        outcomes.len() == commands.len(),
        !routed(routes, commands[bad].actuator_id),
        forall|i: int|
            0 <= i < commands.len() && i != bad ==> routed(
                routes,
                (#[trigger] commands[i]).actuator_id,
            ),
        forall|i: int|
            0 <= i < commands.len() && i != bad ==> all_done(
                outcome_views((#[trigger] outcomes[i])@),
            ),
    ensures
        ({
            let results = batch_results(
                commands.map_values(|c: ActuatorCommand| planned(routes, c)),
                outcomes,
            );
            &&& results.len() == commands.len()
            &&& forall|i: int|
                0 <= i < commands.len() ==> (#[trigger] results[i]).actuator_id
                    == commands[i].actuator_id
            &&& !results[bad].success
            &&& results[bad].error is Some
            &&& results[bad].error->0.code == ErrorCode::InvalidArgument
            &&& forall|i: int|
                0 <= i < commands.len() && i != bad ==> (#[trigger] results[i]).success
                    && results[i].error is None
        }),
{
    let plan = commands.map_values(|c: ActuatorCommand| planned(routes, c));
    let results = batch_results(plan, outcomes);
    assert forall|i: int| 0 <= i < commands.len() && i != bad implies (
    #[trigger] results[i]).success && results[i].error is None by {
        assert(routed(routes, commands[i].actuator_id));
        assert(all_done(outcome_views(outcomes[i]@)));
    }
}

} // verus!
