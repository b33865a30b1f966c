//! Unit commands: what each command shows and means, the per-unit command
//! queue (shift-queueing), and the legacy command hotkeys.
use vstd::prelude::*;
use crate::interface::{CommandType, ObjectInterfaceState};
use crate::objects::{EntityId, ObjectEnum};

verus! {

/// A command given to a unit; `P` is a world position.
#[derive(Clone, Copy, Debug)]
pub enum UnitCommand<P> {
    Idle,
    Move(P),
    Reverse(P),
    AttackTarget(EntityId),
    AttackLocation(P),
    AttackMove(P),
    Patrol { start: P, end: P, going_to_end: bool },
    HoldPosition,
    Stop,
    Enter(EntityId),
    EnterArmory(EntityId),
    Build { target: P, object: ObjectEnum },
    Gather(EntityId),
    DropOffResources(EntityId),
    BuildTunnel(P),
    PickUpSupplies(EntityId),
    AttachToTower(EntityId),
    DropOffSupplies(EntityId),
}

/// Colour class of a command's indicator.
#[derive(Clone, Copy, Debug, PartialEq, Eq, Structural, Hash)]
pub enum IndicatorColor {
    /// Peaceful movement.
    Green,
    /// Hostile target.
    Red,
    /// Aggressive movement.
    Orange,
    /// No indicator.
    NoColor,
}

/// The command shows an indicator.
pub open spec fn has_indicator<P>(cmd: UnitCommand<P>) -> bool {
    match cmd {
        UnitCommand::Move(_)
        | UnitCommand::AttackTarget(_)
        | UnitCommand::AttackLocation(_)
        | UnitCommand::AttackMove(_)
        | UnitCommand::Patrol { .. }
        | UnitCommand::Reverse(_)
        | UnitCommand::Enter(_)
        | UnitCommand::EnterArmory(_)
        | UnitCommand::Gather(_)
        | UnitCommand::DropOffResources(_)
        | UnitCommand::BuildTunnel(_) => true,
        _ => false,
    }
}

/// Whether the command shows indicators.
pub fn command_has_indicator<P>(cmd: &UnitCommand<P>) -> (r: bool)
    ensures
        r == has_indicator(*cmd),
{
    match cmd {
        UnitCommand::Move(_)
        | UnitCommand::AttackTarget(_)
        | UnitCommand::AttackLocation(_)
        | UnitCommand::AttackMove(_)
        | UnitCommand::Patrol { .. }
        | UnitCommand::Reverse(_)
        | UnitCommand::Enter(_)
        | UnitCommand::EnterArmory(_)
        | UnitCommand::Gather(_)
        | UnitCommand::DropOffResources(_)
        | UnitCommand::BuildTunnel(_) => true,
        _ => false,
    }
}

/// The colour class of the command's indicator: green for peaceful movement,
/// red for attacks on a target, orange for aggressive movement.
pub fn command_indicator_color<P>(cmd: &UnitCommand<P>) -> (r: IndicatorColor)
    ensures
        r == match *cmd {
            UnitCommand::Move(_)
            | UnitCommand::Reverse(_)
            | UnitCommand::Enter(_)
            | UnitCommand::EnterArmory(_)
            | UnitCommand::Gather(_)
            | UnitCommand::DropOffResources(_)
            | UnitCommand::BuildTunnel(_) => IndicatorColor::Green,
            UnitCommand::AttackTarget(_) | UnitCommand::AttackLocation(_) => IndicatorColor::Red,
            UnitCommand::AttackMove(_) | UnitCommand::Patrol { .. } => IndicatorColor::Orange,
            _ => IndicatorColor::NoColor,
        },
{
    match cmd {
        UnitCommand::Move(_)
        | UnitCommand::Reverse(_)
        | UnitCommand::Enter(_)
        | UnitCommand::EnterArmory(_)
        | UnitCommand::Gather(_)
        | UnitCommand::DropOffResources(_)
        | UnitCommand::BuildTunnel(_) => IndicatorColor::Green,
        UnitCommand::AttackTarget(_) | UnitCommand::AttackLocation(_) => IndicatorColor::Red,
        UnitCommand::AttackMove(_) | UnitCommand::Patrol { .. } => IndicatorColor::Orange,
        _ => IndicatorColor::NoColor,
    }
}

/// A command has an indicator exactly when its indicator has a colour.
pub proof fn law_indicator_iff_colored<P>(cmd: UnitCommand<P>)
    ensures
        has_indicator(cmd) <==> match cmd {
            UnitCommand::Move(_)
            | UnitCommand::Reverse(_)
            | UnitCommand::Enter(_)
            | UnitCommand::EnterArmory(_)
            | UnitCommand::Gather(_)
            | UnitCommand::DropOffResources(_)
            | UnitCommand::BuildTunnel(_)
            | UnitCommand::AttackTarget(_)
            | UnitCommand::AttackLocation(_)
            | UnitCommand::AttackMove(_)
            | UnitCommand::Patrol { .. } => true,
            _ => false,
        },
{
}

/// The kind, target location and target entity a unit's command stands for.
#[derive(Clone, Copy, Debug)]
pub struct BaseCommandState<P> {
    pub command_type: CommandType,
    pub target_location: Option<P>,
    pub target_entity: Option<EntityId>,
}

/// What a command stands for: its kind, target location and target entity.
pub open spec fn command_summary<P>(cmd: UnitCommand<P>) -> (CommandType, Option<P>, Option<EntityId>) {
    match cmd {
        UnitCommand::Idle => (CommandType::Default, None, None),
        UnitCommand::Move(p) => (CommandType::Move, Some(p), None),
        UnitCommand::AttackTarget(e) => (CommandType::Attack, None, Some(e)),
        UnitCommand::AttackLocation(p) => (CommandType::AttackGround, Some(p), None),
        UnitCommand::AttackMove(p) => (CommandType::AttackMove, Some(p), None),
        UnitCommand::Patrol { end, .. } => (CommandType::Patrol, Some(end), None),
        UnitCommand::HoldPosition => (CommandType::HoldPosition, None, None),
        UnitCommand::Stop => (CommandType::Stop, None, None),
        UnitCommand::Reverse(p) => (CommandType::Reverse, Some(p), None),
        UnitCommand::Enter(e) => (CommandType::Enter, None, Some(e)),
        UnitCommand::EnterArmory(e) => (CommandType::Enter, None, Some(e)),
        UnitCommand::Build { target, .. } => (CommandType::Build, Some(target), None),
        UnitCommand::Gather(e) => (CommandType::Gather, None, Some(e)),
        UnitCommand::DropOffResources(e) => (CommandType::DropOff, None, Some(e)),
        UnitCommand::BuildTunnel(p) => (CommandType::BuildTunnel, Some(p), None),
        UnitCommand::PickUpSupplies(e) => (CommandType::PickUpSupplies, None, Some(e)),
        UnitCommand::AttachToTower(e) => (CommandType::AttachToTower, None, Some(e)),
        UnitCommand::DropOffSupplies(e) => (CommandType::DropOffSupplies, None, Some(e)),
    }
}

/// The command state that mirrors a unit's command.
pub fn command_state<P: Copy>(cmd: &UnitCommand<P>) -> (r: BaseCommandState<P>)
    ensures
        (r.command_type, r.target_location, r.target_entity) == command_summary(*cmd),
{
    let (command_type, target_location, target_entity) = match cmd {
        UnitCommand::Idle => (CommandType::Default, None, None),
        UnitCommand::Move(p) => (CommandType::Move, Some(*p), None),
        UnitCommand::AttackTarget(e) => (CommandType::Attack, None, Some(*e)),
        UnitCommand::AttackLocation(p) => (CommandType::AttackGround, Some(*p), None),
        UnitCommand::AttackMove(p) => (CommandType::AttackMove, Some(*p), None),
        UnitCommand::Patrol { end, .. } => (CommandType::Patrol, Some(*end), None),
        UnitCommand::HoldPosition => (CommandType::HoldPosition, None, None),
        UnitCommand::Stop => (CommandType::Stop, None, None),
        UnitCommand::Reverse(p) => (CommandType::Reverse, Some(*p), None),
        UnitCommand::Enter(e) => (CommandType::Enter, None, Some(*e)),
        UnitCommand::EnterArmory(e) => (CommandType::Enter, None, Some(*e)),
        UnitCommand::Build { target, .. } => (CommandType::Build, Some(*target), None),
        UnitCommand::Gather(e) => (CommandType::Gather, None, Some(*e)),
        UnitCommand::DropOffResources(e) => (CommandType::DropOff, None, Some(*e)),
        UnitCommand::BuildTunnel(p) => (CommandType::BuildTunnel, Some(*p), None),
        UnitCommand::PickUpSupplies(e) => (CommandType::PickUpSupplies, None, Some(*e)),
        UnitCommand::AttachToTower(e) => (CommandType::AttachToTower, None, Some(*e)),
        UnitCommand::DropOffSupplies(e) => (CommandType::DropOffSupplies, None, Some(*e)),
    };
    BaseCommandState { command_type, target_location, target_entity }
}

/// Commands queued behind a unit's current command, first to run first.
#[derive(Clone, Debug)]
pub struct CommandQueue<P> {
    pub commands: Vec<UnitCommand<P>>,
}

impl<P> CommandQueue<P> {
    /// An empty queue.
    pub fn new() -> (r: Self)
        ensures
            r.commands@.len() == 0,
    {
        CommandQueue { commands: Vec::new() }
    }

    /// Queue a command at the end.
    pub fn push(&mut self, cmd: UnitCommand<P>)
        ensures
            final(self).commands@ == old(self).commands@.push(cmd),
    {
        self.commands.push(cmd);
    }

    /// Number of queued commands.
    pub fn len(&self) -> (r: usize)
        ensures
            r == self.commands@.len(),
    {
        self.commands.len()
    }

    /// Whether nothing is queued.
    pub fn is_empty(&self) -> (r: bool)
        ensures
            r == (self.commands@.len() == 0),
    {
        self.commands.len() == 0
    }

    /// Drop every queued command.
    pub fn clear(&mut self)
        ensures
            final(self).commands@.len() == 0,
    {
        self.commands = Vec::new();
    }
}

/// Give a unit a command: with Shift it is queued behind the current one;
/// without, it replaces the current command and the queue is emptied.
pub fn issue_or_queue_command<P>(current: &mut UnitCommand<P>, queue: &mut CommandQueue<P>, cmd: UnitCommand<P>, shift_held: bool)
    ensures
        shift_held ==> *final(current) == *old(current) && final(queue).commands@ == old(queue).commands@.push(cmd),
        !shift_held ==> *final(current) == cmd && final(queue).commands@.len() == 0,
{
    if shift_held {
        queue.push(cmd);
    } else {
        queue.clear();
        *current = cmd;
    }
}

/// An idle unit takes the first queued command.
pub fn command_dequeue<P>(current: &mut UnitCommand<P>, queue: &mut CommandQueue<P>)
    ensures
        (*old(current) is Idle && old(queue).commands@.len() > 0) ==> *final(current) == old(queue).commands@[0]
            && final(queue).commands@ == old(queue).commands@.drop_first(),
        !(*old(current) is Idle && old(queue).commands@.len() > 0) ==> *final(current) == *old(current)
            && final(queue).commands@ == old(queue).commands@,
{
    let idle = match current {
        UnitCommand::Idle => true,
        _ => false,
    };
    if idle && queue.commands.len() > 0 {
        let next = queue.commands.remove(0);
        proof {
            assert(queue.commands@ =~= old(queue).commands@.drop_first());
        }
        *current = next;
    }
}

/// Shift-queued commands run in the order they were given: queueing behind
/// a busy unit and then dequeuing once it is idle yields the first queued.
pub proof fn law_queue_fifo<P>(queue: Seq<UnitCommand<P>>, a: UnitCommand<P>, b: UnitCommand<P>)
    ensures
        queue.push(a).push(b).drop_first() == (if queue.len() == 0 {
            seq![b]
        } else {
            queue.drop_first().push(a).push(b)
        }),
        (queue.len() == 0 ==> queue.push(a).push(b)[0] == a),
{
    if queue.len() == 0 {
        assert(queue.push(a).push(b).drop_first() =~= seq![b]);
    } else {
        assert(queue.push(a).push(b).drop_first() =~= queue.drop_first().push(a).push(b));
    }
}

/// A legacy command hotkey.
#[derive(Clone, Copy, Debug, PartialEq, Eq, Structural, Hash)]
pub enum CommandKey {
    Move,
    Attack,
    AttackGround,
    AttackMove,
    Patrol,
    HoldPosition,
    Stop,
    Escape,
}

/// The interface state after a legacy hotkey. While the command panel shows
/// (`panel_visible`), only Escape acts, cancelling a target wait; otherwise
/// M, A, G, T and P start waiting for a target of their command, and Escape
/// cancels a wait. Hold and Stop have their own handling.
pub fn command_hotkey(state: ObjectInterfaceState, panel_visible: bool, key: CommandKey) -> (r: ObjectInterfaceState)
    ensures
        r == if key == CommandKey::Escape {
            if state is AwaitingTarget {
                ObjectInterfaceState::Default
            } else {
                state
            }
        } else if panel_visible {
            state
        } else {
            match key {
                CommandKey::Move => ObjectInterfaceState::AwaitingTarget(CommandType::Move),
                CommandKey::Attack => ObjectInterfaceState::AwaitingTarget(CommandType::Attack),
                CommandKey::AttackGround => ObjectInterfaceState::AwaitingTarget(CommandType::AttackGround),
                CommandKey::AttackMove => ObjectInterfaceState::AwaitingTarget(CommandType::AttackMove),
                CommandKey::Patrol => ObjectInterfaceState::AwaitingTarget(CommandType::Patrol),
                _ => state,
            }
        },
{
    match key {
        CommandKey::Escape => match state {
            ObjectInterfaceState::AwaitingTarget(_) => ObjectInterfaceState::Default,
            _ => state,
        },
        _ => {
            if panel_visible {
                return state;
            }
            match key {
                CommandKey::Move => ObjectInterfaceState::AwaitingTarget(CommandType::Move),
                CommandKey::Attack => ObjectInterfaceState::AwaitingTarget(CommandType::Attack),
                CommandKey::AttackGround => ObjectInterfaceState::AwaitingTarget(CommandType::AttackGround),
                CommandKey::AttackMove => ObjectInterfaceState::AwaitingTarget(CommandType::AttackMove),
                CommandKey::Patrol => ObjectInterfaceState::AwaitingTarget(CommandType::Patrol),
                _ => state,
            }
        },
    }
}

/// Patrol turns around at the end it reached: the command that keeps
/// patrolling, and the new heading.
pub fn patrol_turn<P: Copy>(start: P, end: P, going_to_end: bool) -> (r: (UnitCommand<P>, P))
    ensures
        r.0 == (UnitCommand::Patrol { start, end, going_to_end: !going_to_end }),
        r.1 == (if going_to_end {
            start
        } else {
            end
        }),
{
    let new_going_to_end = !going_to_end;
    let target = if new_going_to_end {
        end
    } else {
        start
    };
    (UnitCommand::Patrol { start, end, going_to_end: new_going_to_end }, target)
}

/// Repathing attempts before a blocked unit gives up.
pub const MAX_REPATH_ATTEMPTS: u8 = 5;

/// Consecutive failed repath attempts of a unit.
#[derive(Clone, Copy, Debug, PartialEq, Eq, Structural)]
pub struct RepathAttempts(pub u8);

} // verus!
