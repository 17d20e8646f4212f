use crate::config::Configuration;
use vstd::prelude::*;

verus! {

/// Delay before the next tick while the configuration is being edited.
pub const EDITING_DELAY_MS: i32 = 1000;
/// Delay before the next tick in every other case.
pub const TICK_DELAY_MS: i32 = 100;
/// Longest wait for the player to start moving or animating after an interaction.
pub const START_WAIT_CEILING_MS: u32 = 6000;
/// Longest further wait for the player to stop animating.
pub const FINISH_WAIT_CEILING_MS: u32 = 3000;
/// Pause between two looks at the player during a wait.
pub const WAIT_POLL_MS: u32 = 100;

/// What the host reports of the local player.
#[derive(Clone, Copy, Debug, PartialEq, Eq)]
pub struct PlayerState {
    pub moving: bool,
    pub animating: bool,
}

impl PlayerState {
    /// The player is doing something: moving or animating.
    pub open spec fn busy(self) -> bool {
        self.moving || self.animating
    }
}

/// Where a tick stands: which answer of the host it waits for.
#[derive(Clone, Copy, Debug, PartialEq, Eq)]
pub enum Stage {
    /// No tick is under way.
    Idle,
    /// Waits to learn whether the inventory is full.
    AwaitInventory,
    /// Waits for the local player, if there is one.
    AwaitPlayer,
    /// Waits to learn whether a fishing spot was found.
    AwaitTarget,
    /// Waits to learn whether the interaction succeeded.
    AwaitInteraction,
    /// Waits for the drop to be issued.
    AwaitDrop,
    /// Waits for the player to start moving or animating; `waited_ms` have passed.
    AwaitStart { waited_ms: u32 },
    /// Waits for the player to stop animating; `waited_ms` have passed.
    AwaitFinish { waited_ms: u32 },
}

/// An answer of the host to the last command.
#[derive(Clone, Copy, Debug, PartialEq, Eq)]
pub enum Event {
    /// Whether the inventory is full.
    InventoryFull(bool),
    /// The local player, if there is one.
    Player(Option<PlayerState>),
    /// Whether a fishing spot of the configured name was found.
    TargetFound(bool),
    /// Whether the interaction with the fishing spot succeeded.
    Interacted(bool),
    /// The drop was issued.
    Dropped,
    /// The player, looked at again during a wait.
    Polled(PlayerState),
}

/// What the host is asked to do next.
#[derive(Debug, PartialEq, Eq)]
pub enum Command {
    /// Report whether the inventory is full.
    CheckInventory,
    /// Report the local player.
    FindPlayer,
    /// Look for the nearest entity of this name and report whether there is one.
    FindTarget(String),
    /// Interact with the entity found, by this verb, and report success.
    Interact(String),
    /// Drop every inventory item with one of these identifiers.
    Drop(Vec<u32>),
    /// Pause this many milliseconds, then report the player again.
    PollPlayer(u32),
    /// End the tick; call again after this many milliseconds.
    Finish(i32),
}

/// A command, with its strings and identifiers as sequences.
pub enum CommandModel {
    CheckInventory,
    FindPlayer,
    FindTarget(Seq<char>),
    Interact(Seq<char>),
    Drop(Seq<u32>),
    PollPlayer(u32),
    Finish(i32),
}

impl View for Command {
    type V = CommandModel;

    open spec fn view(&self) -> CommandModel {
        match self {
            Command::CheckInventory => CommandModel::CheckInventory,
            Command::FindPlayer => CommandModel::FindPlayer,
            Command::FindTarget(name) => CommandModel::FindTarget(name@),
            Command::Interact(verb) => CommandModel::Interact(verb@),
            Command::Drop(ids) => CommandModel::Drop(ids@),
            Command::PollPlayer(ms) => CommandModel::PollPlayer(*ms),
            Command::Finish(ms) => CommandModel::Finish(*ms),
        }
    }
}

/// The outcome of one answer: the next stage, a new status label if any, and
/// the next command.
pub struct Decision {
    pub stage: Stage,
    pub status: Option<String>,
    pub command: Command,
}

/// A decision, with its strings as sequences.
pub struct DecisionModel {
    pub stage: Stage,
    pub status: Option<Seq<char>>,
    pub command: CommandModel,
}

impl View for Decision {
    type V = DecisionModel;

    open spec fn view(&self) -> DecisionModel {
        DecisionModel {
            stage: self.stage,
            status: match self.status {
                Some(s) => Some(s@),
                None => None,
            },
            command: self.command@,
        }
    }
}

/// The identifiers of the raw fish that a full inventory is emptied of.
pub open spec fn drop_ids() -> Seq<u32> {
    seq![317u32, 321u32, 335u32, 331u32, 359u32, 371u32]
}

/// The identifiers of the raw fish that a full inventory is emptied of.
pub fn drop_item_ids() -> (r: Vec<u32>)
    ensures
        r@ == drop_ids(),
{
    let mut ids: Vec<u32> = Vec::new();
    ids.push(317);
    ids.push(321);
    ids.push(335);
    ids.push(331);
    ids.push(359);
    ids.push(371);
    assert(ids@ =~= drop_ids());
    ids
}

/// The stage and command with which a tick opens.
pub open spec fn opening(editing: bool) -> (Stage, CommandModel) {
    if editing {
        (Stage::Idle, CommandModel::Finish(EDITING_DELAY_MS))
    } else {
        (Stage::AwaitInventory, CommandModel::CheckInventory)
    }
}

/// The decision that a tick ends with, leaving the status as it is.
pub open spec fn finished() -> DecisionModel {
    DecisionModel { stage: Stage::Idle, status: None, command: CommandModel::Finish(TICK_DELAY_MS) }
}

/// The decision for the answer `event` in `stage`, under a configuration whose
/// spot name is `name` and whose spot action is `verb`.
pub open spec fn next(stage: Stage, name: Seq<char>, verb: Seq<char>, event: Event) -> DecisionModel {
    match (stage, event) {
        (Stage::AwaitInventory, Event::InventoryFull(true)) => DecisionModel {
            stage: Stage::AwaitDrop,
            status: Some("Dropping"@),
            command: CommandModel::Drop(drop_ids()),
        },
        (Stage::AwaitInventory, Event::InventoryFull(false)) => DecisionModel {
            stage: Stage::AwaitPlayer,
            status: None,
            command: CommandModel::FindPlayer,
        },
        (Stage::AwaitPlayer, Event::Player(Some(p))) => if p.busy() {
            DecisionModel { stage: Stage::Idle, status: Some("Fishing"@), command: CommandModel::Finish(TICK_DELAY_MS) }
        } else {
            DecisionModel { stage: Stage::AwaitTarget, status: None, command: CommandModel::FindTarget(name) }
        },
        (Stage::AwaitTarget, Event::TargetFound(true)) => DecisionModel {
            stage: Stage::AwaitInteraction,
            status: Some("Interacting"@),
            command: CommandModel::Interact(verb),
        },
        (Stage::AwaitInteraction, Event::Interacted(true)) => DecisionModel {
            stage: Stage::AwaitStart { waited_ms: 0 },
            status: None,
            command: CommandModel::PollPlayer(0),
        },
        (Stage::AwaitStart { waited_ms }, Event::Polled(p)) => if p.busy() || waited_ms >= START_WAIT_CEILING_MS {
            DecisionModel { stage: Stage::AwaitFinish { waited_ms: 0 }, status: None, command: CommandModel::PollPlayer(0) }
        } else {
            DecisionModel {
                stage: Stage::AwaitStart { waited_ms: (waited_ms + WAIT_POLL_MS) as u32 },
                status: None,
                command: CommandModel::PollPlayer(WAIT_POLL_MS),
            }
        },
        (Stage::AwaitFinish { waited_ms }, Event::Polled(p)) => if !p.animating || waited_ms >= FINISH_WAIT_CEILING_MS {
            finished()
        } else {
            DecisionModel {
                stage: Stage::AwaitFinish { waited_ms: (waited_ms + WAIT_POLL_MS) as u32 },
                status: None,
                command: CommandModel::PollPlayer(WAIT_POLL_MS),
            }
        },
        // No player, no spot, a failed interaction, a drop issued, or an
        // answer that the stage does not wait for: the tick ends.
        _ => finished(),
    }
}

/// Decides what follows the answer `event` in `stage`.
pub fn decide(stage: Stage, config: &Configuration, event: Event) -> (r: Decision)
    ensures
        r@ == next(stage, config.spot_name@, config.spot_action@, event),
{
    let end = Decision { stage: Stage::Idle, status: None, command: Command::Finish(TICK_DELAY_MS) };
    match (stage, event) {
        (Stage::AwaitInventory, Event::InventoryFull(true)) => Decision {
            stage: Stage::AwaitDrop,
            status: Some("Dropping".to_owned()),
            command: Command::Drop(drop_item_ids()),
        },
        (Stage::AwaitInventory, Event::InventoryFull(false)) => Decision {
            stage: Stage::AwaitPlayer,
            status: None,
            command: Command::FindPlayer,
        },
        (Stage::AwaitPlayer, Event::Player(Some(p))) => if p.moving || p.animating {
            Decision { stage: Stage::Idle, status: Some("Fishing".to_owned()), command: Command::Finish(TICK_DELAY_MS) }
        } else {
            Decision { stage: Stage::AwaitTarget, status: None, command: Command::FindTarget(config.spot_name.clone()) }
        },
        (Stage::AwaitTarget, Event::TargetFound(true)) => Decision {
            stage: Stage::AwaitInteraction,
            status: Some("Interacting".to_owned()),
            command: Command::Interact(config.spot_action.clone()),
        },
        (Stage::AwaitInteraction, Event::Interacted(true)) => Decision {
            stage: Stage::AwaitStart { waited_ms: 0 },
            status: None,
            command: Command::PollPlayer(0),
        },
        (Stage::AwaitStart { waited_ms }, Event::Polled(p)) => if p.moving || p.animating || waited_ms >= START_WAIT_CEILING_MS {
            Decision { stage: Stage::AwaitFinish { waited_ms: 0 }, status: None, command: Command::PollPlayer(0) }
        } else {
            Decision {
                stage: Stage::AwaitStart { waited_ms: waited_ms + WAIT_POLL_MS },
                status: None,
                command: Command::PollPlayer(WAIT_POLL_MS),
            }
        },
        (Stage::AwaitFinish { waited_ms }, Event::Polled(p)) => if !p.animating || waited_ms >= FINISH_WAIT_CEILING_MS {
            end
        } else {
            Decision {
                stage: Stage::AwaitFinish { waited_ms: waited_ms + WAIT_POLL_MS },
                status: None,
                command: Command::PollPlayer(WAIT_POLL_MS),
            }
        },
        _ => end,
    }
}

} // verus!
