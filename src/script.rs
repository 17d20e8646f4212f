use crate::config::Configuration;
use crate::controller::{
    decide, drop_ids, finished, next, opening, Command, CommandModel, DecisionModel, Event,
    PlayerState, Stage, EDITING_DELAY_MS, FINISH_WAIT_CEILING_MS, START_WAIT_CEILING_MS,
    WAIT_POLL_MS,
};
use crate::progress::Progress;
use vstd::prelude::*;

verus! {

/// The fishing script: its configuration, its run statistics and the stage of
/// the tick under way.
pub struct FishingScript {
    pub configuration: Configuration,
    pub progress: Progress,
    pub stage: Stage,
}

impl FishingScript {
    /// A script with the default configuration, open for editing, and a run
    /// not yet started.
    pub fn new() -> (r: FishingScript)
        ensures
            r.configuration.spot_action@ == "Net"@,
            r.configuration.spot_name@ == "Fishing spot"@,
            r.configuration.editing,
            r.progress.start_time_ms == 0,
            r.progress.start_exp == 0,
            r.progress.status@ == Seq::<char>::empty(),
            r.stage == Stage::Idle,
    {
        FishingScript { configuration: Configuration::default(), progress: Progress::new(), stage: Stage::Idle }
    }

    /// Starts the run at `now_ms`, with the fishing skill at `current_exp`.
    pub fn on_start(&mut self, now_ms: u128, current_exp: i32)
        ensures
            final(self).progress.start_time_ms == now_ms,
            final(self).progress.start_exp == current_exp,
            final(self).progress.status@ == "Started"@,
            final(self).configuration == old(self).configuration,
            final(self).stage == old(self).stage,
    {
        self.progress.start(now_ms, current_exp);
    }

    /// Opens a tick. While the configuration is being edited the tick ends at
    /// once, asking nothing of the host, with a delay of one second; otherwise
    /// it asks whether the inventory is full.
    pub fn on_loop(&mut self) -> (r: Command)
        ensures
            (final(self).stage, r@) == opening(old(self).configuration.editing),
            old(self).configuration.editing ==> final(self).stage == Stage::Idle && r@
                == CommandModel::Finish(1000),
            final(self).configuration == old(self).configuration,
            final(self).progress == old(self).progress,
    {
        if self.configuration.editing {
            self.stage = Stage::Idle;
            Command::Finish(EDITING_DELAY_MS)
        } else {
            self.stage = Stage::AwaitInventory;
            Command::CheckInventory
        }
    }

    /// Takes the host's answer to the last command and returns the next one,
    /// setting the status label where the decision gives one.
    pub fn on_event(&mut self, event: Event) -> (r: Command)
        ensures
            ({
                let d = next(
                    old(self).stage,
                    old(self).configuration.spot_name@,
                    old(self).configuration.spot_action@,
                    event,
                );
                &&& final(self).stage == d.stage
                &&& r@ == d.command
                &&& match d.status {
                    Some(s) => final(self).progress.status@ == s,
                    None => final(self).progress.status == old(self).progress.status,
                }
            }),
            final(self).progress.start_time_ms == old(self).progress.start_time_ms,
            final(self).progress.start_exp == old(self).progress.start_exp,
            final(self).configuration == old(self).configuration,
    {
        let d = decide(self.stage, &self.configuration, event);
        self.stage = d.stage;
        match d.status {
            Some(s) => {
                self.progress.set_status(s.as_str());
            },
            None => {},
        }
        d.command
    }
}

/// While the configuration is being edited, a tick asks nothing of the host
/// and ends at once with a delay of 1000 ms.
pub proof fn lemma_editing_suspends_ticks()
    ensures
        opening(true) == (Stage::Idle, CommandModel::Finish(1000)),
{
}

/// When the inventory is full, whatever the player or the spots, the tick sets
/// the status "Dropping", drops exactly the six fish identifiers and then ends
/// with a delay of 100 ms.
pub proof fn lemma_full_inventory_drops(name: Seq<char>, verb: Seq<char>, after_drop: Event)
    ensures
        opening(false) == (Stage::AwaitInventory, CommandModel::CheckInventory),
        next(Stage::AwaitInventory, name, verb, Event::InventoryFull(true)) == (DecisionModel {
            stage: Stage::AwaitDrop,
            status: Some("Dropping"@),
            command: CommandModel::Drop(drop_ids()),
        }),
        drop_ids() == seq![317u32, 321u32, 335u32, 331u32, 359u32, 371u32],
        next(Stage::AwaitDrop, name, verb, after_drop) == (DecisionModel {
            stage: Stage::Idle,
            status: None,
            command: CommandModel::Finish(100),
        }),
{
}

/// When the inventory is not full and the player is moving or animating, the
/// status becomes "Fishing" and the tick ends: no spot is looked for, nothing
/// is interacted with or dropped.
pub proof fn lemma_busy_player_is_fishing(name: Seq<char>, verb: Seq<char>, p: PlayerState)
    requires
        p.busy(),
    ensures
        next(Stage::AwaitInventory, name, verb, Event::InventoryFull(false)) == (DecisionModel {
            stage: Stage::AwaitPlayer,
            status: None,
            command: CommandModel::FindPlayer,
        }),
        next(Stage::AwaitPlayer, name, verb, Event::Player(Some(p))) == (DecisionModel {
            stage: Stage::Idle,
            status: Some("Fishing"@),
            command: CommandModel::Finish(100),
        }),
{
}

/// When the player is idle, the spot of the configured name is looked for; once
/// found, the status becomes "Interacting" and the configured action is tried;
/// on success the tick goes on to wait for the player to start.
pub proof fn lemma_idle_player_interacts(name: Seq<char>, verb: Seq<char>, p: PlayerState)
    requires
        !p.busy(),
    ensures
        next(Stage::AwaitPlayer, name, verb, Event::Player(Some(p))) == (DecisionModel {
            stage: Stage::AwaitTarget,
            status: None,
            command: CommandModel::FindTarget(name),
        }),
        next(Stage::AwaitTarget, name, verb, Event::TargetFound(true)) == (DecisionModel {
            stage: Stage::AwaitInteraction,
            status: Some("Interacting"@),
            command: CommandModel::Interact(verb),
        }),
        next(Stage::AwaitInteraction, name, verb, Event::Interacted(true)) == (DecisionModel {
            stage: Stage::AwaitStart { waited_ms: 0 },
            status: None,
            command: CommandModel::PollPlayer(0),
        }),
        next(Stage::AwaitTarget, name, verb, Event::TargetFound(false)) == finished(),
        next(Stage::AwaitInteraction, name, verb, Event::Interacted(false)) == finished(),
{
}

/// The waits of a tick are well formed: the time waited is a whole number of
/// pauses and never passes its ceiling.
pub open spec fn waits_bounded(stage: Stage) -> bool {
    match stage {
        Stage::AwaitStart { waited_ms } => waited_ms <= START_WAIT_CEILING_MS && waited_ms
            % WAIT_POLL_MS == 0,
        Stage::AwaitFinish { waited_ms } => waited_ms <= FINISH_WAIT_CEILING_MS && waited_ms
            % WAIT_POLL_MS == 0,
        _ => true,
    }
}

/// Every answer keeps the waits within their ceilings.
pub proof fn lemma_waits_stay_bounded(stage: Stage, name: Seq<char>, verb: Seq<char>, event: Event)
    requires
        waits_bounded(stage),
    ensures
        waits_bounded(next(stage, name, verb, event).stage),
{
}

/// After a successful interaction the tick waits, in pauses of 100 ms, for the
/// player to start moving or animating: it stops waiting as soon as that is so,
/// or once 6000 ms have passed, and then waits for the player to stop.
pub proof fn lemma_start_wait(waited_ms: u32, name: Seq<char>, verb: Seq<char>, p: PlayerState)
    requires
        waits_bounded(Stage::AwaitStart { waited_ms }),
    ensures
        ({
            let d = next(Stage::AwaitStart { waited_ms }, name, verb, Event::Polled(p));
            &&& d.status is None
            &&& (p.busy() || waited_ms == 6000) ==> d.stage == Stage::AwaitFinish { waited_ms: 0 }
                && d.command == CommandModel::PollPlayer(0)
            &&& (!p.busy() && waited_ms < 6000) ==> d.stage == Stage::AwaitStart {
                waited_ms: (waited_ms + 100) as u32,
            } && d.command == CommandModel::PollPlayer(100) && waited_ms + 100 <= 6000
        }),
{
}

/// The second wait goes on, in pauses of 100 ms, while the player animates: it
/// ends the tick as soon as the player stops animating, or once a further
/// 3000 ms have passed.
pub proof fn lemma_finish_wait(waited_ms: u32, name: Seq<char>, verb: Seq<char>, p: PlayerState)
    requires
        waits_bounded(Stage::AwaitFinish { waited_ms }),
    ensures
        ({
            let d = next(Stage::AwaitFinish { waited_ms }, name, verb, Event::Polled(p));
            &&& d.status is None
            &&& (!p.animating || waited_ms == 3000) ==> d == finished()
            &&& (p.animating && waited_ms < 3000) ==> d.stage == Stage::AwaitFinish {
                waited_ms: (waited_ms + 100) as u32,
            } && d.command == CommandModel::PollPlayer(100) && waited_ms + 100 <= 3000
        }),
        finished().command == CommandModel::Finish(100),
{
}

} // verus!
