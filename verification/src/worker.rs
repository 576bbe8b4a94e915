//! The write worker: what it does with each command that it receives, when
//! it flushes, and what a flush sends to the store.
//!
//! The worker's loop waits for commands and for the store, so it runs outside
//! this library. Every decision of the loop is a function here: the loop
//! asks [`CommandWorker::should_flush`] before it waits, hands what it
//! received to [`CommandWorker::receive`], and submits the pipeline that
//! [`CommandWorker::flush`] or [`CommandWorker::finish`] built.

use vstd::prelude::*;
use std::collections::VecDeque;
use redis::Pipeline;
use crate::command::{command_views, CommandView, DatabaseCommand, DatabaseOperation};
use crate::config::CacheConfig;
use crate::dispatch::{
    delete, delete_op, dispatched, insert, insert_op, lemma_insert_table, list_collections,
    update, update_op,
};
use crate::error::CacheError;
use crate::keys::{collection_of, get_collection_key, joined};
use crate::store::{make_atomic, new_pipeline, pipeline_commands, pipeline_is_atomic, StoreOp};

verus! {

/// What a command turns into: the operation that it adds to the pipeline,
/// or the reason for which it is skipped. A command without a key, or with
/// a key without a delimiter, is invalid; `Close` is no operation of the
/// store.
pub open spec fn planned_op(trader_key: Seq<char>, command: CommandView) -> Result<
    StoreOp,
    CacheError,
> {
    match command.key {
        None => Err(CacheError::InvalidKey),
        Some(key) => match collection_of(key) {
            None => Err(CacheError::InvalidKey),
            Some(collection) => match command.op_type {
                DatabaseOperation::Insert => match command.payload {
                    Some(payload) => insert_op(trader_key, collection, key, payload),
                    None => Err(CacheError::EmptyPayload),
                },
                DatabaseOperation::Update => match command.payload {
                    Some(payload) => update_op(trader_key, collection, key, payload),
                    None => Err(CacheError::EmptyPayload),
                },
                DatabaseOperation::Delete => delete_op(
                    trader_key,
                    collection,
                    key,
                    command.payload,
                ),
                DatabaseOperation::Close => Err(CacheError::UnsupportedOp),
            },
        },
    }
}

/// The operations that a sequence of commands turns into, in the order of
/// the commands; the commands that are skipped leave no trace in it.
pub open spec fn planned_ops(trader_key: Seq<char>, commands: Seq<CommandView>) -> Seq<StoreOp>
    decreases commands.len(),
{
    if commands.len() == 0 {
        Seq::empty()
    } else {
        let before = planned_ops(trader_key, commands.drop_last());
        match planned_op(trader_key, commands.last()) {
            Ok(op) => before.push(op),
            Err(_) => before,
        }
    }
}

/// The reasons for which commands of a sequence are skipped, in the order
/// of the commands.
pub open spec fn planned_errors(trader_key: Seq<char>, commands: Seq<CommandView>) -> Seq<
    CacheError,
>
    decreases commands.len(),
{
    if commands.len() == 0 {
        Seq::empty()
    } else {
        let before = planned_errors(trader_key, commands.drop_last());
        match planned_op(trader_key, commands.last()) {
            Ok(_) => before,
            Err(e) => before.push(e),
        }
    }
}

/// What one flush hands to the store, and what it left out.
pub struct Batch {
    /// The atomic pipeline to submit.
    pub pipeline: Pipeline,
    /// One error for each command that was skipped, to be logged.
    pub errors: Vec<CacheError>,
}

/// Adds to the pipeline what one command comes to, or says why the command
/// is skipped.
pub fn dispatch_command(pipe: &mut Pipeline, trader_key: &str, command: DatabaseCommand) -> (r:
    Result<(), CacheError>)
    ensures
        dispatched(*old(pipe), *final(pipe), planned_op(trader_key@, command@), r),
{
    let DatabaseCommand { op_type, key, payload } = command;
    let key = match key {
        Some(key) => key,
        None => {
            return Err(CacheError::InvalidKey);
        },
    };
    let collection = match get_collection_key(key.as_str()) {
        Ok(collection) => collection,
        Err(e) => {
            return Err(e);
        },
    };
    match op_type {
        DatabaseOperation::Insert => match payload {
            Some(payload) => insert(pipe, trader_key, collection, key.as_str(), payload),
            None => Err(CacheError::EmptyPayload),
        },
        DatabaseOperation::Update => match payload {
            Some(payload) => update(pipe, trader_key, collection, key.as_str(), payload),
            None => Err(CacheError::EmptyPayload),
        },
        DatabaseOperation::Delete => delete(pipe, trader_key, collection, key.as_str(), payload),
        DatabaseOperation::Close => Err(CacheError::UnsupportedOp),
    }
}

/// Empties the buffer into one atomic pipeline. The pipeline holds what the
/// buffered commands turn into, in their order; a command that is ill-formed
/// is skipped, with its error noted, and the rest goes on.
pub fn drain_buffer(trader_key: &str, buffer: &mut VecDeque<DatabaseCommand>) -> (batch: Batch)
    ensures
        final(buffer)@.len() == 0,
        pipeline_is_atomic(batch.pipeline),
        pipeline_commands(batch.pipeline) == planned_ops(
            trader_key@,
            command_views(old(buffer)@),
        ),
        batch.errors@ == planned_errors(trader_key@, command_views(old(buffer)@)),
{
    let ghost all = command_views(buffer@);
    let mut pipe = new_pipeline();
    make_atomic(&mut pipe);
    let mut errors: Vec<CacheError> = Vec::new();
    let ghost mut done: int = 0;
    loop
        invariant
            0 <= done <= all.len(),
            buffer@.len() == all.len() - done,
            command_views(buffer@) == all.skip(done),
            pipeline_is_atomic(pipe),
            pipeline_commands(pipe) == planned_ops(trader_key@, all.take(done)),
            errors@ == planned_errors(trader_key@, all.take(done)),
        ensures
            buffer@.len() == 0,
            done == all.len(),
            pipeline_is_atomic(pipe),
            pipeline_commands(pipe) == planned_ops(trader_key@, all.take(done)),
            errors@ == planned_errors(trader_key@, all.take(done)),
        decreases buffer@.len(),
    {
        let ghost before = buffer@;
        match buffer.pop_front() {
            None => {
                break ;
            },
            Some(command) => {
                proof {
                    assert(command_views(before)[0] == command@);
                    assert(all.skip(done)[0] == all[done]);
                    assert(all[done] == command@);
                    assert(all.take(done + 1).drop_last() =~= all.take(done));
                    assert(all.take(done + 1).last() == command@);
                    assert(buffer@ == before.subrange(1, before.len() as int));
                    assert forall|i: int| 0 <= i < buffer@.len() implies command_views(buffer@)[i]
                        == all.skip(done + 1)[i] by {
                        assert(buffer@[i] == before[i + 1]);
                        assert(command_views(before)[i + 1] == before[i + 1]@);
                        assert(all.skip(done)[i + 1] == all[done + 1 + i]);
                    }
                    assert(command_views(buffer@) =~= all.skip(done + 1));
                }
                match dispatch_command(&mut pipe, trader_key, command) {
                    Ok(()) => {},
                    Err(e) => {
                        errors.push(e);
                    },
                }
                proof {
                    done = done + 1;
                }
            },
        }
    }
    proof {
        assert(all.take(done) =~= all);
    }
    Batch { pipeline: pipe, errors }
}

/// The state of the write worker between two steps of its loop.
pub struct CommandWorker {
    trader_key: String,
    buffer_interval_ms: u64,
    buffer: VecDeque<DatabaseCommand>,
}

impl CommandWorker {
    /// The key prefix under which the worker stores.
    pub closed spec fn trader_key(&self) -> Seq<char> {
        self.trader_key@
    }

    /// The least time between two flushes, in milliseconds.
    pub closed spec fn interval_ms(&self) -> nat {
        self.buffer_interval_ms as nat
    }

    /// The commands that wait for the next flush, oldest first.
    pub closed spec fn buffered(&self) -> Seq<DatabaseCommand> {
        self.buffer@
    }

    /// A worker with nothing buffered. It needs a database to write to, so
    /// a configuration without one is refused.
    pub fn new(trader_key: String, config: &CacheConfig) -> (r: Result<CommandWorker, CacheError>)
        ensures
            match r {
                Ok(worker) => {
                    &&& config.database is Some
                    &&& worker.trader_key() == trader_key@
                    &&& worker.interval_ms() == config.interval_ms()
                    &&& worker.buffered().len() == 0
                },
                Err(e) => e == CacheError::NoDatabaseConfig && config.database is None,
            },
    {
        if config.database.is_none() {
            return Err(CacheError::NoDatabaseConfig);
        }
        let interval: u64 = match config.buffer_interval_ms {
            Some(ms) => ms as u64,
            None => 0,
        };
        Ok(CommandWorker { trader_key, buffer_interval_ms: interval, buffer: VecDeque::new() })
    }

    /// How many commands wait for the next flush.
    pub fn pending(&self) -> (n: usize)
        ensures
            n == self.buffered().len(),
    {
        self.buffer.len()
    }

    /// Whether the worker flushes now rather than waits for a command: it
    /// does when the interval has passed since the last flush and something
    /// is buffered.
    pub fn should_flush(&self, elapsed_ms: u64) -> (r: bool)
        ensures
            r == (elapsed_ms >= self.interval_ms() && self.buffered().len() > 0),
    {
        elapsed_ms >= self.buffer_interval_ms && self.buffer.len() > 0
    }

    /// Takes what the channel gave. A command is buffered behind the earlier
    /// ones and the worker goes on; `Close`, or the end of the channel, stops
    /// the worker and buffers nothing.
    pub fn receive(&mut self, message: Option<DatabaseCommand>) -> (running: bool)
        ensures
            final(self).trader_key() == old(self).trader_key(),
            final(self).interval_ms() == old(self).interval_ms(),
            running == (message matches Some(command) && command.op_type
                != DatabaseOperation::Close),
            running ==> final(self).buffered() == old(self).buffered().push(message->0),
            !running ==> final(self).buffered() == old(self).buffered(),
    {
        match message {
            Some(command) => {
                if let DatabaseOperation::Close = command.op_type {
                    false
                } else {
                    self.buffer.push_back(command);
                    true
                }
            },
            None => false,
        }
    }

    /// Empties the buffer into one atomic pipeline, which holds what the
    /// buffered commands turn into, in the order in which they came.
    pub fn flush(&mut self) -> (batch: Batch)
        ensures
            final(self).trader_key() == old(self).trader_key(),
            final(self).interval_ms() == old(self).interval_ms(),
            final(self).buffered().len() == 0,
            pipeline_is_atomic(batch.pipeline),
            pipeline_commands(batch.pipeline) == planned_ops(
                old(self).trader_key(),
                command_views(old(self).buffered()),
            ),
            batch.errors@ == planned_errors(
                old(self).trader_key(),
                command_views(old(self).buffered()),
            ),
    {
        drain_buffer(self.trader_key.as_str(), &mut self.buffer)
    }

    /// The last flush of a worker that has stopped: of what is still
    /// buffered, if anything is.
    pub fn finish(&mut self) -> (last: Option<Batch>)
        ensures
            final(self).trader_key() == old(self).trader_key(),
            final(self).interval_ms() == old(self).interval_ms(),
            final(self).buffered().len() == 0,
            last is Some <==> old(self).buffered().len() > 0,
            last matches Some(batch) ==> {
                &&& pipeline_is_atomic(batch.pipeline)
                &&& pipeline_commands(batch.pipeline) == planned_ops(
                    old(self).trader_key(),
                    command_views(old(self).buffered()),
                )
                &&& batch.errors@ == planned_errors(
                    old(self).trader_key(),
                    command_views(old(self).buffered()),
                )
            },
    {
        if self.buffer.len() > 0 {
            Some(self.flush())
        } else {
            None
        }
    }
}

/// However a run of commands is cut into two flushes, the store is sent the
/// same operations in the same order as by one flush of the whole run.
pub proof fn lemma_flushes_keep_order(
    trader_key: Seq<char>,
    earlier: Seq<CommandView>,
    later: Seq<CommandView>,
)
    ensures
        planned_ops(trader_key, earlier + later) == planned_ops(trader_key, earlier) + planned_ops(
            trader_key,
            later,
        ),
        planned_errors(trader_key, earlier + later) == planned_errors(trader_key, earlier)
            + planned_errors(trader_key, later),
    decreases later.len(),
{
    if later.len() == 0 {
        assert(earlier + later =~= earlier);
        assert(planned_ops(trader_key, earlier) + planned_ops(trader_key, later)
            =~= planned_ops(trader_key, earlier));
        assert(planned_errors(trader_key, earlier) + planned_errors(trader_key, later)
            =~= planned_errors(trader_key, earlier));
    } else {
        lemma_flushes_keep_order(trader_key, earlier, later.drop_last());
        assert((earlier + later).drop_last() =~= earlier + later.drop_last());
        assert((earlier + later).last() == later.last());
        assert(planned_ops(trader_key, earlier + later) =~= planned_ops(trader_key, earlier)
            + planned_ops(trader_key, later));
        assert(planned_errors(trader_key, earlier + later) =~= planned_errors(
            trader_key,
            earlier,
        ) + planned_errors(trader_key, later));
    }
}

/// Where no command of a run is skipped, the store is sent one operation for
/// each command, in the order in which the commands were queued.
pub proof fn lemma_accepted_commands_keep_order(trader_key: Seq<char>, commands: Seq<CommandView>)
    requires
        forall|i: int| 0 <= i < commands.len() ==> planned_op(trader_key, #[trigger] commands[i]) is Ok,
    ensures
        planned_ops(trader_key, commands).len() == commands.len(),
        forall|i: int|
            0 <= i < commands.len() ==> #[trigger] planned_ops(trader_key, commands)[i]
                == planned_op(trader_key, commands[i])->Ok_0,
        planned_errors(trader_key, commands).len() == 0,
    decreases commands.len(),
{
    if commands.len() > 0 {
        let front = commands.drop_last();
        assert forall|i: int| 0 <= i < front.len() implies planned_op(
            trader_key,
            #[trigger] front[i],
        ) is Ok by {
            assert(front[i] == commands[i]);
        }
        lemma_accepted_commands_keep_order(trader_key, front);
        assert(planned_op(trader_key, commands[commands.len() - 1]) is Ok);
        assert forall|i: int| 0 <= i < commands.len() implies #[trigger] planned_ops(
            trader_key,
            commands,
        )[i] == planned_op(trader_key, commands[i])->Ok_0 by {
            if i < front.len() {
                assert(front[i] == commands[i]);
                assert(planned_ops(trader_key, commands)[i] == planned_ops(trader_key, front)[i]);
            }
        }
    }
}

/// A command that is skipped takes nothing from the batch: the commands
/// before and after it are sent as if it had not been there.
pub proof fn lemma_skipped_command_leaves_the_rest(
    trader_key: Seq<char>,
    earlier: Seq<CommandView>,
    skipped: CommandView,
    later: Seq<CommandView>,
)
    requires
        planned_op(trader_key, skipped) is Err,
    ensures
        planned_ops(trader_key, earlier.push(skipped) + later) == planned_ops(
            trader_key,
            earlier + later,
        ),
{
    lemma_flushes_keep_order(trader_key, earlier.push(skipped), later);
    lemma_flushes_keep_order(trader_key, earlier, later);
    assert(earlier.push(skipped).drop_last() =~= earlier);
}

/// One step of a worker's run, as far as the store can tell: a command was
/// buffered, or the buffer was flushed.
pub enum WorkerStep {
    Buffered(CommandView),
    Flushed,
}

/// The commands that a run has buffered, flushed or not, in their order.
pub open spec fn received_in(steps: Seq<WorkerStep>) -> Seq<CommandView>
    decreases steps.len(),
{
    if steps.len() == 0 {
        Seq::empty()
    } else {
        match steps.last() {
            WorkerStep::Buffered(command) => received_in(steps.drop_last()).push(command),
            WorkerStep::Flushed => received_in(steps.drop_last()),
        }
    }
}

/// The commands that wait in the buffer at the end of a run.
pub open spec fn waiting_after(steps: Seq<WorkerStep>) -> Seq<CommandView>
    decreases steps.len(),
{
    if steps.len() == 0 {
        Seq::empty()
    } else {
        match steps.last() {
            WorkerStep::Buffered(command) => waiting_after(steps.drop_last()).push(command),
            WorkerStep::Flushed => Seq::empty(),
        }
    }
}

/// The operations that the flushes of a run have sent, one flush after the
/// other.
pub open spec fn sent_in(trader_key: Seq<char>, steps: Seq<WorkerStep>) -> Seq<StoreOp>
    decreases steps.len(),
{
    if steps.len() == 0 {
        Seq::empty()
    } else {
        match steps.last() {
            WorkerStep::Buffered(_) => sent_in(trader_key, steps.drop_last()),
            WorkerStep::Flushed => sent_in(trader_key, steps.drop_last()) + planned_ops(
                trader_key,
                waiting_after(steps.drop_last()),
            ),
        }
    }
}

/// At every point of a run, whenever and however often the worker flushed:
/// what has been sent, followed by what the next flush would send, is what
/// all the commands received so far turn into, in the order in which they
/// were received.
pub proof fn lemma_run_keeps_order(trader_key: Seq<char>, steps: Seq<WorkerStep>)
    ensures
        sent_in(trader_key, steps) + planned_ops(trader_key, waiting_after(steps)) == planned_ops(
            trader_key,
            received_in(steps),
        ),
    decreases steps.len(),
{
    if steps.len() == 0 {
        assert(sent_in(trader_key, steps) + planned_ops(trader_key, waiting_after(steps))
            =~= planned_ops(trader_key, received_in(steps)));
    } else {
        let before = steps.drop_last();
        lemma_run_keeps_order(trader_key, before);
        match steps.last() {
            WorkerStep::Buffered(command) => {
                let waiting = waiting_after(before);
                let received = received_in(before);
                assert(waiting.push(command).drop_last() =~= waiting);
                assert(received.push(command).drop_last() =~= received);
                assert(sent_in(trader_key, steps) + planned_ops(
                    trader_key,
                    waiting_after(steps),
                ) =~= planned_ops(trader_key, received_in(steps)));
            },
            WorkerStep::Flushed => {
                assert(sent_in(trader_key, steps) + planned_ops(
                    trader_key,
                    waiting_after(steps),
                ) =~= planned_ops(trader_key, received_in(steps)));
            },
        }
    }
}

/// Inserts into list collections reach the store as appends in the order in
/// which they were queued: a run of `Insert` commands, each with a key of a
/// list collection and a payload, turns into one `RPUSH` of the first
/// payload element under the stored key for each command, in that order.
pub proof fn lemma_list_inserts_keep_order(trader_key: Seq<char>, commands: Seq<CommandView>)
    requires
        forall|i: int|
            0 <= i < commands.len() ==> {
                &&& (#[trigger] commands[i]).op_type == DatabaseOperation::Insert
                &&& commands[i].key matches Some(key) && collection_of(key) matches Some(
                    collection,
                ) && list_collections().contains(collection)
                &&& commands[i].payload matches Some(payload) && payload.len() >= 1
            },
    ensures
        planned_ops(trader_key, commands).len() == commands.len(),
        forall|i: int|
            0 <= i < commands.len() ==> #[trigger] planned_ops(trader_key, commands)[i]
                == (StoreOp::PushList {
                key: joined(trader_key, commands[i].key->0),
                value: commands[i].payload->0[0],
            }),
{
    assert forall|i: int| 0 <= i < commands.len() implies planned_op(
        trader_key,
        #[trigger] commands[i],
    ) == Ok::<StoreOp, CacheError>(
        StoreOp::PushList {
            key: joined(trader_key, commands[i].key->0),
            value: commands[i].payload->0[0],
        },
    ) by {
        let command = commands[i];
        lemma_insert_table(
            trader_key,
            collection_of(command.key->0)->0,
            command.key->0,
            command.payload->0,
        );
    }
    lemma_accepted_commands_keep_order(trader_key, commands);
    assert forall|i: int| 0 <= i < commands.len() implies #[trigger] planned_ops(
        trader_key,
        commands,
    )[i] == (StoreOp::PushList {
        key: joined(trader_key, commands[i].key->0),
        value: commands[i].payload->0[0],
    }) by {
        assert(planned_op(trader_key, commands[i]) is Ok);
    }
}

} // verus!
