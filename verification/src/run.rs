//! The loop that waits for messages.
//!
//! The loop asks the service for updates, over and over, and hands the messages among them out
//! one by one. It logs in again when the session has expired, waits longer and longer while the
//! service fails, and ends when the bot is told to stop. [`RunLoop`] holds where the loop stands.
//! Each [`RunEvent`] moves it on and yields the [`RunAction`] to perform next.

use vstd::prelude::*;
use vstd::arithmetic::power2::*;
use crate::bot;
use crate::bot::{BotModel, WeChatBot};
use crate::error::{WeChatBotError, WeChatBotErrorView};
use crate::types::{Auth, AuthView, WireMessage, WireMessageView};

verus! {

/// How long to wait after the first failure in a row.
pub const FIRST_RETRY_SECONDS: u64 = 1;

/// How long to wait at most.
pub const MAX_RETRY_SECONDS: u64 = 10;

/// What to do next.
#[derive(Debug, PartialEq, Eq)]
pub enum RunAction {
    /// Tell the service that the bot is there. It does not matter if that fails.
    NotifyStart(Auth),
    /// Ask the service for updates behind `cursor`.
    GetUpdates { auth: Auth, cursor: String },
    /// Hand the message at `index` of the updates to the handlers.
    Deliver { index: usize },
    /// Report the failure, and wait.
    Sleep { seconds: u64 },
    /// Log in anew. If that fails, report it.
    Relogin,
    /// Tell the service that the bot is gone. It does not matter if that fails.
    NotifyStop(Auth),
    /// The loop has ended.
    Stopped,
    /// The loop has failed.
    Fail(WeChatBotError),
}

/// The contents of a [`RunAction`].
pub enum RunActionView {
    NotifyStart(AuthView),
    GetUpdates { auth: AuthView, cursor: Seq<char> },
    Deliver { index: int },
    Sleep { seconds: int },
    Relogin,
    NotifyStop(AuthView),
    Stopped,
    Fail(WeChatBotErrorView),
}

impl DeepView for RunAction {
    type V = RunActionView;

    open spec fn deep_view(&self) -> RunActionView {
        match self {
            RunAction::NotifyStart(auth) => RunActionView::NotifyStart(auth.deep_view()),
            RunAction::GetUpdates { auth, cursor } => RunActionView::GetUpdates {
                auth: auth.deep_view(),
                cursor: cursor@,
            },
            RunAction::Deliver { index } => RunActionView::Deliver { index: *index as int },
            RunAction::Sleep { seconds } => RunActionView::Sleep { seconds: *seconds as int },
            RunAction::Relogin => RunActionView::Relogin,
            RunAction::NotifyStop(auth) => RunActionView::NotifyStop(auth.deep_view()),
            RunAction::Stopped => RunActionView::Stopped,
            RunAction::Fail(error) => RunActionView::Fail(error.deep_view()),
        }
    }
}

/// What has come of an action.
#[derive(Debug, PartialEq, Eq)]
pub enum RunEvent {
    /// The service has been told that the bot is there, or could not be told.
    StartNotified,
    /// The service has sent messages, and how far the updates have now been read.
    Updates { get_updates_buf: String, msgs: Vec<WireMessage> },
    /// The handlers are done with a message.
    Delivered,
    /// The service has answered that the session has expired.
    SessionExpired,
    /// The updates could not be had for another reason.
    Failed,
    /// The wait is over.
    Slept,
    /// The login is over, well or not.
    LoginEnded,
    /// The service has been told that the bot is gone, or could not be told.
    StopNotified,
}

/// The contents of a [`RunEvent`].
pub enum RunEventView {
    StartNotified,
    Updates { get_updates_buf: Seq<char>, msgs: Seq<WireMessageView> },
    Delivered,
    SessionExpired,
    Failed,
    Slept,
    LoginEnded,
    StopNotified,
}

impl DeepView for RunEvent {
    type V = RunEventView;

    open spec fn deep_view(&self) -> RunEventView {
        match self {
            RunEvent::StartNotified => RunEventView::StartNotified,
            RunEvent::Updates { get_updates_buf, msgs } => RunEventView::Updates {
                get_updates_buf: get_updates_buf@,
                msgs: msgs.deep_view(),
            },
            RunEvent::Delivered => RunEventView::Delivered,
            RunEvent::SessionExpired => RunEventView::SessionExpired,
            RunEvent::Failed => RunEventView::Failed,
            RunEvent::Slept => RunEventView::Slept,
            RunEvent::LoginEnded => RunEventView::LoginEnded,
            RunEvent::StopNotified => RunEventView::StopNotified,
        }
    }
}

/// Where a loop stands.
pub struct RunModel {
    /// How long to wait after the next failure.
    pub retry_seconds: int,
    /// The messages of the last updates.
    pub batch: Seq<WireMessageView>,
    /// How many of them have been handed out.
    pub handed_out: int,
}

/// A loop that has yet to begin.
pub open spec fn new_run() -> RunModel {
    RunModel { retry_seconds: FIRST_RETRY_SECONDS as int, batch: seq![], handed_out: 0 }
}

/// How a loop begins: the bot is no longer stopped, and it must be logged in.
pub open spec fn run_start(bot: BotModel) -> (BotModel, RunActionView) {
    let bot = BotModel { stopped: false, ..bot };
    (
        bot,
        match bot::auth_of(bot) {
            Ok(auth) => RunActionView::NotifyStart(auth),
            Err(error) => RunActionView::Fail(error),
        },
    )
}

/// The loop goes on to the next updates, or ends if the bot has been told to stop.
pub open spec fn next_poll(bot: BotModel) -> RunActionView {
    match bot::auth_of(bot) {
        Ok(auth) => if bot.stopped {
            RunActionView::NotifyStop(auth)
        } else {
            RunActionView::GetUpdates { auth, cursor: bot.cursor }
        },
        Err(error) => if bot.stopped {
            RunActionView::Stopped
        } else {
            RunActionView::Fail(error)
        },
    }
}

/// The loop hands the next message out, and goes on when there is none. The bot notes the
/// context of a message before the handlers see it.
pub open spec fn next_message(bot: BotModel, run: RunModel) -> (BotModel, RunModel, RunActionView) {
    if 0 <= run.handed_out < run.batch.len() {
        (
            bot::remembered(bot, run.batch[run.handed_out]),
            RunModel { handed_out: run.handed_out + 1, ..run },
            RunActionView::Deliver { index: run.handed_out },
        )
    } else {
        (bot, run, next_poll(bot))
    }
}

/// Twice the delay, up to the limit.
pub open spec fn longer_delay(seconds: int) -> int {
    if 2 * seconds < MAX_RETRY_SECONDS {
        2 * seconds
    } else {
        MAX_RETRY_SECONDS as int
    }
}

/// What an event leads to.
pub open spec fn run_next(bot: BotModel, run: RunModel, event: RunEventView) -> (
    BotModel,
    RunModel,
    RunActionView,
) {
    match event {
        RunEventView::StartNotified => (bot, run, next_poll(bot)),
        RunEventView::Slept => (bot, run, next_poll(bot)),
        RunEventView::LoginEnded => (bot, run, next_poll(bot)),
        RunEventView::Updates { get_updates_buf, msgs } => next_message(
            if get_updates_buf.len() > 0 {
                BotModel { cursor: get_updates_buf, ..bot }
            } else {
                bot
            },
            RunModel {
                retry_seconds: FIRST_RETRY_SECONDS as int,
                batch: msgs,
                handed_out: 0,
            },
        ),
        RunEventView::Delivered => next_message(bot, run),
        RunEventView::SessionExpired => (
            BotModel { context_tokens: Map::empty(), cursor: seq![], ..bot },
            run,
            RunActionView::Relogin,
        ),
        RunEventView::Failed => (
            bot,
            RunModel { retry_seconds: longer_delay(run.retry_seconds), ..run },
            RunActionView::Sleep { seconds: run.retry_seconds },
        ),
        RunEventView::StopNotified => (bot, run, RunActionView::Stopped),
    }
}

/// A loop under way.
#[derive(Debug)]
pub struct RunLoop {
    retry_seconds: u64,
    batch: Vec<WireMessage>,
    handed_out: usize,
}

impl DeepView for RunLoop {
    type V = RunModel;

    closed spec fn deep_view(&self) -> RunModel {
        RunModel {
            retry_seconds: self.retry_seconds as int,
            batch: self.batch.deep_view(),
            handed_out: self.handed_out as int,
        }
    }
}

impl WeChatBot {
    /// Begins to wait for messages, see [`run_start`].
    pub fn run(&mut self) -> (begun: (RunLoop, RunAction))
        ensures
            begun.0.deep_view() == new_run(),
            (final(self).deep_view(), begun.1.deep_view()) == run_start(old(self).deep_view()),
    {
        self.resume();
        let batch: Vec<WireMessage> = Vec::new();
        assert(batch.deep_view() =~= seq![]);
        let run = RunLoop { retry_seconds: FIRST_RETRY_SECONDS, batch, handed_out: 0 };
        match self.get_auth() {
            Ok(auth) => (run, RunAction::NotifyStart(auth)),
            Err(error) => (run, RunAction::Fail(error)),
        }
    }

    fn next_poll(&self) -> (action: RunAction)
        ensures
            action.deep_view() == next_poll(self.deep_view()),
    {
        match self.get_auth() {
            Ok(auth) => if self.is_stopped() {
                RunAction::NotifyStop(auth)
            } else {
                RunAction::GetUpdates { auth, cursor: self.cursor() }
            },
            Err(error) => if self.is_stopped() {
                RunAction::Stopped
            } else {
                RunAction::Fail(error)
            },
        }
    }

    fn next_message(&mut self, run: &mut RunLoop) -> (action: RunAction)
        ensures
            (final(self).deep_view(), final(run).deep_view(), action.deep_view()) == next_message(
                old(self).deep_view(),
                old(run).deep_view(),
            ),
    {
        let index: usize = run.handed_out;
        if index < run.batch.len() {
            self.remember_context(&run.batch[index]);
            run.handed_out = index + 1;
            RunAction::Deliver { index }
        } else {
            self.next_poll()
        }
    }

    /// Moves the loop on, see [`run_next`].
    pub fn run_step(&mut self, run: &mut RunLoop, event: RunEvent) -> (action: RunAction)
        ensures
            (final(self).deep_view(), final(run).deep_view(), action.deep_view()) == run_next(
                old(self).deep_view(),
                old(run).deep_view(),
                event.deep_view(),
            ),
    {
        match event {
            RunEvent::StartNotified | RunEvent::Slept | RunEvent::LoginEnded => self.next_poll(),
            RunEvent::Updates { get_updates_buf, msgs } => {
                if !get_updates_buf.as_str().is_empty() {
                    self.set_cursor(get_updates_buf);
                }
                run.retry_seconds = FIRST_RETRY_SECONDS;
                run.batch = msgs;
                run.handed_out = 0;
                self.next_message(run)
            },
            RunEvent::Delivered => self.next_message(run),
            RunEvent::SessionExpired => {
                self.forget_session();
                RunAction::Relogin
            },
            RunEvent::Failed => {
                let seconds: u64 = run.retry_seconds;
                run.retry_seconds = if seconds < MAX_RETRY_SECONDS / 2 {
                    2 * seconds
                } else {
                    MAX_RETRY_SECONDS
                };
                RunAction::Sleep { seconds }
            },
            RunEvent::StopNotified => RunAction::Stopped,
        }
    }
}

/// The delay before the next try, after `failures` failures in a row.
pub open spec fn delay_after(failures: nat) -> int
    decreases failures,
{
    if failures == 0 {
        FIRST_RETRY_SECONDS as int
    } else {
        longer_delay(delay_after((failures - 1) as nat))
    }
}

/// A loop after some events, one after the other.
pub open spec fn run_through(bot: BotModel, run: RunModel, events: Seq<RunEventView>) -> (
    BotModel,
    RunModel,
)
    decreases events.len(),
{
    if events.len() == 0 {
        (bot, run)
    } else {
        let (before, so_far) = run_through(bot, run, events.drop_last());
        let (after, now, _) = run_next(before, so_far, events.last());
        (after, now)
    }
}

/// The waits between failures in a row double, from [`FIRST_RETRY_SECONDS`] up to
/// [`MAX_RETRY_SECONDS`].
pub proof fn law_delays_double(failures: nat)
    ensures
        delay_after(failures) == if pow2(failures) < MAX_RETRY_SECONDS {
            pow2(failures) as int
        } else {
            MAX_RETRY_SECONDS as int
        },
    decreases failures,
{
    if failures == 0 {
        lemma2_to64();
    } else {
        law_delays_double((failures - 1) as nat);
        lemma_pow2_unfold(failures);
    }
}

/// While only failures and waits follow each other, the loop waits as [`delay_after`] says.
pub proof fn law_failures_wait_longer(bot: BotModel, run: RunModel, failures: nat)
    requires
        run.retry_seconds == FIRST_RETRY_SECONDS,
    ensures
        ({
            let events = Seq::new(
                2 * failures,
                |i: int|
                    if i % 2 == 0 {
                        RunEventView::Failed
                    } else {
                        RunEventView::Slept
                    },
            );
            let (after, now) = run_through(bot, run, events);
            &&& after == bot
            &&& now.retry_seconds == delay_after(failures)
            &&& run_next(after, now, RunEventView::Failed).2 == RunActionView::Sleep {
                seconds: delay_after(failures),
            }
        }),
    decreases failures,
{
    if failures > 0 {
        let less = (failures - 1) as nat;
        let turn = |i: int|
            if i % 2 == 0 {
                RunEventView::Failed
            } else {
                RunEventView::Slept
            };
        let events = Seq::new(2 * failures, turn);
        law_failures_wait_longer(bot, run, less);
        assert(events.drop_last().drop_last() =~= Seq::new(2 * less, turn));
        assert(events.drop_last().last() == RunEventView::Failed);
        assert(events.last() == RunEventView::Slept);
        reveal_with_fuel(run_through, 3);
    }
}

/// Updates end a row of failures.
pub proof fn law_updates_reset_the_delay(
    bot: BotModel,
    run: RunModel,
    get_updates_buf: Seq<char>,
    msgs: Seq<WireMessageView>,
)
    ensures
        run_next(bot, run, RunEventView::Updates { get_updates_buf, msgs }).1.retry_seconds
            == FIRST_RETRY_SECONDS,
{
}

/// The bot after the contexts of some messages have been noted, one after the other.
pub open spec fn all_remembered(bot: BotModel, msgs: Seq<WireMessageView>) -> BotModel
    decreases msgs.len(),
{
    if msgs.len() == 0 {
        bot
    } else {
        bot::remembered(all_remembered(bot, msgs.drop_last()), msgs.last())
    }
}

/// Where the updates lead to, and then the handlers that are done with `count` messages.
pub open spec fn after_deliveries(
    bot: BotModel,
    run: RunModel,
    get_updates_buf: Seq<char>,
    msgs: Seq<WireMessageView>,
    count: nat,
) -> (BotModel, RunModel, RunActionView)
    decreases count,
{
    if count == 0 {
        run_next(bot, run, RunEventView::Updates { get_updates_buf, msgs })
    } else {
        let (before, so_far, _) = after_deliveries(
            bot,
            run,
            get_updates_buf,
            msgs,
            (count - 1) as nat,
        );
        run_next(before, so_far, RunEventView::Delivered)
    }
}

/// Every message of the updates is handed out once, in order, each when the contexts of all
/// messages up to it have been noted; then the next updates are due.
pub proof fn law_messages_are_handed_out_in_order(
    bot: BotModel,
    run: RunModel,
    get_updates_buf: Seq<char>,
    msgs: Seq<WireMessageView>,
    count: nat,
)
    requires
        count <= msgs.len(),
    ensures
        ({
            let updated = if get_updates_buf.len() > 0 {
                BotModel { cursor: get_updates_buf, ..bot }
            } else {
                bot
            };
            let (after, now, action) = after_deliveries(bot, run, get_updates_buf, msgs, count);
            if count < msgs.len() {
                &&& action == RunActionView::Deliver { index: count as int }
                &&& after == all_remembered(updated, msgs.take(count as int + 1))
                &&& now == (RunModel {
                    retry_seconds: FIRST_RETRY_SECONDS as int,
                    batch: msgs,
                    handed_out: count as int + 1,
                })
            } else {
                &&& action == next_poll(all_remembered(updated, msgs))
                &&& after == all_remembered(updated, msgs)
            }
        }),
    decreases count,
{
    reveal_with_fuel(all_remembered, 2);
    if count == 0 {
        if msgs.len() > 0 {
            assert(msgs.take(1).drop_last() =~= seq![]);
        }
    } else {
        let less = (count - 1) as nat;
        law_messages_are_handed_out_in_order(bot, run, get_updates_buf, msgs, less);
        if count < msgs.len() {
            assert(msgs.take(count as int + 1).drop_last() =~= msgs.take(less as int + 1));
        } else {
            assert(msgs.take(less as int + 1) =~= msgs);
        }
    }
}

/// An expired session leaves no context to write in and makes the updates begin anew; the
/// credentials stay until the new login has ended.
pub proof fn law_expired_session_is_forgotten(bot: BotModel, run: RunModel, user_id: Seq<char>)
    ensures
        ({
            let (after, _, action) = run_next(bot, run, RunEventView::SessionExpired);
            &&& action == RunActionView::Relogin
            &&& bot::context_of(after, user_id) == Err::<Seq<char>, WeChatBotErrorView>(
                WeChatBotErrorView::NoContext(user_id),
            )
            &&& after.cursor == Seq::<char>::empty()
            &&& after.credentials == bot.credentials
        }),
{
}

/// A bot that has been told to stop asks for no more updates: it says goodbye, if it is logged
/// in, and the loop ends.
pub proof fn law_stopped_bot_ends_the_loop(bot: BotModel, run: RunModel, event: RunEventView)
    requires
        bot.stopped,
    ensures
        ({
            let (after, _, action) = run_next(bot, run, event);
            &&& after.stopped
            &&& !(action is GetUpdates)
            &&& action is NotifyStop ==> run_next(after, run, RunEventView::StopNotified).2
                == RunActionView::Stopped
        }),
{
}

/// Updates that do not say how far they go leave the cursor where it is; the next request for
/// updates bears the cursor that was last told.
pub proof fn law_cursor_is_the_last_one_told(
    bot: BotModel,
    run: RunModel,
    get_updates_buf: Seq<char>,
    msgs: Seq<WireMessageView>,
)
    ensures
        run_next(bot, run, RunEventView::Updates { get_updates_buf, msgs }).0.cursor
            == if get_updates_buf.len() > 0 {
            get_updates_buf
        } else {
            bot.cursor
        },
        next_poll(bot) is GetUpdates ==> next_poll(bot)->GetUpdates_cursor == bot.cursor,
{
}

/// A loop begins by telling the service that the bot is there, if the bot is logged in, and
/// fails otherwise. That the bot was told to stop before is taken back; nothing else changes.
pub proof fn law_loop_begins(bot: BotModel)
    ensures
        ({
            let (after, action) = run_start(bot);
            &&& bot.credentials is Some ==> action is NotifyStart
                && action->NotifyStart_0.base_url == bot.credentials->0.base_url
                && action->NotifyStart_0.token == bot.credentials->0.token
            &&& bot.credentials is None ==> action == RunActionView::Fail(
                WeChatBotErrorView::Auth("not logged in"@),
            )
            &&& !after.stopped
            &&& after.context_tokens == bot.context_tokens
            &&& bot::same_but_contexts(bot, BotModel { stopped: bot.stopped, ..after })
            &&& new_run().retry_seconds == 1
            &&& new_run().batch.len() == 0
            &&& new_run().handed_out == 0
        }),
{
}

/// What comes next when no message is left to hand out: updates are asked for behind the cursor,
/// or, if the bot has been told to stop, the service is told that it is gone. A bot that is not
/// logged in has nobody to tell, and cannot go on.
pub open spec fn goes_on(bot: BotModel, action: RunActionView) -> bool {
    match bot.credentials {
        Some(creds) => if bot.stopped {
            action is NotifyStop && action->NotifyStop_0.base_url == creds.base_url
                && action->NotifyStop_0.token == creds.token
        } else {
            action is GetUpdates && action->GetUpdates_auth.base_url == creds.base_url
                && action->GetUpdates_auth.token == creds.token && action->GetUpdates_cursor
                == bot.cursor
        },
        None => if bot.stopped {
            action == RunActionView::Stopped
        } else {
            action == RunActionView::Fail(WeChatBotErrorView::Auth("not logged in"@))
        },
    }
}

/// After the start, after a wait and after a login the loop goes on, and changes nothing.
pub proof fn law_loop_goes_on(bot: BotModel, run: RunModel, event: RunEventView)
    requires
        event is StartNotified || event is Slept || event is LoginEnded,
    ensures
        ({
            let (after, now, action) = run_next(bot, run, event);
            &&& goes_on(bot, action)
            &&& after == bot
            &&& now == run
        }),
{
}

/// A failure makes the loop wait as long as it was to wait next, and twice as long, but at most
/// ten seconds, the time after. Nothing is forgotten.
pub proof fn law_failure_is_waited_out(bot: BotModel, run: RunModel)
    ensures
        ({
            let (after, now, action) = run_next(bot, run, RunEventView::Failed);
            &&& action == RunActionView::Sleep { seconds: run.retry_seconds }
            &&& run.retry_seconds <= 5 ==> now.retry_seconds == 2 * run.retry_seconds
            &&& run.retry_seconds >= 5 ==> now.retry_seconds == 10
            &&& now.batch == run.batch
            &&& now.handed_out == run.handed_out
            &&& after == bot
        }),
{
}

/// When the session has expired, the bot logs in anew. It forgets the contexts and how far the
/// updates were read, and nothing else; the loop stands where it stood.
pub proof fn law_expired_session_leads_to_a_login(bot: BotModel, run: RunModel)
    ensures
        ({
            let (after, now, action) = run_next(bot, run, RunEventView::SessionExpired);
            &&& action == RunActionView::Relogin
            &&& now == run
            &&& forall|user_id: Seq<char>| !#[trigger] after.context_tokens.contains_key(user_id)
            &&& after.cursor.len() == 0
            &&& bot::same_but_contexts(bot, BotModel { cursor: bot.cursor, ..after })
        }),
{
}

/// Once the service has been told that the bot is gone, the loop has ended.
pub proof fn law_loop_ends(bot: BotModel, run: RunModel)
    ensures
        run_next(bot, run, RunEventView::StopNotified) == (bot, run, RunActionView::Stopped),
{
}

/// A message that says in which context to write to a user: it is one of the user, or one to
/// them that no user wrote.
pub open spec fn tells_context_of(wire: WireMessageView, user_id: Seq<char>) -> bool {
    &&& user_id.len() > 0
    &&& wire.context_token.len() > 0
    &&& wire.message_type is User ==> wire.from_user_id == user_id
    &&& !(wire.message_type is User) ==> wire.to_user_id == user_id
}

/// The message at `i` is the last one to tell in which context to write to a user.
pub open spec fn is_last_to_tell(
    msgs: Seq<WireMessageView>,
    user_id: Seq<char>,
    i: int,
) -> bool {
    &&& 0 <= i < msgs.len()
    &&& tells_context_of(msgs[i], user_id)
    &&& forall|j: int| i < j < msgs.len() ==> !tells_context_of(#[trigger] msgs[j], user_id)
}

/// The bot knows of a user the context that the last of the messages to tell one has told, or
/// else the one it knew before.
pub open spec fn knows_last_context(
    before: BotModel,
    after: BotModel,
    msgs: Seq<WireMessageView>,
    user_id: Seq<char>,
) -> bool {
    &&& forall|i: int| #[trigger]
        is_last_to_tell(msgs, user_id, i) ==> after.context_tokens.contains_key(user_id)
            && after.context_tokens[user_id] == msgs[i].context_token
    &&& (forall|i: int| 0 <= i < msgs.len() ==> !tells_context_of(#[trigger] msgs[i], user_id))
        ==> bot::same_context(before, after, user_id)
}

/// One more message is noted.
proof fn lemma_one_more_context(
    bot: BotModel,
    before: BotModel,
    after: BotModel,
    msgs: Seq<WireMessageView>,
    user_id: Seq<char>,
)
    requires
        msgs.len() > 0,
        knows_last_context(bot, before, msgs.drop_last(), user_id),
        tells_context_of(msgs.last(), user_id) ==> after.context_tokens.contains_key(user_id)
            && after.context_tokens[user_id] == msgs.last().context_token,
        !tells_context_of(msgs.last(), user_id) ==> bot::same_context(before, after, user_id),
    ensures
        knows_last_context(bot, after, msgs, user_id),
{
    let earlier = msgs.drop_last();
    let last = msgs.len() - 1;
    assert(msgs[last] == msgs.last());
    assert forall|i: int| #[trigger] is_last_to_tell(msgs, user_id, i) implies
        after.context_tokens.contains_key(user_id) && after.context_tokens[user_id]
        == msgs[i].context_token by {
        if i < last {
            assert(!tells_context_of(msgs[last], user_id));
            assert(earlier[i] == msgs[i]);
            assert forall|j: int| i < j < earlier.len() implies !tells_context_of(
                #[trigger] earlier[j],
                user_id,
            ) by {
                assert(earlier[j] == msgs[j]);
            }
            assert(is_last_to_tell(earlier, user_id, i));
        }
    }
    if forall|i: int| 0 <= i < msgs.len() ==> !tells_context_of(#[trigger] msgs[i], user_id) {
        assert(!tells_context_of(msgs[last], user_id));
        assert forall|i: int| 0 <= i < earlier.len() implies !tells_context_of(
            #[trigger] earlier[i],
            user_id,
        ) by {
            assert(earlier[i] == msgs[i]);
        }
    }
}

proof fn lemma_contexts_are_remembered(
    bot: BotModel,
    msgs: Seq<WireMessageView>,
    user_id: Seq<char>,
)
    ensures
        knows_last_context(bot, all_remembered(bot, msgs), msgs, user_id),
        bot::same_but_contexts(bot, all_remembered(bot, msgs)),
    decreases msgs.len(),
{
    if msgs.len() > 0 {
        let before = all_remembered(bot, msgs.drop_last());
        lemma_contexts_are_remembered(bot, msgs.drop_last(), user_id);
        bot::law_messages_note_their_context(before, msgs.last(), user_id);
        lemma_one_more_context(bot, before, all_remembered(bot, msgs), msgs, user_id);
    }
}

/// Updates are worked through message by message: each is handed out, in order, when the bot
/// knows of every user the context that the messages up to this one have told last, and of
/// those of whom they tell none what it knew before. When the handlers are done with the last
/// message the loop goes on. The cursor is the one that came with the updates, if one did, and
/// the rest of what the bot remembers stays.
pub proof fn law_updates_are_worked_through(
    bot: BotModel,
    run: RunModel,
    get_updates_buf: Seq<char>,
    msgs: Seq<WireMessageView>,
    count: nat,
    user_id: Seq<char>,
)
    requires
        count <= msgs.len(),
    ensures
        ({
            let (after, now, action) = after_deliveries(bot, run, get_updates_buf, msgs, count);
            let seen = if count < msgs.len() {
                msgs.take(count as int + 1)
            } else {
                msgs
            };
            &&& count < msgs.len() ==> action == RunActionView::Deliver { index: count as int }
            &&& count == msgs.len() ==> goes_on(after, action)
            &&& knows_last_context(bot, after, seen, user_id)
            &&& get_updates_buf.len() > 0 ==> after.cursor == get_updates_buf
            &&& get_updates_buf.len() == 0 ==> after.cursor == bot.cursor
            &&& bot::same_but_contexts(bot, BotModel { cursor: bot.cursor, ..after })
            &&& now.retry_seconds == 1
        }),
{
    let updated = if get_updates_buf.len() > 0 {
        BotModel { cursor: get_updates_buf, ..bot }
    } else {
        bot
    };
    let seen = if count < msgs.len() {
        msgs.take(count as int + 1)
    } else {
        msgs
    };
    law_messages_are_handed_out_in_order(bot, run, get_updates_buf, msgs, count);
    lemma_deliveries_keep_the_delay(bot, run, get_updates_buf, msgs, count);
    lemma_contexts_are_remembered(updated, seen, user_id);
    let after = all_remembered(updated, seen);
    assert(knows_last_context(updated, after, seen, user_id));
    assert(bot::same_context(updated, after, user_id) == bot::same_context(bot, after, user_id));
}

proof fn lemma_deliveries_keep_the_delay(
    bot: BotModel,
    run: RunModel,
    get_updates_buf: Seq<char>,
    msgs: Seq<WireMessageView>,
    count: nat,
)
    ensures
        after_deliveries(bot, run, get_updates_buf, msgs, count).1.retry_seconds == 1,
    decreases count,
{
    if count > 0 {
        lemma_deliveries_keep_the_delay(bot, run, get_updates_buf, msgs, (count - 1) as nat);
    }
}

/// When no message is left to hand out, the loop goes on, and changes nothing.
pub proof fn law_loop_goes_on_after_the_last_message(bot: BotModel, run: RunModel)
    requires
        run.handed_out >= run.batch.len(),
    ensures
        ({
            let (after, now, action) = run_next(bot, run, RunEventView::Delivered);
            &&& goes_on(bot, action)
            &&& after == bot
            &&& now == run
        }),
{
}

} // verus!
