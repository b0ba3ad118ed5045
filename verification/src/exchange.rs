//! Whole exchanges: the steps that the client takes for one job when its
//! posts are answered by a given sequence of replies, and what holds of
//! every such sequence.

use crate::config::ConfigView;
use crate::translator::{
    first_step, next_step, reading, request_for, JobView, PendingView, ReplyView, StepView,
    BACKOFF_STEP_MS, MAX_ATTEMPTS,
};
use vstd::prelude::*;

verus! {

/// The steps of an exchange that is at `step` and whose posts are answered,
/// in order, by `replies`. It ends with the first step that is no post, or
/// with the post that no reply is left for.
pub open spec fn steps_from(config: ConfigView, step: StepView, replies: Seq<ReplyView>) -> Seq<
    StepView,
>
    decreases replies.len(),
{
    match step {
        StepView::Post { pending, .. } => {
            if replies.len() > 0 {
                seq![step] + steps_from(
                    config,
                    next_step(config, pending, replies.first()),
                    replies.drop_first(),
                )
            } else {
                seq![step]
            }
        },
        _ => seq![step],
    }
}

/// The steps of the exchange for `job`, from its first post.
pub open spec fn exchange(config: ConfigView, job: JobView, replies: Seq<ReplyView>) -> Seq<
    StepView,
> {
    steps_from(config, first_step(config, job), replies)
}

/// The post of attempt number `attempt` for `job`: the first one at once,
/// each later one after the pause that follows the attempt before it.
pub open spec fn post_of(config: ConfigView, job: JobView, attempt: u32) -> StepView {
    StepView::Post {
        pending: PendingView { job, attempt },
        delay_ms: ((attempt - 1) * BACKOFF_STEP_MS) as u64,
        request: request_for(config, job),
    }
}

/// Whether the first `count` replies all fail to give a translation.
pub open spec fn all_fail(job: JobView, replies: Seq<ReplyView>, count: int) -> bool {
    forall|i: int| 0 <= i < count ==> #[trigger] reading(job.mode, replies[i]) is Err
}

/// The step that delivers what `reply` reads as.
pub open spec fn delivery_of(job: JobView, reply: ReplyView) -> StepView {
    StepView::Deliver { original: job.text, translation: reading(job.mode, reply)->Ok_0 }
}

/// The step that gives up with the error that `reply` reads as.
pub open spec fn failure_of(job: JobView, reply: ReplyView) -> StepView {
    StepView::Fail { error: reading(job.mode, reply)->Err_0 }
}

/// The steps of an exchange, case by case: the exchange posts until a reply
/// holds a translation, until the third attempt has failed, or until no
/// reply is left.
pub open spec fn exchange_by_cases(config: ConfigView, job: JobView, replies: Seq<ReplyView>) -> Seq<
    StepView,
> {
    let p1 = post_of(config, job, 1);
    let p2 = post_of(config, job, 2);
    let p3 = post_of(config, job, 3);
    if replies.len() == 0 {
        seq![p1]
    } else if reading(job.mode, replies[0]) is Ok {
        seq![p1, delivery_of(job, replies[0])]
    } else if replies.len() == 1 {
        seq![p1, p2]
    } else if reading(job.mode, replies[1]) is Ok {
        seq![p1, p2, delivery_of(job, replies[1])]
    } else if replies.len() == 2 {
        seq![p1, p2, p3]
    } else if reading(job.mode, replies[2]) is Ok {
        seq![p1, p2, p3, delivery_of(job, replies[2])]
    } else {
        seq![p1, p2, p3, failure_of(job, replies[2])]
    }
}

/// A step that is no post ends the exchange.
proof fn lemma_steps_end(config: ConfigView, step: StepView, replies: Seq<ReplyView>)
    requires
        !(step is Post),
    ensures
        steps_from(config, step, replies) == seq![step],
{
}

/// A post that no reply is left for ends the exchange.
proof fn lemma_steps_wait(config: ConfigView, step: StepView)
    ensures
        steps_from(config, step, Seq::empty()) == seq![step],
{
}

/// A post that is answered is followed by the steps from the next step on.
proof fn lemma_steps_go_on(
    config: ConfigView,
    job: JobView,
    attempt: u32,
    replies: Seq<ReplyView>,
)
    requires
        1 <= attempt <= MAX_ATTEMPTS,
        replies.len() > 0,
    ensures
        steps_from(config, post_of(config, job, attempt), replies) == seq![
            post_of(config, job, attempt),
        ] + steps_from(
            config,
            next_step(config, PendingView { job, attempt }, replies[0]),
            replies.drop_first(),
        ),
        reading(job.mode, replies[0]) is Ok ==> next_step(
            config,
            PendingView { job, attempt },
            replies[0],
        ) == delivery_of(job, replies[0]),
        reading(job.mode, replies[0]) is Err && attempt < MAX_ATTEMPTS ==> next_step(
            config,
            PendingView { job, attempt },
            replies[0],
        ) == post_of(config, job, (attempt + 1) as u32),
        reading(job.mode, replies[0]) is Err && attempt == MAX_ATTEMPTS ==> next_step(
            config,
            PendingView { job, attempt },
            replies[0],
        ) == failure_of(job, replies[0]),
{
}

/// The exchange for a job is the one that `exchange_by_cases` lists.
pub proof fn law_exchange_by_cases(config: ConfigView, job: JobView, replies: Seq<ReplyView>)
    ensures
        exchange(config, job, replies) == exchange_by_cases(config, job, replies),
{
    let p1 = post_of(config, job, 1);
    let p2 = post_of(config, job, 2);
    let p3 = post_of(config, job, 3);
    assert(first_step(config, job) == p1);
    if replies.len() == 0 {
        assert(replies =~= Seq::empty());
        lemma_steps_wait(config, p1);
    } else {
        let r1 = replies.drop_first();
        lemma_steps_go_on(config, job, 1, replies);
        if reading(job.mode, replies[0]) is Ok {
            lemma_steps_end(config, delivery_of(job, replies[0]), r1);
            assert(seq![p1] + seq![delivery_of(job, replies[0])] =~= seq![
                p1,
                delivery_of(job, replies[0]),
            ]);
        } else if replies.len() == 1 {
            assert(r1 =~= Seq::empty());
            lemma_steps_wait(config, p2);
            assert(seq![p1] + seq![p2] =~= seq![p1, p2]);
        } else {
            let r2 = r1.drop_first();
            assert(r1[0] == replies[1]);
            lemma_steps_go_on(config, job, 2, r1);
            if reading(job.mode, replies[1]) is Ok {
                lemma_steps_end(config, delivery_of(job, replies[1]), r2);
                assert(seq![p1] + (seq![p2] + seq![delivery_of(job, replies[1])]) =~= seq![
                    p1,
                    p2,
                    delivery_of(job, replies[1]),
                ]);
            } else if replies.len() == 2 {
                assert(r2 =~= Seq::empty());
                lemma_steps_wait(config, p3);
                assert(seq![p1] + (seq![p2] + seq![p3]) =~= seq![p1, p2, p3]);
            } else {
                let r3 = r2.drop_first();
                assert(r2[0] == replies[2]);
                lemma_steps_go_on(config, job, 3, r2);
                if reading(job.mode, replies[2]) is Ok {
                    lemma_steps_end(config, delivery_of(job, replies[2]), r3);
                    assert(seq![p1] + (seq![p2] + (seq![p3] + seq![delivery_of(job, replies[2])]))
                        =~= seq![p1, p2, p3, delivery_of(job, replies[2])]);
                } else {
                    lemma_steps_end(config, failure_of(job, replies[2]), r3);
                    assert(seq![p1] + (seq![p2] + (seq![p3] + seq![failure_of(job, replies[2])]))
                        =~= seq![p1, p2, p3, failure_of(job, replies[2])]);
                }
            }
        }
    }
}

/// One translation is never attempted more than `MAX_ATTEMPTS` times,
/// whatever the replies are: an exchange has posts at its first three steps
/// at most, and the post at step `i` is attempt number `i + 1`, made after a
/// pause of `i` seconds and with the request of the job.
pub proof fn law_attempts_are_bounded(config: ConfigView, job: JobView, replies: Seq<ReplyView>)
    ensures
        exchange(config, job, replies).len() <= MAX_ATTEMPTS + 1,
        forall|i: int|
            0 <= i < exchange(config, job, replies).len() && #[trigger] exchange(
                config,
                job,
                replies,
            )[i] is Post ==> i < MAX_ATTEMPTS && exchange(config, job, replies)[i] == post_of(
                config,
                job,
                (i + 1) as u32,
            ),
{
    law_exchange_by_cases(config, job, replies);
}

/// The pause before attempt `n`, for `n` from 2 to `MAX_ATTEMPTS`, is
/// `n - 1` seconds: the step that follows a failed attempt `n - 1` is the
/// post of attempt `n` with that delay.
pub proof fn law_backoff(config: ConfigView, job: JobView, n: u32, reply: ReplyView)
    requires
        2 <= n <= MAX_ATTEMPTS,
        reading(job.mode, reply) is Err,
    ensures
        next_step(config, PendingView { job, attempt: (n - 1) as u32 }, reply) == post_of(
            config,
            job,
            n,
        ),
        post_of(config, job, n)->Post_delay_ms == (n - 1) * 1000,
{
}

/// Where every attempt fails, exactly `MAX_ATTEMPTS` attempts are made, and
/// the exchange then fails with the error of the last one.
pub proof fn law_sustained_failure(config: ConfigView, job: JobView, replies: Seq<ReplyView>)
    requires
        replies.len() >= MAX_ATTEMPTS,
        all_fail(job, replies, MAX_ATTEMPTS as int),
    ensures
        exchange(config, job, replies) == seq![
            post_of(config, job, 1),
            post_of(config, job, 2),
            post_of(config, job, 3),
            failure_of(job, replies[2]),
        ],
{
    law_exchange_by_cases(config, job, replies);
    assert(reading(job.mode, replies[0]) is Err);
    assert(reading(job.mode, replies[1]) is Err);
    assert(reading(job.mode, replies[2]) is Err);
}

/// The first reply that holds a translation ends the exchange: where the
/// first `failures` replies fail and the next one succeeds, there are
/// `failures + 1` attempts, and then the translation is delivered together
/// with the text of the job.
pub proof fn law_first_success_delivers(
    config: ConfigView,
    job: JobView,
    replies: Seq<ReplyView>,
    failures: int,
)
    requires
        0 <= failures < MAX_ATTEMPTS,
        failures < replies.len(),
        all_fail(job, replies, failures),
        reading(job.mode, replies[failures]) is Ok,
    ensures
        exchange(config, job, replies).len() == failures + 2,
        forall|i: int|
            0 <= i <= failures ==> #[trigger] exchange(config, job, replies)[i] == post_of(
                config,
                job,
                (i + 1) as u32,
            ),
        exchange(config, job, replies).last() == delivery_of(job, replies[failures]),
{
    law_exchange_by_cases(config, job, replies);
    if failures >= 1 {
        assert(reading(job.mode, replies[0]) is Err);
    }
    if failures >= 2 {
        assert(reading(job.mode, replies[1]) is Err);
    }
}

/// The pause that a step asks for before it posts, in milliseconds; a step
/// that posts nothing asks for none.
pub open spec fn pause_of(step: StepView) -> int {
    match step {
        StepView::Post { delay_ms, .. } => delay_ms as int,
        _ => 0,
    }
}

/// The pauses of all the steps together, in milliseconds.
pub open spec fn total_pause(steps: Seq<StepView>) -> int
    decreases steps.len(),
{
    if steps.len() == 0 {
        0
    } else {
        total_pause(steps.drop_last()) + pause_of(steps.last())
    }
}

/// One translation pauses for three seconds at most, and for exactly three
/// seconds where it comes to a third attempt.
pub proof fn law_total_pause(config: ConfigView, job: JobView, replies: Seq<ReplyView>)
    ensures
        0 <= total_pause(exchange(config, job, replies)) <= 3000,
        exchange(config, job, replies).len() >= 3 && exchange(config, job, replies)[2] is Post
            ==> total_pause(exchange(config, job, replies)) == 3000,
{
    law_exchange_by_cases(config, job, replies);
    let steps = exchange(config, job, replies);
    let p1 = post_of(config, job, 1);
    let p2 = post_of(config, job, 2);
    let p3 = post_of(config, job, 3);
    assert(total_pause(Seq::<StepView>::empty()) == 0);
    assert(seq![p1].drop_last() =~= Seq::<StepView>::empty());
    assert(total_pause(seq![p1]) == 0);
    assert(seq![p1, p2].drop_last() =~= seq![p1]);
    assert(total_pause(seq![p1, p2]) == 1000);
    assert(seq![p1, p2, p3].drop_last() =~= seq![p1, p2]);
    assert(total_pause(seq![p1, p2, p3]) == 3000);
    if steps.len() >= 2 && !(steps.last() is Post) {
        let last = steps.last();
        assert(pause_of(last) == 0);
        if steps.len() == 2 {
            assert(steps.drop_last() =~= seq![p1]);
        } else if steps.len() == 3 {
            assert(steps.drop_last() =~= seq![p1, p2]);
        } else {
            assert(steps.drop_last() =~= seq![p1, p2, p3]);
        }
    }
}

} // verus!
