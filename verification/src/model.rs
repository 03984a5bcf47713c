//! A transfer seen from outside, as the run of native calls it was made of, and what holds of
//! every run against a system that answers as the native call is documented to.

use crate::errors::{ErrorClass, OsError};
use crate::native::{Outcome, Platform, Reply, Request};
use crate::operation::Step;
use vstd::prelude::*;

verus! {

/// One turn of the loop: the answer of one native call, and the class of its error code.
pub ghost struct Turn {
    pub reply: Reply,
    pub class: ErrorClass,
}

/// The source of a transfer and the system that reads it: the file's bytes, and the most bytes
/// that one native call moves.
pub ghost struct Source {
    pub bytes: Seq<u8>,
    pub ceiling: nat,
}

impl Source {
    /// Whether the file's size can be told in `usize` and in `off_t`.
    pub open spec fn fits(self) -> bool {
        self.bytes.len() <= usize::MAX && self.bytes.len() <= libc::off_t::MAX
    }

    /// The number of bytes from `offset` to the end of the source.
    pub open spec fn remaining(self, offset: int) -> int {
        if 0 <= offset <= self.bytes.len() {
            self.bytes.len() - offset
        } else {
            0
        }
    }

    /// The most bytes that a call asked for `count` bytes moves, where a count of 0 asks for
    /// all that remain.
    pub open spec fn limit(self, count: usize) -> nat {
        if 0 < count < self.ceiling {
            count as nat
        } else {
            self.ceiling
        }
    }

    /// Whether `moved` bytes are a count that the call made with `request` can have moved:
    /// within what remains of the source and within the limit of one call.
    pub open spec fn can_move(self, request: Request, moved: int) -> bool {
        0 <= moved <= self.remaining(request.offset as int) && moved <= self.limit(request.count)
    }

    /// Whether `reply` is an answer that the native call can give to `request`. A call that
    /// succeeds moves no byte only at the end of the source. On Linux a failed call moved
    /// nothing, and a call that succeeded left the offset behind the last byte it moved. On
    /// macOS and FreeBSD the count is written back whether the call failed or not.
    pub open spec fn answers(self, platform: Platform, request: Request, reply: Reply) -> bool {
        let at_end = self.remaining(request.offset as int) == 0;
        match platform {
            Platform::Linux => reply.failed() || {
                &&& self.can_move(request, reply.status as int)
                &&& reply.value == request.offset + reply.status
                &&& (reply.status == 0 <==> at_end)
            },
            Platform::MacOs => self.answers_with_count(request, reply),
            Platform::FreeBsd => self.answers_with_count(request, reply),
        }
    }

    /// [`Source::answers`] for the systems that write a count back.
    pub open spec fn answers_with_count(self, request: Request, reply: Reply) -> bool {
        &&& reply.status == 0 || reply.status == -1
        &&& self.can_move(request, reply.value as int)
        &&& !reply.failed() ==> (reply.value == 0 <==> self.remaining(request.offset as int) == 0)
    }

    /// The bytes that reached the destination by the call made with `request` and answered
    /// with `reply`.
    pub open spec fn sent(self, platform: Platform, request: Request, reply: Reply) -> Seq<u8> {
        self.bytes.subrange(request.offset as int, request.offset + platform.moved(reply))
    }
}

/// The number of bytes accounted after the turns of a run, from a new operation on.
pub open spec fn cursor(platform: Platform, turns: Seq<Turn>) -> usize
    decreases turns.len(),
{
    if turns.len() == 0 {
        0
    } else {
        platform.cursor_after(cursor(platform, turns.drop_last()), turns.last().reply)
    }
}

/// The native call that follows the turns of a run.
pub open spec fn next_request(platform: Platform, turns: Seq<Turn>) -> Request {
    platform.request_at(cursor(platform, turns))
}

/// How the loop went on after the last turn of a run.
pub open spec fn last_step(platform: Platform, turns: Seq<Turn>) -> Step
    recommends
        turns.len() > 0,
{
    platform.step_at(
        cursor(platform, turns.drop_last()),
        turns.last().reply,
        turns.last().class,
    )
}

/// Whether every reply of a run is an answer that `source` can give to the call that the
/// operation asked for at that turn.
pub open spec fn faithful(source: Source, platform: Platform, turns: Seq<Turn>) -> bool
    decreases turns.len(),
{
    if turns.len() == 0 {
        true
    } else {
        &&& faithful(source, platform, turns.drop_last())
        &&& source.answers(
            platform,
            next_request(platform, turns.drop_last()),
            turns.last().reply,
        )
    }
}

/// The bytes that reached the destination over a run, in the order in which they came.
pub open spec fn delivered(source: Source, platform: Platform, turns: Seq<Turn>) -> Seq<u8>
    decreases turns.len(),
{
    if turns.len() == 0 {
        Seq::empty()
    } else {
        delivered(source, platform, turns.drop_last()) + source.sent(
            platform,
            next_request(platform, turns.drop_last()),
            turns.last().reply,
        )
    }
}

/// The sum of the counts of all outcomes of a run that are [`Outcome::Advanced`].
pub open spec fn reported(platform: Platform, turns: Seq<Turn>) -> nat
    decreases turns.len(),
{
    if turns.len() == 0 {
        0
    } else {
        reported(platform, turns.drop_last()) + match platform.outcome(
            turns.last().reply,
            turns.last().class,
        ) {
            Outcome::Advanced(n) => n as nat,
            _ => 0nat,
        }
    }
}

/// The number of native calls of a run that moved at least one byte.
pub open spec fn moving_calls(platform: Platform, turns: Seq<Turn>) -> nat
    decreases turns.len(),
{
    if turns.len() == 0 {
        0
    } else {
        moving_calls(platform, turns.drop_last()) + if platform.moved(turns.last().reply) > 0 {
            1nat
        } else {
            0nat
        }
    }
}

/// What holds after every faithful run.
proof fn lemma_run(source: Source, platform: Platform, turns: Seq<Turn>)
    requires
        source.fits(),
        faithful(source, platform, turns),
    ensures
        cursor(platform, turns) <= source.bytes.len(),
        next_request(platform, turns).offset == cursor(platform, turns),
        delivered(source, platform, turns) == source.bytes.subrange(
            0,
            cursor(platform, turns) as int,
        ),
        reported(platform, turns) <= cursor(platform, turns),
        moving_calls(platform, turns) <= cursor(platform, turns),
        cursor(platform, turns) <= moving_calls(platform, turns) * source.limit(platform.count()),
        turns.len() > 0 ==> {
            let before = cursor(platform, turns.drop_last());
            &&& before <= cursor(platform, turns)
            &&& platform.accountable(before, turns.last().reply)
            &&& cursor(platform, turns) == before + platform.moved(turns.last().reply)
            &&& !turns.last().reply.failed() ==> (platform.moved(turns.last().reply) == 0
                <==> before == source.bytes.len())
        },
    decreases turns.len(),
{
    if turns.len() > 0 {
        let before = turns.drop_last();
        lemma_run(source, platform, before);
        let at = cursor(platform, before);
        let moved = platform.moved(turns.last().reply);
        let calls = moving_calls(platform, before);
        let limit = source.limit(platform.count());
        assert((calls + 1) * limit == calls * limit + limit) by (nonlinear_arith);
        assert(source.bytes.subrange(0, at as int) + source.bytes.subrange(at as int, at + moved)
            =~= source.bytes.subrange(0, at + moved));
    } else {
        assert(delivered(source, platform, turns) =~= source.bytes.subrange(0, 0));
    }
}

/// A run grows by a turn as the operation does by a step: the count becomes what
/// [`SendFile::step_with`](crate::operation::SendFile::step_with) leaves, the last step is the
/// one it returns, and the longer run is faithful where the shorter one is and the new reply
/// answers the call that the operation asked for.
pub proof fn run_grows_by_turn(source: Source, platform: Platform, turns: Seq<Turn>, turn: Turn)
    ensures
        cursor(platform, turns.push(turn)) == platform.cursor_after(
            cursor(platform, turns),
            turn.reply,
        ),
        last_step(platform, turns.push(turn)) == platform.step_at(
            cursor(platform, turns),
            turn.reply,
            turn.class,
        ),
        faithful(source, platform, turns.push(turn)) <==> faithful(source, platform, turns)
            && source.answers(platform, next_request(platform, turns), turn.reply),
{
    assert(turns.push(turn).drop_last() =~= turns);
}

/// Every run that a faithful run began with is faithful.
pub proof fn faithful_prefix(source: Source, platform: Platform, turns: Seq<Turn>, n: int)
    requires
        faithful(source, platform, turns),
        0 <= n <= turns.len(),
    ensures
        faithful(source, platform, turns.take(n)),
    decreases turns.len(),
{
    if n == turns.len() {
        assert(turns.take(n) =~= turns);
    } else {
        faithful_prefix(source, platform, turns.drop_last(), n);
        assert(turns.drop_last().take(n) =~= turns.take(n));
    }
}

/// A reply that the system can give never takes the count of bytes out of `usize`: the
/// operation can account every turn of a faithful run.
pub proof fn faithful_reply_is_accountable(source: Source, platform: Platform, turns: Seq<Turn>)
    requires
        source.fits(),
        faithful(source, platform, turns),
        turns.len() > 0,
    ensures
        platform.accountable(cursor(platform, turns.drop_last()), turns.last().reply),
{
    lemma_run(source, platform, turns);
}

/// Nothing is sent twice. After every faithful run the count of bytes moved is within the
/// size of the source, and so is the sum of the counts of all outcomes that are advances.
/// The count never goes back: each turn moves it forward by what its call moved. So no run
/// holds more calls that moved bytes than the source has bytes.
pub proof fn transfer_stays_within_source(source: Source, platform: Platform, turns: Seq<Turn>)
    requires
        source.fits(),
        faithful(source, platform, turns),
    ensures
        reported(platform, turns) <= cursor(platform, turns) <= source.bytes.len(),
        moving_calls(platform, turns) <= cursor(platform, turns),
        turns.len() > 0 ==> cursor(platform, turns) == cursor(platform, turns.drop_last())
            + platform.moved(turns.last().reply),
{
    lemma_run(source, platform, turns);
}

/// Bytes arrive in the order of the file and none is skipped. After every faithful run the
/// next call starts at the count of bytes moved, and what reached the destination is the
/// source's first bytes, as many as that count.
pub proof fn bytes_arrive_in_order(source: Source, platform: Platform, turns: Seq<Turn>)
    requires
        source.fits(),
        faithful(source, platform, turns),
    ensures
        next_request(platform, turns).offset == cursor(platform, turns),
        delivered(source, platform, turns) == source.bytes.subrange(
            0,
            cursor(platform, turns) as int,
        ),
{
    lemma_run(source, platform, turns);
}

/// A transfer that ends well has moved the whole source. Where the last turn of a faithful
/// run ends the transfer with a total, the total is the size of the source, it is the count
/// that the operation holds, and the destination has the source's bytes, all and in order.
pub proof fn completed_transfer_is_whole(
    source: Source,
    platform: Platform,
    turns: Seq<Turn>,
    total: usize,
)
    requires
        source.fits(),
        faithful(source, platform, turns),
        turns.len() > 0,
        last_step(platform, turns) == Step::Ready(Ok(total)),
    ensures
        total == source.bytes.len(),
        cursor(platform, turns) == total,
        delivered(source, platform, turns) == source.bytes,
{
    lemma_run(source, platform, turns);
    assert(source.bytes.subrange(0, source.bytes.len() as int) =~= source.bytes);
}

/// A call that succeeds brings the transfer forward. While bytes remain it moves at least
/// one, and the next call follows at once; at the end of the source it moves none, and the
/// transfer ends with the size of the source.
pub proof fn successful_call_makes_progress(source: Source, platform: Platform, turns: Seq<Turn>)
    requires
        source.fits(),
        faithful(source, platform, turns),
        turns.len() > 0,
        !turns.last().reply.failed(),
    ensures
        cursor(platform, turns.drop_last()) < source.bytes.len() ==> {
            &&& cursor(platform, turns.drop_last()) < cursor(platform, turns)
            &&& last_step(platform, turns) == Step::Again
        },
        cursor(platform, turns.drop_last()) == source.bytes.len() ==> {
            &&& cursor(platform, turns) == source.bytes.len()
            &&& last_step(platform, turns) == Step::Ready(Ok(source.bytes.len() as usize))
        },
{
    lemma_run(source, platform, turns);
    lemma_run(source, platform, turns.drop_last());
}

/// The limit of one call does not show in the result. A transfer that ends well reports the
/// size of the source, however many calls it took. It took at least as many calls that moved
/// bytes as the limit of one call needs to cover that size: two or more for a source larger
/// than the limit.
pub proof fn chunks_add_up(source: Source, platform: Platform, turns: Seq<Turn>, total: usize)
    requires
        source.fits(),
        faithful(source, platform, turns),
        turns.len() > 0,
        last_step(platform, turns) == Step::Ready(Ok(total)),
    ensures
        total == source.bytes.len(),
        source.bytes.len() <= moving_calls(platform, turns) * source.limit(platform.count()),
        source.bytes.len() > source.limit(platform.count()) ==> moving_calls(platform, turns) >= 2,
{
    lemma_run(source, platform, turns);
    let calls = moving_calls(platform, turns);
    let limit = source.limit(platform.count());
    assert(calls <= 1 ==> calls * limit <= limit) by (nonlinear_arith);
}

/// A turn that ends in `Pending` leaves the count of bytes moved as it was, and the next call
/// starts where this one did. This holds of every such turn on Linux, and on macOS and
/// FreeBSD of those whose call wrote back that it moved no byte.
pub proof fn pending_keeps_count(
    platform: Platform,
    written: usize,
    reply: Reply,
    class: ErrorClass,
)
    requires
        platform.step_at(written, reply, class) == Step::Pending,
        platform == Platform::Linux || platform.moved(reply) == 0,
    ensures
        platform.cursor_after(written, reply) == written,
        platform.request_at(platform.cursor_after(written, reply)) == platform.request_at(written),
{
}

/// A turn that ends in `Pending` loses no byte: the count moves forward by exactly what the
/// call wrote back as moved before it failed.
pub proof fn pending_accounts_what_moved(
    platform: Platform,
    written: usize,
    reply: Reply,
    class: ErrorClass,
)
    requires
        platform.step_at(written, reply, class) == Step::Pending,
        platform.accountable(written, reply),
    ensures
        reply.failed(),
        class == ErrorClass::WouldBlock,
        platform.cursor_after(written, reply) == written + platform.moved(reply),
{
}

/// A failure that is neither a full destination nor a signal ends the transfer with its error
/// code, and the count then tells the bytes that reached the destination before it: the
/// source's first bytes, as many as the count.
pub proof fn fatal_error_ends_transfer(source: Source, platform: Platform, turns: Seq<Turn>)
    requires
        source.fits(),
        faithful(source, platform, turns),
        turns.len() > 0,
        turns.last().reply.failed(),
        turns.last().class == ErrorClass::Other,
    ensures
        last_step(platform, turns) == Step::Ready(Err(OsError { code: turns.last().reply.errno })),
        cursor(platform, turns) <= source.bytes.len(),
        delivered(source, platform, turns).len() == cursor(platform, turns),
        delivered(source, platform, turns) == source.bytes.subrange(
            0,
            cursor(platform, turns) as int,
        ),
{
    lemma_run(source, platform, turns);
}

} // verus!
